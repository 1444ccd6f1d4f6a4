//! The tween family: values that evolve over accumulated elapsed time.
use vstd::prelude::*;

verus! {

/// The largest elapsed time a tween can hold; `Tweener::finish` jumps to it.
pub const TIME_SENTINEL: u64 = 0xffff_ffff_ffff_ffff;

/// Elapsed time after adding `dt` to `time`, saturating at the sentinel.
pub open spec fn advance(time: u64, dt: u64) -> u64 {
    if time + dt > u64::MAX {
        u64::MAX
    } else {
        (time + dt) as u64
    }
}

/// A fraction `done / total` in `[0, 1]`. It is complete when `done == total`
/// (a zero total therefore counts as complete).
#[derive(Clone, Copy, PartialEq, Eq, Debug, Structural)]
pub struct Progress {
    pub done: u64,
    pub total: u64,
}

impl Progress {
    pub open spec fn wf(self) -> bool {
        self.done <= self.total
    }

    pub open spec fn is_full(self) -> bool {
        self.done == self.total
    }

    /// The value `1`.
    pub fn one() -> (r: Progress)
        ensures
            r.wf(),
            r.is_full(),
            r.total == 1,
    {
        Progress { done: 1, total: 1 }
    }

    /// The value `0`.
    pub fn zero() -> (r: Progress)
        ensures
            r.wf(),
            r.done == 0,
            r.total == 1,
    {
        Progress { done: 0, total: 1 }
    }

    /// Whether the fraction has reached `1`.
    pub fn is_complete(&self) -> (r: bool)
        ensures
            r == self.is_full(),
    {
        self.done == self.total
    }

    /// `1 - self`, over the same denominator (`0` for a malformed value).
    pub fn complement(&self) -> (r: Progress)
        ensures
            r == self.spec_complement(),
    {
        if self.done <= self.total {
            Progress { done: self.total - self.done, total: self.total }
        } else {
            Progress { done: 0, total: self.total }
        }
    }

    pub open spec fn spec_complement(self) -> Progress {
        if self.done <= self.total {
            Progress { done: (self.total - self.done) as u64, total: self.total }
        } else {
            Progress { done: 0, total: self.total }
        }
    }
}

/// Progress of a fixed-duration tween: `min(time / target, 1)`, kept over the
/// denominator `target`.
pub open spec fn progress_at(time: u64, target: u64) -> Progress {
    if time < target {
        Progress { done: time, total: target }
    } else {
        Progress { done: target, total: target }
    }
}

/// The progress after `time` of a tween that lasts `target`.
pub fn compute_progress(time: u64, target: u64) -> (r: Progress)
    ensures
        r == progress_at(time, target),
        r.wf(),
{
    if time < target {
        Progress { done: time, total: target }
    } else {
        Progress { done: target, total: target }
    }
}

fn advance_time(time: u64, dt: u64) -> (r: u64)
    ensures
        r == advance(time, dt),
{
    time.saturating_add(dt)
}

/// Sum of a sequence of time deltas.
pub open spec fn total(dts: Seq<u64>) -> int
    decreases dts.len(),
{
    if dts.len() == 0 {
        0
    } else {
        total(dts.drop_last()) + dts.last()
    }
}

/// Elapsed time after adding each delta of `dts` in turn to `start`.
pub open spec fn elapsed_after(start: u64, dts: Seq<u64>) -> u64
    decreases dts.len(),
{
    if dts.len() == 0 {
        start
    } else {
        advance(elapsed_after(start, dts.drop_last()), dts.last())
    }
}

/// Adding deltas one by one accumulates their sum, up to the sentinel.
pub proof fn lemma_elapsed_is_total(start: u64, dts: Seq<u64>)
    ensures
        elapsed_after(start, dts) == if start + total(dts) > u64::MAX {
            u64::MAX as int
        } else {
            start + total(dts)
        },
    decreases dts.len(),
{
    if dts.len() > 0 {
        lemma_elapsed_is_total(start, dts.drop_last());
    }
}

/// Elapsed time never decreases along a run of updates.
pub proof fn lemma_elapsed_monotone(start: u64, dts: Seq<u64>, i: int, j: int)
    requires
        0 <= i <= j <= dts.len(),
    ensures
        start <= elapsed_after(start, dts.take(i)) <= elapsed_after(start, dts.take(j)),
    decreases j,
{
    if j > 0 {
        if i < j {
            lemma_elapsed_monotone(start, dts, i, j - 1);
        } else {
            lemma_elapsed_monotone(start, dts, i - 1, j - 1);
        }
        assert(dts.take(j).drop_last() =~= dts.take(j - 1));
    } else {
        assert(dts.take(0) =~= Seq::<u64>::empty());
    }
}

/// Progress of a fixed-duration tween never decreases as time grows.
pub proof fn lemma_progress_monotone(t1: u64, t2: u64, target: u64)
    requires
        t1 <= t2,
    ensures
        progress_at(t1, target).total == progress_at(t2, target).total,
        progress_at(t1, target).done <= progress_at(t2, target).done,
        progress_at(t1, target).is_full() ==> progress_at(t2, target).is_full(),
        t1 >= target ==> progress_at(t1, target).is_full(),
{
}

/// Update rule of a free-running tween: it receives the value, the elapsed
/// time and the last delta, and reports whether the tween is done.
pub trait StepRule<T> {
    spec fn stepped(&self, value: T, time: u64, dt: u64) -> (T, bool);

    fn step(&self, value: &mut T, time: u64, dt: u64) -> (done: bool)
        ensures
            (*final(value), done) == self.stepped(*old(value), time, dt),
    ;
}

/// Update rule of a fixed-duration tween: it receives the value and the
/// progress in `[0, 1]`.
pub trait ProgressRule<T> {
    spec fn applied(&self, value: T, progress: Progress) -> T;

    fn apply(&self, value: &mut T, progress: Progress)
        ensures
            *final(value) == self.applied(*old(value), progress),
    ;
}

/// Update rule of a transition: the outgoing value (when there is one) and
/// the incoming value each receive the transition's progress.
pub trait CrossfadeRule<A, B> {
    spec fn faded_out(&self, from: A, progress: Progress) -> A;

    spec fn faded_in(&self, to: B, progress: Progress) -> B;

    fn fade_out(&self, from: &mut A, progress: Progress)
        ensures
            *final(from) == self.faded_out(*old(from), progress),
    ;

    fn fade_in(&self, to: &mut B, progress: Progress)
        ensures
            *final(to) == self.faded_in(*old(to), progress),
    ;
}

/// The capabilities every tween shares: read the value, advance it, ask
/// whether it is complete, force completion, and take the value out.
pub trait Tween<T>: Sized {
    /// The value the tween holds.
    spec fn value(&self) -> T;

    /// Whether the tween reports completion.
    spec fn done(&self) -> bool;

    fn get_current(&self) -> (r: &T)
        ensures
            *r == self.value(),
    ;

    fn take_final(self) -> (r: T)
        ensures
            r == self.value(),
    ;

    /// Advances the tween by `dt` microseconds.
    fn update(&mut self, dt: u64);

    fn is_done(&self) -> (r: bool)
        ensures
            r == self.done(),
    ;

    /// Forces completion (each tween says how).
    fn finish(&mut self);
}

/// A free-running tween driven by a rule that itself reports completion.
pub struct Tweener<T, R: StepRule<T>> {
    pub time: u64,
    pub current: T,
    pub rule: R,
    pub is_done: bool,
}

impl<T, R: StepRule<T>> Tweener<T, R> {
    /// The state after `update(dt)`.
    pub open spec fn after_update(self, dt: u64) -> Self {
        let time = advance(self.time, dt);
        let (current, is_done) = self.rule.stepped(self.current, time, dt);
        Tweener { time, current, rule: self.rule, is_done }
    }

    /// The state after `update(dts[0])`, ..., `update(dts[n - 1])`.
    pub open spec fn after_updates(self, dts: Seq<u64>) -> Self
        decreases dts.len(),
    {
        if dts.len() == 0 {
            self
        } else {
            self.after_updates(dts.drop_last()).after_update(dts.last())
        }
    }

    pub fn new(current: T, rule: R) -> (r: Self)
        ensures
            r.time == 0,
            r.current == current,
            r.rule == rule,
            !r.is_done,
    {
        Tweener { time: 0, current, rule, is_done: false }
    }





}

impl<T, R: StepRule<T>> Tween<T> for Tweener<T, R> {
    open spec fn value(&self) -> T {
        self.current
    }

    open spec fn done(&self) -> bool {
        self.is_done
    }

    /// Adds `dt` to the elapsed time, then lets the rule step the value; the
    /// rule's answer becomes the done flag.
    fn update(&mut self, dt: u64)
        ensures
            *final(self) == old(self).after_update(dt),
    {
        self.time = advance_time(self.time, dt);
        let done = self.rule.step(&mut self.current, self.time, dt);
        self.is_done = done;
    }

    fn get_current(&self) -> (r: &T)
        ensures
            *r == self.current,
    {
        &self.current
    }

    fn take_final(self) -> (r: T)
        ensures
            r == self.current,
    {
        self.current
    }

    fn is_done(&self) -> (r: bool)
        ensures
            r == self.is_done,
    {
        self.is_done
    }

    /// Jumps the elapsed time to the sentinel, so that the next update
    /// snaps the value to its final state.
    fn finish(&mut self)
        ensures
            final(self).time == TIME_SENTINEL,
            final(self).current == old(self).current,
            final(self).rule == old(self).rule,
            final(self).is_done == old(self).is_done,
    {
        self.time = TIME_SENTINEL;
    }
}

/// A tween normalised to a fixed duration `target`.
pub struct TargetTweener<T, R: ProgressRule<T>> {
    pub time: u64,
    pub target: u64,
    pub current: T,
    pub rule: R,
}

impl<T, R: ProgressRule<T>> TargetTweener<T, R> {
    /// The state after `update(dt)`.
    pub open spec fn after_update(self, dt: u64) -> Self {
        let time = advance(self.time, dt);
        TargetTweener {
            time,
            target: self.target,
            current: self.rule.applied(self.current, progress_at(time, self.target)),
            rule: self.rule,
        }
    }

    pub open spec fn spec_is_done(self) -> bool {
        self.time >= self.target
    }

    /// The state after `update(dts[0])`, ..., `update(dts[n - 1])`.
    pub open spec fn after_updates(self, dts: Seq<u64>) -> Self
        decreases dts.len(),
    {
        if dts.len() == 0 {
            self
        } else {
            self.after_updates(dts.drop_last()).after_update(dts.last())
        }
    }

    pub fn new(target: u64, current: T, rule: R) -> (r: Self)
        ensures
            r.time == 0,
            r.target == target,
            r.current == current,
            r.rule == rule,
    {
        TargetTweener { time: 0, target, current, rule }
    }


    /// The progress that the last update handed to the rule.
    pub fn progress(&self) -> (r: Progress)
        ensures
            r == progress_at(self.time, self.target),
    {
        compute_progress(self.time, self.target)
    }




}

impl<T, R: ProgressRule<T>> Tween<T> for TargetTweener<T, R> {
    open spec fn value(&self) -> T {
        self.current
    }

    open spec fn done(&self) -> bool {
        self.spec_is_done()
    }

    /// Adds `dt` to the elapsed time and applies the rule at the progress
    /// `min(time / target, 1)`.
    fn update(&mut self, dt: u64)
        ensures
            *final(self) == old(self).after_update(dt),
    {
        self.time = advance_time(self.time, dt);
        let progress = compute_progress(self.time, self.target);
        self.rule.apply(&mut self.current, progress);
    }

    fn get_current(&self) -> (r: &T)
        ensures
            *r == self.current,
    {
        &self.current
    }

    fn take_final(self) -> (r: T)
        ensures
            r == self.current,
    {
        self.current
    }

    fn is_done(&self) -> (r: bool)
        ensures
            r == self.spec_is_done(),
    {
        self.time >= self.target
    }

    /// Sets the elapsed time to exactly the target.
    fn finish(&mut self)
        ensures
            final(self).time == old(self).target,
            final(self).target == old(self).target,
            final(self).current == old(self).current,
            final(self).rule == old(self).rule,
            final(self).spec_is_done(),
    {
        self.time = self.target;
    }
}

/// Progress of a transition: it jumps to `1` when the predecessor is absent
/// and the tween was asked to skip in that case.
pub open spec fn transition_progress(time: u64, target: u64, no_prev: bool, skip: bool) -> Progress {
    if time < target && !(no_prev && skip) {
        Progress { done: time, total: target }
    } else {
        Progress { done: target, total: target }
    }
}

/// A crossfade between an optional outgoing value and an incoming one.
pub struct TransitionTweener<A, B, R: CrossfadeRule<A, B>> {
    pub set_instantly_if_no_prev: bool,
    pub time: u64,
    pub target: u64,
    pub current: (Option<A>, B),
    pub rule: R,
}

impl<A, B, R: CrossfadeRule<A, B>> TransitionTweener<A, B, R> {
    /// The progress that `update(dt)` hands to the rule.
    pub open spec fn next_progress(self, dt: u64) -> Progress {
        transition_progress(
            advance(self.time, dt),
            self.target,
            self.current.0 is None,
            self.set_instantly_if_no_prev,
        )
    }

    /// The state after `update(dt)`: at full progress the predecessor is
    /// released before the rule runs.
    pub open spec fn after_update(self, dt: u64) -> Self {
        let p = self.next_progress(dt);
        let from = if p.is_full() {
            None
        } else {
            match self.current.0 {
                Some(a) => Some(self.rule.faded_out(a, p)),
                None => None,
            }
        };
        TransitionTweener {
            set_instantly_if_no_prev: self.set_instantly_if_no_prev,
            time: advance(self.time, dt),
            target: self.target,
            current: (from, self.rule.faded_in(self.current.1, p)),
            rule: self.rule,
        }
    }

    pub open spec fn spec_is_done(self) -> bool {
        self.time >= self.target
    }

    /// The state after `update(dts[0])`, ..., `update(dts[n - 1])`.
    pub open spec fn after_updates(self, dts: Seq<u64>) -> Self
        decreases dts.len(),
    {
        if dts.len() == 0 {
            self
        } else {
            self.after_updates(dts.drop_last()).after_update(dts.last())
        }
    }

    pub fn new(set_instantly_if_no_prev: bool, target: u64, current: (Option<A>, B), rule: R) -> (r: Self)
        ensures
            r.set_instantly_if_no_prev == set_instantly_if_no_prev,
            r.time == 0,
            r.target == target,
            r.current == current,
            r.rule == rule,
    {
        TransitionTweener { set_instantly_if_no_prev, time: 0, target, current, rule }
    }





}

impl<A, B, R: CrossfadeRule<A, B>> Tween<(Option<A>, B)> for TransitionTweener<A, B, R> {
    open spec fn value(&self) -> (Option<A>, B) {
        self.current
    }

    open spec fn done(&self) -> bool {
        self.spec_is_done()
    }

    /// Adds `dt`, computes the progress (forced to `1` when skipping an
    /// absent predecessor), releases the predecessor at full progress, then
    /// applies the rule.
    fn update(&mut self, dt: u64)
        ensures
            *final(self) == old(self).after_update(dt),
    {
        self.time = advance_time(self.time, dt);
        let progress = if self.time < self.target && !(self.current.0.is_none()
            && self.set_instantly_if_no_prev) {
            Progress { done: self.time, total: self.target }
        } else {
            self.current.0 = None;
            Progress { done: self.target, total: self.target }
        };
        let from = self.current.0.take();
        match from {
            Some(mut a) => {
                self.rule.fade_out(&mut a, progress);
                self.current.0 = Some(a);
            },
            None => {},
        }
        self.rule.fade_in(&mut self.current.1, progress);
    }

    fn get_current(&self) -> (r: &(Option<A>, B))
        ensures
            *r == self.current,
    {
        &self.current
    }

    fn take_final(self) -> (r: (Option<A>, B))
        ensures
            r == self.current,
    {
        self.current
    }

    fn is_done(&self) -> (r: bool)
        ensures
            r == self.spec_is_done(),
    {
        self.time >= self.target
    }

    /// Sets the elapsed time to exactly the target.
    fn finish(&mut self)
        ensures
            final(self).time == old(self).target,
            final(self).target == old(self).target,
            final(self).set_instantly_if_no_prev == old(self).set_instantly_if_no_prev,
            final(self).current == old(self).current,
            final(self).rule == old(self).rule,
            final(self).spec_is_done(),
    {
        self.time = self.target;
    }
}

/// A value that never animates, for code that holds tweens uniformly.
pub struct NonTweener<T> {
    pub current: T,
}

impl<T> NonTweener<T> {
    pub fn new(current: T) -> (r: Self)
        ensures
            r.current == current,
    {
        NonTweener { current }
    }



    pub fn get_current_mut(&mut self) -> (r: &mut T)
        ensures
            *r == old(self).current,
            final(self).current == *final(r),
    {
        &mut self.current
    }



}

impl<T> Tween<T> for NonTweener<T> {
    open spec fn value(&self) -> T {
        self.current
    }

    open spec fn done(&self) -> bool {
        true
    }

    /// Does nothing.
    fn update(&mut self, dt: u64)
        ensures
            final(self).current == old(self).current,
    {
    }

    fn get_current(&self) -> (r: &T)
        ensures
            *r == self.current,
    {
        &self.current
    }

    fn take_final(self) -> (r: T)
        ensures
            r == self.current,
    {
        self.current
    }

    /// Always true.
    fn is_done(&self) -> (r: bool)
        ensures
            r,
    {
        true
    }

    /// Does nothing.
    fn finish(&mut self)
        ensures
            final(self).current == old(self).current,
    {
    }
}

/// After any run of updates a free-running tween's elapsed time is the
/// sum of the deltas (saturating at the sentinel), and its done flag is the
/// answer the rule gave on the last update.
pub proof fn lemma_tweener_updates<T, R: StepRule<T>>(tw: Tweener<T, R>, dts: Seq<u64>)
    ensures
        tw.after_updates(dts).time == elapsed_after(tw.time, dts),
        tw.after_updates(dts).time == if tw.time + total(dts) > u64::MAX {
            u64::MAX as int
        } else {
            tw.time + total(dts)
        },
        tw.after_updates(dts).rule == tw.rule,
        dts.len() > 0 ==> tw.after_updates(dts).is_done == tw.rule.stepped(
            tw.after_updates(dts.drop_last()).current,
            tw.after_updates(dts).time,
            dts.last(),
        ).1,
    decreases dts.len(),
{
    lemma_elapsed_is_total(tw.time, dts);
    if dts.len() > 0 {
        lemma_tweener_updates(tw, dts.drop_last());
    }
}

/// A fixed-duration tween's time follows the accumulated deltas and its
/// target and rule never change.
pub proof fn lemma_target_time<T, R: ProgressRule<T>>(tw: TargetTweener<T, R>, dts: Seq<u64>)
    ensures
        tw.after_updates(dts).time == elapsed_after(tw.time, dts),
        tw.after_updates(dts).target == tw.target,
        tw.after_updates(dts).rule == tw.rule,
    decreases dts.len(),
{
    if dts.len() > 0 {
        lemma_target_time(tw, dts.drop_last());
    }
}

/// A fixed-duration tween's progress never decreases along a run of
/// updates; once the accumulated time reaches the target, the progress is
/// exactly `1` from then on, that is, on that update and all later ones.
pub proof fn lemma_target_saturates<T, R: ProgressRule<T>>(
    tw: TargetTweener<T, R>,
    dts: Seq<u64>,
    i: int,
    j: int,
)
    requires
        0 <= i <= j <= dts.len(),
    ensures
        ({
            let a = tw.after_updates(dts.take(i));
            let b = tw.after_updates(dts.take(j));
            &&& progress_at(a.time, a.target).total == progress_at(b.time, b.target).total
            &&& progress_at(a.time, a.target).done <= progress_at(b.time, b.target).done
            &&& a.time >= tw.target ==> progress_at(b.time, b.target).is_full()
        }),
{
    lemma_target_time(tw, dts.take(i));
    lemma_target_time(tw, dts.take(j));
    lemma_elapsed_monotone(tw.time, dts, i, j);
    lemma_progress_monotone(
        elapsed_after(tw.time, dts.take(i)),
        elapsed_after(tw.time, dts.take(j)),
        tw.target,
    );
}

/// With skipping enabled and no predecessor, one update of any size brings
/// the transition to full progress and leaves the predecessor absent.
pub proof fn lemma_skip_without_predecessor<A, B, R: CrossfadeRule<A, B>>(
    tw: TransitionTweener<A, B, R>,
    dt: u64,
)
    requires
        tw.set_instantly_if_no_prev,
        tw.current.0 is None,
    ensures
        tw.next_progress(dt).is_full(),
        tw.after_update(dt).current.0 is None,
{
}

/// From one update to the next a transition's progress never decreases;
/// once it reaches `1` the predecessor is released and the progress stays
/// at `1`.
pub proof fn lemma_transition_monotone<A, B, R: CrossfadeRule<A, B>>(
    tw: TransitionTweener<A, B, R>,
    dt1: u64,
    dt2: u64,
)
    ensures
        ({
            let before = tw.next_progress(dt1);
            let next = tw.after_update(dt1);
            let after = next.next_progress(dt2);
            &&& before.total == after.total
            &&& before.done <= after.done
            &&& before.is_full() ==> next.current.0 is None && after.is_full()
        }),
{
}

/// Once released, a transition's predecessor stays absent on every later
/// update.
pub proof fn lemma_predecessor_stays_released<A, B, R: CrossfadeRule<A, B>>(
    tw: TransitionTweener<A, B, R>,
    dts: Seq<u64>,
)
    requires
        tw.current.0 is None,
    ensures
        tw.after_updates(dts).current.0 is None,
    decreases dts.len(),
{
    if dts.len() > 0 {
        lemma_predecessor_stays_released(tw, dts.drop_last());
    }
}

} // verus!
