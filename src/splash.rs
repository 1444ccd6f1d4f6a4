//! The introductory splash screen: a pulse animation, then the main menu.
use vstd::prelude::*;
use crate::tween::{
    lemma_elapsed_is_total, lemma_target_time, total, Progress, ProgressRule, TargetTweener, Tween,
};

verus! {

/// Length of the splash animation, in microseconds.
pub const SPLASH_DURATION: u64 = 3_000_000;

/// Phase of the splash animation.
#[derive(Clone, Copy, PartialEq, Eq, Debug, Structural)]
pub enum SplashAnimState {
    Enter,
    Exit,
}

/// Keeps the latest progress as the animated value; the pulse drawn on
/// screen is a function of it.
pub struct TrackProgress;

impl ProgressRule<Progress> for TrackProgress {
    open spec fn applied(&self, value: Progress, progress: Progress) -> Progress {
        progress
    }

    fn apply(&self, value: &mut Progress, progress: Progress) {
        *value = progress;
    }
}

pub type SplashTween = TargetTweener<Progress, TrackProgress>;

pub struct SplashState {
    pub anim_state: SplashAnimState,
    pub splash: SplashTween,
}

impl SplashState {
    pub open spec fn after_update(self, dt: u64) -> SplashState {
        let splash = self.splash.after_update(dt);
        SplashState {
            anim_state: if self.anim_state == SplashAnimState::Enter && splash.spec_is_done() {
                SplashAnimState::Exit
            } else {
                self.anim_state
            },
            splash,
        }
    }

    /// The state after `update(dts[0])`, ..., `update(dts[n - 1])`.
    pub open spec fn after_updates(self, dts: Seq<u64>) -> SplashState
        decreases dts.len(),
    {
        if dts.len() == 0 {
            self
        } else {
            self.after_updates(dts.drop_last()).after_update(dts.last())
        }
    }

    /// Whether the splash asks to move on to the main menu.
    pub open spec fn wants_menu(self) -> bool {
        self.anim_state == SplashAnimState::Exit && self.splash.spec_is_done()
    }

    pub fn new() -> (r: SplashState)
        ensures
            r.anim_state == SplashAnimState::Enter,
            r.splash.time == 0,
            r.splash.target == SPLASH_DURATION,
            r.splash.current == (Progress { done: 0, total: 1 }),
    {
        SplashState {
            anim_state: SplashAnimState::Enter,
            splash: TargetTweener::new(SPLASH_DURATION, Progress::zero(), TrackProgress),
        }
    }

    /// Advances the animation; the enter phase turns into the exit phase
    /// once the animation is done.
    pub fn update(&mut self, dt: u64)
        ensures
            *final(self) == old(self).after_update(dt),
    {
        self.splash.update(dt);
        if self.anim_state == SplashAnimState::Enter && self.splash.is_done() {
            self.anim_state = SplashAnimState::Exit;
        }
    }

    pub fn is_done(&self) -> (r: bool)
        ensures
            r == self.splash.spec_is_done(),
    {
        self.splash.is_done()
    }

    /// Whether the splash is over and the main menu should follow.
    pub fn change_state(&self) -> (r: bool)
        ensures
            r == self.wants_menu(),
    {
        self.anim_state == SplashAnimState::Exit && self.splash.is_done()
    }
}

/// The splash's animation time is the sum of the deltas it was given.
proof fn lemma_splash_time(s: SplashState, dts: Seq<u64>)
    ensures
        s.after_updates(dts).splash == s.splash.after_updates(dts),
    decreases dts.len(),
{
    if dts.len() > 0 {
        lemma_splash_time(s, dts.drop_last());
    }
}

/// Once the updates given to a fresh splash add up to its duration, the
/// animation is done and the splash asks for the main menu.
pub proof fn lemma_splash_timing(s: SplashState, dts: Seq<u64>)
    requires
        s.anim_state == SplashAnimState::Enter,
        s.splash.time == 0,
        s.splash.target == SPLASH_DURATION,
        dts.len() > 0,
        total(dts) >= SPLASH_DURATION,
    ensures
        s.after_updates(dts).splash.spec_is_done(),
        s.after_updates(dts).wants_menu(),
{
    lemma_splash_time(s, dts);
    lemma_target_time(s.splash, dts);
    lemma_elapsed_is_total(0, dts);
    let before = s.after_updates(dts.drop_last());
    assert(s.after_updates(dts) == before.after_update(dts.last()));
}

} // verus!
