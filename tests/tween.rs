use nsengine::game::{RevealText, Typewriter, CHARACTER_FADE};
use nsengine::manager::{Crossfade, Sprite};
use nsengine::splash::TrackProgress;
use nsengine::tween::{
    NonTweener, Progress, TargetTweener, TransitionTweener, Tween, Tweener, TIME_SENTINEL,
};

fn text(n: usize) -> RevealText {
    RevealText { content: vec!['a'; n], shown: 0 }
}

#[test]
fn direct_tweener_accumulates_time() {
    let mut tw = Tweener::new(text(150), Typewriter);
    let dts = [10_000u64, 250_000, 1, 739_999];
    let mut sum = 0u64;
    for dt in dts {
        tw.update(dt);
        sum += dt;
        assert_eq!(tw.time, sum);
    }
    assert_eq!(sum, 1_000_000);
    // 75 characters per second: half of the line after one second
    assert_eq!(tw.get_current().shown, 75);
    assert!(!tw.is_done());
    tw.update(1_000_000);
    assert_eq!(tw.get_current().shown, 150);
    assert!(tw.is_done());
}

#[test]
fn direct_tweener_done_follows_last_rule_answer() {
    let mut tw = Tweener::new(text(3), Typewriter);
    tw.update(40_000);
    // floor(0.04 s * 75) = 3 characters: the whole line
    assert!(tw.is_done());
    let mut tw = Tweener::new(text(4), Typewriter);
    tw.update(40_000);
    assert!(!tw.is_done());
    assert_eq!(tw.take_final().shown, 3);
}

#[test]
fn direct_tweener_finish_snaps_on_next_update() {
    let mut tw = Tweener::new(text(1000), Typewriter);
    tw.update(1);
    tw.finish();
    assert_eq!(tw.time, TIME_SENTINEL);
    assert!(!tw.is_done());
    tw.update(5);
    assert_eq!(tw.time, TIME_SENTINEL);
    assert!(tw.is_done());
    assert_eq!(tw.get_current().shown, 1000);
}

#[test]
fn target_tweener_progress_saturates() {
    let mut tw = TargetTweener::new(1000, Progress::zero(), TrackProgress);
    tw.update(250);
    assert_eq!(*tw.get_current(), Progress { done: 250, total: 1000 });
    assert!(!tw.is_done());
    tw.update(750);
    assert_eq!(*tw.get_current(), Progress { done: 1000, total: 1000 });
    assert!(tw.is_done());
    for dt in [0u64, 1, 5000] {
        tw.update(dt);
        assert!(tw.get_current().is_complete());
        assert!(tw.progress().is_complete());
    }
}

#[test]
fn target_tweener_finish_is_immediate_and_idempotent() {
    let mut tw = TargetTweener::new(CHARACTER_FADE, Progress::zero(), TrackProgress);
    tw.update(10);
    tw.finish();
    assert!(tw.is_done());
    assert_eq!(tw.time, CHARACTER_FADE);
    tw.finish();
    assert_eq!(tw.time, CHARACTER_FADE);
    tw.update(0);
    assert_eq!(*tw.get_current(), Progress { done: CHARACTER_FADE, total: CHARACTER_FADE });
}

#[test]
fn transition_skips_without_predecessor() {
    let mut tw = TransitionTweener::new(
        true,
        250_000,
        (None::<Sprite<u32>>, Sprite::new(5u32)),
        Crossfade,
    );
    tw.update(1);
    let (from, to) = tw.get_current();
    assert!(from.is_none());
    assert_eq!(to.opacity, Progress { done: 250_000, total: 250_000 });
}

#[test]
fn transition_without_skip_fades_in() {
    let mut tw = TransitionTweener::new(
        false,
        200,
        (None::<Sprite<u32>>, Sprite::new(5u32)),
        Crossfade,
    );
    tw.update(50);
    assert_eq!(tw.get_current().1.opacity, Progress { done: 50, total: 200 });
}

#[test]
fn transition_crossfades_then_releases_predecessor() {
    let mut tw = TransitionTweener::new(
        true,
        100,
        (Some(Sprite::new(1u32)), Sprite::new(2u32)),
        Crossfade,
    );
    let mut last = 0u64;
    for dt in [10u64, 30, 20] {
        tw.update(dt);
        let (from, to) = tw.get_current();
        assert!(to.opacity.done >= last);
        last = to.opacity.done;
        let from = from.as_ref().unwrap();
        assert_eq!(from.opacity.done + to.opacity.done, 100);
    }
    assert_eq!(last, 60);
    assert!(!tw.is_done());
    tw.update(40);
    assert!(tw.get_current().0.is_none());
    assert!(tw.get_current().1.opacity.is_complete());
    assert!(tw.is_done());
    tw.update(1);
    assert!(tw.get_current().0.is_none());
    let (from, to) = tw.take_final();
    assert!(from.is_none());
    assert_eq!(to.content, 2);
}

#[test]
fn non_tweener_never_changes() {
    let mut tw = NonTweener::new(9u8);
    tw.update(1_000);
    tw.finish();
    assert!(tw.is_done());
    assert_eq!(*tw.get_current(), 9);
    *tw.get_current_mut() = 4;
    assert_eq!(tw.take_final(), 4);
}

#[test]
fn progress_complement() {
    let p = Progress { done: 3, total: 10 };
    assert_eq!(p.complement(), Progress { done: 7, total: 10 });
    assert!(Progress::one().is_complete());
    assert!(!Progress::zero().is_complete());
}
