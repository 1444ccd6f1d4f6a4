//! The screen manager: owns the active screen inside a crossfade from a
//! snapshot of the previous one, and turns screen errors into the error
//! screen.
//!
//! A frame runs in three steps, with the host's own work in between:
//! `update` (which may hand back the error screen to switch to), the host's
//! work for the active screen, then `settle` with the outcome of that work
//! (which may hand back the screen to switch to). To switch, the host
//! captures the current frame and calls `begin_transition`.
use vstd::prelude::*;
use crate::error::ErrorState;
use crate::game::{game_updated, GameState, NarrativeRequest};
use crate::menu::{MainMenuState, Window};
use crate::splash::SplashState;
use crate::tween::{CrossfadeRule, Progress, TransitionTweener, Tween};

verus! {

/// Length of a crossfade between two screens, in microseconds.
pub const TRANSITION_DURATION: u64 = 250_000;

/// A drawable value with its opacity.
pub struct Sprite<T> {
    pub content: T,
    pub opacity: Progress,
}

impl<T> Sprite<T> {
    /// A fully opaque sprite.
    pub fn new(content: T) -> (r: Sprite<T>)
        ensures
            r.content == content,
            r.opacity == (Progress { done: 1, total: 1 }),
    {
        Sprite { content, opacity: Progress::one() }
    }
}

/// Complementary opacities: the outgoing sprite at `1 - progress`, the
/// incoming one at `progress`.
pub struct Crossfade;

impl<A, B> CrossfadeRule<Sprite<A>, Sprite<B>> for Crossfade {
    open spec fn faded_out(&self, from: Sprite<A>, progress: Progress) -> Sprite<A> {
        Sprite { content: from.content, opacity: progress.spec_complement() }
    }

    open spec fn faded_in(&self, to: Sprite<B>, progress: Progress) -> Sprite<B> {
        Sprite { content: to.content, opacity: progress }
    }

    fn fade_out(&self, from: &mut Sprite<A>, progress: Progress) {
        from.opacity = progress.complement();
    }

    fn fade_in(&self, to: &mut Sprite<B>, progress: Progress) {
        to.opacity = progress;
    }
}

/// The closed set of screens.
pub enum State {
    Game(GameState),
    MainMenu(MainMenuState),
    Splash(SplashState),
    Error(ErrorState),
}

/// A main menu as `MainMenuState::new` makes it.
pub open spec fn fresh_menu(s: State) -> bool {
    match s {
        State::MainMenu(m) => m.clicked_event is None && m.window == Window::Closed
            && !m.quit_requested,
        _ => false,
    }
}

/// A narrative screen as `GameState::new` makes it.
pub open spec fn fresh_game(s: State) -> bool {
    match s {
        State::Game(g) => {
            &&& g.continue_method == crate::game::ContinueMethod::Normal
            &&& g.screen.current_background is None
            &&& g.screen.current_characters@.len() == 0
            &&& g.screen.action is Idle
            &&& !g.screen.is_screenshot
            &&& !g.is_end
            &&& g.request == Some(NarrativeRequest::Next)
        },
        _ => false,
    }
}

impl State {
    /// One frame of the screen's own logic.
    pub open spec fn updated(self, new: State, dt: u64) -> bool {
        match self {
            State::Game(g) => match new {
                State::Game(h) => game_updated(g, h, dt),
                _ => false,
            },
            State::MainMenu(m) => new == State::MainMenu(m.after_update()),
            State::Splash(s) => new == State::Splash(s.after_update(dt)),
            State::Error(_) => new == self,
        }
    }

    /// The screen that `change_state` asks to switch to, if any: the splash
    /// and a finished narrative lead to the main menu, Start leads to the
    /// narrative, the error screen leads nowhere.
    pub open spec fn request_holds(self, r: Option<State>) -> bool {
        match self {
            State::Splash(s) => if s.wants_menu() {
                r is Some && fresh_menu(r.unwrap())
            } else {
                r is None
            },
            State::MainMenu(m) => if m.wants_game() {
                r is Some && fresh_game(r.unwrap())
            } else {
                r is None
            },
            State::Game(g) => if g.is_end {
                r is Some && fresh_menu(r.unwrap())
            } else {
                r is None
            },
            State::Error(_) => r is None,
        }
    }

    /// Advances the screen's own logic by `dt`.
    pub fn update(&mut self, dt: u64)
        ensures
            old(self).updated(*final(self), dt),
    {
        match self {
            State::Game(g) => g.update(dt),
            State::MainMenu(m) => m.update(),
            State::Splash(s) => s.update(dt),
            State::Error(_) => {},
        }
    }

    /// The screen to switch to, checked once per frame after a successful
    /// update.
    pub fn change_state(&self) -> (r: Option<State>)
        ensures
            self.request_holds(r),
    {
        match self {
            State::Splash(s) => if s.change_state() {
                Some(State::MainMenu(MainMenuState::new()))
            } else {
                None
            },
            State::MainMenu(m) => if m.change_state() {
                Some(State::Game(GameState::new()))
            } else {
                None
            },
            State::Game(g) => if g.is_end {
                Some(State::MainMenu(MainMenuState::new()))
            } else {
                None
            },
            State::Error(_) => None,
        }
    }

    pub fn is_error(&self) -> (r: bool)
        ensures
            r == (*self is Error),
    {
        match self {
            State::Error(_) => true,
            _ => false,
        }
    }
}

pub type SceneTween<I> = TransitionTweener<Sprite<I>, Sprite<State>, Crossfade>;

/// A fresh crossfade from an optional snapshot to `next`, skipped when
/// there is no snapshot.
pub open spec fn scene_transition<I>(snapshot: Option<I>, next: State) -> SceneTween<I> {
    TransitionTweener {
        set_instantly_if_no_prev: true,
        time: 0,
        target: TRANSITION_DURATION,
        current: (
            match snapshot {
                Some(i) => Some(Sprite { content: i, opacity: Progress { done: 1, total: 1 } }),
                None => None,
            },
            Sprite { content: next, opacity: Progress { done: 1, total: 1 } },
        ),
        rule: Crossfade,
    }
}

fn switch_scene_tween<I>(snapshot: Option<I>, state: State) -> (r: SceneTween<I>)
    ensures
        r == scene_transition(snapshot, state),
{
    let from = match snapshot {
        Some(img) => Some(Sprite::new(img)),
        None => None,
    };
    TransitionTweener::new(true, TRANSITION_DURATION, (from, Sprite::new(state)), Crossfade)
}

/// Owns the active screen, the crossfade into it, and the error waiting to
/// be shown. `I` is the host's image type for snapshots.
pub struct StateManager<I> {
    pub state: SceneTween<I>,
    pub error: Option<String>,
}

/// The first step of a frame (see `StateManager::update`).
pub open spec fn frame_updated<I>(
    old: StateManager<I>,
    new: StateManager<I>,
    dt: u64,
    r: Option<State>,
) -> bool {
    match old.error {
        Some(e) => {
            &&& r == Some(State::Error(ErrorState { text: e }))
            &&& new.error is None
            &&& new.state == old.state
        },
        None => {
            let t = old.state.after_update(dt);
            &&& r is None
            &&& new.error is None
            &&& new.state.set_instantly_if_no_prev == t.set_instantly_if_no_prev
            &&& new.state.time == t.time
            &&& new.state.target == t.target
            &&& new.state.rule == t.rule
            &&& new.state.current.0 == t.current.0
            &&& new.state.current.1.opacity == t.current.1.opacity
            &&& t.current.1.content.updated(new.state.current.1.content, dt)
        },
    }
}

/// The last step of a frame (see `StateManager::settle`).
pub open spec fn frame_settled<I>(
    old: StateManager<I>,
    outcome: Result<(), String>,
    new: StateManager<I>,
    r: Result<Option<State>, String>,
) -> bool {
    match outcome {
        Err(e) => if old.state.current.1.content is Error {
            r == Err::<Option<State>, String>(e) && new == old
        } else {
            &&& r == Ok::<Option<State>, String>(None)
            &&& new.error == Some(e)
            &&& new.state == old.state
        },
        Ok(_) => {
            &&& new == old
            &&& r is Ok
            &&& old.state.current.1.content.request_holds(r.unwrap())
        },
    }
}

impl<I> StateManager<I> {
    /// Shows `state` at once: the first transition has no snapshot to fade
    /// from.
    pub fn new(state: State) -> (r: StateManager<I>)
        ensures
            r.state == scene_transition(None::<I>, state),
            r.error is None,
    {
        StateManager { state: switch_scene_tween(None, state), error: None }
    }

    /// Replaces the current transition with a crossfade from `snapshot` to
    /// `next`, abandoning whatever was in flight.
    pub fn begin_transition(&mut self, snapshot: Option<I>, next: State)
        ensures
            final(self).state == scene_transition(snapshot, next),
            final(self).error == old(self).error,
    {
        self.state = switch_scene_tween(snapshot, next);
    }

    /// First step of a frame. An error recorded in the previous frame is
    /// consumed and its error screen returned (the host switches to it and
    /// skips the rest of the frame). Otherwise the crossfade advances by
    /// `dt`, then the active screen's own logic.
    pub fn update(&mut self, dt: u64) -> (r: Option<State>)
        ensures
            frame_updated(*old(self), *final(self), dt, r),
    {
        match self.error.take() {
            Some(e) => {
                return Some(State::Error(ErrorState::new(e)));
            },
            None => {},
        }
        self.state.update(dt);
        self.state.current.1.content.update(dt);
        None
    }

    /// Last step of a frame, with the outcome of the host's work for the
    /// active screen. A failure is kept to be shown on the next frame, except
    /// on the error screen, where it is returned. On success the screen's
    /// request to switch, if any, is returned.
    pub fn settle(&mut self, outcome: Result<(), String>) -> (r: Result<Option<State>, String>)
        ensures
            frame_settled(*old(self), outcome, *final(self), r),
    {
        match outcome {
            Err(e) => {
                if self.state.current.1.content.is_error() {
                    Err(e)
                } else {
                    self.error = Some(e);
                    Ok(None)
                }
            },
            Ok(()) => Ok(self.state.current.1.content.change_state()),
        }
    }

    /// Records a failure to draw the active screen, to be shown on the next
    /// frame; on the error screen it is returned instead.
    pub fn draw_failed(&mut self, e: String) -> (r: Result<(), String>)
        ensures
            frame_settled(
                *old(self),
                Err(e),
                *final(self),
                match r {
                    Ok(_) => Ok(None),
                    Err(x) => Err(x),
                },
            ),
    {
        if self.state.current.1.content.is_error() {
            Err(e)
        } else {
            self.error = Some(e);
            Ok(())
        }
    }

    /// The screen that receives input: always the incoming one.
    pub fn active(&self) -> (r: &State)
        ensures
            *r == self.state.current.1.content,
    {
        &self.state.current.1.content
    }

    /// The screen that receives input, for the host's event handlers.
    pub fn active_mut(&mut self) -> (r: &mut State)
        ensures
            *r == old(self).state.current.1.content,
            final(self).state.current.1.content == *final(r),
            final(self).state.current.1.opacity == old(self).state.current.1.opacity,
            final(self).state.current.0 == old(self).state.current.0,
            final(self).state.time == old(self).state.time,
            final(self).state.target == old(self).state.target,
            final(self).state.set_instantly_if_no_prev == old(self).state.set_instantly_if_no_prev,
            final(self).error == old(self).error,
    {
        &mut self.state.current.1.content
    }
}

/// The very first transition is complete on its first update: the new
/// screen is fully shown and there is no snapshot to fade.
pub proof fn lemma_first_transition_instant<I>(state: State, dt: u64)
    ensures
        scene_transition(None::<I>, state).next_progress(dt).is_full(),
        scene_transition(None::<I>, state).after_update(dt).current.0 is None,
        scene_transition(None::<I>, state).after_update(dt).current.1.opacity.is_full(),
{
}

/// When the active screen's work fails on one frame, the next frame hands
/// back the error screen with that error's text, and switching to it makes
/// it the screen that is drawn.
pub proof fn lemma_error_shown_next_frame<I>(
    m0: StateManager<I>,
    m1: StateManager<I>,
    r1: Option<State>,
    dt1: u64,
    e: String,
    m2: StateManager<I>,
    r2: Result<Option<State>, String>,
    m3: StateManager<I>,
    r3: Option<State>,
    dt2: u64,
    snapshot: Option<I>,
)
    requires
        m0.error is None,
        !(m0.state.current.1.content is Error),
        frame_updated(m0, m1, dt1, r1),
        frame_settled(m1, Err(e), m2, r2),
        frame_updated(m2, m3, dt2, r3),
    ensures
        r1 is None,
        r2 == Ok::<Option<State>, String>(None),
        r3 == Some(State::Error(ErrorState { text: e })),
        scene_transition(snapshot, r3.unwrap()).current.1.content == State::Error(
            ErrorState { text: e },
        ),
{
}

} // verus!
