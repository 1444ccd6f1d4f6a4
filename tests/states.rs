use nsengine::error::ErrorState;
use nsengine::manager::{State, StateManager, TRANSITION_DURATION};
use nsengine::menu::{MainMenuState, MenuButtonId, Window};
use nsengine::splash::{SplashAnimState, SplashState, SPLASH_DURATION};
use nsengine::tween::Progress;

#[test]
fn splash_requests_menu_after_three_seconds() {
    let mut s = SplashState::new();
    for _ in 0..30 {
        assert!(!s.change_state());
        s.update(100_000);
    }
    assert_eq!(s.splash.time, SPLASH_DURATION);
    assert!(s.is_done());
    assert_eq!(s.anim_state, SplashAnimState::Exit);
    assert!(s.change_state());
    let next = State::Splash(s).change_state();
    assert!(matches!(next, Some(State::MainMenu(_))));
}

#[test]
fn splash_not_done_before_three_seconds() {
    let mut s = SplashState::new();
    s.update(2_999_999);
    assert!(!s.is_done());
    assert_eq!(s.anim_state, SplashAnimState::Enter);
    assert_eq!(s.splash.current, Progress { done: 2_999_999, total: 3_000_000 });
    assert!(State::Splash(s).change_state().is_none());
}

#[test]
fn menu_start_leads_to_game() {
    let mut m = MainMenuState::new();
    assert!(!m.change_state());
    m.mouse_button_up(MenuButtonId::Start);
    m.update();
    assert_eq!(m.clicked_event, Some(MenuButtonId::Start));
    assert!(m.change_state());
    match State::MainMenu(m).change_state() {
        Some(State::Game(g)) => {
            assert!(!g.is_end);
            assert!(g.screen.current_characters.is_empty());
        },
        _ => panic!("expected the narrative screen"),
    }
}

#[test]
fn menu_windows_and_quit() {
    let mut m = MainMenuState::new();
    m.mouse_button_up(MenuButtonId::Options);
    m.update();
    assert_eq!(m.window, Window::Options);
    assert_eq!(m.clicked_event, None);
    // clicks on the menu behind an open window do not count
    m.mouse_button_up(MenuButtonId::Start);
    assert_eq!(m.clicked_event, None);
    m.close_window();
    m.mouse_button_up(MenuButtonId::Credits);
    m.update();
    assert_eq!(m.window, Window::Credits);
    m.close_window();
    m.mouse_button_up(MenuButtonId::Quit);
    m.update();
    assert!(m.quit_requested);
    assert!(!m.change_state());
}

#[test]
fn first_transition_is_instant() {
    let mut m: StateManager<u32> = StateManager::new(State::Splash(SplashState::new()));
    assert!(m.update(16_000).is_none());
    assert!(m.state.current.0.is_none());
    assert_eq!(
        m.state.current.1.opacity,
        Progress { done: TRANSITION_DURATION, total: TRANSITION_DURATION }
    );
    // the active screen was updated after the transition
    match m.active() {
        State::Splash(s) => assert_eq!(s.splash.time, 16_000),
        _ => panic!("expected the splash"),
    }
}

#[test]
fn later_transitions_crossfade() {
    let mut m: StateManager<u32> = StateManager::new(State::Splash(SplashState::new()));
    m.update(1);
    m.begin_transition(Some(77), State::MainMenu(MainMenuState::new()));
    m.update(TRANSITION_DURATION / 5);
    let (from, to) = &m.state.current;
    assert_eq!(from.as_ref().unwrap().content, 77);
    assert_eq!(from.as_ref().unwrap().opacity, Progress { done: 200_000, total: 250_000 });
    assert_eq!(to.opacity, Progress { done: 50_000, total: 250_000 });
    m.update(TRANSITION_DURATION);
    assert!(m.state.current.0.is_none());
    assert!(m.state.current.1.opacity.is_complete());
}

#[test]
fn update_error_shows_error_screen_next_frame() {
    let mut m: StateManager<u32> = StateManager::new(State::MainMenu(MainMenuState::new()));
    // frame N: the screen's work fails; the frame still draws the menu
    assert!(m.update(16_000).is_none());
    assert!(matches!(m.settle(Err("texture missing".to_string())), Ok(None)));
    assert!(matches!(m.active(), State::MainMenu(_)));
    // frame N + 1: the error screen is handed back and switched to
    let next = m.update(16_000);
    match &next {
        Some(State::Error(e)) => assert_eq!(e.text, "texture missing"),
        _ => panic!("expected the error screen"),
    }
    m.begin_transition(Some(1), next.unwrap());
    match m.active() {
        State::Error(e) => assert_eq!(e.text, "texture missing"),
        _ => panic!("expected the error screen"),
    }
    assert_eq!(m.error, None);
}

#[test]
fn draw_error_shows_error_screen_next_frame() {
    let mut m: StateManager<u32> = StateManager::new(State::Splash(SplashState::new()));
    assert!(m.draw_failed("bad draw".to_string()).is_ok());
    match m.update(1) {
        Some(State::Error(e)) => assert_eq!(e.text, "bad draw"),
        _ => panic!("expected the error screen"),
    }
}

#[test]
fn error_screen_errors_propagate() {
    let mut m: StateManager<u32> =
        StateManager::new(State::Error(ErrorState::new("first".to_string())));
    m.update(1);
    match m.settle(Err("second".to_string())) {
        Err(e) => assert_eq!(e, "second"),
        Ok(_) => panic!("the error screen has nothing to fall back to"),
    }
    assert!(m.draw_failed("third".to_string()).is_err());
    assert_eq!(m.error, None);
    assert!(matches!(m.settle(Ok(())), Ok(None)));
}

#[test]
fn settle_forwards_screen_request() {
    let mut m: StateManager<u32> = StateManager::new(State::MainMenu(MainMenuState::new()));
    if let State::MainMenu(menu) = m.active_mut() {
        menu.mouse_button_up(MenuButtonId::Start);
    }
    m.update(1);
    assert!(matches!(m.settle(Ok(())), Ok(Some(State::Game(_)))));
}
