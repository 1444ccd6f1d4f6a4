use nsengine::game::{
    Action, ContinueMethod, DataNode, GameState, Key, LoadNode, MenuButtonId, NarrativeRequest, Node,
    Placement,
    AUTO_INTERVAL, BACKGROUND_FADE, CHARACTER_FADE, SKIP_INTERVAL,
};
use nsengine::manager::State;
use nsengine::tween::{Progress, Tween};

fn character(name: &str, expression: Option<&str>, placement: Option<Placement>) -> Node {
    Node::Load(LoadNode::Character {
        character: name.to_string(),
        expression: expression.map(|e| e.to_string()),
        placement,
    })
}

fn line(s: &str) -> Node {
    Node::Data(DataNode::Text { speaker: Some("alice".to_string()), content: s.chars().collect() })
}

fn choice(options: Vec<String>) -> Node {
    Node::Data(DataNode::Choice(options))
}

fn names(g: &GameState) -> Vec<(String, String)> {
    g.screen
        .current_characters
        .iter()
        .map(|c| (c.current.name.clone(), c.current.expression.clone()))
        .collect()
}

#[test]
fn save_round_trip() {
    let mut g = GameState::new();
    assert!(g.continue_text(Some(Node::Load(LoadNode::Background { name: "forest".to_string() }))));
    assert!(g.continue_text(Some(character("alice", Some("happy"), Some(Placement::Right)))));
    assert!(g.continue_text(Some(character("bob", Some("neutral"), Some(Placement::Right)))));
    g.update(100_000);
    let data = g.save_data(42u32);
    assert_eq!(data.current_background.as_deref(), Some("forest"));

    let mut loaded = GameState::new();
    assert_eq!(loaded.load_save(data), 42);
    assert_eq!(
        names(&loaded),
        vec![
            ("alice".to_string(), "happy".to_string()),
            ("bob".to_string(), "neutral".to_string())
        ]
    );
    for c in &loaded.screen.current_characters {
        assert!(c.current.alpha.is_complete());
        assert!(c.is_done());
    }
    let bg = loaded.screen.current_background.as_ref().unwrap();
    assert_eq!(bg.current.1.name, "forest");
    assert!(bg.current.0.is_none());
    assert_eq!(bg.current.1.fade, Progress { done: BACKGROUND_FADE, total: BACKGROUND_FADE });
    assert!(bg.is_done());
    assert_eq!(loaded.request, Some(NarrativeRequest::Current));
    // nothing fades afterwards either
    loaded.update(1);
    assert!(loaded.screen.current_characters[0].current.alpha.is_complete());
    assert!(loaded.screen.current_background.as_ref().unwrap().current.1.fade.is_complete());
}

#[test]
fn save_without_background() {
    let g = GameState::new();
    let data = g.save_data(());
    assert!(data.current_background.is_none());
    assert!(data.current_characters.is_empty());
}

#[test]
fn new_game_asks_for_first_node() {
    let mut g = GameState::new();
    assert_eq!(g.take_request(), Some(NarrativeRequest::Next));
    assert_eq!(g.take_request(), None);
}

#[test]
fn characters_enter_by_placement() {
    let mut g = GameState::new();
    g.continue_text(Some(character("a", None, None)));
    g.continue_text(Some(character("b", None, Some(Placement::Left))));
    g.continue_text(Some(character("c", Some("sad"), Some(Placement::Right))));
    assert_eq!(
        names(&g),
        vec![
            ("b".to_string(), "Normal".to_string()),
            ("a".to_string(), "Normal".to_string()),
            ("c".to_string(), "sad".to_string())
        ]
    );
    assert_eq!(g.screen.current_characters[2].current.position, Placement::Right);
    assert_eq!(g.screen.current_characters[0].current.alpha, Progress { done: 0, total: 1 });
    g.update(CHARACTER_FADE / 3);
    assert_eq!(g.screen.current_characters[0].current.alpha, Progress { done: 250_000, total: 750_000 });
}

#[test]
fn known_character_changes_expression_at_once() {
    let mut g = GameState::new();
    g.continue_text(Some(character("a", Some("happy"), Some(Placement::Right))));
    g.continue_text(Some(character("b", None, Some(Placement::Right))));
    g.continue_text(Some(character("a", Some("angry"), None)));
    assert_eq!(
        names(&g),
        vec![("a".to_string(), "angry".to_string()), ("b".to_string(), "Normal".to_string())]
    );
    assert_eq!(g.screen.current_characters[0].current.position, Placement::Right);
    assert!(g.screen.current_characters[0].is_done());
    g.update(1);
    assert!(g.screen.current_characters[0].current.alpha.is_complete());
    g.continue_text(Some(character("a", None, Some(Placement::Left))));
    assert_eq!(g.screen.current_characters[0].current.expression, "angry");
    assert_eq!(g.screen.current_characters[0].current.position, Placement::Left);
}

#[test]
fn remove_character() {
    let mut g = GameState::new();
    g.continue_text(Some(character("a", None, Some(Placement::Right))));
    g.continue_text(Some(character("b", None, Some(Placement::Right))));
    assert!(g.continue_text(Some(Node::Load(LoadNode::RemoveCharacter { name: "a".to_string() }))));
    assert_eq!(names(&g), vec![("b".to_string(), "Normal".to_string())]);
    g.continue_text(Some(Node::Load(LoadNode::RemoveCharacter { name: "zed".to_string() })));
    assert_eq!(g.screen.current_characters.len(), 1);
}

#[test]
fn background_crossfade() {
    let mut g = GameState::new();
    g.continue_text(Some(Node::Load(LoadNode::Background { name: "forest".to_string() })));
    g.update(1);
    let bg = g.screen.current_background.as_ref().unwrap();
    // no predecessor: shown at once
    assert!(bg.current.1.fade.is_complete());
    g.continue_text(Some(Node::Load(LoadNode::Background { name: "town".to_string() })));
    g.update(BACKGROUND_FADE / 4);
    let bg = g.screen.current_background.as_ref().unwrap();
    let prev = bg.current.0.as_ref().unwrap();
    assert_eq!(prev.name, "forest");
    assert_eq!(prev.fade, Progress { done: 375_000, total: 500_000 });
    assert_eq!(bg.current.1.name, "town");
    assert_eq!(bg.current.1.fade, Progress { done: 125_000, total: 500_000 });
    g.update(BACKGROUND_FADE);
    assert!(g.screen.current_background.as_ref().unwrap().current.0.is_none());
}

#[test]
fn text_and_choice_nodes_stop_the_chain() {
    let mut g = GameState::new();
    assert!(!g.continue_text(Some(line("hello"))));
    assert!(matches!(g.screen.action, Action::Text(_)));
    assert!(!g.continue_text(Some(choice(vec!["x".to_string(), "y".to_string()]))));
    assert!(matches!(g.screen.action, Action::Choice(_)));
    assert!(g.continue_text(Some(Node::Load(LoadNode::PlaySound { name: "a.ogg".to_string(), channel: "sfx".to_string() }))));
}

#[test]
fn end_of_narrative_returns_to_menu() {
    let mut g = GameState::new();
    assert!(!g.continue_text(None));
    assert!(g.is_end);
    assert!(matches!(State::Game(g).change_state(), Some(State::MainMenu(_))));
}

#[test]
fn advance_text_reveals_then_continues() {
    let mut g = GameState::new();
    g.take_request();
    g.continue_text(Some(line("a long line of text")));
    g.update(1_000);
    g.key_down(Key::Space);
    // first press shows the whole line
    assert_eq!(g.request, None);
    g.update(1);
    match &g.screen.action {
        Action::Text(t) => {
            assert!(t.content.is_done());
            assert_eq!(t.content.get_current().shown, 19);
        },
        _ => panic!("expected text"),
    }
    g.key_down(Key::Return);
    assert_eq!(g.request, Some(NarrativeRequest::Next));
}

#[test]
fn hide_interface_key() {
    let mut g = GameState::new();
    g.key_down(Key::H);
    assert!(!g.screen.is_screenshot);
    g.continue_text(Some(line("x")));
    g.key_down(Key::H);
    assert!(g.screen.is_screenshot);
    g.key_down(Key::Other);
    assert!(g.screen.is_screenshot);
}

#[test]
fn skip_mode_moves_on_at_fixed_pace() {
    let mut g = GameState::new();
    g.take_request();
    g.continue_text(Some(line("some text")));
    assert_eq!(g.mouse_button_up(None, Some(MenuButtonId::Skip)), None);
    assert_eq!(g.continue_method, ContinueMethod::Skip(0));
    g.update(SKIP_INTERVAL - 1);
    assert_eq!(g.request, None);
    g.update(1);
    assert_eq!(g.request, Some(NarrativeRequest::Next));
    assert_eq!(g.continue_method, ContinueMethod::Skip(0));
    // a choice ends skip mode
    g.continue_text(Some(choice(vec!["a".to_string()])));
    g.update(1);
    assert_eq!(g.continue_method, ContinueMethod::Normal);
}

#[test]
fn auto_mode_waits_for_shown_line() {
    let mut g = GameState::new();
    g.take_request();
    g.continue_text(Some(line("ab")));
    g.mouse_button_up(None, Some(MenuButtonId::Auto));
    g.update(1);
    // the line is not fully shown yet: the timer does not run
    assert_eq!(g.continue_method, ContinueMethod::Auto(0));
    g.update(100_000);
    g.update(AUTO_INTERVAL - 1);
    assert_eq!(g.continue_method, ContinueMethod::Auto(AUTO_INTERVAL - 1));
    assert_eq!(g.request, None);
    g.update(1);
    assert_eq!(g.request, Some(NarrativeRequest::Next));
    assert_eq!(g.continue_method, ContinueMethod::Auto(0));
}

#[test]
fn choices_by_click_and_digit() {
    let mut g = GameState::new();
    g.take_request();
    g.continue_text(Some(choice(vec!["a".to_string(), "b".to_string(), "c".to_string()])));
    g.mouse_button_up(Some(1), None);
    assert_eq!(g.take_request(), Some(NarrativeRequest::Choose(2)));
    g.mouse_button_up(Some(3), None);
    assert_eq!(g.take_request(), None);
    g.text_input('2');
    assert_eq!(g.take_request(), Some(NarrativeRequest::Choose(2)));
    g.text_input('3');
    assert_eq!(g.take_request(), None);
    g.text_input('0');
    g.text_input('x');
    assert_eq!(g.take_request(), None);
}

#[test]
fn save_and_load_buttons_go_to_caller() {
    let mut g = GameState::new();
    assert_eq!(g.mouse_button_up(None, Some(MenuButtonId::Save)), Some(MenuButtonId::Save));
    assert_eq!(g.mouse_button_up(None, Some(MenuButtonId::Load)), Some(MenuButtonId::Load));
    assert_eq!(g.continue_method, ContinueMethod::Normal);
}
