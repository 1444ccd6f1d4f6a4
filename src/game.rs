//! The narrative screen: characters, background, text box and choices,
//! driven by nodes that a narrative interpreter hands in one at a time.
use vstd::prelude::*;
use crate::tween::{
    advance, CrossfadeRule, Progress, ProgressRule, StepRule, TargetTweener, TransitionTweener,
    Tween, Tweener,
};

verus! {

/// Duration of a character's fade-in, in microseconds.
pub const CHARACTER_FADE: u64 = 750_000;

/// Duration of a background crossfade, in microseconds.
pub const BACKGROUND_FADE: u64 = 500_000;

/// Time between two lines in skip mode, in microseconds.
pub const SKIP_INTERVAL: u64 = 100_000;

/// Pause after a finished line in auto mode, in microseconds.
pub const AUTO_INTERVAL: u64 = 1_000_000;

/// Speed at which a line of text is revealed.
pub const CHARS_PER_SECOND: u64 = 75;

pub const MICROS_PER_SECOND: u64 = 1_000_000;

/// Side of the screen a character enters from.
#[derive(Clone, Copy, PartialEq, Eq, Debug, Structural)]
pub enum Placement {
    Left,
    Right,
}

/// A character on screen, by name and expression.
pub struct Character {
    pub name: String,
    pub expression: String,
    pub position: Placement,
    pub alpha: Progress,
}

/// Fades a character in: its alpha follows the progress.
pub struct FadeIn;

impl ProgressRule<Character> for FadeIn {
    open spec fn applied(&self, value: Character, progress: Progress) -> Character {
        Character { alpha: progress, ..value }
    }

    fn apply(&self, value: &mut Character, progress: Progress) {
        value.alpha = progress;
    }
}

pub type CharacterTween = TargetTweener<Character, FadeIn>;

/// A background image, by name, with its opacity.
pub struct Background {
    pub name: String,
    pub fade: Progress,
}

impl Background {
    pub fn new(name: String) -> (r: Background)
        ensures
            r.name == name,
            r.fade == (Progress { done: 0, total: 1 }),
    {
        Background { name, fade: Progress::zero() }
    }
}

/// Crossfades two backgrounds: the old one fades out as the new one fades in.
pub struct BackgroundFade;

impl CrossfadeRule<Background, Background> for BackgroundFade {
    open spec fn faded_out(&self, from: Background, progress: Progress) -> Background {
        Background { fade: progress.spec_complement(), ..from }
    }

    open spec fn faded_in(&self, to: Background, progress: Progress) -> Background {
        Background { fade: progress, ..to }
    }

    fn fade_out(&self, from: &mut Background, progress: Progress) {
        from.fade = progress.complement();
    }

    fn fade_in(&self, to: &mut Background, progress: Progress) {
        to.fade = progress;
    }
}

pub type BackgroundTween = TransitionTweener<Background, Background, BackgroundFade>;

/// A line of text and how many of its characters are visible.
pub struct RevealText {
    pub content: Vec<char>,
    pub shown: usize,
}

/// Number of characters visible after `time` microseconds.
pub open spec fn chars_at(time: u64, len: nat) -> nat {
    let n = (time as int * CHARS_PER_SECOND as int / MICROS_PER_SECOND as int) as nat;
    if n < len {
        n
    } else {
        len
    }
}

fn compute_chars_at(time: u64, len: usize) -> (r: usize)
    ensures
        r == chars_at(time, len as nat),
{
    let n: u128 = (time as u128) * (CHARS_PER_SECOND as u128) / (MICROS_PER_SECOND as u128);
    if n < len as u128 {
        n as usize
    } else {
        len
    }
}

/// Reveals text at a fixed speed; done once every character is visible.
pub struct Typewriter;

impl StepRule<RevealText> for Typewriter {
    open spec fn stepped(&self, value: RevealText, time: u64, dt: u64) -> (RevealText, bool) {
        let lim = chars_at(time, value.content@.len());
        (
            RevealText {
                content: value.content,
                shown: if value.shown >= lim {
                    value.shown
                } else {
                    lim as usize
                },
            },
            lim == value.content@.len(),
        )
    }

    fn step(&self, value: &mut RevealText, time: u64, dt: u64) -> (done: bool) {
        let len = value.content.len();
        let lim = compute_chars_at(time, len);
        if value.shown < lim {
            value.shown = lim;
        }
        lim == len
    }
}

pub type TextTween = Tweener<RevealText, Typewriter>;

/// The text box: an optional speaker and the line being revealed.
pub struct TextBox {
    pub speaker: Option<String>,
    pub content: TextTween,
}

/// What the player is currently asked to do.
pub enum Action {
    Choice(Vec<String>),
    Text(TextBox),
    Idle,
}

/// Everything the narrative screen shows.
pub struct GameScreen {
    pub current_background: Option<BackgroundTween>,
    pub current_characters: Vec<CharacterTween>,
    pub action: Action,
    pub is_screenshot: bool,
}

/// One step of the screen's animations: every tween advances by `dt`.
pub open spec fn screen_updated(old: GameScreen, new: GameScreen, dt: u64) -> bool {
    &&& new.current_characters@ == old.current_characters@.map_values(
        |c: CharacterTween| c.after_update(dt),
    )
    &&& new.current_background == match old.current_background {
        Some(b) => Some(b.after_update(dt)),
        None => None,
    }
    &&& match old.action {
        Action::Text(t) => new.action == Action::Text(
            TextBox { speaker: t.speaker, content: t.content.after_update(dt) },
        ),
        _ => new.action == old.action,
    }
    &&& new.is_screenshot == old.is_screenshot
}

impl GameScreen {
    pub fn new() -> (r: GameScreen)
        ensures
            r.current_background is None,
            r.current_characters@.len() == 0,
            r.action is Idle,
            !r.is_screenshot,
    {
        GameScreen {
            current_background: None,
            current_characters: Vec::new(),
            action: Action::Idle,
            is_screenshot: false,
        }
    }

    /// Advances every character, the background and the text by `dt`.
    pub fn update(&mut self, dt: u64)
        ensures
            screen_updated(*old(self), *final(self), dt),
    {
        let n = self.current_characters.len();
        let mut i: usize = 0;
        while i < n
            invariant
                n == self.current_characters@.len(),
                n == old(self).current_characters@.len(),
                0 <= i <= n,
                forall|j: int|
                    0 <= j < i ==> self.current_characters@[j] == old(
                        self,
                    ).current_characters@[j].after_update(dt),
                forall|j: int|
                    i <= j < n ==> self.current_characters@[j] == old(
                        self,
                    ).current_characters@[j],
                self.current_background == old(self).current_background,
                self.action == old(self).action,
                self.is_screenshot == old(self).is_screenshot,
            decreases n - i,
        {
            self.current_characters[i].update(dt);
            i += 1;
        }
        assert(self.current_characters@ =~= old(self).current_characters@.map_values(
            |c: CharacterTween| c.after_update(dt),
        ));
        match &mut self.current_background {
            Some(b) => b.update(dt),
            None => {},
        }
        match &mut self.action {
            Action::Text(t) => t.content.update(dt),
            _ => {},
        }
    }
}


/// How the narrative moves on from a finished line.
#[derive(Clone, Copy, PartialEq, Eq, Debug, Structural)]
pub enum ContinueMethod {
    /// Moves on by itself once a line has been fully shown for a while; the
    /// value is the time waited so far.
    Auto(u64),
    /// Moves on at a fixed pace, whether shown or not; the value is the time
    /// since the last line.
    Skip(u64),
    /// Waits for the player.
    Normal,
}

/// What the narrative interpreter is asked to hand in next.
#[derive(Clone, Copy, PartialEq, Eq, Debug, Structural)]
pub enum NarrativeRequest {
    /// The node after the current one.
    Next,
    /// The current node again (after a load).
    Current,
    /// Select the choice with this number (from 1), then the next node.
    Choose(usize),
}

/// Buttons of the in-game menu.
#[derive(Clone, Copy, PartialEq, Eq, Debug, Structural)]
pub enum MenuButtonId {
    Save,
    Load,
    Skip,
    Auto,
}

/// Keys the narrative screen reacts to.
#[derive(Clone, Copy, PartialEq, Eq, Debug, Structural)]
pub enum Key {
    Space,
    Return,
    H,
    Other,
}

/// A node that shows something and waits for the player.
pub enum DataNode {
    Text { speaker: Option<String>, content: Vec<char> },
    Choice(Vec<String>),
}

/// A node that only loads something; the narrative goes straight on after
/// it.
pub enum LoadNode {
    Character { character: String, expression: Option<String>, placement: Option<Placement> },
    Background { name: String },
    PlaySound { name: String, channel: String },
    RemoveCharacter { name: String },
}

/// A node of the narrative, as the interpreter yields it.
pub enum Node {
    Data(DataNode),
    Load(LoadNode),
}

/// What a save file records of the narrative screen, with the
/// interpreter's cursor `C`.
pub struct SaveData<C> {
    pub state: C,
    pub current_background: Option<String>,
    pub current_characters: Vec<(String, String)>,
}

/// The narrative screen's state.
pub struct GameState {
    pub continue_method: ContinueMethod,
    pub screen: GameScreen,
    pub is_end: bool,
    /// The node the interpreter is asked for, if any.
    pub request: Option<NarrativeRequest>,
}

/// Whether the text box shows a fully revealed line.
pub open spec fn text_done(action: Action) -> bool {
    match action {
        Action::Text(t) => t.content.is_done,
        _ => false,
    }
}

/// The continue method after a frame of `dt`, and whether the narrative
/// moves on in that frame.
pub open spec fn next_continue(m: ContinueMethod, action: Action, dt: u64) -> (ContinueMethod, bool) {
    match action {
        Action::Text(t) => match m {
            ContinueMethod::Skip(n) => if advance(n, dt) >= SKIP_INTERVAL {
                (ContinueMethod::Skip(0), true)
            } else {
                (ContinueMethod::Skip(advance(n, dt)), false)
            },
            ContinueMethod::Auto(n) => if !t.content.is_done {
                (m, false)
            } else if advance(n, dt) >= AUTO_INTERVAL {
                (ContinueMethod::Auto(0), true)
            } else {
                (ContinueMethod::Auto(advance(n, dt)), false)
            },
            ContinueMethod::Normal => (m, false),
        },
        Action::Choice(_) => match m {
            ContinueMethod::Skip(_) => (ContinueMethod::Normal, false),
            _ => (m, false),
        },
        Action::Idle => (m, false),
    }
}

/// One frame of the narrative screen (see `GameState::update`).
pub open spec fn game_updated(old: GameState, new: GameState, dt: u64) -> bool {
    let (m, go) = next_continue(old.continue_method, old.screen.action, dt);
    &&& new.continue_method == m
    &&& new.request == if go {
        Some(NarrativeRequest::Next)
    } else {
        old.request
    }
    &&& new.is_end == old.is_end
    &&& screen_updated(old.screen, new.screen, dt)
}

/// Index of the first character called `name`.
pub open spec fn first_named(chars: Seq<CharacterTween>, name: Seq<char>) -> Option<int> {
    if exists|i: int|
        0 <= i < chars.len() && chars[i].current.name@ == name && forall|j: int|
            0 <= j < i ==> chars[j].current.name@ != name {
        Some(
            choose|i: int|
                0 <= i < chars.len() && chars[i].current.name@ == name && forall|j: int|
                    0 <= j < i ==> chars[j].current.name@ != name,
        )
    } else {
        None
    }
}

/// A character tween just made for `name`, `expression` and `position`:
/// transparent, and at the end of its fade when `finished`.
pub open spec fn fresh_character(
    t: CharacterTween,
    name: Seq<char>,
    expression: Seq<char>,
    position: Placement,
    finished: bool,
) -> bool {
    &&& t.current.name@ == name
    &&& t.current.expression@ == expression
    &&& t.current.position == position
    &&& t.current.alpha == (Progress { done: 0, total: 1 })
    &&& t.target == CHARACTER_FADE
    &&& t.time == if finished {
        CHARACTER_FADE
    } else {
        0
    }
}

/// A crossfade over `BACKGROUND_FADE` to the background `name`, from the
/// previous one (made transparent) if there is one.
pub fn load_background_tween(prev: Option<Background>, name: String) -> (r: BackgroundTween)
    ensures
        r.set_instantly_if_no_prev,
        r.time == 0,
        r.target == BACKGROUND_FADE,
        r.current.1 == (Background { name, fade: Progress { done: 0, total: 1 } }),
        r.current.0 == match prev {
            Some(p) => Some(Background { name: p.name, fade: Progress { done: 0, total: 1 } }),
            None => None,
        },
{
    let prev = match prev {
        Some(p) => Some(Background { name: p.name, fade: Progress::zero() }),
        None => None,
    };
    TransitionTweener::new(true, BACKGROUND_FADE, (prev, Background::new(name)), BackgroundFade)
}

/// A character restored from a save: fully visible, fade over.
pub open spec fn settled_character(t: CharacterTween, name: Seq<char>, expression: Seq<char>) -> bool {
    &&& t.current.name@ == name
    &&& t.current.expression@ == expression
    &&& t.current.position == Placement::Left
    &&& t.current.alpha == (Progress { done: CHARACTER_FADE, total: CHARACTER_FADE })
    &&& t.target == CHARACTER_FADE
    &&& t.time == CHARACTER_FADE
}

/// A background restored from a save: no predecessor, fully visible, fade
/// over.
pub open spec fn settled_background(b: BackgroundTween, name: Seq<char>) -> bool {
    &&& b.current.0 is None
    &&& b.current.1.name@ == name
    &&& b.current.1.fade == (Progress { done: BACKGROUND_FADE, total: BACKGROUND_FADE })
    &&& b.set_instantly_if_no_prev
    &&& b.target == BACKGROUND_FADE
    &&& b.time == BACKGROUND_FADE
}

fn find_character(chars: &Vec<CharacterTween>, name: &String) -> (r: Option<usize>)
    ensures
        r == match first_named(chars@, name@) {
            Some(i) => Some(i as usize),
            None => None::<usize>,
        },
        match r {
            Some(i) => i < chars@.len() && chars@[i as int].current.name@ == name@,
            None => true,
        },
{
    let mut i: usize = 0;
    while i < chars.len()
        invariant
            0 <= i <= chars@.len(),
            forall|j: int| 0 <= j < i ==> chars@[j].current.name@ != name@,
        decreases chars@.len() - i,
    {
        if chars[i].current.name == *name {
            let ghost gi = i as int;
            assert(0 <= gi < chars@.len() && chars@[gi].current.name@ == name@ && forall|j: int|
                0 <= j < gi ==> chars@[j].current.name@ != name@);
            let ghost c = first_named(chars@, name@);
            assert(c == Some(gi)) by {
                let k = c.unwrap();
                assert(0 <= k < chars@.len() && chars@[k].current.name@ == name@ && forall|j: int|
                    0 <= j < k ==> chars@[j].current.name@ != name@);
                if k < gi {
                    assert(chars@[k].current.name@ != name@);
                } else if k > gi {
                    assert(chars@[gi].current.name@ != name@);
                }
            }
            return Some(i);
        }
        i += 1;
    }
    None
}

/// A character about to fade in over `CHARACTER_FADE`.
pub fn load_character_tween(
    name: String,
    expression: String,
    position: Placement,
) -> (r: CharacterTween)
    ensures
        fresh_character(r, name@, expression@, position, false),
        r.current.name == name,
{
    TargetTweener::new(
        CHARACTER_FADE,
        Character { name, expression, position, alpha: Progress::zero() },
        FadeIn,
    )
}

/// What moving the text on does (see `GameState::advance_text`).
pub open spec fn text_advanced(old: GameState, new: GameState) -> bool {
    &&& new.continue_method == old.continue_method
    &&& new.is_end == old.is_end
    &&& new.screen.current_characters == old.screen.current_characters
    &&& new.screen.current_background == old.screen.current_background
    &&& new.screen.is_screenshot == old.screen.is_screenshot
    &&& match old.screen.action {
        Action::Text(t) => if old.continue_method != ContinueMethod::Normal {
            new.screen.action == old.screen.action && new.request == old.request
        } else if t.content.is_done {
            new.screen.action == old.screen.action && new.request == Some(NarrativeRequest::Next)
        } else {
            &&& new.request == old.request
            &&& new.screen.action == Action::Text(
                TextBox {
                    speaker: t.speaker,
                    content: Tweener { time: crate::tween::TIME_SENTINEL, ..t.content },
                },
            )
        },
        _ => new.screen.action == old.screen.action && new.request == old.request,
    }
}

/// What taking in a node does to the character list.
pub open spec fn characters_after_node(
    old: Seq<CharacterTween>,
    new: Seq<CharacterTween>,
    character: Seq<char>,
    expression: Option<Seq<char>>,
    placement: Option<Placement>,
) -> bool {
    match first_named(old, character) {
        Some(i) => {
            &&& new.len() == old.len()
            &&& forall|j: int| 0 <= j < old.len() && j != i ==> new[j] == old[j]
            &&& fresh_character(
                new[i],
                character,
                match expression {
                    Some(e) => e,
                    None => old[i].current.expression@,
                },
                match placement {
                    Some(p) => p,
                    None => old[i].current.position,
                },
                true,
            )
        },
        None => {
            let e = match expression {
                Some(e) => e,
                None => "Normal"@,
            };
            match placement {
                Some(Placement::Right) => {
                    &&& new.len() == old.len() + 1
                    &&& new.take(old.len() as int) == old
                    &&& fresh_character(new[old.len() as int], character, e, Placement::Right, false)
                },
                _ => {
                    &&& new.len() == old.len() + 1
                    &&& new.skip(1) == old
                    &&& fresh_character(new[0], character, e, Placement::Left, false)
                },
            }
        },
    }
}

/// The background after a background node for `name`: a crossfade from
/// the previous background (reset to transparent) to the new one.
pub open spec fn background_after_node(
    old: Option<BackgroundTween>,
    new: Option<BackgroundTween>,
    name: String,
) -> bool {
    match new {
        Some(b) => {
            &&& b.set_instantly_if_no_prev
            &&& b.time == 0
            &&& b.target == BACKGROUND_FADE
            &&& b.current.1 == (Background { name, fade: Progress { done: 0, total: 1 } })
            &&& b.current.0 == match old {
                Some(o) => Some(Background { name: o.current.1.name, fade: Progress { done: 0, total: 1 } }),
                None => None,
            }
        },
        None => false,
    }
}

/// What a data node does to the screen: it becomes the current action.
pub open spec fn data_node_loaded(old: GameScreen, node: DataNode, new: GameScreen) -> bool {
    &&& new.current_characters == old.current_characters
    &&& new.current_background == old.current_background
    &&& new.is_screenshot == old.is_screenshot
    &&& new.action == match node {
        DataNode::Text { speaker, content } => Action::Text(
            TextBox {
                speaker,
                content: Tweener {
                    time: 0,
                    current: RevealText { content, shown: 0 },
                    rule: Typewriter,
                    is_done: false,
                },
            },
        ),
        DataNode::Choice(choices) => Action::Choice(choices),
    }
}

/// What a load node does to the screen.
pub open spec fn load_node_loaded(old: GameScreen, node: LoadNode, new: GameScreen) -> bool {
    &&& new.is_screenshot == old.is_screenshot
    &&& new.action == old.action
    &&& match node {
        LoadNode::Character { character, expression, placement } => {
            &&& characters_after_node(
                old.current_characters@,
                new.current_characters@,
                character@,
                match expression {
                    Some(e) => Some(e@),
                    None => None,
                },
                placement,
            )
            &&& new.current_background == old.current_background
        },
        LoadNode::Background { name } => {
            &&& background_after_node(old.current_background, new.current_background, name)
            &&& new.current_characters == old.current_characters
        },
        LoadNode::PlaySound { .. } => new == old,
        LoadNode::RemoveCharacter { name } => {
            &&& new.current_characters@ == match first_named(old.current_characters@, name@) {
                Some(i) => old.current_characters@.remove(i),
                None => old.current_characters@,
            }
            &&& new.current_background == old.current_background
        },
    }
}

/// What taking in `node` (or the end of the narrative, for `None`) does to
/// the game, and whether the next node should follow at once.
pub open spec fn consumed(old: GameState, node: Option<Node>, new: GameState, more: bool) -> bool {
    &&& new.continue_method == old.continue_method
    &&& new.request == old.request
    &&& match node {
        None => {
            &&& new.is_end
            &&& !more
            &&& new.screen == old.screen
        },
        Some(Node::Data(d)) => {
            &&& new.is_end == old.is_end
            &&& !more
            &&& data_node_loaded(old.screen, d, new.screen)
        },
        Some(Node::Load(l)) => {
            &&& new.is_end == old.is_end
            &&& more
            &&& load_node_loaded(old.screen, l, new.screen)
        },
    }
}

/// The characters on screen, as (name, expression) pairs in screen order.
pub open spec fn character_list(chars: Seq<CharacterTween>) -> Seq<(Seq<char>, Seq<char>)> {
    chars.map_values(|c: CharacterTween| (c.current.name@, c.current.expression@))
}

/// The (name, expression) pairs a save file holds.
pub open spec fn saved_list(v: Seq<(String, String)>) -> Seq<(Seq<char>, Seq<char>)> {
    v.map_values(|p: (String, String)| (p.0@, p.1@))
}

/// `data` records `g`'s screen with the interpreter cursor `cursor`.
pub open spec fn saved_from<C>(g: GameState, cursor: C, data: SaveData<C>) -> bool {
    &&& data.state == cursor
    &&& saved_list(data.current_characters@) == character_list(g.screen.current_characters@)
    &&& match g.screen.current_background {
        Some(b) => data.current_background is Some && data.current_background.unwrap()@
            == b.current.1.name@,
        None => data.current_background is None,
    }
}

/// `new` is `old` with its screen rebuilt from `data`: every character and
/// the background fully shown, no fade in progress, and the current node
/// asked for again.
pub open spec fn restored_from<C>(old: GameState, data: SaveData<C>, new: GameState) -> bool {
    &&& new.screen.current_characters@.len() == data.current_characters@.len()
    &&& forall|i: int|
        0 <= i < data.current_characters@.len() ==> settled_character(
            #[trigger] new.screen.current_characters@[i],
            data.current_characters@[i].0@,
            data.current_characters@[i].1@,
        )
    &&& match data.current_background {
        Some(n) => new.screen.current_background is Some && settled_background(
            new.screen.current_background.unwrap(),
            n@,
        ),
        None => new.screen.current_background is None,
    }
    &&& new.screen.action == old.screen.action
    &&& new.screen.is_screenshot == old.screen.is_screenshot
    &&& new.continue_method == old.continue_method
    &&& new.is_end == old.is_end
    &&& new.request == Some(NarrativeRequest::Current)
}

fn settled_character_tween(name: String, expression: String) -> (r: CharacterTween)
    ensures
        settled_character(r, name@, expression@),
{
    let full = Progress { done: CHARACTER_FADE, total: CHARACTER_FADE };
    let mut t = TargetTweener::new(
        CHARACTER_FADE,
        Character { name, expression, position: Placement::Left, alpha: full },
        FadeIn,
    );
    t.finish();
    t
}

/// Takes in one node; returns whether it only loaded something.
pub fn consume_node(screen: &mut GameScreen, node: Node) -> (more: bool)
    ensures
        match node {
            Node::Data(d) => !more && data_node_loaded(*old(screen), d, *final(screen)),
            Node::Load(l) => more && load_node_loaded(*old(screen), l, *final(screen)),
        },
{
    match node {
        Node::Data(d) => {
            load_data_node(screen, d);
            false
        },
        Node::Load(l) => {
            load_load_node(screen, l);
            true
        },
    }
}

/// Shows a line of text or a choice.
pub fn load_data_node(screen: &mut GameScreen, node: DataNode)
    ensures
        data_node_loaded(*old(screen), node, *final(screen)),
{
    match node {
        DataNode::Text { speaker, content } => {
            let text = RevealText { content, shown: 0 };
            screen.action = Action::Text(TextBox { speaker, content: Tweener::new(text, Typewriter) });
        },
        DataNode::Choice(choices) => {
            screen.action = Action::Choice(choices);
        },
    }
}

/// Shows, changes or removes a character, or changes the background.
/// Sounds are left to the caller.
pub fn load_load_node(screen: &mut GameScreen, node: LoadNode)
    ensures
        load_node_loaded(*old(screen), node, *final(screen)),
{
    match node {
        LoadNode::Character { character, expression, placement } => {
            put_character(screen, character, expression, placement);
        },
        LoadNode::Background { name } => {
            let prev = match screen.current_background.take() {
                Some(b) => {
                    let (_, last) = b.take_final();
                    Some(last)
                },
                Option::None => Option::None,
            };
            screen.current_background = Some(load_background_tween(prev, name));
        },
        LoadNode::PlaySound { .. } => {},
        LoadNode::RemoveCharacter { name } => {
            match find_character(&screen.current_characters, &name) {
                Some(i) => {
                    screen.current_characters.remove(i);
                },
                Option::None => {},
            }
        },
    }
}

/// A known character changes at once; a new one enters on its side.
fn put_character(
    screen: &mut GameScreen,
    character: String,
    expression: Option<String>,
    placement: Option<Placement>,
)
    ensures
        characters_after_node(
            old(screen).current_characters@,
            final(screen).current_characters@,
            character@,
            match expression {
                Some(e) => Some(e@),
                None => None,
            },
            placement,
        ),
        final(screen).action == old(screen).action,
        final(screen).current_background == old(screen).current_background,
        final(screen).is_screenshot == old(screen).is_screenshot,
{
    match find_character(&screen.current_characters, &character) {
        Some(i) => {
            let expression = match expression {
                Some(e) => e,
                Option::None => screen.current_characters[i].current.expression.clone(),
            };
            let position = match placement {
                Some(p) => p,
                Option::None => screen.current_characters[i].current.position,
            };
            let mut tween = load_character_tween(character, expression, position);
            tween.finish();
            screen.current_characters.set(i, tween);
        },
        Option::None => {
            let expression = match expression {
                Some(e) => e,
                Option::None => "Normal".to_owned(),
            };
            match placement {
                Some(Placement::Right) => {
                    let tween = load_character_tween(character, expression, Placement::Right);
                    screen.current_characters.push(tween);
                    assert(screen.current_characters@.take(
                        old(screen).current_characters@.len() as int,
                    ) =~= old(screen).current_characters@);
                },
                _ => {
                    let tween = load_character_tween(character, expression, Placement::Left);
                    screen.current_characters.insert(0, tween);
                    assert(screen.current_characters@.skip(1) =~= old(screen).current_characters@);
                },
            }
        },
    }
}

impl GameState {
    /// A fresh narrative screen, asking for the first node.
    pub fn new() -> (r: GameState)
        ensures
            r.continue_method == ContinueMethod::Normal,
            r.screen.current_background is None,
            r.screen.current_characters@.len() == 0,
            r.screen.action is Idle,
            !r.screen.is_screenshot,
            !r.is_end,
            r.request == Some(NarrativeRequest::Next),
    {
        GameState {
            continue_method: ContinueMethod::Normal,
            screen: GameScreen::new(),
            is_end: false,
            request: Some(NarrativeRequest::Next),
        }
    }

    /// One frame: runs the skip or auto timer (which may ask for the next
    /// node), then advances the screen's animations.
    pub fn update(&mut self, dt: u64)
        ensures
            game_updated(*old(self), *final(self), dt),
    {
        let done = match &self.screen.action {
            Action::Text(t) => Some(t.content.is_done()),
            Action::Choice(_) => None,
            Action::Idle => Option::None,
        };
        let is_choice = match &self.screen.action {
            Action::Choice(_) => true,
            _ => false,
        };
        match done {
            Some(text_is_done) => match self.continue_method {
                ContinueMethod::Skip(n) => {
                    let n = n.saturating_add(dt);
                    if n >= SKIP_INTERVAL {
                        self.continue_method = ContinueMethod::Skip(0);
                        self.request = Some(NarrativeRequest::Next);
                    } else {
                        self.continue_method = ContinueMethod::Skip(n);
                    }
                },
                ContinueMethod::Auto(n) => {
                    if text_is_done {
                        let n = n.saturating_add(dt);
                        if n >= AUTO_INTERVAL {
                            self.continue_method = ContinueMethod::Auto(0);
                            self.request = Some(NarrativeRequest::Next);
                        } else {
                            self.continue_method = ContinueMethod::Auto(n);
                        }
                    }
                },
                ContinueMethod::Normal => {},
            },
            Option::None => {
                if is_choice {
                    match self.continue_method {
                        ContinueMethod::Skip(_) => {
                            self.continue_method = ContinueMethod::Normal;
                        },
                        _ => {},
                    }
                }
            },
        }
        self.screen.update(dt);
    }

    /// Takes in the node the interpreter yielded, or `None` at the end of
    /// the narrative. Returns whether the next node should follow at once
    /// (after a node that only loads something).
    pub fn continue_text(&mut self, node: Option<Node>) -> (more: bool)
        ensures
            consumed(*old(self), node, *final(self), more),
    {
        match node {
            Option::None => {
                self.is_end = true;
                false
            },
            Some(n) => consume_node(&mut self.screen, n),
        }
    }

    /// Moves the text on in normal mode: a fully shown line asks for the
    /// next node, a line still being revealed is shown at once.
    pub fn advance_text(&mut self)
        ensures
            text_advanced(*old(self), *final(self)),
    {
        if self.continue_method == ContinueMethod::Normal {
            let mut ask = false;
            match &mut self.screen.action {
                Action::Text(t) => {
                    if t.content.is_done() {
                        ask = true;
                    } else {
                        t.content.finish();
                    }
                },
                _ => {},
            }
            if ask {
                self.request = Some(NarrativeRequest::Next);
            }
        }
    }

    /// A key press: Space and Return move the text on, H hides or shows
    /// the interface; only while a line is shown.
    pub fn key_down(&mut self, key: Key)
        ensures
            (old(self).screen.action is Text && (key == Key::Space || key == Key::Return))
                ==> text_advanced(*old(self), *final(self)),
            (old(self).screen.action is Text && key == Key::H) ==> {
                &&& final(self).screen.is_screenshot == !old(self).screen.is_screenshot
                &&& final(self).screen.action == old(self).screen.action
                &&& final(self).request == old(self).request
            },
            (!(old(self).screen.action is Text) || key == Key::Other) ==> *final(self) == *old(
                self,
            ),
    {
        let is_text = match &self.screen.action {
            Action::Text(_) => true,
            _ => false,
        };
        if is_text {
            match key {
                Key::Space | Key::Return => self.advance_text(),
                Key::H => {
                    self.screen.is_screenshot = !self.screen.is_screenshot;
                },
                Key::Other => {},
            }
        }
    }

    /// A typed character: a digit `n` with `1 <= n < number of choices`
    /// picks choice `n`.
    pub fn text_input(&mut self, ch: char)
        ensures
            ({
                let c = ch as u32;
                let pick = match old(self).screen.action {
                    Action::Choice(choices) => 49 <= c <= 57 && c - 48 < choices@.len(),
                    _ => false,
                };
                &&& pick ==> final(self).request == Some(
                    NarrativeRequest::Choose((c - 48) as usize),
                )
                &&& !pick ==> final(self).request == old(self).request
            }),
            final(self).screen == old(self).screen,
            final(self).continue_method == old(self).continue_method,
            final(self).is_end == old(self).is_end,
    {
        let c = ch as u32;
        match &self.screen.action {
            Action::Choice(choices) => {
                if c >= 49 && c <= 57 && ((c - 48) as usize) < choices.len() {
                    self.request = Some(NarrativeRequest::Choose((c - 48) as usize));
                }
            },
            _ => {},
        }
    }

    /// A click, after hit-testing: `choice` is the index of the choice
    /// button under the pointer, `button` the menu button under it. A choice
    /// picks it (numbered from 1); Skip and Auto switch the continue method;
    /// Save and Load are returned for the caller to carry out; a click on
    /// nothing moves the text on.
    pub fn mouse_button_up(
        &mut self,
        choice: Option<usize>,
        button: Option<MenuButtonId>,
    ) -> (r: Option<MenuButtonId>)
        ensures
            ({
                let picked = match (old(self).screen.action, choice) {
                    (Action::Choice(choices), Some(n)) => n < choices@.len(),
                    _ => false,
                };
                &&& picked ==> final(self).request == Some(
                    NarrativeRequest::Choose((choice.unwrap() + 1) as usize),
                )
                &&& r == match button {
                    Some(MenuButtonId::Save) => Some(MenuButtonId::Save),
                    Some(MenuButtonId::Load) => Some(MenuButtonId::Load),
                    _ => None,
                }
                &&& final(self).continue_method == match button {
                    Some(MenuButtonId::Skip) => ContinueMethod::Skip(0),
                    Some(MenuButtonId::Auto) => ContinueMethod::Auto(0),
                    _ => old(self).continue_method,
                }
                &&& (picked || button is Some) ==> final(self).screen == old(self).screen
                &&& (!picked && button is Some) ==> final(self).request == old(self).request
                &&& (!picked && button is None) ==> text_advanced(*old(self), *final(self))
            }),
            final(self).is_end == old(self).is_end,
    {
        let mut clicked = false;
        match (&self.screen.action, choice) {
            (Action::Choice(choices), Some(n)) => {
                if n < choices.len() {
                    self.request = Some(NarrativeRequest::Choose(n + 1));
                    clicked = true;
                }
            },
            _ => {},
        }
        let mut r: Option<MenuButtonId> = Option::None;
        match button {
            Some(e) => {
                match e {
                    MenuButtonId::Save => {
                        r = Some(MenuButtonId::Save);
                    },
                    MenuButtonId::Load => {
                        r = Some(MenuButtonId::Load);
                    },
                    MenuButtonId::Skip => {
                        self.continue_method = ContinueMethod::Skip(0);
                    },
                    MenuButtonId::Auto => {
                        self.continue_method = ContinueMethod::Auto(0);
                    },
                }
                clicked = true;
            },
            Option::None => {},
        }
        if !clicked {
            self.advance_text();
        }
        r
    }

    /// Hands the pending request to the interpreter's driver and clears it.
    pub fn take_request(&mut self) -> (r: Option<NarrativeRequest>)
        ensures
            r == old(self).request,
            final(self).request is None,
            final(self).screen == old(self).screen,
            final(self).continue_method == old(self).continue_method,
            final(self).is_end == old(self).is_end,
    {
        self.request.take()
    }

    /// The record a save file keeps of this screen, with the interpreter's
    /// cursor `state`.
    pub fn save_data<C>(&self, state: C) -> (r: SaveData<C>)
        ensures
            saved_from(*self, state, r),
    {
        let chars = &self.screen.current_characters;
        let mut list: Vec<(String, String)> = Vec::new();
        let mut i: usize = 0;
        while i < chars.len()
            invariant
                0 <= i <= chars@.len(),
                saved_list(list@) == character_list(chars@.take(i as int)),
            decreases chars@.len() - i,
        {
            let c = &chars[i].current;
            let ghost before = list@;
            let pair = (c.name.clone(), c.expression.clone());
            list.push(pair);
            assert(saved_list(list@) =~= saved_list(before).push((c.name@, c.expression@)));
            assert(chars@.take(i + 1) =~= chars@.take(i as int).push(chars@[i as int]));
            assert(character_list(chars@.take(i + 1)) =~= character_list(
                chars@.take(i as int),
            ).push((c.name@, c.expression@)));
            i += 1;
        }
        assert(chars@.take(chars@.len() as int) =~= chars@);
        let current_background = match &self.screen.current_background {
            Some(b) => Some(b.current.1.name.clone()),
            Option::None => Option::None,
        };
        SaveData { state, current_background, current_characters: list }
    }

    /// Rebuilds the screen from a save record with nothing left fading, asks
    /// for the current node again, and returns the interpreter's cursor.
    pub fn load_save<C>(&mut self, data: SaveData<C>) -> (r: C)
        ensures
            r == data.state,
            restored_from(*old(self), data, *final(self)),
    {
        let ghost d = data;
        let SaveData { state, current_background, current_characters } = data;
        let mut chars: Vec<CharacterTween> = Vec::new();
        let mut i: usize = 0;
        while i < current_characters.len()
            invariant
                0 <= i <= current_characters@.len(),
                current_characters == d.current_characters,
                chars@.len() == i,
                forall|j: int|
                    0 <= j < i ==> settled_character(
                        #[trigger] chars@[j],
                        current_characters@[j].0@,
                        current_characters@[j].1@,
                    ),
            decreases current_characters@.len() - i,
        {
            let (name, expression) = &current_characters[i];
            chars.push(settled_character_tween(name.clone(), expression.clone()));
            i += 1;
        }
        self.screen.current_characters = chars;
        self.screen.current_background = match current_background {
            Some(name) => {
                let full = Progress { done: BACKGROUND_FADE, total: BACKGROUND_FADE };
                let mut b = TransitionTweener::new(
                    true,
                    BACKGROUND_FADE,
                    (Option::None, Background { name, fade: full }),
                    BackgroundFade,
                );
                b.finish();
                Some(b)
            },
            Option::None => Option::None,
        };
        self.request = Some(NarrativeRequest::Current);
        state
    }
}

/// Saving a screen and loading the record back shows the same characters,
/// in the same order and with the same expressions, and the same
/// background, all fully visible with no fade in progress.
pub proof fn lemma_save_round_trip<C>(
    g: GameState,
    cursor: C,
    data: SaveData<C>,
    before_load: GameState,
    loaded: GameState,
)
    requires
        saved_from(g, cursor, data),
        restored_from(before_load, data, loaded),
    ensures
        character_list(loaded.screen.current_characters@) == character_list(
            g.screen.current_characters@,
        ),
        forall|i: int|
            0 <= i < loaded.screen.current_characters@.len() ==> {
                let c = #[trigger] loaded.screen.current_characters@[i];
                &&& c.current.alpha.is_full()
                &&& c.spec_is_done()
            },
        match g.screen.current_background {
            Some(b) => {
                &&& loaded.screen.current_background is Some
                &&& loaded.screen.current_background.unwrap().current.1.name@ == b.current.1.name@
                &&& loaded.screen.current_background.unwrap().current.0 is None
                &&& loaded.screen.current_background.unwrap().current.1.fade.is_full()
            },
            None => loaded.screen.current_background is None,
        },
{
    let a = character_list(loaded.screen.current_characters@);
    let b = character_list(g.screen.current_characters@);
    assert(saved_list(data.current_characters@).len() == b.len());
    assert forall|i: int| 0 <= i < a.len() implies a[i] == b[i] by {
        assert(settled_character(
            loaded.screen.current_characters@[i],
            data.current_characters@[i].0@,
            data.current_characters@[i].1@,
        ));
        assert(saved_list(data.current_characters@)[i] == b[i]);
    }
    assert(a =~= b);
    assert forall|i: int| 0 <= i < loaded.screen.current_characters@.len() implies {
        let c = #[trigger] loaded.screen.current_characters@[i];
        &&& c.current.alpha.is_full()
        &&& c.spec_is_done()
    } by {
        assert(settled_character(
            loaded.screen.current_characters@[i],
            data.current_characters@[i].0@,
            data.current_characters@[i].1@,
        ));
    }
}

} // verus!
