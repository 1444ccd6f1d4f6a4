//! The main menu: four buttons, and the options and credits windows.
use vstd::prelude::*;

verus! {

/// Buttons of the main menu.
#[derive(Clone, Copy, PartialEq, Eq, Debug, Structural)]
pub enum MenuButtonId {
    Start,
    Options,
    Credits,
    Quit,
}

/// The window open over the menu.
#[derive(Clone, Copy, PartialEq, Eq, Debug, Structural)]
pub enum Window {
    Closed,
    Options,
    Credits,
}

pub struct MainMenuState {
    pub clicked_event: Option<MenuButtonId>,
    pub window: Window,
    pub quit_requested: bool,
}

impl MainMenuState {
    pub open spec fn after_update(self) -> MainMenuState {
        match self.clicked_event {
            Some(e) => MainMenuState {
                clicked_event: if e == MenuButtonId::Start {
                    self.clicked_event
                } else {
                    None
                },
                window: match e {
                    MenuButtonId::Options => Window::Options,
                    MenuButtonId::Credits => Window::Credits,
                    _ => self.window,
                },
                quit_requested: self.quit_requested || e == MenuButtonId::Quit,
            },
            None => self,
        }
    }

    /// Whether Start was clicked: the narrative should begin.
    pub open spec fn wants_game(self) -> bool {
        self.clicked_event == Some(MenuButtonId::Start)
    }

    pub fn new() -> (r: MainMenuState)
        ensures
            r.clicked_event is None,
            r.window == Window::Closed,
            !r.quit_requested,
    {
        MainMenuState { clicked_event: None, window: Window::Closed, quit_requested: false }
    }

    /// Acts on the button clicked since the last frame: Options and Credits
    /// open their window, Quit asks to quit. Start is kept for
    /// `change_state`; the others are cleared.
    pub fn update(&mut self)
        ensures
            *final(self) == old(self).after_update(),
    {
        match self.clicked_event {
            Some(e) => {
                match e {
                    MenuButtonId::Start => {},
                    MenuButtonId::Options => {
                        self.window = Window::Options;
                    },
                    MenuButtonId::Credits => {
                        self.window = Window::Credits;
                    },
                    MenuButtonId::Quit => {
                        self.quit_requested = true;
                    },
                }
                if e != MenuButtonId::Start {
                    self.clicked_event = None;
                }
            },
            None => {},
        }
    }

    /// A click on a menu button, after hit-testing; it only counts while no
    /// window is open.
    pub fn mouse_button_up(&mut self, button: MenuButtonId)
        ensures
            final(self).clicked_event == if old(self).window == Window::Closed {
                Some(button)
            } else {
                old(self).clicked_event
            },
            final(self).window == old(self).window,
            final(self).quit_requested == old(self).quit_requested,
    {
        if self.window == Window::Closed {
            self.clicked_event = Some(button);
        }
    }

    /// Closes the open window (its exit button was clicked).
    pub fn close_window(&mut self)
        ensures
            final(self).window == Window::Closed,
            final(self).clicked_event == old(self).clicked_event,
            final(self).quit_requested == old(self).quit_requested,
    {
        self.window = Window::Closed;
    }

    /// Whether the narrative should begin.
    pub fn change_state(&self) -> (r: bool)
        ensures
            r == self.wants_game(),
    {
        match self.clicked_event {
            Some(MenuButtonId::Start) => true,
            _ => false,
        }
    }
}

} // verus!
