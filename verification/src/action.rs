//! The intents that raw input is mapped to before it reaches a component.

use crate::input::Key;
use crate::popups::ErrorPopup;
use vstd::prelude::*;

verus! {

/// An intent. All but `Error` stem from the user; `Error` is raised by
/// whoever finds that a call to the daemon failed.
#[derive(Clone, Debug, PartialEq, Eq)]
pub enum Action {
    Quit,
    Render,
    Up,
    Down,
    Confirm,
    Cancel,
    ShowHelp,
    ShowStats,
    Pause,
    AddMagnet,
    Search,
    ChangeTab(u8),
    Input(Key),
    Error(ErrorPopup),
}

/// What a modal component asks of its owner after an intent.
#[derive(Clone, Copy, Debug, PartialEq, Eq, Structural)]
pub enum ComponentAction {
    Nothing,
    Quit,
}

/// The key that an intent stands for in a text input: confirming is the
/// enter key and cancelling the escape key.
pub open spec fn action_key(action: Action) -> Option<Key> {
    match action {
        Action::Input(key) => Some(key),
        Action::Confirm => Some(Key::Enter),
        Action::Cancel => Some(Key::Esc),
        _ => None,
    }
}

/// Whether an intent dismisses a popup.
pub open spec fn dismisses(action: Action) -> bool {
    action is Confirm || action is Quit
}

/// The intent that a key press stands for. While text is being typed,
/// every key goes to the input as it is. Otherwise the keys are bound to
/// intents, and a key without a binding stands for nothing.
pub open spec fn key_intent(key: Key, typing: bool) -> Option<Action> {
    if typing {
        Some(Action::Input(key))
    } else {
        match key {
            Key::Char('q') => Some(Action::Quit),
            Key::Char('?') => Some(Action::ShowHelp),
            Key::Char('j') | Key::Down => Some(Action::Down),
            Key::Char('k') | Key::Up => Some(Action::Up),
            Key::Enter => Some(Action::Confirm),
            Key::Esc => Some(Action::Cancel),
            Key::Char('t') => Some(Action::ShowStats),
            Key::Char('p') => Some(Action::Pause),
            Key::Char('m') => Some(Action::AddMagnet),
            Key::Char('/') => Some(Action::Search),
            Key::Char('1') => Some(Action::ChangeTab(1)),
            Key::Char('2') => Some(Action::ChangeTab(2)),
            _ => None,
        }
    }
}

impl Action {
    /// Maps a key press to the intent it stands for.
    pub fn from_key(key: Key, typing: bool) -> (intent: Option<Action>)
        ensures
            intent == key_intent(key, typing),
    {
        if typing {
            return Some(Action::Input(key));
        }
        match key {
            Key::Char(c) => {
                if c == 'q' {
                    Some(Action::Quit)
                } else if c == '?' {
                    Some(Action::ShowHelp)
                } else if c == 'j' {
                    Some(Action::Down)
                } else if c == 'k' {
                    Some(Action::Up)
                } else if c == 't' {
                    Some(Action::ShowStats)
                } else if c == 'p' {
                    Some(Action::Pause)
                } else if c == 'm' {
                    Some(Action::AddMagnet)
                } else if c == '/' {
                    Some(Action::Search)
                } else if c == '1' {
                    Some(Action::ChangeTab(1))
                } else if c == '2' {
                    Some(Action::ChangeTab(2))
                } else {
                    None
                }
            },
            Key::Down => Some(Action::Down),
            Key::Up => Some(Action::Up),
            Key::Enter => Some(Action::Confirm),
            Key::Esc => Some(Action::Cancel),
            _ => None,
        }
    }

    /// The key that the intent stands for in a text input.
    pub fn key(&self) -> (key: Option<Key>)
        ensures
            key == action_key(*self),
    {
        match self {
            Action::Input(key) => Some(*key),
            Action::Confirm => Some(Key::Enter),
            Action::Cancel => Some(Key::Esc),
            _ => None,
        }
    }

    /// Whether the intent dismisses a popup.
    pub fn is_dismissal(&self) -> (dismissal: bool)
        ensures
            dismissal == dismisses(*self),
    {
        match self {
            Action::Confirm | Action::Quit => true,
            _ => false,
        }
    }
}

} // verus!
