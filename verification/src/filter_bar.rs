//! The input that edits the filter pattern.
//!
//! The filter follows the text while it is typed. Confirming closes the
//! input and keeps the filter; cancelling closes it and clears the filter.

use crate::action::{action_key, Action};
use crate::input::{InputManager, InputModel, Key};
use crate::outcome::{Outcome, OutcomeModel};
use vstd::prelude::*;

verus! {

/// The prompt before the pattern.
pub open spec fn filter_prompt() -> Seq<char> {
    "Search: "@
}

/// The pattern that a text stands for: none if it is empty.
pub open spec fn pattern_of(text: Seq<char>) -> Option<Seq<char>> {
    if text.len() == 0 {
        None
    } else {
        Some(text)
    }
}

/// The text that a pattern is edited as: empty if there is none.
pub open spec fn text_of(pattern: Option<Seq<char>>) -> Seq<char> {
    match pattern {
        None => Seq::empty(),
        Some(p) => p,
    }
}

/// What the filter input holds.
pub struct FilterBarModel {
    pub input: InputModel,
}

impl FilterBarModel {
    /// The input is valid.
    pub open spec fn wf(self) -> bool {
        self.input.wf()
    }

    /// The filter input as it opens: holding the pattern in force.
    pub open spec fn opened(pattern: Option<Seq<char>>) -> FilterBarModel {
        FilterBarModel { input: InputModel::with_value(filter_prompt(), text_of(pattern)) }
    }

    /// The filter input and its report after an intent. A key that changes
    /// the input makes the text typed so far the pattern.
    pub open spec fn handle(self, action: Action) -> (FilterBarModel, OutcomeModel) {
        match action_key(action) {
            None => (self, OutcomeModel::Nothing),
            Some(Key::Enter) => (self, OutcomeModel::Quit),
            Some(Key::Esc) => (self, OutcomeModel::Unfilter),
            Some(key) => {
                let input = self.input.handle_key(key);
                (
                    FilterBarModel { input },
                    if self.input.responds_to(key) {
                        OutcomeModel::Filter(pattern_of(input.text))
                    } else {
                        OutcomeModel::Nothing
                    },
                )
            },
        }
    }
}

/// The filter input.
#[derive(Clone, Debug)]
pub struct FilterBar {
    input: InputManager,
}

impl View for FilterBar {
    type V = FilterBarModel;

    closed spec fn view(&self) -> FilterBarModel {
        FilterBarModel { input: self.input@ }
    }
}

impl FilterBar {
    /// Opens the filter input on the pattern in force, if there is one.
    pub fn new(pattern: Option<String>) -> (bar: FilterBar)
        ensures
            bar@ == FilterBarModel::opened(
                match pattern {
                    None => None,
                    Some(p) => Some(p@),
                },
            ),
            bar@.wf(),
    {
        let text = match pattern {
            None => String::new(),
            Some(p) => p,
        };
        FilterBar { input: InputManager::new_with_value("Search: ".to_owned(), text) }
    }

    /// Applies an intent to the filter input and reports what is to be done.
    #[must_use]
    pub fn handle_actions(&mut self, action: &Action) -> (outcome: Outcome)
        requires
            old(self)@.wf(),
        ensures
            (final(self)@, outcome@) == old(self)@.handle(*action),
            final(self)@.wf(),
    {
        match action.key() {
            None => Outcome::Nothing,
            Some(Key::Enter) => Outcome::Quit,
            Some(Key::Esc) => Outcome::Unfilter,
            Some(key) => {
                if self.input.handle_key(key) {
                    if self.input.is_empty() {
                        Outcome::Filter(None)
                    } else {
                        Outcome::Filter(Some(self.input.text()))
                    }
                } else {
                    Outcome::Nothing
                }
            },
        }
    }

    /// The input that is being edited.
    pub fn input(&self) -> (input: &InputManager)
        ensures
            input@ == self@.input,
    {
        &self.input
    }
}

} // verus!
