//! What a modal component reports to the dispatcher after an intent.

use crate::command::{Command, CommandModel};
use vstd::prelude::*;

verus! {

/// The report of a modal component.
#[derive(Clone, Debug, PartialEq, Eq)]
pub enum Outcome {
    /// Nothing changed.
    Nothing,
    /// Something changed that must be painted.
    Render,
    /// A required field was empty; the input was not advanced.
    Rejected,
    /// The component is done and asks to be closed.
    Quit,
    /// The component is done; this command is to be issued.
    Issue(Command),
    /// The filter is to become this pattern, or none; the component stays.
    Filter(Option<String>),
    /// The filter is to be cleared; the component is done.
    Unfilter,
}

/// The report of a modal component over plain sequences.
pub enum OutcomeModel {
    Nothing,
    Render,
    Rejected,
    Quit,
    Issue(CommandModel),
    Filter(Option<Seq<char>>),
    Unfilter,
}

impl OutcomeModel {
    /// Whether the component asks to be closed.
    pub open spec fn closes(self) -> bool {
        self is Quit || self is Issue || self is Unfilter
    }

    /// Whether something changed that must be painted.
    pub open spec fn renders(self) -> bool {
        !(self is Nothing || self is Rejected)
    }
}

impl View for Outcome {
    type V = OutcomeModel;

    open spec fn view(&self) -> OutcomeModel {
        match self {
            Outcome::Nothing => OutcomeModel::Nothing,
            Outcome::Render => OutcomeModel::Render,
            Outcome::Rejected => OutcomeModel::Rejected,
            Outcome::Quit => OutcomeModel::Quit,
            Outcome::Issue(command) => OutcomeModel::Issue(command@),
            Outcome::Filter(pattern) => OutcomeModel::Filter(
                match pattern {
                    None => None,
                    Some(p) => Some(p@),
                },
            ),
            Outcome::Unfilter => OutcomeModel::Unfilter,
        }
    }
}

impl Outcome {
    /// Whether the component asks to be closed.
    pub fn closes(&self) -> (closes: bool)
        ensures
            closes == self@.closes(),
    {
        match self {
            Outcome::Quit | Outcome::Issue(_) | Outcome::Unfilter => true,
            _ => false,
        }
    }

    /// Whether something changed that must be painted.
    pub fn renders(&self) -> (renders: bool)
        ensures
            renders == self@.renders(),
    {
        match self {
            Outcome::Nothing | Outcome::Rejected => false,
            _ => true,
        }
    }
}

} // verus!
