//! The stack of modal overlays.
//!
//! The overlay pushed last is on top. Only the top overlay receives input;
//! painting goes from the base view up through the stack. An empty stack
//! leaves input and screen to the base view.

use crate::action::{action_key, dismisses, Action, ComponentAction};
use crate::add_magnet::{lemma_wizard_issues_once, AddMagnetBar, AddMagnetModel};
use crate::filter_bar::{FilterBar, FilterBarModel};
use crate::input::lemma_editing_keeps_input_valid;
use crate::outcome::{Outcome, OutcomeModel};
use crate::popups::{ErrorPopup, ErrorPopupModel, HelpPopup, StatisticsPopup};
use vstd::prelude::*;

verus! {

/// A modal component: one of the popups or one of the input bars.
#[derive(Clone, Debug)]
pub enum Overlay {
    Error(ErrorPopup),
    Help(HelpPopup),
    Statistics(StatisticsPopup),
    AddMagnet(AddMagnetBar),
    Filter(FilterBar),
}

/// What an overlay holds.
pub enum OverlayModel {
    Error(ErrorPopupModel),
    Help(HelpPopup),
    Statistics(StatisticsPopup),
    AddMagnet(AddMagnetModel),
    Filter(FilterBarModel),
}

/// What a popup reports: it asks to be closed on a dismissal and ignores
/// everything else.
pub open spec fn popup_outcome(action: Action) -> OutcomeModel {
    if dismisses(action) {
        OutcomeModel::Quit
    } else {
        OutcomeModel::Nothing
    }
}

impl OverlayModel {
    /// The inputs of an input bar are valid.
    pub open spec fn wf(self) -> bool {
        match self {
            OverlayModel::AddMagnet(bar) => bar.wf(),
            OverlayModel::Filter(bar) => bar.wf(),
            _ => true,
        }
    }

    /// Whether the overlay takes text.
    pub open spec fn takes_text(self) -> bool {
        self is AddMagnet || self is Filter
    }

    /// The overlay and its report after an intent.
    pub open spec fn handle(self, action: Action) -> (OverlayModel, OutcomeModel) {
        match self {
            OverlayModel::AddMagnet(bar) => (
                OverlayModel::AddMagnet(bar.handle(action).0),
                bar.handle(action).1,
            ),
            OverlayModel::Filter(bar) => (
                OverlayModel::Filter(bar.handle(action).0),
                bar.handle(action).1,
            ),
            _ => (self, popup_outcome(action)),
        }
    }
}

impl View for Overlay {
    type V = OverlayModel;

    open spec fn view(&self) -> OverlayModel {
        match self {
            Overlay::Error(popup) => OverlayModel::Error(popup@),
            Overlay::Help(popup) => OverlayModel::Help(*popup),
            Overlay::Statistics(popup) => OverlayModel::Statistics(*popup),
            Overlay::AddMagnet(bar) => OverlayModel::AddMagnet(bar@),
            Overlay::Filter(bar) => OverlayModel::Filter(bar@),
        }
    }
}

fn popup_report(response: ComponentAction) -> (outcome: Outcome)
    ensures
        outcome@ == match response {
            ComponentAction::Quit => OutcomeModel::Quit,
            ComponentAction::Nothing => OutcomeModel::Nothing,
        },
{
    match response {
        ComponentAction::Quit => Outcome::Quit,
        ComponentAction::Nothing => Outcome::Nothing,
    }
}

impl Overlay {
    /// Whether the overlay takes text.
    pub fn takes_text(&self) -> (typing: bool)
        ensures
            typing == self@.takes_text(),
    {
        match self {
            Overlay::AddMagnet(_) | Overlay::Filter(_) => true,
            _ => false,
        }
    }

    /// Hands an intent to the overlay and returns its report.
    pub fn handle_actions(&mut self, action: &Action) -> (outcome: Outcome)
        requires
            old(self)@.wf(),
        ensures
            (final(self)@, outcome@) == old(self)@.handle(*action),
            final(self)@.wf(),
    {
        match self {
            Overlay::Error(popup) => popup_report(popup.handle_events(action)),
            Overlay::Help(popup) => popup_report(popup.handle_actions(action)),
            Overlay::Statistics(popup) => popup_report(popup.handle_actions(action)),
            Overlay::AddMagnet(bar) => bar.handle_actions(action),
            Overlay::Filter(bar) => bar.handle_actions(action),
        }
    }
}

/// Every overlay of the stack is valid.
pub open spec fn stack_wf(stack: Seq<OverlayModel>) -> bool {
    forall|i: int| 0 <= i < stack.len() ==> (#[trigger] stack[i]).wf()
}

/// The stack and the report after the top overlay got the intent. No
/// overlay below the top sees it; an empty stack reports nothing.
pub open spec fn handle_top(stack: Seq<OverlayModel>, action: Action) -> (
    Seq<OverlayModel>,
    OutcomeModel,
) {
    if stack.len() == 0 {
        (stack, OutcomeModel::Nothing)
    } else {
        (
            stack.update(stack.len() - 1, stack.last().handle(action).0),
            stack.last().handle(action).1,
        )
    }
}

/// The stack after a report of its top overlay: the top is removed if it
/// asked to be closed.
pub open spec fn pop_if_quit(stack: Seq<OverlayModel>, outcome: OutcomeModel) -> Seq<OverlayModel> {
    if outcome.closes() && stack.len() > 0 {
        stack.drop_last()
    } else {
        stack
    }
}

/// The stack and the report after an intent was delivered: the top overlay
/// handles it and is removed if it asks to be closed.
pub open spec fn deliver(stack: Seq<OverlayModel>, action: Action) -> (
    Seq<OverlayModel>,
    OutcomeModel,
) {
    (pop_if_quit(handle_top(stack, action).0, handle_top(stack, action).1), handle_top(stack, action).1)
}

/// Delivering an intent touches nothing but the top overlay: every overlay
/// below it stays as it was, and the stack loses at most its top.
pub proof fn lemma_only_top_receives_input(stack: Seq<OverlayModel>, action: Action)
    requires
        stack_wf(stack),
        stack.len() > 0,
    ensures
        stack_wf(deliver(stack, action).0),
        deliver(stack, action).1 == stack.last().handle(action).1,
        deliver(stack, action).1.closes() ==> deliver(stack, action).0 == stack.drop_last(),
        !deliver(stack, action).1.closes() ==> deliver(stack, action).0 == stack.drop_last().push(
            stack.last().handle(action).0,
        ),
        forall|i: int| 0 <= i < stack.len() - 1 ==> #[trigger] deliver(stack, action).0[i] == stack[i],
{
    let top = stack.last();
    match top {
        OverlayModel::AddMagnet(bar) => {
            lemma_wizard_issues_once(bar, action);
        },
        OverlayModel::Filter(bar) => {
            if let Some(key) = action_key(action) {
                lemma_editing_keeps_input_valid(bar.input, key);
            }
        },
        _ => {},
    }
    assert(stack.update(stack.len() - 1, top.handle(action).0) =~= stack.drop_last().push(
        top.handle(action).0,
    ));
    assert(stack.update(stack.len() - 1, top.handle(action).0).drop_last() =~= stack.drop_last());
}

/// The overlays that are open, bottom first.
#[derive(Clone, Debug)]
pub struct OverlayStack {
    items: Vec<Overlay>,
}

impl View for OverlayStack {
    type V = Seq<OverlayModel>;

    closed spec fn view(&self) -> Seq<OverlayModel> {
        self.items@.map_values(|o: Overlay| o@)
    }
}

impl OverlayStack {
    /// No overlay: the base view owns input and screen.
    pub fn new() -> (stack: OverlayStack)
        ensures
            stack@ == Seq::<OverlayModel>::empty(),
            stack_wf(stack@),
    {
        let stack = OverlayStack { items: Vec::new() };
        assert(stack@ =~= Seq::<OverlayModel>::empty());
        stack
    }

    /// Puts an overlay on top.
    pub fn push(&mut self, overlay: Overlay)
        requires
            stack_wf(old(self)@),
            overlay@.wf(),
        ensures
            final(self)@ == old(self)@.push(overlay@),
            stack_wf(final(self)@),
    {
        self.items.push(overlay);
        assert(self@ =~= old(self)@.push(overlay@));
    }

    /// The overlay that owns the input, if any is open.
    pub fn top(&self) -> (top: Option<&Overlay>)
        ensures
            match top {
                None => self@.len() == 0,
                Some(overlay) => self@.len() > 0 && overlay@ == self@.last(),
            },
    {
        let n = self.items.len();
        if n == 0 {
            None
        } else {
            Some(&self.items[n - 1])
        }
    }

    /// The overlay at `index`, counted from the bottom.
    pub fn get(&self, index: usize) -> (overlay: &Overlay)
        requires
            index < self@.len(),
        ensures
            overlay@ == self@[index as int],
    {
        &self.items[index]
    }

    /// Hands an intent to the top overlay and returns its report. The
    /// overlay stays on the stack whatever it reports.
    pub fn handle_top(&mut self, action: &Action) -> (outcome: Outcome)
        requires
            stack_wf(old(self)@),
        ensures
            (final(self)@, outcome@) == handle_top(old(self)@, *action),
            stack_wf(final(self)@),
    {
        match self.items.pop() {
            None => Outcome::Nothing,
            Some(mut top) => {
                assert(top@ == old(self)@.last());
                let outcome = top.handle_actions(action);
                self.items.push(top);
                assert(self@ =~= old(self)@.update(old(self)@.len() - 1, top@));
                outcome
            },
        }
    }

    /// Removes the top overlay if its report asks for that, and says
    /// whether it did.
    pub fn pop_top_if_quit(&mut self, outcome: &Outcome) -> (popped: bool)
        requires
            stack_wf(old(self)@),
        ensures
            final(self)@ == pop_if_quit(old(self)@, outcome@),
            popped == (outcome@.closes() && old(self)@.len() > 0),
            stack_wf(final(self)@),
    {
        if outcome.closes() && self.items.len() > 0 {
            self.items.pop();
            assert(self@ =~= old(self)@.drop_last());
            true
        } else {
            false
        }
    }

    /// Whether no overlay is open.
    pub fn is_empty(&self) -> (empty: bool)
        ensures
            empty == (self@.len() == 0),
    {
        self.items.len() == 0
    }

    /// The number of overlays that are open.
    pub fn len(&self) -> (len: usize)
        ensures
            len == self@.len(),
    {
        self.items.len()
    }
}

} // verus!
