//! The popups: error, help and statistics.
//!
//! A popup owns the input while it is on top. It has no state to edit; all
//! it does is wait to be dismissed.

use crate::action::{dismisses, Action, ComponentAction};
use crate::torrent::SessionStats;
use vstd::prelude::*;

verus! {

/// What a popup answers to an intent: it asks to be closed on a dismissal
/// and ignores everything else.
pub open spec fn popup_response(action: Action) -> ComponentAction {
    if dismisses(action) {
        ComponentAction::Quit
    } else {
        ComponentAction::Nothing
    }
}

fn respond(action: &Action) -> (response: ComponentAction)
    ensures
        response == popup_response(*action),
{
    if action.is_dismissal() {
        ComponentAction::Quit
    } else {
        ComponentAction::Nothing
    }
}

/// Tells the user about a failed call.
#[derive(Clone, Debug, PartialEq, Eq)]
pub struct ErrorPopup {
    pub title: String,
    pub message: String,
}

/// What an error popup says.
pub struct ErrorPopupModel {
    pub title: Seq<char>,
    pub message: Seq<char>,
}

impl View for ErrorPopup {
    type V = ErrorPopupModel;

    open spec fn view(&self) -> ErrorPopupModel {
        ErrorPopupModel { title: self.title@, message: self.message@ }
    }
}

impl ErrorPopup {
    /// A popup with this title and message.
    pub fn new(title: &'static str, message: String) -> (popup: ErrorPopup)
        ensures
            popup@ == (ErrorPopupModel { title: title@, message: message@ }),
    {
        ErrorPopup { title: title.to_owned(), message }
    }

    /// Closes on a dismissal, ignores everything else.
    pub fn handle_events(&self, action: &Action) -> (response: ComponentAction)
        ensures
            response == popup_response(*action),
    {
        respond(action)
    }
}

/// Lists the key bindings.
#[derive(Clone, Copy, Debug, PartialEq, Eq, Structural)]
pub struct HelpPopup {}

impl HelpPopup {
    /// The help popup.
    pub fn new() -> (popup: HelpPopup)
        ensures
            popup == (HelpPopup {  }),
    {
        HelpPopup {  }
    }

    /// Closes on a dismissal, ignores everything else.
    pub fn handle_actions(&self, action: &Action) -> (response: ComponentAction)
        ensures
            response == popup_response(*action),
    {
        respond(action)
    }
}

/// Shows the session statistics as they were when the popup was opened.
#[derive(Clone, Copy, Debug, PartialEq, Eq, Structural)]
pub struct StatisticsPopup {
    pub stats: SessionStats,
}

impl StatisticsPopup {
    /// A popup over `stats`.
    pub fn new(stats: SessionStats) -> (popup: StatisticsPopup)
        ensures
            popup.stats == stats,
    {
        StatisticsPopup { stats }
    }

    /// Closes on a dismissal, ignores everything else.
    pub fn handle_actions(&self, action: &Action) -> (response: ComponentAction)
        ensures
            response == popup_response(*action),
    {
        respond(action)
    }
}

/// The share of the screen, in percent, before, inside and behind a popup
/// that is centered along one axis and takes `percent` of it.
pub open spec fn centered_shares(percent: u16) -> Seq<u16> {
    seq![((100 - percent) / 2) as u16, percent, ((100 - percent) / 2) as u16]
}

/// The three shares along one axis for a centered popup that takes
/// `percent` of the axis.
pub fn centered_split(percent: u16) -> (shares: [u16; 3])
    requires
        percent <= 100,
    ensures
        shares@ == centered_shares(percent),
{
    let margin = (100 - percent) / 2;
    let shares = [margin, percent, margin];
    assert(shares@ =~= centered_shares(percent));
    shares
}

} // verus!
