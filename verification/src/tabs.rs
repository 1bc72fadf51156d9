//! The tab bar.

use crate::action::Action;
use vstd::prelude::*;

verus! {

/// The tab that is shown.
#[derive(Clone, Copy, Debug, PartialEq, Eq, Structural)]
pub enum CurrentTab {
    Torrents,
    Search,
}

impl CurrentTab {
    /// The position of the tab in the bar.
    pub fn index(self) -> (index: usize)
        ensures
            index == match self {
                CurrentTab::Torrents => 0usize,
                CurrentTab::Search => 1usize,
            },
    {
        match self {
            CurrentTab::Torrents => 0,
            CurrentTab::Search => 1,
        }
    }
}

/// The tab shown after an intent: a change to the first or the second tab
/// selects it, anything else leaves the tab as it is.
pub open spec fn tab_after(tab: CurrentTab, action: Action) -> CurrentTab {
    match action {
        Action::ChangeTab(1) => CurrentTab::Torrents,
        Action::ChangeTab(2) => CurrentTab::Search,
        _ => tab,
    }
}

/// The tab bar: the titles of the tabs and the tab that is shown.
pub struct TabComponent {
    pub tabs_list: [&'static str; 2],
    pub current_tab: CurrentTab,
}

impl TabComponent {
    /// The bar with the torrents tab shown.
    pub fn new() -> (tabs: TabComponent)
        ensures
            tabs.current_tab == CurrentTab::Torrents,
            tabs.tabs_list@[0]@ == "Torrents"@,
            tabs.tabs_list@[1]@ == "Search"@,
    {
        TabComponent { tabs_list: ["Torrents", "Search"], current_tab: CurrentTab::Torrents }
    }

    /// Switches tabs on a change intent. Never asks for anything.
    pub fn handle_actions(&mut self, action: &Action) -> (emitted: Option<Action>)
        ensures
            final(self).current_tab == tab_after(old(self).current_tab, *action),
            final(self).tabs_list == old(self).tabs_list,
            emitted is None,
    {
        match action {
            Action::ChangeTab(tab) => {
                if *tab == 1 {
                    self.current_tab = CurrentTab::Torrents;
                } else if *tab == 2 {
                    self.current_tab = CurrentTab::Search;
                }
            },
            _ => {},
        }
        None
    }
}

} // verus!
