//! The torrents tab: the base view behind the overlays.

use crate::action::Action;
use crate::add_magnet::{AddMagnetBar, AddMagnetModel};
use crate::command::{pause_command, toggle_pause, Command, CommandModel};
use crate::filter_bar::{FilterBar, FilterBarModel};
use crate::overlay::{Overlay, OverlayModel};
use crate::popups::StatisticsPopup;
use crate::table::{TableManager, TableModel};
use crate::torrent::{SessionStats, TorrentSnapshot};
use vstd::prelude::*;

verus! {

/// What the tab asks of the dispatcher after an intent.
#[derive(Clone, Debug)]
pub enum TabOutcome {
    /// Nothing changed.
    Nothing,
    /// Something changed that must be painted.
    Render,
    /// This overlay is to be opened.
    Open(Overlay),
    /// This command is to be issued.
    Issue(Command),
}

/// What the tab asks of the dispatcher, over plain sequences.
pub enum TabOutcomeModel {
    Nothing,
    Render,
    Open(OverlayModel),
    Issue(CommandModel),
}

impl View for TabOutcome {
    type V = TabOutcomeModel;

    open spec fn view(&self) -> TabOutcomeModel {
        match self {
            TabOutcome::Nothing => TabOutcomeModel::Nothing,
            TabOutcome::Render => TabOutcomeModel::Render,
            TabOutcome::Open(overlay) => TabOutcomeModel::Open(overlay@),
            TabOutcome::Issue(command) => TabOutcomeModel::Issue(command@),
        }
    }
}

/// The titles of the columns.
pub open spec fn header_labels() -> Seq<Seq<char>> {
    seq!["Name"@, "Size"@, "Progress"@, "ETA"@, "Download"@, "Upload"@]
}

/// What the tab holds.
pub struct TabModel {
    /// The torrent table.
    pub table: TableModel,
    /// The latest session statistics, once a poll has brought any.
    pub stats: Option<SessionStats>,
    /// The daemon's default download directory.
    pub download_dir: Seq<char>,
}

impl TabModel {
    /// The cursor of the table is valid.
    pub open spec fn wf(self) -> bool {
        self.table.wf()
    }

    /// The tab as it starts: no torrents, no statistics.
    pub open spec fn opened(auto_hide: bool, download_dir: Seq<char>) -> TabModel {
        TabModel { table: TableModel::empty(auto_hide), stats: None, download_dir }
    }

    /// The tab after a poll brought a new snapshot list.
    pub open spec fn set_rows(self, rows: Seq<TorrentSnapshot>) -> TabModel {
        TabModel { table: self.table.set_rows(rows), ..self }
    }

    /// The tab after a poll brought new statistics.
    pub open spec fn set_stats(self, stats: SessionStats) -> TabModel {
        TabModel { stats: Some(stats), ..self }
    }

    /// The tab after the filter changed.
    pub open spec fn set_filter(self, pattern: Option<Seq<char>>) -> TabModel {
        TabModel { table: self.table.set_filter(pattern), ..self }
    }

    /// The tab and what it asks for after an intent. Moving the cursor is
    /// done here; an overlay to open or a command to issue is handed to the
    /// dispatcher. Pausing with no row under the cursor does nothing, as
    /// does asking for statistics before any have arrived.
    pub open spec fn handle(self, action: Action) -> (TabModel, TabOutcomeModel) {
        match action {
            Action::Up => (TabModel { table: self.table.previous(), ..self }, TabOutcomeModel::Render),
            Action::Down => (TabModel { table: self.table.next(), ..self }, TabOutcomeModel::Render),
            Action::ShowStats => match self.stats {
                Some(stats) => (
                    self,
                    TabOutcomeModel::Open(OverlayModel::Statistics(StatisticsPopup { stats })),
                ),
                None => (self, TabOutcomeModel::Nothing),
            },
            Action::Pause => match self.table.current_item() {
                Some(torrent) => (self, TabOutcomeModel::Issue(pause_command(torrent))),
                None => (self, TabOutcomeModel::Nothing),
            },
            Action::AddMagnet => (
                self,
                TabOutcomeModel::Open(
                    OverlayModel::AddMagnet(AddMagnetModel::opened(self.download_dir)),
                ),
            ),
            Action::Search => (
                self,
                TabOutcomeModel::Open(OverlayModel::Filter(FilterBarModel::opened(self.table.filter))),
            ),
            _ => (self, TabOutcomeModel::Nothing),
        }
    }
}

/// The torrents tab.
pub struct TorrentsTab {
    table_manager: TableManager,
    stats: Option<SessionStats>,
    download_dir: String,
    header: Vec<String>,
}

impl View for TorrentsTab {
    type V = TabModel;

    closed spec fn view(&self) -> TabModel {
        TabModel { table: self.table_manager@, stats: self.stats, download_dir: self.download_dir@ }
    }
}

impl TorrentsTab {
    /// The table is consistent and the header holds the column titles.
    pub closed spec fn wf(&self) -> bool {
        &&& self.table_manager.wf()
        &&& self.header@.len() == 6
        &&& forall|i: int| 0 <= i < 6 ==> (#[trigger] self.header@[i])@ == header_labels()[i]
    }

    /// The tab before the first poll: no torrents, no statistics.
    pub fn new(auto_hide: bool, download_dir: String) -> (tab: TorrentsTab)
        ensures
            tab.wf(),
            tab@ == TabModel::opened(auto_hide, download_dir@),
            tab@.wf(),
    {
        let rows: Vec<TorrentSnapshot> = Vec::new();
        let table_manager = TableManager::new(auto_hide, rows);
        let mut header: Vec<String> = Vec::new();
        header.push("Name".to_owned());
        header.push("Size".to_owned());
        header.push("Progress".to_owned());
        header.push("ETA".to_owned());
        header.push("Download".to_owned());
        header.push("Upload".to_owned());
        TorrentsTab { table_manager, stats: None, download_dir, header }
    }

    /// The titles of the columns.
    pub fn header(&self) -> (header: &Vec<String>)
        requires
            self.wf(),
        ensures
            header@.len() == 6,
            forall|i: int| 0 <= i < 6 ==> (#[trigger] header@[i])@ == header_labels()[i],
    {
        &self.header
    }

    /// The torrent table.
    pub fn table_manager(&self) -> (table: &TableManager)
        requires
            self.wf(),
        ensures
            table.wf(),
            table@ == self@.table,
    {
        &self.table_manager
    }

    /// The latest session statistics, once a poll has brought any.
    pub fn stats(&self) -> (stats: Option<SessionStats>)
        ensures
            stats == self@.stats,
    {
        self.stats
    }

    /// Takes the snapshot list of a successful poll.
    pub fn set_new_rows(&mut self, rows: Vec<TorrentSnapshot>)
        requires
            old(self).wf(),
        ensures
            final(self).wf(),
            final(self)@ == old(self)@.set_rows(rows@),
            final(self)@.wf(),
    {
        self.table_manager.set_new_rows(rows);
    }

    /// Takes the statistics of a successful poll.
    pub fn set_stats(&mut self, stats: SessionStats)
        requires
            old(self).wf(),
        ensures
            final(self).wf(),
            final(self)@ == old(self)@.set_stats(stats),
    {
        self.stats = Some(stats);
    }

    /// Sets the filter pattern, or clears it.
    pub fn set_filter(&mut self, pattern: Option<String>)
        requires
            old(self).wf(),
        ensures
            final(self).wf(),
            final(self)@ == old(self)@.set_filter(
                match pattern {
                    None => None,
                    Some(p) => Some(p@),
                },
            ),
            final(self)@.wf(),
    {
        match pattern {
            None => self.table_manager.clear_filter(),
            Some(p) => self.table_manager.set_filter(p),
        }
    }

    /// Applies an intent to the tab and reports what the dispatcher is to do.
    #[must_use]
    pub fn handle_actions(&mut self, action: &Action) -> (outcome: TabOutcome)
        requires
            old(self).wf(),
        ensures
            final(self).wf(),
            (final(self)@, outcome@) == old(self)@.handle(*action),
            final(self)@.wf(),
            outcome@ matches TabOutcomeModel::Open(overlay) ==> overlay.wf(),
    {
        proof {
            self.table_manager.lemma_wf_has_valid_cursor();
        }
        match action {
            Action::Up => {
                self.table_manager.previous();
                TabOutcome::Render
            },
            Action::Down => {
                self.table_manager.next();
                TabOutcome::Render
            },
            Action::ShowStats => {
                match self.stats {
                    Some(stats) => TabOutcome::Open(Overlay::Statistics(StatisticsPopup::new(stats))),
                    None => TabOutcome::Nothing,
                }
            },
            Action::Pause => {
                match self.table_manager.get_current_item() {
                    Some(torrent) => TabOutcome::Issue(toggle_pause(torrent)),
                    None => TabOutcome::Nothing,
                }
            },
            Action::AddMagnet => TabOutcome::Open(
                Overlay::AddMagnet(AddMagnetBar::new(self.download_dir.clone())),
            ),
            Action::Search => {
                let pattern = match self.table_manager.filter_pattern() {
                    None => None,
                    Some(p) => Some(p.clone()),
                };
                TabOutcome::Open(Overlay::Filter(FilterBar::new(pattern)))
            },
            _ => TabOutcome::Nothing,
        }
    }
}

} // verus!
