//! The torrent table: the latest snapshot list, the filter over it, the
//! rows shown, the selection cursor and the column widths.
//!
//! The list is replaced wholesale by every successful poll and is never
//! edited in place. The rows shown are derived from the list and the filter;
//! whenever either changes, the cursor is clamped to the new rows before
//! anything reads it.

use crate::filter::{
    filtered_indices, lemma_filtered_indices_exact, lemma_no_filter_shows_all, rows_at,
    FilterState,
};
use crate::selection::{SelectionController, SelectionModel};
use crate::torrent::TorrentSnapshot;
use vstd::prelude::*;

verus! {

/// A width hint for one column of the table.
#[derive(Clone, Copy, Debug, PartialEq, Eq, Structural)]
pub enum ColumnWidth {
    /// At most this many cells.
    Max(u16),
    /// Exactly this many cells.
    Length(u16),
}

/// The columns that are hidden while no shown row has anything in them.
pub enum Column {
    Progress,
    Eta,
    Download,
    Upload,
}

/// The text of a row in a column.
pub open spec fn column_text(row: TorrentSnapshot, column: Column) -> Seq<char> {
    match column {
        Column::Progress => row.progress@,
        Column::Eta => row.eta_secs@,
        Column::Download => row.download_speed@,
        Column::Upload => row.upload_speed@,
    }
}

/// Some row has a text in the column.
pub open spec fn column_used(shown: Seq<TorrentSnapshot>, column: Column) -> bool {
    exists|i: int| 0 <= i < shown.len() && (#[trigger] column_text(shown[i], column)).len() > 0
}

/// The width of a column that hides when unused.
pub open spec fn fitted_width(used: bool) -> ColumnWidth {
    if used {
        ColumnWidth::Length(9)
    } else {
        ColumnWidth::Length(0)
    }
}

/// The widths used while columns are not hidden: name, size, progress,
/// remaining time, download rate, upload rate.
pub open spec fn default_column_widths() -> Seq<ColumnWidth> {
    seq![
        ColumnWidth::Max(70),
        ColumnWidth::Length(10),
        ColumnWidth::Length(10),
        ColumnWidth::Length(10),
        ColumnWidth::Length(10),
        ColumnWidth::Length(10),
    ]
}

/// The widths for the rows shown. With `auto_hide` a column other than name
/// and size gets no room unless some shown row has a text in it.
pub open spec fn column_widths(auto_hide: bool, shown: Seq<TorrentSnapshot>) -> Seq<ColumnWidth> {
    if !auto_hide {
        default_column_widths()
    } else {
        seq![
            ColumnWidth::Max(70),
            ColumnWidth::Length(9),
            fitted_width(column_used(shown, Column::Progress)),
            fitted_width(column_used(shown, Column::Eta)),
            fitted_width(column_used(shown, Column::Download)),
            fitted_width(column_used(shown, Column::Upload)),
        ]
    }
}

proof fn lemma_column_used_step(shown: Seq<TorrentSnapshot>, k: int, column: Column)
    requires
        0 <= k < shown.len(),
    ensures
        column_used(shown.take(k + 1), column) == (column_used(shown.take(k), column)
            || column_text(shown[k], column).len() > 0),
{
    let shorter = shown.take(k);
    let longer = shown.take(k + 1);
    if column_used(longer, column) {
        let i = choose|i: int|
            0 <= i < longer.len() && (#[trigger] column_text(longer[i], column)).len() > 0;
        if i < k {
            assert(column_text(shorter[i], column).len() > 0);
        }
    }
    if column_used(shorter, column) {
        let i = choose|i: int|
            0 <= i < shorter.len() && (#[trigger] column_text(shorter[i], column)).len() > 0;
        assert(column_text(longer[i], column).len() > 0);
    }
    if column_text(shown[k], column).len() > 0 {
        assert(column_text(longer[k], column).len() > 0);
    }
}

/// What the table holds.
pub struct TableModel {
    /// The latest snapshot list, in the daemon's order.
    pub rows: Seq<TorrentSnapshot>,
    /// The filter pattern, if one is set.
    pub filter: Option<Seq<char>>,
    /// The cursor over the rows shown.
    pub selection: SelectionModel,
    /// Whether unused columns are hidden.
    pub auto_hide: bool,
    /// The current column widths.
    pub widths: Seq<ColumnWidth>,
}

/// What can happen to the table.
pub enum TableEvent {
    /// A poll brought a new snapshot list.
    Poll(Seq<TorrentSnapshot>),
    /// A filter pattern was set.
    SetFilter(Seq<char>),
    /// The filter was cleared.
    ClearFilter,
    /// The cursor was moved down.
    Next,
    /// The cursor was moved up.
    Previous,
}

impl TableModel {
    /// The indices of the rows shown, in the order of the list.
    pub open spec fn visible(self) -> Seq<usize> {
        filtered_indices(self.rows, self.filter)
    }

    /// The rows shown.
    pub open spec fn shown(self) -> Seq<TorrentSnapshot> {
        rows_at(self.rows, self.visible())
    }

    /// The cursor is none when no row is shown and the index of a shown row
    /// otherwise.
    pub open spec fn wf(self) -> bool {
        &&& self.selection.wf()
        &&& self.selection.len == self.visible().len()
    }

    /// The row under the cursor.
    pub open spec fn current_item(self) -> Option<TorrentSnapshot> {
        match self.selection.cursor {
            Some(i) if i < self.visible().len() => Some(self.shown()[i as int]),
            _ => None,
        }
    }

    /// An empty table.
    pub open spec fn empty(auto_hide: bool) -> TableModel {
        TableModel {
            rows: Seq::empty(),
            filter: None,
            selection: SelectionModel::empty(),
            auto_hide,
            widths: default_column_widths(),
        }
    }

    /// Brings cursor and widths in line with the rows now shown.
    pub open spec fn refreshed(self) -> TableModel {
        TableModel {
            selection: self.selection.reclamp(self.visible().len()),
            widths: column_widths(self.auto_hide, self.shown()),
            ..self
        }
    }

    /// The table after a poll replaced the list.
    pub open spec fn set_rows(self, rows: Seq<TorrentSnapshot>) -> TableModel {
        TableModel { rows, ..self }.refreshed()
    }

    /// The table after the filter changed.
    pub open spec fn set_filter(self, filter: Option<Seq<char>>) -> TableModel {
        TableModel { filter, ..self }.refreshed()
    }

    /// The table after the cursor moved down.
    pub open spec fn next(self) -> TableModel {
        TableModel { selection: self.selection.next(), ..self }
    }

    /// The table after the cursor moved up.
    pub open spec fn previous(self) -> TableModel {
        TableModel { selection: self.selection.previous(), ..self }
    }

    /// The table after one event.
    pub open spec fn step(self, event: TableEvent) -> TableModel {
        match event {
            TableEvent::Poll(rows) => self.set_rows(rows),
            TableEvent::SetFilter(pattern) => self.set_filter(Some(pattern)),
            TableEvent::ClearFilter => self.set_filter(None),
            TableEvent::Next => self.next(),
            TableEvent::Previous => self.previous(),
        }
    }

    /// The table after a sequence of events, first to last.
    pub open spec fn run(self, events: Seq<TableEvent>) -> TableModel
        decreases events.len(),
    {
        if events.len() == 0 {
            self
        } else {
            self.run(events.drop_last()).step(events.last())
        }
    }
}

/// One event keeps the cursor valid.
pub proof fn lemma_step_keeps_cursor_valid(m: TableModel, event: TableEvent)
    requires
        m.wf(),
    ensures
        m.step(event).wf(),
{
}

/// Whatever polls, filter changes and cursor moves happen, in whatever
/// order, the cursor is none while no row is shown and the index of a shown
/// row otherwise.
pub proof fn lemma_cursor_always_valid(m: TableModel, events: Seq<TableEvent>)
    requires
        m.wf(),
    ensures
        m.run(events).wf(),
        m.run(events).visible().len() == 0 <==> m.run(events).selection.cursor is None,
        m.run(events).selection.cursor matches Some(i) ==> i < m.run(events).visible().len(),
    decreases events.len(),
{
    if events.len() > 0 {
        lemma_cursor_always_valid(m, events.drop_last());
        lemma_step_keeps_cursor_valid(m.run(events.drop_last()), events.last());
    }
}

/// Filtering never alters the list: setting a pattern and clearing it again
/// shows every row of the list, in the order of the list; on a table that
/// had no filter this is the view from before.
pub proof fn lemma_clearing_filter_restores_view(m: TableModel, pattern: Seq<char>)
    requires
        m.rows.len() <= usize::MAX,
    ensures
        m.set_filter(Some(pattern)).rows == m.rows,
        m.set_filter(Some(pattern)).set_filter(None).rows == m.rows,
        m.set_filter(Some(pattern)).set_filter(None).shown() == m.rows,
        m.filter is None ==> m.set_filter(Some(pattern)).set_filter(None).visible() == m.visible(),
        m.filter is None ==> m.set_filter(Some(pattern)).set_filter(None).shown() == m.shown(),
{
    lemma_no_filter_shows_all(m.rows);
}

/// Owns the snapshot list and everything derived from it.
pub struct TableManager {
    rows: Vec<TorrentSnapshot>,
    filter: FilterState,
    visible: Vec<usize>,
    selection: SelectionController,
    widths: [ColumnWidth; 6],
    auto_hide: bool,
}

impl View for TableManager {
    type V = TableModel;

    closed spec fn view(&self) -> TableModel {
        TableModel {
            rows: self.rows@,
            filter: self.filter@,
            selection: self.selection@,
            auto_hide: self.auto_hide,
            widths: self.widths@,
        }
    }
}

impl TableManager {
    /// The rows shown are those derived from list and filter, and the cursor
    /// is valid over them.
    pub closed spec fn wf(&self) -> bool {
        &&& self.visible@ == filtered_indices(self.rows@, self.filter@)
        &&& self@.wf()
    }

    /// A consistent table has a valid cursor.
    pub proof fn lemma_wf_has_valid_cursor(&self)
        requires
            self.wf(),
        ensures
            self@.wf(),
    {
    }

    /// A table without filter over `rows`, with the default widths.
    pub fn new(auto_hide: bool, rows: Vec<TorrentSnapshot>) -> (table: TableManager)
        ensures
            table.wf(),
            table@.wf(),
            table@ == (TableModel {
                rows: rows@,
                selection: SelectionModel::empty().reclamp(rows@.len()),
                ..TableModel::empty(auto_hide)
            }),
    {
        let filter = FilterState::new();
        let visible = filter.apply(&rows);
        let mut selection = SelectionController::new();
        selection.reclamp(visible.len());
        proof {
            assert(rows@.len() == rows.len());
            lemma_no_filter_shows_all(rows@);
        }
        TableManager {
            rows,
            filter,
            visible,
            selection,
            widths: Self::default_widths(),
            auto_hide,
        }
    }

    /// The widths used while columns are not hidden.
    pub fn default_widths() -> (widths: [ColumnWidth; 6])
        ensures
            widths@ == default_column_widths(),
    {
        let widths = [
            ColumnWidth::Max(70),
            ColumnWidth::Length(10),
            ColumnWidth::Length(10),
            ColumnWidth::Length(10),
            ColumnWidth::Length(10),
            ColumnWidth::Length(10),
        ];
        assert(widths@ =~= default_column_widths());
        widths
    }

    /// The row under the cursor, if a row is shown.
    pub fn get_current_item(&self) -> (item: Option<&TorrentSnapshot>)
        requires
            self.wf(),
        ensures
            match item {
                None => self@.current_item() is None,
                Some(row) => self@.current_item() == Some(*row),
            },
            item is None <==> self@.visible().len() == 0,
    {
        proof {
            assert(self.rows@.len() == self.rows.len());
            lemma_filtered_indices_exact(self.rows@, self.filter@);
        }
        match self.selection.current() {
            None => None,
            Some(index) => {
                let row = &self.rows[self.visible[index]];
                Some(row)
            },
        }
    }

    /// Replaces the snapshot list by the result of a poll, then derives the
    /// rows shown, clamps the cursor and fits the columns.
    pub fn set_new_rows(&mut self, rows: Vec<TorrentSnapshot>)
        requires
            old(self).wf(),
        ensures
            final(self).wf(),
            final(self)@ == old(self)@.set_rows(rows@),
            final(self)@.wf(),
    {
        self.visible = self.filter.apply(&rows);
        self.rows = rows;
        self.refresh();
    }

    /// Sets the filter pattern, then derives the rows shown, clamps the
    /// cursor and fits the columns. The list is left as it is.
    pub fn set_filter(&mut self, pattern: String)
        requires
            old(self).wf(),
        ensures
            final(self).wf(),
            final(self)@ == old(self)@.set_filter(Some(pattern@)),
            final(self)@.wf(),
            final(self)@.rows == old(self)@.rows,
    {
        self.filter.set_pattern(pattern);
        self.visible = self.filter.apply(&self.rows);
        self.refresh();
    }

    /// Clears the filter: every row of the list is shown again.
    pub fn clear_filter(&mut self)
        requires
            old(self).wf(),
        ensures
            final(self).wf(),
            final(self)@ == old(self)@.set_filter(None),
            final(self)@.wf(),
            final(self)@.rows == old(self)@.rows,
            final(self)@.shown() == old(self)@.rows,
    {
        self.filter.clear_pattern();
        self.visible = self.filter.apply(&self.rows);
        self.refresh();
        proof {
            assert(self.rows@.len() == self.rows.len());
            lemma_no_filter_shows_all(self.rows@);
        }
    }

    fn refresh(&mut self)
        requires
            old(self).visible@ == filtered_indices(old(self).rows@, old(self).filter@),
        ensures
            final(self).wf(),
            final(self)@ == old(self)@.refreshed(),
    {
        self.selection.reclamp(self.visible.len());
        proof {
            assert(self.rows@.len() == self.rows.len());
            lemma_filtered_indices_exact(self.rows@, self.filter@);
        }
        self.widths = Self::header_widths(self.auto_hide, &self.rows, &self.visible);
    }

    /// The column widths for the rows of `rows` at `visible`.
    pub fn header_widths(auto_hide: bool, rows: &Vec<TorrentSnapshot>, visible: &Vec<usize>) -> (widths:
        [ColumnWidth; 6])
        requires
            forall|k: int| 0 <= k < visible@.len() ==> visible@[k] < rows@.len(),
        ensures
            widths@ == column_widths(auto_hide, rows_at(rows@, visible@)),
    {
        if !auto_hide {
            return Self::default_widths();
        }
        let ghost shown = rows_at(rows@, visible@);
        let mut download_width: u16 = 0;
        let mut upload_width: u16 = 0;
        let mut progress_width: u16 = 0;
        let mut eta_width: u16 = 0;
        let mut k: usize = 0;
        while k < visible.len()
            invariant
                k <= visible.len(),
                shown == rows_at(rows@, visible@),
                forall|j: int| 0 <= j < visible@.len() ==> visible@[j] < rows@.len(),
                ColumnWidth::Length(progress_width) == fitted_width(
                    column_used(shown.take(k as int), Column::Progress),
                ),
                ColumnWidth::Length(eta_width) == fitted_width(
                    column_used(shown.take(k as int), Column::Eta),
                ),
                ColumnWidth::Length(download_width) == fitted_width(
                    column_used(shown.take(k as int), Column::Download),
                ),
                ColumnWidth::Length(upload_width) == fitted_width(
                    column_used(shown.take(k as int), Column::Upload),
                ),
            decreases visible.len() - k,
        {
            let row = &rows[visible[k]];
            proof {
                assert(shown[k as int] == *row);
                lemma_column_used_step(shown, k as int, Column::Progress);
                lemma_column_used_step(shown, k as int, Column::Eta);
                lemma_column_used_step(shown, k as int, Column::Download);
                lemma_column_used_step(shown, k as int, Column::Upload);
            }
            if !row.download_speed.as_str().is_empty() {
                download_width = 9;
            }
            if !row.upload_speed.as_str().is_empty() {
                upload_width = 9;
            }
            if !row.progress.as_str().is_empty() {
                progress_width = 9;
            }
            if !row.eta_secs.as_str().is_empty() {
                eta_width = 9;
            }
            k += 1;
        }
        proof {
            assert(shown.take(k as int) =~= shown);
        }
        let widths = [
            ColumnWidth::Max(70),
            ColumnWidth::Length(9),
            ColumnWidth::Length(progress_width),
            ColumnWidth::Length(eta_width),
            ColumnWidth::Length(download_width),
            ColumnWidth::Length(upload_width),
        ];
        assert(widths@ =~= column_widths(auto_hide, shown));
        widths
    }

    /// Moves the cursor one row down, staying on the last row.
    pub fn next(&mut self)
        requires
            old(self).wf(),
        ensures
            final(self).wf(),
            final(self)@ == old(self)@.next(),
            final(self)@.wf(),
    {
        self.selection.next();
    }

    /// Moves the cursor one row up, staying on the first row.
    pub fn previous(&mut self)
        requires
            old(self).wf(),
        ensures
            final(self).wf(),
            final(self)@ == old(self)@.previous(),
            final(self)@.wf(),
    {
        self.selection.previous();
    }

    /// The index under the cursor among the rows shown.
    pub fn current(&self) -> (index: Option<usize>)
        ensures
            match index {
                None => self@.selection.cursor is None,
                Some(i) => self@.selection.cursor == Some(i as nat),
            },
    {
        self.selection.current()
    }

    /// The whole snapshot list.
    pub fn rows(&self) -> (rows: &Vec<TorrentSnapshot>)
        ensures
            rows@ == self@.rows,
    {
        &self.rows
    }

    /// The indices into the list of the rows shown, in the order of the list.
    pub fn visible(&self) -> (visible: &Vec<usize>)
        requires
            self.wf(),
        ensures
            visible@ == self@.visible(),
    {
        &self.visible
    }

    /// The current column widths.
    pub fn widths(&self) -> (widths: [ColumnWidth; 6])
        ensures
            widths@ == self@.widths,
    {
        self.widths
    }

    /// The filter pattern, if one is set.
    pub fn filter_pattern(&self) -> (pattern: Option<&String>)
        ensures
            match pattern {
                None => self@.filter is None,
                Some(p) => self@.filter == Some(p@),
            },
    {
        self.filter.pattern()
    }

    /// The rows shown, in the order of the list.
    pub fn shown_rows(&self) -> (shown: Vec<&TorrentSnapshot>)
        requires
            self.wf(),
        ensures
            shown@.len() == self@.shown().len(),
            forall|k: int| 0 <= k < shown@.len() ==> *(#[trigger] shown@[k]) == self@.shown()[k],
    {
        proof {
            assert(self.rows@.len() == self.rows.len());
            lemma_filtered_indices_exact(self.rows@, self.filter@);
        }
        let mut shown: Vec<&TorrentSnapshot> = Vec::new();
        let mut k: usize = 0;
        while k < self.visible.len()
            invariant
                k <= self.visible.len(),
                self.visible@ == filtered_indices(self.rows@, self.filter@),
                forall|j: int| 0 <= j < self.visible@.len() ==> self.visible@[j] < self.rows@.len(),
                shown@.len() == k,
                forall|j: int|
                    0 <= j < k ==> *(#[trigger] shown@[j]) == self.rows@[self.visible@[j] as int],
            decreases self.visible.len() - k,
        {
            shown.push(&self.rows[self.visible[k]]);
            k += 1;
        }
        shown
    }

    /// Whether a filter pattern is set.
    pub fn is_filtered(&self) -> (filtered: bool)
        ensures
            filtered == self@.filter.is_some(),
    {
        self.filter.is_active()
    }
}

} // verus!
