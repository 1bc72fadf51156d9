//! The filter over the torrent list.
//!
//! Filtering never touches the list itself: it derives the indices of the
//! rows to show, in the order of the list.

use crate::matching::{fuzzy_matches, name_matches};
use crate::torrent::TorrentSnapshot;
use vstd::prelude::*;

verus! {

/// A name is shown if there is no filter or the pattern matches it.
pub open spec fn name_visible(filter: Option<Seq<char>>, name: Seq<char>) -> bool {
    match filter {
        None => true,
        Some(pattern) => fuzzy_matches(pattern, name),
    }
}

/// The indices of the rows whose names are shown, in increasing order.
pub open spec fn filtered_indices(rows: Seq<TorrentSnapshot>, filter: Option<Seq<char>>) -> Seq<
    usize,
>
    decreases rows.len(),
{
    if rows.len() == 0 {
        Seq::empty()
    } else {
        let before = filtered_indices(rows.drop_last(), filter);
        if name_visible(filter, rows.last().torrent_name@) {
            before.push((rows.len() - 1) as usize)
        } else {
            before
        }
    }
}

/// The rows behind a sequence of indices.
pub open spec fn rows_at(rows: Seq<TorrentSnapshot>, indices: Seq<usize>) -> Seq<TorrentSnapshot> {
    Seq::new(indices.len(), |k: int| rows[indices[k] as int])
}

/// The filtered indices are exactly the indices of the shown rows: each is
/// in range and shown, they increase strictly, and no shown row is missing.
pub proof fn lemma_filtered_indices_exact(rows: Seq<TorrentSnapshot>, filter: Option<Seq<char>>)
    requires
        rows.len() <= usize::MAX,
    ensures
        filtered_indices(rows, filter).len() <= rows.len(),
        forall|k: int|
            0 <= k < filtered_indices(rows, filter).len() ==> {
                let i = #[trigger] filtered_indices(rows, filter)[k];
                i < rows.len() && name_visible(filter, rows[i as int].torrent_name@)
            },
        forall|j: int, k: int|
            0 <= j < k < filtered_indices(rows, filter).len() ==> filtered_indices(rows, filter)[j]
                < filtered_indices(rows, filter)[k],
        forall|i: int|
            0 <= i < rows.len() && name_visible(filter, #[trigger] rows[i].torrent_name@)
                ==> filtered_indices(rows, filter).contains(i as usize),
    decreases rows.len(),
{
    if rows.len() > 0 {
        let front = rows.drop_last();
        let before = filtered_indices(front, filter);
        let all = filtered_indices(rows, filter);
        lemma_filtered_indices_exact(front, filter);
        assert forall|i: int|
            0 <= i < rows.len() && name_visible(filter, #[trigger] rows[i].torrent_name@)
            implies all.contains(i as usize) by {
            if i < rows.len() - 1 {
                assert(front[i] == rows[i]);
                let k = choose|k: int| 0 <= k < before.len() && before[k] == i as usize;
                assert(all[k] == i as usize);
            } else {
                assert(all[all.len() - 1] == i as usize);
            }
        }
    }
}

/// Without a filter every row is shown, in the order of the list.
pub proof fn lemma_no_filter_shows_all(rows: Seq<TorrentSnapshot>)
    requires
        rows.len() <= usize::MAX,
    ensures
        filtered_indices(rows, None) == Seq::new(rows.len(), |i: int| i as usize),
        rows_at(rows, filtered_indices(rows, None)) == rows,
    decreases rows.len(),
{
    if rows.len() > 0 {
        lemma_no_filter_shows_all(rows.drop_last());
    }
    assert(filtered_indices(rows, None) =~= Seq::new(rows.len(), |i: int| i as usize));
    assert(rows_at(rows, filtered_indices(rows, None)) =~= rows);
}

/// The optional pattern that narrows the rows shown.
#[derive(Clone, Debug)]
pub struct FilterState {
    pattern: Option<String>,
}

impl View for FilterState {
    type V = Option<Seq<char>>;

    closed spec fn view(&self) -> Option<Seq<char>> {
        match self.pattern {
            None => None,
            Some(p) => Some(p@),
        }
    }
}

impl FilterState {
    /// No pattern: everything is shown.
    pub fn new() -> (f: FilterState)
        ensures
            f@ is None,
    {
        FilterState { pattern: None }
    }

    /// Narrows the rows to those that `text` accepts.
    pub fn set_pattern(&mut self, text: String)
        ensures
            final(self)@ == Some(text@),
    {
        self.pattern = Some(text);
    }

    /// Shows every row again.
    pub fn clear_pattern(&mut self)
        ensures
            final(self)@ is None,
    {
        self.pattern = None;
    }

    /// The pattern, if one is set.
    pub fn pattern(&self) -> (pattern: Option<&String>)
        ensures
            match pattern {
                None => self@ is None,
                Some(p) => self@ == Some(p@),
            },
    {
        self.pattern.as_ref()
    }

    /// Whether a pattern is set.
    pub fn is_active(&self) -> (active: bool)
        ensures
            active == self@.is_some(),
    {
        self.pattern.is_some()
    }

    /// Whether a row of this name is shown.
    pub fn accepts(&self, name: &str) -> (shown: bool)
        ensures
            shown == name_visible(self@, name@),
    {
        match &self.pattern {
            None => true,
            Some(p) => name_matches(name, p.as_str()),
        }
    }

    /// The indices of the rows of `snapshots` that are shown, in the order
    /// of the list. The list itself is only read.
    pub fn apply(&self, snapshots: &Vec<TorrentSnapshot>) -> (view: Vec<usize>)
        ensures
            view@ == filtered_indices(snapshots@, self@),
    {
        let mut view: Vec<usize> = Vec::new();
        let mut i: usize = 0;
        while i < snapshots.len()
            invariant
                i <= snapshots.len(),
                view@ == filtered_indices(snapshots@.take(i as int), self@),
            decreases snapshots.len() - i,
        {
            let shown = self.accepts(snapshots[i].torrent_name.as_str());
            proof {
                assert(snapshots@.take(i + 1).drop_last() =~= snapshots@.take(i as int));
            }
            if shown {
                view.push(i);
            }
            i += 1;
        }
        proof {
            assert(snapshots@.take(i as int) =~= snapshots@);
        }
        view
    }
}

} // verus!
