use rm_main::table::{ColumnWidth, TableManager};
use rm_main::torrent::{TorrentSnapshot, TorrentStatus};

fn torrent(id: i64, name: &str) -> TorrentSnapshot {
    TorrentSnapshot {
        id,
        torrent_name: name.to_string(),
        size_when_done: "1.0 GB".to_string(),
        progress: String::new(),
        eta_secs: String::new(),
        download_speed: String::new(),
        upload_speed: String::new(),
        status: TorrentStatus::Seeding,
    }
}

fn names(table: &TableManager) -> Vec<String> {
    table.shown_rows().iter().map(|row| row.torrent_name.clone()).collect()
}

fn five() -> Vec<TorrentSnapshot> {
    vec![
        torrent(1, "alpha"),
        torrent(2, "beta"),
        torrent(3, "gamma"),
        torrent(4, "delta"),
        torrent(5, "epsilon"),
    ]
}

const DEFAULT_WIDTHS: [ColumnWidth; 6] = [
    ColumnWidth::Max(70),
    ColumnWidth::Length(10),
    ColumnWidth::Length(10),
    ColumnWidth::Length(10),
    ColumnWidth::Length(10),
    ColumnWidth::Length(10),
];

#[test]
fn new_table_is_empty_with_default_widths() {
    let table = TableManager::new(true, Vec::new());
    assert_eq!(table.current(), None);
    assert!(table.get_current_item().is_none());
    assert!(table.rows().is_empty());
    assert!(table.visible().is_empty());
    assert!(!table.is_filtered());
    assert_eq!(table.widths(), DEFAULT_WIDTHS);
    assert_eq!(TableManager::default_widths(), DEFAULT_WIDTHS);
}

#[test]
fn new_table_over_rows_selects_the_first() {
    let table = TableManager::new(false, five());
    assert_eq!(table.current(), Some(0));
    assert_eq!(table.get_current_item().map(|t| t.id), Some(1));
}

#[test]
fn poll_replaces_the_list_wholesale() {
    let mut table = TableManager::new(false, Vec::new());
    table.set_new_rows(five());
    assert_eq!(table.rows().len(), 5);
    assert_eq!(table.visible(), &vec![0, 1, 2, 3, 4]);
    assert_eq!(table.current(), Some(0));
    table.set_new_rows(vec![torrent(9, "omega")]);
    assert_eq!(table.rows(), &vec![torrent(9, "omega")]);
    assert_eq!(names(&table), vec!["omega"]);
}

#[test]
fn cursor_is_reclamped_when_a_poll_shrinks_the_view() {
    let mut table = TableManager::new(false, five());
    for _ in 0..4 {
        table.next();
    }
    assert_eq!(table.current(), Some(4));
    table.set_new_rows(vec![torrent(1, "alpha"), torrent(2, "beta"), torrent(3, "gamma")]);
    assert_eq!(table.current(), Some(2));
    assert_eq!(table.get_current_item().map(|t| t.id), Some(3));
}

#[test]
fn cursor_is_reclamped_when_the_filter_shrinks_the_view() {
    let mut table = TableManager::new(false, five());
    for _ in 0..4 {
        table.next();
    }
    // "alpha", "beta", "gamma" and "delta" hold an 'a'; "epsilon" does not.
    table.set_filter("a".to_string());
    assert_eq!(table.visible(), &vec![0, 1, 2, 3]);
    assert_eq!(table.current(), Some(3));
    table.set_filter("zzz".to_string());
    assert!(table.visible().is_empty());
    assert_eq!(table.current(), None);
    assert!(table.get_current_item().is_none());
    table.clear_filter();
    assert_eq!(table.current(), Some(0));
}

#[test]
fn cursor_keeps_its_position_not_its_item() {
    // Positional stability: the cursor stays on its index when the list
    // beneath it changes, so the item under it may be another one.
    let mut table = TableManager::new(false, five());
    table.next();
    assert_eq!(table.get_current_item().map(|t| t.id), Some(2));
    let mut reordered = five();
    reordered.reverse();
    table.set_new_rows(reordered);
    assert_eq!(table.current(), Some(1));
    assert_eq!(table.get_current_item().map(|t| t.id), Some(4));
}

#[test]
fn cursor_stays_valid_through_polls_and_filter_changes() {
    let mut table = TableManager::new(true, Vec::new());
    let lists = vec![five(), Vec::new(), vec![torrent(7, "eta")], five()];
    let patterns = vec!["a", "eta", "", "zz", "l"];
    for rows in &lists {
        for pattern in &patterns {
            table.set_new_rows(rows.clone());
            table.next();
            table.next();
            table.set_filter(pattern.to_string());
            let shown = table.visible().len();
            match table.current() {
                None => assert_eq!(shown, 0),
                Some(i) => assert!(i < shown),
            }
            table.previous();
            table.clear_filter();
            let shown = table.visible().len();
            assert_eq!(shown, rows.len());
            match table.current() {
                None => assert_eq!(shown, 0),
                Some(i) => assert!(i < shown),
            }
        }
    }
}

#[test]
fn current_item_resolves_through_the_filter() {
    let mut table = TableManager::new(false, five());
    table.set_filter("l".to_string());
    assert_eq!(names(&table), vec!["alpha", "delta", "epsilon"]);
    table.next();
    assert_eq!(table.current(), Some(1));
    assert_eq!(table.get_current_item().map(|t| t.torrent_name.as_str()), Some("delta"));
    assert_eq!(table.filter_pattern(), Some(&"l".to_string()));
}

#[test]
fn filtering_and_clearing_restores_the_view() {
    let mut table = TableManager::new(false, five());
    let rows_before = table.rows().clone();
    let view_before = table.visible().clone();
    table.set_filter("gam".to_string());
    assert_eq!(names(&table), vec!["gamma"]);
    assert_eq!(table.rows(), &rows_before);
    table.clear_filter();
    assert_eq!(table.visible(), &view_before);
    assert_eq!(table.rows(), &rows_before);
    assert_eq!(names(&table), vec!["alpha", "beta", "gamma", "delta", "epsilon"]);
}

#[test]
fn widths_stay_default_without_auto_hide() {
    let mut table = TableManager::new(false, Vec::new());
    let mut busy = torrent(1, "alpha");
    busy.download_speed = "1 MB/s".to_string();
    table.set_new_rows(vec![busy]);
    assert_eq!(table.widths(), DEFAULT_WIDTHS);
}

#[test]
fn auto_hide_gives_no_room_to_unused_columns() {
    let mut table = TableManager::new(true, Vec::new());
    table.set_new_rows(five());
    assert_eq!(
        table.widths(),
        [
            ColumnWidth::Max(70),
            ColumnWidth::Length(9),
            ColumnWidth::Length(0),
            ColumnWidth::Length(0),
            ColumnWidth::Length(0),
            ColumnWidth::Length(0),
        ]
    );
}

#[test]
fn auto_hide_shows_a_column_that_some_row_uses() {
    let mut rows = five();
    rows[1].progress = "50%".to_string();
    rows[1].eta_secs = "1m".to_string();
    rows[3].upload_speed = "2 kB/s".to_string();
    let mut table = TableManager::new(true, Vec::new());
    table.set_new_rows(rows);
    assert_eq!(
        table.widths(),
        [
            ColumnWidth::Max(70),
            ColumnWidth::Length(9),
            ColumnWidth::Length(9),
            ColumnWidth::Length(9),
            ColumnWidth::Length(0),
            ColumnWidth::Length(9),
        ]
    );
}

#[test]
fn auto_hide_looks_at_the_rows_shown_only() {
    let mut rows = five();
    rows[1].download_speed = "1 MB/s".to_string();
    let mut table = TableManager::new(true, Vec::new());
    table.set_new_rows(rows.clone());
    assert_eq!(table.widths()[4], ColumnWidth::Length(9));
    // "beta" is filtered out: nothing shown has a download rate.
    table.set_filter("alp".to_string());
    assert_eq!(table.widths()[4], ColumnWidth::Length(0));
    table.clear_filter();
    assert_eq!(table.widths()[4], ColumnWidth::Length(9));
    let visible: Vec<usize> = vec![0, 2];
    assert_eq!(TableManager::header_widths(true, &rows, &visible)[4], ColumnWidth::Length(0));
    let visible: Vec<usize> = vec![1];
    assert_eq!(TableManager::header_widths(true, &rows, &visible)[4], ColumnWidth::Length(9));
}

#[test]
fn rows_with_very_long_names_are_filtered_like_any_other() {
    let long_name = format!("{}delta", "x".repeat(rm_main::matching::MAX_MATCH_CHARS));
    let mut table = TableManager::new(false, Vec::new());
    table.set_new_rows(vec![torrent(1, "alpha"), torrent(2, &long_name)]);
    assert_eq!(table.visible(), &vec![0, 1]);
    table.set_filter(String::new());
    assert_eq!(table.visible(), &vec![0, 1]);
    table.set_filter("XD".to_string());
    assert_eq!(table.visible(), &vec![1]);
    assert_eq!(table.get_current_item().map(|t| t.id), Some(2));
    table.set_filter("alp".to_string());
    assert_eq!(table.visible(), &vec![0]);
}
