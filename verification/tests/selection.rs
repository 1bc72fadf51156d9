use rm_main::selection::SelectionController;

#[test]
fn new_cursor_selects_nothing() {
    let selection = SelectionController::new();
    assert_eq!(selection.current(), None);
    assert_eq!(selection.len(), 0);
}

#[test]
fn moving_over_no_rows_does_nothing() {
    let mut selection = SelectionController::new();
    selection.next();
    assert_eq!(selection.current(), None);
    selection.previous();
    assert_eq!(selection.current(), None);
}

#[test]
fn first_rows_select_the_first_row() {
    let mut selection = SelectionController::new();
    selection.reclamp(3);
    assert_eq!(selection.current(), Some(0));
    assert_eq!(selection.len(), 3);
}

#[test]
fn next_saturates_at_the_last_row() {
    let mut selection = SelectionController::new();
    selection.reclamp(3);
    selection.next();
    assert_eq!(selection.current(), Some(1));
    selection.next();
    assert_eq!(selection.current(), Some(2));
    selection.next();
    assert_eq!(selection.current(), Some(2));
}

#[test]
fn previous_saturates_at_the_first_row() {
    let mut selection = SelectionController::new();
    selection.reclamp(3);
    selection.next();
    selection.previous();
    assert_eq!(selection.current(), Some(0));
    selection.previous();
    assert_eq!(selection.current(), Some(0));
}

#[test]
fn reclamp_on_shrink_moves_cursor_to_last_row() {
    let mut selection = SelectionController::new();
    selection.reclamp(5);
    for _ in 0..4 {
        selection.next();
    }
    assert_eq!(selection.current(), Some(4));
    selection.reclamp(3);
    assert_eq!(selection.current(), Some(2));
}

#[test]
fn reclamp_keeps_an_index_that_is_still_in_range() {
    let mut selection = SelectionController::new();
    selection.reclamp(5);
    selection.next();
    selection.reclamp(2);
    assert_eq!(selection.current(), Some(1));
    selection.reclamp(9);
    assert_eq!(selection.current(), Some(1));
    assert_eq!(selection.len(), 9);
}

#[test]
fn reclamp_to_no_rows_clears_the_cursor() {
    let mut selection = SelectionController::new();
    selection.reclamp(5);
    selection.next();
    selection.reclamp(0);
    assert_eq!(selection.current(), None);
    selection.reclamp(1);
    assert_eq!(selection.current(), Some(0));
}
