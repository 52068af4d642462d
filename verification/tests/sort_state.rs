use struct_table::sort::{sort_icon, ColumnSort, SortState, TableHeadEvent};

#[test]
fn click_cycle_on_one_column() {
    let mut state = SortState::new();
    assert_eq!(state.sort_direction(0), ColumnSort::Unsorted);
    assert_eq!(state.sort_priority(0), None);

    state.click_column(0);
    assert_eq!(state.sort_direction(0), ColumnSort::Ascending);
    assert_eq!(state.sort_priority(0), Some(0));

    state.click_column(0);
    assert_eq!(state.sort_direction(0), ColumnSort::Descending);
    assert_eq!(state.sort_priority(0), Some(0));

    state.click_column(0);
    assert_eq!(state.sort_direction(0), ColumnSort::Unsorted);
    assert_eq!(state.sort_priority(0), None);
    assert!(state.order().is_empty());
}

#[test]
fn priorities_stay_dense_when_a_column_leaves() {
    let mut state = SortState::new();
    state.click_column(3);
    state.click_column(1);
    state.click_column(5);
    assert_eq!(state.sort_priority(3), Some(0));
    assert_eq!(state.sort_priority(1), Some(1));
    assert_eq!(state.sort_priority(5), Some(2));

    // two more clicks take column 3 out; the others close the gap
    state.click_column(3);
    state.click_column(3);
    assert_eq!(state.sort_priority(3), None);
    assert_eq!(state.sort_priority(1), Some(0));
    assert_eq!(state.sort_priority(5), Some(1));
    assert_eq!(
        state.order().as_slice(),
        &[(1usize, ColumnSort::Ascending), (5usize, ColumnSort::Ascending)]
    );
}

#[test]
fn second_column_enters_at_next_rank() {
    let mut state = SortState::new();
    state.click_column(2);
    state.click_column(2);
    state.click_column(7);
    assert_eq!(state.sort_direction(2), ColumnSort::Descending);
    assert_eq!(state.sort_direction(7), ColumnSort::Ascending);
    assert_eq!(state.sort_priority(2), Some(0));
    assert_eq!(state.sort_priority(7), Some(1));
}

#[test]
fn header_event_drives_the_state() {
    let mut state = SortState::new();
    let event = TableHeadEvent { index: 4, column: "name" };
    state.handle_event(&event);
    assert_eq!(state.sort_direction(4), ColumnSort::Ascending);
    assert_eq!(state.sort_direction(0), ColumnSort::Unsorted);
}

#[test]
fn icons_follow_the_direction() {
    assert_eq!(sort_icon(ColumnSort::Ascending), "\u{25b2}");
    assert_eq!(sort_icon(ColumnSort::Descending), "\u{25bc}");
    assert_eq!(sort_icon(ColumnSort::Unsorted), "");
}
