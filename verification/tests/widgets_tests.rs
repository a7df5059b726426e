use crunch::widgets::{move_index, next_index};

#[test]
fn next_index_stops_on_last_item() {
    assert_eq!(next_index(0, 3), 1);
    assert_eq!(next_index(1, 3), 2);
    assert_eq!(next_index(2, 3), 2);
    assert_eq!(next_index(7, 3), 2);
}

#[test]
fn next_index_on_empty_list_is_zero() {
    assert_eq!(next_index(0, 0), 0);
    assert_eq!(next_index(usize::MAX, 0), 0);
}

#[test]
fn move_index_clamps_to_the_list() {
    assert_eq!(move_index(2, 5, 1), 3);
    assert_eq!(move_index(2, 5, -1), 1);
    assert_eq!(move_index(0, 5, -1), 0);
    assert_eq!(move_index(2, 5, 10), 4);
    assert_eq!(move_index(3, 5, isize::MIN), 0);
    assert_eq!(move_index(usize::MAX, 3, 1), 2);
    assert_eq!(move_index(usize::MAX, 3, isize::MAX), 2);
}

#[test]
fn move_index_on_empty_list_is_zero() {
    assert_eq!(move_index(4, 0, 1), 0);
    assert_eq!(move_index(0, 0, -1), 0);
}
