use convit::errors::ConvitError;
use convit::select::{NavigateOp, SelectableList};

fn list_of(n: usize) -> SelectableList<usize> {
    let mut items = Vec::new();
    for i in 0..n {
        items.push(i);
    }
    SelectableList::new(items)
}

#[test]
fn next_selects_first_entry_initially() {
    let mut l = list_of(4);
    assert_eq!(l.selected_index(), None);
    assert_eq!(l.next(), Ok(()));
    assert_eq!(l.selected_index(), Some(0));
}

#[test]
fn next_wraps_after_full_cycle() {
    // Cyclic invariant: n steps return the selection to its start.
    let mut l = list_of(5);
    l.next().unwrap();
    l.next().unwrap();
    let start = l.selected_index().unwrap();
    for _ in 0..5 {
        l.next().unwrap();
    }
    assert_eq!(l.selected_index(), Some(start));
}

#[test]
fn previous_undoes_next_inside_the_range() {
    let mut l = list_of(6);
    l.next().unwrap();
    l.next().unwrap();
    assert_eq!(l.selected_index(), Some(1));
    l.next().unwrap();
    l.previous().unwrap();
    assert_eq!(l.selected_index(), Some(1));
}

#[test]
fn previous_undoes_next_across_the_wrap_boundary() {
    let mut l = list_of(3);
    l.select_last().unwrap();
    l.next().unwrap();
    assert_eq!(l.selected_index(), Some(0));
    l.previous().unwrap();
    assert_eq!(l.selected_index(), Some(2));
}

#[test]
fn index_stays_in_range_through_many_steps() {
    let mut l = list_of(3);
    for step in 0..20 {
        if step % 3 == 0 {
            l.previous().unwrap();
        } else {
            l.next().unwrap();
        }
        let i = l.selected_index().unwrap();
        assert!(i < 3);
    }
}

#[test]
fn unselect_then_next_resumes_at_previous_selection() {
    let mut l = list_of(7);
    l.next().unwrap();
    l.next().unwrap();
    l.next().unwrap();
    assert_eq!(l.selected_index(), Some(2));
    l.unselect().unwrap();
    assert_eq!(l.selected_index(), None);
    l.next().unwrap();
    assert_eq!(l.selected_index(), Some(2));
}

#[test]
fn next_starts_at_zero_when_nothing_was_ever_selected() {
    let mut l = list_of(7);
    l.unselect().unwrap();
    l.next().unwrap();
    assert_eq!(l.selected_index(), Some(0));
}

#[test]
fn double_unselect_keeps_the_recorded_index() {
    let mut l = list_of(5);
    l.next().unwrap();
    l.next().unwrap();
    l.unselect().unwrap();
    l.unselect().unwrap();
    l.next().unwrap();
    assert_eq!(l.selected_index(), Some(1));
}

#[test]
fn select_first_and_last_jump() {
    let mut l = list_of(9);
    l.select_last().unwrap();
    assert_eq!(l.selected_index(), Some(8));
    l.select_first().unwrap();
    assert_eq!(l.selected_index(), Some(0));
}

#[test]
fn every_operation_fails_on_an_empty_list() {
    let mut l: SelectableList<usize> = SelectableList::new(Vec::new());
    assert_eq!(l.next(), Err(ConvitError::EmptyList));
    assert_eq!(l.previous(), Err(ConvitError::EmptyList));
    assert_eq!(l.unselect(), Err(ConvitError::EmptyList));
    assert_eq!(l.select_first(), Err(ConvitError::EmptyList));
    assert_eq!(l.select_last(), Err(ConvitError::EmptyList));
    assert_eq!(l.selected_index(), None);
}

#[test]
fn apply_routes_each_operation() {
    let mut l = list_of(4);
    assert_eq!(l.apply(NavigateOp::Next), Ok(()));
    assert_eq!(l.selected_index(), Some(0));
    assert_eq!(l.apply(NavigateOp::Last), Ok(()));
    assert_eq!(l.selected_index(), Some(3));
    assert_eq!(l.apply(NavigateOp::Previous), Ok(()));
    assert_eq!(l.selected_index(), Some(2));
    assert_eq!(l.apply(NavigateOp::Unselect), Ok(()));
    assert_eq!(l.selected_index(), None);
    assert_eq!(l.apply(NavigateOp::First), Ok(()));
    assert_eq!(l.selected_index(), Some(0));
}

#[test]
fn navigation_keeps_the_backing_items() {
    let mut l = list_of(3);
    l.next().unwrap();
    l.select_last().unwrap();
    l.unselect().unwrap();
    assert_eq!(l.len(), 3);
    assert_eq!(l.items, vec![0, 1, 2]);
}
