//! Navigation behaviour of the selectable list.

use agenda_client::list::SelectableList;

fn numbers(n: usize) -> SelectableList<u64> {
    let mut v: Vec<u64> = Vec::new();
    let mut i: u64 = 0;
    while (i as usize) < n {
        v.push(i * 10);
        i += 1;
    }
    SelectableList::with_items(v)
}

#[test]
fn fresh_list_selects_first() {
    let l = numbers(3);
    assert_eq!(l.len(), 3);
    assert_eq!(l.selected_index(), Some(0));
    assert_eq!(*l.get(0), 0);
    assert_eq!(*l.get(2), 20);
}

#[test]
fn next_cycles_back_after_len_calls() {
    let mut l = numbers(4);
    assert_eq!(l.selected_index(), Some(0));
    for step in 1..4 {
        l.next();
        assert_eq!(l.selected_index(), Some(step));
    }
    l.next();
    assert_eq!(l.selected_index(), Some(0));
}

#[test]
fn next_on_single_item_stays_at_zero() {
    let mut l = numbers(1);
    l.next();
    assert_eq!(l.selected_index(), Some(0));
    l.next();
    assert_eq!(l.selected_index(), Some(0));
}

#[test]
fn previous_inverts_next() {
    let mut l = numbers(5);
    l.next();
    l.next();
    assert_eq!(l.selected_index(), Some(2));
    l.next();
    l.previous();
    assert_eq!(l.selected_index(), Some(2));
}

#[test]
fn previous_wraps_to_last_from_first() {
    let mut l = numbers(3);
    assert_eq!(l.selected_index(), Some(0));
    l.previous();
    assert_eq!(l.selected_index(), Some(2));
}

#[test]
fn unselect_then_next_restores_remembered_index() {
    let mut l = numbers(4);
    l.next();
    l.next();
    assert_eq!(l.selected_index(), Some(2));
    l.unselect();
    assert_eq!(l.selected_index(), None);
    l.next();
    assert_eq!(l.selected_index(), Some(2));
}

#[test]
fn unselect_then_previous_restores_remembered_index() {
    let mut l = numbers(4);
    l.next();
    l.unselect();
    assert_eq!(l.selected_index(), None);
    l.previous();
    assert_eq!(l.selected_index(), Some(1));
}

#[test]
fn empty_list_has_no_selection_and_navigation_is_noop() {
    let mut l: SelectableList<u64> = SelectableList::with_items(Vec::new());
    assert_eq!(l.len(), 0);
    assert_eq!(l.selected_index(), None);
    l.next();
    assert_eq!(l.len(), 0);
    assert_eq!(l.selected_index(), None);
    l.previous();
    assert_eq!(l.len(), 0);
    assert_eq!(l.selected_index(), None);
    l.unselect();
    assert_eq!(l.len(), 0);
    assert_eq!(l.selected_index(), None);
}
