use resume_wizard::models::selection::SelectableItem;
use resume_wizard::models::selection::SelectionList;
use resume_wizard::models::types::default_true;

fn numbered(n: u32) -> SelectionList<u32> {
    SelectionList::new((0..n).collect())
}

#[test]
fn default_true_is_true() {
    assert!(default_true());
}

#[test]
fn new_entry_is_included() {
    let entry = SelectableItem::new("x");
    assert_eq!(entry, SelectableItem { item: "x", included: true });
}

#[test]
fn new_list_has_no_cursor_and_includes_everything() {
    let list = SelectionList::new(vec!['a', 'b', 'c']);
    assert_eq!(list.cursor, None);
    assert_eq!(
        list.items,
        vec![
            SelectableItem { item: 'a', included: true },
            SelectableItem { item: 'b', included: true },
            SelectableItem { item: 'c', included: true },
        ]
    );
}

#[test]
fn next_from_unset_selects_first() {
    let mut list = numbered(4);
    list.next();
    assert_eq!(list.cursor, Some(0));
}

#[test]
fn next_walks_and_wraps() {
    let mut list = numbered(3);
    let mut seen = Vec::new();
    for _ in 0..7 {
        list.next();
        seen.push(list.cursor);
    }
    assert_eq!(
        seen,
        vec![Some(0), Some(1), Some(2), Some(0), Some(1), Some(2), Some(0)]
    );
}

#[test]
fn next_wraparound_law_on_many_lengths() {
    for n in 1..=6u32 {
        let mut list = numbered(n);
        list.next();
        assert_eq!(list.cursor, Some(0), "first call, n = {}", n);
        for _ in 0..n {
            list.next();
        }
        assert_eq!(list.cursor, Some(0), "after a full traversal, n = {}", n);
        list.next();
        let expected = if n >= 2 { 1 } else { 0 };
        assert_eq!(list.cursor, Some(expected), "one further call, n = {}", n);
    }
}

#[test]
fn next_after_k_calls_is_k_minus_one_mod_n() {
    for n in 1..=5usize {
        let mut list = numbered(n as u32);
        for k in 1..=12usize {
            list.next();
            assert_eq!(list.cursor, Some((k - 1) % n));
        }
    }
}

#[test]
fn next_on_single_item_stays_on_it() {
    let mut list = numbered(1);
    list.next();
    list.next();
    list.next();
    assert_eq!(list.cursor, Some(0));
}

#[test]
fn next_on_empty_list_is_noop() {
    let mut list = numbered(0);
    list.next();
    assert_eq!(list.cursor, None);
    assert!(list.items.is_empty());
}

#[test]
fn next_with_cursor_out_of_range_goes_to_first() {
    let mut list = numbered(3);
    list.cursor = Some(usize::MAX);
    list.next();
    assert_eq!(list.cursor, Some(0));
}

#[test]
fn previous_from_unset_selects_first_not_last() {
    for n in 1..=5u32 {
        let mut list = numbered(n);
        list.previous();
        assert_eq!(list.cursor, Some(0));
    }
}

#[test]
fn previous_wraps_from_first_to_last() {
    let mut list = numbered(4);
    list.cursor = Some(0);
    list.previous();
    assert_eq!(list.cursor, Some(3));
    list.previous();
    assert_eq!(list.cursor, Some(2));
}

#[test]
fn previous_on_empty_list_is_noop() {
    let mut list = numbered(0);
    list.previous();
    assert_eq!(list.cursor, None);
}

#[test]
fn next_and_previous_undo_each_other() {
    for n in 1..=4usize {
        for start in 0..n {
            let mut list = numbered(n as u32);
            list.cursor = Some(start);
            list.next();
            list.previous();
            assert_eq!(list.cursor, Some(start));
            list.previous();
            list.next();
            assert_eq!(list.cursor, Some(start));
        }
    }
}

#[test]
fn navigation_leaves_entries_alone() {
    let mut list = numbered(3);
    list.items[1].included = false;
    let before = list.items.clone();
    list.next();
    list.next();
    list.previous();
    list.select_initial();
    assert_eq!(list.items, before);
}

#[test]
fn select_initial_on_nonempty_selects_first() {
    let mut list = numbered(3);
    list.cursor = Some(2);
    list.select_initial();
    assert_eq!(list.cursor, Some(0));
}

#[test]
fn select_initial_on_empty_leaves_cursor_unset() {
    let mut list = numbered(0);
    list.select_initial();
    assert_eq!(list.cursor, None);
}

#[test]
fn toggle_flips_only_the_entry_under_the_cursor() {
    let mut list = numbered(3);
    list.cursor = Some(1);
    list.toggle_current();
    assert_eq!(
        list.items,
        vec![
            SelectableItem { item: 0, included: true },
            SelectableItem { item: 1, included: false },
            SelectableItem { item: 2, included: true },
        ]
    );
    assert_eq!(list.cursor, Some(1));
}

#[test]
fn toggle_twice_restores_the_list() {
    let mut list = numbered(3);
    list.cursor = Some(2);
    let before = list.clone();
    list.toggle_current();
    assert_ne!(list, before);
    list.toggle_current();
    assert_eq!(list, before);
}

#[test]
fn toggle_with_unset_cursor_is_noop() {
    let mut list = numbered(3);
    let before = list.clone();
    list.toggle_current();
    assert_eq!(list, before);
}

#[test]
fn toggle_on_empty_list_is_noop() {
    let mut list = numbered(0);
    let before = list.clone();
    list.toggle_current();
    assert_eq!(list, before);
}

#[test]
fn toggle_with_cursor_out_of_range_is_noop() {
    let mut list = numbered(2);
    list.cursor = Some(2);
    let before = list.clone();
    list.toggle_current();
    assert_eq!(list, before);
    let mut empty = numbered(0);
    empty.cursor = Some(0);
    let before = empty.clone();
    empty.toggle_current();
    assert_eq!(empty, before);
}
