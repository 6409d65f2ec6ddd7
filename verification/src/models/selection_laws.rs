//! What holds of every selection list, whatever it contains.

use vstd::prelude::*;
use vstd::arithmetic::div_mod::lemma_fundamental_div_mod;
use vstd::arithmetic::div_mod::lemma_fundamental_div_mod_converse;
use crate::models::selection::fresh_entries;
use crate::models::selection::included_payloads;
use crate::models::selection::SelectableItem;
use crate::models::selection::SelectionModel;

verus! {

/// The remainder of `a + 1` is the remainder of `a` plus one, or zero where
/// that reaches the divisor.
proof fn lemma_mod_successor(a: int, n: int)
    requires
        0 <= a,
        0 < n,
    ensures
        (a + 1) % n == if a % n + 1 < n {
            a % n + 1
        } else {
            0
        },
{
    let q = a / n;
    let r = a % n;
    lemma_fundamental_div_mod(a, n);
    if r + 1 < n {
        lemma_fundamental_div_mod_converse(a + 1, n, q, r + 1);
    } else {
        assert(a + 1 == (q + 1) * n + 0) by (nonlinear_arith)
            requires
                a == n * q + r,
                r + 1 == n,
        ;
        lemma_fundamental_div_mod_converse(a + 1, n, q + 1, 0);
    }
}

/// Moving the cursor never touches the entries, and it keeps a well-formed list
/// well-formed.
pub proof fn lemma_navigation_keeps_entries<T>(list: SelectionModel<T>)
    ensures
        list.next().items == list.items,
        list.previous().items == list.items,
        list.select_initial().items == list.items,
        list.wf() ==> list.next().wf() && list.previous().wf(),
        list.items.len() <= usize::MAX ==> list.select_initial().wf(),
        list.items.len() == 0 ==> list.next() == list && list.previous() == list,
{
}

/// On a well-formed list with entries, a move forward takes the cursor, with an
/// unset cursor counting as the position before the first entry, to the next
/// position modulo the number of entries.
pub proof fn lemma_next_is_successor_modulo<T>(list: SelectionModel<T>)
    requires
        list.wf(),
        list.items.len() > 0,
    ensures
        list.next().cursor == Some(
            (((match list.cursor {
                Some(i) => i as int,
                None => -1,
            }) + 1) % (list.items.len() as int)) as usize,
        ),
{
    let n = list.items.len() as int;
    match list.cursor {
        Some(i) => {
            if i + 1 < n {
                lemma_fundamental_div_mod_converse(i + 1, n, 0, i + 1);
            } else {
                lemma_fundamental_div_mod_converse(i + 1, n, 1, 0);
            }
        },
        None => {
            lemma_fundamental_div_mod_converse(0, n, 0, 0);
        },
    }
}

/// On a well-formed list whose cursor is set, a move backward takes the cursor
/// to the preceding position modulo the number of entries.
pub proof fn lemma_previous_is_predecessor_modulo<T>(list: SelectionModel<T>, at: usize)
    requires
        list.wf(),
        list.cursor == Some(at),
    ensures
        list.previous().cursor == Some(
            ((at - 1 + list.items.len()) % (list.items.len() as int)) as usize,
        ),
{
    let n = list.items.len() as int;
    if at == 0 {
        lemma_fundamental_div_mod_converse(n - 1, n, 0, n - 1);
    } else {
        lemma_fundamental_div_mod_converse(at - 1 + n, n, 1, at - 1);
    }
}

/// Wraparound: on a list of `n > 0` entries that has no cursor yet, `times >= 1`
/// moves forward leave the cursor on entry `(times - 1) mod n`.
pub proof fn lemma_next_wraps_around<T>(list: SelectionModel<T>, times: nat)
    requires
        list.wf(),
        list.items.len() > 0,
        list.cursor is None,
        times >= 1,
    ensures
        list.next_times(times) == (SelectionModel {
            cursor: Some(((times - 1) % (list.items.len() as int)) as usize),
            ..list
        }),
    decreases times,
{
    let n = list.items.len() as int;
    if times == 1 {
        assert(list.next_times(0) == list);
        lemma_fundamental_div_mod_converse(0, n, 0, 0);
    } else {
        lemma_next_wraps_around(list, (times - 1) as nat);
        lemma_mod_successor(times - 2, n);
    }
}

/// The first move forward on a fresh list selects the first entry; after a full
/// traversal the next move selects the first entry again; and where there are
/// at least two entries, the move after that selects the second.
pub proof fn lemma_next_full_traversal<T>(list: SelectionModel<T>)
    requires
        list.wf(),
        list.items.len() > 0,
        list.cursor is None,
    ensures
        list.next_times(1).cursor == Some(0usize),
        list.next_times(list.items.len() + 1).cursor == Some(0usize),
        list.items.len() >= 2 ==> list.next_times(list.items.len() + 2).cursor == Some(1usize),
{
    let n = list.items.len() as int;
    lemma_next_wraps_around(list, 1);
    lemma_next_wraps_around(list, list.items.len() + 1);
    lemma_next_wraps_around(list, list.items.len() + 2);
    lemma_fundamental_div_mod_converse(0, n, 0, 0);
    lemma_fundamental_div_mod_converse(n, n, 1, 0);
    if n >= 2 {
        lemma_fundamental_div_mod_converse(n + 1, n, 1, 1);
    }
}

/// Moving backward on a list that has entries but no cursor yet selects the
/// first entry, not the last.
pub proof fn lemma_previous_from_unset<T>(list: SelectionModel<T>)
    requires
        list.items.len() > 0,
        list.cursor is None,
    ensures
        list.previous().cursor == Some(0usize),
        list.previous().items == list.items,
{
}

/// Once the cursor points at an entry, a move forward and a move backward undo
/// each other.
pub proof fn lemma_next_previous_inverse<T>(list: SelectionModel<T>)
    requires
        list.wf(),
        list.has_current(),
    ensures
        list.next().previous() == list,
        list.previous().next() == list,
{
}

/// Toggling changes nothing when the list is empty or the cursor points at no
/// entry.
pub proof fn lemma_toggle_without_current<T>(list: SelectionModel<T>)
    requires
        list.items.len() == 0 || !list.has_current(),
    ensures
        list.toggle_current() == list,
{
}

/// Toggling flips the flag of the entry under the cursor and leaves the cursor,
/// the payloads and every other flag as they were.
pub proof fn lemma_toggle_flips_current_only<T>(list: SelectionModel<T>, at: int)
    requires
        list.has_current(),
        0 <= at < list.items.len(),
    ensures
        list.toggle_current().cursor == list.cursor,
        list.toggle_current().items.len() == list.items.len(),
        list.toggle_current().items[at].item == list.items[at].item,
        list.toggle_current().items[at].included == if list.cursor matches Some(i) && i == at {
            !list.items[at].included
        } else {
            list.items[at].included
        },
{
}

/// Toggling twice restores the list.
pub proof fn lemma_toggle_twice<T>(list: SelectionModel<T>)
    ensures
        list.toggle_current().toggle_current() == list,
{
    if list.has_current() {
        assert(list.toggle_current().toggle_current().items =~= list.items);
    }
}

/// The number of entries before position `at` that are selected for export.
pub open spec fn included_before<T>(items: Seq<SelectableItem<T>>, at: int) -> nat {
    included_payloads(items.take(at)).len()
}

/// Nothing is exported from a list without entries.
pub proof fn lemma_included_payloads_empty<T>()
    ensures
        included_payloads(Seq::<SelectableItem<T>>::empty()) == Seq::<T>::empty(),
{
    reveal(Seq::filter);
}

/// An entry added at the end is exported last if it is selected, and not at
/// all if it is not.
pub proof fn lemma_included_payloads_push<T>(items: Seq<SelectableItem<T>>, entry: SelectableItem<T>)
    ensures
        included_payloads(items.push(entry)) == if entry.included {
            included_payloads(items).push(entry.item)
        } else {
            included_payloads(items)
        },
{
    items.lemma_filter_push(entry, |e: SelectableItem<T>| e.included);
}

/// One more entry taken from the front of a list adds its payload to the
/// export exactly when it is selected.
proof fn lemma_included_take_step<T>(items: Seq<SelectableItem<T>>, at: int)
    requires
        0 <= at < items.len(),
    ensures
        included_payloads(items.take(at + 1)) == if items[at].included {
            included_payloads(items.take(at)).push(items[at].item)
        } else {
            included_payloads(items.take(at))
        },
{
    assert(items.take(at + 1) =~= items.take(at).push(items[at]));
    lemma_included_payloads_push(items.take(at), items[at]);
}

/// The count of selected entries before a position never shrinks as the
/// position moves right, and it grows when the position passes a selected
/// entry.
pub proof fn lemma_included_before_monotone<T>(items: Seq<SelectableItem<T>>, i: int, j: int)
    requires
        0 <= i <= j <= items.len(),
    ensures
        included_before(items, i) <= included_before(items, j),
        i < j && items[i].included ==> included_before(items, i) < included_before(items, j),
    decreases j - i,
{
    if i < j {
        lemma_included_before_monotone(items, i, j - 1);
        lemma_included_take_step(items, j - 1);
    }
}

/// A selected entry is exported at the position given by the number of
/// selected entries before it.
pub proof fn lemma_included_entry_is_exported<T>(items: Seq<SelectableItem<T>>, at: int)
    requires
        0 <= at < items.len(),
        items[at].included,
    ensures
        included_before(items, at) < included_payloads(items).len(),
        included_payloads(items)[included_before(items, at) as int] == items[at].item,
{
    lemma_exported_within(items, at, items.len() as int);
    assert(items.take(items.len() as int) =~= items);
}

/// The export of any prefix that reaches past a selected entry holds that
/// entry's payload at its rank.
proof fn lemma_exported_within<T>(items: Seq<SelectableItem<T>>, at: int, upto: int)
    requires
        0 <= at < upto <= items.len(),
        items[at].included,
    ensures
        included_before(items, at) < included_payloads(items.take(upto)).len(),
        included_payloads(items.take(upto))[included_before(items, at) as int] == items[at].item,
    decreases upto - at,
{
    lemma_included_take_step(items, upto - 1);
    if upto - 1 > at {
        lemma_exported_within(items, at, upto - 1);
    }
}

/// Every exported payload belongs to a selected entry, the one whose rank
/// among the selected entries is the payload's position. Entries that are not
/// selected are therefore left out, and the order of the others is kept.
pub proof fn lemma_exported_payload_source<T>(items: Seq<SelectableItem<T>>, position: int) -> (at:
    int)
    requires
        0 <= position < included_payloads(items).len(),
    ensures
        0 <= at < items.len(),
        items[at].included,
        included_before(items, at) == position,
        included_payloads(items)[position] == items[at].item,
    decreases items.len(),
{
    if items.len() == 0 {
        lemma_included_payloads_empty::<T>();
        0
    } else {
        let rest = items.drop_last();
        assert(items =~= rest.push(items.last()));
        lemma_included_payloads_push(rest, items.last());
        if items.last().included && position == included_payloads(rest).len() {
            items.len() - 1
        } else {
            let at = lemma_exported_payload_source(rest, position);
            assert(rest.take(at) =~= items.take(at));
            at
        }
    }
}

/// A list of fresh entries exports all of its payloads.
pub proof fn lemma_fresh_entries_all_exported<T>(payloads: Seq<T>)
    ensures
        included_payloads(fresh_entries(payloads)) == payloads,
    decreases payloads.len(),
{
    if payloads.len() == 0 {
        lemma_included_payloads_empty::<T>();
    } else {
        let rest = payloads.drop_last();
        let entry = SelectableItem { item: payloads.last(), included: true };
        lemma_fresh_entries_all_exported(rest);
        assert(fresh_entries(payloads) =~= fresh_entries(rest).push(entry));
        lemma_included_payloads_push(fresh_entries(rest), entry);
    }
}

/// Exporting is idempotent: the export of a list, loaded as a fresh list and
/// exported again, is the same export.
pub proof fn lemma_export_idempotent<T>(items: Seq<SelectableItem<T>>)
    ensures
        included_payloads(fresh_entries(included_payloads(items))) == included_payloads(items),
{
    lemma_fresh_entries_all_exported(included_payloads(items));
}

} // verus!
