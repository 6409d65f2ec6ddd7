//! An ordered list with a wraparound cursor and a per-item inclusion flag.

use vstd::prelude::*;
use crate::models::selection_laws::lemma_included_payloads_empty;
use crate::models::selection_laws::lemma_included_payloads_push;
use crate::models::types::contents;
use crate::models::types::default_true;
use crate::models::types::Record;

verus! {

/// Whether `cursor` is unset or points at one of `len` items.
pub open spec fn cursor_valid(cursor: Option<usize>, len: nat) -> bool {
    match cursor {
        Some(i) => i < len,
        None => true,
    }
}

/// The cursor after one step forward through `len` items: the first item when
/// the cursor is unset or stands on the last item, else the following item.
/// With no items the cursor stays as it is.
pub open spec fn next_cursor(cursor: Option<usize>, len: nat) -> Option<usize> {
    if len == 0 {
        cursor
    } else {
        match cursor {
            Some(i) => if i + 1 < len {
                Some((i + 1) as usize)
            } else {
                Some(0)
            },
            None => Some(0),
        }
    }
}

/// The cursor after one step backward through `len` items: the first item when
/// the cursor is unset, the last item when it stands on the first, else the
/// preceding item. With no items the cursor stays as it is.
pub open spec fn previous_cursor(cursor: Option<usize>, len: nat) -> Option<usize> {
    if len == 0 {
        cursor
    } else {
        match cursor {
            Some(i) => if i == 0 {
                Some((len - 1) as usize)
            } else {
                Some((i - 1) as usize)
            },
            None => Some(0),
        }
    }
}

/// The cursor a screen shows when it is entered: the first item, or unset when
/// there is none.
pub open spec fn initial_cursor(len: nat) -> Option<usize> {
    if len == 0 {
        None
    } else {
        Some(0)
    }
}

/// One entry of a list together with the flag that says whether it is exported.
#[derive(Debug, Clone, PartialEq, Eq)]
pub struct SelectableItem<T> {
    pub item: T,
    pub included: bool,
}

/// The entries that a list of freshly loaded payloads becomes: the payloads in
/// order, each one selected for export.
pub open spec fn fresh_entries<T>(payloads: Seq<T>) -> Seq<SelectableItem<T>> {
    payloads.map_values(|item: T| SelectableItem { item, included: true })
}

/// The payloads of the entries that are selected for export, in list order.
pub open spec fn included_payloads<T>(items: Seq<SelectableItem<T>>) -> Seq<T> {
    items.filter(|entry: SelectableItem<T>| entry.included).map_values(
        |entry: SelectableItem<T>| entry.item,
    )
}

impl<T> SelectableItem<T> {
    /// A freshly loaded entry, selected for export.
    pub fn new(item: T) -> (entry: Self)
        ensures
            entry == (SelectableItem { item, included: true }),
    {
        SelectableItem { item, included: default_true() }
    }

    /// The same entry with its inclusion flag flipped.
    pub open spec fn toggled(self) -> Self {
        SelectableItem { item: self.item, included: !self.included }
    }
}

/// The mathematical content of a [`SelectionList`]: its entries in order and
/// its cursor.
pub struct SelectionModel<T> {
    pub items: Seq<SelectableItem<T>>,
    pub cursor: Option<usize>,
}

impl<T> SelectionModel<T> {
    /// The cursor, if set, points at an entry, so an empty list has no cursor;
    /// and the entries can be counted by a machine word.
    pub open spec fn wf(self) -> bool {
        &&& self.items.len() <= usize::MAX
        &&& cursor_valid(self.cursor, self.items.len())
    }

    /// Whether the cursor points at an entry.
    pub open spec fn has_current(self) -> bool {
        self.cursor matches Some(i) && i < self.items.len()
    }

    /// The list with its cursor moved one entry forward.
    pub open spec fn next(self) -> Self {
        SelectionModel { cursor: next_cursor(self.cursor, self.items.len()), ..self }
    }

    /// The list after `times` moves forward.
    pub open spec fn next_times(self, times: nat) -> Self
        decreases times,
    {
        if times == 0 {
            self
        } else {
            self.next_times((times - 1) as nat).next()
        }
    }

    /// The list with its cursor moved one entry backward.
    pub open spec fn previous(self) -> Self {
        SelectionModel { cursor: previous_cursor(self.cursor, self.items.len()), ..self }
    }

    /// The list as a screen shows it on entry.
    pub open spec fn select_initial(self) -> Self {
        SelectionModel { cursor: initial_cursor(self.items.len()), ..self }
    }

    /// Flips the inclusion flag of the entry under the cursor; nothing changes
    /// when the cursor points at no entry.
    pub open spec fn toggle_current(self) -> Self {
        match self.cursor {
            Some(i) if i < self.items.len() => SelectionModel {
                items: self.items.update(i as int, self.items[i as int].toggled()),
                ..self
            },
            _ => self,
        }
    }
}

/// An ordered list of entries with a cursor that is either unset or the index
/// of one entry.
#[derive(Debug, Clone, PartialEq, Eq)]
pub struct SelectionList<T> {
    pub items: Vec<SelectableItem<T>>,
    pub cursor: Option<usize>,
}

impl<T> View for SelectionList<T> {
    type V = SelectionModel<T>;

    open spec fn view(&self) -> SelectionModel<T> {
        SelectionModel { items: self.items@, cursor: self.cursor }
    }
}

impl<T> SelectionList<T> {
    /// The cursor, if set, points at an entry; an empty list has no cursor.
    pub open spec fn wf(&self) -> bool {
        self@.wf()
    }

    /// A list of freshly loaded payloads: all selected for export, no cursor.
    pub fn new(payloads: Vec<T>) -> (list: Self)
        ensures
            list@ == (SelectionModel { items: fresh_entries(payloads@), cursor: None }),
            list.wf(),
    {
        let mut items: Vec<SelectableItem<T>> = Vec::new();
        for item in it: payloads
            invariant
                it.seq() == payloads@,
                items@ == fresh_entries(payloads@.take(it.index())),
        {
            items.push(SelectableItem::new(item));
        }
        assert(payloads@.take(payloads@.len() as int) =~= payloads@);
        assert(items@.len() == items.len());
        SelectionList { items, cursor: None }
    }

    /// Moves the cursor one entry forward, wrapping from the last entry to the
    /// first. The first move on a fresh list selects the first entry.
    pub fn next(&mut self)
        ensures
            final(self)@ == old(self)@.next(),
            old(self).wf() ==> final(self).wf(),
    {
        let len: usize = self.items.len();
        if len == 0 {
            return ;
        }
        let i: usize = match self.cursor {
            Some(i) => if i >= len - 1 {
                0
            } else {
                i + 1
            },
            None => 0,
        };
        self.cursor = Some(i);
    }

    /// Moves the cursor one entry backward, wrapping from the first entry to
    /// the last. The first move on a fresh list selects the first entry.
    pub fn previous(&mut self)
        ensures
            final(self)@ == old(self)@.previous(),
            old(self).wf() ==> final(self).wf(),
    {
        let len: usize = self.items.len();
        if len == 0 {
            return ;
        }
        let i: usize = match self.cursor {
            Some(i) => if i == 0 {
                len - 1
            } else {
                i - 1
            },
            None => 0,
        };
        self.cursor = Some(i);
    }

    /// Puts the cursor on the first entry, or leaves the list without a cursor
    /// when it is empty.
    pub fn select_initial(&mut self)
        ensures
            final(self)@ == old(self)@.select_initial(),
            final(self).wf(),
    {
        if self.items.len() == 0 {
            self.cursor = None;
        } else {
            self.cursor = Some(0);
        }
    }

    /// Flips the inclusion flag of the entry under the cursor.
    pub fn toggle_current(&mut self)
        ensures
            final(self)@ == old(self)@.toggle_current(),
            old(self).wf() ==> final(self).wf(),
    {
        if let Some(i) = self.cursor {
            if i < self.items.len() {
                let entry = &mut self.items[i];
                entry.included = !entry.included;
            }
        }
    }
}

impl<T: Record> SelectionList<T> {
    /// Copies of the payloads that are selected for export, in list order.
    pub fn included_items(&self) -> (out: Vec<T>)
        ensures
            contents(out@) == contents(included_payloads(self.items@)),
    {
        let mut out: Vec<T> = Vec::new();
        let mut i: usize = 0;
        proof {
            lemma_included_payloads_empty::<T>();
        }
        while i < self.items.len()
            invariant
                i <= self.items.len(),
                contents(out@) == contents(included_payloads(self.items@.take(i as int))),
            decreases self.items.len() - i,
        {
            let entry = &self.items[i];
            proof {
                lemma_included_payloads_push(self.items@.take(i as int), *entry);
                assert(self.items@.take(i + 1) =~= self.items@.take(i as int).push(*entry));
            }
            if entry.included {
                let copy = entry.item.duplicate();
                out.push(copy);
                assert(contents(included_payloads(self.items@.take(i + 1))) =~= contents(
                    included_payloads(self.items@.take(i as int)),
                ).push(entry.item@));
            }
            i += 1;
        }
        assert(self.items@.take(i as int) =~= self.items@);
        out
    }
}

} // verus!
