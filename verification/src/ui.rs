//! The rows that the selection screens show: one line of text per entry.

use vstd::prelude::*;
use crate::models::selection::SelectionList;
use crate::models::selection::SelectionModel;
use crate::models::types::texts;
use crate::models::types::Education;
use crate::models::types::Experience;
use crate::models::types::JobTitle;
use crate::models::types::Project;

verus! {

/// The box in front of a row, ticked or empty.
pub open spec fn checkbox(ticked: bool) -> Seq<char> {
    if ticked {
        "[x] "@
    } else {
        "[ ] "@
    }
}

/// The box in front of a row, ticked or empty.
pub fn checkbox_text(ticked: bool) -> (text: &'static str)
    ensures
        text@ == checkbox(ticked),
{
    if ticked {
        "[x] "
    } else {
        "[ ] "
    }
}

/// A record that can be shown as one line of text.
pub trait Labeled {
    /// The text that stands for the record in a list.
    spec fn label_text(&self) -> Seq<char>;

    /// The text that stands for the record in a list.
    fn label(&self) -> (text: String)
        ensures
            text@ == self.label_text(),
    ;
}

impl Labeled for Education {
    /// The degree and the school it was taken at.
    open spec fn label_text(&self) -> Seq<char> {
        self.degree@ + " - "@ + self.school@
    }

    fn label(&self) -> (text: String) {
        let mut text = self.degree.clone();
        text.append(" - ");
        text.append(self.school.as_str());
        text
    }
}

impl Labeled for Experience {
    /// The role and the company it was held at.
    open spec fn label_text(&self) -> Seq<char> {
        self.role@ + " at "@ + self.company@
    }

    fn label(&self) -> (text: String) {
        let mut text = self.role.clone();
        text.append(" at ");
        text.append(self.company.as_str());
        text
    }
}

impl Labeled for Project {
    open spec fn label_text(&self) -> Seq<char> {
        self.title@
    }

    fn label(&self) -> (text: String) {
        self.title.clone()
    }
}

impl Labeled for JobTitle {
    open spec fn label_text(&self) -> Seq<char> {
        self.title@
    }

    fn label(&self) -> (text: String) {
        self.title.clone()
    }
}

/// The rows of a list whose entries are included or left out one by one: each
/// entry's label behind a box that is ticked when the entry is included.
pub open spec fn checklist_texts<T: Labeled>(list: SelectionModel<T>) -> Seq<Seq<char>> {
    Seq::new(
        list.items.len(),
        |i: int| checkbox(list.items[i].included) + list.items[i].item.label_text(),
    )
}

/// The rows of a list of which one entry is chosen: each entry's label behind a
/// box that is ticked for the entry under the cursor.
pub open spec fn choice_texts<T: Labeled>(list: SelectionModel<T>) -> Seq<Seq<char>> {
    Seq::new(
        list.items.len(),
        |i: int| checkbox(list.cursor matches Some(at) && at == i) + list.items[i].item.label_text(),
    )
}

/// The rows of a list whose entries are included or left out one by one.
pub fn checklist_rows<T: Labeled>(list: &SelectionList<T>) -> (rows: Vec<String>)
    ensures
        texts(rows@) == checklist_texts(list@),
{
    let mut rows: Vec<String> = Vec::new();
    let mut i: usize = 0;
    while i < list.items.len()
        invariant
            i <= list.items.len(),
            texts(rows@) == checklist_texts(list@).take(i as int),
        decreases list.items.len() - i,
    {
        let entry = &list.items[i];
        let mut row = checkbox_text(entry.included).to_owned();
        let label = entry.item.label();
        row.append(label.as_str());
        rows.push(row);
        assert(checklist_texts(list@).take(i + 1) =~= checklist_texts(list@).take(i as int).push(
            row@,
        ));
        i += 1;
    }
    rows
}

/// The rows of a list of which one entry is chosen.
pub fn choice_rows<T: Labeled>(list: &SelectionList<T>) -> (rows: Vec<String>)
    ensures
        texts(rows@) == choice_texts(list@),
{
    let mut rows: Vec<String> = Vec::new();
    let mut i: usize = 0;
    while i < list.items.len()
        invariant
            i <= list.items.len(),
            texts(rows@) == choice_texts(list@).take(i as int),
        decreases list.items.len() - i,
    {
        let under_cursor = match list.cursor {
            Some(at) => at == i,
            None => false,
        };
        let mut row = checkbox_text(under_cursor).to_owned();
        let label = list.items[i].item.label();
        row.append(label.as_str());
        rows.push(row);
        assert(choice_texts(list@).take(i + 1) =~= choice_texts(list@).take(i as int).push(row@));
        i += 1;
    }
    rows
}

} // verus!
