//! The parts that a table is composed of.

use crate::utils::classes::{
    class_names, classes_of, lemma_with_new_class, push_class, with_class,
};
use vstd::prelude::*;
use yew::{Callback, Classes, Html};

verus! {

/// What a toggle in a table expands.
#[derive(Clone, Copy, Debug, PartialEq, Eq, Structural)]
pub enum ExpandType {
    /// The row that the toggle stands in.
    Row,
    /// The column that the toggle stands in.
    Column,
}

/// A toggle in a cell of a table.
#[derive(Clone, Debug, PartialEq)]
pub struct ExpandParams {
    /// What the toggle expands.
    pub kind: ExpandType,
    /// Whether it is expanded now.
    pub expanded: bool,
    /// Called when the toggle is clicked.
    pub ontoggle: Callback<()>,
}

/// How the content of a cell is fitted into it.
#[derive(Clone, Copy, Debug, PartialEq, Eq, Structural)]
pub enum SpanModifiers {
    /// Cut the text off where the cell ends.
    Truncate,
}

/// Content that spans a number of columns.
#[derive(Clone, Debug, PartialEq)]
pub struct Span {
    /// The number of columns to span.
    pub cols: usize,
    /// The content.
    pub content: Html,
    /// How the content is fitted into the cell.
    pub modifiers: Vec<SpanModifiers>,
}

impl SpanModifiers {
    /// The modifier class that fits content in this way.
    pub open spec fn class_name(self) -> Seq<char> {
        match self {
            SpanModifiers::Truncate => "pf-m-truncate"@,
        }
    }

    /// Adds the modifier class of this way of fitting to `classes`.
    pub fn extend_classes(&self, classes: &mut Classes)
        ensures
            class_names(*final(classes)) == with_class(
                class_names(*old(classes)),
                self.class_name(),
            ),
    {
        proof {
            reveal_strlit("pf-m-truncate");
        }
        match self {
            SpanModifiers::Truncate => push_class(classes, "pf-m-truncate"),
        }
    }
}

/// Classes of a table row: the element class, then the modifier of a row
/// that reacts to clicks, then the one of a selected row.
pub open spec fn table_row_class_names(clickable: bool, selected: bool) -> Seq<Seq<char>> {
    let base = seq!["pf-v5-c-table__tr"@];
    let clicked = if clickable {
        base.push("pf-m-clickable"@)
    } else {
        base
    };
    if selected {
        clicked.push("pf-m-selected"@)
    } else {
        clicked
    }
}

/// The classes of a table row.
pub fn table_row_classes(clickable: bool, selected: bool) -> (classes: Classes)
    ensures
        class_names(classes) == table_row_class_names(clickable, selected),
{
    proof {
        reveal_strlit("pf-v5-c-table__tr");
        reveal_strlit("pf-m-clickable");
        reveal_strlit("pf-m-selected");
    }
    let mut classes = classes_of("pf-v5-c-table__tr");
    if clickable {
        proof {
            assert(class_names(classes)[0] == "pf-v5-c-table__tr"@);
            lemma_with_new_class(class_names(classes), "pf-m-clickable"@);
        }
        push_class(&mut classes, "pf-m-clickable");
    }
    if selected {
        proof {
            let names = class_names(classes);
            assert(names[0] == "pf-v5-c-table__tr"@);
            assert(names.len() == 2 ==> names[1] == "pf-m-clickable"@);
            lemma_with_new_class(names, "pf-m-selected"@);
        }
        push_class(&mut classes, "pf-m-selected");
    }
    classes
}

/// Classes of the row that holds expanded content: the element classes, then
/// the modifier of a row that is shown.
pub open spec fn expandable_row_class_names(expanded: bool) -> Seq<Seq<char>> {
    let base = seq!["pf-v5-c-table__tr"@, "pf-v5-c-table__expandable-row"@];
    if expanded {
        base.push("pf-m-expanded"@)
    } else {
        base
    }
}

/// The classes of the row that holds expanded content.
pub fn expandable_row_classes(expanded: bool) -> (classes: Classes)
    ensures
        class_names(classes) == expandable_row_class_names(expanded),
{
    proof {
        reveal_strlit("pf-v5-c-table__tr");
        reveal_strlit("pf-v5-c-table__expandable-row");
        reveal_strlit("pf-m-expanded");
    }
    let mut classes = classes_of("pf-v5-c-table__tr");
    proof {
        assert(class_names(classes)[0] == "pf-v5-c-table__tr"@);
        lemma_with_new_class(class_names(classes), "pf-v5-c-table__expandable-row"@);
    }
    push_class(&mut classes, "pf-v5-c-table__expandable-row");
    if expanded {
        proof {
            let names = class_names(classes);
            assert(names[0] == "pf-v5-c-table__tr"@);
            assert(names[1] == "pf-v5-c-table__expandable-row"@);
            lemma_with_new_class(names, "pf-m-expanded"@);
        }
        push_class(&mut classes, "pf-m-expanded");
    }
    classes
}

/// Classes of a cell: the element class, then the modifier of a cell whose
/// content is centered.
pub open spec fn table_data_class_names(center: bool) -> Seq<Seq<char>> {
    let base = seq!["pf-v5-c-table__td"@];
    if center {
        base.push("pf-m-center"@)
    } else {
        base
    }
}

/// The classes of a cell.
pub fn table_data_classes(center: bool) -> (classes: Classes)
    ensures
        class_names(classes) == table_data_class_names(center),
{
    proof {
        reveal_strlit("pf-v5-c-table__td");
        reveal_strlit("pf-m-center");
    }
    let mut classes = classes_of("pf-v5-c-table__td");
    if center {
        proof {
            assert(class_names(classes)[0] == "pf-v5-c-table__td"@);
            lemma_with_new_class(class_names(classes), "pf-m-center"@);
        }
        push_class(&mut classes, "pf-m-center");
    }
    classes
}

/// Classes of a cell that spans columns: the element class, then the
/// modifier of each way in which its content is fitted, in the order given.
pub open spec fn span_class_names(modifiers: Seq<SpanModifiers>) -> Seq<Seq<char>>
    decreases modifiers.len(),
{
    if modifiers.len() == 0 {
        seq!["pf-v5-c-table__td"@]
    } else {
        with_class(span_class_names(modifiers.drop_last()), modifiers.last().class_name())
    }
}

/// The classes of a cell that spans columns.
pub fn span_classes(modifiers: &Vec<SpanModifiers>) -> (classes: Classes)
    ensures
        class_names(classes) == span_class_names(modifiers@),
{
    proof {
        reveal_strlit("pf-v5-c-table__td");
    }
    let mut classes = classes_of("pf-v5-c-table__td");
    let mut at: usize = 0;
    while at < modifiers.len()
        invariant
            at <= modifiers@.len(),
            class_names(classes) == span_class_names(modifiers@.subrange(0, at as int)),
        decreases modifiers@.len() - at,
    {
        modifiers[at].extend_classes(&mut classes);
        proof {
            let taken = modifiers@.subrange(0, at as int + 1);
            assert(taken.drop_last() =~= modifiers@.subrange(0, at as int));
            assert(taken.last() == modifiers@[at as int]);
        }
        at += 1;
    }
    assert(modifiers@.subrange(0, at as int) =~= modifiers@);
    classes
}

/// Classes of the button that expands a row: those of a plain button, then
/// the modifier of a button whose row is shown.
pub open spec fn toggle_class_names(expanded: bool) -> Seq<Seq<char>> {
    let base = seq!["pf-v5-c-button"@, "pf-m-plain"@];
    if expanded {
        base.push("pf-m-expanded"@)
    } else {
        base
    }
}

impl ExpandParams {
    /// The classes of the button of this toggle.
    pub fn button_classes(&self) -> (classes: Classes)
        ensures
            class_names(classes) == toggle_class_names(self.expanded),
    {
        proof {
            reveal_strlit("pf-v5-c-button");
            reveal_strlit("pf-m-plain");
            reveal_strlit("pf-m-expanded");
        }
        let mut classes = classes_of("pf-v5-c-button");
        proof {
            assert(class_names(classes)[0] == "pf-v5-c-button"@);
            lemma_with_new_class(class_names(classes), "pf-m-plain"@);
        }
        push_class(&mut classes, "pf-m-plain");
        if self.expanded {
            proof {
                let names = class_names(classes);
                assert(names[0] == "pf-v5-c-button"@);
                assert(names[1] == "pf-m-plain"@);
                lemma_with_new_class(names, "pf-m-expanded"@);
            }
            push_class(&mut classes, "pf-m-expanded");
        }
        classes
    }
}

} // verus!
