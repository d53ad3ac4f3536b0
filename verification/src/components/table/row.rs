//! A table row whose cells follow the table's columns, with an optional
//! second row that is shown when the first is expanded.

use crate::components::table::composable::{
    table_row_class_names, table_row_classes, ExpandParams, ExpandType, Span, SpanModifiers,
};
use crate::html::emit;
use crate::utils::classes::class_names;
use std::rc::Rc;
use vstd::prelude::*;
use yew::events::MouseEvent;
use yew::{Callback, Classes, Html};

verus! {

/// A mouse event of the browser. Opaque to the proofs.
#[verifier::external_type_specification]
#[verifier::external_body]
pub struct ExMouseEvent(yew::events::MouseEvent);

/// The columns of a table: a type whose values name the columns, and which
/// lists them from first to last.
pub trait TableColumns: std::fmt::Display + PartialEq + Clone {
    /// All columns, from first to last.
    fn iter_cols() -> Vec<Self>;
}

/// Makes a row expandable.
#[derive(Clone, Debug, PartialEq)]
pub struct RowExpandArgs {
    /// Whether the row is expanded now.
    pub expanded: bool,
    /// Called when the toggle of the row is clicked.
    pub ontoggle: Callback<()>,
    /// What the row shows when it is expanded.
    pub content: Rc<Vec<Span>>,
}

impl From<RowExpandArgs> for ExpandParams {
    fn from(value: RowExpandArgs) -> (params: Self) {
        Self { kind: ExpandType::Row, expanded: value.expanded, ontoggle: value.ontoggle }
    }
}

impl vstd::std_specs::convert::FromSpecImpl<RowExpandArgs> for ExpandParams {
    open spec fn obeys_from_spec() -> bool {
        true
    }

    open spec fn from_spec(value: RowExpandArgs) -> Self {
        Self { kind: ExpandType::Row, expanded: value.expanded, ontoggle: value.ontoggle }
    }
}

/// Properties of a row.
#[derive(Clone, Debug, PartialEq)]
#[verifier::reject_recursive_types(C)]
pub struct NewRowProperties<C: TableColumns> {
    /// Classes of the row.
    pub class: Classes,
    /// Renders the cell of a column.
    pub render_cells: Callback<C, Html>,
    /// Tells whether the cell of a column is centered; without it, none is.
    pub center_cells: Option<Callback<C, bool>>,
    /// Makes the row expandable.
    pub expandable: Option<RowExpandArgs>,
    /// Called when the row is clicked.
    pub onclick: Option<Callback<MouseEvent>>,
    /// Whether the row is selected.
    pub selected: bool,
}

/// A cell of a row.
pub struct RowCell {
    /// Whether the content is centered.
    pub center: bool,
    /// The name of the column, shown beside the content on narrow screens.
    pub data_label: String,
    /// The content.
    pub content: Html,
}

/// A cell of the row that is shown when a row is expanded.
pub struct ExpandedCell<'a> {
    /// How the content is fitted into the cell.
    pub span_modifiers: &'a Vec<SpanModifiers>,
    /// The number of columns that the cell spans.
    pub colspan: usize,
    /// The content.
    pub content: &'a Html,
}

/// The row that is shown when a row is expanded.
pub struct ExpandedRow<'a> {
    /// Whether it is shown now.
    pub expanded: bool,
    /// Its cells, from first to last.
    pub cells: Vec<ExpandedCell<'a>>,
}

/// Everything that the markup of a row depends on.
pub struct NewRowView<'a> {
    /// Classes of the row.
    pub class: &'a Classes,
    /// Whether the row is selected.
    pub selected: bool,
    /// Called when the row is clicked.
    pub onclick: &'a Option<Callback<MouseEvent>>,
    /// The toggle in the first cell of an expandable row.
    pub toggle: Option<ExpandParams>,
    /// The cells of the columns, from first to last.
    pub cells: Vec<RowCell>,
    /// The row that follows an expandable row.
    pub expansion: Option<ExpandedRow<'a>>,
}

impl<'a> NewRowView<'a> {
    /// The classes that the row has of itself, beside those of its
    /// properties: a row with a click handler reacts to clicks.
    pub fn row_classes(&self) -> (classes: Classes)
        ensures
            class_names(classes) == table_row_class_names(self.onclick is Some, self.selected),
    {
        table_row_classes(self.onclick.is_some(), self.selected)
    }
}

/// The cell that shows a piece of expanded content.
pub open spec fn expanded_cell(span: &Span) -> ExpandedCell<'_> {
    ExpandedCell { span_modifiers: &span.modifiers, colspan: span.cols, content: &span.content }
}

/// The row that follows an expandable row: one cell for each piece of
/// content, in the same order.
pub fn expanded_row<'a>(expandable: &'a RowExpandArgs) -> (row: ExpandedRow<'a>)
    ensures
        row.expanded == expandable.expanded,
        row.cells@.len() == expandable.content@.len(),
        forall|i: int|
            0 <= i < row.cells@.len() ==> #[trigger] row.cells@[i] == expanded_cell(
                &expandable.content@[i],
            ),
{
    let content: &'a Vec<Span> = &expandable.content;
    let mut cells: Vec<ExpandedCell<'a>> = Vec::new();
    let mut at: usize = 0;
    while at < content.len()
        invariant
            at <= content@.len(),
            cells@.len() == at,
            forall|i: int| 0 <= i < at ==> #[trigger] cells@[i] == expanded_cell(&content@[i]),
        decreases content@.len() - at,
    {
        let span = &content[at];
        cells.push(
            ExpandedCell {
                span_modifiers: &span.modifiers,
                colspan: span.cols,
                content: &span.content,
            },
        );
        at += 1;
    }
    ExpandedRow { expanded: expandable.expanded, cells }
}

/// The cell of a column. `center` is what the properties answered for the
/// column, `None` where they do not decide on centering: such a cell is not
/// centered.
pub fn row_cell(center: Option<bool>, data_label: String, content: Html) -> (cell: RowCell)
    ensures
        cell.center == (center == Some(true)),
        cell.data_label == data_label,
        cell.content == content,
{
    let center = match center {
        Some(center) => center,
        None => false,
    };
    RowCell { center, data_label, content }
}

/// The cells of a row over the given columns: one for each column, from
/// first to last. A cell is labelled with the name of its column, as its
/// `Display` writes it; whether it is centered and what it holds is asked of
/// the properties.
pub fn row_cells_of<C: TableColumns>(props: &NewRowProperties<C>, columns: Vec<C>) -> (cells: Vec<
    RowCell,
>)
    ensures
        cells@.len() == columns@.len(),
        forall|i: int|
            0 <= i < cells@.len() ==> vstd::string::to_string_from_display_ensures::<C>(
                &columns@[i],
                (#[trigger] cells@[i]).data_label,
            ),
        props.center_cells is None ==> forall|i: int|
            0 <= i < cells@.len() ==> !(#[trigger] cells@[i]).center,
{
    let ghost all = columns@;
    let mut columns = columns;
    let mut cells: Vec<RowCell> = Vec::new();
    let mut rest: usize = columns.len();
    while rest > 0
        invariant
            rest == columns@.len(),
            cells@.len() + rest == all.len(),
            columns@ == all.subrange(cells@.len() as int, all.len() as int),
            forall|i: int|
                0 <= i < cells@.len() ==> vstd::string::to_string_from_display_ensures::<C>(
                    &all[i],
                    (#[trigger] cells@[i]).data_label,
                ),
            props.center_cells is None ==> forall|i: int|
                0 <= i < cells@.len() ==> !(#[trigger] cells@[i]).center,
        decreases rest,
    {
        let column = columns.remove(0);
        rest -= 1;
        let center = match &props.center_cells {
            Some(center_cells) => Some(emit(center_cells, column.clone())),
            None => None,
        };
        let data_label = column.to_string();
        let content = emit(&props.render_cells, column);
        cells.push(row_cell(center, data_label, content));
        assert(columns@ =~= all.subrange(cells@.len() as int, all.len() as int));
    }
    cells
}

/// The cells of a row: one for each column that the column type lists.
pub fn row_cells<C: TableColumns>(props: &NewRowProperties<C>) -> (cells: Vec<RowCell>)
    ensures
        cells_list_columns::<C>(cells@),
        props.center_cells is None ==> forall|i: int|
            0 <= i < cells@.len() ==> !(#[trigger] cells@[i]).center,
{
    let columns = C::iter_cols();
    let ghost listed = columns;
    let cells = row_cells_of(props, columns);
    assert(call_ensures(C::iter_cols, (), listed) && cells_follow(cells@, listed@));
    cells
}

/// Whether a list of cells follows a list of columns: one cell for each
/// column, in the same order, each labelled with the name of its column as
/// its `Display` writes it.
pub open spec fn cells_follow<C: TableColumns>(cells: Seq<RowCell>, columns: Seq<C>) -> bool {
    &&& cells.len() == columns.len()
    &&& forall|i: int|
        0 <= i < cells.len() ==> vstd::string::to_string_from_display_ensures::<C>(
            &columns[i],
            (#[trigger] cells[i]).data_label,
        )
}

/// Whether a list of cells follows the columns of `C`: a list that
/// `C::iter_cols` returns. What that method promises of its result is thereby
/// known of the cells.
pub open spec fn cells_list_columns<C: TableColumns>(cells: Seq<RowCell>) -> bool {
    exists|columns: Vec<C>|
        {
            &&& call_ensures(C::iter_cols, (), columns)
            &&& #[trigger] cells_follow(cells, columns@)
        }
}

/// What a row renders, given the cells of its columns. An expandable row
/// starts with a toggle and is followed by the row that holds its expanded
/// content; any other row has neither.
pub fn new_row_view<'a, C: TableColumns>(props: &'a NewRowProperties<C>, cells: Vec<RowCell>) -> (view:
    NewRowView<'a>)
    ensures
        *view.class == props.class,
        view.selected == props.selected,
        *view.onclick == props.onclick,
        view.cells == cells,
        match props.expandable {
            Some(expandable) => {
                &&& view.toggle == Some(
                    ExpandParams {
                        kind: ExpandType::Row,
                        expanded: expandable.expanded,
                        ontoggle: expandable.ontoggle,
                    },
                )
                &&& view.expansion matches Some(row)
                &&& row.expanded == expandable.expanded
                &&& row.cells@.len() == expandable.content@.len()
                &&& forall|i: int|
                    0 <= i < row.cells@.len() ==> #[trigger] row.cells@[i] == expanded_cell(
                        &expandable.content@[i],
                    )
            },
            None => view.toggle is None && view.expansion is None,
        },
{
    let (toggle, expansion) = match &props.expandable {
        Some(expandable) => (
            Some(
                ExpandParams {
                    kind: ExpandType::Row,
                    expanded: expandable.expanded,
                    ontoggle: expandable.ontoggle.clone(),
                },
            ),
            Some(expanded_row(expandable)),
        ),
        None => (None, None),
    };
    NewRowView {
        class: &props.class,
        selected: props.selected,
        onclick: &props.onclick,
        toggle,
        cells,
        expansion,
    }
}

/// What a row renders: the cells of its columns and, for an expandable row,
/// the toggle in front of them and the row that follows.
pub fn new_row<'a, C: TableColumns>(props: &'a NewRowProperties<C>) -> (view: NewRowView<'a>)
    ensures
        *view.class == props.class,
        view.selected == props.selected,
        *view.onclick == props.onclick,
        cells_list_columns::<C>(view.cells@),
        props.center_cells is None ==> forall|i: int|
            0 <= i < view.cells@.len() ==> !(#[trigger] view.cells@[i]).center,
        match props.expandable {
            Some(expandable) => {
                &&& view.toggle == Some(
                    ExpandParams {
                        kind: ExpandType::Row,
                        expanded: expandable.expanded,
                        ontoggle: expandable.ontoggle,
                    },
                )
                &&& view.expansion matches Some(row)
                &&& row.expanded == expandable.expanded
                &&& row.cells@.len() == expandable.content@.len()
                &&& forall|i: int|
                    0 <= i < row.cells@.len() ==> #[trigger] row.cells@[i] == expanded_cell(
                        &expandable.content@[i],
                    )
            },
            None => view.toggle is None && view.expansion is None,
        },
{
    let cells = row_cells(props);
    new_row_view(props, cells)
}

/// Properties of the header of a table.
#[derive(Clone, Debug, PartialEq)]
pub struct NewTableHeaderProperties {}

} // verus!
