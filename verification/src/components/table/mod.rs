//! Table: rows that are built from a description of the columns.

pub mod composable;
pub mod row;

pub use composable::{
    expandable_row_classes, span_classes, table_data_classes, table_row_classes, ExpandParams,
    ExpandType, Span, SpanModifiers,
};
pub use row::{
    cells_follow, cells_list_columns, expanded_row, new_row, new_row_view, row_cell, row_cells,
    row_cells_of, ExpandedCell, ExpandedRow, NewRowProperties, NewRowView,
    NewTableHeaderProperties, RowCell, RowExpandArgs, TableColumns,
};
