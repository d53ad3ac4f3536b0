//! Toolbar: a row of items, groups of items, and dividers.

pub mod child;

pub use child::{ToolbarChild, ToolbarChildVariant, ToolbarGroupProperties, ToolbarItemProperties};
