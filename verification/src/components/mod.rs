//! The widgets.

pub mod popover;
pub mod table;
pub mod toolbar;
