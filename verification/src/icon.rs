//! The icons that the widgets of this crate place by themselves.

use vstd::prelude::*;

verus! {

/// An icon of the design system's icon font.
#[derive(Clone, Copy, Debug, PartialEq, Eq, Structural)]
pub enum Icon {
    /// Marks a link that leaves the application.
    ExternalLinkAlt,
    /// A three by three grid, the usual face of an application launcher.
    Th,
    /// A cross, used to close or dismiss.
    Times,
}

} // verus!
