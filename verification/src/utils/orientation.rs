//! The side of its target on which an overlay is shown.

use crate::utils::classes::{class_names, is_class_name, push_class, with_class};
use vstd::prelude::*;
use vstd::string::StrSliceExecFns;
use yew::Classes;

verus! {

/// The side of the target on which an overlay sits.
#[derive(Clone, Copy, Debug, PartialEq, Eq, Structural)]
pub enum Orientation {
    Left,
    Right,
    Top,
    Bottom,
}

/// Whether `text` starts with `prefix`.
pub fn starts_with(text: &str, prefix: &str) -> (found: bool)
    ensures
        found == prefix@.is_prefix_of(text@),
{
    let length = prefix.unicode_len();
    if text.unicode_len() < length {
        return false;
    }
    let mut at: usize = 0;
    while at < length
        invariant
            at <= length,
            length == prefix@.len(),
            length <= text@.len(),
            forall|i: int| 0 <= i < at ==> text@[i] == prefix@[i],
        decreases length - at,
    {
        if text.get_char(at) != prefix.get_char(at) {
            assert(text@.subrange(0, length as int)[at as int] != prefix@[at as int]);
            return false;
        }
        at += 1;
    }
    assert(prefix@ =~= text@.subrange(0, length as int));
    true
}

/// The side that a placement of the positioning engine names: placements
/// are written as a side, `left`, `right`, `top` or `bottom`, which an
/// alignment such as `-start` may follow. Any other text names no side.
pub open spec fn placement_side(placement: Seq<char>) -> Option<Orientation> {
    if "left"@.is_prefix_of(placement) {
        Some(Orientation::Left)
    } else if "right"@.is_prefix_of(placement) {
        Some(Orientation::Right)
    } else if "top"@.is_prefix_of(placement) {
        Some(Orientation::Top)
    } else if "bottom"@.is_prefix_of(placement) {
        Some(Orientation::Bottom)
    } else {
        None
    }
}

impl Orientation {
    /// The side that a placement of the positioning engine names.
    pub fn from_placement(placement: &str) -> (side: Option<Self>)
        ensures
            side == placement_side(placement@),
    {
        if starts_with(placement, "left") {
            Some(Orientation::Left)
        } else if starts_with(placement, "right") {
            Some(Orientation::Right)
        } else if starts_with(placement, "top") {
            Some(Orientation::Top)
        } else if starts_with(placement, "bottom") {
            Some(Orientation::Bottom)
        } else {
            None
        }
    }

    /// The modifier class that places an overlay on this side.
    pub open spec fn class_name(self) -> Seq<char> {
        match self {
            Orientation::Left => "pf-m-left"@,
            Orientation::Right => "pf-m-right"@,
            Orientation::Top => "pf-m-top"@,
            Orientation::Bottom => "pf-m-bottom"@,
        }
    }

    /// The modifier class of every side is a single class name of at most
    /// eleven characters.
    pub proof fn lemma_class_name(self)
        ensures
            is_class_name(self.class_name()),
            self.class_name().len() <= 11,
    {
        reveal_strlit("pf-m-left");
        reveal_strlit("pf-m-right");
        reveal_strlit("pf-m-top");
        reveal_strlit("pf-m-bottom");
    }

    /// Adds the modifier class of this side to `classes`.
    pub fn extend_classes(&self, classes: &mut Classes)
        ensures
            class_names(*final(classes)) == with_class(
                class_names(*old(classes)),
                self.class_name(),
            ),
    {
        proof {
            self.lemma_class_name();
        }
        match self {
            Orientation::Left => push_class(classes, "pf-m-left"),
            Orientation::Right => push_class(classes, "pf-m-right"),
            Orientation::Top => push_class(classes, "pf-m-top"),
            Orientation::Bottom => push_class(classes, "pf-m-bottom"),
        }
    }
}

} // verus!
