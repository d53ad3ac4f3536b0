//! Helpers shared by the widgets.

pub mod classes;
pub mod orientation;
pub mod position;

pub use classes::{class_names, is_class_name, is_whitespace, with_class};
pub use orientation::{placement_side, starts_with, Orientation};
pub use position::Position;

use vstd::prelude::*;

verus! {

/// Whether `c` is one of the sixteen lower-case hexadecimal digits.
pub open spec fn is_lower_hex(c: char) -> bool {
    ('0' <= c && c <= '9') || ('a' <= c && c <= 'f')
}

/// The textual form of a random (version 4) UUID: 36 characters, hyphens
/// after the 8th, 12th, 16th and 20th digit, lower-case hexadecimal digits
/// everywhere else, the version digit `4` and a variant digit of `8` to `b`.
pub open spec fn is_random_uuid_text(s: Seq<char>) -> bool {
    &&& s.len() == 36
    &&& forall|i: int|
        0 <= i < 36 ==> if i == 8 || i == 13 || i == 18 || i == 23 {
            s[i] == '-'
        } else {
            is_lower_hex(#[trigger] s[i])
        }
    &&& s[14] == '4'
    &&& (s[19] == '8' || s[19] == '9' || s[19] == 'a' || s[19] == 'b')
}

/// Calls `uuid::Uuid::new_v4` and formats the result with its `Display`
/// impl. The identifier itself is random; the contract states only the shape
/// that every version 4 UUID has in hyphenated lower-case form.
#[verifier::external_body]
fn new_v4_text() -> (text: String)
    ensures
        is_random_uuid_text(text@),
{
    uuid::Uuid::new_v4().to_string()
}

/// A fresh random identifier, fit for an element's `id` attribute.
pub fn random_id() -> (id: String)
    ensures
        is_random_uuid_text(id@),
{
    new_v4_text()
}

} // verus!
