//! Class lists: Yew's `Classes`, seen as the sequence of names it holds.

use vstd::prelude::*;
use yew::Classes;

verus! {

/// Yew's set of class names, which keeps them in the order of insertion.
#[verifier::external_type_specification]
#[verifier::external_body]
pub struct ExClasses(yew::Classes);

/// The names that a class list holds, in the order in which they are written
/// to the `class` attribute.
pub uninterp spec fn class_names(classes: yew::Classes) -> Seq<Seq<char>>;

/// The characters with the Unicode property `White_Space`, at which a class
/// attribute is split into names.
pub open spec fn is_whitespace(c: char) -> bool {
    let code = c as u32;
    ||| 0x09 <= code <= 0x0d
    ||| code == 0x20
    ||| code == 0x85
    ||| code == 0xa0
    ||| code == 0x1680
    ||| 0x2000 <= code <= 0x200a
    ||| code == 0x2028
    ||| code == 0x2029
    ||| code == 0x202f
    ||| code == 0x205f
    ||| code == 0x3000
}

/// A single class name: not empty, and free of whitespace.
pub open spec fn is_class_name(name: Seq<char>) -> bool {
    &&& name.len() > 0
    &&& forall|i: int| 0 <= i < name.len() ==> !is_whitespace(#[trigger] name[i])
}

/// A list of names after `name` was added: a name that is already listed
/// keeps its place, a new one goes to the end.
pub open spec fn with_class(names: Seq<Seq<char>>, name: Seq<char>) -> Seq<Seq<char>> {
    if names.contains(name) {
        names
    } else {
        names.push(name)
    }
}

/// Adding a name to a list that does not hold it appends the name.
pub proof fn lemma_with_new_class(names: Seq<Seq<char>>, name: Seq<char>)
    requires
        forall|i: int| 0 <= i < names.len() ==> names[i] != name,
    ensures
        with_class(names, name) == names.push(name),
{
}

/// `Classes::from` for a string literal. Yew splits the text at whitespace
/// and collects the pieces, so a single name gives a list of that one name.
#[verifier::external_body]
pub(crate) fn classes_of(name: &'static str) -> (classes: Classes)
    requires
        is_class_name(name@),
    ensures
        class_names(classes) == seq![name@],
{
    Classes::from(name)
}

/// `Classes::push` for a string literal. Yew splits the text at whitespace
/// and inserts the pieces into its ordered set, which ignores a name that it
/// already holds.
#[verifier::external_body]
pub(crate) fn push_class(classes: &mut Classes, name: &'static str)
    requires
        is_class_name(name@),
    ensures
        class_names(*final(classes)) == with_class(class_names(*old(classes)), name@),
{
    classes.push(name)
}

/// `Clone` for `Classes`, which Yew derives. Nothing is claimed of the copy.
pub assume_specification[ <yew::Classes as Clone>::clone ](classes: &yew::Classes) -> (copy:
    yew::Classes)
;

} // verus!
