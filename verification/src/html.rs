//! The Yew values that this crate carries from properties into views.
//!
//! None of these is inspected here: content and handles are taken from the
//! caller and handed on unchanged.

use vstd::prelude::*;

verus! {

/// Rendered content, Yew's `Html`. Opaque to the proofs.
#[verifier::external_type_specification]
#[verifier::external_body]
pub struct ExVNode(yew::virtual_dom::VNode);

/// Yew's callback handle. Opaque to the proofs.
#[verifier::external_type_specification]
#[verifier::external_body]
#[verifier::reject_recursive_types(IN)]
#[verifier::reject_recursive_types(OUT)]
pub struct ExCallback<IN, OUT>(yew::Callback<IN, OUT>);

/// Yew's list of child elements. Opaque to the proofs.
#[verifier::external_type_specification]
#[verifier::external_body]
#[verifier::reject_recursive_types(T)]
pub struct ExChildrenRenderer<T>(yew::html::ChildrenRenderer<T>);

/// Yew's reference to a rendered DOM node. Opaque to the proofs.
#[verifier::external_type_specification]
#[verifier::external_body]
pub struct ExNodeRef(yew::NodeRef);

/// `Clone` for `VNode`, which Yew derives. Nothing is claimed of the copy.
pub assume_specification[ <yew::virtual_dom::VNode as Clone>::clone ](
    node: &yew::virtual_dom::VNode,
) -> (copy: yew::virtual_dom::VNode)
;

/// `Clone` for `ChildrenRenderer`, which Yew derives: each child is copied by
/// its own `clone`. Nothing is claimed of the copy.
pub assume_specification<T: Clone>[ <yew::html::ChildrenRenderer<T> as Clone>::clone ](
    children: &yew::html::ChildrenRenderer<T>,
) -> (copy: yew::html::ChildrenRenderer<T>)
;

/// `Clone` for `NodeRef`, which Yew derives. Nothing is claimed of the copy.
pub assume_specification[ <yew::NodeRef as Clone>::clone ](node_ref: &yew::NodeRef) -> (copy:
    yew::NodeRef)
;

/// `Clone` for `Callback`: the copy shares the function of the handle it was
/// made from.
pub assume_specification<IN, OUT>[ <yew::Callback<IN, OUT> as Clone>::clone ](
    callback: &yew::Callback<IN, OUT>,
) -> (copy: yew::Callback<IN, OUT>)
    ensures
        copy == *callback,
;

/// `Clone` for a `ChildrenRenderer` of `VNode`s: the copy lists the same
/// content, child by child.
#[verifier::external_body]
pub(crate) fn copy_of_content(content: &yew::html::ChildrenRenderer<yew::Html>) -> (copy:
    yew::html::ChildrenRenderer<yew::Html>)
    ensures
        copy == *content,
{
    content.clone()
}

/// `==` on `VNode`, as Yew defines it. Nothing is claimed of the answer.
#[verifier::external_body]
pub(crate) fn same_html(left: &yew::Html, right: &yew::Html) -> (same: bool) {
    left == right
}

/// The content that a list of children holds, from first to last.
pub uninterp spec fn content_nodes(
    content: yew::html::ChildrenRenderer<yew::virtual_dom::VNode>,
) -> Seq<yew::virtual_dom::VNode>;

/// `==` on a `ChildrenRenderer` of `VNode`s, which compares the two vectors
/// of children: lists of different lengths differ, the children are compared
/// one by one, and two empty lists are the same. How Yew compares two
/// children is not claimed.
#[verifier::external_body]
pub(crate) fn same_children(
    left: &yew::html::ChildrenRenderer<yew::Html>,
    right: &yew::html::ChildrenRenderer<yew::Html>,
) -> (same: bool)
    ensures
        same ==> content_nodes(*left).len() == content_nodes(*right).len(),
        (content_nodes(*left).len() == 0 && content_nodes(*right).len() == 0) ==> same,
{
    left == right
}

/// `==` on `Callback`, which asks whether both handles share one function.
/// Nothing is claimed of the answer.
#[verifier::external_body]
pub(crate) fn same_callback<IN, OUT>(
    left: &yew::Callback<IN, OUT>,
    right: &yew::Callback<IN, OUT>,
) -> (same: bool) {
    left == right
}

/// `Callback::emit`: runs the function behind the handle with `value` and
/// hands back what it returns. The function is the caller's, so nothing is
/// claimed of the answer.
#[verifier::external_body]
pub(crate) fn emit<IN, OUT>(callback: &yew::Callback<IN, OUT>, value: IN) -> (out: OUT) {
    callback.emit(value)
}

} // verus!
