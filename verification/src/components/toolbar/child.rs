//! The children that a toolbar accepts.

use std::rc::Rc;
use vstd::prelude::*;
use yew::Html;

verus! {

/// Properties of an item of a toolbar.
#[derive(Clone, PartialEq)]
pub struct ToolbarItemProperties {
    /// The content of the item.
    pub children: Html,
}

/// Properties of a group of items of a toolbar.
#[derive(Clone, PartialEq)]
pub struct ToolbarGroupProperties {
    /// The items of the group.
    pub children: Html,
}

/// Child of a toolbar component
#[derive(Clone, PartialEq)]
pub enum ToolbarChild {
    /// An item.
    Item(Rc<ToolbarItemProperties>),
    /// A line between two items.
    Divider(Rc<()>),
    /// A group of items.
    Group(Rc<ToolbarGroupProperties>),
}

impl From<ToolbarItemProperties> for ToolbarChild {
    fn from(props: ToolbarItemProperties) -> (child: Self) {
        ToolbarChild::Item(Rc::new(props))
    }
}

impl vstd::std_specs::convert::FromSpecImpl<ToolbarItemProperties> for ToolbarChild {
    open spec fn obeys_from_spec() -> bool {
        true
    }

    open spec fn from_spec(props: ToolbarItemProperties) -> Self {
        ToolbarChild::Item(Rc::new(props))
    }
}

impl From<ToolbarGroupProperties> for ToolbarChild {
    fn from(props: ToolbarGroupProperties) -> (child: Self) {
        ToolbarChild::Group(Rc::new(props))
    }
}

impl vstd::std_specs::convert::FromSpecImpl<ToolbarGroupProperties> for ToolbarChild {
    open spec fn obeys_from_spec() -> bool {
        true
    }

    open spec fn from_spec(props: ToolbarGroupProperties) -> Self {
        ToolbarChild::Group(Rc::new(props))
    }
}

impl From<()> for ToolbarChild {
    fn from(props: ()) -> (child: Self) {
        ToolbarChild::Divider(Rc::new(props))
    }
}

impl vstd::std_specs::convert::FromSpecImpl<()> for ToolbarChild {
    open spec fn obeys_from_spec() -> bool {
        true
    }

    open spec fn from_spec(props: ()) -> Self {
        ToolbarChild::Divider(Rc::new(props))
    }
}

/// A child of a toolbar, as the toolbar's properties hold it.
#[derive(Clone, PartialEq)]
pub struct ToolbarChildVariant {
    props: ToolbarChild,
}

impl ToolbarChildVariant {
    /// The child that this value wraps.
    pub closed spec fn child(self) -> ToolbarChild {
        self.props
    }

    /// The child that this value wraps.
    pub fn props(&self) -> (child: &ToolbarChild)
        ensures
            *child == self.child(),
    {
        &self.props
    }

    /// The variant that is made from a child wraps that child.
    pub proof fn lemma_from_child(child: ToolbarChild)
        ensures
            <Self as vstd::std_specs::convert::FromSpec<ToolbarChild>>::from_spec(child).child()
                == child,
    {
    }

    /// Unwraps the child, so that the component that belongs to it can be
    /// instantiated.
    pub fn into_child(self) -> (child: ToolbarChild)
        ensures
            child == self.child(),
    {
        self.props
    }
}

impl From<ToolbarChild> for ToolbarChildVariant {
    fn from(child: ToolbarChild) -> (variant: Self) {
        Self { props: child }
    }
}

impl vstd::std_specs::convert::FromSpecImpl<ToolbarChild> for ToolbarChildVariant {
    open spec fn obeys_from_spec() -> bool {
        true
    }

    closed spec fn from_spec(child: ToolbarChild) -> Self {
        Self { props: child }
    }
}

} // verus!
