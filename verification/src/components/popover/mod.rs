//! Popover: in-app messaging that overlays the page next to its target,
//! without blocking the page.

use crate::html::emit;
use crate::icon::Icon;
use crate::utils::classes::{class_names, classes_of, lemma_with_new_class, push_class};
use crate::utils::orientation::{placement_side, Orientation};
use popper_rs::state::{AttributesMap, StylesMap};
use vstd::prelude::*;
use yew::{Callback, Classes, Html, NodeRef};

verus! {

/// The styles that the positioning engine computes for an element.
#[verifier::external_type_specification]
#[verifier::external_body]
pub struct ExStylesMap(popper_rs::state::StylesMap);

/// The style declarations that a map of styles holds: property to value.
pub uninterp spec fn style_entries(styles: popper_rs::state::StylesMap) -> Map<
    Seq<char>,
    Seq<char>,
>;

/// `StylesMap::extend_with`: a copy of the map in which `key` is set to
/// `value`; every other declaration is kept.
#[verifier::external_body]
fn extend_with(styles: &StylesMap, key: &str, value: &str) -> (extended: StylesMap)
    ensures
        style_entries(extended) == style_entries(*styles).insert(key@, value@),
{
    styles.extend_with(key, value)
}

/// The attributes that the positioning engine computes for an element.
#[verifier::external_type_specification]
#[verifier::external_body]
pub struct ExAttributesMap(popper_rs::state::AttributesMap);

/// The attributes that a map of attributes holds: name to value.
pub uninterp spec fn attribute_entries(attributes: popper_rs::state::AttributesMap) -> Map<
    Seq<char>,
    Seq<char>,
>;

/// `HashMap::get` on the map that an `AttributesMap` wraps: a copy of the
/// value of the attribute `name`, `None` where the map has no such attribute.
#[verifier::external_body]
fn attribute(attributes: &AttributesMap, name: &str) -> (value: Option<String>)
    ensures
        match value {
            Some(value) => attribute_entries(*attributes).contains_key(name@)
                && attribute_entries(*attributes)[name@] == value@,
            None => !attribute_entries(*attributes).contains_key(name@),
        },
{
    attributes.get(name).cloned()
}

/// Handed down to the content of a popover, so that it can close the popover.
#[derive(Clone, PartialEq)]
pub struct PopoverContext {
    close: Callback<()>,
}

impl PopoverContext {
    /// The handle through which the popover is closed.
    pub closed spec fn handle(self) -> Callback<()> {
        self.close
    }

    /// A context that closes its popover through `close`.
    pub fn new(close: Callback<()>) -> (context: Self)
        ensures
            context.handle() == close,
    {
        Self { close }
    }

    /// Close the popover.
    pub fn close(&self) {
        emit(&self.close, ())
    }
}

/// Properties of a popover.
#[derive(Clone, Debug, PartialEq)]
pub struct PopoverProperties {
    /// The target, rendered by the component, to which the popover is aligned.
    pub target: Html,
    /// The body content of the popover.
    pub body: Html,
    /// Whether the popover goes without padding.
    pub no_padding: bool,
    /// Whether the popover goes without a close button.
    pub no_close: bool,
    /// Whether the popover takes the width of its content.
    pub width_auto: bool,
}

/// What can happen to a popover.
#[derive(Clone, Copy, Debug, PartialEq, Eq, Structural)]
pub enum PopoverEvent {
    /// The target was clicked.
    Toggle,
    /// The content asked to be closed: by its close button, or through the
    /// [`PopoverContext`].
    Close,
    /// There was a click outside of the content.
    ClickAway,
}

/// Whether a popover is shown after `event`, given whether it was shown
/// before: a click on the target shows a hidden popover and hides a shown
/// one; everything else hides it.
pub open spec fn active_after(active: bool, event: PopoverEvent) -> bool {
    match event {
        PopoverEvent::Toggle => !active,
        PopoverEvent::Close => false,
        PopoverEvent::ClickAway => false,
    }
}

/// Whether a popover is shown before anything has happened to it.
pub fn popover_initial() -> (active: bool)
    ensures
        !active,
{
    false
}

/// Moves the state of a popover: tells whether it is shown after `event`.
pub fn popover_update(active: bool, event: PopoverEvent) -> (next: bool)
    ensures
        next == active_after(active, event),
{
    match event {
        PopoverEvent::Toggle => !active,
        PopoverEvent::Close => false,
        PopoverEvent::ClickAway => false,
    }
}

/// Everything that the markup of a popover depends on.
pub struct PopoverView<'a> {
    /// The target, which stands in a `span` that reacts to clicks.
    pub target: &'a Html,
    /// The `style` attribute of that `span`.
    pub target_style: &'static str,
    /// Whether the content is shown.
    pub visible: bool,
    /// The side of the target on which the content is placed.
    pub placement: Orientation,
    /// How far the content is moved along the target, in pixels.
    pub offset_skidding: i32,
    /// How far the content is moved away from the target, in pixels.
    pub offset_distance: i32,
    /// The room that is kept between the content and the edge of the page,
    /// in pixels.
    pub overflow_padding: i32,
    /// The side on which the content has come to sit.
    pub orientation: Orientation,
    /// The styles of the content.
    pub popup_style: StylesMap,
    /// Whether the content takes the width of what it holds.
    pub width_auto: bool,
    /// Whether the content goes without padding.
    pub no_padding: bool,
    /// Whether the content goes without a close button.
    pub no_close: bool,
    /// The body of the content.
    pub body: &'a Html,
}

/// The side on which the content of a popover sits, given the attributes
/// that the positioning engine reports for it: the side that the attribute
/// `data-popper-placement` names. Until the engine reports a side, the
/// content counts as sitting where it is asked to be placed: to the right.
pub open spec fn popover_orientation(attributes: Map<Seq<char>, Seq<char>>) -> Orientation {
    if attributes.contains_key("data-popper-placement"@) {
        match placement_side(attributes["data-popper-placement"@]) {
            Some(side) => side,
            None => Orientation::Right,
        }
    } else {
        Orientation::Right
    }
}

/// What a popover renders.
///
/// `active` tells whether the popover is shown; `attributes` and `styles` are
/// what the positioning engine last reported for the content. While the
/// popover is shown its target takes no clicks. The content is placed to the
/// right of the target, twenty pixels away, and is stacked above the page.
pub fn popover<'a>(
    props: &'a PopoverProperties,
    active: bool,
    attributes: &AttributesMap,
    styles: &StylesMap,
) -> (view: PopoverView<'a>)
    ensures
        *view.target == props.target,
        view.target_style@ == if active {
            "pointer-events: none;"@
        } else {
            ""@
        },
        view.visible == active,
        view.placement == Orientation::Right,
        view.offset_skidding == 0,
        view.offset_distance == 20,
        view.overflow_padding == 0,
        view.orientation == popover_orientation(attribute_entries(*attributes)),
        style_entries(view.popup_style) == style_entries(*styles).insert("z-index"@, "1000"@),
        view.width_auto == props.width_auto,
        view.no_padding == props.no_padding,
        view.no_close == props.no_close,
        *view.body == props.body,
{
    let target_style = if active {
        "pointer-events: none;"
    } else {
        ""
    };
    let reported = match attribute(attributes, "data-popper-placement") {
        Some(placement) => Orientation::from_placement(placement.as_str()),
        None => None,
    };
    let orientation = match reported {
        Some(side) => side,
        None => Orientation::Right,
    };
    PopoverView {
        target: &props.target,
        target_style,
        visible: active,
        placement: Orientation::Right,
        offset_skidding: 0,
        offset_distance: 20,
        overflow_padding: 0,
        orientation,
        popup_style: extend_with(styles, "z-index", "1000"),
        width_auto: props.width_auto,
        no_padding: props.no_padding,
        no_close: props.no_close,
        body: &props.body,
    }
}

/// Properties of the content of a popover.
#[derive(Clone, PartialEq)]
pub struct PopoverPopupProperties {
    /// The body of the content.
    pub body: Html,
    /// The side of the target on which the content sits.
    pub orientation: Orientation,
    /// Whether the content goes without padding.
    pub no_padding: bool,
    /// Whether the content goes without a close button.
    pub no_close: bool,
    /// Whether the content takes the width of what it holds.
    pub width_auto: bool,
    /// Whether the content is hidden.
    pub hidden: bool,
    /// The `style` attribute of the content while it is not hidden.
    pub style: String,
    /// Called when the close button is clicked.
    pub onclose: Callback<()>,
    /// Refers to the rendered content.
    pub node_ref: NodeRef,
}

/// Everything that the markup of a popover's content depends on.
pub struct PopoverPopupView<'a> {
    /// Classes of the dialog element.
    pub class: Classes,
    /// The `role` attribute of the dialog element.
    pub role: &'static str,
    /// The `aria-modal` attribute of the dialog element.
    pub aria_modal: &'static str,
    /// The `style` attribute of the dialog element.
    pub style: &'a str,
    /// The icon of the close button; `None` where there is no such button.
    pub close_icon: Option<Icon>,
    /// Called when the close button is clicked.
    pub onclose: &'a Callback<()>,
    /// The body of the content.
    pub body: &'a Html,
    /// Refers to the dialog element.
    pub node_ref: &'a NodeRef,
}

/// Classes of a popover's dialog element: the component class, the modifier
/// of the side it sits on, then the modifiers for automatic width and for no
/// padding.
pub open spec fn popup_classes(
    orientation: Orientation,
    width_auto: bool,
    no_padding: bool,
) -> Seq<Seq<char>> {
    let placed = seq!["pf-v5-c-popover"@, orientation.class_name()];
    let sized = if width_auto {
        placed.push("pf-m-width-auto"@)
    } else {
        placed
    };
    if no_padding {
        sized.push("pf-m-no-padding"@)
    } else {
        sized
    }
}

/// What the content of a popover renders: a modal dialog.
pub fn popover_popup<'a>(props: &'a PopoverPopupProperties) -> (view: PopoverPopupView<'a>)
    ensures
        view.role@ == "dialog"@,
        view.aria_modal@ == "true"@,
        class_names(view.class) == popup_classes(
            props.orientation,
            props.width_auto,
            props.no_padding,
        ),
        view.style@ == if props.hidden {
            "display: none;"@
        } else {
            props.style@
        },
        view.close_icon == if props.no_close {
            None
        } else {
            Some(Icon::Times)
        },
        *view.onclose == props.onclose,
        *view.body == props.body,
        *view.node_ref == props.node_ref,
{
    proof {
        reveal_strlit("pf-v5-c-popover");
        reveal_strlit("pf-m-width-auto");
        reveal_strlit("pf-m-no-padding");
    }
    let mut class = classes_of("pf-v5-c-popover");
    proof {
        props.orientation.lemma_class_name();
        assert("pf-m-width-auto"@[5] != "pf-m-no-padding"@[5]);
        assert(class_names(class)[0] == "pf-v5-c-popover"@);
        lemma_with_new_class(class_names(class), props.orientation.class_name());
    }
    props.orientation.extend_classes(&mut class);
    if props.width_auto {
        proof {
            let names = class_names(class);
            assert(names[0] == "pf-v5-c-popover"@);
            assert(names[1] == props.orientation.class_name());
            lemma_with_new_class(names, "pf-m-width-auto"@);
        }
        push_class(&mut class, "pf-m-width-auto");
    }
    if props.no_padding {
        proof {
            let names = class_names(class);
            assert(names[0] == "pf-v5-c-popover"@);
            assert(names[1] == props.orientation.class_name());
            assert(names.len() == 3 ==> names[2] == "pf-m-width-auto"@);
            lemma_with_new_class(names, "pf-m-no-padding"@);
        }
        push_class(&mut class, "pf-m-no-padding");
    }
    let style = if props.hidden {
        "display: none;"
    } else {
        props.style.as_str()
    };
    let close_icon = if props.no_close {
        None
    } else {
        Some(Icon::Times)
    };
    PopoverPopupView {
        class,
        role: "dialog",
        aria_modal: "true",
        style,
        close_icon,
        onclose: &props.onclose,
        body: &props.body,
        node_ref: &props.node_ref,
    }
}

/// Properties of the body of a popover.
#[derive(Clone, Debug, PartialEq)]
pub struct PopoverBodyProperties {
    /// The message.
    pub children: Html,
    /// What stands above the message.
    pub header: Option<Html>,
    /// What stands below the message.
    pub footer: Option<Html>,
}

/// A part of the body of a popover.
pub enum PopoverBodySection<'a> {
    /// The header, set as a title.
    Header(&'a Html),
    /// The message.
    Body(&'a Html),
    /// The footer.
    Footer(&'a Html),
}

/// The parts of the body of a popover, from top to bottom: the header where
/// there is one, the message, the footer where there is one.
pub open spec fn body_sections(props: &PopoverBodyProperties) -> Seq<PopoverBodySection<'_>> {
    let header = match props.header {
        Some(header) => seq![PopoverBodySection::Header(&header)],
        None => seq![],
    };
    let footer = match props.footer {
        Some(footer) => seq![PopoverBodySection::Footer(&footer)],
        None => seq![],
    };
    header + seq![PopoverBodySection::Body(&props.children)] + footer
}

/// What the body of a popover renders.
pub fn popover_body<'a>(props: &'a PopoverBodyProperties) -> (sections: Vec<PopoverBodySection<'a>>)
    ensures
        sections@ == body_sections(props),
{
    let mut sections = Vec::new();
    if let Some(header) = &props.header {
        sections.push(PopoverBodySection::Header(header));
    }
    sections.push(PopoverBodySection::Body(&props.children));
    if let Some(footer) = &props.footer {
        sections.push(PopoverBodySection::Footer(footer));
    }
    assert(sections@ =~= body_sections(props));
    sections
}

} // verus!
