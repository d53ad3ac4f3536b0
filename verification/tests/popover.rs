use patternfly_yew::components::popover::{
    popover, popover_body, popover_initial, popover_popup, popover_update, PopoverBodyProperties,
    PopoverBodySection, PopoverContext, PopoverEvent, PopoverPopupProperties, PopoverProperties,
};
use patternfly_yew::{Icon, Orientation};
use popper_rs::state::{AttributesMap, StylesMap};
use std::cell::Cell;
use std::collections::HashMap;
use std::rc::Rc;
use yew::virtual_dom::VText;
use yew::{Callback, Html, NodeRef};

fn text(content: &str) -> Html {
    VText::new(content.to_string()).into()
}

fn reported(placement: Option<&str>) -> AttributesMap {
    let mut attributes = HashMap::new();
    if let Some(placement) = placement {
        attributes.insert("data-popper-placement".to_string(), placement.to_string());
    }
    AttributesMap(attributes)
}

fn properties() -> PopoverProperties {
    PopoverProperties {
        target: text("target"),
        body: text("body"),
        no_padding: false,
        no_close: false,
        width_auto: false,
    }
}

fn popup(orientation: Orientation) -> PopoverPopupProperties {
    PopoverPopupProperties {
        body: text("body"),
        orientation,
        no_padding: false,
        no_close: false,
        width_auto: false,
        hidden: false,
        style: String::new(),
        onclose: Callback::from(|_: ()| ()),
        node_ref: NodeRef::default(),
    }
}

#[test]
fn a_click_on_the_target_toggles_the_popover() {
    assert!(popover_update(false, PopoverEvent::Toggle));
    assert!(!popover_update(true, PopoverEvent::Toggle));
}

#[test]
fn closing_and_clicking_away_hide_the_popover() {
    assert!(!popover_update(true, PopoverEvent::Close));
    assert!(!popover_update(false, PopoverEvent::Close));
    assert!(!popover_update(true, PopoverEvent::ClickAway));
    assert!(!popover_update(false, PopoverEvent::ClickAway));
}

#[test]
fn a_hidden_popover_leaves_its_target_clickable() {
    let props = properties();
    let view = popover(&props, false, &reported(None), &StylesMap::default());
    assert_eq!(view.target_style, "");
    assert!(!view.visible);
    assert_eq!(*view.target, text("target"));
    assert_eq!(*view.body, text("body"));
}

#[test]
fn a_shown_popover_takes_the_clicks_from_its_target() {
    let props = properties();
    let view = popover(&props, true, &reported(None), &StylesMap::default());
    assert_eq!(view.target_style, "pointer-events: none;");
    assert!(view.visible);
}

#[test]
fn the_popover_is_placed_right_of_its_target() {
    let props = properties();
    let view = popover(&props, true, &reported(Some("top")), &StylesMap::default());
    assert_eq!(view.placement, Orientation::Right);
    assert_eq!(view.offset_skidding, 0);
    assert_eq!(view.offset_distance, 20);
    assert_eq!(view.overflow_padding, 0);
    assert_eq!(view.orientation, Orientation::Top);
}

#[test]
fn the_content_sits_where_the_engine_reports_it() {
    let props = properties();
    let styles = StylesMap::default();
    assert_eq!(popover(&props, true, &reported(Some("left-start")), &styles).orientation, Orientation::Left);
    assert_eq!(popover(&props, true, &reported(Some("bottom-end")), &styles).orientation, Orientation::Bottom);
    assert_eq!(popover(&props, true, &reported(Some("right")), &styles).orientation, Orientation::Right);
    assert_eq!(popover(&props, true, &reported(Some("top")), &styles).orientation, Orientation::Top);
}

#[test]
fn the_content_counts_as_right_until_a_side_is_reported() {
    let props = properties();
    let styles = StylesMap::default();
    assert_eq!(popover(&props, false, &reported(None), &styles).orientation, Orientation::Right);
    assert_eq!(popover(&props, true, &reported(Some("auto")), &styles).orientation, Orientation::Right);
    assert_eq!(popover(&props, true, &reported(Some("")), &styles).orientation, Orientation::Right);
}

#[test]
fn the_popover_is_stacked_above_the_page() {
    let props = properties();
    let view = popover(&props, true, &reported(None), &StylesMap::default());
    assert_eq!(view.popup_style.len(), 1);
    assert_eq!(view.popup_style.get("z-index").map(String::as_str), Some("1000"));

    let mut computed = HashMap::new();
    computed.insert("position".to_string(), "fixed".to_string());
    computed.insert("z-index".to_string(), "1".to_string());
    let view = popover(&props, true, &reported(Some("right")), &StylesMap(computed));
    assert_eq!(view.popup_style.len(), 2);
    assert_eq!(view.popup_style.get("z-index").map(String::as_str), Some("1000"));
    assert_eq!(view.popup_style.get("position").map(String::as_str), Some("fixed"));
}

#[test]
fn the_popover_hands_its_flags_to_the_content() {
    let mut props = properties();
    props.no_close = true;
    let view = popover(&props, true, &reported(None), &StylesMap::default());
    assert!(view.no_close && !view.no_padding && !view.width_auto);

    let mut props = properties();
    props.no_padding = true;
    let view = popover(&props, true, &reported(None), &StylesMap::default());
    assert!(!view.no_close && view.no_padding && !view.width_auto);

    let mut props = properties();
    props.width_auto = true;
    let view = popover(&props, true, &reported(None), &StylesMap::default());
    assert!(!view.no_close && !view.no_padding && view.width_auto);
}

#[test]
fn the_content_carries_the_class_of_its_side() {
    let props = popup(Orientation::Left);
    assert_eq!(popover_popup(&props).class.to_string(), "pf-v5-c-popover pf-m-left");
    let props = popup(Orientation::Right);
    assert_eq!(popover_popup(&props).class.to_string(), "pf-v5-c-popover pf-m-right");
    let props = popup(Orientation::Top);
    assert_eq!(popover_popup(&props).class.to_string(), "pf-v5-c-popover pf-m-top");
    let props = popup(Orientation::Bottom);
    assert_eq!(popover_popup(&props).class.to_string(), "pf-v5-c-popover pf-m-bottom");
}

#[test]
fn the_content_carries_the_modifiers_of_its_flags() {
    let mut props = popup(Orientation::Top);
    props.width_auto = true;
    assert_eq!(
        popover_popup(&props).class.to_string(),
        "pf-v5-c-popover pf-m-top pf-m-width-auto"
    );
    props.no_padding = true;
    assert_eq!(
        popover_popup(&props).class.to_string(),
        "pf-v5-c-popover pf-m-top pf-m-width-auto pf-m-no-padding"
    );
    props.width_auto = false;
    assert_eq!(
        popover_popup(&props).class.to_string(),
        "pf-v5-c-popover pf-m-top pf-m-no-padding"
    );
}

#[test]
fn hidden_content_is_not_displayed() {
    let mut props = popup(Orientation::Right);
    props.style = "z-index: 1000;".to_string();
    assert_eq!(popover_popup(&props).style, "z-index: 1000;");
    props.hidden = true;
    assert_eq!(popover_popup(&props).style, "display: none;");
}

#[test]
fn the_close_button_can_be_left_out() {
    let mut props = popup(Orientation::Right);
    assert_eq!(popover_popup(&props).close_icon, Some(Icon::Times));
    props.no_close = true;
    assert_eq!(popover_popup(&props).close_icon, None);
}

#[test]
fn the_content_keeps_body_handler_and_reference() {
    let closed = Rc::new(Cell::new(0u32));
    let counter = closed.clone();
    let mut props = popup(Orientation::Right);
    props.onclose = Callback::from(move |_: ()| counter.set(counter.get() + 1));
    let view = popover_popup(&props);
    assert_eq!(*view.body, text("body"));
    assert!(*view.node_ref == props.node_ref);
    assert!(*view.onclose == props.onclose);
    view.onclose.emit(());
    assert_eq!(closed.get(), 1);
}

#[test]
fn a_body_without_header_and_footer_is_the_message_alone() {
    let props = PopoverBodyProperties {
        children: text("message"),
        header: None,
        footer: None,
    };
    let sections = popover_body(&props);
    assert_eq!(sections.len(), 1);
    assert!(matches!(sections[0], PopoverBodySection::Body(body) if *body == text("message")));
}

#[test]
fn header_and_footer_enclose_the_message() {
    let props = PopoverBodyProperties {
        children: text("message"),
        header: Some(text("title")),
        footer: Some(text("note")),
    };
    let sections = popover_body(&props);
    assert_eq!(sections.len(), 3);
    assert!(matches!(sections[0], PopoverBodySection::Header(header) if *header == text("title")));
    assert!(matches!(sections[1], PopoverBodySection::Body(body) if *body == text("message")));
    assert!(matches!(sections[2], PopoverBodySection::Footer(footer) if *footer == text("note")));
}

#[test]
fn a_header_alone_comes_first_and_a_footer_alone_last() {
    let props = PopoverBodyProperties {
        children: text("message"),
        header: Some(text("title")),
        footer: None,
    };
    let sections = popover_body(&props);
    assert_eq!(sections.len(), 2);
    assert!(matches!(sections[0], PopoverBodySection::Header(_)));
    assert!(matches!(sections[1], PopoverBodySection::Body(_)));

    let props = PopoverBodyProperties {
        children: text("message"),
        header: None,
        footer: Some(text("note")),
    };
    let sections = popover_body(&props);
    assert_eq!(sections.len(), 2);
    assert!(matches!(sections[0], PopoverBodySection::Body(_)));
    assert!(matches!(sections[1], PopoverBodySection::Footer(_)));
}

#[test]
fn the_context_closes_through_its_handle() {
    let closed = Rc::new(Cell::new(0u32));
    let counter = closed.clone();
    let context = PopoverContext::new(Callback::from(move |_: ()| counter.set(counter.get() + 1)));
    assert_eq!(closed.get(), 0);
    context.close();
    assert_eq!(closed.get(), 1);
    context.clone().close();
    assert_eq!(closed.get(), 2);
}

#[test]
fn a_popover_starts_closed() {
    assert!(!popover_initial());
    let props = properties();
    let view = popover(&props, popover_initial(), &reported(None), &StylesMap::default());
    assert!(!view.visible);
    assert_eq!(view.target_style, "");
}

#[test]
fn the_first_click_opens_a_popover() {
    assert!(popover_update(popover_initial(), PopoverEvent::Toggle));
    assert!(!popover_update(popover_initial(), PopoverEvent::Close));
    assert!(!popover_update(popover_initial(), PopoverEvent::ClickAway));
}

#[test]
fn only_the_placement_attribute_names_the_side() {
    let props = properties();
    let mut attributes = HashMap::new();
    attributes.insert("data-popper-escaped".to_string(), "top".to_string());
    attributes.insert("placement".to_string(), "left".to_string());
    let view = popover(&props, true, &AttributesMap(attributes.clone()), &StylesMap::default());
    assert_eq!(view.orientation, Orientation::Right);

    attributes.insert("data-popper-placement".to_string(), "bottom-start".to_string());
    let view = popover(&props, true, &AttributesMap(attributes), &StylesMap::default());
    assert_eq!(view.orientation, Orientation::Bottom);
}

#[test]
fn the_content_is_a_modal_dialog() {
    let props = popup(Orientation::Right);
    let view = popover_popup(&props);
    assert_eq!(view.role, "dialog");
    assert_eq!(view.aria_modal, "true");

    let mut hidden = popup(Orientation::Left);
    hidden.hidden = true;
    hidden.no_close = true;
    let view = popover_popup(&hidden);
    assert_eq!(view.role, "dialog");
    assert_eq!(view.aria_modal, "true");
}
