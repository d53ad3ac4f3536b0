use patternfly_yew::components::toolbar::{
    ToolbarChild, ToolbarChildVariant, ToolbarGroupProperties, ToolbarItemProperties,
};
use yew::virtual_dom::VText;
use yew::Html;

fn text(content: &str) -> Html {
    VText::new(content.to_string()).into()
}

#[test]
fn item_properties_give_an_item() {
    let child = ToolbarChild::from(ToolbarItemProperties {
        children: text("save"),
    });
    match child {
        ToolbarChild::Item(props) => assert_eq!(props.children, text("save")),
        _ => panic!("properties of an item give an item"),
    }
}

#[test]
fn group_properties_give_a_group() {
    let child = ToolbarChild::from(ToolbarGroupProperties {
        children: text("filters"),
    });
    match child {
        ToolbarChild::Group(props) => assert_eq!(props.children, text("filters")),
        _ => panic!("properties of a group give a group"),
    }
}

#[test]
fn no_properties_give_a_divider() {
    assert!(matches!(ToolbarChild::from(()), ToolbarChild::Divider(_)));
}

#[test]
fn a_variant_keeps_its_child() {
    let child = ToolbarChild::from(ToolbarItemProperties {
        children: text("save"),
    });
    let variant = ToolbarChildVariant::from(child.clone());
    assert!(*variant.props() == child);
    assert!(variant.clone().into_child() == child);
    assert!(variant.into_child() != ToolbarChild::from(()));
}
