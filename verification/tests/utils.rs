use patternfly_yew::utils::{random_id, starts_with};
use patternfly_yew::{Orientation, Position};
use yew::Classes;

#[test]
fn random_id_has_the_shape_of_a_version_4_uuid() {
    let id = random_id();
    let chars: Vec<char> = id.chars().collect();
    assert_eq!(chars.len(), 36);
    for (at, c) in chars.iter().enumerate() {
        if at == 8 || at == 13 || at == 18 || at == 23 {
            assert_eq!(*c, '-');
        } else {
            assert!(matches!(*c, '0'..='9' | 'a'..='f'), "unexpected {c} at {at}");
        }
    }
    assert_eq!(chars[14], '4');
    assert!(matches!(chars[19], '8' | '9' | 'a' | 'b'));
}

#[test]
fn random_id_differs_from_call_to_call() {
    assert_ne!(random_id(), random_id());
}

#[test]
fn position_defaults_to_left() {
    assert_eq!(Position::default(), Position::Left);
}

#[test]
fn orientation_adds_its_modifier_class() {
    let mut classes = Classes::new();
    Orientation::Left.extend_classes(&mut classes);
    assert_eq!(classes.to_string(), "pf-m-left");

    let mut classes = Classes::from("base");
    Orientation::Right.extend_classes(&mut classes);
    assert_eq!(classes.to_string(), "base pf-m-right");

    let mut classes = Classes::from("base");
    Orientation::Top.extend_classes(&mut classes);
    assert_eq!(classes.to_string(), "base pf-m-top");

    let mut classes = Classes::from("base");
    Orientation::Bottom.extend_classes(&mut classes);
    assert_eq!(classes.to_string(), "base pf-m-bottom");
}

#[test]
fn orientation_class_is_not_added_twice() {
    let mut classes = Classes::from("pf-m-top");
    classes.push("other");
    Orientation::Top.extend_classes(&mut classes);
    assert_eq!(classes.to_string(), "pf-m-top other");
}

#[test]
fn a_placement_names_its_side_first() {
    assert_eq!(Orientation::from_placement("left"), Some(Orientation::Left));
    assert_eq!(Orientation::from_placement("left-end"), Some(Orientation::Left));
    assert_eq!(Orientation::from_placement("right"), Some(Orientation::Right));
    assert_eq!(Orientation::from_placement("right-start"), Some(Orientation::Right));
    assert_eq!(Orientation::from_placement("top"), Some(Orientation::Top));
    assert_eq!(Orientation::from_placement("top-start"), Some(Orientation::Top));
    assert_eq!(Orientation::from_placement("bottom"), Some(Orientation::Bottom));
    assert_eq!(Orientation::from_placement("bottom-end"), Some(Orientation::Bottom));
}

#[test]
fn other_text_names_no_side() {
    assert_eq!(Orientation::from_placement(""), None);
    assert_eq!(Orientation::from_placement("auto"), None);
    assert_eq!(Orientation::from_placement("auto-start"), None);
    assert_eq!(Orientation::from_placement("lef"), None);
    assert_eq!(Orientation::from_placement("Left"), None);
    assert_eq!(Orientation::from_placement(" top"), None);
}

#[test]
fn starts_with_compares_character_by_character() {
    assert!(starts_with("bottom-end", "bottom"));
    assert!(starts_with("bottom", "bottom"));
    assert!(starts_with("anything", ""));
    assert!(starts_with("", ""));
    assert!(!starts_with("", "top"));
    assert!(!starts_with("to", "top"));
    assert!(!starts_with("tap", "top"));
    assert!(starts_with("\u{e9}t\u{e9}", "\u{e9}t"));
    assert!(!starts_with("\u{e9}t\u{e9}", "et"));
}
