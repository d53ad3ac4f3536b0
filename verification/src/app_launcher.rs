//! Application launcher: a toggle that opens a menu of applications.

use crate::html::{content_nodes, copy_of_content, same_callback, same_children, same_html};
use crate::icon::Icon;
use crate::utils::classes::{class_names, classes_of, lemma_with_new_class, push_class};
use crate::utils::position::Position;
use vstd::prelude::*;
use yew::html::ChildrenRenderer;
use yew::{Callback, Classes, Html};

verus! {

/// Properties of the [`AppLauncher`].
#[derive(Clone, PartialEq)]
pub struct Props {
    /// Content of the toggle button; the grid icon where there is none.
    pub toggle: Option<Html>,
    /// The entries of the menu, in the order in which they are shown.
    pub children: ChildrenRenderer<AppLauncherChildVariant>,
    /// Whether the toggle button is disabled.
    pub disabled: bool,
    /// Where the menu opens.
    pub position: Position,
}

impl Props {
    /// Whether two sets of properties agree in everything but their content
    /// and handlers: both disabled or neither, the same position, both with a
    /// toggle of their own or neither, and as many entries, each like its
    /// counterpart.
    pub open spec fn alike(self, other: Self) -> bool {
        &&& self.same_frame(other)
        &&& entries_alike(launcher_entries(self.children), launcher_entries(other.children))
    }

    /// Whether two sets of properties agree in what surrounds the entries:
    /// both disabled or neither, the same position, both with a toggle of
    /// their own or neither.
    pub open spec fn same_frame(self, other: Self) -> bool {
        &&& self.disabled == other.disabled
        &&& self.position == other.position
        &&& (self.toggle is Some <==> other.toggle is Some)
    }

    /// Combines the comparison of two sets of properties. `toggles` is the
    /// answer for the two toggles, where both sets have one; `entries` is the
    /// answer for the two lists of entries.
    pub fn same_given(&self, other: &Self, toggles: bool, entries: bool) -> (same: bool)
        ensures
            same == (self.same_frame(*other) && (self.toggle is Some ==> toggles) && entries),
    {
        let frame = self.disabled == other.disabled && self.position == other.position;
        let toggle = match (&self.toggle, &other.toggle) {
            (Some(_), Some(_)) => toggles,
            (None, None) => true,
            _ => false,
        };
        frame && toggle && entries
    }

    /// Compares two sets of properties field by field. Toggles, content and
    /// handlers are compared by Yew; whatever it answers, properties that are
    /// found the same are alike. Where there is nothing for Yew to compare
    /// (no toggles, and no entries but dividers), properties that are alike
    /// are found the same.
    pub fn same_as(&self, other: &Self) -> (same: bool)
        ensures
            same ==> self.alike(*other),
            (self.alike(*other) && self.toggle is None && only_dividers(
                launcher_entries(self.children),
            )) ==> same,
    {
        let toggles = match (&self.toggle, &other.toggle) {
            (Some(left), Some(right)) => same_html(left, right),
            _ => true,
        };
        let entries = same_entries(&self.children, &other.children);
        self.same_given(other, toggles, entries)
    }
}

/// Whether every entry of a list is a divider.
pub open spec fn only_dividers(entries: Seq<AppLauncherChildVariant>) -> bool {
    forall|i: int| 0 <= i < entries.len() ==> (#[trigger] entries[i]).child() is Divider
}

/// Whether two lists of entries are of one length and each entry is like its
/// counterpart.
pub open spec fn entries_alike(
    left: Seq<AppLauncherChildVariant>,
    right: Seq<AppLauncherChildVariant>,
) -> bool {
    &&& left.len() == right.len()
    &&& forall|i: int|
        0 <= i < left.len() ==> (#[trigger] left[i]).child().alike(right[i].child())
}

/// The entries that a list of children holds, from first to last.
pub uninterp spec fn launcher_entries(
    children: yew::html::ChildrenRenderer<AppLauncherChildVariant>,
) -> Seq<AppLauncherChildVariant>;

/// `ChildrenRenderer::iter`, collected: hands out the entries from first to
/// last, each as the copy that its own `clone` makes.
#[verifier::external_body]
fn entries_of(children: &ChildrenRenderer<AppLauncherChildVariant>) -> (entries: Vec<
    AppLauncherChildVariant,
>)
    ensures
        entries@.len() == launcher_entries(*children).len(),
        forall|i: int|
            0 <= i < entries@.len() ==> cloned(
                launcher_entries(*children)[i],
                #[trigger] entries@[i],
            ),
{
    children.iter().collect()
}

/// Compares two lists of entries, one by one. Lists that are found the same
/// are alike; lists of dividers that are alike are found the same.
pub fn same_entries(
    left: &ChildrenRenderer<AppLauncherChildVariant>,
    right: &ChildrenRenderer<AppLauncherChildVariant>,
) -> (same: bool)
    ensures
        same ==> entries_alike(launcher_entries(*left), launcher_entries(*right)),
        (entries_alike(launcher_entries(*left), launcher_entries(*right)) && only_dividers(
            launcher_entries(*left),
        )) ==> same,
{
    let mine = entries_of(left);
    let theirs = entries_of(right);
    proof {
        assert forall|i: int| 0 <= i < mine@.len() implies mine@[i] == launcher_entries(
            *left,
        )[i] by {
            assert(cloned(launcher_entries(*left)[i], mine@[i]));
        }
        assert forall|i: int| 0 <= i < theirs@.len() implies theirs@[i] == launcher_entries(
            *right,
        )[i] by {
            assert(cloned(launcher_entries(*right)[i], theirs@[i]));
        }
        assert(mine@ =~= launcher_entries(*left));
        assert(theirs@ =~= launcher_entries(*right));
    }
    if mine.len() != theirs.len() {
        return false;
    }
    let mut at: usize = 0;
    while at < mine.len()
        invariant
            at <= mine@.len(),
            mine@.len() == theirs@.len(),
            mine@ == launcher_entries(*left),
            theirs@ == launcher_entries(*right),
            forall|i: int|
                0 <= i < at ==> (#[trigger] mine@[i]).child().alike(theirs@[i].child()),
        decreases mine@.len() - at,
    {
        if !mine[at].same_as(&theirs[at]) {
            proof {
                if entries_alike(mine@, theirs@) && only_dividers(mine@) {
                    assert(mine@[at as int].child() is Divider);
                    assert(mine@[at as int].child().alike(theirs@[at as int].child()));
                }
            }
            return false;
        }
        at += 1;
    }
    true
}

/// What can happen to an [`AppLauncher`].
#[derive(Clone, Copy, Debug, PartialEq, Eq, Structural)]
pub enum Msg {
    /// The toggle button was clicked.
    Toggle,
}

/// The launcher: its properties, and whether its menu is open.
pub struct AppLauncher {
    props: Props,
    expanded: bool,
}

/// What stands inside the toggle button of a launcher.
pub enum Trigger<'a> {
    /// The content that the properties supply.
    Custom(&'a Html),
    /// An icon of the launcher's own choice.
    Icon(Icon),
}

/// Everything that the markup of a launcher depends on.
pub struct AppLauncherView<'a> {
    /// Classes of the enclosing `nav` element.
    pub classes: Classes,
    /// Classes of the menu, a `ul` element.
    pub menu_classes: Classes,
    /// Whether the toggle button is disabled.
    pub disabled: bool,
    /// Whether the menu is hidden.
    pub hidden: bool,
    /// Content of the toggle button.
    pub trigger: Trigger<'a>,
    /// The entries of the menu.
    pub children: &'a ChildrenRenderer<AppLauncherChildVariant>,
}

/// Classes of a launcher's `nav` element: the component class, then the
/// modifier for a menu that opens upwards, then the one for an open menu.
pub open spec fn launcher_classes(position: Position, expanded: bool) -> Seq<Seq<char>> {
    let base = seq!["pf-c-app-launcher"@];
    let placed = if position == Position::Top {
        base.push("pf-m-top"@)
    } else {
        base
    };
    if expanded {
        placed.push("pf-m-expanded"@)
    } else {
        placed
    }
}

/// Classes of a launcher's menu: the element class, then the modifier for a
/// menu that is aligned to the right.
pub open spec fn launcher_menu_classes(position: Position) -> Seq<Seq<char>> {
    let base = seq!["pf-c-app-launcher__menu"@];
    if position == Position::Right {
        base.push("pf-m-align-right"@)
    } else {
        base
    }
}

impl AppLauncher {
    /// The properties that the launcher currently shows.
    pub closed spec fn props(&self) -> Props {
        self.props
    }

    /// Whether the menu is open.
    pub closed spec fn expanded(&self) -> bool {
        self.expanded
    }

    /// A launcher with a closed menu.
    pub fn create(props: Props) -> (launcher: Self)
        ensures
            launcher.props() == props,
            !launcher.expanded(),
    {
        Self { props, expanded: false }
    }

    /// Handles a message: a click on the toggle opens a closed menu and
    /// closes an open one. The launcher is to be rendered again.
    pub fn update(&mut self, msg: Msg) -> (render: bool)
        ensures
            render,
            final(self).expanded() == !old(self).expanded(),
            final(self).props() == old(self).props(),
    {
        match msg {
            Msg::Toggle => {
                self.expanded = !self.expanded;
            },
        }
        true
    }

    /// Takes new properties where `same` says that they differ from the
    /// current ones, and tells whether the launcher is to be rendered again.
    /// The menu stays as it is.
    pub fn replace_props(&mut self, props: Props, same: bool) -> (render: bool)
        ensures
            render == !same,
            final(self).props() == if same {
                old(self).props()
            } else {
                props
            },
            final(self).expanded() == old(self).expanded(),
    {
        if !same {
            self.props = props;
            true
        } else {
            false
        }
    }

    /// Takes new properties if they differ from the current ones, and tells
    /// whether the launcher is to be rendered again. The menu stays as it is.
    pub fn change(&mut self, props: Props) -> (render: bool)
        ensures
            final(self).props() == if render {
                props
            } else {
                old(self).props()
            },
            final(self).expanded() == old(self).expanded(),
            !render ==> old(self).props().alike(props),
            (old(self).props().alike(props) && props.toggle is None && only_dividers(
                launcher_entries(props.children),
            )) ==> !render,
    {
        let same = self.props.same_as(&props);
        self.replace_props(props, same)
    }

    /// Whether the menu is open.
    pub fn is_expanded(&self) -> (expanded: bool)
        ensures
            expanded == self.expanded(),
    {
        self.expanded
    }

    /// The properties that the launcher currently shows.
    pub fn current_props(&self) -> (props: &Props)
        ensures
            *props == self.props(),
    {
        &self.props
    }

    /// The content of the toggle button: what the properties supply, or the
    /// grid icon.
    pub fn render_trigger(&self) -> (trigger: Trigger<'_>)
        ensures
            match self.props().toggle {
                Some(toggle) => trigger == Trigger::Custom(&toggle),
                None => trigger == Trigger::Icon(Icon::Th),
            },
    {
        match &self.props.toggle {
            Some(toggle) => Trigger::Custom(toggle),
            None => Trigger::Icon(Icon::Th),
        }
    }

    /// What the launcher renders in its current state.
    pub fn view(&self) -> (view: AppLauncherView<'_>)
        ensures
            class_names(view.classes) == launcher_classes(self.props().position, self.expanded()),
            class_names(view.menu_classes) == launcher_menu_classes(self.props().position),
            view.disabled == self.props().disabled,
            view.hidden == !self.expanded(),
            match self.props().toggle {
                Some(toggle) => view.trigger == Trigger::Custom(&toggle),
                None => view.trigger == Trigger::Icon(Icon::Th),
            },
            *view.children == self.props().children,
    {
        proof {
            reveal_strlit("pf-c-app-launcher");
            reveal_strlit("pf-c-app-launcher__menu");
            reveal_strlit("pf-m-align-right");
            reveal_strlit("pf-m-top");
            reveal_strlit("pf-m-expanded");
        }
        let mut classes = classes_of("pf-c-app-launcher");
        let mut menu_classes = classes_of("pf-c-app-launcher__menu");
        match self.props.position {
            Position::Left => {},
            Position::Right => {
                proof {
                    assert(class_names(menu_classes)[0] == "pf-c-app-launcher__menu"@);
                    lemma_with_new_class(class_names(menu_classes), "pf-m-align-right"@);
                }
                push_class(&mut menu_classes, "pf-m-align-right");
            },
            Position::Top => {
                proof {
                    assert(class_names(classes)[0] == "pf-c-app-launcher"@);
                    lemma_with_new_class(class_names(classes), "pf-m-top"@);
                }
                push_class(&mut classes, "pf-m-top");
            },
        }
        if self.expanded {
            proof {
                let names = class_names(classes);
                assert(names[0] == "pf-c-app-launcher"@);
                assert(names.len() == 2 ==> names[1] == "pf-m-top"@);
                lemma_with_new_class(names, "pf-m-expanded"@);
            }
            push_class(&mut classes, "pf-m-expanded");
        }
        AppLauncherView {
            classes,
            menu_classes,
            disabled: self.props.disabled,
            hidden: !self.expanded,
            trigger: self.render_trigger(),
            children: &self.props.children,
        }
    }
}

/// An entry of a launcher's menu.
#[derive(PartialEq)]
pub enum AppLauncherChild {
    /// An application.
    Item(AppLauncherItemProps),
    /// A line between two groups of applications.
    Divider(()),
}

impl AppLauncherChild {
    /// Whether two entries are of one kind and, where they are applications,
    /// agree in everything but their content and handlers.
    pub open spec fn alike(self, other: Self) -> bool {
        match (self, other) {
            (AppLauncherChild::Item(left), AppLauncherChild::Item(right)) => left.alike(right),
            (AppLauncherChild::Divider(_), AppLauncherChild::Divider(_)) => true,
            _ => false,
        }
    }

    /// Compares two entries. Entries of different kinds differ; two dividers
    /// are the same; two applications are compared by their properties.
    pub fn same_as(&self, other: &Self) -> (same: bool)
        ensures
            same ==> self.alike(*other),
            (self is Divider && other is Divider) ==> same,
    {
        match (self, other) {
            (AppLauncherChild::Item(left), AppLauncherChild::Item(right)) => left.same_as(right),
            (AppLauncherChild::Divider(_), AppLauncherChild::Divider(_)) => true,
            _ => false,
        }
    }
}

impl Clone for AppLauncherChild {
    fn clone(&self) -> (copy: Self)
        ensures
            copy == *self,
    {
        match self {
            AppLauncherChild::Item(props) => AppLauncherChild::Item(props.clone()),
            AppLauncherChild::Divider(_) => AppLauncherChild::Divider(()),
        }
    }
}

impl From<AppLauncherItemProps> for AppLauncherChild {
    fn from(props: AppLauncherItemProps) -> (child: Self) {
        AppLauncherChild::Item(props)
    }
}

impl vstd::std_specs::convert::FromSpecImpl<AppLauncherItemProps> for AppLauncherChild {
    open spec fn obeys_from_spec() -> bool {
        true
    }

    open spec fn from_spec(props: AppLauncherItemProps) -> Self {
        AppLauncherChild::Item(props)
    }
}

impl From<()> for AppLauncherChild {
    fn from(props: ()) -> (child: Self) {
        AppLauncherChild::Divider(props)
    }
}

impl vstd::std_specs::convert::FromSpecImpl<()> for AppLauncherChild {
    open spec fn obeys_from_spec() -> bool {
        true
    }

    open spec fn from_spec(props: ()) -> Self {
        AppLauncherChild::Divider(props)
    }
}

/// An entry of a launcher's menu, as the launcher's properties hold it.
#[derive(PartialEq)]
pub struct AppLauncherChildVariant {
    props: AppLauncherChild,
}

impl Clone for AppLauncherChildVariant {
    fn clone(&self) -> (copy: Self)
        ensures
            copy == *self,
    {
        Self { props: self.props.clone() }
    }
}

impl AppLauncherChildVariant {
    /// The entry that this value wraps.
    pub closed spec fn child(self) -> AppLauncherChild {
        self.props
    }

    /// The entry that this value wraps.
    pub fn props(&self) -> (child: &AppLauncherChild)
        ensures
            *child == self.child(),
    {
        &self.props
    }

    /// Unwraps the entry, so that the component that belongs to it can be
    /// instantiated.
    pub fn into_child(self) -> (child: AppLauncherChild)
        ensures
            child == self.child(),
    {
        self.props
    }

    /// The variant that is made from an entry wraps that entry.
    pub proof fn lemma_from_child(child: AppLauncherChild)
        ensures
            <Self as vstd::std_specs::convert::FromSpec<AppLauncherChild>>::from_spec(child).child()
                == child,
    {
    }

    /// Compares the wrapped entries.
    pub fn same_as(&self, other: &Self) -> (same: bool)
        ensures
            same ==> self.child().alike(other.child()),
            (self.child() is Divider && other.child() is Divider) ==> same,
    {
        self.props.same_as(&other.props)
    }
}

impl From<AppLauncherChild> for AppLauncherChildVariant {
    fn from(child: AppLauncherChild) -> (variant: Self) {
        Self { props: child }
    }
}

impl vstd::std_specs::convert::FromSpecImpl<AppLauncherChild> for AppLauncherChildVariant {
    open spec fn obeys_from_spec() -> bool {
        true
    }

    closed spec fn from_spec(child: AppLauncherChild) -> Self {
        Self { props: child }
    }
}

/// Properties of an [`AppLauncherItem`].
#[derive(PartialEq)]
pub struct AppLauncherItemProps {
    /// The content of the entry.
    pub children: ChildrenRenderer<Html>,
    /// Where the entry leads, unless it has a click handler.
    pub href: String,
    /// Called when the entry is clicked. An entry with a handler is a button,
    /// one without is a link.
    pub onclick: Option<Callback<()>>,
    /// Whether the link leaves the application.
    pub external: bool,
}

impl Clone for AppLauncherItemProps {
    fn clone(&self) -> (copy: Self)
        ensures
            copy == *self,
    {
        let onclick = match &self.onclick {
            Some(onclick) => Some(onclick.clone()),
            None => None,
        };
        Self {
            children: copy_of_content(&self.children),
            href: self.href.clone(),
            onclick,
            external: self.external,
        }
    }
}

impl AppLauncherItemProps {
    /// Whether two sets of properties agree in everything but their content
    /// and handlers: the same address, both external or neither, both with a
    /// click handler or neither.
    pub open spec fn alike(self, other: Self) -> bool {
        &&& self.href@ == other.href@
        &&& self.external == other.external
        &&& (self.onclick is Some <==> other.onclick is Some)
    }

    /// Combines the comparison of two sets of properties. `handlers` is the
    /// answer for the two click handlers, where both sets have one;
    /// `content` is the answer for the content.
    pub fn same_given(&self, other: &Self, handlers: bool, content: bool) -> (same: bool)
        ensures
            same == (self.alike(*other) && (self.onclick is Some ==> handlers) && content),
    {
        let handler = match (&self.onclick, &other.onclick) {
            (Some(_), Some(_)) => handlers,
            (None, None) => true,
            _ => false,
        };
        handler && self.external == other.external && self.href == other.href && content
    }

    /// Whether nothing is left for Yew to decide when two sets of properties
    /// are compared: neither has a click handler, neither has content.
    pub open spec fn bare(self, other: Self) -> bool {
        &&& self.onclick is None
        &&& other.onclick is None
        &&& content_nodes(self.children).len() == 0
        &&& content_nodes(other.children).len() == 0
    }

    /// Compares two sets of properties field by field. Content and handlers
    /// are compared by Yew; whatever it answers, properties that are found
    /// the same are alike and have as many pieces of content. Where there is
    /// nothing for Yew to decide, properties that are alike are found the
    /// same.
    pub fn same_as(&self, other: &Self) -> (same: bool)
        ensures
            same ==> self.alike(*other),
            same ==> content_nodes(self.children).len() == content_nodes(other.children).len(),
            (self.alike(*other) && self.bare(*other)) ==> same,
    {
        let handlers = match (&self.onclick, &other.onclick) {
            (Some(left), Some(right)) => same_callback(left, right),
            _ => true,
        };
        let content = same_children(&self.children, &other.children);
        self.same_given(other, handlers, content)
    }
}

/// An application in a launcher's menu.
#[derive(Clone, PartialEq)]
pub struct AppLauncherItem {
    props: AppLauncherItemProps,
}

/// The element that makes an application clickable.
pub enum ItemAction<'a> {
    /// A button that calls a handler.
    Button {
        /// Classes of the button.
        classes: Classes,
        /// The handler to call.
        onclick: &'a Callback<()>,
    },
    /// A link, an `a` element.
    Link {
        /// Classes of the link.
        classes: Classes,
        /// The `target` attribute: a new window for an external link.
        target: &'static str,
        /// The `href` attribute.
        href: &'a String,
        /// The icon that follows the content of an external link.
        external_icon: Option<Icon>,
    },
}

/// Everything that the markup of an application entry depends on.
pub struct AppLauncherItemView<'a> {
    /// The element that stands inside the list item.
    pub action: ItemAction<'a>,
    /// The content of that element.
    pub children: &'a ChildrenRenderer<Html>,
}

/// Classes of the link of an application entry: the element class, then the
/// modifier for a link that leaves the application.
pub open spec fn item_link_classes(external: bool) -> Seq<Seq<char>> {
    let base = seq!["pf-c-app-launcher__menu-item"@];
    if external {
        base.push("pf-m-external"@)
    } else {
        base
    }
}

impl AppLauncherItem {
    /// The properties that the entry currently shows.
    pub closed spec fn props(&self) -> AppLauncherItemProps {
        self.props
    }

    /// An entry with the given properties.
    pub fn create(props: AppLauncherItemProps) -> (item: Self)
        ensures
            item.props() == props,
    {
        Self { props }
    }

    /// An entry takes no messages of its own; it is rendered again anyway.
    pub fn update(&mut self, msg: ()) -> (render: bool)
        ensures
            render,
            final(self).props() == old(self).props(),
    {
        true
    }

    /// Takes new properties where `same` says that they differ from the
    /// current ones, and tells whether the entry is to be rendered again.
    pub fn replace_props(&mut self, props: AppLauncherItemProps, same: bool) -> (render: bool)
        ensures
            render == !same,
            final(self).props() == if same {
                old(self).props()
            } else {
                props
            },
    {
        if !same {
            self.props = props;
            true
        } else {
            false
        }
    }

    /// Takes new properties if they differ from the current ones, and tells
    /// whether the entry is to be rendered again. Properties that are not
    /// alike, or differ in the number of pieces of content, are taken; alike
    /// properties without handlers and content are not.
    pub fn change(&mut self, props: AppLauncherItemProps) -> (render: bool)
        ensures
            final(self).props() == if render {
                props
            } else {
                old(self).props()
            },
            !render ==> old(self).props().alike(props),
            !render ==> content_nodes(old(self).props().children).len() == content_nodes(
                props.children,
            ).len(),
            (old(self).props().alike(props) && old(self).props().bare(props)) ==> !render,
    {
        let same = self.props.same_as(&props);
        self.replace_props(props, same)
    }

    /// The properties that the entry currently shows.
    pub fn current_props(&self) -> (props: &AppLauncherItemProps)
        ensures
            *props == self.props(),
    {
        &self.props
    }

    /// What the entry renders: a button where there is a click handler, a
    /// link where there is none.
    pub fn view(&self) -> (view: AppLauncherItemView<'_>)
        ensures
            *view.children == self.props().children,
            match self.props().onclick {
                Some(handler) => {
                    &&& view.action matches ItemAction::Button { classes, onclick }
                    &&& *onclick == handler
                    &&& class_names(classes) == seq!["pf-c-app-launcher__menu-item"@]
                },
                None => {
                    &&& view.action matches ItemAction::Link {
                        classes,
                        target,
                        href,
                        external_icon,
                    }
                    &&& class_names(classes) == item_link_classes(self.props().external)
                    &&& target@ == if self.props().external {
                        "_blank"@
                    } else {
                        ""@
                    }
                    &&& *href == self.props().href
                    &&& external_icon == if self.props().external {
                        Some(Icon::ExternalLinkAlt)
                    } else {
                        None
                    }
                },
            },
    {
        proof {
            reveal_strlit("pf-c-app-launcher__menu-item");
            reveal_strlit("pf-m-external");
        }
        let mut classes = classes_of("pf-c-app-launcher__menu-item");
        let action = match &self.props.onclick {
            Some(onclick) => ItemAction::Button { classes, onclick },
            None => {
                if self.props.external {
                    proof {
                        assert(class_names(classes)[0] == "pf-c-app-launcher__menu-item"@);
                        lemma_with_new_class(class_names(classes), "pf-m-external"@);
                    }
                    push_class(&mut classes, "pf-m-external");
                    ItemAction::Link {
                        classes,
                        target: "_blank",
                        href: &self.props.href,
                        external_icon: Some(Icon::ExternalLinkAlt),
                    }
                } else {
                    ItemAction::Link {
                        classes,
                        target: "",
                        href: &self.props.href,
                        external_icon: None,
                    }
                }
            },
        };
        AppLauncherItemView { action, children: &self.props.children }
    }
}

} // verus!
