//! Verified presentation logic for PatternFly widgets rendered with Yew.
//!
//! Every widget is split in two: the decisions (which classes an element
//! carries, what is hidden, how transient state moves) are made here and
//! proved against their contracts; the markup itself is produced by the Yew
//! bindings that sit on top of this crate.

pub mod app_launcher;
pub mod components;
pub mod html;
pub mod icon;
pub mod utils;

pub use app_launcher::{
    AppLauncher, AppLauncherChild, AppLauncherChildVariant, AppLauncherItem, AppLauncherItemProps,
    AppLauncherView, Msg, Props, Trigger,
};
pub use icon::Icon;
pub use utils::{Orientation, Position};
