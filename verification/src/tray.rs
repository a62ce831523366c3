use vstd::prelude::*;

use crate::icon::{IconImage, Rgba8};
use crate::menu::{Menu, MenuItemView};

verus! {

/// What a tray icon is made of, as values.
pub struct TrayIconView {
    pub icon: Rgba8,
    pub tooltip: Seq<char>,
    pub menu: Seq<MenuItemView>,
}

/// A tray icon: the decoded picture, the tooltip and the menu that opens
/// from it.
#[derive(Debug)]
pub struct TrayIcon {
    icon: IconImage,
    tooltip: String,
    menu: Menu,
}

impl View for TrayIcon {
    type V = TrayIconView;

    closed spec fn view(&self) -> TrayIconView {
        TrayIconView { icon: self.icon@, tooltip: self.tooltip@, menu: self.menu@ }
    }
}

impl TrayIcon {
    pub fn new(icon: IconImage, tooltip: &str, menu: Menu) -> (tray: TrayIcon)
        ensures
            tray@ == (TrayIconView { icon: icon@, tooltip: tooltip@, menu: menu@ }),
    {
        TrayIcon { icon, tooltip: tooltip.to_owned(), menu }
    }

    pub fn icon(&self) -> (icon: &IconImage)
        ensures
            icon@ == self@.icon,
    {
        &self.icon
    }

    pub fn tooltip(&self) -> (tooltip: &str)
        ensures
            tooltip@ == self@.tooltip,
    {
        self.tooltip.as_str()
    }

    pub fn menu(&self) -> (menu: &Menu)
        ensures
            menu@ == self@.menu,
    {
        &self.menu
    }
}

} // verus!
