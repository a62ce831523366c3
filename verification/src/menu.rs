use vstd::prelude::*;

use crate::APP_TITLE;

verus! {

/// Label of the entry that ends the application.
pub const QUIT_LABEL: &'static str = "Quit";

/// The title only shows the application's name: it cannot be clicked.
pub const TITLE_ENABLED: bool = false;

/// Quit is the one entry that can be clicked.
pub const QUIT_ENABLED: bool = true;

/// Identifier that the tray subsystem assigns to a menu entry.
///
/// Two identifiers are the same when their text is the same; where an
/// identifier is stored plays no part.
#[derive(Debug)]
pub struct MenuId(pub String);

impl View for MenuId {
    type V = Seq<char>;

    open spec fn view(&self) -> Seq<char> {
        self.0@
    }
}

impl MenuId {
    pub fn new(id: &str) -> (created: MenuId)
        ensures
            created@ == id@,
    {
        MenuId(id.to_owned())
    }
}

impl Clone for MenuId {
    fn clone(&self) -> (copy: MenuId)
        ensures
            copy == *self,
    {
        MenuId(self.0.clone())
    }
}

impl PartialEq for MenuId {
    fn eq(&self, other: &MenuId) -> (same: bool) {
        self.0 == other.0
    }
}

impl vstd::std_specs::cmp::PartialEqSpecImpl for MenuId {
    open spec fn obeys_eq_spec() -> bool {
        true
    }

    open spec fn eq_spec(&self, other: &MenuId) -> bool {
        self@ == other@
    }
}

/// What a menu entry is: its identifier, its label and whether it can be
/// clicked.
pub struct MenuItemView {
    pub id: Seq<char>,
    pub text: Seq<char>,
    pub enabled: bool,
}

/// One entry of the tray menu. It does not change once made.
#[derive(Debug)]
pub struct MenuItem {
    id: MenuId,
    text: String,
    enabled: bool,
}

impl View for MenuItem {
    type V = MenuItemView;

    closed spec fn view(&self) -> MenuItemView {
        MenuItemView { id: self.id@, text: self.text@, enabled: self.enabled }
    }
}

impl MenuItem {
    pub fn new(id: MenuId, text: &str, enabled: bool) -> (item: MenuItem)
        ensures
            item@ == (MenuItemView { id: id@, text: text@, enabled }),
    {
        MenuItem { id, text: text.to_owned(), enabled }
    }

    pub fn id(&self) -> (id: &MenuId)
        ensures
            id@ == self@.id,
    {
        &self.id
    }

    pub fn text(&self) -> (text: &str)
        ensures
            text@ == self@.text,
    {
        self.text.as_str()
    }

    pub fn is_enabled(&self) -> (enabled: bool)
        ensures
            enabled == self@.enabled,
    {
        self.enabled
    }
}

impl Clone for MenuItem {
    fn clone(&self) -> (copy: MenuItem)
        ensures
            copy@ == self@,
    {
        MenuItem { id: self.id.clone(), text: self.text.clone(), enabled: self.enabled }
    }
}

/// The disabled entry that shows the application's name.
pub open spec fn title_entry(id: Seq<char>) -> MenuItemView {
    MenuItemView { id, text: APP_TITLE@, enabled: TITLE_ENABLED }
}

/// The enabled entry that ends the application.
pub open spec fn quit_entry(id: Seq<char>) -> MenuItemView {
    MenuItemView { id, text: QUIT_LABEL@, enabled: QUIT_ENABLED }
}

/// The two entries of the tray menu, as values.
pub struct TrayIconMenuItemView {
    pub title: MenuItemView,
    pub quit: MenuItemView,
}

impl TrayIconMenuItemView {
    /// The title is the disabled entry with the application's name, and
    /// quit is the enabled entry labelled "Quit".
    pub open spec fn wf(self) -> bool {
        &&& self.title == title_entry(self.title.id)
        &&& self.quit == quit_entry(self.quit.id)
    }
}

/// The two entries that exist for the whole life of the application.
#[derive(Debug)]
pub struct TrayIconMenuItem {
    title: MenuItem,
    quit: MenuItem,
}

impl View for TrayIconMenuItem {
    type V = TrayIconMenuItemView;

    closed spec fn view(&self) -> TrayIconMenuItemView {
        TrayIconMenuItemView { title: self.title@, quit: self.quit@ }
    }
}

impl TrayIconMenuItem {
    #[verifier::type_invariant]
    closed spec fn inv(&self) -> bool {
        self@.wf()
    }

    /// Makes the two entries under the identifiers that the tray subsystem
    /// gave them.
    pub fn new(title_id: MenuId, quit_id: MenuId) -> (pair: TrayIconMenuItem)
        ensures
            pair@.title == title_entry(title_id@),
            pair@.quit == quit_entry(quit_id@),
    {
        let title = MenuItem::new(title_id, APP_TITLE, TITLE_ENABLED);
        let quit = MenuItem::new(quit_id, QUIT_LABEL, QUIT_ENABLED);
        TrayIconMenuItem { title, quit }
    }

    pub fn title(&self) -> (title: &MenuItem)
        ensures
            title@ == self@.title,
            self@.wf(),
    {
        proof {
            use_type_invariant(self);
        }
        &self.title
    }

    pub fn quit(&self) -> (quit: &MenuItem)
        ensures
            quit@ == self@.quit,
            self@.wf(),
    {
        proof {
            use_type_invariant(self);
        }
        &self.quit
    }
}

impl Clone for TrayIconMenuItem {
    fn clone(&self) -> (copy: TrayIconMenuItem)
        ensures
            copy@ == self@,
    {
        proof {
            use_type_invariant(self);
        }
        TrayIconMenuItem { title: self.title.clone(), quit: self.quit.clone() }
    }
}

/// A click on a menu entry, as the tray subsystem reports it.
#[derive(Debug)]
pub struct MenuEvent {
    pub id: MenuId,
}

impl Clone for MenuEvent {
    fn clone(&self) -> (copy: MenuEvent)
        ensures
            copy == *self,
    {
        MenuEvent { id: self.id.clone() }
    }
}

/// The entries after an append that the platform answered with `outcome`.
pub open spec fn appended(
    entries: Seq<MenuItemView>,
    item: MenuItemView,
    outcome: Result<(), String>,
) -> Seq<MenuItemView> {
    if outcome is Ok {
        entries.push(item)
    } else {
        entries
    }
}

/// The entries of a tray menu, in the order in which they are shown.
#[derive(Debug)]
pub struct Menu {
    items: Vec<MenuItem>,
}

impl View for Menu {
    type V = Seq<MenuItemView>;

    closed spec fn view(&self) -> Seq<MenuItemView> {
        self.items@.map_values(|item: MenuItem| item@)
    }
}

impl Menu {
    pub fn new() -> (menu: Menu)
        ensures
            menu@ == Seq::<MenuItemView>::empty(),
    {
        Menu { items: Vec::new() }
    }

    /// Records what the platform answered when it was asked to append
    /// `item`. An entry that the platform took becomes the last entry. One
    /// that it rejected is left out, and the platform's words come back to
    /// be logged; the menu is built on with what succeeded.
    pub fn append(&mut self, item: MenuItem, outcome: Result<(), String>) -> (diagnostic: Option<String>)
        ensures
            final(self)@ == appended(old(self)@, item@, outcome),
            diagnostic.is_some() == outcome.is_err(),
            diagnostic matches Some(text) ==> (outcome matches Err(reason) && text@ == reason@),
    {
        match outcome {
            Ok(()) => {
                self.items.push(item);
                assert(self@ =~= old(self)@.push(item@));
                None
            },
            Err(reason) => Some(reason),
        }
    }

    pub fn len(&self) -> (count: usize)
        ensures
            count == self@.len(),
    {
        self.items.len()
    }

    pub fn get(&self, index: usize) -> (item: Option<&MenuItem>)
        ensures
            match item {
                Some(found) => index < self@.len() && found@ == self@[index as int],
                None => index >= self@.len(),
            },
    {
        if index < self.items.len() {
            Some(&self.items[index])
        } else {
            None
        }
    }
}

} // verus!
