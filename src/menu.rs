//! The window menu, as a tree of plain values. Each entry of a menu is a
//! native item of the operating system, an item of the application's own
//! (with the id its click event carries), or a titled submenu.
use vstd::prelude::*;

verus! {

/// A menu item whose behaviour the operating system provides.
#[derive(Clone, Copy, Debug, PartialEq, Eq, Structural)]
pub enum NativeItem {
    Copy,
    Cut,
    Paste,
    SelectAll,
    Separator,
}

/// An item of the application's own: `id` names the item in its click
/// event, `title` is the text shown.
pub struct CustomMenuItem {
    pub id: String,
    pub title: String,
}

/// A titled submenu.
pub struct Submenu {
    pub title: String,
    pub menu: Menu,
}

/// One entry of a menu.
pub enum MenuEntry {
    Native(NativeItem),
    Custom(CustomMenuItem),
    Submenu(Submenu),
}

/// A menu: its entries, in the order they are shown.
pub struct Menu {
    pub entries: Vec<MenuEntry>,
}

/// Whether `e` is the application's own item with this id and title.
pub open spec fn is_custom_entry(e: MenuEntry, id: Seq<char>, title: Seq<char>) -> bool {
    match e {
        MenuEntry::Custom(c) => c.id@ == id && c.title@ == title,
        _ => false,
    }
}

/// Whether `m` is the application's window menu: the native Copy item,
/// then a "File" submenu that holds the "quit" item, then the "close" item,
/// and nothing else at either level.
pub open spec fn is_app_menu(m: Menu) -> bool {
    &&& m.entries@.len() == 2
    &&& m.entries@[0] == MenuEntry::Native(NativeItem::Copy)
    &&& match m.entries@[1] {
        MenuEntry::Submenu(s) => {
            &&& s.title@ == "File"@
            &&& s.menu.entries@.len() == 2
            &&& is_custom_entry(s.menu.entries@[0], "quit"@, "Quit"@)
            &&& is_custom_entry(s.menu.entries@[1], "close"@, "Close"@)
        },
        _ => false,
    }
}

impl CustomMenuItem {
    /// An item with the given id and title.
    pub fn new(id: String, title: &str) -> (r: CustomMenuItem)
        ensures
            r.id@ == id@,
            r.title@ == title@,
    {
        CustomMenuItem { id, title: title.to_owned() }
    }
}

impl Submenu {
    /// A submenu with the given title and contents.
    pub fn new(title: &str, menu: Menu) -> (r: Submenu)
        ensures
            r.title@ == title@,
            r.menu == menu,
    {
        Submenu { title: title.to_owned(), menu }
    }
}

impl Menu {
    /// A menu with no entries.
    pub fn new() -> (r: Menu)
        ensures
            r.entries@ == Seq::<MenuEntry>::empty(),
    {
        Menu { entries: Vec::new() }
    }

    /// This menu with `item` added after its entries.
    pub fn add_item(self, item: CustomMenuItem) -> (r: Menu)
        ensures
            r.entries@ == self.entries@.push(MenuEntry::Custom(item)),
    {
        let mut entries = self.entries;
        entries.push(MenuEntry::Custom(item));
        Menu { entries }
    }

    /// This menu with the native item `item` added after its entries.
    pub fn add_native_item(self, item: NativeItem) -> (r: Menu)
        ensures
            r.entries@ == self.entries@.push(MenuEntry::Native(item)),
    {
        let mut entries = self.entries;
        entries.push(MenuEntry::Native(item));
        Menu { entries }
    }

    /// This menu with `submenu` added after its entries.
    pub fn add_submenu(self, submenu: Submenu) -> (r: Menu)
        ensures
            r.entries@ == self.entries@.push(MenuEntry::Submenu(submenu)),
    {
        let mut entries = self.entries;
        entries.push(MenuEntry::Submenu(submenu));
        Menu { entries }
    }
}

/// The application's window menu.
pub fn app_menu() -> (r: Menu)
    ensures
        is_app_menu(r),
{
    let quit = CustomMenuItem::new("quit".to_owned(), "Quit");
    let close = CustomMenuItem::new("close".to_owned(), "Close");
    let submenu = Submenu::new("File", Menu::new().add_item(quit).add_item(close));
    Menu::new().add_native_item(NativeItem::Copy).add_submenu(submenu)
}

} // verus!
