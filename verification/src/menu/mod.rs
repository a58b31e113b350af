//! Menus: the window manager's own menu model, the root-menu item type and
//! the menu-file parser.
pub mod layout;
pub mod menuitem;
pub mod parser;

use vstd::prelude::*;
use crate::command::{Command, ExecCommand};

verus! {

/// The menus on screen and the path of open submenus.
pub struct MenuSystem {
    root_menus: Vec<Menu>,
    menu_stack: Vec<u32>,
    current_menu: Option<u32>,
    visible: bool,
}

impl MenuSystem {
    pub closed spec fn menus_view(&self) -> Seq<Menu> {
        self.root_menus@
    }

    pub closed spec fn stack_view(&self) -> Seq<u32> {
        self.menu_stack@
    }

    pub closed spec fn current_view(&self) -> Option<u32> {
        self.current_menu
    }

    pub closed spec fn visible_view(&self) -> bool {
        self.visible
    }

    /// No menus, none open, nothing shown.
    pub fn new() -> (r: Self)
        ensures
            r.menus_view().len() == 0,
            r.stack_view().len() == 0,
            r.current_view() is None,
            !r.visible_view(),
    {
        MenuSystem { root_menus: Vec::new(), menu_stack: Vec::new(), current_menu: None, visible: false }
    }
}

impl Default for MenuSystem {
    fn default() -> (r: Self)
        ensures
            r.menus_view().len() == 0,
            r.stack_view().len() == 0,
            r.current_view() is None,
            !r.visible_view(),
    {
        Self::new()
    }
}

/// A menu: its title, its items, where it stands and whether it is shown.
pub struct Menu {
    id: u32,
    label: String,
    items: Vec<MenuItem>,
    x: i16,
    y: i16,
    width: u16,
    height: u16,
    visible: bool,
}

impl Menu {
    pub closed spec fn id_view(&self) -> u32 {
        self.id
    }

    pub closed spec fn label_view(&self) -> Seq<char> {
        self.label@
    }

    pub closed spec fn items_view(&self) -> Seq<MenuItem> {
        self.items@
    }

    pub closed spec fn position_view(&self) -> (i16, i16) {
        (self.x, self.y)
    }

    pub closed spec fn visible_view(&self) -> bool {
        self.visible
    }

    /// An empty, hidden menu at the origin.
    pub fn new(id: u32, label: &str) -> (r: Self)
        ensures
            r.id_view() == id,
            r.label_view() == label@,
            r.items_view().len() == 0,
            r.position_view() == (0i16, 0i16),
            !r.visible_view(),
    {
        Menu {
            id,
            label: String::from_str(label),
            items: Vec::new(),
            x: 0,
            y: 0,
            width: 0,
            height: 0,
            visible: false,
        }
    }

    pub fn id(&self) -> (r: u32)
        ensures
            r == self.id_view(),
    {
        self.id
    }

    pub fn label(&self) -> (r: &str)
        ensures
            r@ == self.label_view(),
    {
        self.label.as_str()
    }

    /// Append an item.
    pub fn add_item(&mut self, item: MenuItem)
        ensures
            final(self).items_view() == old(self).items_view().push(item),
            final(self).id_view() == old(self).id_view(),
            final(self).label_view() == old(self).label_view(),
            final(self).position_view() == old(self).position_view(),
            final(self).visible_view() == old(self).visible_view(),
    {
        self.items.push(item);
    }

    pub fn items(&self) -> (r: &[MenuItem])
        ensures
            r@ == self.items_view(),
    {
        self.items.as_slice()
    }

    pub fn position(&self) -> (r: (i16, i16))
        ensures
            r == self.position_view(),
    {
        (self.x, self.y)
    }

    /// Move the menu.
    pub fn set_position(&mut self, x: i16, y: i16)
        ensures
            final(self).position_view() == (x, y),
            final(self).items_view() == old(self).items_view(),
            final(self).id_view() == old(self).id_view(),
            final(self).label_view() == old(self).label_view(),
            final(self).visible_view() == old(self).visible_view(),
    {
        self.x = x;
        self.y = y;
    }

    pub fn is_visible(&self) -> (r: bool)
        ensures
            r == self.visible_view(),
    {
        self.visible
    }
}

/// One entry of a menu.
pub struct MenuItem {
    label: String,
    icon: Option<String>,
    item_type: MenuItemType,
    enabled: bool,
    selected: bool,
}

/// What choosing an entry does.
pub enum MenuItemType {
    /// Run a command.
    Normal(Box<dyn Command>),
    /// Open the submenu with this id.
    Submenu(u32),
    Separator,
    Checkmark(bool),
    Radio(bool),
}

impl MenuItem {
    pub closed spec fn label_view(&self) -> Seq<char> {
        self.label@
    }

    pub closed spec fn kind(&self) -> MenuItemType {
        self.item_type
    }

    pub closed spec fn enabled_view(&self) -> bool {
        self.enabled
    }

    /// An enabled entry that runs an empty command line.
    pub fn new(label: &str) -> (r: Self)
        ensures
            r.label_view() == label@,
            r.kind() is Normal,
            r.enabled_view(),
    {
        MenuItem {
            label: String::from_str(label),
            icon: None,
            item_type: MenuItemType::Normal(Box::new(ExecCommand { command: String::new() })),
            enabled: true,
            selected: false,
        }
    }

    /// A disabled separator without a label.
    pub fn separator() -> (r: Self)
        ensures
            r.label_view() == Seq::<char>::empty(),
            r.kind() is Separator,
            !r.enabled_view(),
    {
        MenuItem {
            label: String::new(),
            icon: None,
            item_type: MenuItemType::Separator,
            enabled: false,
            selected: false,
        }
    }

    pub fn label(&self) -> (r: &str)
        ensures
            r@ == self.label_view(),
    {
        self.label.as_str()
    }

    pub fn item_type(&self) -> (r: &MenuItemType)
        ensures
            *r == self.kind(),
    {
        &self.item_type
    }

    pub fn is_enabled(&self) -> (r: bool)
        ensures
            r == self.enabled_view(),
    {
        self.enabled
    }

    pub fn set_enabled(&mut self, enabled: bool)
        ensures
            final(self).enabled_view() == enabled,
            final(self).label_view() == old(self).label_view(),
            final(self).kind() == old(self).kind(),
    {
        self.enabled = enabled;
    }

    /// Make the entry run `command`.
    pub fn set_command(&mut self, command: Box<dyn Command>)
        ensures
            final(self).kind() == MenuItemType::Normal(command),
            final(self).label_view() == old(self).label_view(),
            final(self).enabled_view() == old(self).enabled_view(),
    {
        self.item_type = MenuItemType::Normal(command);
    }

    /// Make the entry open the submenu `menu_id`.
    pub fn set_submenu(&mut self, menu_id: u32)
        ensures
            final(self).kind() == MenuItemType::Submenu(menu_id),
            final(self).label_view() == old(self).label_view(),
            final(self).enabled_view() == old(self).enabled_view(),
    {
        self.item_type = MenuItemType::Submenu(menu_id);
    }
}

} // verus!
