use vstd::prelude::*;

verus! {

pub type MenuId = u32;

/// What activating a menu item does.
#[derive(Debug, Clone)]
pub enum MenuItemType {
    /// Execute a shell command.
    Exec(String),
    /// Open a submenu (submenu_id, submenu_label).
    Submenu(MenuId, String),
    /// Exit the window manager.
    Exit,
    /// Restart the window manager.
    Restart,
    /// Re-read config.
    Reconfig,
    /// Separator line.
    Separator,
    /// Included submenu from another file.
    Include(String),
    /// Workspaces list (generated).
    Workspaces,
    /// Switch to a specific workspace.
    Workspace(u32),
    /// Create a new workspace.
    WorkspaceCreate,
    /// Rename a workspace (the workspace index).
    WorkspaceRename(u32),
    /// Open an interactive "Run Command" dialog.
    RunDialog,
    /// No operation (label-only, disabled).
    Nop,
}

/// A menu item type with its texts as character sequences.
pub enum KindView {
    Exec(Seq<char>),
    Submenu(u32, Seq<char>),
    Exit,
    Restart,
    Reconfig,
    Separator,
    Include(Seq<char>),
    Workspaces,
    Workspace(u32),
    WorkspaceCreate,
    WorkspaceRename(u32),
    RunDialog,
    Nop,
}

pub open spec fn kind_view(t: MenuItemType) -> KindView {
    match t {
        MenuItemType::Exec(s) => KindView::Exec(s@),
        MenuItemType::Submenu(id, s) => KindView::Submenu(id, s@),
        MenuItemType::Exit => KindView::Exit,
        MenuItemType::Restart => KindView::Restart,
        MenuItemType::Reconfig => KindView::Reconfig,
        MenuItemType::Separator => KindView::Separator,
        MenuItemType::Include(s) => KindView::Include(s@),
        MenuItemType::Workspaces => KindView::Workspaces,
        MenuItemType::Workspace(n) => KindView::Workspace(n),
        MenuItemType::WorkspaceCreate => KindView::WorkspaceCreate,
        MenuItemType::WorkspaceRename(n) => KindView::WorkspaceRename(n),
        MenuItemType::RunDialog => KindView::RunDialog,
        MenuItemType::Nop => KindView::Nop,
    }
}

/// A menu item: what it shows, what it does, and whether it can be chosen.
pub struct ItemView {
    pub label: Seq<char>,
    pub kind: KindView,
    pub enabled: bool,
}

/// The item that `MenuItem::new(label, kind)` builds: separators and no-ops
/// are disabled, everything else is enabled.
pub open spec fn new_item(label: Seq<char>, kind: KindView) -> ItemView {
    ItemView {
        label,
        kind,
        enabled: !(kind is Separator || kind is Nop),
    }
}

/// One entry of a menu.
#[derive(Debug, Clone)]
pub struct MenuItem {
    label: String,
    item_type: MenuItemType,
    enabled: bool,
}

impl MenuItem {
    pub closed spec fn view(&self) -> ItemView {
        ItemView { label: self.label@, kind: kind_view(self.item_type), enabled: self.enabled }
    }

    pub fn new(label: &str, item_type: MenuItemType) -> (r: MenuItem)
        ensures
            r.view() == new_item(label@, kind_view(item_type)),
    {
        let enabled = match item_type {
            MenuItemType::Separator => false,
            MenuItemType::Nop => false,
            _ => true,
        };
        MenuItem { label: String::from_str(label), item_type, enabled }
    }

    /// A separator line (empty label, disabled).
    pub fn separator() -> (r: MenuItem)
        ensures
            r.view() == new_item(seq![], KindView::Separator),
    {
        let label = String::new();
        MenuItem { label, item_type: MenuItemType::Separator, enabled: false }
    }

    pub fn label(&self) -> (r: &str)
        ensures
            r@ == self.view().label,
    {
        self.label.as_str()
    }

    pub fn item_type(&self) -> (r: &MenuItemType)
        ensures
            kind_view(*r) == self.view().kind,
    {
        &self.item_type
    }

    pub fn is_enabled(&self) -> (r: bool)
        ensures
            r == self.view().enabled,
    {
        self.enabled
    }
}

} // verus!
