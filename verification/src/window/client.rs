use vstd::prelude::*;

verus! {

pub type WindowId = u32;

#[derive(Debug, Clone, Copy, PartialEq, Eq, Structural)]
pub enum WindowType {
    Desktop,
    Dock,
    Toolbar,
    Menu,
    Utility,
    Splash,
    Dialog,
    Normal,
    DropdownMenu,
    PopupMenu,
    Tooltip,
    Notification,
    Combo,
    Dnd,
}

/// The window type numbered `n` in `_NET_WM_WINDOW_TYPE_*` order (desktop,
/// dock, toolbar, menu, utility, splash, dialog, normal, dropdown menu,
/// popup menu, tooltip, notification, combo, dnd); normal past the end.
pub open spec fn window_type_of(n: u32) -> WindowType {
    if n == 0 {
        WindowType::Desktop
    } else if n == 1 {
        WindowType::Dock
    } else if n == 2 {
        WindowType::Toolbar
    } else if n == 3 {
        WindowType::Menu
    } else if n == 4 {
        WindowType::Utility
    } else if n == 5 {
        WindowType::Splash
    } else if n == 6 {
        WindowType::Dialog
    } else if n == 7 {
        WindowType::Normal
    } else if n == 8 {
        WindowType::DropdownMenu
    } else if n == 9 {
        WindowType::PopupMenu
    } else if n == 10 {
        WindowType::Tooltip
    } else if n == 11 {
        WindowType::Notification
    } else if n == 12 {
        WindowType::Combo
    } else if n == 13 {
        WindowType::Dnd
    } else {
        WindowType::Normal
    }
}

impl WindowType {
    pub fn from_atom(atom: u32) -> (r: Self)
        ensures
            r == window_type_of(atom),
    {
        match atom {
            0 => WindowType::Desktop,
            1 => WindowType::Dock,
            2 => WindowType::Toolbar,
            3 => WindowType::Menu,
            4 => WindowType::Utility,
            5 => WindowType::Splash,
            6 => WindowType::Dialog,
            7 => WindowType::Normal,
            8 => WindowType::DropdownMenu,
            9 => WindowType::PopupMenu,
            10 => WindowType::Tooltip,
            11 => WindowType::Notification,
            12 => WindowType::Combo,
            13 => WindowType::Dnd,
            _ => WindowType::Normal,
        }
    }
}

/// A managed client window.
#[derive(Debug, Clone)]
pub struct WinClient {
    window: WindowId,
    frame: Option<WindowId>,
    parent: WindowId,
    x: i16,
    y: i16,
    width: u16,
    height: u16,
    border_width: u16,
    desktop: u32,
    name: String,
    icon_name: String,
    class_name: String,
    class_instance: String,
    role: String,
    window_type: WindowType,
    transient_for: Option<WindowId>,
    pid: u32,
    has_focus: bool,
    urgent: bool,
    mapped: bool,
}

/// What a client's accessors report.
pub struct ClientView {
    pub window: WindowId,
    pub frame: Option<WindowId>,
    pub parent: WindowId,
    pub name: Seq<char>,
    pub class_name: Seq<char>,
    pub class_instance: Seq<char>,
    pub window_type: WindowType,
    pub has_focus: bool,
    pub urgent: bool,
    pub mapped: bool,
}

impl WinClient {
    pub closed spec fn view(&self) -> ClientView {
        ClientView {
            window: self.window,
            frame: self.frame,
            parent: self.parent,
            name: self.name@,
            class_name: self.class_name@,
            class_instance: self.class_instance@,
            window_type: self.window_type,
            has_focus: self.has_focus,
            urgent: self.urgent,
            mapped: self.mapped,
        }
    }

    /// A new client of `window` under `parent`: no frame, empty names, a
    /// normal window, neither focused, urgent nor mapped.
    pub fn new(window: WindowId, parent: WindowId) -> (r: Self)
        ensures
            r.view() == (ClientView {
                window,
                frame: None,
                parent,
                name: seq![],
                class_name: seq![],
                class_instance: seq![],
                window_type: WindowType::Normal,
                has_focus: false,
                urgent: false,
                mapped: false,
            }),
    {
        let r = WinClient {
            window,
            frame: None,
            parent,
            x: 0,
            y: 0,
            width: 1,
            height: 1,
            border_width: 0,
            desktop: 0,
            name: String::new(),
            icon_name: String::new(),
            class_name: String::new(),
            class_instance: String::new(),
            role: String::new(),
            window_type: WindowType::Normal,
            transient_for: None,
            pid: 0,
            has_focus: false,
            urgent: false,
            mapped: false,
        };
        assert(r.view().name =~= seq![]);
        r
    }

    pub fn window(&self) -> (r: WindowId)
        ensures
            r == self.view().window,
    {
        self.window
    }

    pub fn frame(&self) -> (r: Option<WindowId>)
        ensures
            r == self.view().frame,
    {
        self.frame
    }

    pub fn set_frame(&mut self, frame: WindowId)
        ensures
            final(self).view() == (ClientView { frame: Some(frame), ..old(self).view() }),
    {
        self.frame = Some(frame);
    }

    pub fn name(&self) -> (r: &str)
        ensures
            r@ == self.view().name,
    {
        self.name.as_str()
    }

    pub fn set_name(&mut self, name: String)
        ensures
            final(self).view() == (ClientView { name: name@, ..old(self).view() }),
    {
        self.name = name;
    }

    pub fn class_name(&self) -> (r: &str)
        ensures
            r@ == self.view().class_name,
    {
        self.class_name.as_str()
    }

    pub fn class_instance(&self) -> (r: &str)
        ensures
            r@ == self.view().class_instance,
    {
        self.class_instance.as_str()
    }

    pub fn window_type(&self) -> (r: WindowType)
        ensures
            r == self.view().window_type,
    {
        self.window_type
    }

    pub fn set_window_type(&mut self, wtype: WindowType)
        ensures
            final(self).view() == (ClientView { window_type: wtype, ..old(self).view() }),
    {
        self.window_type = wtype;
    }

    pub fn has_focus(&self) -> (r: bool)
        ensures
            r == self.view().has_focus,
    {
        self.has_focus
    }

    pub fn set_focus(&mut self, focused: bool)
        ensures
            final(self).view() == (ClientView { has_focus: focused, ..old(self).view() }),
    {
        self.has_focus = focused;
    }

    pub fn is_urgent(&self) -> (r: bool)
        ensures
            r == self.view().urgent,
    {
        self.urgent
    }

    pub fn set_urgent(&mut self, urgent: bool)
        ensures
            final(self).view() == (ClientView { urgent, ..old(self).view() }),
    {
        self.urgent = urgent;
    }

    pub fn is_mapped(&self) -> (r: bool)
        ensures
            r == self.view().mapped,
    {
        self.mapped
    }

    pub fn set_mapped(&mut self, mapped: bool)
        ensures
            final(self).view() == (ClientView { mapped, ..old(self).view() }),
    {
        self.mapped = mapped;
    }
}

} // verus!
