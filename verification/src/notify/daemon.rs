//! What the notification daemon answers on the bus: which method or
//! control command a call names, the capabilities and server information it
//! reports, and where a notification's icon comes from.
use vstd::prelude::*;
use crate::text::str_eq;

verus! {

/// A method of the notification service.
#[derive(Clone, Copy, Debug, PartialEq, Eq, Structural)]
pub enum DaemonMethod {
    GetCapabilities,
    GetServerInformation,
    /// A control command of the dunst control interface (named by the
    /// member).
    Control,
    Notify,
    CloseNotification,
    Unknown,
}

/// The method that a call to `member` of interface `iface` names.
pub open spec fn method_spec(iface: Seq<char>, member: Seq<char>) -> DaemonMethod {
    if iface == "org.freedesktop.Notifications"@ {
        if member == "GetCapabilities"@ {
            DaemonMethod::GetCapabilities
        } else if member == "GetServerInformation"@ {
            DaemonMethod::GetServerInformation
        } else if member == "Notify"@ {
            DaemonMethod::Notify
        } else if member == "CloseNotification"@ {
            DaemonMethod::CloseNotification
        } else {
            DaemonMethod::Unknown
        }
    } else if iface == "org.dunstproject.cmd0"@ {
        DaemonMethod::Control
    } else {
        DaemonMethod::Unknown
    }
}

/// The method that a call names.
pub fn method_of(iface: &str, member: &str) -> (r: DaemonMethod)
    ensures
        r == method_spec(iface@, member@),
{
    if str_eq(iface, "org.freedesktop.Notifications") {
        if str_eq(member, "GetCapabilities") {
            DaemonMethod::GetCapabilities
        } else if str_eq(member, "GetServerInformation") {
            DaemonMethod::GetServerInformation
        } else if str_eq(member, "Notify") {
            DaemonMethod::Notify
        } else if str_eq(member, "CloseNotification") {
            DaemonMethod::CloseNotification
        } else {
            DaemonMethod::Unknown
        }
    } else if str_eq(iface, "org.dunstproject.cmd0") {
        DaemonMethod::Control
    } else {
        DaemonMethod::Unknown
    }
}

/// A command of the dunst control interface.
#[derive(Clone, Copy, Debug, PartialEq, Eq, Structural)]
pub enum ControlCommand {
    Ping,
    Pause,
    Resume,
    IsPaused,
    CloseAll,
    Close,
    CloseLast,
    HistoryCount,
    ClearHistory,
    RemoveFromHistory,
    PopHistory,
    ConfigReload,
    History,
    Context,
    Unknown,
}

/// The control command a member names (`history` and `getHistory` both
/// list the history).
pub open spec fn control_spec(m: Seq<char>) -> ControlCommand {
    if m == "ping"@ {
        ControlCommand::Ping
    } else if m == "pause"@ {
        ControlCommand::Pause
    } else if m == "resume"@ {
        ControlCommand::Resume
    } else if m == "isPaused"@ {
        ControlCommand::IsPaused
    } else if m == "closeAll"@ {
        ControlCommand::CloseAll
    } else if m == "close"@ {
        ControlCommand::Close
    } else if m == "closeLast"@ {
        ControlCommand::CloseLast
    } else if m == "historyCount"@ {
        ControlCommand::HistoryCount
    } else if m == "clearHistory"@ {
        ControlCommand::ClearHistory
    } else if m == "removeFromHistory"@ {
        ControlCommand::RemoveFromHistory
    } else if m == "popHistory"@ {
        ControlCommand::PopHistory
    } else if m == "configReload"@ {
        ControlCommand::ConfigReload
    } else if m == "history"@ || m == "getHistory"@ {
        ControlCommand::History
    } else if m == "context"@ {
        ControlCommand::Context
    } else {
        ControlCommand::Unknown
    }
}

/// The control command a member names.
pub fn control_of(member: &str) -> (r: ControlCommand)
    ensures
        r == control_spec(member@),
{
    if str_eq(member, "ping") {
        ControlCommand::Ping
    } else if str_eq(member, "pause") {
        ControlCommand::Pause
    } else if str_eq(member, "resume") {
        ControlCommand::Resume
    } else if str_eq(member, "isPaused") {
        ControlCommand::IsPaused
    } else if str_eq(member, "closeAll") {
        ControlCommand::CloseAll
    } else if str_eq(member, "close") {
        ControlCommand::Close
    } else if str_eq(member, "closeLast") {
        ControlCommand::CloseLast
    } else if str_eq(member, "historyCount") {
        ControlCommand::HistoryCount
    } else if str_eq(member, "clearHistory") {
        ControlCommand::ClearHistory
    } else if str_eq(member, "removeFromHistory") {
        ControlCommand::RemoveFromHistory
    } else if str_eq(member, "popHistory") {
        ControlCommand::PopHistory
    } else if str_eq(member, "configReload") {
        ControlCommand::ConfigReload
    } else if str_eq(member, "history") || str_eq(member, "getHistory") {
        ControlCommand::History
    } else if str_eq(member, "context") {
        ControlCommand::Context
    } else {
        ControlCommand::Unknown
    }
}

/// The capabilities the daemon reports.
pub open spec fn capabilities_spec() -> Seq<Seq<char>> {
    seq![
        "body"@,
        "actions"@,
        "icon-static"@,
        "persistence"@,
        "image/png"@,
        "urgency"@,
        "x-canonical-private-synchronous"@,
        "x-dunst-stack-tag"@,
    ]
}

/// The capabilities the daemon reports to `GetCapabilities`.
pub fn capabilities() -> (r: Vec<&'static str>)
    ensures
        r@.len() == capabilities_spec().len(),
        forall|i: int| 0 <= i < r@.len() ==> (#[trigger] r@[i])@ == capabilities_spec()[i],
{
    let r = vec![
        "body",
        "actions",
        "icon-static",
        "persistence",
        "image/png",
        "urgency",
        "x-canonical-private-synchronous",
        "x-dunst-stack-tag",
    ];
    r
}

/// What the daemon reports to `GetServerInformation`: name, vendor,
/// version and specification version.
pub fn server_information() -> (r: (&'static str, &'static str, &'static str, &'static str))
    ensures
        r.0@ == "rustbox"@ && r.1@ == "rustbox"@ && r.2@ == "1.4.0"@ && r.3@ == "1.2"@,
{
    ("rustbox", "rustbox", "1.4.0", "1.2")
}

/// Where a notification's icon comes from.
#[derive(Debug, PartialEq, Eq)]
pub enum IconSource {
    /// This path or icon name, as given.
    Given(String),
    /// The icon theme's icon for this name (a desktop entry or the
    /// application's name).
    Theme(String),
    NoIcon,
}

/// The icon of a notification: the icon the call gave, else the
/// `image-path` hint, else the theme icon of the `desktop-entry` hint, else
/// the theme icon of the application's name, else none.
pub open spec fn icon_spec(
    app_icon: Seq<char>,
    image_path: Option<Seq<char>>,
    desktop_entry: Option<Seq<char>>,
    app_name: Seq<char>,
) -> (int, Seq<char>) {
    if app_icon.len() > 0 {
        (0, app_icon)
    } else if image_path is Some {
        (0, image_path->0)
    } else if desktop_entry is Some {
        (1, desktop_entry->0)
    } else if app_name.len() > 0 {
        (1, app_name)
    } else {
        (2, seq![])
    }
}

impl IconSource {
    /// The source's kind (0 given, 1 theme, 2 none) and text.
    pub open spec fn view(&self) -> (int, Seq<char>) {
        match self {
            IconSource::Given(s) => (0, s@),
            IconSource::Theme(s) => (1, s@),
            IconSource::NoIcon => (2, seq![]),
        }
    }
}

/// Where the icon of a new notification comes from.
pub fn icon_source(
    app_icon: &str,
    image_path: Option<&str>,
    desktop_entry: Option<&str>,
    app_name: &str,
) -> (r: IconSource)
    ensures
        r.view() == icon_spec(
            app_icon@,
            match image_path {
                Some(p) => Some(p@),
                None => None,
            },
            match desktop_entry {
                Some(p) => Some(p@),
                None => None,
            },
            app_name@,
        ),
{
    if app_icon.unicode_len() > 0 {
        IconSource::Given(String::from_str(app_icon))
    } else if let Some(p) = image_path {
        IconSource::Given(String::from_str(p))
    } else if let Some(d) = desktop_entry {
        IconSource::Theme(String::from_str(d))
    } else if app_name.unicode_len() > 0 {
        IconSource::Theme(String::from_str(app_name))
    } else {
        IconSource::NoIcon
    }
}

} // verus!
