//! The X atoms the window manager uses, by name.

use vstd::prelude::*;

verus! {

#[derive(Debug, Clone, Copy, PartialEq, Eq, Hash)]
pub enum Atom {

    // Core protocol
    WmName,
    WmIconName,
    WmHints,
    WmNormalHints,
    WmClass,
    WmTransientFor,
    WmProtocols,
    WmDeleteWindow,
    WmTakeFocus,
    WmChangeState,
    WmState,
    WmClientMachine,
    WmCommand,

    // EWMH atoms
    NetSupported,
    NetClientList,
    NetClientListStacking,
    NetNumberOfDesktops,
    NetDesktopViewport,
    NetCurrentDesktop,
    NetDesktopNames,
    NetActiveWindow,
    NetWorkarea,
    NetSupportingWmCheck,
    NetVirtualRoots,
    NetCloseWindow,
    NetWmName,
    NetWmVisibleName,
    NetWmIconName,
    NetWmVisibleIconName,
    NetWmDesktop,
    NetWmState,
    NetWmStateSticky,
    NetWmStateMaximizedVert,
    NetWmStateMaximizedHorz,
    NetWmStateShaded,
    NetWmStateSkipTaskbar,
    NetWmStateSkipPager,
    NetWmStateHidden,
    NetWmStateFullscreen,
    NetWmStateAbove,
    NetWmStateBelow,
    NetWmStateDemandsAttention,
    NetWmAllowedActions,
    NetWmActionMove,
    NetWmActionResize,
    NetWmActionMinimize,
    NetWmActionShade,
    NetWmActionStick,
    NetWmActionMaximizeHorz,
    NetWmActionMaximizeVert,
    NetWmActionFullscreen,
    NetWmActionChangeDesktop,
    NetWmActionClose,
    NetWmActionAbove,
    NetWmActionBelow,
    NetWmWindowType,
    NetWmWindowTypeDesktop,
    NetWmWindowTypeDock,
    NetWmWindowTypeToolbar,
    NetWmWindowTypeMenu,
    NetWmWindowTypeUtility,
    NetWmWindowTypeSplash,
    NetWmWindowTypeDialog,
    NetWmWindowTypeNormal,
    NetWmWindowTypeDropdownMenu,
    NetWmWindowTypePopupMenu,
    NetWmWindowTypeTooltip,
    NetWmWindowTypeNotification,
    NetWmWindowTypeCombo,
    NetWmWindowTypeDnd,
    NetWmStrut,
    NetWmStrutPartial,
    NetWmIconGeometry,
    NetWmIcon,
    NetWmPid,
    NetWmUserTime,
    NetWmUserTimeWindow,
    NetFrameExtents,
    NetFrameWindow,
    NetRequestFrameExtents,

    // ICCCM
    MotifWmHints,
    KwmWmWinHint,

    // Fluxbox specific
    FluxboxWindow,
    FluxboxWindowHidden,
    FluxboxRemote,
    FluxboxRemoteCmd,

    // Atoms from X extensions
    Manager,
    Xembed,
    XembedInfo,
    XdndAware,
    XdndEnter,
    XdndPosition,
    XdndStatus,
    XdndLeave,
    XdndDrop,
    XdndFinished,
    XdndTypeList,
    XdndActionList,
    XdndActionCopy,

    // Custom
    GtkFrameExtents,
    GtkEdgeConstraint,
    Utf8String,
    String,
    Cardinal,
    Window,
    AtomEnum,
    WmMoveResize,

}

/// The name under which the X server knows an atom.
pub open spec fn atom_name(a: Atom) -> Seq<char> {
    match a {
        Atom::WmName => "WM_NAME"@,
        Atom::WmIconName => "WM_ICON_NAME"@,
        Atom::WmHints => "WM_HINTS"@,
        Atom::WmNormalHints => "WM_NORMAL_HINTS"@,
        Atom::WmClass => "WM_CLASS"@,
        Atom::WmTransientFor => "WM_TRANSIENT_FOR"@,
        Atom::WmProtocols => "WM_PROTOCOLS"@,
        Atom::WmDeleteWindow => "WM_DELETE_WINDOW"@,
        Atom::WmTakeFocus => "WM_TAKE_FOCUS"@,
        Atom::WmChangeState => "WM_CHANGE_STATE"@,
        Atom::WmState => "WM_STATE"@,
        Atom::WmClientMachine => "WM_CLIENT_MACHINE"@,
        Atom::WmCommand => "WM_COMMAND"@,
        Atom::NetSupported => "_NET_SUPPORTED"@,
        Atom::NetClientList => "_NET_CLIENT_LIST"@,
        Atom::NetClientListStacking => "_NET_CLIENT_LIST_STACKING"@,
        Atom::NetNumberOfDesktops => "_NET_NUMBER_OF_DESKTOPS"@,
        Atom::NetDesktopViewport => "_NET_DESKTOP_VIEWPORT"@,
        Atom::NetCurrentDesktop => "_NET_CURRENT_DESKTOP"@,
        Atom::NetDesktopNames => "_NET_DESKTOP_NAMES"@,
        Atom::NetActiveWindow => "_NET_ACTIVE_WINDOW"@,
        Atom::NetWorkarea => "_NET_WORKAREA"@,
        Atom::NetSupportingWmCheck => "_NET_SUPPORTING_WM_CHECK"@,
        Atom::NetVirtualRoots => "_NET_VIRTUAL_ROOTS"@,
        Atom::NetCloseWindow => "_NET_CLOSE_WINDOW"@,
        Atom::NetWmName => "_NET_WM_NAME"@,
        Atom::NetWmVisibleName => "_NET_WM_VISIBLE_NAME"@,
        Atom::NetWmIconName => "_NET_WM_ICON_NAME"@,
        Atom::NetWmVisibleIconName => "_NET_WM_VISIBLE_ICON_NAME"@,
        Atom::NetWmDesktop => "_NET_WM_DESKTOP"@,
        Atom::NetWmState => "_NET_WM_STATE"@,
        Atom::NetWmStateSticky => "_NET_WM_STATE_STICKY"@,
        Atom::NetWmStateMaximizedVert => "_NET_WM_STATE_MAXIMIZED_VERT"@,
        Atom::NetWmStateMaximizedHorz => "_NET_WM_STATE_MAXIMIZED_HORZ"@,
        Atom::NetWmStateShaded => "_NET_WM_STATE_SHADED"@,
        Atom::NetWmStateSkipTaskbar => "_NET_WM_STATE_SKIP_TASKBAR"@,
        Atom::NetWmStateSkipPager => "_NET_WM_STATE_SKIP_PAGER"@,
        Atom::NetWmStateHidden => "_NET_WM_STATE_HIDDEN"@,
        Atom::NetWmStateFullscreen => "_NET_WM_STATE_FULLSCREEN"@,
        Atom::NetWmStateAbove => "_NET_WM_STATE_ABOVE"@,
        Atom::NetWmStateBelow => "_NET_WM_STATE_BELOW"@,
        Atom::NetWmStateDemandsAttention => "_NET_WM_STATE_DEMANDS_ATTENTION"@,
        Atom::NetWmAllowedActions => "_NET_WM_ALLOWED_ACTIONS"@,
        Atom::NetWmActionMove => "_NET_WM_ACTION_MOVE"@,
        Atom::NetWmActionResize => "_NET_WM_ACTION_RESIZE"@,
        Atom::NetWmActionMinimize => "_NET_WM_ACTION_MINIMIZE"@,
        Atom::NetWmActionShade => "_NET_WM_ACTION_SHADE"@,
        Atom::NetWmActionStick => "_NET_WM_ACTION_STICK"@,
        Atom::NetWmActionMaximizeHorz => "_NET_WM_ACTION_MAXIMIZE_HORZ"@,
        Atom::NetWmActionMaximizeVert => "_NET_WM_ACTION_MAXIMIZE_VERT"@,
        Atom::NetWmActionFullscreen => "_NET_WM_ACTION_FULLSCREEN"@,
        Atom::NetWmActionChangeDesktop => "_NET_WM_ACTION_CHANGE_DESKTOP"@,
        Atom::NetWmActionClose => "_NET_WM_ACTION_CLOSE"@,
        Atom::NetWmActionAbove => "_NET_WM_ACTION_ABOVE"@,
        Atom::NetWmActionBelow => "_NET_WM_ACTION_BELOW"@,
        Atom::NetWmWindowType => "_NET_WM_WINDOW_TYPE"@,
        Atom::NetWmWindowTypeDesktop => "_NET_WM_WINDOW_TYPE_DESKTOP"@,
        Atom::NetWmWindowTypeDock => "_NET_WM_WINDOW_TYPE_DOCK"@,
        Atom::NetWmWindowTypeToolbar => "_NET_WM_WINDOW_TYPE_TOOLBAR"@,
        Atom::NetWmWindowTypeMenu => "_NET_WM_WINDOW_TYPE_MENU"@,
        Atom::NetWmWindowTypeUtility => "_NET_WM_WINDOW_TYPE_UTILITY"@,
        Atom::NetWmWindowTypeSplash => "_NET_WM_WINDOW_TYPE_SPLASH"@,
        Atom::NetWmWindowTypeDialog => "_NET_WM_WINDOW_TYPE_DIALOG"@,
        Atom::NetWmWindowTypeNormal => "_NET_WM_WINDOW_TYPE_NORMAL"@,
        Atom::NetWmWindowTypeDropdownMenu => "_NET_WM_WINDOW_TYPE_DROPDOWN_MENU"@,
        Atom::NetWmWindowTypePopupMenu => "_NET_WM_WINDOW_TYPE_POPUP_MENU"@,
        Atom::NetWmWindowTypeTooltip => "_NET_WM_WINDOW_TYPE_TOOLTIP"@,
        Atom::NetWmWindowTypeNotification => "_NET_WM_WINDOW_TYPE_NOTIFICATION"@,
        Atom::NetWmWindowTypeCombo => "_NET_WM_WINDOW_TYPE_COMBO"@,
        Atom::NetWmWindowTypeDnd => "_NET_WM_WINDOW_TYPE_DND"@,
        Atom::NetWmStrut => "_NET_WM_STRUT"@,
        Atom::NetWmStrutPartial => "_NET_WM_STRUT_PARTIAL"@,
        Atom::NetWmIconGeometry => "_NET_WM_ICON_GEOMETRY"@,
        Atom::NetWmIcon => "_NET_WM_ICON"@,
        Atom::NetWmPid => "_NET_WM_PID"@,
        Atom::NetWmUserTime => "_NET_WM_USER_TIME"@,
        Atom::NetWmUserTimeWindow => "_NET_WM_USER_TIME_WINDOW"@,
        Atom::NetFrameExtents => "_NET_FRAME_EXTENTS"@,
        Atom::NetFrameWindow => "_NET_FRAME_WINDOW"@,
        Atom::NetRequestFrameExtents => "_NET_REQUEST_FRAME_EXTENTS"@,
        Atom::MotifWmHints => "_MOTIF_WM_HINTS"@,
        Atom::KwmWmWinHint => "_KDE_WM_WIN_HINT"@,
        Atom::FluxboxWindow => "_FLUXBOX_WINDOW"@,
        Atom::FluxboxWindowHidden => "_FLUXBOX_WINDOW_HIDDEN"@,
        Atom::FluxboxRemote => "Fluxbox/remote"@,
        Atom::FluxboxRemoteCmd => "FLUXBOX_REMOTE_CMD"@,
        Atom::Manager => "MANAGER"@,
        Atom::Xembed => "_XEMBED"@,
        Atom::XembedInfo => "_XEMBED_INFO"@,
        Atom::XdndAware => "XdndAware"@,
        Atom::XdndEnter => "XdndEnter"@,
        Atom::XdndPosition => "XdndPosition"@,
        Atom::XdndStatus => "XdndStatus"@,
        Atom::XdndLeave => "XdndLeave"@,
        Atom::XdndDrop => "XdndDrop"@,
        Atom::XdndFinished => "XdndFinished"@,
        Atom::XdndTypeList => "XdndTypeList"@,
        Atom::XdndActionList => "XdndActionList"@,
        Atom::XdndActionCopy => "XdndActionCopy"@,
        Atom::GtkFrameExtents => "_GTK_FRAME_EXTENTS"@,
        Atom::GtkEdgeConstraint => "_GTK_EDGE_CONSTRAINTS"@,
        Atom::Utf8String => "UTF8_STRING"@,
        Atom::String => "STRING"@,
        Atom::Cardinal => "CARDINAL"@,
        Atom::Window => "WINDOW"@,
        Atom::AtomEnum => "ATOM"@,
        Atom::WmMoveResize => "_WM_MOVERESIZE"@,
    }
}

impl Atom {
    /// The atom's name, as interned on the X server.
    pub fn name(&self) -> (r: &'static str)
        ensures
            r@ == atom_name(*self),
    {
        match self {
            Atom::WmName => "WM_NAME",
            Atom::WmIconName => "WM_ICON_NAME",
            Atom::WmHints => "WM_HINTS",
            Atom::WmNormalHints => "WM_NORMAL_HINTS",
            Atom::WmClass => "WM_CLASS",
            Atom::WmTransientFor => "WM_TRANSIENT_FOR",
            Atom::WmProtocols => "WM_PROTOCOLS",
            Atom::WmDeleteWindow => "WM_DELETE_WINDOW",
            Atom::WmTakeFocus => "WM_TAKE_FOCUS",
            Atom::WmChangeState => "WM_CHANGE_STATE",
            Atom::WmState => "WM_STATE",
            Atom::WmClientMachine => "WM_CLIENT_MACHINE",
            Atom::WmCommand => "WM_COMMAND",
            Atom::NetSupported => "_NET_SUPPORTED",
            Atom::NetClientList => "_NET_CLIENT_LIST",
            Atom::NetClientListStacking => "_NET_CLIENT_LIST_STACKING",
            Atom::NetNumberOfDesktops => "_NET_NUMBER_OF_DESKTOPS",
            Atom::NetDesktopViewport => "_NET_DESKTOP_VIEWPORT",
            Atom::NetCurrentDesktop => "_NET_CURRENT_DESKTOP",
            Atom::NetDesktopNames => "_NET_DESKTOP_NAMES",
            Atom::NetActiveWindow => "_NET_ACTIVE_WINDOW",
            Atom::NetWorkarea => "_NET_WORKAREA",
            Atom::NetSupportingWmCheck => "_NET_SUPPORTING_WM_CHECK",
            Atom::NetVirtualRoots => "_NET_VIRTUAL_ROOTS",
            Atom::NetCloseWindow => "_NET_CLOSE_WINDOW",
            Atom::NetWmName => "_NET_WM_NAME",
            Atom::NetWmVisibleName => "_NET_WM_VISIBLE_NAME",
            Atom::NetWmIconName => "_NET_WM_ICON_NAME",
            Atom::NetWmVisibleIconName => "_NET_WM_VISIBLE_ICON_NAME",
            Atom::NetWmDesktop => "_NET_WM_DESKTOP",
            Atom::NetWmState => "_NET_WM_STATE",
            Atom::NetWmStateSticky => "_NET_WM_STATE_STICKY",
            Atom::NetWmStateMaximizedVert => "_NET_WM_STATE_MAXIMIZED_VERT",
            Atom::NetWmStateMaximizedHorz => "_NET_WM_STATE_MAXIMIZED_HORZ",
            Atom::NetWmStateShaded => "_NET_WM_STATE_SHADED",
            Atom::NetWmStateSkipTaskbar => "_NET_WM_STATE_SKIP_TASKBAR",
            Atom::NetWmStateSkipPager => "_NET_WM_STATE_SKIP_PAGER",
            Atom::NetWmStateHidden => "_NET_WM_STATE_HIDDEN",
            Atom::NetWmStateFullscreen => "_NET_WM_STATE_FULLSCREEN",
            Atom::NetWmStateAbove => "_NET_WM_STATE_ABOVE",
            Atom::NetWmStateBelow => "_NET_WM_STATE_BELOW",
            Atom::NetWmStateDemandsAttention => "_NET_WM_STATE_DEMANDS_ATTENTION",
            Atom::NetWmAllowedActions => "_NET_WM_ALLOWED_ACTIONS",
            Atom::NetWmActionMove => "_NET_WM_ACTION_MOVE",
            Atom::NetWmActionResize => "_NET_WM_ACTION_RESIZE",
            Atom::NetWmActionMinimize => "_NET_WM_ACTION_MINIMIZE",
            Atom::NetWmActionShade => "_NET_WM_ACTION_SHADE",
            Atom::NetWmActionStick => "_NET_WM_ACTION_STICK",
            Atom::NetWmActionMaximizeHorz => "_NET_WM_ACTION_MAXIMIZE_HORZ",
            Atom::NetWmActionMaximizeVert => "_NET_WM_ACTION_MAXIMIZE_VERT",
            Atom::NetWmActionFullscreen => "_NET_WM_ACTION_FULLSCREEN",
            Atom::NetWmActionChangeDesktop => "_NET_WM_ACTION_CHANGE_DESKTOP",
            Atom::NetWmActionClose => "_NET_WM_ACTION_CLOSE",
            Atom::NetWmActionAbove => "_NET_WM_ACTION_ABOVE",
            Atom::NetWmActionBelow => "_NET_WM_ACTION_BELOW",
            Atom::NetWmWindowType => "_NET_WM_WINDOW_TYPE",
            Atom::NetWmWindowTypeDesktop => "_NET_WM_WINDOW_TYPE_DESKTOP",
            Atom::NetWmWindowTypeDock => "_NET_WM_WINDOW_TYPE_DOCK",
            Atom::NetWmWindowTypeToolbar => "_NET_WM_WINDOW_TYPE_TOOLBAR",
            Atom::NetWmWindowTypeMenu => "_NET_WM_WINDOW_TYPE_MENU",
            Atom::NetWmWindowTypeUtility => "_NET_WM_WINDOW_TYPE_UTILITY",
            Atom::NetWmWindowTypeSplash => "_NET_WM_WINDOW_TYPE_SPLASH",
            Atom::NetWmWindowTypeDialog => "_NET_WM_WINDOW_TYPE_DIALOG",
            Atom::NetWmWindowTypeNormal => "_NET_WM_WINDOW_TYPE_NORMAL",
            Atom::NetWmWindowTypeDropdownMenu => "_NET_WM_WINDOW_TYPE_DROPDOWN_MENU",
            Atom::NetWmWindowTypePopupMenu => "_NET_WM_WINDOW_TYPE_POPUP_MENU",
            Atom::NetWmWindowTypeTooltip => "_NET_WM_WINDOW_TYPE_TOOLTIP",
            Atom::NetWmWindowTypeNotification => "_NET_WM_WINDOW_TYPE_NOTIFICATION",
            Atom::NetWmWindowTypeCombo => "_NET_WM_WINDOW_TYPE_COMBO",
            Atom::NetWmWindowTypeDnd => "_NET_WM_WINDOW_TYPE_DND",
            Atom::NetWmStrut => "_NET_WM_STRUT",
            Atom::NetWmStrutPartial => "_NET_WM_STRUT_PARTIAL",
            Atom::NetWmIconGeometry => "_NET_WM_ICON_GEOMETRY",
            Atom::NetWmIcon => "_NET_WM_ICON",
            Atom::NetWmPid => "_NET_WM_PID",
            Atom::NetWmUserTime => "_NET_WM_USER_TIME",
            Atom::NetWmUserTimeWindow => "_NET_WM_USER_TIME_WINDOW",
            Atom::NetFrameExtents => "_NET_FRAME_EXTENTS",
            Atom::NetFrameWindow => "_NET_FRAME_WINDOW",
            Atom::NetRequestFrameExtents => "_NET_REQUEST_FRAME_EXTENTS",
            Atom::MotifWmHints => "_MOTIF_WM_HINTS",
            Atom::KwmWmWinHint => "_KDE_WM_WIN_HINT",
            Atom::FluxboxWindow => "_FLUXBOX_WINDOW",
            Atom::FluxboxWindowHidden => "_FLUXBOX_WINDOW_HIDDEN",
            Atom::FluxboxRemote => "Fluxbox/remote",
            Atom::FluxboxRemoteCmd => "FLUXBOX_REMOTE_CMD",
            Atom::Manager => "MANAGER",
            Atom::Xembed => "_XEMBED",
            Atom::XembedInfo => "_XEMBED_INFO",
            Atom::XdndAware => "XdndAware",
            Atom::XdndEnter => "XdndEnter",
            Atom::XdndPosition => "XdndPosition",
            Atom::XdndStatus => "XdndStatus",
            Atom::XdndLeave => "XdndLeave",
            Atom::XdndDrop => "XdndDrop",
            Atom::XdndFinished => "XdndFinished",
            Atom::XdndTypeList => "XdndTypeList",
            Atom::XdndActionList => "XdndActionList",
            Atom::XdndActionCopy => "XdndActionCopy",
            Atom::GtkFrameExtents => "_GTK_FRAME_EXTENTS",
            Atom::GtkEdgeConstraint => "_GTK_EDGE_CONSTRAINTS",
            Atom::Utf8String => "UTF8_STRING",
            Atom::String => "STRING",
            Atom::Cardinal => "CARDINAL",
            Atom::Window => "WINDOW",
            Atom::AtomEnum => "ATOM",
            Atom::WmMoveResize => "_WM_MOVERESIZE",
        }
    }
}


/// The EWMH hints this window manager supports, in the order published in
/// `_NET_SUPPORTED`.
pub open spec fn net_supported_spec() -> Seq<Atom> {
    seq![
        Atom::NetSupported,
        Atom::NetClientList,
        Atom::NetClientListStacking,
        Atom::NetNumberOfDesktops,
        Atom::NetDesktopViewport,
        Atom::NetCurrentDesktop,
        Atom::NetDesktopNames,
        Atom::NetActiveWindow,
        Atom::NetWorkarea,
        Atom::NetSupportingWmCheck,
        Atom::NetCloseWindow,
        Atom::NetWmName,
        Atom::NetWmVisibleName,
        Atom::NetWmIconName,
        Atom::NetWmVisibleIconName,
        Atom::NetWmDesktop,
        Atom::NetWmState,
        Atom::NetWmStateMaximizedVert,
        Atom::NetWmStateMaximizedHorz,
        Atom::NetWmStateFullscreen,
        Atom::NetWmStateHidden,
        Atom::NetWmStateShaded,
        Atom::NetWmStateSkipTaskbar,
        Atom::NetWmStateSkipPager,
        Atom::NetWmStateSticky,
        Atom::NetWmStateAbove,
        Atom::NetWmStateBelow,
        Atom::NetWmStateDemandsAttention,
        Atom::NetWmAllowedActions,
        Atom::NetWmActionMove,
        Atom::NetWmActionResize,
        Atom::NetWmActionMinimize,
        Atom::NetWmActionShade,
        Atom::NetWmActionStick,
        Atom::NetWmActionMaximizeHorz,
        Atom::NetWmActionMaximizeVert,
        Atom::NetWmActionFullscreen,
        Atom::NetWmActionChangeDesktop,
        Atom::NetWmActionClose,
        Atom::NetWmActionAbove,
        Atom::NetWmActionBelow,
        Atom::NetWmWindowType,
        Atom::NetWmWindowTypeDesktop,
        Atom::NetWmWindowTypeDock,
        Atom::NetWmWindowTypeToolbar,
        Atom::NetWmWindowTypeMenu,
        Atom::NetWmWindowTypeUtility,
        Atom::NetWmWindowTypeSplash,
        Atom::NetWmWindowTypeDialog,
        Atom::NetWmWindowTypeNormal,
        Atom::NetWmStrut,
        Atom::NetWmStrutPartial,
        Atom::NetWmIconGeometry,
        Atom::NetWmIcon,
        Atom::NetWmPid,
        Atom::NetWmUserTime,
        Atom::NetWmUserTimeWindow,
        Atom::NetFrameExtents,
        Atom::NetFrameWindow,
        Atom::NetRequestFrameExtents,
    ]
}

/// The atoms published in `_NET_SUPPORTED`.
pub fn net_supported() -> (r: Vec<Atom>)
    ensures
        r@ == net_supported_spec(),
{
    let r = vec![
        Atom::NetSupported,
        Atom::NetClientList,
        Atom::NetClientListStacking,
        Atom::NetNumberOfDesktops,
        Atom::NetDesktopViewport,
        Atom::NetCurrentDesktop,
        Atom::NetDesktopNames,
        Atom::NetActiveWindow,
        Atom::NetWorkarea,
        Atom::NetSupportingWmCheck,
        Atom::NetCloseWindow,
        Atom::NetWmName,
        Atom::NetWmVisibleName,
        Atom::NetWmIconName,
        Atom::NetWmVisibleIconName,
        Atom::NetWmDesktop,
        Atom::NetWmState,
        Atom::NetWmStateMaximizedVert,
        Atom::NetWmStateMaximizedHorz,
        Atom::NetWmStateFullscreen,
        Atom::NetWmStateHidden,
        Atom::NetWmStateShaded,
        Atom::NetWmStateSkipTaskbar,
        Atom::NetWmStateSkipPager,
        Atom::NetWmStateSticky,
        Atom::NetWmStateAbove,
        Atom::NetWmStateBelow,
        Atom::NetWmStateDemandsAttention,
        Atom::NetWmAllowedActions,
        Atom::NetWmActionMove,
        Atom::NetWmActionResize,
        Atom::NetWmActionMinimize,
        Atom::NetWmActionShade,
        Atom::NetWmActionStick,
        Atom::NetWmActionMaximizeHorz,
        Atom::NetWmActionMaximizeVert,
        Atom::NetWmActionFullscreen,
        Atom::NetWmActionChangeDesktop,
        Atom::NetWmActionClose,
        Atom::NetWmActionAbove,
        Atom::NetWmActionBelow,
        Atom::NetWmWindowType,
        Atom::NetWmWindowTypeDesktop,
        Atom::NetWmWindowTypeDock,
        Atom::NetWmWindowTypeToolbar,
        Atom::NetWmWindowTypeMenu,
        Atom::NetWmWindowTypeUtility,
        Atom::NetWmWindowTypeSplash,
        Atom::NetWmWindowTypeDialog,
        Atom::NetWmWindowTypeNormal,
        Atom::NetWmStrut,
        Atom::NetWmStrutPartial,
        Atom::NetWmIconGeometry,
        Atom::NetWmIcon,
        Atom::NetWmPid,
        Atom::NetWmUserTime,
        Atom::NetWmUserTimeWindow,
        Atom::NetFrameExtents,
        Atom::NetFrameWindow,
        Atom::NetRequestFrameExtents,
    ];
    assert(r@ =~= net_supported_spec());
    r
}

/// Byte `k` (0 lowest) of `v`.
pub open spec fn le_byte(v: u32, k: int) -> u8 {
    ((v as int / vstd::arithmetic::power::pow(256, k as nat)) % 256) as u8
}

/// The atom ids as 32-bit little-endian values, one after the other (the
/// data of a 32-bit property).
pub fn le_bytes(ids: &[u32]) -> (r: Vec<u8>)
    ensures
        r@.len() == 4 * ids@.len(),
        forall|i: int, k: int|
            0 <= i < ids@.len() && 0 <= k < 4 ==> r@[4 * i + k] == #[trigger] le_byte(ids@[i], k),
{
    let mut r: Vec<u8> = Vec::new();
    let mut i: usize = 0;
    proof {
        assert(vstd::arithmetic::power::pow(256, 0) == 1) by {
            vstd::arithmetic::power::lemma_pow0(256);
        }
        assert(vstd::arithmetic::power::pow(256, 1) == 256) by {
            vstd::arithmetic::power::lemma_pow1(256);
        }
        assert(vstd::arithmetic::power::pow(256, 2) == 65536) by {
            vstd::arithmetic::power::lemma_pow_adds(256, 1, 1);
        }
        assert(vstd::arithmetic::power::pow(256, 3) == 16777216) by {
            vstd::arithmetic::power::lemma_pow_adds(256, 2, 1);
        }
    }
    while i < ids.len()
        invariant
            i <= ids@.len(),
            r@.len() == 4 * i,
            vstd::arithmetic::power::pow(256, 0) == 1,
            vstd::arithmetic::power::pow(256, 1) == 256,
            vstd::arithmetic::power::pow(256, 2) == 65536,
            vstd::arithmetic::power::pow(256, 3) == 16777216,
            forall|j: int, k: int|
                0 <= j < i && 0 <= k < 4 ==> r@[4 * j + k] == #[trigger] le_byte(ids@[j], k),
        decreases ids@.len() - i,
    {
        let v = ids[i];
        r.push((v % 256) as u8);
        r.push(((v / 256) % 256) as u8);
        r.push(((v / 65536) % 256) as u8);
        r.push(((v / 16777216) % 256) as u8);
        proof {
            assert forall|j: int, k: int|
                0 <= j < i + 1 && 0 <= k < 4 implies r@[4 * j + k] == #[trigger] le_byte(ids@[j], k) by {
                if j == i {
                    if k == 0 {
                        assert(r@[4 * j + k] == (v % 256) as u8);
                    } else if k == 1 {
                        assert(r@[4 * j + k] == ((v / 256) % 256) as u8);
                    } else if k == 2 {
                        assert(r@[4 * j + k] == ((v / 65536) % 256) as u8);
                    } else {
                        assert(r@[4 * j + k] == ((v / 16777216) % 256) as u8);
                    }
                }
            }
        }
        i = i + 1;
    }
    r
}

/// The atom whose X name is `s`, if any.
pub open spec fn atom_of_name(s: Seq<char>) -> Option<Atom> {
    if s.len() == 4 {
        if s == "ATOM"@ {
            Some(Atom::AtomEnum)
        } else {
            None
        }
    } else if s.len() == 6 {
        if s == "STRING"@ {
            Some(Atom::String)
        } else if s == "WINDOW"@ {
            Some(Atom::Window)
        } else {
            None
        }
    } else if s.len() == 7 {
        if s == "WM_NAME"@ {
            Some(Atom::WmName)
        } else if s == "MANAGER"@ {
            Some(Atom::Manager)
        } else if s == "_XEMBED"@ {
            Some(Atom::Xembed)
        } else {
            None
        }
    } else if s.len() == 8 {
        if s == "WM_HINTS"@ {
            Some(Atom::WmHints)
        } else if s == "WM_CLASS"@ {
            Some(Atom::WmClass)
        } else if s == "WM_STATE"@ {
            Some(Atom::WmState)
        } else if s == "XdndDrop"@ {
            Some(Atom::XdndDrop)
        } else if s == "CARDINAL"@ {
            Some(Atom::Cardinal)
        } else {
            None
        }
    } else if s.len() == 9 {
        if s == "XdndAware"@ {
            Some(Atom::XdndAware)
        } else if s == "XdndEnter"@ {
            Some(Atom::XdndEnter)
        } else if s == "XdndLeave"@ {
            Some(Atom::XdndLeave)
        } else {
            None
        }
    } else if s.len() == 10 {
        if s == "WM_COMMAND"@ {
            Some(Atom::WmCommand)
        } else if s == "XdndStatus"@ {
            Some(Atom::XdndStatus)
        } else {
            None
        }
    } else if s.len() == 11 {
        if s == "_NET_WM_PID"@ {
            Some(Atom::NetWmPid)
        } else if s == "UTF8_STRING"@ {
            Some(Atom::Utf8String)
        } else {
            None
        }
    } else if s.len() == 12 {
        if s == "WM_ICON_NAME"@ {
            Some(Atom::WmIconName)
        } else if s == "WM_PROTOCOLS"@ {
            Some(Atom::WmProtocols)
        } else if s == "_NET_WM_NAME"@ {
            Some(Atom::NetWmName)
        } else if s == "_NET_WM_ICON"@ {
            Some(Atom::NetWmIcon)
        } else if s == "_XEMBED_INFO"@ {
            Some(Atom::XembedInfo)
        } else if s == "XdndPosition"@ {
            Some(Atom::XdndPosition)
        } else if s == "XdndFinished"@ {
            Some(Atom::XdndFinished)
        } else if s == "XdndTypeList"@ {
            Some(Atom::XdndTypeList)
        } else {
            None
        }
    } else if s.len() == 13 {
        if s == "WM_TAKE_FOCUS"@ {
            Some(Atom::WmTakeFocus)
        } else if s == "_NET_WORKAREA"@ {
            Some(Atom::NetWorkarea)
        } else if s == "_NET_WM_STATE"@ {
            Some(Atom::NetWmState)
        } else if s == "_NET_WM_STRUT"@ {
            Some(Atom::NetWmStrut)
        } else {
            None
        }
    } else if s.len() == 14 {
        if s == "_NET_SUPPORTED"@ {
            Some(Atom::NetSupported)
        } else if s == "Fluxbox/remote"@ {
            Some(Atom::FluxboxRemote)
        } else if s == "XdndActionList"@ {
            Some(Atom::XdndActionList)
        } else if s == "XdndActionCopy"@ {
            Some(Atom::XdndActionCopy)
        } else if s == "_WM_MOVERESIZE"@ {
            Some(Atom::WmMoveResize)
        } else {
            None
        }
    } else if s.len() == 15 {
        if s == "WM_NORMAL_HINTS"@ {
            Some(Atom::WmNormalHints)
        } else if s == "WM_CHANGE_STATE"@ {
            Some(Atom::WmChangeState)
        } else if s == "_NET_WM_DESKTOP"@ {
            Some(Atom::NetWmDesktop)
        } else if s == "_MOTIF_WM_HINTS"@ {
            Some(Atom::MotifWmHints)
        } else if s == "_FLUXBOX_WINDOW"@ {
            Some(Atom::FluxboxWindow)
        } else {
            None
        }
    } else if s.len() == 16 {
        if s == "WM_TRANSIENT_FOR"@ {
            Some(Atom::WmTransientFor)
        } else if s == "WM_DELETE_WINDOW"@ {
            Some(Atom::WmDeleteWindow)
        } else if s == "_NET_CLIENT_LIST"@ {
            Some(Atom::NetClientList)
        } else if s == "_KDE_WM_WIN_HINT"@ {
            Some(Atom::KwmWmWinHint)
        } else {
            None
        }
    } else if s.len() == 17 {
        if s == "WM_CLIENT_MACHINE"@ {
            Some(Atom::WmClientMachine)
        } else if s == "_NET_CLOSE_WINDOW"@ {
            Some(Atom::NetCloseWindow)
        } else if s == "_NET_WM_ICON_NAME"@ {
            Some(Atom::NetWmIconName)
        } else if s == "_NET_WM_USER_TIME"@ {
            Some(Atom::NetWmUserTime)
        } else if s == "_NET_FRAME_WINDOW"@ {
            Some(Atom::NetFrameWindow)
        } else {
            None
        }
    } else if s.len() == 18 {
        if s == "_NET_DESKTOP_NAMES"@ {
            Some(Atom::NetDesktopNames)
        } else if s == "_NET_ACTIVE_WINDOW"@ {
            Some(Atom::NetActiveWindow)
        } else if s == "_NET_VIRTUAL_ROOTS"@ {
            Some(Atom::NetVirtualRoots)
        } else if s == "_NET_FRAME_EXTENTS"@ {
            Some(Atom::NetFrameExtents)
        } else if s == "FLUXBOX_REMOTE_CMD"@ {
            Some(Atom::FluxboxRemoteCmd)
        } else if s == "_GTK_FRAME_EXTENTS"@ {
            Some(Atom::GtkFrameExtents)
        } else {
            None
        }
    } else if s.len() == 19 {
        if s == "_NET_WM_STATE_ABOVE"@ {
            Some(Atom::NetWmStateAbove)
        } else if s == "_NET_WM_STATE_BELOW"@ {
            Some(Atom::NetWmStateBelow)
        } else if s == "_NET_WM_ACTION_MOVE"@ {
            Some(Atom::NetWmActionMove)
        } else if s == "_NET_WM_WINDOW_TYPE"@ {
            Some(Atom::NetWmWindowType)
        } else {
            None
        }
    } else if s.len() == 20 {
        if s == "_NET_CURRENT_DESKTOP"@ {
            Some(Atom::NetCurrentDesktop)
        } else if s == "_NET_WM_VISIBLE_NAME"@ {
            Some(Atom::NetWmVisibleName)
        } else if s == "_NET_WM_STATE_STICKY"@ {
            Some(Atom::NetWmStateSticky)
        } else if s == "_NET_WM_STATE_SHADED"@ {
            Some(Atom::NetWmStateShaded)
        } else if s == "_NET_WM_STATE_HIDDEN"@ {
            Some(Atom::NetWmStateHidden)
        } else if s == "_NET_WM_ACTION_SHADE"@ {
            Some(Atom::NetWmActionShade)
        } else if s == "_NET_WM_ACTION_STICK"@ {
            Some(Atom::NetWmActionStick)
        } else if s == "_NET_WM_ACTION_CLOSE"@ {
            Some(Atom::NetWmActionClose)
        } else if s == "_NET_WM_ACTION_ABOVE"@ {
            Some(Atom::NetWmActionAbove)
        } else if s == "_NET_WM_ACTION_BELOW"@ {
            Some(Atom::NetWmActionBelow)
        } else {
            None
        }
    } else if s.len() == 21 {
        if s == "_NET_DESKTOP_VIEWPORT"@ {
            Some(Atom::NetDesktopViewport)
        } else if s == "_NET_WM_ACTION_RESIZE"@ {
            Some(Atom::NetWmActionResize)
        } else if s == "_NET_WM_STRUT_PARTIAL"@ {
            Some(Atom::NetWmStrutPartial)
        } else if s == "_NET_WM_ICON_GEOMETRY"@ {
            Some(Atom::NetWmIconGeometry)
        } else if s == "_GTK_EDGE_CONSTRAINTS"@ {
            Some(Atom::GtkEdgeConstraint)
        } else {
            None
        }
    } else if s.len() == 22 {
        if s == "_FLUXBOX_WINDOW_HIDDEN"@ {
            Some(Atom::FluxboxWindowHidden)
        } else {
            None
        }
    } else if s.len() == 23 {
        if s == "_NET_NUMBER_OF_DESKTOPS"@ {
            Some(Atom::NetNumberOfDesktops)
        } else if s == "_NET_WM_ALLOWED_ACTIONS"@ {
            Some(Atom::NetWmAllowedActions)
        } else if s == "_NET_WM_ACTION_MINIMIZE"@ {
            Some(Atom::NetWmActionMinimize)
        } else if s == "_NET_WM_WINDOW_TYPE_DND"@ {
            Some(Atom::NetWmWindowTypeDnd)
        } else {
            None
        }
    } else if s.len() == 24 {
        if s == "_NET_SUPPORTING_WM_CHECK"@ {
            Some(Atom::NetSupportingWmCheck)
        } else if s == "_NET_WM_STATE_SKIP_PAGER"@ {
            Some(Atom::NetWmStateSkipPager)
        } else if s == "_NET_WM_STATE_FULLSCREEN"@ {
            Some(Atom::NetWmStateFullscreen)
        } else if s == "_NET_WM_WINDOW_TYPE_DOCK"@ {
            Some(Atom::NetWmWindowTypeDock)
        } else if s == "_NET_WM_WINDOW_TYPE_MENU"@ {
            Some(Atom::NetWmWindowTypeMenu)
        } else if s == "_NET_WM_USER_TIME_WINDOW"@ {
            Some(Atom::NetWmUserTimeWindow)
        } else {
            None
        }
    } else if s.len() == 25 {
        if s == "_NET_CLIENT_LIST_STACKING"@ {
            Some(Atom::NetClientListStacking)
        } else if s == "_NET_WM_VISIBLE_ICON_NAME"@ {
            Some(Atom::NetWmVisibleIconName)
        } else if s == "_NET_WM_ACTION_FULLSCREEN"@ {
            Some(Atom::NetWmActionFullscreen)
        } else if s == "_NET_WM_WINDOW_TYPE_COMBO"@ {
            Some(Atom::NetWmWindowTypeCombo)
        } else {
            None
        }
    } else if s.len() == 26 {
        if s == "_NET_WM_STATE_SKIP_TASKBAR"@ {
            Some(Atom::NetWmStateSkipTaskbar)
        } else if s == "_NET_WM_WINDOW_TYPE_SPLASH"@ {
            Some(Atom::NetWmWindowTypeSplash)
        } else if s == "_NET_WM_WINDOW_TYPE_DIALOG"@ {
            Some(Atom::NetWmWindowTypeDialog)
        } else if s == "_NET_WM_WINDOW_TYPE_NORMAL"@ {
            Some(Atom::NetWmWindowTypeNormal)
        } else if s == "_NET_REQUEST_FRAME_EXTENTS"@ {
            Some(Atom::NetRequestFrameExtents)
        } else {
            None
        }
    } else if s.len() == 27 {
        if s == "_NET_WM_WINDOW_TYPE_DESKTOP"@ {
            Some(Atom::NetWmWindowTypeDesktop)
        } else if s == "_NET_WM_WINDOW_TYPE_TOOLBAR"@ {
            Some(Atom::NetWmWindowTypeToolbar)
        } else if s == "_NET_WM_WINDOW_TYPE_UTILITY"@ {
            Some(Atom::NetWmWindowTypeUtility)
        } else if s == "_NET_WM_WINDOW_TYPE_TOOLTIP"@ {
            Some(Atom::NetWmWindowTypeTooltip)
        } else {
            None
        }
    } else if s.len() == 28 {
        if s == "_NET_WM_STATE_MAXIMIZED_VERT"@ {
            Some(Atom::NetWmStateMaximizedVert)
        } else if s == "_NET_WM_STATE_MAXIMIZED_HORZ"@ {
            Some(Atom::NetWmStateMaximizedHorz)
        } else if s == "_NET_WM_ACTION_MAXIMIZE_HORZ"@ {
            Some(Atom::NetWmActionMaximizeHorz)
        } else if s == "_NET_WM_ACTION_MAXIMIZE_VERT"@ {
            Some(Atom::NetWmActionMaximizeVert)
        } else {
            None
        }
    } else if s.len() == 29 {
        if s == "_NET_WM_ACTION_CHANGE_DESKTOP"@ {
            Some(Atom::NetWmActionChangeDesktop)
        } else {
            None
        }
    } else if s.len() == 30 {
        if s == "_NET_WM_WINDOW_TYPE_POPUP_MENU"@ {
            Some(Atom::NetWmWindowTypePopupMenu)
        } else {
            None
        }
    } else if s.len() == 31 {
        if s == "_NET_WM_STATE_DEMANDS_ATTENTION"@ {
            Some(Atom::NetWmStateDemandsAttention)
        } else {
            None
        }
    } else if s.len() == 32 {
        if s == "_NET_WM_WINDOW_TYPE_NOTIFICATION"@ {
            Some(Atom::NetWmWindowTypeNotification)
        } else {
            None
        }
    } else if s.len() == 33 {
        if s == "_NET_WM_WINDOW_TYPE_DROPDOWN_MENU"@ {
            Some(Atom::NetWmWindowTypeDropdownMenu)
        } else {
            None
        }
    } else {
        None
    }
}

/// Each atom's name reads back as that atom, and is not empty.
#[verifier::rlimit(50)]
proof fn lemma_atom_of_name(a: Atom)
    ensures
        atom_of_name(atom_name(a)) == Some(a),
        atom_name(a).len() > 0,
{
    match a {
        Atom::WmName => {
            reveal_strlit("WM_NAME");
            reveal_strlit("MANAGER");
            reveal_strlit("_XEMBED");
            assert("WM_NAME"@[0] != "MANAGER"@[0]);
            assert("WM_NAME"@[0] != "_XEMBED"@[0]);
            assert(atom_of_name(atom_name(Atom::WmName)) == Some(Atom::WmName));
        },
        Atom::WmIconName => {
            reveal_strlit("WM_ICON_NAME");
            reveal_strlit("WM_PROTOCOLS");
            reveal_strlit("_NET_WM_NAME");
            reveal_strlit("_NET_WM_ICON");
            reveal_strlit("_XEMBED_INFO");
            reveal_strlit("XdndPosition");
            reveal_strlit("XdndFinished");
            reveal_strlit("XdndTypeList");
            assert("WM_ICON_NAME"@[3] != "WM_PROTOCOLS"@[3]);
            assert("WM_ICON_NAME"@[0] != "_NET_WM_NAME"@[0]);
            assert("WM_ICON_NAME"@[0] != "_NET_WM_ICON"@[0]);
            assert("WM_ICON_NAME"@[0] != "_XEMBED_INFO"@[0]);
            assert("WM_ICON_NAME"@[0] != "XdndPosition"@[0]);
            assert("WM_ICON_NAME"@[0] != "XdndFinished"@[0]);
            assert("WM_ICON_NAME"@[0] != "XdndTypeList"@[0]);
            assert(atom_of_name(atom_name(Atom::WmIconName)) == Some(Atom::WmIconName));
        },
        Atom::WmHints => {
            reveal_strlit("WM_HINTS");
            reveal_strlit("WM_CLASS");
            reveal_strlit("WM_STATE");
            reveal_strlit("XdndDrop");
            reveal_strlit("CARDINAL");
            assert("WM_HINTS"@[3] != "WM_CLASS"@[3]);
            assert("WM_HINTS"@[3] != "WM_STATE"@[3]);
            assert("WM_HINTS"@[0] != "XdndDrop"@[0]);
            assert("WM_HINTS"@[0] != "CARDINAL"@[0]);
            assert(atom_of_name(atom_name(Atom::WmHints)) == Some(Atom::WmHints));
        },
        Atom::WmNormalHints => {
            reveal_strlit("WM_NORMAL_HINTS");
            reveal_strlit("WM_CHANGE_STATE");
            reveal_strlit("_NET_WM_DESKTOP");
            reveal_strlit("_MOTIF_WM_HINTS");
            reveal_strlit("_FLUXBOX_WINDOW");
            assert("WM_NORMAL_HINTS"@[3] != "WM_CHANGE_STATE"@[3]);
            assert("WM_NORMAL_HINTS"@[0] != "_NET_WM_DESKTOP"@[0]);
            assert("WM_NORMAL_HINTS"@[0] != "_MOTIF_WM_HINTS"@[0]);
            assert("WM_NORMAL_HINTS"@[0] != "_FLUXBOX_WINDOW"@[0]);
            assert(atom_of_name(atom_name(Atom::WmNormalHints)) == Some(Atom::WmNormalHints));
        },
        Atom::WmClass => {
            reveal_strlit("WM_HINTS");
            reveal_strlit("WM_CLASS");
            reveal_strlit("WM_STATE");
            reveal_strlit("XdndDrop");
            reveal_strlit("CARDINAL");
            assert("WM_CLASS"@[3] != "WM_HINTS"@[3]);
            assert("WM_CLASS"@[3] != "WM_STATE"@[3]);
            assert("WM_CLASS"@[0] != "XdndDrop"@[0]);
            assert("WM_CLASS"@[0] != "CARDINAL"@[0]);
            assert(atom_of_name(atom_name(Atom::WmClass)) == Some(Atom::WmClass));
        },
        Atom::WmTransientFor => {
            reveal_strlit("WM_TRANSIENT_FOR");
            reveal_strlit("WM_DELETE_WINDOW");
            reveal_strlit("_NET_CLIENT_LIST");
            reveal_strlit("_KDE_WM_WIN_HINT");
            assert("WM_TRANSIENT_FOR"@[3] != "WM_DELETE_WINDOW"@[3]);
            assert("WM_TRANSIENT_FOR"@[0] != "_NET_CLIENT_LIST"@[0]);
            assert("WM_TRANSIENT_FOR"@[0] != "_KDE_WM_WIN_HINT"@[0]);
            assert(atom_of_name(atom_name(Atom::WmTransientFor)) == Some(Atom::WmTransientFor));
        },
        Atom::WmProtocols => {
            reveal_strlit("WM_ICON_NAME");
            reveal_strlit("WM_PROTOCOLS");
            reveal_strlit("_NET_WM_NAME");
            reveal_strlit("_NET_WM_ICON");
            reveal_strlit("_XEMBED_INFO");
            reveal_strlit("XdndPosition");
            reveal_strlit("XdndFinished");
            reveal_strlit("XdndTypeList");
            assert("WM_PROTOCOLS"@[3] != "WM_ICON_NAME"@[3]);
            assert("WM_PROTOCOLS"@[0] != "_NET_WM_NAME"@[0]);
            assert("WM_PROTOCOLS"@[0] != "_NET_WM_ICON"@[0]);
            assert("WM_PROTOCOLS"@[0] != "_XEMBED_INFO"@[0]);
            assert("WM_PROTOCOLS"@[0] != "XdndPosition"@[0]);
            assert("WM_PROTOCOLS"@[0] != "XdndFinished"@[0]);
            assert("WM_PROTOCOLS"@[0] != "XdndTypeList"@[0]);
            assert(atom_of_name(atom_name(Atom::WmProtocols)) == Some(Atom::WmProtocols));
        },
        Atom::WmDeleteWindow => {
            reveal_strlit("WM_TRANSIENT_FOR");
            reveal_strlit("WM_DELETE_WINDOW");
            reveal_strlit("_NET_CLIENT_LIST");
            reveal_strlit("_KDE_WM_WIN_HINT");
            assert("WM_DELETE_WINDOW"@[3] != "WM_TRANSIENT_FOR"@[3]);
            assert("WM_DELETE_WINDOW"@[0] != "_NET_CLIENT_LIST"@[0]);
            assert("WM_DELETE_WINDOW"@[0] != "_KDE_WM_WIN_HINT"@[0]);
            assert(atom_of_name(atom_name(Atom::WmDeleteWindow)) == Some(Atom::WmDeleteWindow));
        },
        Atom::WmTakeFocus => {
            reveal_strlit("WM_TAKE_FOCUS");
            reveal_strlit("_NET_WORKAREA");
            reveal_strlit("_NET_WM_STATE");
            reveal_strlit("_NET_WM_STRUT");
            assert("WM_TAKE_FOCUS"@[0] != "_NET_WORKAREA"@[0]);
            assert("WM_TAKE_FOCUS"@[0] != "_NET_WM_STATE"@[0]);
            assert("WM_TAKE_FOCUS"@[0] != "_NET_WM_STRUT"@[0]);
            assert(atom_of_name(atom_name(Atom::WmTakeFocus)) == Some(Atom::WmTakeFocus));
        },
        Atom::WmChangeState => {
            reveal_strlit("WM_NORMAL_HINTS");
            reveal_strlit("WM_CHANGE_STATE");
            reveal_strlit("_NET_WM_DESKTOP");
            reveal_strlit("_MOTIF_WM_HINTS");
            reveal_strlit("_FLUXBOX_WINDOW");
            assert("WM_CHANGE_STATE"@[3] != "WM_NORMAL_HINTS"@[3]);
            assert("WM_CHANGE_STATE"@[0] != "_NET_WM_DESKTOP"@[0]);
            assert("WM_CHANGE_STATE"@[0] != "_MOTIF_WM_HINTS"@[0]);
            assert("WM_CHANGE_STATE"@[0] != "_FLUXBOX_WINDOW"@[0]);
            assert(atom_of_name(atom_name(Atom::WmChangeState)) == Some(Atom::WmChangeState));
        },
        Atom::WmState => {
            reveal_strlit("WM_HINTS");
            reveal_strlit("WM_CLASS");
            reveal_strlit("WM_STATE");
            reveal_strlit("XdndDrop");
            reveal_strlit("CARDINAL");
            assert("WM_STATE"@[3] != "WM_HINTS"@[3]);
            assert("WM_STATE"@[3] != "WM_CLASS"@[3]);
            assert("WM_STATE"@[0] != "XdndDrop"@[0]);
            assert("WM_STATE"@[0] != "CARDINAL"@[0]);
            assert(atom_of_name(atom_name(Atom::WmState)) == Some(Atom::WmState));
        },
        Atom::WmClientMachine => {
            reveal_strlit("WM_CLIENT_MACHINE");
            reveal_strlit("_NET_CLOSE_WINDOW");
            reveal_strlit("_NET_WM_ICON_NAME");
            reveal_strlit("_NET_WM_USER_TIME");
            reveal_strlit("_NET_FRAME_WINDOW");
            assert("WM_CLIENT_MACHINE"@[0] != "_NET_CLOSE_WINDOW"@[0]);
            assert("WM_CLIENT_MACHINE"@[0] != "_NET_WM_ICON_NAME"@[0]);
            assert("WM_CLIENT_MACHINE"@[0] != "_NET_WM_USER_TIME"@[0]);
            assert("WM_CLIENT_MACHINE"@[0] != "_NET_FRAME_WINDOW"@[0]);
            assert(atom_of_name(atom_name(Atom::WmClientMachine)) == Some(Atom::WmClientMachine));
        },
        Atom::WmCommand => {
            reveal_strlit("WM_COMMAND");
            reveal_strlit("XdndStatus");
            assert("WM_COMMAND"@[0] != "XdndStatus"@[0]);
            assert(atom_of_name(atom_name(Atom::WmCommand)) == Some(Atom::WmCommand));
        },
        Atom::NetSupported => {
            reveal_strlit("_NET_SUPPORTED");
            reveal_strlit("Fluxbox/remote");
            reveal_strlit("XdndActionList");
            reveal_strlit("XdndActionCopy");
            reveal_strlit("_WM_MOVERESIZE");
            assert("_NET_SUPPORTED"@[0] != "Fluxbox/remote"@[0]);
            assert("_NET_SUPPORTED"@[0] != "XdndActionList"@[0]);
            assert("_NET_SUPPORTED"@[0] != "XdndActionCopy"@[0]);
            assert("_NET_SUPPORTED"@[1] != "_WM_MOVERESIZE"@[1]);
            assert(atom_of_name(atom_name(Atom::NetSupported)) == Some(Atom::NetSupported));
        },
        Atom::NetClientList => {
            reveal_strlit("WM_TRANSIENT_FOR");
            reveal_strlit("WM_DELETE_WINDOW");
            reveal_strlit("_NET_CLIENT_LIST");
            reveal_strlit("_KDE_WM_WIN_HINT");
            assert("_NET_CLIENT_LIST"@[0] != "WM_TRANSIENT_FOR"@[0]);
            assert("_NET_CLIENT_LIST"@[0] != "WM_DELETE_WINDOW"@[0]);
            assert("_NET_CLIENT_LIST"@[1] != "_KDE_WM_WIN_HINT"@[1]);
            assert(atom_of_name(atom_name(Atom::NetClientList)) == Some(Atom::NetClientList));
        },
        Atom::NetClientListStacking => {
            reveal_strlit("_NET_CLIENT_LIST_STACKING");
            reveal_strlit("_NET_WM_VISIBLE_ICON_NAME");
            reveal_strlit("_NET_WM_ACTION_FULLSCREEN");
            reveal_strlit("_NET_WM_WINDOW_TYPE_COMBO");
            assert("_NET_CLIENT_LIST_STACKING"@[5] != "_NET_WM_VISIBLE_ICON_NAME"@[5]);
            assert("_NET_CLIENT_LIST_STACKING"@[5] != "_NET_WM_ACTION_FULLSCREEN"@[5]);
            assert("_NET_CLIENT_LIST_STACKING"@[5] != "_NET_WM_WINDOW_TYPE_COMBO"@[5]);
            assert(atom_of_name(atom_name(Atom::NetClientListStacking)) == Some(Atom::NetClientListStacking));
        },
        Atom::NetNumberOfDesktops => {
            reveal_strlit("_NET_NUMBER_OF_DESKTOPS");
            reveal_strlit("_NET_WM_ALLOWED_ACTIONS");
            reveal_strlit("_NET_WM_ACTION_MINIMIZE");
            reveal_strlit("_NET_WM_WINDOW_TYPE_DND");
            assert("_NET_NUMBER_OF_DESKTOPS"@[5] != "_NET_WM_ALLOWED_ACTIONS"@[5]);
            assert("_NET_NUMBER_OF_DESKTOPS"@[5] != "_NET_WM_ACTION_MINIMIZE"@[5]);
            assert("_NET_NUMBER_OF_DESKTOPS"@[5] != "_NET_WM_WINDOW_TYPE_DND"@[5]);
            assert(atom_of_name(atom_name(Atom::NetNumberOfDesktops)) == Some(Atom::NetNumberOfDesktops));
        },
        Atom::NetDesktopViewport => {
            reveal_strlit("_NET_DESKTOP_VIEWPORT");
            reveal_strlit("_NET_WM_ACTION_RESIZE");
            reveal_strlit("_NET_WM_STRUT_PARTIAL");
            reveal_strlit("_NET_WM_ICON_GEOMETRY");
            reveal_strlit("_GTK_EDGE_CONSTRAINTS");
            assert("_NET_DESKTOP_VIEWPORT"@[5] != "_NET_WM_ACTION_RESIZE"@[5]);
            assert("_NET_DESKTOP_VIEWPORT"@[5] != "_NET_WM_STRUT_PARTIAL"@[5]);
            assert("_NET_DESKTOP_VIEWPORT"@[5] != "_NET_WM_ICON_GEOMETRY"@[5]);
            assert("_NET_DESKTOP_VIEWPORT"@[1] != "_GTK_EDGE_CONSTRAINTS"@[1]);
            assert(atom_of_name(atom_name(Atom::NetDesktopViewport)) == Some(Atom::NetDesktopViewport));
        },
        Atom::NetCurrentDesktop => {
            reveal_strlit("_NET_CURRENT_DESKTOP");
            reveal_strlit("_NET_WM_VISIBLE_NAME");
            reveal_strlit("_NET_WM_STATE_STICKY");
            reveal_strlit("_NET_WM_STATE_SHADED");
            reveal_strlit("_NET_WM_STATE_HIDDEN");
            reveal_strlit("_NET_WM_ACTION_SHADE");
            reveal_strlit("_NET_WM_ACTION_STICK");
            reveal_strlit("_NET_WM_ACTION_CLOSE");
            reveal_strlit("_NET_WM_ACTION_ABOVE");
            reveal_strlit("_NET_WM_ACTION_BELOW");
            assert("_NET_CURRENT_DESKTOP"@[5] != "_NET_WM_VISIBLE_NAME"@[5]);
            assert("_NET_CURRENT_DESKTOP"@[5] != "_NET_WM_STATE_STICKY"@[5]);
            assert("_NET_CURRENT_DESKTOP"@[5] != "_NET_WM_STATE_SHADED"@[5]);
            assert("_NET_CURRENT_DESKTOP"@[5] != "_NET_WM_STATE_HIDDEN"@[5]);
            assert("_NET_CURRENT_DESKTOP"@[5] != "_NET_WM_ACTION_SHADE"@[5]);
            assert("_NET_CURRENT_DESKTOP"@[5] != "_NET_WM_ACTION_STICK"@[5]);
            assert("_NET_CURRENT_DESKTOP"@[5] != "_NET_WM_ACTION_CLOSE"@[5]);
            assert("_NET_CURRENT_DESKTOP"@[5] != "_NET_WM_ACTION_ABOVE"@[5]);
            assert("_NET_CURRENT_DESKTOP"@[5] != "_NET_WM_ACTION_BELOW"@[5]);
            assert(atom_of_name(atom_name(Atom::NetCurrentDesktop)) == Some(Atom::NetCurrentDesktop));
        },
        Atom::NetDesktopNames => {
            reveal_strlit("_NET_DESKTOP_NAMES");
            reveal_strlit("_NET_ACTIVE_WINDOW");
            reveal_strlit("_NET_VIRTUAL_ROOTS");
            reveal_strlit("_NET_FRAME_EXTENTS");
            reveal_strlit("FLUXBOX_REMOTE_CMD");
            reveal_strlit("_GTK_FRAME_EXTENTS");
            assert("_NET_DESKTOP_NAMES"@[5] != "_NET_ACTIVE_WINDOW"@[5]);
            assert("_NET_DESKTOP_NAMES"@[5] != "_NET_VIRTUAL_ROOTS"@[5]);
            assert("_NET_DESKTOP_NAMES"@[5] != "_NET_FRAME_EXTENTS"@[5]);
            assert("_NET_DESKTOP_NAMES"@[0] != "FLUXBOX_REMOTE_CMD"@[0]);
            assert("_NET_DESKTOP_NAMES"@[1] != "_GTK_FRAME_EXTENTS"@[1]);
            assert(atom_of_name(atom_name(Atom::NetDesktopNames)) == Some(Atom::NetDesktopNames));
        },
        Atom::NetActiveWindow => {
            reveal_strlit("_NET_DESKTOP_NAMES");
            reveal_strlit("_NET_ACTIVE_WINDOW");
            reveal_strlit("_NET_VIRTUAL_ROOTS");
            reveal_strlit("_NET_FRAME_EXTENTS");
            reveal_strlit("FLUXBOX_REMOTE_CMD");
            reveal_strlit("_GTK_FRAME_EXTENTS");
            assert("_NET_ACTIVE_WINDOW"@[5] != "_NET_DESKTOP_NAMES"@[5]);
            assert("_NET_ACTIVE_WINDOW"@[5] != "_NET_VIRTUAL_ROOTS"@[5]);
            assert("_NET_ACTIVE_WINDOW"@[5] != "_NET_FRAME_EXTENTS"@[5]);
            assert("_NET_ACTIVE_WINDOW"@[0] != "FLUXBOX_REMOTE_CMD"@[0]);
            assert("_NET_ACTIVE_WINDOW"@[1] != "_GTK_FRAME_EXTENTS"@[1]);
            assert(atom_of_name(atom_name(Atom::NetActiveWindow)) == Some(Atom::NetActiveWindow));
        },
        Atom::NetWorkarea => {
            reveal_strlit("WM_TAKE_FOCUS");
            reveal_strlit("_NET_WORKAREA");
            reveal_strlit("_NET_WM_STATE");
            reveal_strlit("_NET_WM_STRUT");
            assert("_NET_WORKAREA"@[0] != "WM_TAKE_FOCUS"@[0]);
            assert("_NET_WORKAREA"@[6] != "_NET_WM_STATE"@[6]);
            assert("_NET_WORKAREA"@[6] != "_NET_WM_STRUT"@[6]);
            assert(atom_of_name(atom_name(Atom::NetWorkarea)) == Some(Atom::NetWorkarea));
        },
        Atom::NetSupportingWmCheck => {
            reveal_strlit("_NET_SUPPORTING_WM_CHECK");
            reveal_strlit("_NET_WM_STATE_SKIP_PAGER");
            reveal_strlit("_NET_WM_STATE_FULLSCREEN");
            reveal_strlit("_NET_WM_WINDOW_TYPE_DOCK");
            reveal_strlit("_NET_WM_WINDOW_TYPE_MENU");
            reveal_strlit("_NET_WM_USER_TIME_WINDOW");
            assert("_NET_SUPPORTING_WM_CHECK"@[5] != "_NET_WM_STATE_SKIP_PAGER"@[5]);
            assert("_NET_SUPPORTING_WM_CHECK"@[5] != "_NET_WM_STATE_FULLSCREEN"@[5]);
            assert("_NET_SUPPORTING_WM_CHECK"@[5] != "_NET_WM_WINDOW_TYPE_DOCK"@[5]);
            assert("_NET_SUPPORTING_WM_CHECK"@[5] != "_NET_WM_WINDOW_TYPE_MENU"@[5]);
            assert("_NET_SUPPORTING_WM_CHECK"@[5] != "_NET_WM_USER_TIME_WINDOW"@[5]);
            assert(atom_of_name(atom_name(Atom::NetSupportingWmCheck)) == Some(Atom::NetSupportingWmCheck));
        },
        Atom::NetVirtualRoots => {
            reveal_strlit("_NET_DESKTOP_NAMES");
            reveal_strlit("_NET_ACTIVE_WINDOW");
            reveal_strlit("_NET_VIRTUAL_ROOTS");
            reveal_strlit("_NET_FRAME_EXTENTS");
            reveal_strlit("FLUXBOX_REMOTE_CMD");
            reveal_strlit("_GTK_FRAME_EXTENTS");
            assert("_NET_VIRTUAL_ROOTS"@[5] != "_NET_DESKTOP_NAMES"@[5]);
            assert("_NET_VIRTUAL_ROOTS"@[5] != "_NET_ACTIVE_WINDOW"@[5]);
            assert("_NET_VIRTUAL_ROOTS"@[5] != "_NET_FRAME_EXTENTS"@[5]);
            assert("_NET_VIRTUAL_ROOTS"@[0] != "FLUXBOX_REMOTE_CMD"@[0]);
            assert("_NET_VIRTUAL_ROOTS"@[1] != "_GTK_FRAME_EXTENTS"@[1]);
            assert(atom_of_name(atom_name(Atom::NetVirtualRoots)) == Some(Atom::NetVirtualRoots));
        },
        Atom::NetCloseWindow => {
            reveal_strlit("WM_CLIENT_MACHINE");
            reveal_strlit("_NET_CLOSE_WINDOW");
            reveal_strlit("_NET_WM_ICON_NAME");
            reveal_strlit("_NET_WM_USER_TIME");
            reveal_strlit("_NET_FRAME_WINDOW");
            assert("_NET_CLOSE_WINDOW"@[0] != "WM_CLIENT_MACHINE"@[0]);
            assert("_NET_CLOSE_WINDOW"@[5] != "_NET_WM_ICON_NAME"@[5]);
            assert("_NET_CLOSE_WINDOW"@[5] != "_NET_WM_USER_TIME"@[5]);
            assert("_NET_CLOSE_WINDOW"@[5] != "_NET_FRAME_WINDOW"@[5]);
            assert(atom_of_name(atom_name(Atom::NetCloseWindow)) == Some(Atom::NetCloseWindow));
        },
        Atom::NetWmName => {
            reveal_strlit("WM_ICON_NAME");
            reveal_strlit("WM_PROTOCOLS");
            reveal_strlit("_NET_WM_NAME");
            reveal_strlit("_NET_WM_ICON");
            reveal_strlit("_XEMBED_INFO");
            reveal_strlit("XdndPosition");
            reveal_strlit("XdndFinished");
            reveal_strlit("XdndTypeList");
            assert("_NET_WM_NAME"@[0] != "WM_ICON_NAME"@[0]);
            assert("_NET_WM_NAME"@[0] != "WM_PROTOCOLS"@[0]);
            assert("_NET_WM_NAME"@[8] != "_NET_WM_ICON"@[8]);
            assert("_NET_WM_NAME"@[1] != "_XEMBED_INFO"@[1]);
            assert("_NET_WM_NAME"@[0] != "XdndPosition"@[0]);
            assert("_NET_WM_NAME"@[0] != "XdndFinished"@[0]);
            assert("_NET_WM_NAME"@[0] != "XdndTypeList"@[0]);
            assert(atom_of_name(atom_name(Atom::NetWmName)) == Some(Atom::NetWmName));
        },
        Atom::NetWmVisibleName => {
            reveal_strlit("_NET_CURRENT_DESKTOP");
            reveal_strlit("_NET_WM_VISIBLE_NAME");
            reveal_strlit("_NET_WM_STATE_STICKY");
            reveal_strlit("_NET_WM_STATE_SHADED");
            reveal_strlit("_NET_WM_STATE_HIDDEN");
            reveal_strlit("_NET_WM_ACTION_SHADE");
            reveal_strlit("_NET_WM_ACTION_STICK");
            reveal_strlit("_NET_WM_ACTION_CLOSE");
            reveal_strlit("_NET_WM_ACTION_ABOVE");
            reveal_strlit("_NET_WM_ACTION_BELOW");
            assert("_NET_WM_VISIBLE_NAME"@[5] != "_NET_CURRENT_DESKTOP"@[5]);
            assert("_NET_WM_VISIBLE_NAME"@[8] != "_NET_WM_STATE_STICKY"@[8]);
            assert("_NET_WM_VISIBLE_NAME"@[8] != "_NET_WM_STATE_SHADED"@[8]);
            assert("_NET_WM_VISIBLE_NAME"@[8] != "_NET_WM_STATE_HIDDEN"@[8]);
            assert("_NET_WM_VISIBLE_NAME"@[8] != "_NET_WM_ACTION_SHADE"@[8]);
            assert("_NET_WM_VISIBLE_NAME"@[8] != "_NET_WM_ACTION_STICK"@[8]);
            assert("_NET_WM_VISIBLE_NAME"@[8] != "_NET_WM_ACTION_CLOSE"@[8]);
            assert("_NET_WM_VISIBLE_NAME"@[8] != "_NET_WM_ACTION_ABOVE"@[8]);
            assert("_NET_WM_VISIBLE_NAME"@[8] != "_NET_WM_ACTION_BELOW"@[8]);
            assert(atom_of_name(atom_name(Atom::NetWmVisibleName)) == Some(Atom::NetWmVisibleName));
        },
        Atom::NetWmIconName => {
            reveal_strlit("WM_CLIENT_MACHINE");
            reveal_strlit("_NET_CLOSE_WINDOW");
            reveal_strlit("_NET_WM_ICON_NAME");
            reveal_strlit("_NET_WM_USER_TIME");
            reveal_strlit("_NET_FRAME_WINDOW");
            assert("_NET_WM_ICON_NAME"@[0] != "WM_CLIENT_MACHINE"@[0]);
            assert("_NET_WM_ICON_NAME"@[5] != "_NET_CLOSE_WINDOW"@[5]);
            assert("_NET_WM_ICON_NAME"@[8] != "_NET_WM_USER_TIME"@[8]);
            assert("_NET_WM_ICON_NAME"@[5] != "_NET_FRAME_WINDOW"@[5]);
            assert(atom_of_name(atom_name(Atom::NetWmIconName)) == Some(Atom::NetWmIconName));
        },
        Atom::NetWmVisibleIconName => {
            reveal_strlit("_NET_CLIENT_LIST_STACKING");
            reveal_strlit("_NET_WM_VISIBLE_ICON_NAME");
            reveal_strlit("_NET_WM_ACTION_FULLSCREEN");
            reveal_strlit("_NET_WM_WINDOW_TYPE_COMBO");
            assert("_NET_WM_VISIBLE_ICON_NAME"@[5] != "_NET_CLIENT_LIST_STACKING"@[5]);
            assert("_NET_WM_VISIBLE_ICON_NAME"@[8] != "_NET_WM_ACTION_FULLSCREEN"@[8]);
            assert("_NET_WM_VISIBLE_ICON_NAME"@[8] != "_NET_WM_WINDOW_TYPE_COMBO"@[8]);
            assert(atom_of_name(atom_name(Atom::NetWmVisibleIconName)) == Some(Atom::NetWmVisibleIconName));
        },
        Atom::NetWmDesktop => {
            reveal_strlit("WM_NORMAL_HINTS");
            reveal_strlit("WM_CHANGE_STATE");
            reveal_strlit("_NET_WM_DESKTOP");
            reveal_strlit("_MOTIF_WM_HINTS");
            reveal_strlit("_FLUXBOX_WINDOW");
            assert("_NET_WM_DESKTOP"@[0] != "WM_NORMAL_HINTS"@[0]);
            assert("_NET_WM_DESKTOP"@[0] != "WM_CHANGE_STATE"@[0]);
            assert("_NET_WM_DESKTOP"@[1] != "_MOTIF_WM_HINTS"@[1]);
            assert("_NET_WM_DESKTOP"@[1] != "_FLUXBOX_WINDOW"@[1]);
            assert(atom_of_name(atom_name(Atom::NetWmDesktop)) == Some(Atom::NetWmDesktop));
        },
        Atom::NetWmState => {
            reveal_strlit("WM_TAKE_FOCUS");
            reveal_strlit("_NET_WORKAREA");
            reveal_strlit("_NET_WM_STATE");
            reveal_strlit("_NET_WM_STRUT");
            assert("_NET_WM_STATE"@[0] != "WM_TAKE_FOCUS"@[0]);
            assert("_NET_WM_STATE"@[6] != "_NET_WORKAREA"@[6]);
            assert("_NET_WM_STATE"@[10] != "_NET_WM_STRUT"@[10]);
            assert(atom_of_name(atom_name(Atom::NetWmState)) == Some(Atom::NetWmState));
        },
        Atom::NetWmStateSticky => {
            reveal_strlit("_NET_CURRENT_DESKTOP");
            reveal_strlit("_NET_WM_VISIBLE_NAME");
            reveal_strlit("_NET_WM_STATE_STICKY");
            reveal_strlit("_NET_WM_STATE_SHADED");
            reveal_strlit("_NET_WM_STATE_HIDDEN");
            reveal_strlit("_NET_WM_ACTION_SHADE");
            reveal_strlit("_NET_WM_ACTION_STICK");
            reveal_strlit("_NET_WM_ACTION_CLOSE");
            reveal_strlit("_NET_WM_ACTION_ABOVE");
            reveal_strlit("_NET_WM_ACTION_BELOW");
            assert("_NET_WM_STATE_STICKY"@[5] != "_NET_CURRENT_DESKTOP"@[5]);
            assert("_NET_WM_STATE_STICKY"@[8] != "_NET_WM_VISIBLE_NAME"@[8]);
            assert("_NET_WM_STATE_STICKY"@[15] != "_NET_WM_STATE_SHADED"@[15]);
            assert("_NET_WM_STATE_STICKY"@[14] != "_NET_WM_STATE_HIDDEN"@[14]);
            assert("_NET_WM_STATE_STICKY"@[8] != "_NET_WM_ACTION_SHADE"@[8]);
            assert("_NET_WM_STATE_STICKY"@[8] != "_NET_WM_ACTION_STICK"@[8]);
            assert("_NET_WM_STATE_STICKY"@[8] != "_NET_WM_ACTION_CLOSE"@[8]);
            assert("_NET_WM_STATE_STICKY"@[8] != "_NET_WM_ACTION_ABOVE"@[8]);
            assert("_NET_WM_STATE_STICKY"@[8] != "_NET_WM_ACTION_BELOW"@[8]);
            assert(atom_of_name(atom_name(Atom::NetWmStateSticky)) == Some(Atom::NetWmStateSticky));
        },
        Atom::NetWmStateMaximizedVert => {
            reveal_strlit("_NET_WM_STATE_MAXIMIZED_VERT");
            reveal_strlit("_NET_WM_STATE_MAXIMIZED_HORZ");
            reveal_strlit("_NET_WM_ACTION_MAXIMIZE_HORZ");
            reveal_strlit("_NET_WM_ACTION_MAXIMIZE_VERT");
            assert("_NET_WM_STATE_MAXIMIZED_VERT"@[24] != "_NET_WM_STATE_MAXIMIZED_HORZ"@[24]);
            assert("_NET_WM_STATE_MAXIMIZED_VERT"@[8] != "_NET_WM_ACTION_MAXIMIZE_HORZ"@[8]);
            assert("_NET_WM_STATE_MAXIMIZED_VERT"@[8] != "_NET_WM_ACTION_MAXIMIZE_VERT"@[8]);
            assert(atom_of_name(atom_name(Atom::NetWmStateMaximizedVert)) == Some(Atom::NetWmStateMaximizedVert));
        },
        Atom::NetWmStateMaximizedHorz => {
            reveal_strlit("_NET_WM_STATE_MAXIMIZED_VERT");
            reveal_strlit("_NET_WM_STATE_MAXIMIZED_HORZ");
            reveal_strlit("_NET_WM_ACTION_MAXIMIZE_HORZ");
            reveal_strlit("_NET_WM_ACTION_MAXIMIZE_VERT");
            assert("_NET_WM_STATE_MAXIMIZED_HORZ"@[24] != "_NET_WM_STATE_MAXIMIZED_VERT"@[24]);
            assert("_NET_WM_STATE_MAXIMIZED_HORZ"@[8] != "_NET_WM_ACTION_MAXIMIZE_HORZ"@[8]);
            assert("_NET_WM_STATE_MAXIMIZED_HORZ"@[8] != "_NET_WM_ACTION_MAXIMIZE_VERT"@[8]);
            assert(atom_of_name(atom_name(Atom::NetWmStateMaximizedHorz)) == Some(Atom::NetWmStateMaximizedHorz));
        },
        Atom::NetWmStateShaded => {
            reveal_strlit("_NET_CURRENT_DESKTOP");
            reveal_strlit("_NET_WM_VISIBLE_NAME");
            reveal_strlit("_NET_WM_STATE_STICKY");
            reveal_strlit("_NET_WM_STATE_SHADED");
            reveal_strlit("_NET_WM_STATE_HIDDEN");
            reveal_strlit("_NET_WM_ACTION_SHADE");
            reveal_strlit("_NET_WM_ACTION_STICK");
            reveal_strlit("_NET_WM_ACTION_CLOSE");
            reveal_strlit("_NET_WM_ACTION_ABOVE");
            reveal_strlit("_NET_WM_ACTION_BELOW");
            assert("_NET_WM_STATE_SHADED"@[5] != "_NET_CURRENT_DESKTOP"@[5]);
            assert("_NET_WM_STATE_SHADED"@[8] != "_NET_WM_VISIBLE_NAME"@[8]);
            assert("_NET_WM_STATE_SHADED"@[15] != "_NET_WM_STATE_STICKY"@[15]);
            assert("_NET_WM_STATE_SHADED"@[14] != "_NET_WM_STATE_HIDDEN"@[14]);
            assert("_NET_WM_STATE_SHADED"@[8] != "_NET_WM_ACTION_SHADE"@[8]);
            assert("_NET_WM_STATE_SHADED"@[8] != "_NET_WM_ACTION_STICK"@[8]);
            assert("_NET_WM_STATE_SHADED"@[8] != "_NET_WM_ACTION_CLOSE"@[8]);
            assert("_NET_WM_STATE_SHADED"@[8] != "_NET_WM_ACTION_ABOVE"@[8]);
            assert("_NET_WM_STATE_SHADED"@[8] != "_NET_WM_ACTION_BELOW"@[8]);
            assert(atom_of_name(atom_name(Atom::NetWmStateShaded)) == Some(Atom::NetWmStateShaded));
        },
        Atom::NetWmStateSkipTaskbar => {
            reveal_strlit("_NET_WM_STATE_SKIP_TASKBAR");
            reveal_strlit("_NET_WM_WINDOW_TYPE_SPLASH");
            reveal_strlit("_NET_WM_WINDOW_TYPE_DIALOG");
            reveal_strlit("_NET_WM_WINDOW_TYPE_NORMAL");
            reveal_strlit("_NET_REQUEST_FRAME_EXTENTS");
            assert("_NET_WM_STATE_SKIP_TASKBAR"@[8] != "_NET_WM_WINDOW_TYPE_SPLASH"@[8]);
            assert("_NET_WM_STATE_SKIP_TASKBAR"@[8] != "_NET_WM_WINDOW_TYPE_DIALOG"@[8]);
            assert("_NET_WM_STATE_SKIP_TASKBAR"@[8] != "_NET_WM_WINDOW_TYPE_NORMAL"@[8]);
            assert("_NET_WM_STATE_SKIP_TASKBAR"@[5] != "_NET_REQUEST_FRAME_EXTENTS"@[5]);
            assert(atom_of_name(atom_name(Atom::NetWmStateSkipTaskbar)) == Some(Atom::NetWmStateSkipTaskbar));
        },
        Atom::NetWmStateSkipPager => {
            reveal_strlit("_NET_SUPPORTING_WM_CHECK");
            reveal_strlit("_NET_WM_STATE_SKIP_PAGER");
            reveal_strlit("_NET_WM_STATE_FULLSCREEN");
            reveal_strlit("_NET_WM_WINDOW_TYPE_DOCK");
            reveal_strlit("_NET_WM_WINDOW_TYPE_MENU");
            reveal_strlit("_NET_WM_USER_TIME_WINDOW");
            assert("_NET_WM_STATE_SKIP_PAGER"@[5] != "_NET_SUPPORTING_WM_CHECK"@[5]);
            assert("_NET_WM_STATE_SKIP_PAGER"@[14] != "_NET_WM_STATE_FULLSCREEN"@[14]);
            assert("_NET_WM_STATE_SKIP_PAGER"@[8] != "_NET_WM_WINDOW_TYPE_DOCK"@[8]);
            assert("_NET_WM_STATE_SKIP_PAGER"@[8] != "_NET_WM_WINDOW_TYPE_MENU"@[8]);
            assert("_NET_WM_STATE_SKIP_PAGER"@[8] != "_NET_WM_USER_TIME_WINDOW"@[8]);
            assert(atom_of_name(atom_name(Atom::NetWmStateSkipPager)) == Some(Atom::NetWmStateSkipPager));
        },
        Atom::NetWmStateHidden => {
            reveal_strlit("_NET_CURRENT_DESKTOP");
            reveal_strlit("_NET_WM_VISIBLE_NAME");
            reveal_strlit("_NET_WM_STATE_STICKY");
            reveal_strlit("_NET_WM_STATE_SHADED");
            reveal_strlit("_NET_WM_STATE_HIDDEN");
            reveal_strlit("_NET_WM_ACTION_SHADE");
            reveal_strlit("_NET_WM_ACTION_STICK");
            reveal_strlit("_NET_WM_ACTION_CLOSE");
            reveal_strlit("_NET_WM_ACTION_ABOVE");
            reveal_strlit("_NET_WM_ACTION_BELOW");
            assert("_NET_WM_STATE_HIDDEN"@[5] != "_NET_CURRENT_DESKTOP"@[5]);
            assert("_NET_WM_STATE_HIDDEN"@[8] != "_NET_WM_VISIBLE_NAME"@[8]);
            assert("_NET_WM_STATE_HIDDEN"@[14] != "_NET_WM_STATE_STICKY"@[14]);
            assert("_NET_WM_STATE_HIDDEN"@[14] != "_NET_WM_STATE_SHADED"@[14]);
            assert("_NET_WM_STATE_HIDDEN"@[8] != "_NET_WM_ACTION_SHADE"@[8]);
            assert("_NET_WM_STATE_HIDDEN"@[8] != "_NET_WM_ACTION_STICK"@[8]);
            assert("_NET_WM_STATE_HIDDEN"@[8] != "_NET_WM_ACTION_CLOSE"@[8]);
            assert("_NET_WM_STATE_HIDDEN"@[8] != "_NET_WM_ACTION_ABOVE"@[8]);
            assert("_NET_WM_STATE_HIDDEN"@[8] != "_NET_WM_ACTION_BELOW"@[8]);
            assert(atom_of_name(atom_name(Atom::NetWmStateHidden)) == Some(Atom::NetWmStateHidden));
        },
        Atom::NetWmStateFullscreen => {
            reveal_strlit("_NET_SUPPORTING_WM_CHECK");
            reveal_strlit("_NET_WM_STATE_SKIP_PAGER");
            reveal_strlit("_NET_WM_STATE_FULLSCREEN");
            reveal_strlit("_NET_WM_WINDOW_TYPE_DOCK");
            reveal_strlit("_NET_WM_WINDOW_TYPE_MENU");
            reveal_strlit("_NET_WM_USER_TIME_WINDOW");
            assert("_NET_WM_STATE_FULLSCREEN"@[5] != "_NET_SUPPORTING_WM_CHECK"@[5]);
            assert("_NET_WM_STATE_FULLSCREEN"@[14] != "_NET_WM_STATE_SKIP_PAGER"@[14]);
            assert("_NET_WM_STATE_FULLSCREEN"@[8] != "_NET_WM_WINDOW_TYPE_DOCK"@[8]);
            assert("_NET_WM_STATE_FULLSCREEN"@[8] != "_NET_WM_WINDOW_TYPE_MENU"@[8]);
            assert("_NET_WM_STATE_FULLSCREEN"@[8] != "_NET_WM_USER_TIME_WINDOW"@[8]);
            assert(atom_of_name(atom_name(Atom::NetWmStateFullscreen)) == Some(Atom::NetWmStateFullscreen));
        },
        Atom::NetWmStateAbove => {
            reveal_strlit("_NET_WM_STATE_ABOVE");
            reveal_strlit("_NET_WM_STATE_BELOW");
            reveal_strlit("_NET_WM_ACTION_MOVE");
            reveal_strlit("_NET_WM_WINDOW_TYPE");
            assert("_NET_WM_STATE_ABOVE"@[14] != "_NET_WM_STATE_BELOW"@[14]);
            assert("_NET_WM_STATE_ABOVE"@[8] != "_NET_WM_ACTION_MOVE"@[8]);
            assert("_NET_WM_STATE_ABOVE"@[8] != "_NET_WM_WINDOW_TYPE"@[8]);
            assert(atom_of_name(atom_name(Atom::NetWmStateAbove)) == Some(Atom::NetWmStateAbove));
        },
        Atom::NetWmStateBelow => {
            reveal_strlit("_NET_WM_STATE_ABOVE");
            reveal_strlit("_NET_WM_STATE_BELOW");
            reveal_strlit("_NET_WM_ACTION_MOVE");
            reveal_strlit("_NET_WM_WINDOW_TYPE");
            assert("_NET_WM_STATE_BELOW"@[14] != "_NET_WM_STATE_ABOVE"@[14]);
            assert("_NET_WM_STATE_BELOW"@[8] != "_NET_WM_ACTION_MOVE"@[8]);
            assert("_NET_WM_STATE_BELOW"@[8] != "_NET_WM_WINDOW_TYPE"@[8]);
            assert(atom_of_name(atom_name(Atom::NetWmStateBelow)) == Some(Atom::NetWmStateBelow));
        },
        Atom::NetWmStateDemandsAttention => {
            reveal_strlit("_NET_WM_STATE_DEMANDS_ATTENTION");
            assert(atom_of_name(atom_name(Atom::NetWmStateDemandsAttention)) == Some(Atom::NetWmStateDemandsAttention));
        },
        Atom::NetWmAllowedActions => {
            reveal_strlit("_NET_NUMBER_OF_DESKTOPS");
            reveal_strlit("_NET_WM_ALLOWED_ACTIONS");
            reveal_strlit("_NET_WM_ACTION_MINIMIZE");
            reveal_strlit("_NET_WM_WINDOW_TYPE_DND");
            assert("_NET_WM_ALLOWED_ACTIONS"@[5] != "_NET_NUMBER_OF_DESKTOPS"@[5]);
            assert("_NET_WM_ALLOWED_ACTIONS"@[9] != "_NET_WM_ACTION_MINIMIZE"@[9]);
            assert("_NET_WM_ALLOWED_ACTIONS"@[8] != "_NET_WM_WINDOW_TYPE_DND"@[8]);
            assert(atom_of_name(atom_name(Atom::NetWmAllowedActions)) == Some(Atom::NetWmAllowedActions));
        },
        Atom::NetWmActionMove => {
            reveal_strlit("_NET_WM_STATE_ABOVE");
            reveal_strlit("_NET_WM_STATE_BELOW");
            reveal_strlit("_NET_WM_ACTION_MOVE");
            reveal_strlit("_NET_WM_WINDOW_TYPE");
            assert("_NET_WM_ACTION_MOVE"@[8] != "_NET_WM_STATE_ABOVE"@[8]);
            assert("_NET_WM_ACTION_MOVE"@[8] != "_NET_WM_STATE_BELOW"@[8]);
            assert("_NET_WM_ACTION_MOVE"@[8] != "_NET_WM_WINDOW_TYPE"@[8]);
            assert(atom_of_name(atom_name(Atom::NetWmActionMove)) == Some(Atom::NetWmActionMove));
        },
        Atom::NetWmActionResize => {
            reveal_strlit("_NET_DESKTOP_VIEWPORT");
            reveal_strlit("_NET_WM_ACTION_RESIZE");
            reveal_strlit("_NET_WM_STRUT_PARTIAL");
            reveal_strlit("_NET_WM_ICON_GEOMETRY");
            reveal_strlit("_GTK_EDGE_CONSTRAINTS");
            assert("_NET_WM_ACTION_RESIZE"@[5] != "_NET_DESKTOP_VIEWPORT"@[5]);
            assert("_NET_WM_ACTION_RESIZE"@[8] != "_NET_WM_STRUT_PARTIAL"@[8]);
            assert("_NET_WM_ACTION_RESIZE"@[8] != "_NET_WM_ICON_GEOMETRY"@[8]);
            assert("_NET_WM_ACTION_RESIZE"@[1] != "_GTK_EDGE_CONSTRAINTS"@[1]);
            assert(atom_of_name(atom_name(Atom::NetWmActionResize)) == Some(Atom::NetWmActionResize));
        },
        Atom::NetWmActionMinimize => {
            reveal_strlit("_NET_NUMBER_OF_DESKTOPS");
            reveal_strlit("_NET_WM_ALLOWED_ACTIONS");
            reveal_strlit("_NET_WM_ACTION_MINIMIZE");
            reveal_strlit("_NET_WM_WINDOW_TYPE_DND");
            assert("_NET_WM_ACTION_MINIMIZE"@[5] != "_NET_NUMBER_OF_DESKTOPS"@[5]);
            assert("_NET_WM_ACTION_MINIMIZE"@[9] != "_NET_WM_ALLOWED_ACTIONS"@[9]);
            assert("_NET_WM_ACTION_MINIMIZE"@[8] != "_NET_WM_WINDOW_TYPE_DND"@[8]);
            assert(atom_of_name(atom_name(Atom::NetWmActionMinimize)) == Some(Atom::NetWmActionMinimize));
        },
        Atom::NetWmActionShade => {
            reveal_strlit("_NET_CURRENT_DESKTOP");
            reveal_strlit("_NET_WM_VISIBLE_NAME");
            reveal_strlit("_NET_WM_STATE_STICKY");
            reveal_strlit("_NET_WM_STATE_SHADED");
            reveal_strlit("_NET_WM_STATE_HIDDEN");
            reveal_strlit("_NET_WM_ACTION_SHADE");
            reveal_strlit("_NET_WM_ACTION_STICK");
            reveal_strlit("_NET_WM_ACTION_CLOSE");
            reveal_strlit("_NET_WM_ACTION_ABOVE");
            reveal_strlit("_NET_WM_ACTION_BELOW");
            assert("_NET_WM_ACTION_SHADE"@[5] != "_NET_CURRENT_DESKTOP"@[5]);
            assert("_NET_WM_ACTION_SHADE"@[8] != "_NET_WM_VISIBLE_NAME"@[8]);
            assert("_NET_WM_ACTION_SHADE"@[8] != "_NET_WM_STATE_STICKY"@[8]);
            assert("_NET_WM_ACTION_SHADE"@[8] != "_NET_WM_STATE_SHADED"@[8]);
            assert("_NET_WM_ACTION_SHADE"@[8] != "_NET_WM_STATE_HIDDEN"@[8]);
            assert("_NET_WM_ACTION_SHADE"@[16] != "_NET_WM_ACTION_STICK"@[16]);
            assert("_NET_WM_ACTION_SHADE"@[15] != "_NET_WM_ACTION_CLOSE"@[15]);
            assert("_NET_WM_ACTION_SHADE"@[15] != "_NET_WM_ACTION_ABOVE"@[15]);
            assert("_NET_WM_ACTION_SHADE"@[15] != "_NET_WM_ACTION_BELOW"@[15]);
            assert(atom_of_name(atom_name(Atom::NetWmActionShade)) == Some(Atom::NetWmActionShade));
        },
        Atom::NetWmActionStick => {
            reveal_strlit("_NET_CURRENT_DESKTOP");
            reveal_strlit("_NET_WM_VISIBLE_NAME");
            reveal_strlit("_NET_WM_STATE_STICKY");
            reveal_strlit("_NET_WM_STATE_SHADED");
            reveal_strlit("_NET_WM_STATE_HIDDEN");
            reveal_strlit("_NET_WM_ACTION_SHADE");
            reveal_strlit("_NET_WM_ACTION_STICK");
            reveal_strlit("_NET_WM_ACTION_CLOSE");
            reveal_strlit("_NET_WM_ACTION_ABOVE");
            reveal_strlit("_NET_WM_ACTION_BELOW");
            assert("_NET_WM_ACTION_STICK"@[5] != "_NET_CURRENT_DESKTOP"@[5]);
            assert("_NET_WM_ACTION_STICK"@[8] != "_NET_WM_VISIBLE_NAME"@[8]);
            assert("_NET_WM_ACTION_STICK"@[8] != "_NET_WM_STATE_STICKY"@[8]);
            assert("_NET_WM_ACTION_STICK"@[8] != "_NET_WM_STATE_SHADED"@[8]);
            assert("_NET_WM_ACTION_STICK"@[8] != "_NET_WM_STATE_HIDDEN"@[8]);
            assert("_NET_WM_ACTION_STICK"@[16] != "_NET_WM_ACTION_SHADE"@[16]);
            assert("_NET_WM_ACTION_STICK"@[15] != "_NET_WM_ACTION_CLOSE"@[15]);
            assert("_NET_WM_ACTION_STICK"@[15] != "_NET_WM_ACTION_ABOVE"@[15]);
            assert("_NET_WM_ACTION_STICK"@[15] != "_NET_WM_ACTION_BELOW"@[15]);
            assert(atom_of_name(atom_name(Atom::NetWmActionStick)) == Some(Atom::NetWmActionStick));
        },
        Atom::NetWmActionMaximizeHorz => {
            reveal_strlit("_NET_WM_STATE_MAXIMIZED_VERT");
            reveal_strlit("_NET_WM_STATE_MAXIMIZED_HORZ");
            reveal_strlit("_NET_WM_ACTION_MAXIMIZE_HORZ");
            reveal_strlit("_NET_WM_ACTION_MAXIMIZE_VERT");
            assert("_NET_WM_ACTION_MAXIMIZE_HORZ"@[8] != "_NET_WM_STATE_MAXIMIZED_VERT"@[8]);
            assert("_NET_WM_ACTION_MAXIMIZE_HORZ"@[8] != "_NET_WM_STATE_MAXIMIZED_HORZ"@[8]);
            assert("_NET_WM_ACTION_MAXIMIZE_HORZ"@[24] != "_NET_WM_ACTION_MAXIMIZE_VERT"@[24]);
            assert(atom_of_name(atom_name(Atom::NetWmActionMaximizeHorz)) == Some(Atom::NetWmActionMaximizeHorz));
        },
        Atom::NetWmActionMaximizeVert => {
            reveal_strlit("_NET_WM_STATE_MAXIMIZED_VERT");
            reveal_strlit("_NET_WM_STATE_MAXIMIZED_HORZ");
            reveal_strlit("_NET_WM_ACTION_MAXIMIZE_HORZ");
            reveal_strlit("_NET_WM_ACTION_MAXIMIZE_VERT");
            assert("_NET_WM_ACTION_MAXIMIZE_VERT"@[8] != "_NET_WM_STATE_MAXIMIZED_VERT"@[8]);
            assert("_NET_WM_ACTION_MAXIMIZE_VERT"@[8] != "_NET_WM_STATE_MAXIMIZED_HORZ"@[8]);
            assert("_NET_WM_ACTION_MAXIMIZE_VERT"@[24] != "_NET_WM_ACTION_MAXIMIZE_HORZ"@[24]);
            assert(atom_of_name(atom_name(Atom::NetWmActionMaximizeVert)) == Some(Atom::NetWmActionMaximizeVert));
        },
        Atom::NetWmActionFullscreen => {
            reveal_strlit("_NET_CLIENT_LIST_STACKING");
            reveal_strlit("_NET_WM_VISIBLE_ICON_NAME");
            reveal_strlit("_NET_WM_ACTION_FULLSCREEN");
            reveal_strlit("_NET_WM_WINDOW_TYPE_COMBO");
            assert("_NET_WM_ACTION_FULLSCREEN"@[5] != "_NET_CLIENT_LIST_STACKING"@[5]);
            assert("_NET_WM_ACTION_FULLSCREEN"@[8] != "_NET_WM_VISIBLE_ICON_NAME"@[8]);
            assert("_NET_WM_ACTION_FULLSCREEN"@[8] != "_NET_WM_WINDOW_TYPE_COMBO"@[8]);
            assert(atom_of_name(atom_name(Atom::NetWmActionFullscreen)) == Some(Atom::NetWmActionFullscreen));
        },
        Atom::NetWmActionChangeDesktop => {
            reveal_strlit("_NET_WM_ACTION_CHANGE_DESKTOP");
            assert(atom_of_name(atom_name(Atom::NetWmActionChangeDesktop)) == Some(Atom::NetWmActionChangeDesktop));
        },
        Atom::NetWmActionClose => {
            reveal_strlit("_NET_CURRENT_DESKTOP");
            reveal_strlit("_NET_WM_VISIBLE_NAME");
            reveal_strlit("_NET_WM_STATE_STICKY");
            reveal_strlit("_NET_WM_STATE_SHADED");
            reveal_strlit("_NET_WM_STATE_HIDDEN");
            reveal_strlit("_NET_WM_ACTION_SHADE");
            reveal_strlit("_NET_WM_ACTION_STICK");
            reveal_strlit("_NET_WM_ACTION_CLOSE");
            reveal_strlit("_NET_WM_ACTION_ABOVE");
            reveal_strlit("_NET_WM_ACTION_BELOW");
            assert("_NET_WM_ACTION_CLOSE"@[5] != "_NET_CURRENT_DESKTOP"@[5]);
            assert("_NET_WM_ACTION_CLOSE"@[8] != "_NET_WM_VISIBLE_NAME"@[8]);
            assert("_NET_WM_ACTION_CLOSE"@[8] != "_NET_WM_STATE_STICKY"@[8]);
            assert("_NET_WM_ACTION_CLOSE"@[8] != "_NET_WM_STATE_SHADED"@[8]);
            assert("_NET_WM_ACTION_CLOSE"@[8] != "_NET_WM_STATE_HIDDEN"@[8]);
            assert("_NET_WM_ACTION_CLOSE"@[15] != "_NET_WM_ACTION_SHADE"@[15]);
            assert("_NET_WM_ACTION_CLOSE"@[15] != "_NET_WM_ACTION_STICK"@[15]);
            assert("_NET_WM_ACTION_CLOSE"@[15] != "_NET_WM_ACTION_ABOVE"@[15]);
            assert("_NET_WM_ACTION_CLOSE"@[15] != "_NET_WM_ACTION_BELOW"@[15]);
            assert(atom_of_name(atom_name(Atom::NetWmActionClose)) == Some(Atom::NetWmActionClose));
        },
        Atom::NetWmActionAbove => {
            reveal_strlit("_NET_CURRENT_DESKTOP");
            reveal_strlit("_NET_WM_VISIBLE_NAME");
            reveal_strlit("_NET_WM_STATE_STICKY");
            reveal_strlit("_NET_WM_STATE_SHADED");
            reveal_strlit("_NET_WM_STATE_HIDDEN");
            reveal_strlit("_NET_WM_ACTION_SHADE");
            reveal_strlit("_NET_WM_ACTION_STICK");
            reveal_strlit("_NET_WM_ACTION_CLOSE");
            reveal_strlit("_NET_WM_ACTION_ABOVE");
            reveal_strlit("_NET_WM_ACTION_BELOW");
            assert("_NET_WM_ACTION_ABOVE"@[5] != "_NET_CURRENT_DESKTOP"@[5]);
            assert("_NET_WM_ACTION_ABOVE"@[8] != "_NET_WM_VISIBLE_NAME"@[8]);
            assert("_NET_WM_ACTION_ABOVE"@[8] != "_NET_WM_STATE_STICKY"@[8]);
            assert("_NET_WM_ACTION_ABOVE"@[8] != "_NET_WM_STATE_SHADED"@[8]);
            assert("_NET_WM_ACTION_ABOVE"@[8] != "_NET_WM_STATE_HIDDEN"@[8]);
            assert("_NET_WM_ACTION_ABOVE"@[15] != "_NET_WM_ACTION_SHADE"@[15]);
            assert("_NET_WM_ACTION_ABOVE"@[15] != "_NET_WM_ACTION_STICK"@[15]);
            assert("_NET_WM_ACTION_ABOVE"@[15] != "_NET_WM_ACTION_CLOSE"@[15]);
            assert("_NET_WM_ACTION_ABOVE"@[15] != "_NET_WM_ACTION_BELOW"@[15]);
            assert(atom_of_name(atom_name(Atom::NetWmActionAbove)) == Some(Atom::NetWmActionAbove));
        },
        Atom::NetWmActionBelow => {
            reveal_strlit("_NET_CURRENT_DESKTOP");
            reveal_strlit("_NET_WM_VISIBLE_NAME");
            reveal_strlit("_NET_WM_STATE_STICKY");
            reveal_strlit("_NET_WM_STATE_SHADED");
            reveal_strlit("_NET_WM_STATE_HIDDEN");
            reveal_strlit("_NET_WM_ACTION_SHADE");
            reveal_strlit("_NET_WM_ACTION_STICK");
            reveal_strlit("_NET_WM_ACTION_CLOSE");
            reveal_strlit("_NET_WM_ACTION_ABOVE");
            reveal_strlit("_NET_WM_ACTION_BELOW");
            assert("_NET_WM_ACTION_BELOW"@[5] != "_NET_CURRENT_DESKTOP"@[5]);
            assert("_NET_WM_ACTION_BELOW"@[8] != "_NET_WM_VISIBLE_NAME"@[8]);
            assert("_NET_WM_ACTION_BELOW"@[8] != "_NET_WM_STATE_STICKY"@[8]);
            assert("_NET_WM_ACTION_BELOW"@[8] != "_NET_WM_STATE_SHADED"@[8]);
            assert("_NET_WM_ACTION_BELOW"@[8] != "_NET_WM_STATE_HIDDEN"@[8]);
            assert("_NET_WM_ACTION_BELOW"@[15] != "_NET_WM_ACTION_SHADE"@[15]);
            assert("_NET_WM_ACTION_BELOW"@[15] != "_NET_WM_ACTION_STICK"@[15]);
            assert("_NET_WM_ACTION_BELOW"@[15] != "_NET_WM_ACTION_CLOSE"@[15]);
            assert("_NET_WM_ACTION_BELOW"@[15] != "_NET_WM_ACTION_ABOVE"@[15]);
            assert(atom_of_name(atom_name(Atom::NetWmActionBelow)) == Some(Atom::NetWmActionBelow));
        },
        Atom::NetWmWindowType => {
            reveal_strlit("_NET_WM_STATE_ABOVE");
            reveal_strlit("_NET_WM_STATE_BELOW");
            reveal_strlit("_NET_WM_ACTION_MOVE");
            reveal_strlit("_NET_WM_WINDOW_TYPE");
            assert("_NET_WM_WINDOW_TYPE"@[8] != "_NET_WM_STATE_ABOVE"@[8]);
            assert("_NET_WM_WINDOW_TYPE"@[8] != "_NET_WM_STATE_BELOW"@[8]);
            assert("_NET_WM_WINDOW_TYPE"@[8] != "_NET_WM_ACTION_MOVE"@[8]);
            assert(atom_of_name(atom_name(Atom::NetWmWindowType)) == Some(Atom::NetWmWindowType));
        },
        Atom::NetWmWindowTypeDesktop => {
            reveal_strlit("_NET_WM_WINDOW_TYPE_DESKTOP");
            reveal_strlit("_NET_WM_WINDOW_TYPE_TOOLBAR");
            reveal_strlit("_NET_WM_WINDOW_TYPE_UTILITY");
            reveal_strlit("_NET_WM_WINDOW_TYPE_TOOLTIP");
            assert("_NET_WM_WINDOW_TYPE_DESKTOP"@[20] != "_NET_WM_WINDOW_TYPE_TOOLBAR"@[20]);
            assert("_NET_WM_WINDOW_TYPE_DESKTOP"@[20] != "_NET_WM_WINDOW_TYPE_UTILITY"@[20]);
            assert("_NET_WM_WINDOW_TYPE_DESKTOP"@[20] != "_NET_WM_WINDOW_TYPE_TOOLTIP"@[20]);
            assert(atom_of_name(atom_name(Atom::NetWmWindowTypeDesktop)) == Some(Atom::NetWmWindowTypeDesktop));
        },
        Atom::NetWmWindowTypeDock => {
            reveal_strlit("_NET_SUPPORTING_WM_CHECK");
            reveal_strlit("_NET_WM_STATE_SKIP_PAGER");
            reveal_strlit("_NET_WM_STATE_FULLSCREEN");
            reveal_strlit("_NET_WM_WINDOW_TYPE_DOCK");
            reveal_strlit("_NET_WM_WINDOW_TYPE_MENU");
            reveal_strlit("_NET_WM_USER_TIME_WINDOW");
            assert("_NET_WM_WINDOW_TYPE_DOCK"@[5] != "_NET_SUPPORTING_WM_CHECK"@[5]);
            assert("_NET_WM_WINDOW_TYPE_DOCK"@[8] != "_NET_WM_STATE_SKIP_PAGER"@[8]);
            assert("_NET_WM_WINDOW_TYPE_DOCK"@[8] != "_NET_WM_STATE_FULLSCREEN"@[8]);
            assert("_NET_WM_WINDOW_TYPE_DOCK"@[20] != "_NET_WM_WINDOW_TYPE_MENU"@[20]);
            assert("_NET_WM_WINDOW_TYPE_DOCK"@[8] != "_NET_WM_USER_TIME_WINDOW"@[8]);
            assert(atom_of_name(atom_name(Atom::NetWmWindowTypeDock)) == Some(Atom::NetWmWindowTypeDock));
        },
        Atom::NetWmWindowTypeToolbar => {
            reveal_strlit("_NET_WM_WINDOW_TYPE_DESKTOP");
            reveal_strlit("_NET_WM_WINDOW_TYPE_TOOLBAR");
            reveal_strlit("_NET_WM_WINDOW_TYPE_UTILITY");
            reveal_strlit("_NET_WM_WINDOW_TYPE_TOOLTIP");
            assert("_NET_WM_WINDOW_TYPE_TOOLBAR"@[20] != "_NET_WM_WINDOW_TYPE_DESKTOP"@[20]);
            assert("_NET_WM_WINDOW_TYPE_TOOLBAR"@[20] != "_NET_WM_WINDOW_TYPE_UTILITY"@[20]);
            assert("_NET_WM_WINDOW_TYPE_TOOLBAR"@[24] != "_NET_WM_WINDOW_TYPE_TOOLTIP"@[24]);
            assert(atom_of_name(atom_name(Atom::NetWmWindowTypeToolbar)) == Some(Atom::NetWmWindowTypeToolbar));
        },
        Atom::NetWmWindowTypeMenu => {
            reveal_strlit("_NET_SUPPORTING_WM_CHECK");
            reveal_strlit("_NET_WM_STATE_SKIP_PAGER");
            reveal_strlit("_NET_WM_STATE_FULLSCREEN");
            reveal_strlit("_NET_WM_WINDOW_TYPE_DOCK");
            reveal_strlit("_NET_WM_WINDOW_TYPE_MENU");
            reveal_strlit("_NET_WM_USER_TIME_WINDOW");
            assert("_NET_WM_WINDOW_TYPE_MENU"@[5] != "_NET_SUPPORTING_WM_CHECK"@[5]);
            assert("_NET_WM_WINDOW_TYPE_MENU"@[8] != "_NET_WM_STATE_SKIP_PAGER"@[8]);
            assert("_NET_WM_WINDOW_TYPE_MENU"@[8] != "_NET_WM_STATE_FULLSCREEN"@[8]);
            assert("_NET_WM_WINDOW_TYPE_MENU"@[20] != "_NET_WM_WINDOW_TYPE_DOCK"@[20]);
            assert("_NET_WM_WINDOW_TYPE_MENU"@[8] != "_NET_WM_USER_TIME_WINDOW"@[8]);
            assert(atom_of_name(atom_name(Atom::NetWmWindowTypeMenu)) == Some(Atom::NetWmWindowTypeMenu));
        },
        Atom::NetWmWindowTypeUtility => {
            reveal_strlit("_NET_WM_WINDOW_TYPE_DESKTOP");
            reveal_strlit("_NET_WM_WINDOW_TYPE_TOOLBAR");
            reveal_strlit("_NET_WM_WINDOW_TYPE_UTILITY");
            reveal_strlit("_NET_WM_WINDOW_TYPE_TOOLTIP");
            assert("_NET_WM_WINDOW_TYPE_UTILITY"@[20] != "_NET_WM_WINDOW_TYPE_DESKTOP"@[20]);
            assert("_NET_WM_WINDOW_TYPE_UTILITY"@[20] != "_NET_WM_WINDOW_TYPE_TOOLBAR"@[20]);
            assert("_NET_WM_WINDOW_TYPE_UTILITY"@[20] != "_NET_WM_WINDOW_TYPE_TOOLTIP"@[20]);
            assert(atom_of_name(atom_name(Atom::NetWmWindowTypeUtility)) == Some(Atom::NetWmWindowTypeUtility));
        },
        Atom::NetWmWindowTypeSplash => {
            reveal_strlit("_NET_WM_STATE_SKIP_TASKBAR");
            reveal_strlit("_NET_WM_WINDOW_TYPE_SPLASH");
            reveal_strlit("_NET_WM_WINDOW_TYPE_DIALOG");
            reveal_strlit("_NET_WM_WINDOW_TYPE_NORMAL");
            reveal_strlit("_NET_REQUEST_FRAME_EXTENTS");
            assert("_NET_WM_WINDOW_TYPE_SPLASH"@[8] != "_NET_WM_STATE_SKIP_TASKBAR"@[8]);
            assert("_NET_WM_WINDOW_TYPE_SPLASH"@[20] != "_NET_WM_WINDOW_TYPE_DIALOG"@[20]);
            assert("_NET_WM_WINDOW_TYPE_SPLASH"@[20] != "_NET_WM_WINDOW_TYPE_NORMAL"@[20]);
            assert("_NET_WM_WINDOW_TYPE_SPLASH"@[5] != "_NET_REQUEST_FRAME_EXTENTS"@[5]);
            assert(atom_of_name(atom_name(Atom::NetWmWindowTypeSplash)) == Some(Atom::NetWmWindowTypeSplash));
        },
        Atom::NetWmWindowTypeDialog => {
            reveal_strlit("_NET_WM_STATE_SKIP_TASKBAR");
            reveal_strlit("_NET_WM_WINDOW_TYPE_SPLASH");
            reveal_strlit("_NET_WM_WINDOW_TYPE_DIALOG");
            reveal_strlit("_NET_WM_WINDOW_TYPE_NORMAL");
            reveal_strlit("_NET_REQUEST_FRAME_EXTENTS");
            assert("_NET_WM_WINDOW_TYPE_DIALOG"@[8] != "_NET_WM_STATE_SKIP_TASKBAR"@[8]);
            assert("_NET_WM_WINDOW_TYPE_DIALOG"@[20] != "_NET_WM_WINDOW_TYPE_SPLASH"@[20]);
            assert("_NET_WM_WINDOW_TYPE_DIALOG"@[20] != "_NET_WM_WINDOW_TYPE_NORMAL"@[20]);
            assert("_NET_WM_WINDOW_TYPE_DIALOG"@[5] != "_NET_REQUEST_FRAME_EXTENTS"@[5]);
            assert(atom_of_name(atom_name(Atom::NetWmWindowTypeDialog)) == Some(Atom::NetWmWindowTypeDialog));
        },
        Atom::NetWmWindowTypeNormal => {
            reveal_strlit("_NET_WM_STATE_SKIP_TASKBAR");
            reveal_strlit("_NET_WM_WINDOW_TYPE_SPLASH");
            reveal_strlit("_NET_WM_WINDOW_TYPE_DIALOG");
            reveal_strlit("_NET_WM_WINDOW_TYPE_NORMAL");
            reveal_strlit("_NET_REQUEST_FRAME_EXTENTS");
            assert("_NET_WM_WINDOW_TYPE_NORMAL"@[8] != "_NET_WM_STATE_SKIP_TASKBAR"@[8]);
            assert("_NET_WM_WINDOW_TYPE_NORMAL"@[20] != "_NET_WM_WINDOW_TYPE_SPLASH"@[20]);
            assert("_NET_WM_WINDOW_TYPE_NORMAL"@[20] != "_NET_WM_WINDOW_TYPE_DIALOG"@[20]);
            assert("_NET_WM_WINDOW_TYPE_NORMAL"@[5] != "_NET_REQUEST_FRAME_EXTENTS"@[5]);
            assert(atom_of_name(atom_name(Atom::NetWmWindowTypeNormal)) == Some(Atom::NetWmWindowTypeNormal));
        },
        Atom::NetWmWindowTypeDropdownMenu => {
            reveal_strlit("_NET_WM_WINDOW_TYPE_DROPDOWN_MENU");
            assert(atom_of_name(atom_name(Atom::NetWmWindowTypeDropdownMenu)) == Some(Atom::NetWmWindowTypeDropdownMenu));
        },
        Atom::NetWmWindowTypePopupMenu => {
            reveal_strlit("_NET_WM_WINDOW_TYPE_POPUP_MENU");
            assert(atom_of_name(atom_name(Atom::NetWmWindowTypePopupMenu)) == Some(Atom::NetWmWindowTypePopupMenu));
        },
        Atom::NetWmWindowTypeTooltip => {
            reveal_strlit("_NET_WM_WINDOW_TYPE_DESKTOP");
            reveal_strlit("_NET_WM_WINDOW_TYPE_TOOLBAR");
            reveal_strlit("_NET_WM_WINDOW_TYPE_UTILITY");
            reveal_strlit("_NET_WM_WINDOW_TYPE_TOOLTIP");
            assert("_NET_WM_WINDOW_TYPE_TOOLTIP"@[20] != "_NET_WM_WINDOW_TYPE_DESKTOP"@[20]);
            assert("_NET_WM_WINDOW_TYPE_TOOLTIP"@[24] != "_NET_WM_WINDOW_TYPE_TOOLBAR"@[24]);
            assert("_NET_WM_WINDOW_TYPE_TOOLTIP"@[20] != "_NET_WM_WINDOW_TYPE_UTILITY"@[20]);
            assert(atom_of_name(atom_name(Atom::NetWmWindowTypeTooltip)) == Some(Atom::NetWmWindowTypeTooltip));
        },
        Atom::NetWmWindowTypeNotification => {
            reveal_strlit("_NET_WM_WINDOW_TYPE_NOTIFICATION");
            assert(atom_of_name(atom_name(Atom::NetWmWindowTypeNotification)) == Some(Atom::NetWmWindowTypeNotification));
        },
        Atom::NetWmWindowTypeCombo => {
            reveal_strlit("_NET_CLIENT_LIST_STACKING");
            reveal_strlit("_NET_WM_VISIBLE_ICON_NAME");
            reveal_strlit("_NET_WM_ACTION_FULLSCREEN");
            reveal_strlit("_NET_WM_WINDOW_TYPE_COMBO");
            assert("_NET_WM_WINDOW_TYPE_COMBO"@[5] != "_NET_CLIENT_LIST_STACKING"@[5]);
            assert("_NET_WM_WINDOW_TYPE_COMBO"@[8] != "_NET_WM_VISIBLE_ICON_NAME"@[8]);
            assert("_NET_WM_WINDOW_TYPE_COMBO"@[8] != "_NET_WM_ACTION_FULLSCREEN"@[8]);
            assert(atom_of_name(atom_name(Atom::NetWmWindowTypeCombo)) == Some(Atom::NetWmWindowTypeCombo));
        },
        Atom::NetWmWindowTypeDnd => {
            reveal_strlit("_NET_NUMBER_OF_DESKTOPS");
            reveal_strlit("_NET_WM_ALLOWED_ACTIONS");
            reveal_strlit("_NET_WM_ACTION_MINIMIZE");
            reveal_strlit("_NET_WM_WINDOW_TYPE_DND");
            assert("_NET_WM_WINDOW_TYPE_DND"@[5] != "_NET_NUMBER_OF_DESKTOPS"@[5]);
            assert("_NET_WM_WINDOW_TYPE_DND"@[8] != "_NET_WM_ALLOWED_ACTIONS"@[8]);
            assert("_NET_WM_WINDOW_TYPE_DND"@[8] != "_NET_WM_ACTION_MINIMIZE"@[8]);
            assert(atom_of_name(atom_name(Atom::NetWmWindowTypeDnd)) == Some(Atom::NetWmWindowTypeDnd));
        },
        Atom::NetWmStrut => {
            reveal_strlit("WM_TAKE_FOCUS");
            reveal_strlit("_NET_WORKAREA");
            reveal_strlit("_NET_WM_STATE");
            reveal_strlit("_NET_WM_STRUT");
            assert("_NET_WM_STRUT"@[0] != "WM_TAKE_FOCUS"@[0]);
            assert("_NET_WM_STRUT"@[6] != "_NET_WORKAREA"@[6]);
            assert("_NET_WM_STRUT"@[10] != "_NET_WM_STATE"@[10]);
            assert(atom_of_name(atom_name(Atom::NetWmStrut)) == Some(Atom::NetWmStrut));
        },
        Atom::NetWmStrutPartial => {
            reveal_strlit("_NET_DESKTOP_VIEWPORT");
            reveal_strlit("_NET_WM_ACTION_RESIZE");
            reveal_strlit("_NET_WM_STRUT_PARTIAL");
            reveal_strlit("_NET_WM_ICON_GEOMETRY");
            reveal_strlit("_GTK_EDGE_CONSTRAINTS");
            assert("_NET_WM_STRUT_PARTIAL"@[5] != "_NET_DESKTOP_VIEWPORT"@[5]);
            assert("_NET_WM_STRUT_PARTIAL"@[8] != "_NET_WM_ACTION_RESIZE"@[8]);
            assert("_NET_WM_STRUT_PARTIAL"@[8] != "_NET_WM_ICON_GEOMETRY"@[8]);
            assert("_NET_WM_STRUT_PARTIAL"@[1] != "_GTK_EDGE_CONSTRAINTS"@[1]);
            assert(atom_of_name(atom_name(Atom::NetWmStrutPartial)) == Some(Atom::NetWmStrutPartial));
        },
        Atom::NetWmIconGeometry => {
            reveal_strlit("_NET_DESKTOP_VIEWPORT");
            reveal_strlit("_NET_WM_ACTION_RESIZE");
            reveal_strlit("_NET_WM_STRUT_PARTIAL");
            reveal_strlit("_NET_WM_ICON_GEOMETRY");
            reveal_strlit("_GTK_EDGE_CONSTRAINTS");
            assert("_NET_WM_ICON_GEOMETRY"@[5] != "_NET_DESKTOP_VIEWPORT"@[5]);
            assert("_NET_WM_ICON_GEOMETRY"@[8] != "_NET_WM_ACTION_RESIZE"@[8]);
            assert("_NET_WM_ICON_GEOMETRY"@[8] != "_NET_WM_STRUT_PARTIAL"@[8]);
            assert("_NET_WM_ICON_GEOMETRY"@[1] != "_GTK_EDGE_CONSTRAINTS"@[1]);
            assert(atom_of_name(atom_name(Atom::NetWmIconGeometry)) == Some(Atom::NetWmIconGeometry));
        },
        Atom::NetWmIcon => {
            reveal_strlit("WM_ICON_NAME");
            reveal_strlit("WM_PROTOCOLS");
            reveal_strlit("_NET_WM_NAME");
            reveal_strlit("_NET_WM_ICON");
            reveal_strlit("_XEMBED_INFO");
            reveal_strlit("XdndPosition");
            reveal_strlit("XdndFinished");
            reveal_strlit("XdndTypeList");
            assert("_NET_WM_ICON"@[0] != "WM_ICON_NAME"@[0]);
            assert("_NET_WM_ICON"@[0] != "WM_PROTOCOLS"@[0]);
            assert("_NET_WM_ICON"@[8] != "_NET_WM_NAME"@[8]);
            assert("_NET_WM_ICON"@[1] != "_XEMBED_INFO"@[1]);
            assert("_NET_WM_ICON"@[0] != "XdndPosition"@[0]);
            assert("_NET_WM_ICON"@[0] != "XdndFinished"@[0]);
            assert("_NET_WM_ICON"@[0] != "XdndTypeList"@[0]);
            assert(atom_of_name(atom_name(Atom::NetWmIcon)) == Some(Atom::NetWmIcon));
        },
        Atom::NetWmPid => {
            reveal_strlit("_NET_WM_PID");
            reveal_strlit("UTF8_STRING");
            assert("_NET_WM_PID"@[0] != "UTF8_STRING"@[0]);
            assert(atom_of_name(atom_name(Atom::NetWmPid)) == Some(Atom::NetWmPid));
        },
        Atom::NetWmUserTime => {
            reveal_strlit("WM_CLIENT_MACHINE");
            reveal_strlit("_NET_CLOSE_WINDOW");
            reveal_strlit("_NET_WM_ICON_NAME");
            reveal_strlit("_NET_WM_USER_TIME");
            reveal_strlit("_NET_FRAME_WINDOW");
            assert("_NET_WM_USER_TIME"@[0] != "WM_CLIENT_MACHINE"@[0]);
            assert("_NET_WM_USER_TIME"@[5] != "_NET_CLOSE_WINDOW"@[5]);
            assert("_NET_WM_USER_TIME"@[8] != "_NET_WM_ICON_NAME"@[8]);
            assert("_NET_WM_USER_TIME"@[5] != "_NET_FRAME_WINDOW"@[5]);
            assert(atom_of_name(atom_name(Atom::NetWmUserTime)) == Some(Atom::NetWmUserTime));
        },
        Atom::NetWmUserTimeWindow => {
            reveal_strlit("_NET_SUPPORTING_WM_CHECK");
            reveal_strlit("_NET_WM_STATE_SKIP_PAGER");
            reveal_strlit("_NET_WM_STATE_FULLSCREEN");
            reveal_strlit("_NET_WM_WINDOW_TYPE_DOCK");
            reveal_strlit("_NET_WM_WINDOW_TYPE_MENU");
            reveal_strlit("_NET_WM_USER_TIME_WINDOW");
            assert("_NET_WM_USER_TIME_WINDOW"@[5] != "_NET_SUPPORTING_WM_CHECK"@[5]);
            assert("_NET_WM_USER_TIME_WINDOW"@[8] != "_NET_WM_STATE_SKIP_PAGER"@[8]);
            assert("_NET_WM_USER_TIME_WINDOW"@[8] != "_NET_WM_STATE_FULLSCREEN"@[8]);
            assert("_NET_WM_USER_TIME_WINDOW"@[8] != "_NET_WM_WINDOW_TYPE_DOCK"@[8]);
            assert("_NET_WM_USER_TIME_WINDOW"@[8] != "_NET_WM_WINDOW_TYPE_MENU"@[8]);
            assert(atom_of_name(atom_name(Atom::NetWmUserTimeWindow)) == Some(Atom::NetWmUserTimeWindow));
        },
        Atom::NetFrameExtents => {
            reveal_strlit("_NET_DESKTOP_NAMES");
            reveal_strlit("_NET_ACTIVE_WINDOW");
            reveal_strlit("_NET_VIRTUAL_ROOTS");
            reveal_strlit("_NET_FRAME_EXTENTS");
            reveal_strlit("FLUXBOX_REMOTE_CMD");
            reveal_strlit("_GTK_FRAME_EXTENTS");
            assert("_NET_FRAME_EXTENTS"@[5] != "_NET_DESKTOP_NAMES"@[5]);
            assert("_NET_FRAME_EXTENTS"@[5] != "_NET_ACTIVE_WINDOW"@[5]);
            assert("_NET_FRAME_EXTENTS"@[5] != "_NET_VIRTUAL_ROOTS"@[5]);
            assert("_NET_FRAME_EXTENTS"@[0] != "FLUXBOX_REMOTE_CMD"@[0]);
            assert("_NET_FRAME_EXTENTS"@[1] != "_GTK_FRAME_EXTENTS"@[1]);
            assert(atom_of_name(atom_name(Atom::NetFrameExtents)) == Some(Atom::NetFrameExtents));
        },
        Atom::NetFrameWindow => {
            reveal_strlit("WM_CLIENT_MACHINE");
            reveal_strlit("_NET_CLOSE_WINDOW");
            reveal_strlit("_NET_WM_ICON_NAME");
            reveal_strlit("_NET_WM_USER_TIME");
            reveal_strlit("_NET_FRAME_WINDOW");
            assert("_NET_FRAME_WINDOW"@[0] != "WM_CLIENT_MACHINE"@[0]);
            assert("_NET_FRAME_WINDOW"@[5] != "_NET_CLOSE_WINDOW"@[5]);
            assert("_NET_FRAME_WINDOW"@[5] != "_NET_WM_ICON_NAME"@[5]);
            assert("_NET_FRAME_WINDOW"@[5] != "_NET_WM_USER_TIME"@[5]);
            assert(atom_of_name(atom_name(Atom::NetFrameWindow)) == Some(Atom::NetFrameWindow));
        },
        Atom::NetRequestFrameExtents => {
            reveal_strlit("_NET_WM_STATE_SKIP_TASKBAR");
            reveal_strlit("_NET_WM_WINDOW_TYPE_SPLASH");
            reveal_strlit("_NET_WM_WINDOW_TYPE_DIALOG");
            reveal_strlit("_NET_WM_WINDOW_TYPE_NORMAL");
            reveal_strlit("_NET_REQUEST_FRAME_EXTENTS");
            assert("_NET_REQUEST_FRAME_EXTENTS"@[5] != "_NET_WM_STATE_SKIP_TASKBAR"@[5]);
            assert("_NET_REQUEST_FRAME_EXTENTS"@[5] != "_NET_WM_WINDOW_TYPE_SPLASH"@[5]);
            assert("_NET_REQUEST_FRAME_EXTENTS"@[5] != "_NET_WM_WINDOW_TYPE_DIALOG"@[5]);
            assert("_NET_REQUEST_FRAME_EXTENTS"@[5] != "_NET_WM_WINDOW_TYPE_NORMAL"@[5]);
            assert(atom_of_name(atom_name(Atom::NetRequestFrameExtents)) == Some(Atom::NetRequestFrameExtents));
        },
        Atom::MotifWmHints => {
            reveal_strlit("WM_NORMAL_HINTS");
            reveal_strlit("WM_CHANGE_STATE");
            reveal_strlit("_NET_WM_DESKTOP");
            reveal_strlit("_MOTIF_WM_HINTS");
            reveal_strlit("_FLUXBOX_WINDOW");
            assert("_MOTIF_WM_HINTS"@[0] != "WM_NORMAL_HINTS"@[0]);
            assert("_MOTIF_WM_HINTS"@[0] != "WM_CHANGE_STATE"@[0]);
            assert("_MOTIF_WM_HINTS"@[1] != "_NET_WM_DESKTOP"@[1]);
            assert("_MOTIF_WM_HINTS"@[1] != "_FLUXBOX_WINDOW"@[1]);
            assert(atom_of_name(atom_name(Atom::MotifWmHints)) == Some(Atom::MotifWmHints));
        },
        Atom::KwmWmWinHint => {
            reveal_strlit("WM_TRANSIENT_FOR");
            reveal_strlit("WM_DELETE_WINDOW");
            reveal_strlit("_NET_CLIENT_LIST");
            reveal_strlit("_KDE_WM_WIN_HINT");
            assert("_KDE_WM_WIN_HINT"@[0] != "WM_TRANSIENT_FOR"@[0]);
            assert("_KDE_WM_WIN_HINT"@[0] != "WM_DELETE_WINDOW"@[0]);
            assert("_KDE_WM_WIN_HINT"@[1] != "_NET_CLIENT_LIST"@[1]);
            assert(atom_of_name(atom_name(Atom::KwmWmWinHint)) == Some(Atom::KwmWmWinHint));
        },
        Atom::FluxboxWindow => {
            reveal_strlit("WM_NORMAL_HINTS");
            reveal_strlit("WM_CHANGE_STATE");
            reveal_strlit("_NET_WM_DESKTOP");
            reveal_strlit("_MOTIF_WM_HINTS");
            reveal_strlit("_FLUXBOX_WINDOW");
            assert("_FLUXBOX_WINDOW"@[0] != "WM_NORMAL_HINTS"@[0]);
            assert("_FLUXBOX_WINDOW"@[0] != "WM_CHANGE_STATE"@[0]);
            assert("_FLUXBOX_WINDOW"@[1] != "_NET_WM_DESKTOP"@[1]);
            assert("_FLUXBOX_WINDOW"@[1] != "_MOTIF_WM_HINTS"@[1]);
            assert(atom_of_name(atom_name(Atom::FluxboxWindow)) == Some(Atom::FluxboxWindow));
        },
        Atom::FluxboxWindowHidden => {
            reveal_strlit("_FLUXBOX_WINDOW_HIDDEN");
            assert(atom_of_name(atom_name(Atom::FluxboxWindowHidden)) == Some(Atom::FluxboxWindowHidden));
        },
        Atom::FluxboxRemote => {
            reveal_strlit("_NET_SUPPORTED");
            reveal_strlit("Fluxbox/remote");
            reveal_strlit("XdndActionList");
            reveal_strlit("XdndActionCopy");
            reveal_strlit("_WM_MOVERESIZE");
            assert("Fluxbox/remote"@[0] != "_NET_SUPPORTED"@[0]);
            assert("Fluxbox/remote"@[0] != "XdndActionList"@[0]);
            assert("Fluxbox/remote"@[0] != "XdndActionCopy"@[0]);
            assert("Fluxbox/remote"@[0] != "_WM_MOVERESIZE"@[0]);
            assert(atom_of_name(atom_name(Atom::FluxboxRemote)) == Some(Atom::FluxboxRemote));
        },
        Atom::FluxboxRemoteCmd => {
            reveal_strlit("_NET_DESKTOP_NAMES");
            reveal_strlit("_NET_ACTIVE_WINDOW");
            reveal_strlit("_NET_VIRTUAL_ROOTS");
            reveal_strlit("_NET_FRAME_EXTENTS");
            reveal_strlit("FLUXBOX_REMOTE_CMD");
            reveal_strlit("_GTK_FRAME_EXTENTS");
            assert("FLUXBOX_REMOTE_CMD"@[0] != "_NET_DESKTOP_NAMES"@[0]);
            assert("FLUXBOX_REMOTE_CMD"@[0] != "_NET_ACTIVE_WINDOW"@[0]);
            assert("FLUXBOX_REMOTE_CMD"@[0] != "_NET_VIRTUAL_ROOTS"@[0]);
            assert("FLUXBOX_REMOTE_CMD"@[0] != "_NET_FRAME_EXTENTS"@[0]);
            assert("FLUXBOX_REMOTE_CMD"@[0] != "_GTK_FRAME_EXTENTS"@[0]);
            assert(atom_of_name(atom_name(Atom::FluxboxRemoteCmd)) == Some(Atom::FluxboxRemoteCmd));
        },
        Atom::Manager => {
            reveal_strlit("WM_NAME");
            reveal_strlit("MANAGER");
            reveal_strlit("_XEMBED");
            assert("MANAGER"@[0] != "WM_NAME"@[0]);
            assert("MANAGER"@[0] != "_XEMBED"@[0]);
            assert(atom_of_name(atom_name(Atom::Manager)) == Some(Atom::Manager));
        },
        Atom::Xembed => {
            reveal_strlit("WM_NAME");
            reveal_strlit("MANAGER");
            reveal_strlit("_XEMBED");
            assert("_XEMBED"@[0] != "WM_NAME"@[0]);
            assert("_XEMBED"@[0] != "MANAGER"@[0]);
            assert(atom_of_name(atom_name(Atom::Xembed)) == Some(Atom::Xembed));
        },
        Atom::XembedInfo => {
            reveal_strlit("WM_ICON_NAME");
            reveal_strlit("WM_PROTOCOLS");
            reveal_strlit("_NET_WM_NAME");
            reveal_strlit("_NET_WM_ICON");
            reveal_strlit("_XEMBED_INFO");
            reveal_strlit("XdndPosition");
            reveal_strlit("XdndFinished");
            reveal_strlit("XdndTypeList");
            assert("_XEMBED_INFO"@[0] != "WM_ICON_NAME"@[0]);
            assert("_XEMBED_INFO"@[0] != "WM_PROTOCOLS"@[0]);
            assert("_XEMBED_INFO"@[1] != "_NET_WM_NAME"@[1]);
            assert("_XEMBED_INFO"@[1] != "_NET_WM_ICON"@[1]);
            assert("_XEMBED_INFO"@[0] != "XdndPosition"@[0]);
            assert("_XEMBED_INFO"@[0] != "XdndFinished"@[0]);
            assert("_XEMBED_INFO"@[0] != "XdndTypeList"@[0]);
            assert(atom_of_name(atom_name(Atom::XembedInfo)) == Some(Atom::XembedInfo));
        },
        Atom::XdndAware => {
            reveal_strlit("XdndAware");
            reveal_strlit("XdndEnter");
            reveal_strlit("XdndLeave");
            assert("XdndAware"@[4] != "XdndEnter"@[4]);
            assert("XdndAware"@[4] != "XdndLeave"@[4]);
            assert(atom_of_name(atom_name(Atom::XdndAware)) == Some(Atom::XdndAware));
        },
        Atom::XdndEnter => {
            reveal_strlit("XdndAware");
            reveal_strlit("XdndEnter");
            reveal_strlit("XdndLeave");
            assert("XdndEnter"@[4] != "XdndAware"@[4]);
            assert("XdndEnter"@[4] != "XdndLeave"@[4]);
            assert(atom_of_name(atom_name(Atom::XdndEnter)) == Some(Atom::XdndEnter));
        },
        Atom::XdndPosition => {
            reveal_strlit("WM_ICON_NAME");
            reveal_strlit("WM_PROTOCOLS");
            reveal_strlit("_NET_WM_NAME");
            reveal_strlit("_NET_WM_ICON");
            reveal_strlit("_XEMBED_INFO");
            reveal_strlit("XdndPosition");
            reveal_strlit("XdndFinished");
            reveal_strlit("XdndTypeList");
            assert("XdndPosition"@[0] != "WM_ICON_NAME"@[0]);
            assert("XdndPosition"@[0] != "WM_PROTOCOLS"@[0]);
            assert("XdndPosition"@[0] != "_NET_WM_NAME"@[0]);
            assert("XdndPosition"@[0] != "_NET_WM_ICON"@[0]);
            assert("XdndPosition"@[0] != "_XEMBED_INFO"@[0]);
            assert("XdndPosition"@[4] != "XdndFinished"@[4]);
            assert("XdndPosition"@[4] != "XdndTypeList"@[4]);
            assert(atom_of_name(atom_name(Atom::XdndPosition)) == Some(Atom::XdndPosition));
        },
        Atom::XdndStatus => {
            reveal_strlit("WM_COMMAND");
            reveal_strlit("XdndStatus");
            assert("XdndStatus"@[0] != "WM_COMMAND"@[0]);
            assert(atom_of_name(atom_name(Atom::XdndStatus)) == Some(Atom::XdndStatus));
        },
        Atom::XdndLeave => {
            reveal_strlit("XdndAware");
            reveal_strlit("XdndEnter");
            reveal_strlit("XdndLeave");
            assert("XdndLeave"@[4] != "XdndAware"@[4]);
            assert("XdndLeave"@[4] != "XdndEnter"@[4]);
            assert(atom_of_name(atom_name(Atom::XdndLeave)) == Some(Atom::XdndLeave));
        },
        Atom::XdndDrop => {
            reveal_strlit("WM_HINTS");
            reveal_strlit("WM_CLASS");
            reveal_strlit("WM_STATE");
            reveal_strlit("XdndDrop");
            reveal_strlit("CARDINAL");
            assert("XdndDrop"@[0] != "WM_HINTS"@[0]);
            assert("XdndDrop"@[0] != "WM_CLASS"@[0]);
            assert("XdndDrop"@[0] != "WM_STATE"@[0]);
            assert("XdndDrop"@[0] != "CARDINAL"@[0]);
            assert(atom_of_name(atom_name(Atom::XdndDrop)) == Some(Atom::XdndDrop));
        },
        Atom::XdndFinished => {
            reveal_strlit("WM_ICON_NAME");
            reveal_strlit("WM_PROTOCOLS");
            reveal_strlit("_NET_WM_NAME");
            reveal_strlit("_NET_WM_ICON");
            reveal_strlit("_XEMBED_INFO");
            reveal_strlit("XdndPosition");
            reveal_strlit("XdndFinished");
            reveal_strlit("XdndTypeList");
            assert("XdndFinished"@[0] != "WM_ICON_NAME"@[0]);
            assert("XdndFinished"@[0] != "WM_PROTOCOLS"@[0]);
            assert("XdndFinished"@[0] != "_NET_WM_NAME"@[0]);
            assert("XdndFinished"@[0] != "_NET_WM_ICON"@[0]);
            assert("XdndFinished"@[0] != "_XEMBED_INFO"@[0]);
            assert("XdndFinished"@[4] != "XdndPosition"@[4]);
            assert("XdndFinished"@[4] != "XdndTypeList"@[4]);
            assert(atom_of_name(atom_name(Atom::XdndFinished)) == Some(Atom::XdndFinished));
        },
        Atom::XdndTypeList => {
            reveal_strlit("WM_ICON_NAME");
            reveal_strlit("WM_PROTOCOLS");
            reveal_strlit("_NET_WM_NAME");
            reveal_strlit("_NET_WM_ICON");
            reveal_strlit("_XEMBED_INFO");
            reveal_strlit("XdndPosition");
            reveal_strlit("XdndFinished");
            reveal_strlit("XdndTypeList");
            assert("XdndTypeList"@[0] != "WM_ICON_NAME"@[0]);
            assert("XdndTypeList"@[0] != "WM_PROTOCOLS"@[0]);
            assert("XdndTypeList"@[0] != "_NET_WM_NAME"@[0]);
            assert("XdndTypeList"@[0] != "_NET_WM_ICON"@[0]);
            assert("XdndTypeList"@[0] != "_XEMBED_INFO"@[0]);
            assert("XdndTypeList"@[4] != "XdndPosition"@[4]);
            assert("XdndTypeList"@[4] != "XdndFinished"@[4]);
            assert(atom_of_name(atom_name(Atom::XdndTypeList)) == Some(Atom::XdndTypeList));
        },
        Atom::XdndActionList => {
            reveal_strlit("_NET_SUPPORTED");
            reveal_strlit("Fluxbox/remote");
            reveal_strlit("XdndActionList");
            reveal_strlit("XdndActionCopy");
            reveal_strlit("_WM_MOVERESIZE");
            assert("XdndActionList"@[0] != "_NET_SUPPORTED"@[0]);
            assert("XdndActionList"@[0] != "Fluxbox/remote"@[0]);
            assert("XdndActionList"@[10] != "XdndActionCopy"@[10]);
            assert("XdndActionList"@[0] != "_WM_MOVERESIZE"@[0]);
            assert(atom_of_name(atom_name(Atom::XdndActionList)) == Some(Atom::XdndActionList));
        },
        Atom::XdndActionCopy => {
            reveal_strlit("_NET_SUPPORTED");
            reveal_strlit("Fluxbox/remote");
            reveal_strlit("XdndActionList");
            reveal_strlit("XdndActionCopy");
            reveal_strlit("_WM_MOVERESIZE");
            assert("XdndActionCopy"@[0] != "_NET_SUPPORTED"@[0]);
            assert("XdndActionCopy"@[0] != "Fluxbox/remote"@[0]);
            assert("XdndActionCopy"@[10] != "XdndActionList"@[10]);
            assert("XdndActionCopy"@[0] != "_WM_MOVERESIZE"@[0]);
            assert(atom_of_name(atom_name(Atom::XdndActionCopy)) == Some(Atom::XdndActionCopy));
        },
        Atom::GtkFrameExtents => {
            reveal_strlit("_NET_DESKTOP_NAMES");
            reveal_strlit("_NET_ACTIVE_WINDOW");
            reveal_strlit("_NET_VIRTUAL_ROOTS");
            reveal_strlit("_NET_FRAME_EXTENTS");
            reveal_strlit("FLUXBOX_REMOTE_CMD");
            reveal_strlit("_GTK_FRAME_EXTENTS");
            assert("_GTK_FRAME_EXTENTS"@[1] != "_NET_DESKTOP_NAMES"@[1]);
            assert("_GTK_FRAME_EXTENTS"@[1] != "_NET_ACTIVE_WINDOW"@[1]);
            assert("_GTK_FRAME_EXTENTS"@[1] != "_NET_VIRTUAL_ROOTS"@[1]);
            assert("_GTK_FRAME_EXTENTS"@[1] != "_NET_FRAME_EXTENTS"@[1]);
            assert("_GTK_FRAME_EXTENTS"@[0] != "FLUXBOX_REMOTE_CMD"@[0]);
            assert(atom_of_name(atom_name(Atom::GtkFrameExtents)) == Some(Atom::GtkFrameExtents));
        },
        Atom::GtkEdgeConstraint => {
            reveal_strlit("_NET_DESKTOP_VIEWPORT");
            reveal_strlit("_NET_WM_ACTION_RESIZE");
            reveal_strlit("_NET_WM_STRUT_PARTIAL");
            reveal_strlit("_NET_WM_ICON_GEOMETRY");
            reveal_strlit("_GTK_EDGE_CONSTRAINTS");
            assert("_GTK_EDGE_CONSTRAINTS"@[1] != "_NET_DESKTOP_VIEWPORT"@[1]);
            assert("_GTK_EDGE_CONSTRAINTS"@[1] != "_NET_WM_ACTION_RESIZE"@[1]);
            assert("_GTK_EDGE_CONSTRAINTS"@[1] != "_NET_WM_STRUT_PARTIAL"@[1]);
            assert("_GTK_EDGE_CONSTRAINTS"@[1] != "_NET_WM_ICON_GEOMETRY"@[1]);
            assert(atom_of_name(atom_name(Atom::GtkEdgeConstraint)) == Some(Atom::GtkEdgeConstraint));
        },
        Atom::Utf8String => {
            reveal_strlit("_NET_WM_PID");
            reveal_strlit("UTF8_STRING");
            assert("UTF8_STRING"@[0] != "_NET_WM_PID"@[0]);
            assert(atom_of_name(atom_name(Atom::Utf8String)) == Some(Atom::Utf8String));
        },
        Atom::String => {
            reveal_strlit("STRING");
            reveal_strlit("WINDOW");
            assert("STRING"@[0] != "WINDOW"@[0]);
            assert(atom_of_name(atom_name(Atom::String)) == Some(Atom::String));
        },
        Atom::Cardinal => {
            reveal_strlit("WM_HINTS");
            reveal_strlit("WM_CLASS");
            reveal_strlit("WM_STATE");
            reveal_strlit("XdndDrop");
            reveal_strlit("CARDINAL");
            assert("CARDINAL"@[0] != "WM_HINTS"@[0]);
            assert("CARDINAL"@[0] != "WM_CLASS"@[0]);
            assert("CARDINAL"@[0] != "WM_STATE"@[0]);
            assert("CARDINAL"@[0] != "XdndDrop"@[0]);
            assert(atom_of_name(atom_name(Atom::Cardinal)) == Some(Atom::Cardinal));
        },
        Atom::Window => {
            reveal_strlit("STRING");
            reveal_strlit("WINDOW");
            assert("WINDOW"@[0] != "STRING"@[0]);
            assert(atom_of_name(atom_name(Atom::Window)) == Some(Atom::Window));
        },
        Atom::AtomEnum => {
            reveal_strlit("ATOM");
            assert(atom_of_name(atom_name(Atom::AtomEnum)) == Some(Atom::AtomEnum));
        },
        Atom::WmMoveResize => {
            reveal_strlit("_NET_SUPPORTED");
            reveal_strlit("Fluxbox/remote");
            reveal_strlit("XdndActionList");
            reveal_strlit("XdndActionCopy");
            reveal_strlit("_WM_MOVERESIZE");
            assert("_WM_MOVERESIZE"@[1] != "_NET_SUPPORTED"@[1]);
            assert("_WM_MOVERESIZE"@[0] != "Fluxbox/remote"@[0]);
            assert("_WM_MOVERESIZE"@[0] != "XdndActionList"@[0]);
            assert("_WM_MOVERESIZE"@[0] != "XdndActionCopy"@[0]);
            assert(atom_of_name(atom_name(Atom::WmMoveResize)) == Some(Atom::WmMoveResize));
        },
    }
}

/// Distinct atoms have distinct names, and no name is empty: every atom is
/// interned under a name of its own.
pub proof fn lemma_atom_names_distinct(a: Atom, b: Atom)
    ensures
        a != b ==> atom_name(a) != atom_name(b),
        atom_name(a).len() > 0,
{
    lemma_atom_of_name(a);
    lemma_atom_of_name(b);
}

} // verus!
