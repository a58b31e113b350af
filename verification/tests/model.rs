use rustbox::screen::{taskbar_entries, PendingCloses};
use rustbox::atoms::{le_bytes, net_supported, Atom};
use rustbox::battery::BatteryState;
use rustbox::core_types::{Rectangle, Strut};
use rustbox::notify::daemon::{
    capabilities, control_of, icon_source, method_of, server_information, ControlCommand,
    DaemonMethod, IconSource,
};
use rustbox::notify::queue::NotifyQueue;
use rustbox::notify::{notify, Urgency};
use rustbox::theme::{Theme, ThemeManager};
use rustbox::toolbar::{clock_text, battery_text, FbToolbar, ToolbarAction, ToolbarPlacement};
use rustbox::window::frame::{ButtonType, FbWinFrame};
use rustbox::window::{FullscreenChange, NormalHints, RustboxWindow, WinClient, WindowManager};

fn names(n: usize) -> Vec<String> {
    (1..=n).map(|i| i.to_string()).collect()
}

#[test]
fn toolbar_layout_and_clicks() {
    let mut tb = FbToolbar::new(5, 6, 0, 1, 1920, 1080, names(3), ToolbarPlacement::Bottom, None);
    assert_eq!(tb.window_id(), 5);
    assert_eq!(tb.handle_button_press(10, 5), ToolbarAction::Workspace(0));
    assert_eq!(tb.handle_button_press(30, 5), ToolbarAction::Workspace(1));
    assert_eq!(tb.handle_button_press(2, 5), ToolbarAction::Nothing);
    assert_eq!(tb.strut(), Strut::new(0, 0, 0, 26));
    assert_eq!(tb.placement_y(), 1054);
    assert_eq!(tb.tray_right_anchor(), 1769);
    tb.set_window_items(vec![("a".to_string(), true), ("b".to_string(), false)]);
    tb.layout();
    assert_eq!(tb.handle_button_press(900, 5), ToolbarAction::Window(0));
    assert_eq!(tb.handle_button_press(930, 5), ToolbarAction::Window(1));
    assert_eq!(tb.handle_button_press(1800, 5), ToolbarAction::Nothing);
    assert_eq!(tb.button_rects()[1], (1, Rectangle::new(29, 1, 24, 24)));
    assert_eq!(tb.window_rects(), &[Rectangle::new(81, 1, 842, 24), Rectangle::new(925, 1, 842, 24)]);
    assert_eq!(tb.label_rect(), Rectangle::new(81, 1, 1686, 24));
    assert_eq!(tb.clock_rect(), Rectangle::new(1773, 1, 144, 24));
    assert_eq!(tb.battery_rect(), Rectangle::new(0, 0, 0, 0));
    assert_eq!(tb.battery(), None);
    assert_eq!(tb.window_items()[0], ("a".to_string(), true));
    assert_eq!(tb.workspace_names().len(), 3);
    assert_eq!(tb.current_workspace(), 0);
    assert_eq!(tb.label(), "");
    tb.set_tray_reserve(-5);
    tb.battery_polled(Some((50, BatteryState::Discharging)));
    assert_eq!(tb.tray_right_anchor(), 1695);
    let top = FbToolbar::new(5, 6, 0, 1, 800, 600, names(1), ToolbarPlacement::Top, Some((9, BatteryState::Charging)));
    assert_eq!(top.strut(), Strut::new(0, 0, 26, 0));
    assert_eq!(top.placement_y(), 0);
}

#[test]
fn battery_texts() {
    assert_eq!(battery_text(87, BatteryState::Charging), "87+");
    assert_eq!(battery_text(100, BatteryState::Full), "FULL");
    assert_eq!(battery_text(150, BatteryState::Discharging), "100%");
    assert_eq!(battery_text(5, BatteryState::Unknown), "5%");
}

#[test]
fn frame_geometry() {
    let mut f = FbWinFrame::new(1, 2, 3, 4, 300, 200, None, None);
    assert_eq!((f.frame_window(), f.title_window(), f.handle_window()), (1, 2, 3));
    assert_eq!((f.border_width(), f.title_height()), (2, 22));
    assert_eq!(f.handle_geometry(), Some(Rectangle::new(2, 218, 300, 6)));
    assert_eq!(f.hit_test_button(280, 10), Some(ButtonType::Close));
    assert_eq!(f.hit_test_button(240, 10), Some(ButtonType::Iconify));
    assert!(f.is_titlebar_press(10, 10));
    assert!(!f.is_titlebar_press(280, 10));
    assert_eq!(f.label_space(), 290);
    assert_eq!(f.resize(400, 100), 126);
    assert_eq!((f.client_width(), f.client_height()), (400, 100));
    assert_eq!(f.hit_test_button(380, 10), Some(ButtonType::Close));
    f.shaded = true;
    assert_eq!(f.handle_geometry(), None);
    assert_eq!(f.move_resize(0, 0, 400, 100), 26);
    f.set_label("term".to_string());
    assert_eq!(f.label(), "term");
}

fn window(id: u32) -> RustboxWindow {
    RustboxWindow::new(WinClient::new(id, 1), FbWinFrame::new(id + 1000, id + 2000, id + 3000, id, 300, 200, None, None), 0)
}

#[test]
fn window_manager_focus_and_removal() {
    let mut wm = WindowManager::new();
    wm.add_window(window(10));
    wm.add_window(window(20));
    assert_eq!(wm.count(), 2);
    wm.set_active_window(10);
    wm.set_active_window(20);
    wm.set_active_window(99);
    assert_eq!(wm.active_window(), Some(20));
    wm.set_active_window(10);
    assert_eq!(wm.active_window(), Some(10));
    wm.remove_window(10);
    assert_eq!(wm.active_window(), None);
    assert!(wm.get_window(10).is_none());
    assert_eq!(wm.get_window(20).unwrap().id(), 20);
    assert_eq!(wm.iter_by_stacking().len(), 1);
    wm.add_window(window(20));
    assert_eq!(wm.count(), 1);
    assert_eq!(wm.iter_by_stacking().len(), 2);
    wm.add_window(window(30));
    let order: Vec<u32> = wm.iter_by_stacking().iter().map(|w| w.id()).collect();
    assert_eq!(order, vec![20, 20, 30]);
    if let Some(w) = wm.get_window_mut(20) {
        w.set_workspace(3);
    }
    assert_eq!(wm.get_window(20).unwrap().workspace(), 3);
}

#[test]
fn windows_maximize_and_restore() {
    let mut w = window(10);
    let area = Rectangle::new(0, 0, 1920, 1050);
    let fallback = Rectangle::new(384, 210, 1152, 630);
    w.set_geometry(Rectangle::new(100, 100, 300, 200));
    assert_eq!(w.maximize(true, true, &area, fallback), Some(area));
    assert!(w.is_maximized());
    assert_eq!(w.state().restore_position(), Some(Rectangle::new(100, 100, 300, 200)));
    assert_eq!(w.frame().client_width(), 1920);
    assert_eq!(w.unmaximize(&area, fallback), Some(Rectangle::new(100, 100, 300, 200)));
    assert!(!w.is_maximized());
    assert_eq!(w.unmaximize(&area, fallback), None);
    w.set_geometry(area);
    w.maximize(true, true, &area, fallback);
    assert_eq!(w.unmaximize(&area, fallback), Some(fallback));
    assert_eq!(w.set_fullscreen(true, 1920, 1080), FullscreenChange::Entered(Rectangle::new(0, 0, 1920, 1080)));
    assert_eq!(w.set_fullscreen(true, 1920, 1080), FullscreenChange::Unchanged);
    assert_eq!(w.maximize(true, true, &area, fallback), None);
    assert_eq!(w.set_fullscreen(false, 1920, 1080), FullscreenChange::Left(Some(fallback)));
    assert!(w.iconify());
    assert!(!w.iconify());
    assert!(w.is_iconic());
    assert!(w.deiconify());
    assert_eq!(w.client_placement(300, 200), (2, 24, 300, 200));
    w.set_geometry(Rectangle::new(10, 20, 300, 200));
    assert_eq!(w.notify_position(), (12, 44));
}

#[test]
fn size_hints_are_merged() {
    let mut h = NormalHints::default();
    h.merge(Some((0, 50)), Some((100_000, 400)), Some((-3, 8)), Some((-1, 7)));
    assert_eq!((h.min_width, h.min_height), (1, 50));
    assert_eq!((h.max_width, h.max_height), (65535, 400));
    assert_eq!((h.width_inc, h.height_inc), (1, 8));
    assert_eq!((h.base_width, h.base_height), (0, 7));
    h.merge(None, None, None, None);
    assert_eq!(h.height_inc, 8);
}

#[test]
fn daemon_methods() {
    assert_eq!(method_of("org.freedesktop.Notifications", "Notify"), DaemonMethod::Notify);
    assert_eq!(method_of("org.freedesktop.Notifications", "GetCapabilities"), DaemonMethod::GetCapabilities);
    assert_eq!(method_of("org.freedesktop.Notifications", "Nope"), DaemonMethod::Unknown);
    assert_eq!(method_of("org.dunstproject.cmd0", "anything"), DaemonMethod::Control);
    assert_eq!(method_of("a", "b"), DaemonMethod::Unknown);
    assert_eq!(control_of("getHistory"), ControlCommand::History);
    assert_eq!(control_of("history"), ControlCommand::History);
    assert_eq!(control_of("closeLast"), ControlCommand::CloseLast);
    assert_eq!(control_of("Ping"), ControlCommand::Unknown);
    let caps = capabilities();
    assert_eq!(caps.len(), 8);
    assert_eq!(caps[0], "body");
    assert_eq!(caps[7], "x-dunst-stack-tag");
    assert_eq!(server_information(), ("rustbox", "rustbox", "1.4.0", "1.2"));
    assert_eq!(icon_source("/i.png", Some("/p.png"), None, "app"), IconSource::Given("/i.png".to_string()));
    assert_eq!(icon_source("", Some("/p.png"), None, "app"), IconSource::Given("/p.png".to_string()));
    assert_eq!(icon_source("", None, Some("firefox"), "app"), IconSource::Theme("firefox".to_string()));
    assert_eq!(icon_source("", None, None, "app"), IconSource::Theme("app".to_string()));
    assert_eq!(icon_source("", None, None, ""), IconSource::NoIcon);
}

#[test]
fn queue_history_controls() {
    let mut q = NotifyQueue::new();
    for (id, app) in [(1u32, "a"), (2, "b"), (3, "c")] {
        let mut n = notify(app, "s").body("x").urgency(Urgency::Critical).action("ok", "OK").build();
        n.id = id;
        q.push_displayed(n);
    }
    assert_eq!(q.last_displayed_id(), Some(3));
    q.close(1);
    q.close(2);
    let ctx = q.context_actions(3);
    assert_eq!(ctx, vec![("ok".to_string(), "OK".to_string())]);
    assert_eq!(q.context_actions(1), vec![("ok".to_string(), "OK".to_string())]);
    assert!(q.context_actions(42).is_empty());
    let h = q.history_entries();
    assert_eq!(h.len(), 2);
    assert_eq!(h[0], (1, "a".to_string(), "s".to_string(), "x".to_string(), 2));
    q.remove_from_history(1);
    assert_eq!(q.history_count(), 1);
    assert_eq!(q.history_entries()[0].0, 2);
}

#[test]
fn supported_hints_and_property_bytes() {
    let s = net_supported();
    assert_eq!(s.len(), 60);
    assert_eq!(s[0], Atom::NetSupported);
    assert_eq!(s[59], Atom::NetRequestFrameExtents);
    assert_eq!(le_bytes(&[0x01020304, 5]), vec![4, 3, 2, 1, 5, 0, 0, 0]);
}

#[test]
fn current_theme_changes_in_place() {
    let mut tm = ThemeManager::new();
    assert!(tm.theme_mut().is_none());
    tm.load_theme("/t/style", "style", "a: 1\n");
    if let Some(t) = tm.theme_mut() {
        t.merge(Theme::from_text("other", "b: 2\na: 9\n"));
    }
    let t = tm.theme().unwrap();
    assert_eq!(t.get("a"), Some("1"));
    assert_eq!(t.get("b"), Some("2"));
}

#[test]
fn taskbar_lists_current_workspace() {
    let mut a = window(10);
    a.client_mut().set_name("xterm".to_string());
    let b = window(21);
    let mut c = RustboxWindow::new(WinClient::new(30, 1), FbWinFrame::new(1030, 2030, 3030, 30, 300, 200, None, None), 1);
    c.client_mut().set_name("other".to_string());
    let mut d = window(40);
    d.client_mut().set_name("mail".to_string());
    assert!(d.iconify());
    let list = vec![a, b, c, d];
    let (items, order) = taskbar_entries(&list, 0, Some(21));
    assert_eq!(
        items,
        vec![
            ("xterm".to_string(), false),
            ("Window 21".to_string(), true),
            ("[mail] ".to_string(), false),
        ]
    );
    assert_eq!(order, vec![10, 21, 40]);
    let (items1, order1) = taskbar_entries(&list, 1, None);
    assert_eq!(items1, vec![("other".to_string(), false)]);
    assert_eq!(order1, vec![30]);
    assert!(taskbar_entries(&list, 5, Some(10)).0.is_empty());
}

#[test]
fn clock_and_pending_closes() {
    assert_eq!(clock_text(9, 5, 0), "09:05:00");
    assert_eq!(clock_text(23, 59, 59), "23:59:59");
    assert_eq!(clock_text(0, 10, 7), "00:10:07");
    let mut p = PendingCloses::new();
    p.insert(10, 1000);
    p.insert(20, 3000);
    p.insert(10, 2000);
    assert!(p.take_expired(6999).is_empty());
    assert_eq!(p.take_expired(7000), vec![10]);
    assert!(p.take_expired(7000).is_empty());
    assert_eq!(p.take_expired(8000), vec![20]);
    p.insert(30, 500);
    assert!(p.take_expired(100).is_empty());
}
