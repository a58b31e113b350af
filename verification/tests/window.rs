use rustbox::core_types::Rectangle;
use rustbox::window::frame::{hit_test_button, is_titlebar_press, layout_buttons};
use rustbox::window::{ButtonType, FrameButton, WinClient, WindowState, WindowType};
use rustbox::workspace::Workspace;

#[test]
fn client_accessors() {
    let mut c = WinClient::new(10, 1);
    assert_eq!(c.window(), 10);
    assert_eq!(c.frame(), None);
    assert_eq!(c.name(), "");
    assert_eq!(c.window_type(), WindowType::Normal);
    c.set_frame(20);
    c.set_name("xterm".to_string());
    c.set_window_type(WindowType::Dialog);
    c.set_focus(true);
    c.set_urgent(true);
    c.set_mapped(true);
    assert_eq!(c.frame(), Some(20));
    assert_eq!(c.name(), "xterm");
    assert_eq!(c.class_name(), "");
    assert_eq!(c.class_instance(), "");
    assert_eq!(c.window_type(), WindowType::Dialog);
    assert!(c.has_focus() && c.is_urgent() && c.is_mapped());
}

#[test]
fn window_types_by_number() {
    assert_eq!(WindowType::from_atom(0), WindowType::Desktop);
    assert_eq!(WindowType::from_atom(1), WindowType::Dock);
    assert_eq!(WindowType::from_atom(13), WindowType::Dnd);
    assert_eq!(WindowType::from_atom(14), WindowType::Normal);
}

#[test]
fn window_state_flags() {
    let mut s = WindowState::new();
    s.set_state("_NET_WM_STATE_FULLSCREEN", true);
    s.set_state("shaded", true);
    s.set_state("sticky", true);
    s.set_state("sticky", false);
    s.set_state("bogus", true);
    assert!(s.fullscreen && s.shaded && !s.sticky && !s.mapped);
    assert_eq!(s.restore_position(), None);
    let r = Rectangle::new(1, 2, 3, 4);
    s.save_position(r);
    assert_eq!(s.restore_position(), Some(r));
    assert!(!WindowState::default().fullscreen);
}

#[test]
fn workspace_windows_and_stacking() {
    let mut w = Workspace::new(2, "web");
    assert_eq!(w.id(), 2);
    assert_eq!(w.name(), "web");
    assert!(w.is_empty());
    w.add_window(10);
    w.add_window(11);
    w.add_window(10);
    assert_eq!(w.windows(), &[10, 11][..]);
    assert_eq!(w.window_count(), 2);
    assert_eq!(w.last_focused(), Some(10));
    assert!(w.has_window(11));
    w.raise_window(10);
    w.raise_window(11);
    w.lower_window(11);
    w.remove_window(10);
    assert_eq!(w.windows(), &[11][..]);
    assert_eq!(w.last_focused(), Some(11));
    assert!(!w.has_window(10));
    w.remove_window(11);
    assert_eq!(w.last_focused(), None);
    w.set_last_focused(4);
    assert_eq!(w.last_focused(), Some(4));
    w.set_name("mail");
    assert_eq!(w.name(), "mail");
}

#[test]
fn frame_buttons() {
    let b = layout_buttons(200, false);
    assert_eq!(b.len(), 3);
    assert_eq!(b[0].btn_type, ButtonType::Iconify);
    assert_eq!(b[0].rect, Rectangle::new(138, 3, 18, 18));
    assert_eq!(b[1].btn_type, ButtonType::Maximize);
    assert_eq!(b[1].rect.x, 158);
    assert_eq!(b[2].btn_type, ButtonType::Close);
    assert_eq!(b[2].rect.x, 178);
    let two = layout_buttons(10, true);
    assert_eq!(two.len(), 2);
    assert_eq!(two[0].rect.x, 0);
    assert_eq!(two[1].rect.x, 20);
    assert_eq!(hit_test_button(&b, 180, 5), Some(ButtonType::Close));
    assert_eq!(hit_test_button(&b, 10, 5), None);
    assert!(is_titlebar_press(&b, 200, 24, 10, 5));
    assert!(!is_titlebar_press(&b, 200, 24, 180, 5));
    assert!(!is_titlebar_press(&b, 200, 24, 10, 30));
    let f = FrameButton::new(ButtonType::Menu, 1, 2, 3);
    assert!(!f.pressed);
}
