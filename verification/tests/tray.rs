use rustbox::slit::{FbSlit, SlitPlacement, SlitStyle};
use rustbox::core_types::Rectangle;
use rustbox::tray::{FbTray, TrayPlacement};

fn tray() -> FbTray {
    FbTray::new(100, 101, 7, 0, 1, 1920, 1080)
}

#[test]
fn tray_docks_and_lays_out() {
    let mut t = tray();
    assert!(t.is_empty());
    assert_eq!(t.current_width(), 0);
    assert!(t.owns_window(100));
    assert!(t.owns_window(101));
    assert!(!t.owns_window(5));
    assert!(t.dock(5));
    assert!(!t.dock(5));
    assert!(!t.dock(100));
    assert!(t.owns_window(5));
    assert_eq!(t.current_width(), 24);
    for w in 6..10 {
        assert!(t.dock(w));
    }
    // 5 icons, 4 in the row and a chevron.
    assert!(t.layout_fits());
    assert_eq!(t.current_width(), 5 * 24);
    assert!(t.handle_button_press(4 * 24, 3));
    assert!(t.handle_button_press(5 * 24 - 1, 23));
    assert!(!t.handle_button_press(3 * 24, 3));
    assert!(!t.handle_button_press(4 * 24, 24));
    assert!(t.undock(7));
    assert!(!t.undock(7));
    assert_eq!(t.current_width(), 4 * 24);
    assert!(!t.handle_button_press(3 * 24, 3));
}

#[test]
fn tray_dbus_slots() {
    let mut t = tray();
    assert!(t.dock(5));
    assert!(t.sni_add("org.a"));
    assert!(!t.sni_add("org.a"));
    assert!(t.sni_add("org.b"));
    // Slots without a pixmap take no room.
    assert_eq!(t.current_width(), 24);
    assert_eq!(t.sni_set_pixmap("org.b", 77), Some(None));
    assert_eq!(t.current_width(), 48);
    assert_eq!(t.sni_slot_at(24, 0), Some("org.b".to_string()));
    assert_eq!(t.sni_slot_at(47, 23), Some("org.b".to_string()));
    assert_eq!(t.sni_slot_at(5, 5), None);
    assert_eq!(t.sni_slot_at(30, 24), None);
    assert_eq!(t.sni_slot_at(-5, 5), None);
    assert_eq!(t.sni_set_pixmap("org.b", 78), Some(Some(77)));
    assert_eq!(t.sni_set_pixmap("org.c", 1), None);
    assert_eq!(t.sni_remove("org.b"), Some(Some(78)));
    assert_eq!(t.sni_remove("org.b"), None);
    assert_eq!(t.sni_remove("org.a"), Some(None));
}

#[test]
fn tray_popup() {
    let mut t = tray();
    assert!(!t.popup_open());
    t.toggle_popup();
    assert!(t.popup_open());
    assert!(!t.close_popup_on(100));
    assert!(!t.close_popup_on(101));
    assert!(t.close_popup_on(55));
    assert!(!t.popup_open());
    t.set_anchor(900);
    assert_eq!(t.window_id(), 100);
    assert_eq!(t.popup_window_id(), 101);
}

#[test]
fn slit_extent_follows_dock() {
    let mut s = FbSlit::new(50, 2, 0, 1920, 1080, SlitPlacement::Right);
    assert!(s.is_empty());
    assert_eq!(s.strut().right, 0);
    assert_eq!(s.placement_rect(), None);
    assert_eq!(s.add_window(60, 64, 64), Some(0));
    assert_eq!(s.add_window(61, 48, 30), Some(66));
    assert_eq!(s.add_window(61, 48, 30), None);
    assert_eq!(s.add_window(50, 1, 1), None);
    assert!(s.owns_window(61));
    let st = s.strut();
    assert_eq!((st.left, st.right, st.top, st.bottom), (0, 64, 0, 0));
    assert_eq!(s.placement_rect(), Some((1920 - 64, 0, 64, 98)));
    assert_eq!(s.dock_offsets(), vec![0, 66]);
    assert!(s.remove_window(60));
    assert!(!s.remove_window(60));
    assert_eq!(s.placement_rect(), Some((1920 - 48, 0, 48, 32)));
    assert_eq!(s.dock_offsets(), vec![0]);
    assert!(s.remove_window(61));
    assert!(s.is_empty());
    assert!(s.dock_offsets().is_empty());
    assert_eq!(s.window_id(), 50);
    let d = SlitStyle::default();
    assert_eq!(d.placement, SlitPlacement::Right);
    assert_eq!(d.gap, 2);
}

#[test]
fn slit_on_each_edge() {
    for (p, expect) in [
        (SlitPlacement::Left, (10, 0, 0, 0)),
        (SlitPlacement::Top, (0, 0, 10, 0)),
        (SlitPlacement::Bottom, (0, 0, 0, 10)),
    ] {
        let mut s = FbSlit::new(1, 2, 0, 800, 600, p);
        s.add_window(3, 10, 20);
        let st = s.strut();
        assert_eq!((st.left, st.right, st.top, st.bottom), expect);
    }
    let mut b = FbSlit::new(1, 2, 0, 800, 600, SlitPlacement::Bottom);
    b.add_window(3, 10, 20);
    assert_eq!(b.placement_rect(), Some((0, 590, 22, 10)));
}

#[test]
fn tray_placement() {
    let mut t = tray();
    assert!(t.placement_fits());
    assert_eq!(t.placement(), TrayPlacement { row: None, shown: vec![], popup: None, overflow: vec![] });
    t.set_anchor(1700);
    for w in 5..11 {
        assert!(t.dock(w));
    }
    // Six icons: four in the row, a chevron, two in the closed popup.
    let p = t.placement();
    assert_eq!(p.row, Some(Rectangle::new(1700 - 5 * 24, 1080 - 24 - 2, 5 * 24, 24)));
    assert_eq!(p.shown, vec![(5, 0), (6, 24), (7, 48), (8, 72)]);
    assert_eq!(p.popup, None);
    assert_eq!(p.overflow, vec![(9, 120), (10, 120)]);
    t.toggle_popup();
    let q = t.placement();
    assert_eq!(q.popup, Some(Rectangle::new(1700 - 24, 1054 - 48, 24, 48)));
    assert_eq!(q.overflow, vec![(9, 0), (10, 24)]);
    t.set_anchor(-32768);
    assert!(!t.placement_fits());
}
