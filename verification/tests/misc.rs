use std::sync::atomic::AtomicU32;

use rustbox::atoms::Atom;
use rustbox::battery::{parse_termux_json, read_percent, read_state, termux_status_to_state, BatteryState};
use rustbox::config::{init_resources, parse_init_text, FocusConfig, FocusModel, InitConfig, PlacementStrategy, ToolbarPlacement};
use rustbox::core_types::Rectangle;
use rustbox::font::{is_emoji, FontData};
use rustbox::hooks::{or, or_value, UNSET};
use rustbox::notify::render::{hit_test, popup_position, ClickResult};
use rustbox::notify::Corner;
use rustbox::sni::largest_frame;
use rustbox::toolbar::{ToolbarAction, ToolbarStyle};

#[test]
fn atom_names() {
    assert_eq!(Atom::WmName.name(), "WM_NAME");
    assert_eq!(Atom::NetWmStateFullscreen.name(), "_NET_WM_STATE_FULLSCREEN");
    assert_eq!(Atom::FluxboxRemote.name(), "Fluxbox/remote");
    assert_eq!(Atom::WmMoveResize.name(), "_WM_MOVERESIZE");
}

#[test]
fn atom_names_are_distinct() {
    let mut atoms = rustbox::atoms::net_supported();
    atoms.push(Atom::WmName);
    atoms.push(Atom::FluxboxRemote);
    atoms.push(Atom::XdndActionCopy);
    let mut distinct: Vec<Atom> = Vec::new();
    for a in atoms {
        if !distinct.contains(&a) {
            distinct.push(a);
        }
    }
    let names: Vec<&str> = distinct.iter().map(|a| a.name()).collect();
    for (i, a) in names.iter().enumerate() {
        assert!(!a.is_empty());
        for b in &names[i + 1..] {
            assert_ne!(a, b);
        }
    }
}

#[test]
fn init_config_defaults() {
    let c = InitConfig::new();
    assert_eq!(c.session.screen_count, 1);
    assert_eq!(c.workspace.names, vec!["1", "2", "3", "4"]);
    assert_eq!(c.window.placement, PlacementStrategy::Cascade);
    assert_eq!(c.toolbar.placement, ToolbarPlacement::Bottom);
    assert_eq!(c.toolbar.layer.num(), 8);
    assert!(c.resources.is_empty());
    assert_eq!(FocusConfig::default().model, FocusModel::ClickToFocus);
    assert_eq!(InitConfig::default().menu.delay, 200);
}

#[test]
fn init_file_resources() {
    let text = "! comment\n# also\nsession.screen0.toolbar.visible: false\n\n  session.menuFile :  ~/.rustbox/menu \nno colon here\nkey:a:b\nsession.screen0.toolbar.visible: true\n";
    let pairs = init_resources(text);
    let expect: Vec<(String, String)> = vec![
        ("session.screen0.toolbar.visible".to_string(), "false".to_string()),
        ("session.menuFile".to_string(), "~/.rustbox/menu".to_string()),
        ("key".to_string(), "a:b".to_string()),
        ("session.screen0.toolbar.visible".to_string(), "true".to_string()),
    ];
    assert_eq!(pairs, expect);
    let c = parse_init_text(text);
    assert_eq!(c.resources.len(), 3);
    assert_eq!(c.resources.get("session.screen0.toolbar.visible").map(|s| s.as_str()), Some("true"));
    assert_eq!(c.resources.get("key").map(|s| s.as_str()), Some("a:b"));
    assert_eq!(c.session.screen_count, 1);
    assert!(init_resources("").is_empty());
}

#[test]
fn battery_readings() {
    assert_eq!(read_percent(Some(" 87\n"), None, None), Some(87));
    assert_eq!(read_percent(Some("140"), None, None), Some(100));
    assert_eq!(read_percent(Some("-3"), None, None), Some(0));
    assert_eq!(read_percent(Some("x"), Some(50), Some(200)), Some(25));
    assert_eq!(read_percent(None, Some(50), Some(0)), None);
    assert_eq!(read_percent(None, None, Some(10)), None);
    assert_eq!(read_state("Charging\n", 50), BatteryState::Charging);
    assert_eq!(read_state("Not charging", 100), BatteryState::Full);
    assert_eq!(read_state("Not charging", 99), BatteryState::Discharging);
    assert_eq!(read_state("", 99), BatteryState::Unknown);
    assert_eq!(termux_status_to_state("PLUGGED_USB"), BatteryState::Charging);
    assert_eq!(termux_status_to_state("UNPLUGGED"), BatteryState::Discharging);
    assert_eq!(termux_status_to_state("FULL"), BatteryState::Full);
    assert_eq!(termux_status_to_state("??"), BatteryState::Unknown);
}

#[test]
fn termux_json() {
    let raw = r#"{"health": "GOOD", "percentage": 87, "plugged": "UNPLUGGED", "status": "DISCHARGING"}"#;
    assert_eq!(parse_termux_json(raw), Some((87, BatteryState::Discharging)));
    assert_eq!(parse_termux_json(r#"{"percentage":100,"status":"FULL"}"#), Some((100, BatteryState::Full)));
    assert_eq!(parse_termux_json(r#"{"percentage": 87}"#), None);
    assert_eq!(parse_termux_json(r#"{"percentage": 87"#), None);
    assert_eq!(parse_termux_json(r#"{"percentage": 300, "status": "FULL"}"#), None);
}

#[test]
fn emoji_ranges() {
    assert!(is_emoji('\u{1F600}'));
    assert!(is_emoji('\u{200D}'));
    assert!(is_emoji('\u{2600}'));
    assert!(!is_emoji('a'));
    assert!(!is_emoji('\u{1FB00}'));
    let f = FontData { data: vec![1], face_index: 0 };
    assert_eq!(f.data.len(), 1);
}

#[test]
fn overrides() {
    assert_eq!(or_value(UNSET, 7), 7);
    assert_eq!(or_value(3, 7), 3);
    let a = AtomicU32::new(UNSET);
    assert_eq!(or(&a, 9), 9);
    let b = AtomicU32::new(42);
    assert_eq!(or(&b, 9), 42);
}

#[test]
fn toolbar_defaults() {
    let s = ToolbarStyle::default();
    assert_eq!((s.height, s.bevel_width, s.border_width), (24, 2, 1));
    assert_eq!(s.font, "fixed");
    assert_eq!(ToolbarAction::Workspace(2), ToolbarAction::Workspace(2));
    assert_ne!(ToolbarAction::Nothing, ToolbarAction::Window(0));
}

#[test]
fn largest_icon_frame() {
    assert_eq!(largest_frame(&[]), None);
    let frames = vec![(16, 16, vec![1]), (32, 32, vec![2]), (8, 128, vec![3])];
    assert_eq!(largest_frame(&frames), Some((8, 128, vec![3])));
    let small = vec![(16, 16, vec![1]), (64, 64, vec![2])];
    assert_eq!(largest_frame(&small), Some((64, 64, vec![2])));
}

#[test]
fn popup_positions() {
    assert_eq!(popup_position(Corner::TopRight, 300, 80, 1920, 1080, 12, 8, 0), (1608, 12));
    assert_eq!(popup_position(Corner::TopLeft, 300, 80, 1920, 1080, 12, 8, 2), (12, 188));
    assert_eq!(popup_position(Corner::BottomRight, 300, 80, 1920, 1080, 12, 8, 1), (1608, 888));
    assert_eq!(popup_position(Corner::BottomLeft, 300, 80, 1920, 1080, 12, 8, 0), (12, 976));
}

#[test]
fn popup_clicks() {
    let rects = vec![(Rectangle::new(10, 50, 40, 20), "open".to_string())];
    assert!(matches!(hit_test(&rects, 200, 80, 15, 55), Some(ClickResult::Action(k)) if k == "open"));
    assert!(matches!(hit_test(&rects, 200, 80, 100, 5), Some(ClickResult::Dismiss)));
    assert!(hit_test(&rects, 200, 80, 300, 5).is_none());
}
