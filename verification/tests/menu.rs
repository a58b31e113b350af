use rustbox::menu::menuitem::{MenuItem, MenuItemType};
use rustbox::menu::parser::{parse_menu, MenuParseError};

const BASIC: &str = r#"[begin] (Rustbox Root Menu)
  [exec] (termion) {termion}
  [exec] (Firefox) {firefox}
  [separator]
  [submenu] (Appearance)
    [config] (Configuration)
  [end]
  [reconfig] (Reload)
  [restart] (Restart)
  [exit] (Exit)
[end]"#;

#[test]
fn test_parse_basic_menu() {
    let mut next_id = 1u32;
    let (label, items) = parse_menu(BASIC, None, &mut next_id).unwrap();
    assert_eq!(label, "Rustbox Root Menu");
    assert_eq!(items.len(), 7);
    assert_eq!(items[0].label(), "termion");
    assert!(matches!(items[0].item_type(), MenuItemType::Exec(c) if c == "termion"));
    assert!(matches!(items[2].item_type(), MenuItemType::Separator));
    assert!(!items[2].is_enabled());
    assert!(matches!(items[3].item_type(), MenuItemType::Submenu(1, l) if l == "Appearance"));
    assert!(matches!(items[4].item_type(), MenuItemType::Reconfig));
    assert_eq!(items[4].label(), "Reload");
    assert!(matches!(items[6].item_type(), MenuItemType::Exit));
    assert_eq!(next_id, 2);
}

#[test]
fn menu_without_begin_is_refused() {
    let mut id = 1;
    assert_eq!(parse_menu("[exec] (a) {b}", None, &mut id).err(), Some(MenuParseError::NoBegin));
    assert_eq!(parse_menu("", None, &mut id).err(), Some(MenuParseError::NoBegin));
    assert_eq!(id, 1);
}

#[test]
fn menu_defaults_comments_and_includes() {
    // A directive without a label looks for it on the next line, and the
    // rest of that line is then skipped: `[reconfig] (R)` is consumed by
    // `[restart]`, and `[skipped] (x)` by the first `[include]`.
    let text = "# heading\n[begin] (Root) # note\n[exit] (Quit)\n[restart]\n[reconfig] (R)\n\
                [nop] (-- x --)\n[include] (~/menus/extra)\n[skipped] (x)\n[include] (lbl) {/etc/m}\n\
                [workspaces] (W)\n[exec] (a#b) {c}\n";
    let mut id = 5;
    let (label, items) = parse_menu(text, Some("/home/u"), &mut id).unwrap();
    assert_eq!(label, "Root");
    assert_eq!(items.len(), 7);
    assert_eq!(items[0].label(), "Quit");
    assert!(matches!(items[0].item_type(), MenuItemType::Exit));
    assert_eq!(items[1].label(), "Restart");
    assert!(matches!(items[1].item_type(), MenuItemType::Restart));
    assert_eq!(items[2].label(), "-- x --");
    assert!(!items[2].is_enabled());
    assert_eq!(items[3].label(), "~/menus/extra");
    assert!(matches!(items[3].item_type(), MenuItemType::Include(p) if p == "/home/u/menus/extra"));
    assert_eq!(items[4].label(), "lbl");
    assert!(matches!(items[4].item_type(), MenuItemType::Include(p) if p == "/etc/m"));
    assert_eq!(items[5].label(), "W");
    assert!(matches!(items[5].item_type(), MenuItemType::Workspaces));
    assert_eq!(items[6].label(), "a#b");
    assert!(matches!(items[6].item_type(), MenuItemType::Exec(c) if c == "c"));
    assert_eq!(id, 5);
}

#[test]
fn menu_label_defaults() {
    let mut id = 1;
    let (_, items) = parse_menu("[begin] (r)\n[exit]\n[end]\n", None, &mut id).unwrap();
    assert_eq!(items.len(), 1);
    assert_eq!(items[0].label(), "Exit");
    let (_, items) = parse_menu("[begin] (r)\n[workspaces]\n[end]\n", None, &mut id).unwrap();
    assert_eq!(items[0].label(), "Workspaces");
    let (_, items) = parse_menu("[begin] (r)\n[reconfig]\n[end]\n", None, &mut id).unwrap();
    assert_eq!(items[0].label(), "Reconfigure");
}

#[test]
fn menu_nesting_limit() {
    let mut text = String::from("[begin] (r)\n");
    for _ in 0..40 {
        text.push_str("[submenu] (s)\n");
    }
    let mut id = 1;
    assert_eq!(parse_menu(&text, None, &mut id).err(), Some(MenuParseError::TooDeep));
}

#[test]
fn menu_items_built_directly() {
    let s = MenuItem::separator();
    assert_eq!(s.label(), "");
    assert!(!s.is_enabled());
    let e = MenuItem::new("Run", MenuItemType::RunDialog);
    assert!(e.is_enabled());
    let n = MenuItem::new("x", MenuItemType::Nop);
    assert!(!n.is_enabled());
}
