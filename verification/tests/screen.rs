use rustbox::core_types::{Rectangle, Strut};
use rustbox::menu::layout::{hit_test, item_width, layout, needs_columns, place};
use rustbox::screen::{add_workspace, menu_command, MenuCommand, client_focus_plan, supports_protocol, dialog_key, dialog_keysym, DialogAction, DialogEffect, load_workspace_names, primary_monitor, screen_struts, workarea_of, workspace_names_text, workspace_switch};
use rustbox::workspace::Workspace;
use rustbox::keys::{KeyAction, KeyBinding};
use rustbox::screen::{
    configure_changes, is_dock_app, key_action_outcome, keyboard_resize_grab, maximize_button,
    move_grab, move_position, plan_event, resize_corner, resize_geometry, taskbar_click,
    DragState, EventAction, KeyOutcome, ManagedWindow, MaximizeChoice, ResizeGrab, ScreenEvent,
    ScreenSnapshot, TaskbarToggle,
};
use rustbox::menu::menuitem::MenuItemType;
use rustbox::slit::{FbSlit, SlitPlacement};
use rustbox::tray::FbTray;
use rustbox::window::frame::layout_buttons;
use rustbox::window::{covers_workarea, NormalHints};

fn wa() -> Rectangle {
    Rectangle::new(0, 0, 1920, 1080)
}

#[test]
fn resize_from_right_bottom_follows_pointer() {
    let g = ResizeGrab { corner: 2 | 8, start_root_x: 100, start_root_y: 100, win_x: 10, win_y: 20, win_w: 200, win_h: 150 };
    let r = resize_geometry(g, 150, 130, NormalHints::default(), false, wa());
    assert_eq!(r, Rectangle::new(10, 20, 250, 180));
}

#[test]
fn resize_from_left_top_keeps_right_bottom_edges() {
    let g = ResizeGrab { corner: 1 | 4, start_root_x: 100, start_root_y: 100, win_x: 10, win_y: 20, win_w: 200, win_h: 150 };
    let r = resize_geometry(g, 80, 90, NormalHints::default(), false, wa());
    // The left edge stops at the workarea; the right edge stays at 210.
    assert_eq!(r, Rectangle::new(0, 10, 210, 160));
    assert_eq!(r.x as i32 + r.width as i32, 210);
    assert_eq!(r.y as i32 + r.height as i32, 170);
}

#[test]
fn resize_snaps_to_increments_and_limits() {
    let mut h = NormalHints::default();
    h.width_inc = 10;
    h.base_width = 5;
    let g = ResizeGrab { corner: 2, start_root_x: 0, start_root_y: 0, win_x: 0, win_y: 0, win_w: 200, win_h: 100 };
    let r = resize_geometry(g, 37, 0, h, false, wa());
    assert_eq!(r.width, 235);
    assert_eq!(r.height, 100);
    let mut h2 = NormalHints::default();
    h2.min_width = 120;
    h2.max_width = 150;
    let small = resize_geometry(g, -150, 0, h2, false, wa());
    assert_eq!(small.width, 120);
    let big = resize_geometry(g, 500, 0, h2, false, wa());
    assert_eq!(big.width, 150);
}

#[test]
fn resize_fullscreen_ignores_workarea() {
    let g = ResizeGrab { corner: 2, start_root_x: 0, start_root_y: 0, win_x: 1800, win_y: 0, win_w: 100, win_h: 100 };
    let capped = resize_geometry(g, 300, 0, NormalHints::default(), false, wa());
    assert_eq!(capped.width, 120);
    let free = resize_geometry(g, 300, 0, NormalHints::default(), true, wa());
    assert_eq!(free.width, 400);
}

#[test]
fn resize_corner_by_third() {
    let geom = Rectangle::new(0, 0, 200, 150);
    assert_eq!(resize_corner(5, 5, geom, 2, 22), 5);
    assert_eq!(resize_corner(190, 170, geom, 2, 22), 10);
    assert_eq!(resize_corner(100, 100, geom, 2, 22), 0);
    assert_eq!(keyboard_resize_grab(geom).corner, 10);
}

#[test]
fn move_stays_in_workarea() {
    let geom = Rectangle::new(0, 0, 300, 200);
    let area = Rectangle::new(0, 0, 1920, 1050);
    assert_eq!(move_position(500, 400, 20, 10, false, geom, area), (480, 390));
    assert_eq!(move_position(1900, 1000, 20, 10, false, geom, area), (1620, 850));
    assert_eq!(move_position(-50, -50, 0, 0, false, geom, area), (0, 0));
    assert_eq!(move_position(1900, 1000, 20, 10, true, geom, area), (1880, 990));
    match move_grab(7, 120, 130, Rectangle::new(100, 100, 50, 50)) {
        DragState::Moving { window_id, off_x, off_y } => assert_eq!((window_id, off_x, off_y), (7, 20, 30)),
        _ => panic!("not a move"),
    }
}

#[test]
fn configure_request_fields() {
    let c = configure_changes(4 | 8 | 64, 1, 2, 300, 200, 1);
    assert_eq!(c.x, None);
    assert_eq!(c.y, None);
    assert_eq!(c.width, Some(300));
    assert_eq!(c.height, Some(200));
    assert_eq!(c.border_width, None);
    assert!(c.stack_mode);
    assert!(c.resize_frame);
    let m = configure_changes(1 | 2 | 16, -5, 7, 0, 0, 3);
    assert_eq!((m.x, m.y, m.border_width), (Some(-5), Some(7), Some(3)));
    assert!(!m.resize_frame);
}

#[test]
fn dock_apps_are_recognised() {
    assert!(is_dock_app(5, 9, Some(&[3, 9]), None, None));
    assert!(is_dock_app(5, 9, Some(&[3]), Some(true), Some((64, 64))));
    assert!(!is_dock_app(5, 9, Some(&[3]), Some(true), Some((200, 64))));
    assert!(!is_dock_app(0, 9, Some(&[9]), Some(false), None));
}

#[test]
fn key_bindings_move_focus_and_workspaces() {
    let ids = [1u32, 2, 3];
    assert_eq!(key_action_outcome(&KeyAction::NextWindow, Some(2), &ids, 0, 4, 1920, 1080), KeyOutcome::FocusWindow(3));
    assert_eq!(key_action_outcome(&KeyAction::NextWindow, Some(3), &ids, 0, 4, 1920, 1080), KeyOutcome::FocusWindow(1));
    assert_eq!(key_action_outcome(&KeyAction::PrevWindow, Some(1), &ids, 0, 4, 1920, 1080), KeyOutcome::FocusWindow(3));
    assert_eq!(key_action_outcome(&KeyAction::NextWindow, None, &ids, 0, 4, 1920, 1080), KeyOutcome::Nothing);
    assert_eq!(key_action_outcome(&KeyAction::GoToWorkspace(2), None, &ids, 0, 4, 1920, 1080), KeyOutcome::SetWorkspace(1));
    assert_eq!(key_action_outcome(&KeyAction::GoToWorkspace(0), None, &ids, 0, 4, 1920, 1080), KeyOutcome::SetWorkspace(0));
    assert_eq!(key_action_outcome(&KeyAction::GoToWorkspace(9), None, &ids, 0, 4, 1920, 1080), KeyOutcome::Nothing);
    assert_eq!(key_action_outcome(&KeyAction::GoToNextWorkspace, None, &ids, 3, 4, 1920, 1080), KeyOutcome::SetWorkspace(0));
    assert_eq!(key_action_outcome(&KeyAction::GoToPrevWorkspace, None, &ids, 0, 4, 1920, 1080), KeyOutcome::SetWorkspace(3));
    assert_eq!(key_action_outcome(&KeyAction::ShowMenu, None, &ids, 0, 4, 1920, 1080), KeyOutcome::ShowMenu(960, 540));
    assert_eq!(key_action_outcome(&KeyAction::Exec("xterm".to_string()), None, &ids, 0, 4, 1920, 1080), KeyOutcome::RunCommand);
    assert_eq!(key_action_outcome(&KeyAction::Close, Some(2), &ids, 0, 4, 1920, 1080), KeyOutcome::CloseWindow(2));
}

#[test]
fn taskbar_clicks_toggle_windows() {
    let order = [7u32, 8];
    let wins = [(7u32, true), (8u32, false)];
    assert_eq!(taskbar_click(&order, &wins, Some(8), 1), (TaskbarToggle::Iconify(8), Some(8)));
    assert_eq!(taskbar_click(&order, &wins, Some(8), 0), (TaskbarToggle::Deiconify(7), Some(7)));
    assert_eq!(taskbar_click(&order, &wins, None, 1), (TaskbarToggle::Nothing, Some(8)));
    assert_eq!(taskbar_click(&order, &wins, None, 5), (TaskbarToggle::Nothing, None));
}

#[test]
fn maximize_button_choices() {
    let area = Rectangle::new(0, 0, 1920, 1050);
    assert_eq!(maximize_button(false, false, Rectangle::new(0, 0, 1920, 1050), &area), MaximizeChoice::Restore);
    assert_eq!(maximize_button(false, false, Rectangle::new(100, 100, 300, 200), &area), MaximizeChoice::Maximize);
    assert_eq!(maximize_button(false, true, Rectangle::new(100, 100, 300, 200), &area), MaximizeChoice::Restore);
    assert_eq!(maximize_button(true, false, Rectangle::new(100, 100, 300, 200), &area), MaximizeChoice::LeaveFullscreen);
    assert!(covers_workarea(Rectangle::new(2, 3, 1916, 1046), &area));
    assert!(!covers_workarea(Rectangle::new(10, 3, 1916, 1046), &area));
}

fn snapshot() -> ScreenSnapshot {
    ScreenSnapshot {
        root: 1,
        dialog: None,
        menu_visible: false,
        frame_ids: vec![11],
        hidden: vec![],
        windows: vec![ManagedWindow {
            id: 10,
            frame: 11,
            title: 12,
            handle: 13,
            iconic: false,
            buttons: layout_buttons(300, false),
        }],
        toolbar_window: 50,
        drag_active: false,
        tray_opcode_atom: 77,
        wm_name_atom: 39,
        net_wm_name_atom: 300,
        normal_hints_atom: 40,
    }
}

fn press(event: u32, detail: u8, state: u16, x: i16, y: i16) -> ScreenEvent {
    ScreenEvent::ButtonPress { event, detail, state, event_x: x, event_y: y }
}

#[test]
fn events_are_routed() {
    let s = snapshot();
    let tray = FbTray::new(60, 61, 0, 0, 1, 1920, 1080);
    let slit = FbSlit::new(70, 0, 0, 1920, 1080, SlitPlacement::Right);
    let keys = vec![KeyBinding { modmask: 8, keycode: 23, action: KeyAction::NextWindow }];
    let plan = |ev| plan_event(&s, &tray, &slit, &keys, ev);
    assert_eq!(plan(ScreenEvent::MapRequest { window: 20, parent: 1 }).action, EventAction::AdoptWindow(20));
    assert_eq!(plan(ScreenEvent::MapRequest { window: 11, parent: 1 }).action, EventAction::Nothing);
    assert_eq!(plan(ScreenEvent::MapRequest { window: 20, parent: 5 }).action, EventAction::Nothing);
    let root = plan(press(1, 3, 0, 0, 0));
    assert_eq!(root.action, EventAction::ShowRootMenu);
    assert!(root.replay);
    let title = plan(press(12, 1, 0, 5, 5));
    assert_eq!(title.action, EventAction::FocusAndMove(10));
    assert!(!title.replay);
    assert_eq!(plan(press(12, 1, 0, 280, 10)).action, EventAction::CloseWindow(10));
    assert_eq!(plan(press(12, 1, 0, 260, 10)).action, EventAction::MaximizeButton(10));
    assert_eq!(plan(press(13, 1, 0, 0, 0)).action, EventAction::ResizeFromHandle(10));
    assert_eq!(plan(press(10, 3, 8, 0, 0)).action, EventAction::ResizeFromClient(10));
    let client = plan(press(10, 1, 0, 0, 0));
    assert_eq!(client.action, EventAction::Focus(10));
    assert!(client.replay);
    assert_eq!(plan(press(60, 1, 0, 0, 0)).action, EventAction::TrayClick);
    assert_eq!(plan(press(50, 1, 0, 0, 0)).action, EventAction::ToolbarClick);
    assert_eq!(plan(press(999, 1, 0, 0, 0)).action, EventAction::Nothing);
    assert_eq!(plan(ScreenEvent::UnmapNotify { window: 10 }).action, EventAction::Unmanage(10, true));
    let gone = plan(ScreenEvent::DestroyNotify { window: 10 });
    assert_eq!(gone.action, EventAction::Unmanage(10, false));
    assert!(gone.forget_hidden);
    assert_eq!(plan(ScreenEvent::DestroyNotify { window: 99 }).action, EventAction::Nothing);
    assert_eq!(plan(ScreenEvent::Expose { window: 12 }).action, EventAction::RedrawTitle(10));
    assert_eq!(plan(ScreenEvent::Expose { window: 50 }).action, EventAction::ExposeToolbar);
    assert_eq!(plan(ScreenEvent::Expose { window: 61 }).action, EventAction::ExposeTrayPopup);
    assert_eq!(plan(ScreenEvent::Expose { window: 70 }).action, EventAction::ExposeSlit);
    assert_eq!(plan(ScreenEvent::KeyPress { state: 8 | 2, detail: 23 }).action, EventAction::KeyBinding(0));
    assert_eq!(plan(ScreenEvent::KeyPress { state: 4, detail: 23 }).action, EventAction::Nothing);
    assert_eq!(plan(ScreenEvent::ClientMessage { message_type: 77 }).action, EventAction::TrayOpcode);
    assert_eq!(plan(ScreenEvent::PropertyNotify { window: 10, atom: 300 }).action, EventAction::UpdateName(10));
    assert_eq!(plan(ScreenEvent::PropertyNotify { window: 10, atom: 40 }).action, EventAction::UpdateHints(10));
    assert_eq!(plan(ScreenEvent::CreateNotify { window: 80, parent: 1, override_redirect: true }).action, EventAction::AdoptDockApp(80));
    assert_eq!(plan(ScreenEvent::ScreenChange).action, EventAction::Reconfigure);
    assert_eq!(plan(ScreenEvent::MappingNotify { keyboard: false }).action, EventAction::Nothing);
    assert_eq!(plan(ScreenEvent::MotionNotify).action, EventAction::Nothing);
}

#[test]
fn dialog_takes_keys_and_inside_clicks() {
    let mut s = snapshot();
    s.dialog = Some((10, 11));
    s.menu_visible = true;
    let tray = FbTray::new(60, 61, 0, 0, 1, 1920, 1080);
    let slit = FbSlit::new(70, 0, 0, 1920, 1080, SlitPlacement::Right);
    let keys: Vec<KeyBinding> = vec![];
    let outside = plan_event(&s, &tray, &slit, &keys, press(999, 1, 0, 0, 0));
    assert_eq!(outside.action, EventAction::Nothing);
    assert!(outside.replay && !outside.focus_dialog);
    let inside = plan_event(&s, &tray, &slit, &keys, press(12, 1, 0, 5, 5));
    assert!(inside.focus_dialog && inside.route_menu);
    assert_eq!(inside.action, EventAction::FocusAndMove(10));
    assert_eq!(plan_event(&s, &tray, &slit, &keys, ScreenEvent::KeyPress { state: 0, detail: 9 }).action, EventAction::DialogKey);
    assert_eq!(plan_event(&s, &tray, &slit, &keys, ScreenEvent::Expose { window: 10 }).action, EventAction::RenderDialog);
    assert_eq!(plan_event(&s, &tray, &slit, &keys, ScreenEvent::UnmapNotify { window: 10 }).action, EventAction::Nothing);
}

#[test]
fn primary_monitor_and_workarea() {
    let ms = [Rectangle::new(1920, 0, 1280, 1024), Rectangle::new(0, 0, 1920, 1080)];
    assert_eq!(primary_monitor(&ms, 3200, 1080), Rectangle::new(0, 0, 1920, 1080));
    let side = [Rectangle::new(100, 0, 800, 600), Rectangle::new(900, 0, 1024, 768), Rectangle::new(1924, 0, 1024, 768)];
    assert_eq!(primary_monitor(&side, 3000, 800), Rectangle::new(1924, 0, 1024, 768));
    assert_eq!(primary_monitor(&[], 800, 600), Rectangle::new(0, 0, 800, 600));
    let s = screen_struts(Strut::new(0, 0, 0, 26), Strut::new(0, 64, 0, 10));
    assert_eq!(s, Strut::new(0, 64, 0, 26));
    assert_eq!(workarea_of(Rectangle::new(0, 0, 1920, 1080), s), Rectangle::new(0, 0, 1856, 1054));
    assert_eq!(workarea_of(Rectangle::new(0, 0, 50, 50), Strut::new(40, 40, 0, 0)).width, 1);
}

#[test]
fn workspace_switch_and_saved_names() {
    assert_eq!(workspace_switch(2, 1, &[(10, 0), (11, 1)]), Some(vec![(10, false), (11, true)]));
    assert_eq!(workspace_switch(2, 2, &[(10, 0)]), None);
    let mut ws = vec![Workspace::new(0, "one"), Workspace::new(1, "two"), Workspace::new(12, "x")];
    assert_eq!(workspace_names_text(&ws), "0:one\n1:two\n12:x");
    load_workspace_names(&mut ws, "1:Web\nbad line\n7:none\nx:y\n0:Mail:box\n1:Chat");
    assert_eq!(ws[0].name(), "Mail:box");
    assert_eq!(ws[1].name(), "Chat");
    assert_eq!(ws[2].name(), "x");
}

#[test]
fn popup_menu_geometry() {
    assert_eq!(item_width(&[40, 200], 50, false), 216);
    assert_eq!(item_width(&[40, 200], 50, true), 228);
    assert_eq!(item_width(&[10], 10, false), 120);
    assert!(!needs_columns(10, 1080));
    assert!(needs_columns(60, 1080));
    let g = layout(5, 120, 2);
    assert_eq!((g.width, g.height, g.rows_per_col), (242, 82, 3));
    assert_eq!(g.item_rects[3], Rectangle::new(122, 22, 120, 20));
    assert_eq!(g.item_rects[2], Rectangle::new(0, 62, 120, 20));
    assert_eq!(hit_test(&g.item_rects, 130, 30), Some(3));
    assert_eq!(hit_test(&g.item_rects, 130, 10), None);
    assert_eq!(hit_test(&g.item_rects, 121, 30), None);
    assert_eq!(place(1900, 1000, 242, 82, 1920, 1080), (1678, 998));
    assert_eq!(place(-5, -5, 242, 82, 1920, 1080), (0, 0));
}

#[test]
fn dialog_typing_and_submit() {
    let syms = [0x61u32, 0x41, 0xff0d, 0, 0xff08, 0];
    assert_eq!(dialog_keysym(8, 0, 8, 2, &syms), 0x61);
    assert_eq!(dialog_keysym(8, 1, 8, 2, &syms), 0x41);
    assert_eq!(dialog_keysym(9, 0, 8, 2, &syms), 0xff0d);
    assert_eq!(dialog_keysym(12, 0, 8, 2, &syms), 0);
    assert_eq!(dialog_keysym(3, 1, 8, 2, &syms), 0x41);
    let mut t = String::from("ls");
    assert_eq!(dialog_key(&mut t, DialogAction::RunCommand, 0x20), DialogEffect::Redraw);
    assert_eq!(dialog_key(&mut t, DialogAction::RunCommand, 0x2d), DialogEffect::Redraw);
    assert_eq!(t, "ls -");
    assert_eq!(dialog_key(&mut t, DialogAction::RunCommand, 0xff08), DialogEffect::Redraw);
    assert_eq!(t, "ls ");
    assert_eq!(dialog_key(&mut t, DialogAction::RunCommand, 0xffe1), DialogEffect::Nothing);
    assert_eq!(dialog_key(&mut t, DialogAction::RunCommand, 0xff1b), DialogEffect::Close);
    assert_eq!(t, "ls ");
    assert_eq!(dialog_key(&mut t, DialogAction::RunCommand, 0xff0d), DialogEffect::Run("ls ".to_string()));
    assert_eq!(t, "");
    assert_eq!(dialog_key(&mut t, DialogAction::RunCommand, 0x7f), DialogEffect::Redraw);
    assert_eq!(dialog_key(&mut t, DialogAction::RenameWorkspace(2), 0xff8d), DialogEffect::Close);
    let mut n = String::from("Web");
    assert_eq!(dialog_key(&mut n, DialogAction::RenameWorkspace(2), 0xff8d), DialogEffect::Rename(2, "Web".to_string()));
}

#[test]
fn focus_and_close_protocols() {
    let listed = [300u32, 301, 302];
    assert!(supports_protocol(Some(&listed), 301));
    assert!(!supports_protocol(Some(&listed), 303));
    assert!(!supports_protocol(None, 301));
    assert!(!supports_protocol(Some(&[0, 5]), 0));
    assert_eq!(client_focus_plan(Some(&listed), 302, None), (true, true));
    assert_eq!(client_focus_plan(Some(&listed), 309, Some(false)), (false, false));
    assert_eq!(client_focus_plan(None, 302, Some(true)), (false, true));
}

#[test]
fn menu_entries_and_new_workspaces() {
    assert_eq!(menu_command(&MenuItemType::Exec("xterm -e top".to_string())), MenuCommand::Run("xterm -e top".to_string()));
    assert_eq!(menu_command(&MenuItemType::Exit), MenuCommand::Exit);
    assert_eq!(menu_command(&MenuItemType::Restart), MenuCommand::Close);
    assert_eq!(menu_command(&MenuItemType::Reconfig), MenuCommand::Close);
    assert_eq!(menu_command(&MenuItemType::Workspace(3)), MenuCommand::SwitchWorkspace(3));
    assert_eq!(menu_command(&MenuItemType::WorkspaceCreate), MenuCommand::CreateWorkspace);
    assert_eq!(menu_command(&MenuItemType::WorkspaceRename(1)), MenuCommand::RenameWorkspace(1));
    assert_eq!(menu_command(&MenuItemType::RunDialog), MenuCommand::RunDialog);
    assert_eq!(menu_command(&MenuItemType::Submenu(4, "Apps".to_string())), MenuCommand::Nothing);
    assert_eq!(menu_command(&MenuItemType::Separator), MenuCommand::Nothing);
    let mut ws = vec![Workspace::new(0, "a"), Workspace::new(1, "b")];
    assert_eq!(add_workspace(&mut ws), 2);
    assert_eq!(ws.len(), 3);
    assert_eq!(ws[2].id(), 2);
    assert_eq!(ws[2].name(), "3");
    assert_eq!(ws[0].name(), "a");
}
