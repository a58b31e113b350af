use rustbox::command::{BuiltCommand, Command, CommandError, CommandFactory, CommandRegistry};
use rustbox::menu::{Menu, MenuItem, MenuItemType, MenuSystem};
use rustbox::remote::{parse_cli_args, parse_remote_command, CliAction, CliOptions, RemoteCommand};

fn args(v: &[&str]) -> Vec<String> {
    v.iter().map(|s| s.to_string()).collect()
}

#[test]
fn registry_builds_builtins() {
    let r = CommandRegistry::new();
    match r.create("exec", &args(&["xterm", "-e", "top"])) {
        Ok(BuiltCommand::Exec(e)) => assert_eq!(e.command, "xterm -e top"),
        _ => panic!("exec not built"),
    }
    assert_eq!(r.create("quit", &[]).unwrap().name(), "quit");
    assert_eq!(r.create("reloadtheme", &[]).unwrap().name(), "reconfigure");
    assert_eq!(r.create("restart", &[]).unwrap().name(), "restart");
    assert_eq!(r.create("exec", &[]).unwrap().name(), "exec");
    match r.create("bogus", &[]) {
        Err(e) => {
            assert_eq!(e.message(), "Unknown command: bogus");
            assert_eq!(e, CommandError::Unknown("bogus".to_string()));
        }
        _ => panic!("unknown command built"),
    }
}

#[test]
fn registry_replaces_factories() {
    let mut r = CommandRegistry::default();
    r.register("quit", CommandFactory::Restart);
    r.register("go", CommandFactory::Exec);
    assert_eq!(r.create("quit", &[]).unwrap().name(), "restart");
    match r.create("go", &args(&["a"])) {
        Ok(BuiltCommand::Exec(e)) => assert_eq!(e.command, "a"),
        _ => panic!("go not built"),
    }
    let boxed = r.create("reconfigure", &[]).unwrap().into_boxed();
    assert_eq!(boxed.name(), "reconfigure");
}

#[test]
fn menus_hold_items() {
    let mut m = Menu::new(3, "Root");
    assert_eq!((m.id(), m.label(), m.is_visible(), m.position()), (3, "Root", false, (0, 0)));
    let mut item = MenuItem::new("Run");
    assert!(item.is_enabled());
    assert!(matches!(item.item_type(), MenuItemType::Normal(_)));
    item.set_submenu(9);
    assert!(matches!(item.item_type(), MenuItemType::Submenu(9)));
    item.set_enabled(false);
    assert!(!item.is_enabled());
    let r = CommandRegistry::new();
    item.set_command(r.create("quit", &[]).unwrap().into_boxed());
    match item.item_type() {
        MenuItemType::Normal(c) => assert_eq!(c.name(), "quit"),
        _ => panic!("no command"),
    }
    m.add_item(item);
    m.add_item(MenuItem::separator());
    m.set_position(10, 20);
    assert_eq!(m.items().len(), 2);
    assert_eq!(m.items()[0].label(), "Run");
    assert!(!m.items()[1].is_enabled());
    assert_eq!(m.position(), (10, 20));
    let _ = MenuSystem::new();
}

#[test]
fn remote_commands() {
    assert_eq!(parse_remote_command("restartwm"), RemoteCommand::Restart);
    assert_eq!(parse_remote_command("exit"), RemoteCommand::Quit);
    assert_eq!(parse_remote_command("reconfig"), RemoteCommand::Reconfigure);
    assert_eq!(parse_remote_command("setworkspace 3"), RemoteCommand::SetWorkspace(2));
    assert_eq!(parse_remote_command("setworkspace   0"), RemoteCommand::SetWorkspace(0));
    assert_eq!(parse_remote_command("setworkspace"), RemoteCommand::Ignored);
    assert_eq!(parse_remote_command("setworkspace x"), RemoteCommand::Ignored);
    assert_eq!(
        parse_remote_command("workspace rename 1 Web stuff"),
        RemoteCommand::RenameWorkspace(1, "Web stuff".to_string())
    );
    assert_eq!(parse_remote_command("workspace rename 2"), RemoteCommand::RenameWorkspace(2, String::new()));
    assert_eq!(parse_remote_command("workspace rename"), RemoteCommand::Ignored);
    assert_eq!(parse_remote_command("workspace rename x y"), RemoteCommand::Ignored);
    assert_eq!(parse_remote_command("foo"), RemoteCommand::Unknown);
}

#[test]
fn command_line() {
    assert_eq!(
        parse_cli_args(&args(&["rustbox", "-d", ":1", "-rc", "/cfg", "-socket", "/s"]), ":0"),
        CliAction::Run(CliOptions {
            display: ":1".to_string(),
            config_dir: "/cfg".to_string(),
            socket_path: Some("/s".to_string()),
        })
    );
    assert_eq!(parse_cli_args(&args(&["rustbox", "--version", "-d"]), ":0"), CliAction::Version);
    assert_eq!(parse_cli_args(&args(&["rustbox", "-x", "-help"]), ":0"), CliAction::Help);
    assert_eq!(parse_cli_args(&args(&["rustbox", "-info"]), ":0"), CliAction::Info);
    assert_eq!(
        parse_cli_args(&args(&["rustbox", "-d"]), ":0"),
        CliAction::Run(CliOptions { display: ":0".to_string(), config_dir: String::new(), socket_path: None })
    );
}
