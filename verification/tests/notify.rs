use rustbox::notify::pattern::Pattern;
use rustbox::notify::queue::{Admission, NotifyQueue};
use rustbox::notify::{
    apply_rules, config_would_panic, load_config, notify, parse_bool, parse_color, parse_corner,
    parse_urgency, pair_actions, CloseReason, Config, Corner, RawNotification, Rule, Theme, Urgency,
};

fn sample_notif(app: &str, summary: &str, body: &str, urgency: Urgency) -> RawNotification {
    let mut n = notify(app, summary).body(body).urgency(urgency).build();
    n.id = 0;
    n
}

#[test]
fn config_parsing_global_and_rules() {
    let content = "\
[global]
width=320
margin=20
origin=top-left

[firefox]
skip_display=true

[crit]
urgency=critical
set_urgency=critical
timeout=12000
";
    let cfg = load_config(Some(content));

    assert_eq!(cfg.width, 320);
    assert_eq!(cfg.margin, 20);
    assert_eq!(cfg.origin, Corner::TopLeft);
    assert_eq!(cfg.rules.len(), 2);

    // First rule is the [firefox] section (top-down order).
    assert_eq!(cfg.rules[0].appname_re.as_ref().unwrap().as_str(), "firefox");
    assert!(cfg.rules[0].skip_display);

    // Second rule is [crit].
    assert!(cfg.rules[1].urgency == Some(Urgency::Critical));
    assert!(cfg.rules[1].set_urgency == Some(Urgency::Critical));
    assert_eq!(cfg.rules[1].expire_timeout, Some(12000));
}

#[test]
fn rules_skip_and_override() {
    let mut r1 = Rule::default();
    r1.appname_re = Pattern::new("firefox");
    r1.skip_display = true;
    let mut r2 = Rule::default();
    r2.summary_re = Pattern::new("alert");
    r2.set_urgency = Some(Urgency::Critical);
    r2.expire_timeout = Some(9000);
    let rules = vec![r1, r2];

    // Matching app -> skipped.
    let mut n1 = sample_notif("firefox", "hi", "body", Urgency::Normal);
    assert!(apply_rules(&mut n1, &rules));

    // Non-matching -> not skipped, unchanged.
    let mut n2 = sample_notif("notify-send", "hi", "body", Urgency::Normal);
    assert!(!apply_rules(&mut n2, &rules));
    assert_eq!(n2.urgency, Urgency::Normal);
    assert_eq!(n2.expire_timeout, -1);

    // Summary match -> override urgency + timeout, not skipped.
    let mut n3 = sample_notif("notify-send", "alert now", "body", Urgency::Low);
    assert!(!apply_rules(&mut n3, &rules));
    assert_eq!(n3.urgency, Urgency::Critical);
    assert_eq!(n3.expire_timeout, 9000);
}

#[test]
fn missing_config_yields_defaults() {
    let cfg = load_config(None);
    assert_eq!(cfg.width, 380);
    assert_eq!(cfg.max_visible, 5);
    assert!(cfg.rules.is_empty());
}

#[test]
fn config_parsing_colors() {
    let content = "\
[global]
background=#101010
foreground=#f0f0f0
frame_color=#333333
body_color=#cccccc

[urgency_critical]
background=#ff0000
";
    let cfg = load_config(Some(content));

    assert_eq!(cfg.bg, (16, 16, 16));
    assert_eq!(cfg.fg, (240, 240, 240));
    assert_eq!(cfg.frame, (51, 51, 51));
    assert_eq!(cfg.body, (204, 204, 204));
    assert_eq!(cfg.urgency_colors[2], (255, 0, 0));

    let t = cfg.theme();
    assert_eq!(t.bg, (16, 16, 16));
    assert_eq!(t.urgency[2], (255, 0, 0));
}

#[test]
fn config_defaults_and_theme_defaults_agree() {
    let c = Config::default();
    let t = Theme::default();
    assert_eq!(c.bg, t.bg);
    assert_eq!(c.urgency_colors, t.urgency);
    assert_eq!(c.default_timeout_ms, 5000);
    assert_eq!(c.origin, Corner::TopRight);
}

#[test]
fn config_keys_in_every_form() {
    let content = "\
# comment
; another
[global]
  gap = -3
max_visible=\"7\"
timeout=+250
monitor=2
font=Mono 13
corner=Bottom_Left
unknown=1
[urgency_low]
background=00ff00
color=#010203
[shortcuts]
skip_display=true
[@slack]
body=ping
transient=yes
history_ignore=on
icon=\"bell\"
";
    let cfg = load_config(Some(content));
    assert_eq!(cfg.gap, -3);
    assert_eq!(cfg.max_visible, 7);
    assert_eq!(cfg.default_timeout_ms, 250);
    assert_eq!(cfg.monitor, 2);
    assert_eq!(cfg.font_scale, 2);
    assert_eq!(cfg.origin, Corner::BottomLeft);
    assert_eq!(cfg.urgency_colors[0], (0, 255, 0));
    assert_eq!(cfg.body, (1, 2, 3));
    assert_eq!(cfg.rules.len(), 1);
    let r = &cfg.rules[0];
    assert_eq!(r.appname_re.as_ref().unwrap().as_str(), "slack");
    assert_eq!(r.body_re.as_ref().unwrap().as_str(), "ping");
    assert_eq!(r.set_transient, Some(true));
    assert!(r.history_ignore);
    assert_eq!(r.new_icon.as_deref(), Some("bell"));
    assert!(!config_would_panic(content));
}

#[test]
fn config_bad_values_are_ignored() {
    let cfg = load_config(Some("[global]\nwidth=wide\nfont_scale=0\nfont=Mono\n[x]\nappname=(\n"));
    assert_eq!(cfg.width, 380);
    assert_eq!(cfg.font_scale, 1);
    assert!(cfg.rules[0].appname_re.is_none());
}

#[test]
fn color_values_that_cannot_be_cut_are_detected() {
    // "é" takes two bytes: "aéabc" is six bytes with a character across
    // byte 2.
    assert!(config_would_panic("[global]\nbackground=a\u{e9}abc\n"));
    assert!(!config_would_panic("[global]\nbackground=\u{e9}\u{e9}\u{e9}\n"));
    assert_eq!(parse_color("\u{e9}\u{e9}\u{e9}"), None);
    assert_eq!(parse_color("  #0a0B0c "), Some((10, 11, 12)));
    assert_eq!(parse_color("#12345"), None);
}

#[test]
fn keyword_values() {
    assert_eq!(parse_corner("TOP-LEFT"), Corner::TopLeft);
    assert_eq!(parse_corner("bottomright"), Corner::BottomRight);
    assert_eq!(parse_corner("middle"), Corner::TopRight);
    assert_eq!(parse_urgency("Low"), Some(Urgency::Low));
    assert_eq!(parse_urgency("urgent"), None);
    assert!(parse_bool("YES"));
    assert!(parse_bool("1"));
    assert!(!parse_bool("no"));
}

#[test]
fn patterns_compile_and_match() {
    assert!(Pattern::new("foo(").is_none());
    let mut r = Rule::default();
    r.appname_re = Pattern::new("^fire");
    let rules = vec![r];
    let mut a = sample_notif("campfire", "s", "b", Urgency::Normal);
    let mut b = sample_notif("firefox", "s", "b", Urgency::Normal);
    let mut rr = Rule::default();
    rr.appname_re = Pattern::new("^fire");
    rr.skip_display = true;
    let rules2 = vec![rr];
    assert!(!apply_rules(&mut a, &rules2));
    assert!(apply_rules(&mut b, &rules2));
    assert!(!apply_rules(&mut a, &rules));
}

#[test]
fn later_rule_overrides_earlier() {
    let mut r1 = Rule::default();
    r1.expire_timeout = Some(100);
    r1.set_urgency = Some(Urgency::Low);
    let mut r2 = Rule::default();
    r2.expire_timeout = Some(200);
    r2.urgency = Some(Urgency::Low);
    let mut n = sample_notif("a", "b", "c", Urgency::Normal);
    assert!(!apply_rules(&mut n, &[r1, r2]));
    assert_eq!(n.expire_timeout, 200);
    assert_eq!(n.urgency, Urgency::Low);
}

#[test]
fn urgency_and_reason_codes() {
    assert_eq!(Urgency::from_u32(0), Urgency::Low);
    assert_eq!(Urgency::from_u32(2), Urgency::Critical);
    assert_eq!(Urgency::from_u32(7), Urgency::Normal);
    assert_eq!(Urgency::Critical.code(), 2);
    assert_eq!(CloseReason::Expired.code(), 1);
    assert_eq!(CloseReason::Undefined.code(), 4);
    assert_eq!(Urgency::default(), Urgency::Normal);
}

#[test]
fn builder_sets_fields() {
    let n = notify("Rustbox", "Done")
        .body("no errors")
        .icon("rust")
        .urgency(Urgency::Critical)
        .timeout(4000)
        .progress(250)
        .stack_tag("t")
        .sync_key("k")
        .category("c")
        .desktop_entry("d")
        .transient(true)
        .history_ignore(true)
        .icon_data(vec![1, 2, 3, 4])
        .action("open", "Open")
        .action("close", "Close")
        .build();
    assert_eq!(n.id, 0);
    assert_eq!(n.app_name, "Rustbox");
    assert_eq!(n.summary, "Done");
    assert_eq!(n.body, "no errors");
    assert_eq!(n.app_icon, "rust");
    assert_eq!(n.urgency, Urgency::Critical);
    assert_eq!(n.expire_timeout, 4000);
    assert_eq!(n.progress, Some(100));
    assert_eq!(n.stack_tag.as_deref(), Some("t"));
    assert_eq!(n.sync_key.as_deref(), Some("k"));
    assert_eq!(n.category.as_deref(), Some("c"));
    assert_eq!(n.desktop_entry.as_deref(), Some("d"));
    assert!(n.transient);
    assert!(n.history_ignore);
    assert_eq!(n.icon_data, Some(vec![1, 2, 3, 4]));
    assert_eq!(n.actions.len(), 2);
    assert_eq!(n.actions[1].0, "close");
}

#[test]
fn actions_are_paired() {
    let a: Vec<String> = ["k1", "l1", "k2", "l2", "odd"].iter().map(|s| s.to_string()).collect();
    let p = pair_actions(&a);
    assert_eq!(p.len(), 2);
    assert_eq!(p[0], ("k1".to_string(), "l1".to_string()));
    assert_eq!(p[1], ("k2".to_string(), "l2".to_string()));
}

#[test]
fn queue_ids_skip_zero_and_follow_keys() {
    let mut q = NotifyQueue::new();
    let a = q.alloc_id(0, None);
    let b = q.alloc_id(0, Some("vol"));
    let c = q.alloc_id(0, Some("vol"));
    let d = q.alloc_id(42, None);
    assert_eq!(a, 1);
    assert_eq!(b, 2);
    assert_eq!(c, 2);
    assert_eq!(d, 42);
    let mut n = sample_notif("x", "y", "z", Urgency::Normal);
    q.assign_id(&mut n);
    assert_eq!(n.id, 3);
}

#[test]
fn queue_shows_waits_and_remembers() {
    let mut q = NotifyQueue::new();
    let mut n1 = sample_notif("a", "1", "", Urgency::Normal);
    n1.id = 1;
    let mut n2 = sample_notif("a", "2", "", Urgency::Normal);
    n2.id = 2;
    n2.icon_data = Some(vec![9]);
    match q.enqueue(n1, &[], 1) {
        Admission::Show(n) => q.push_displayed(n),
        _ => panic!("expected a free slot"),
    }
    assert!(matches!(q.enqueue(n2, &[], 1), Admission::Queued));
    assert_eq!(q.displayed_ids(), vec![1]);
    assert_eq!(q.close(1), Some(0));
    assert_eq!(q.history_count(), 1);
    let next = q.next_to_show(1).unwrap();
    assert_eq!(next.id, 2);
    q.push_displayed(next);
    assert_eq!(q.close(2), Some(0));
    let h = q.pop_history().unwrap();
    assert_eq!(h.id, 2);
    assert_eq!(h.icon_data, None);
    assert_eq!(q.close(77), None);
}

#[test]
fn queue_history_is_bounded() {
    let mut q = NotifyQueue::new();
    let mut r = Rule::default();
    r.skip_display = true;
    let rules = vec![r];
    for i in 0..60u32 {
        let mut n = sample_notif("a", "b", "c", Urgency::Normal);
        n.id = i + 1;
        assert!(matches!(q.enqueue(n, &rules, 5), Admission::Skipped(id) if id == i + 1));
    }
    assert_eq!(q.history_count(), 50);
    assert_eq!(q.pop_history().unwrap().id, 60);
    q.clear_history();
    assert_eq!(q.history_count(), 0);
}

#[test]
fn queue_waiting_is_bounded_and_closes_remove_waiting() {
    let mut q = NotifyQueue::new();
    for i in 0..105u32 {
        let mut n = sample_notif("a", "b", "c", Urgency::Normal);
        n.id = i + 1;
        assert!(matches!(q.enqueue(n, &[], 0), Admission::Queued));
    }
    assert_eq!(q.close(6), None);
    let first = q.next_to_show(1).unwrap();
    assert_eq!(first.id, 7);
}

#[test]
fn queue_expiry() {
    let mut q = NotifyQueue::new();
    let mut a = sample_notif("a", "b", "c", Urgency::Normal);
    a.id = 1;
    let mut b = sample_notif("a", "b", "c", Urgency::Normal);
    b.id = 2;
    b.expire_timeout = 0;
    let mut c = sample_notif("a", "b", "c", Urgency::Normal);
    c.id = 3;
    c.expire_timeout = 100;
    q.push_displayed(a);
    q.push_displayed(b);
    q.push_displayed(c);
    assert_eq!(q.expired(5000, &[6000, 99999, 50]), vec![1]);
    assert_eq!(q.expired(5000, &[10, 99999, 100]), vec![3]);
    q.set_paused(true);
    assert!(q.paused());
    assert_eq!(q.expired(5000, &[6000, 99999, 500]), Vec::<u32>::new());
}
