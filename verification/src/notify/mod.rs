//! Notification daemon logic: notifications, matching rules, the
//! dunst-style configuration and the queue of shown, waiting and past
//! notifications.

pub mod builder;
pub mod config;
pub mod daemon;
pub mod pattern;
pub mod queue;
pub mod render;
pub mod rules;

use vstd::prelude::*;
use std::time::Instant;
use self::pattern::Pattern;




pub use self::builder::{notify, NotificationBuilder};
pub use self::config::{config_would_panic, load_config, parse_bool, parse_color, parse_corner, parse_urgency};
pub use self::queue::{Admission, NotifyQueue};
pub use self::rules::apply_rules;

verus! {

#[verifier::external_type_specification]
#[verifier::external_body]
pub struct ExInstant(Instant);

/// `Clone` of `std::time::Instant`, a `Copy` type: the same instant.
pub assume_specification[ <Instant as Clone>::clone ](i: &Instant) -> (r: Instant)
    ensures
        r == *i,
;

/// The current time (`Instant::now`); nothing is known of its value.
#[verifier::external_body]
pub(crate) fn now() -> Instant {
    Instant::now()
}

/// Where on the screen notifications stack from.
#[derive(Debug, Clone, Copy, PartialEq, Eq, Structural)]
pub enum Corner {
    TopRight,
    TopLeft,
    BottomRight,
    BottomLeft,
}

#[derive(Debug, Clone, Copy, PartialEq, Eq, Structural)]
pub enum Urgency {
    Low,
    Normal,
    Critical,
}

impl Default for Urgency {
    fn default() -> (r: Urgency)
        ensures
            r == Urgency::Normal,
    {
        Urgency::Normal
    }
}

impl Urgency {
    /// The urgency of the `urgency` hint byte: 0 low, 2 critical, else normal.
    pub fn from_u32(v: u32) -> (r: Urgency)
        ensures
            r == (if v == 0 {
                Urgency::Low
            } else if v == 2 {
                Urgency::Critical
            } else {
                Urgency::Normal
            }),
    {
        match v {
            0 => Urgency::Low,
            2 => Urgency::Critical,
            _ => Urgency::Normal,
        }
    }

    /// The urgency's number on the bus: 0 low, 1 normal, 2 critical.
    pub fn code(&self) -> (r: u32)
        ensures
            r == urgency_code(*self),
    {
        match self {
            Urgency::Low => 0,
            Urgency::Normal => 1,
            Urgency::Critical => 2,
        }
    }
}

/// A notification, already assigned an id (0 while it has none).
#[derive(Debug, Clone)]
pub struct RawNotification {
    pub id: u32,
    pub app_name: String,
    pub app_icon: String,
    pub summary: String,
    pub body: String,
    /// (action_key, label) pairs from the `actions` array.
    pub actions: Vec<(String, String)>,
    pub urgency: Urgency,
    /// `true` => do not keep in history when closed.
    pub transient: bool,
    /// -1 => use configured default; 0 => sticky; >0 => milliseconds.
    pub expire_timeout: i32,
    pub created: Instant,
    /// Raw icon bytes (RGBA8), taking precedence over `app_icon`.
    pub icon_data: Option<Vec<u8>>,
    /// Key under which a later notification replaces this one.
    pub sync_key: Option<String>,
    /// Stack tag: groups notifications with the same tag.
    pub stack_tag: Option<String>,
    /// `category` hint (used by rules).
    pub category: Option<String>,
    /// `desktop-entry` hint (used by rules and icon lookup).
    pub desktop_entry: Option<String>,
    /// Progress bar value (0..=100); `None` => no bar.
    pub progress: Option<u8>,
    /// If true, drop the notification from history when closed.
    pub history_ignore: bool,
}

pub open spec fn opt_str(o: Option<String>) -> Option<Seq<char>> {
    match o {
        Some(s) => Some(s@),
        None => None,
    }
}

/// Commands delivered to the daemon through the in-process channel.
#[derive(Debug)]
pub enum NotifyCommand {
    /// Show a notification built in Rust.
    Notify(RawNotification),
    /// Close a notification by its id.
    Close(u32),
    /// Close every currently displayed notification.
    CloseAll,
}

/// Reason codes reported when a notification closes.
#[derive(Debug, Clone, Copy, PartialEq, Eq, Structural)]
pub enum CloseReason {
    Expired,
    User,
    ClosedByCaller,
    Undefined,
}

/// The number of an urgency on the bus: 0 low, 1 normal, 2 critical.
pub open spec fn urgency_code(u: Urgency) -> u32 {
    match u {
        Urgency::Low => 0u32,
        Urgency::Normal => 1u32,
        Urgency::Critical => 2u32,
    }
}

impl CloseReason {
    /// The reason's number on the bus: 1 expired, 2 dismissed by the user,
    /// 3 closed by a call, 4 undefined.
    pub fn code(&self) -> (r: u32)
        ensures
            r == (match *self {
                CloseReason::Expired => 1u32,
                CloseReason::User => 2u32,
                CloseReason::ClosedByCaller => 3u32,
                CloseReason::Undefined => 4u32,
            }),
    {
        match self {
            CloseReason::Expired => 1,
            CloseReason::User => 2,
            CloseReason::ClosedByCaller => 3,
            CloseReason::Undefined => 4,
        }
    }
}

pub type Rgb = (u8, u8, u8);

/// Resolved color theme for a popup.
#[derive(Debug, Clone, Copy)]
pub struct Theme {
    pub bg: Rgb,
    pub fg: Rgb,
    pub frame: Rgb,
    pub body: Rgb,
    /// Urgency bar color for [low, normal, critical].
    pub urgency: [Rgb; 3],
}

impl Default for Theme {
    fn default() -> (t: Theme)
        ensures
            t.bg == (0u8, 0u8, 0u8),
            t.fg == (235u8, 235u8, 235u8),
            t.frame == (60u8, 60u8, 60u8),
            t.body == (200u8, 200u8, 200u8),
            t.urgency@ == seq![(51u8, 102u8, 255u8), (51u8, 170u8, 51u8), (255u8, 51u8, 51u8)],
    {
        let t = Theme {
            bg: (0, 0, 0),
            fg: (235, 235, 235),
            frame: (60, 60, 60),
            body: (200, 200, 200),
            urgency: [(51, 102, 255), (51, 170, 51), (255, 51, 51)],
        };
        assert(t.urgency@ =~= seq![(51u8, 102u8, 255u8), (51u8, 170u8, 51u8), (255u8, 51u8, 51u8)]);
        t
    }
}

/// A matching rule, applied in declaration order; later matching rules
/// override earlier ones. A `None` filter matches everything.
#[derive(Debug, Clone)]
pub struct Rule {
    pub appname_re: Option<Pattern>,
    pub summary_re: Option<Pattern>,
    pub body_re: Option<Pattern>,
    pub urgency: Option<Urgency>,
    pub expire_timeout: Option<i32>,
    pub set_urgency: Option<Urgency>,
    pub new_icon: Option<String>,
    pub skip_display: bool,
    /// `category` filter.
    pub category_re: Option<Pattern>,
    /// `stack_tag` filter.
    pub stack_tag_re: Option<Pattern>,
    /// `desktop_entry` filter.
    pub desktop_entry_re: Option<Pattern>,
    /// Override the notification's `transient` flag.
    pub set_transient: Option<bool>,
    /// Drop the notification from history when closed.
    pub history_ignore: bool,
}

/// A rule with each filter taken by its pattern text.
pub struct RuleView {
    pub appname: Option<Seq<char>>,
    pub summary: Option<Seq<char>>,
    pub body: Option<Seq<char>>,
    pub urgency: Option<Urgency>,
    pub expire_timeout: Option<i32>,
    pub set_urgency: Option<Urgency>,
    pub new_icon: Option<Seq<char>>,
    pub skip_display: bool,
    pub category: Option<Seq<char>>,
    pub stack_tag: Option<Seq<char>>,
    pub desktop_entry: Option<Seq<char>>,
    pub set_transient: Option<bool>,
    pub history_ignore: bool,
}

pub open spec fn opt_pat(o: Option<Pattern>) -> Option<Seq<char>> {
    match o {
        Some(p) => Some(p@),
        None => None,
    }
}

/// The rule that matches everything and changes nothing.
pub open spec fn empty_rule() -> RuleView {
    RuleView {
        appname: None,
        summary: None,
        body: None,
        urgency: None,
        expire_timeout: None,
        set_urgency: None,
        new_icon: None,
        skip_display: false,
        category: None,
        stack_tag: None,
        desktop_entry: None,
        set_transient: None,
        history_ignore: false,
    }
}

impl Rule {
    pub open spec fn view(&self) -> RuleView {
        RuleView {
            appname: opt_pat(self.appname_re),
            summary: opt_pat(self.summary_re),
            body: opt_pat(self.body_re),
            urgency: self.urgency,
            expire_timeout: self.expire_timeout,
            set_urgency: self.set_urgency,
            new_icon: opt_str(self.new_icon),
            skip_display: self.skip_display,
            category: opt_pat(self.category_re),
            stack_tag: opt_pat(self.stack_tag_re),
            desktop_entry: opt_pat(self.desktop_entry_re),
            set_transient: self.set_transient,
            history_ignore: self.history_ignore,
        }
    }
}

impl Default for Rule {
    fn default() -> (r: Rule)
        ensures
            r.view() == empty_rule(),
    {
        Rule {
            appname_re: None,
            summary_re: None,
            body_re: None,
            urgency: None,
            expire_timeout: None,
            set_urgency: None,
            new_icon: None,
            skip_display: false,
            category_re: None,
            stack_tag_re: None,
            desktop_entry_re: None,
            set_transient: None,
            history_ignore: false,
        }
    }
}

#[derive(Debug)]
pub struct Config {
    pub max_visible: usize,
    pub width: u16,
    pub margin: i16,
    pub gap: i16,
    pub default_timeout_ms: i32,
    pub origin: Corner,
    pub monitor: usize,
    pub font_scale: u16,
    /// Background / foreground / frame / body RGB colors.
    pub bg: Rgb,
    pub fg: Rgb,
    pub frame: Rgb,
    pub body: Rgb,
    /// Urgency bar color per [low, normal, critical].
    pub urgency_colors: [Rgb; 3],
    /// Matching rules, applied in order.
    pub rules: Vec<Rule>,
}

/// A configuration as plain values.
pub struct ConfigView {
    pub max_visible: usize,
    pub width: u16,
    pub margin: i16,
    pub gap: i16,
    pub default_timeout_ms: i32,
    pub origin: Corner,
    pub monitor: usize,
    pub font_scale: u16,
    pub bg: Rgb,
    pub fg: Rgb,
    pub frame: Rgb,
    pub body: Rgb,
    pub urgency_colors: Seq<Rgb>,
    pub rules: Seq<RuleView>,
}

/// The built-in configuration.
pub open spec fn default_config() -> ConfigView {
    ConfigView {
        max_visible: 5,
        width: 380,
        margin: 12,
        gap: 8,
        default_timeout_ms: 5000,
        origin: Corner::TopRight,
        monitor: 0,
        font_scale: 2,
        bg: (0u8, 0u8, 0u8),
        fg: (235u8, 235u8, 235u8),
        frame: (60u8, 60u8, 60u8),
        body: (200u8, 200u8, 200u8),
        urgency_colors: seq![(51u8, 102u8, 255u8), (51u8, 170u8, 51u8), (255u8, 51u8, 51u8)],
        rules: seq![],
    }
}

impl Config {
    pub open spec fn view(&self) -> ConfigView {
        ConfigView {
            max_visible: self.max_visible,
            width: self.width,
            margin: self.margin,
            gap: self.gap,
            default_timeout_ms: self.default_timeout_ms,
            origin: self.origin,
            monitor: self.monitor,
            font_scale: self.font_scale,
            bg: self.bg,
            fg: self.fg,
            frame: self.frame,
            body: self.body,
            urgency_colors: self.urgency_colors@,
            rules: self.rules@.map_values(|r: Rule| r.view()),
        }
    }

    /// The draw-time theme of the configured colors.
    pub fn theme(&self) -> (t: Theme)
        ensures
            t.bg == self.bg,
            t.fg == self.fg,
            t.frame == self.frame,
            t.body == self.body,
            t.urgency@ == self.urgency_colors@,
    {
        Theme {
            bg: self.bg,
            fg: self.fg,
            frame: self.frame,
            body: self.body,
            urgency: self.urgency_colors,
        }
    }
}

impl Clone for Config {
    fn clone(&self) -> (c: Config) {
        Config {
            max_visible: self.max_visible,
            width: self.width,
            margin: self.margin,
            gap: self.gap,
            default_timeout_ms: self.default_timeout_ms,
            origin: self.origin,
            monitor: self.monitor,
            font_scale: self.font_scale,
            bg: self.bg,
            fg: self.fg,
            frame: self.frame,
            body: self.body,
            urgency_colors: self.urgency_colors,
            rules: self.rules.clone(),
        }
    }
}

impl Default for Config {
    fn default() -> (c: Config)
        ensures
            c.view() == default_config(),
    {
        let t = Theme::default();
        let c = Config {
            max_visible: 5,
            width: 380,
            margin: 12,
            gap: 8,
            default_timeout_ms: 5000,
            origin: Corner::TopRight,
            monitor: 0,
            font_scale: 2,
            bg: t.bg,
            fg: t.fg,
            frame: t.frame,
            body: t.body,
            urgency_colors: t.urgency,
            rules: Vec::new(),
        };
        assert(c.view().rules =~= seq![]);
        c
    }
}

/// Pair the flat `actions` array ("key1", "label1", ...) into tuples; an odd
/// last element is dropped.
pub fn pair_actions(actions: &[String]) -> (r: Vec<(String, String)>)
    ensures
        r@.len() == actions@.len() / 2,
        forall|i: int|
            0 <= i < r@.len() ==> (#[trigger] r@[i]).0@ == actions@[2 * i]@ && r@[i].1@
                == actions@[2 * i + 1]@,
{
    let mut out: Vec<(String, String)> = Vec::new();
    let mut i: usize = 0;
    while i < actions.len() && actions.len() - i >= 2
        invariant
            i % 2 == 0,
            i <= actions@.len(),
            out@.len() == i / 2,
            forall|j: int|
                0 <= j < out@.len() ==> (#[trigger] out@[j]).0@ == actions@[2 * j]@ && out@[j].1@
                    == actions@[2 * j + 1]@,
        decreases actions@.len() - i,
    {
        let a = actions[i].clone();
        let b = actions[i + 1].clone();
        out.push((a, b));
        i = i + 2;
    }
    out
}

} // verus!
