//! The dunst-style configuration file: `[global]`, `[urgency_*]` and rule
//! sections of `key = value` lines.

use vstd::prelude::*;
use crate::text::{
    all_ascii, ascii_lower, ascii_lower_range, chars_eq, find_char, index_of, lines, lines_of,
    parse_signed, parse_signed_range, parse_unsigned, parse_unsigned_range, range_is_ascii,
    skip_leading, skip_trailing, string_of, strip_leading, strip_trailing, to_chars, trim,
    trim_range, v_range, word_ranges, words_of,
};
use super::{default_config, empty_rule, Config, ConfigView, Corner, Rgb, Rule, RuleView, Urgency};
use super::pattern::{regex_compiles, Pattern};

verus! {

// ---------------------------------------------------------------------------
// Colors
// ---------------------------------------------------------------------------

/// Bytes that `c` takes in UTF-8.
pub open spec fn utf8_width(c: char) -> int {
    if (c as u32) < 0x80 {
        1
    } else if (c as u32) < 0x800 {
        2
    } else if (c as u32) < 0x10000 {
        3
    } else {
        4
    }
}

/// Bytes that `s` takes in UTF-8.
pub open spec fn byte_len(s: Seq<char>) -> int
    decreases s.len(),
{
    if s.len() == 0 {
        0
    } else {
        utf8_width(s[0]) + byte_len(s.drop_first())
    }
}

/// Byte offset `k` of `s` in UTF-8 falls between two characters.
pub open spec fn is_boundary(s: Seq<char>, k: int) -> bool
    decreases s.len(),
{
    if k == 0 {
        true
    } else if s.len() == 0 || k < 0 {
        false
    } else {
        is_boundary(s.drop_first(), k - utf8_width(s[0]))
    }
}

/// The hex digits of a color value: trimmed, leading `#`s removed.
pub open spec fn rgb_text(value: Seq<char>) -> Seq<char> {
    strip_leading(trim(value), '#')
}

/// A color value whose six bytes cannot be cut into three two-byte fields
/// (slicing such a string panics).
pub open spec fn color_panics(value: Seq<char>) -> bool {
    let s = rgb_text(value);
    !all_ascii(s) && byte_len(s) == 6 && !(is_boundary(s, 2) && is_boundary(s, 4))
}

/// `#rrggbb` / `rrggbb` as an RGB triple.
pub open spec fn rgb_of(value: Seq<char>) -> Option<Rgb> {
    let s = rgb_text(value);
    if s.len() != 6 || !all_ascii(s) {
        None
    } else {
        match (
            parse_unsigned(s.subrange(0, 2), 16, 255),
            parse_unsigned(s.subrange(2, 4), 16, 255),
            parse_unsigned(s.subrange(4, 6), 16, 255),
        ) {
            (Some(r), Some(g), Some(b)) => Some((r as u8, g as u8, b as u8)),
            _ => None,
        }
    }
}

fn char_width(c: char) -> (r: i64)
    ensures
        r == utf8_width(c),
{
    let u = c as u32;
    if u < 0x80 {
        1
    } else if u < 0x800 {
        2
    } else if u < 0x10000 {
        3
    } else {
        4
    }
}

proof fn lemma_byte_len_nonneg(s: Seq<char>)
    ensures
        byte_len(s) >= 0,
    decreases s.len(),
{
    if s.len() > 0 {
        lemma_byte_len_nonneg(s.drop_first());
    }
}

/// Whether `v[lo..hi]` takes exactly `n` bytes in UTF-8.
fn byte_len_is(v: &Vec<char>, lo: usize, hi: usize, n: i64) -> (r: bool)
    requires
        lo <= hi <= v@.len(),
        0 <= n <= 0x1000,
    ensures
        r == (byte_len(v@.subrange(lo as int, hi as int)) == n),
{
    let mut i = lo;
    let mut acc: i64 = 0;
    while i < hi && acc <= n
        invariant
            lo <= i <= hi <= v@.len(),
            0 <= acc <= n + 4,
            n <= 0x1000,
            byte_len(v@.subrange(lo as int, hi as int)) == acc + byte_len(
                v@.subrange(i as int, hi as int),
            ),
        decreases hi - i,
    {
        assert(v@.subrange(i as int, hi as int).drop_first() =~= v@.subrange(i + 1, hi as int));
        acc = acc + char_width(v[i]);
        i = i + 1;
    }
    proof {
        lemma_byte_len_nonneg(v@.subrange(i as int, hi as int));
        if i == hi {
            assert(v@.subrange(i as int, hi as int).len() == 0);
        }
    }
    i == hi && acc == n
}

/// Whether byte offset `k` of `v[lo..hi]` falls between two characters.
fn boundary_at(v: &Vec<char>, lo: usize, hi: usize, k: i64) -> (r: bool)
    requires
        lo <= hi <= v@.len(),
        0 <= k <= 0x1000,
    ensures
        r == is_boundary(v@.subrange(lo as int, hi as int), k as int),
{
    let mut i = lo;
    let mut k2 = k;
    while i < hi && k2 > 0
        invariant
            lo <= i <= hi <= v@.len(),
            -4 <= k2 <= k,
            k <= 0x1000,
            is_boundary(v@.subrange(lo as int, hi as int), k as int) == is_boundary(
                v@.subrange(i as int, hi as int),
                k2 as int,
            ),
        decreases hi - i,
    {
        assert(v@.subrange(i as int, hi as int).drop_first() =~= v@.subrange(i + 1, hi as int));
        k2 = k2 - char_width(v[i]);
        i = i + 1;
    }
    proof {
        if k2 > 0 {
            assert(v@.subrange(i as int, hi as int).len() == 0);
        }
    }
    k2 == 0
}

/// The color of a value, and whether reading it would panic.
fn color_of(v: &Vec<char>) -> (r: (Option<Rgb>, bool))
    ensures
        r.0 == rgb_of(v@),
        r.1 == color_panics(v@),
{
    let n = v.len();
    let (a, b) = trim_range(v, 0, n);
    assert(v@.subrange(0, n as int) =~= v@);
    let s = skip_leading(v, a, b, '#');
    let ghost t = v@.subrange(s as int, b as int);
    assert(t == rgb_text(v@));
    let ascii = range_is_ascii(v, s, b);
    let panics = if ascii {
        false
    } else {
        byte_len_is(v, s, b, 6) && !(boundary_at(v, s, b, 2) && boundary_at(v, s, b, 4))
    };
    if b - s != 6 || !ascii {
        return (None, panics);
    }
    proof {
        assert(t.subrange(0, 2) =~= v@.subrange(s as int, s + 2));
        assert(t.subrange(2, 4) =~= v@.subrange(s + 2, s + 4));
        assert(t.subrange(4, 6) =~= v@.subrange(s + 4, s + 6));
    }
    let r = parse_unsigned_range(v, s, s + 2, 16, 255);
    let g = parse_unsigned_range(v, s + 2, s + 4, 16, 255);
    let bl = parse_unsigned_range(v, s + 4, s + 6, 16, 255);
    match (r, g, bl) {
        (Some(r), Some(g), Some(bl)) => (Some((r as u8, g as u8, bl as u8)), panics),
        _ => (None, panics),
    }
}

/// Parse `#rrggbb` / `rrggbb` into an RGB triple.
pub fn parse_color(value: &str) -> (r: Option<Rgb>)
    requires
        !color_panics(value@),
    ensures
        r == rgb_of(value@),
{
    let v = to_chars(value);
    color_of(&v).0
}

// ---------------------------------------------------------------------------
// Keywords
// ---------------------------------------------------------------------------

/// `s` with every `-` turned into `_`.
pub open spec fn dash_to_underscore(s: Seq<char>) -> Seq<char> {
    Seq::new(
        s.len(),
        |i: int|
            if s[i] == '-' {
                '_'
            } else {
                s[i]
            },
    )
}

/// The corner a value names (case-insensitive, `-` or `_`); top right
/// otherwise.
pub open spec fn corner_of(value: Seq<char>) -> Corner {
    let n = dash_to_underscore(ascii_lower(value));
    if n == "top_right"@ || n == "topright"@ {
        Corner::TopRight
    } else if n == "top_left"@ || n == "topleft"@ {
        Corner::TopLeft
    } else if n == "bottom_right"@ || n == "bottomright"@ {
        Corner::BottomRight
    } else if n == "bottom_left"@ || n == "bottomleft"@ {
        Corner::BottomLeft
    } else {
        Corner::TopRight
    }
}

/// The urgency a value names (case-insensitive).
pub open spec fn urgency_of(value: Seq<char>) -> Option<Urgency> {
    let n = ascii_lower(value);
    if n == "low"@ {
        Some(Urgency::Low)
    } else if n == "normal"@ {
        Some(Urgency::Normal)
    } else if n == "critical"@ {
        Some(Urgency::Critical)
    } else {
        None
    }
}

/// Whether a value means yes: `true`, `yes`, `1` or `on`, in any case.
pub open spec fn bool_of(value: Seq<char>) -> bool {
    let n = ascii_lower(value);
    n == "true"@ || n == "yes"@ || n == "1"@ || n == "on"@
}

fn lower_chars(v: &Vec<char>) -> (r: Vec<char>)
    ensures
        r@ == ascii_lower(v@),
{
    let r = ascii_lower_range(v, 0, v.len());
    assert(v@.subrange(0, v@.len() as int) =~= v@);
    r
}

fn corner_of_chars(v: &Vec<char>) -> (r: Corner)
    ensures
        r == corner_of(v@),
{
    let l = lower_chars(v);
    let mut n: Vec<char> = Vec::new();
    let mut i: usize = 0;
    while i < l.len()
        invariant
            i <= l@.len(),
            n@ =~= dash_to_underscore(l@).take(i as int),
        decreases l@.len() - i,
    {
        if l[i] == '-' {
            n.push('_');
        } else {
            n.push(l[i]);
        }
        i = i + 1;
    }
    assert(n@ =~= dash_to_underscore(l@));
    if chars_eq(&n, "top_right") || chars_eq(&n, "topright") {
        Corner::TopRight
    } else if chars_eq(&n, "top_left") || chars_eq(&n, "topleft") {
        Corner::TopLeft
    } else if chars_eq(&n, "bottom_right") || chars_eq(&n, "bottomright") {
        Corner::BottomRight
    } else if chars_eq(&n, "bottom_left") || chars_eq(&n, "bottomleft") {
        Corner::BottomLeft
    } else {
        Corner::TopRight
    }
}

fn urgency_of_chars(v: &Vec<char>) -> (r: Option<Urgency>)
    ensures
        r == urgency_of(v@),
{
    let n = lower_chars(v);
    if chars_eq(&n, "low") {
        Some(Urgency::Low)
    } else if chars_eq(&n, "normal") {
        Some(Urgency::Normal)
    } else if chars_eq(&n, "critical") {
        Some(Urgency::Critical)
    } else {
        None
    }
}

fn bool_of_chars(v: &Vec<char>) -> (r: bool)
    ensures
        r == bool_of(v@),
{
    let n = lower_chars(v);
    chars_eq(&n, "true") || chars_eq(&n, "yes") || chars_eq(&n, "1") || chars_eq(&n, "on")
}

/// The corner a configuration value names.
pub fn parse_corner(value: &str) -> (r: Corner)
    ensures
        r == corner_of(value@),
{
    corner_of_chars(&to_chars(value))
}

/// The urgency a configuration value names.
pub fn parse_urgency(value: &str) -> (r: Option<Urgency>)
    ensures
        r == urgency_of(value@),
{
    urgency_of_chars(&to_chars(value))
}

/// Whether a configuration value means yes.
pub fn parse_bool(value: &str) -> (r: bool)
    ensures
        r == bool_of(value@),
{
    bool_of_chars(&to_chars(value))
}

// ---------------------------------------------------------------------------
// Sections
// ---------------------------------------------------------------------------

pub open spec fn clamp_scale(v: nat) -> u16 {
    if v < 1 {
        1
    } else if v > 4 {
        4
    } else {
        v as u16
    }
}

/// A `[global]` key/value pair applied to `c`.
pub open spec fn global_of(c: ConfigView, key: Seq<char>, value: Seq<char>) -> ConfigView {
    if key == "width"@ {
        match parse_unsigned(value, 10, 0xffff) {
            Some(v) => ConfigView { width: v as u16, ..c },
            None => c,
        }
    } else if key == "margin"@ {
        match parse_signed(value, -0x8000, 0x7fff) {
            Some(v) => ConfigView { margin: v as i16, ..c },
            None => c,
        }
    } else if key == "gap"@ {
        match parse_signed(value, -0x8000, 0x7fff) {
            Some(v) => ConfigView { gap: v as i16, ..c },
            None => c,
        }
    } else if key == "max_visible"@ {
        match parse_unsigned(value, 10, usize::MAX as nat) {
            Some(v) => ConfigView { max_visible: v as usize, ..c },
            None => c,
        }
    } else if key == "timeout"@ || key == "default_timeout"@ {
        match parse_signed(value, i32::MIN as int, i32::MAX as int) {
            Some(v) => ConfigView { default_timeout_ms: v as i32, ..c },
            None => c,
        }
    } else if key == "monitor"@ {
        match parse_unsigned(value, 10, usize::MAX as nat) {
            Some(v) => ConfigView { monitor: v as usize, ..c },
            None => c,
        }
    } else if key == "font_scale"@ {
        let v: nat = match parse_unsigned(value, 10, 0xffff) {
            Some(v) => v,
            None => c.font_scale as nat,
        };
        ConfigView { font_scale: if v < 1 { 1 } else { v as u16 }, ..c }
    } else if key == "origin"@ || key == "corner"@ {
        ConfigView { origin: corner_of(value), ..c }
    } else if key == "font"@ {
        let ws = words_of(value);
        if ws.len() > 0 {
            match parse_unsigned(ws.last(), 10, 0xffff) {
                Some(size) => ConfigView { font_scale: clamp_scale(size / 6), ..c },
                None => c,
            }
        } else {
            c
        }
    } else if key == "background"@ {
        match rgb_of(value) {
            Some(x) => ConfigView { bg: x, ..c },
            None => c,
        }
    } else if key == "foreground"@ {
        match rgb_of(value) {
            Some(x) => ConfigView { fg: x, ..c },
            None => c,
        }
    } else if key == "frame_color"@ || key == "frame"@ {
        match rgb_of(value) {
            Some(x) => ConfigView { frame: x, ..c },
            None => c,
        }
    } else if key == "body_color"@ || key == "color"@ {
        match rgb_of(value) {
            Some(x) => ConfigView { body: x, ..c },
            None => c,
        }
    } else {
        c
    }
}

/// A `[global]` key whose value is read as a color (the keys that are read
/// as numbers, corners or fonts come first, as in `global_of`).
pub open spec fn global_color_key(key: Seq<char>) -> bool {
    if key == "width"@ || key == "margin"@ || key == "gap"@ || key == "max_visible"@ || key
        == "timeout"@ || key == "default_timeout"@ || key == "monitor"@ || key == "font_scale"@
        || key == "origin"@ || key == "corner"@ || key == "font"@ {
        false
    } else {
        key == "background"@ || key == "foreground"@ || key == "frame_color"@ || key == "frame"@
            || key == "body_color"@ || key == "color"@
    }
}

/// A key/value pair of the urgency section `idx` (0 low, 1 normal, 2
/// critical) applied to `c`.
pub open spec fn urgency_section_of(c: ConfigView, idx: int, key: Seq<char>, value: Seq<char>) -> ConfigView {
    if key == "background"@ {
        match rgb_of(value) {
            Some(x) => ConfigView { urgency_colors: c.urgency_colors.update(idx, x), ..c },
            None => c,
        }
    } else if key == "foreground"@ || key == "color"@ {
        match rgb_of(value) {
            Some(x) => ConfigView { body: x, ..c },
            None => c,
        }
    } else {
        c
    }
}

/// An urgency-section key whose value is read as a color.
pub open spec fn urgency_color_key(key: Seq<char>) -> bool {
    key == "background"@ || key == "foreground"@ || key == "color"@
}

/// A pattern text, when it compiles.
pub open spec fn compiled(v: Seq<char>) -> Option<Seq<char>> {
    if regex_compiles(v) {
        Some(v)
    } else {
        None
    }
}

/// A rule-section key/value pair applied to `r`.
pub open spec fn rule_key(r: RuleView, key: Seq<char>, value: Seq<char>) -> RuleView {
    if key == "appname"@ {
        RuleView { appname: compiled(value), ..r }
    } else if key == "summary"@ {
        RuleView { summary: compiled(value), ..r }
    } else if key == "body"@ {
        RuleView { body: compiled(value), ..r }
    } else if key == "urgency"@ {
        RuleView { urgency: urgency_of(value), ..r }
    } else if key == "timeout"@ || key == "expire_timeout"@ {
        RuleView {
            expire_timeout: match parse_signed(value, i32::MIN as int, i32::MAX as int) {
                Some(v) => Some(v as i32),
                None => None,
            },
            ..r
        }
    } else if key == "set_urgency"@ {
        RuleView { set_urgency: urgency_of(value), ..r }
    } else if key == "icon"@ || key == "new_icon"@ {
        RuleView { new_icon: Some(value), ..r }
    } else if key == "skip_display"@ {
        RuleView { skip_display: bool_of(value), ..r }
    } else if key == "category"@ {
        RuleView { category: compiled(value), ..r }
    } else if key == "stack_tag"@ {
        RuleView { stack_tag: compiled(value), ..r }
    } else if key == "desktop_entry"@ {
        RuleView { desktop_entry: compiled(value), ..r }
    } else if key == "set_transient"@ || key == "transient"@ {
        RuleView { set_transient: Some(bool_of(value)), ..r }
    } else if key == "history_ignore"@ {
        RuleView { history_ignore: bool_of(value), ..r }
    } else {
        r
    }
}

/// Section names that are not rules.
pub open spec fn is_reserved(name: Seq<char>) -> bool {
    name == "global"@ || name == "urgency_low"@ || name == "urgency_normal"@ || name
        == "urgency_critical"@ || name == "shortcuts"@ || name == "experimental"@ || name
        == "frame"@
}

/// The rule that a section header `[name]` opens: it matches the application
/// named (without a leading `@`), when there is a name.
pub open spec fn section_rule(name: Seq<char>) -> RuleView {
    let app = if name.len() > 0 && name[0] == '@' {
        name.drop_first()
    } else {
        name
    };
    RuleView { appname: if app.len() > 0 { compiled(app) } else { None }, ..empty_rule() }
}

/// Where reading a configuration has got to.
pub struct LoadState {
    /// The configuration so far; its rules are the finished ones.
    pub cfg: ConfigView,
    /// The current section's name.
    pub section: Seq<char>,
    /// The rule that the current section builds, if it is a rule section.
    pub cur: Option<RuleView>,
    /// Whether a color value read so far would panic.
    pub panics: bool,
}

pub open spec fn load_init() -> LoadState {
    LoadState { cfg: default_config(), section: seq![], cur: None, panics: false }
}

/// `s` without surrounding `"`s (`trim_matches('"')`).
pub open spec fn strip_quotes(s: Seq<char>) -> Seq<char> {
    strip_trailing(strip_leading(s, '"'), '"')
}

/// One line of the file read into `st`.
pub open spec fn load_line(st: LoadState, raw: Seq<char>) -> LoadState {
    let line = trim(raw);
    if line.len() == 0 || line[0] == '#' || line[0] == ';' {
        st
    } else if line[0] == '[' && line[line.len() - 1] == ']' {
        let rules = match st.cur {
            Some(r) => st.cfg.rules.push(r),
            None => st.cfg.rules,
        };
        let name = trim(line.subrange(1, line.len() - 1));
        LoadState {
            cfg: ConfigView { rules, ..st.cfg },
            section: name,
            cur: if is_reserved(name) {
                None
            } else {
                Some(section_rule(name))
            },
            panics: st.panics,
        }
    } else {
        let e = index_of(line, '=');
        if e < 0 {
            st
        } else {
            let key = trim(line.take(e));
            let value = strip_quotes(trim(line.skip(e + 1)));
            if st.section == "global"@ {
                LoadState {
                    cfg: global_of(st.cfg, key, value),
                    panics: st.panics || (global_color_key(key) && color_panics(value)),
                    ..st
                }
            } else if st.section == "urgency_low"@ || st.section == "urgency_normal"@ || st.section
                == "urgency_critical"@ {
                let idx = if st.section == "urgency_low"@ {
                    0
                } else if st.section == "urgency_normal"@ {
                    1
                } else {
                    2
                };
                LoadState {
                    cfg: urgency_section_of(st.cfg, idx, key, value),
                    panics: st.panics || (urgency_color_key(key) && color_panics(value)),
                    ..st
                }
            } else {
                match st.cur {
                    Some(r) => LoadState { cur: Some(rule_key(r, key, value)), ..st },
                    None => st,
                }
            }
        }
    }
}

/// The lines `ls` read in order.
pub open spec fn load_lines(ls: Seq<Seq<char>>) -> LoadState
    decreases ls.len(),
{
    if ls.len() == 0 {
        load_init()
    } else {
        load_line(load_lines(ls.drop_last()), ls.last())
    }
}

/// The configuration at the end of the file: the last rule is finished too.
pub open spec fn finish(st: LoadState) -> ConfigView {
    match st.cur {
        Some(r) => ConfigView { rules: st.cfg.rules.push(r), ..st.cfg },
        None => st.cfg,
    }
}

/// The configuration that the text `data` describes.
pub open spec fn config_of(data: Seq<char>) -> ConfigView {
    finish(load_lines(lines_of(data)))
}

/// Whether reading `data` would come upon a color value that panics.
pub open spec fn config_panics(data: Seq<char>) -> bool {
    load_lines(lines_of(data)).panics
}

// ---------------------------------------------------------------------------
// Reading
// ---------------------------------------------------------------------------

fn parse_u16(v: &Vec<char>) -> (r: Option<u16>)
    ensures
        match parse_unsigned(v@, 10, 0xffff) {
            Some(x) => r == Some(x as u16),
            None => r is None,
        },
{
    assert(v@.subrange(0, v@.len() as int) =~= v@);
    match parse_unsigned_range(v, 0, v.len(), 10, 0xffff) {
        Some(x) => Some(x as u16),
        None => None,
    }
}

fn parse_usize(v: &Vec<char>) -> (r: Option<usize>)
    ensures
        match parse_unsigned(v@, 10, usize::MAX as nat) {
            Some(x) => r == Some(x as usize),
            None => r is None,
        },
{
    assert(v@.subrange(0, v@.len() as int) =~= v@);
    match parse_unsigned_range(v, 0, v.len(), 10, usize::MAX as u64) {
        Some(x) => Some(x as usize),
        None => None,
    }
}

fn parse_i16(v: &Vec<char>) -> (r: Option<i16>)
    ensures
        match parse_signed(v@, -0x8000, 0x7fff) {
            Some(x) => r == Some(x as i16),
            None => r is None,
        },
{
    assert(v@.subrange(0, v@.len() as int) =~= v@);
    match parse_signed_range(v, 0, v.len(), -0x8000, 0x7fff) {
        Some(x) => Some(x as i16),
        None => None,
    }
}

fn parse_i32(v: &Vec<char>) -> (r: Option<i32>)
    ensures
        match parse_signed(v@, i32::MIN as int, i32::MAX as int) {
            Some(x) => r == Some(x as i32),
            None => r is None,
        },
{
    assert(v@.subrange(0, v@.len() as int) =~= v@);
    match parse_signed_range(v, 0, v.len(), i32::MIN as i64, i32::MAX as i64) {
        Some(x) => Some(x as i32),
        None => None,
    }
}

/// Apply a `[global]` key/value pair; the result is whether reading its
/// color would panic.
fn apply_global(cfg: &mut Config, key: &Vec<char>, value: &Vec<char>) -> (panics: bool)
    ensures
        final(cfg).view() == global_of(old(cfg).view(), key@, value@),
        panics == (global_color_key(key@) && color_panics(value@)),
{
    if chars_eq(key, "width") {
        if let Some(v) = parse_u16(value) {
            cfg.width = v;
        }
        false
    } else if chars_eq(key, "margin") {
        if let Some(v) = parse_i16(value) {
            cfg.margin = v;
        }
        false
    } else if chars_eq(key, "gap") {
        if let Some(v) = parse_i16(value) {
            cfg.gap = v;
        }
        false
    } else if chars_eq(key, "max_visible") {
        if let Some(v) = parse_usize(value) {
            cfg.max_visible = v;
        }
        false
    } else if chars_eq(key, "timeout") || chars_eq(key, "default_timeout") {
        if let Some(v) = parse_i32(value) {
            cfg.default_timeout_ms = v;
        }
        false
    } else if chars_eq(key, "monitor") {
        if let Some(v) = parse_usize(value) {
            cfg.monitor = v;
        }
        false
    } else if chars_eq(key, "font_scale") {
        let v = match parse_u16(value) {
            Some(v) => v,
            None => cfg.font_scale,
        };
        cfg.font_scale = if v < 1 {
            1
        } else {
            v
        };
        false
    } else if chars_eq(key, "origin") || chars_eq(key, "corner") {
        cfg.origin = corner_of_chars(value);
        false
    } else if chars_eq(key, "font") {
        let ws = word_ranges(value, 0, value.len());
        assert(value@.subrange(0, value@.len() as int) =~= value@);
        if ws.len() > 0 {
            let (a, b) = ws[ws.len() - 1];
            if let Some(size) = parse_unsigned_range(value, a, b, 10, 0xffff) {
                let q = size / 6;
                cfg.font_scale = if q < 1 {
                    1
                } else if q > 4 {
                    4
                } else {
                    q as u16
                };
            }
        }
        false
    } else if chars_eq(key, "background") {
        let (c, p) = color_of(value);
        if let Some(x) = c {
            cfg.bg = x;
        }
        p
    } else if chars_eq(key, "foreground") {
        let (c, p) = color_of(value);
        if let Some(x) = c {
            cfg.fg = x;
        }
        p
    } else if chars_eq(key, "frame_color") || chars_eq(key, "frame") {
        let (c, p) = color_of(value);
        if let Some(x) = c {
            cfg.frame = x;
        }
        p
    } else if chars_eq(key, "body_color") || chars_eq(key, "color") {
        let (c, p) = color_of(value);
        if let Some(x) = c {
            cfg.body = x;
        }
        p
    } else {
        false
    }
}

/// Apply a key/value pair of urgency section `idx`; the result is whether
/// reading its color would panic.
fn apply_urgency(cfg: &mut Config, idx: usize, key: &Vec<char>, value: &Vec<char>) -> (panics: bool)
    requires
        idx < 3,
    ensures
        final(cfg).view() == urgency_section_of(old(cfg).view(), idx as int, key@, value@),
        panics == (urgency_color_key(key@) && color_panics(value@)),
{
    if chars_eq(key, "background") {
        let (c, p) = color_of(value);
        if let Some(x) = c {
            let u = cfg.urgency_colors;
            let ghost old_u = u@;
            cfg.urgency_colors = if idx == 0 {
                [x, u[1], u[2]]
            } else if idx == 1 {
                [u[0], x, u[2]]
            } else {
                [u[0], u[1], x]
            };
            assert(cfg.urgency_colors@ =~= old_u.update(idx as int, x));
        }
        p
    } else if chars_eq(key, "foreground") || chars_eq(key, "color") {
        let (c, p) = color_of(value);
        if let Some(x) = c {
            cfg.body = x;
        }
        p
    } else {
        false
    }
}

fn compile_chars(v: &Vec<char>) -> (r: Option<Pattern>)
    ensures
        super::opt_pat(r) == compiled(v@),
{
    let s = string_of(v, 0, v.len());
    assert(v@.subrange(0, v@.len() as int) =~= v@);
    Pattern::new(s.as_str())
}

/// Apply a rule-section key/value pair.
fn apply_rule_key(r: &mut Rule, key: &Vec<char>, value: &Vec<char>)
    ensures
        final(r).view() == rule_key(old(r).view(), key@, value@),
{
    if chars_eq(key, "appname") {
        r.appname_re = compile_chars(value);
    } else if chars_eq(key, "summary") {
        r.summary_re = compile_chars(value);
    } else if chars_eq(key, "body") {
        r.body_re = compile_chars(value);
    } else if chars_eq(key, "urgency") {
        r.urgency = urgency_of_chars(value);
    } else if chars_eq(key, "timeout") || chars_eq(key, "expire_timeout") {
        r.expire_timeout = parse_i32(value);
    } else if chars_eq(key, "set_urgency") {
        r.set_urgency = urgency_of_chars(value);
    } else if chars_eq(key, "icon") || chars_eq(key, "new_icon") {
        let s = string_of(value, 0, value.len());
        assert(value@.subrange(0, value@.len() as int) =~= value@);
        r.new_icon = Some(s);
    } else if chars_eq(key, "skip_display") {
        r.skip_display = bool_of_chars(value);
    } else if chars_eq(key, "category") {
        r.category_re = compile_chars(value);
    } else if chars_eq(key, "stack_tag") {
        r.stack_tag_re = compile_chars(value);
    } else if chars_eq(key, "desktop_entry") {
        r.desktop_entry_re = compile_chars(value);
    } else if chars_eq(key, "set_transient") || chars_eq(key, "transient") {
        r.set_transient = Some(bool_of_chars(value));
    } else if chars_eq(key, "history_ignore") {
        r.history_ignore = bool_of_chars(value);
    }
}

fn is_reserved_chars(name: &Vec<char>) -> (r: bool)
    ensures
        r == is_reserved(name@),
{
    chars_eq(name, "global") || chars_eq(name, "urgency_low") || chars_eq(name, "urgency_normal")
        || chars_eq(name, "urgency_critical") || chars_eq(name, "shortcuts") || chars_eq(
        name,
        "experimental",
    ) || chars_eq(name, "frame")
}

fn new_section_rule(name: &Vec<char>) -> (r: Rule)
    ensures
        r.view() == section_rule(name@),
{
    let mut r = Rule::default();
    let n = name.len();
    let start: usize = if n > 0 && name[0] == '@' {
        1
    } else {
        0
    };
    proof {
        if n > 0 && name@[0] == '@' {
            assert(name@.subrange(1, n as int) =~= name@.drop_first());
        } else {
            assert(name@.subrange(0, n as int) =~= name@);
        }
    }
    if start < n {
        let app = v_range(name, start, n);
        r.appname_re = compile_chars(&app);
    }
    r
}

/// Where reading a configuration has got to (see `LoadState`).
struct Loader {
    cfg: Config,
    section: Vec<char>,
    cur: Option<Rule>,
    panics: bool,
}

impl Loader {
    spec fn view(&self) -> LoadState {
        LoadState {
            cfg: self.cfg.view(),
            section: self.section@,
            cur: match self.cur {
                Some(r) => Some(r.view()),
                None => None,
            },
            panics: self.panics,
        }
    }
}

proof fn lemma_rules_push(v: Seq<Rule>, r: Rule)
    ensures
        v.push(r).map_values(|x: Rule| x.view()) == v.map_values(|x: Rule| x.view()).push(
            r.view(),
        ),
{
    assert(v.push(r).map_values(|x: Rule| x.view()) =~= v.map_values(|x: Rule| x.view()).push(
        r.view(),
    ));
}

/// Read one line of the file.
fn load_line_exec(st: &mut Loader, raw: &Vec<char>)
    ensures
        final(st).view() == load_line(old(st).view(), raw@),
{
    let n = raw.len();
    let (a, b) = trim_range(raw, 0, n);
    assert(raw@.subrange(0, n as int) =~= raw@);
    let ghost line = raw@.subrange(a as int, b as int);
    if a == b || raw[a] == '#' || raw[a] == ';' {
        return;
    }
    if raw[a] == '[' && raw[b - 1] == ']' {
        let cur = st.cur.take();
        match cur {
            Some(r) => {
                proof {
                    lemma_rules_push(st.cfg.rules@, r);
                }
                st.cfg.rules.push(r);
            },
            None => {},
        }
        let (x, y) = trim_range(raw, a + 1, b - 1);
        assert(line.subrange(1, line.len() - 1) =~= raw@.subrange(a + 1, b - 1));
        let name = v_range(raw, x, y);
        if !is_reserved_chars(&name) {
            st.cur = Some(new_section_rule(&name));
        }
        st.section = name;
        return;
    }
    match find_char(raw, a, b, '=') {
        None => {},
        Some(e) => {
            let (ka, kb) = trim_range(raw, a, e);
            assert(line.take(e - a) =~= raw@.subrange(a as int, e as int));
            let key = v_range(raw, ka, kb);
            let (va, vb) = trim_range(raw, e + 1, b);
            assert(line.skip(e - a + 1) =~= raw@.subrange(e + 1, b as int));
            let va2 = skip_leading(raw, va, vb, '"');
            let vb2 = skip_trailing(raw, va2, vb, '"');
            let value = v_range(raw, va2, vb2);
            if chars_eq(&st.section, "global") {
                let p = apply_global(&mut st.cfg, &key, &value);
                st.panics = st.panics || p;
            } else if chars_eq(&st.section, "urgency_low") || chars_eq(&st.section, "urgency_normal")
                || chars_eq(&st.section, "urgency_critical") {
                let idx: usize = if chars_eq(&st.section, "urgency_low") {
                    0
                } else if chars_eq(&st.section, "urgency_normal") {
                    1
                } else {
                    2
                };
                let p = apply_urgency(&mut st.cfg, idx, &key, &value);
                st.panics = st.panics || p;
            } else {
                match &mut st.cur {
                    Some(r) => {
                        apply_rule_key(r, &key, &value);
                    },
                    None => {},
                }
            }
        },
    }
}

/// Read a whole configuration text: the configuration, and whether a color
/// value in it would panic.
fn load_text(data: &str) -> (r: (Config, bool))
    ensures
        r.0.view() == config_of(data@),
        r.1 == config_panics(data@),
{
    let ls = lines(data);
    let ghost lsv = lines_of(data@);
    let mut st = Loader { cfg: Config::default(), section: Vec::new(), cur: None, panics: false };
    assert(st.view() =~= load_init());
    let mut i: usize = 0;
    while i < ls.len()
        invariant
            i <= ls@.len(),
            ls@.len() == lsv.len(),
            lsv == lines_of(data@),
            forall|j: int| 0 <= j < ls@.len() ==> #[trigger] ls@[j]@ == lsv[j],
            st.view() == load_lines(lsv.take(i as int)),
        decreases ls@.len() - i,
    {
        proof {
            assert(lsv.take(i + 1).drop_last() =~= lsv.take(i as int));
            assert(lsv.take(i + 1).last() == ls@[i as int]@);
        }
        load_line_exec(&mut st, &ls[i]);
        i = i + 1;
    }
    assert(lsv.take(ls@.len() as int) =~= lsv);
    let Loader { mut cfg, section: _, cur, panics } = st;
    match cur {
        Some(r) => {
            proof {
                lemma_rules_push(cfg.rules@, r);
            }
            cfg.rules.push(r);
        },
        None => {},
    }
    (cfg, panics)
}

/// The configuration that the text of a configuration file describes;
/// `None` (no file) gives the defaults. Unknown keys and sections are
/// ignored.
pub fn load_config(data: Option<&str>) -> (r: Config)
    requires
        data matches Some(d) ==> !config_panics(d@),
    ensures
        r.view() == match data {
            Some(d) => config_of(d@),
            None => default_config(),
        },
{
    match data {
        Some(d) => load_text(d).0,
        None => Config::default(),
    }
}

/// Whether reading the configuration text `data` would come upon a color
/// value that cannot be cut into its fields (see `load_config`).
pub fn config_would_panic(data: &str) -> (r: bool)
    ensures
        r == config_panics(data@),
{
    load_text(data).1
}

} // verus!