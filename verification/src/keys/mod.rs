//! Keyboard shortcuts: key names, actions, key-file parsing and matching.
use vstd::prelude::*;
use crate::text::{
    chars_eq, find_char, index_of, lines, lines_of, parse_unsigned, parse_unsigned_range,
    range_eq, range_starts_with, string_of, to_chars, to_uppercase, trim, trim_range,
    unicode_upper, word_ranges, words_of,
};

verus! {

/// What a shortcut does.
#[derive(Debug, Clone, PartialEq, Eq)]
pub enum KeyAction {
    NextWindow,
    PrevWindow,
    Close,
    Iconify,
    Maximize,
    Move,
    Resize,
    GoToWorkspace(usize),
    GoToNextWorkspace,
    GoToPrevWorkspace,
    ShowMenu,
    Exit,
    Exec(String),
}

impl KeyAction {
    /// An equal copy of this action.
    pub fn duplicate(&self) -> (r: KeyAction)
        ensures
            r == *self,
    {
        match self {
            KeyAction::NextWindow => KeyAction::NextWindow,
            KeyAction::PrevWindow => KeyAction::PrevWindow,
            KeyAction::Close => KeyAction::Close,
            KeyAction::Iconify => KeyAction::Iconify,
            KeyAction::Maximize => KeyAction::Maximize,
            KeyAction::Move => KeyAction::Move,
            KeyAction::Resize => KeyAction::Resize,
            KeyAction::GoToWorkspace(n) => KeyAction::GoToWorkspace(*n),
            KeyAction::GoToNextWorkspace => KeyAction::GoToNextWorkspace,
            KeyAction::GoToPrevWorkspace => KeyAction::GoToPrevWorkspace,
            KeyAction::ShowMenu => KeyAction::ShowMenu,
            KeyAction::Exit => KeyAction::Exit,
            KeyAction::Exec(s) => KeyAction::Exec(s.clone()),
        }
    }
}

/// The meaning of a `KeyAction`, with the command text as characters.
pub open spec fn action_view(a: KeyAction) -> (int, int, Seq<char>) {
    match a {
        KeyAction::NextWindow => (0, 0, seq![]),
        KeyAction::PrevWindow => (1, 0, seq![]),
        KeyAction::Close => (2, 0, seq![]),
        KeyAction::Iconify => (3, 0, seq![]),
        KeyAction::Maximize => (4, 0, seq![]),
        KeyAction::Move => (5, 0, seq![]),
        KeyAction::Resize => (6, 0, seq![]),
        KeyAction::GoToWorkspace(n) => (7, n as int, seq![]),
        KeyAction::GoToNextWorkspace => (8, 0, seq![]),
        KeyAction::GoToPrevWorkspace => (9, 0, seq![]),
        KeyAction::ShowMenu => (10, 0, seq![]),
        KeyAction::Exit => (11, 0, seq![]),
        KeyAction::Exec(s) => (12, 0, s@),
    }
}

/// X11 modifier bits.
pub const MOD_SHIFT: u16 = 0x0001;
pub const MOD_LOCK: u16 = 0x0002;
pub const MOD_CONTROL: u16 = 0x0004;
pub const MOD_1: u16 = 0x0008;
pub const MOD_2: u16 = 0x0010;
pub const MOD_3: u16 = 0x0020;
pub const MOD_4: u16 = 0x0040;
pub const MOD_5: u16 = 0x0080;

/// Bits of "lock" modifiers that vary independently of a shortcut itself
/// (CapsLock = 0x02, NumLock/Mod2 = 0x10).
pub const LOCK_MASK: u16 = 0x0012;

/// A shortcut bound to a resolved keycode.
#[derive(Debug, Clone)]
pub struct KeyBinding {
    pub modmask: u16,
    pub keycode: u8,
    pub action: KeyAction,
}

/// The keysym that a key name denotes.
pub open spec fn spec_key_name(name: Seq<char>) -> Option<u32> {
    let u = unicode_upper(name);
    if u == "TAB"@ {
        Some(0xff09)
    } else if u == "RETURN"@ || u == "ENTER"@ {
        Some(0xff0d)
    } else if u == "ESCAPE"@ || u == "ESC"@ {
        Some(0xff1b)
    } else if u == "BACKSPACE"@ || u == "BACK_SPACE"@ {
        Some(0xff08)
    } else if u == "DELETE"@ || u == "DEL"@ {
        Some(0xffff)
    } else if u == "LEFT"@ {
        Some(0xff51)
    } else if u == "RIGHT"@ {
        Some(0xff53)
    } else if u == "UP"@ {
        Some(0xff52)
    } else if u == "DOWN"@ {
        Some(0xff54)
    } else if u == "SPACE"@ {
        Some(0xff20)
    } else if u == "F1"@ {
        Some(0xffbe)
    } else if u == "F2"@ {
        Some(0xffbf)
    } else if u == "F3"@ {
        Some(0xffc0)
    } else if u == "F4"@ {
        Some(0xffc1)
    } else if u == "F5"@ {
        Some(0xffc2)
    } else if u == "F6"@ {
        Some(0xffc3)
    } else if u == "F7"@ {
        Some(0xffc4)
    } else if u == "F8"@ {
        Some(0xffc5)
    } else if u == "F9"@ {
        Some(0xffc6)
    } else if u == "F10"@ {
        Some(0xffc7)
    } else if u == "F11"@ {
        Some(0xffc8)
    } else if u == "F12"@ {
        Some(0xffc9)
    } else if name.len() > 0 && is_ascii_alnum(name[0]) {
        Some(name[0] as u32)
    } else {
        None
    }
}

pub open spec fn is_ascii_alnum(c: char) -> bool {
    ('0' <= c && c <= '9') || ('a' <= c && c <= 'z') || ('A' <= c && c <= 'Z')
}

/// Keysym of a key name: the named keys (case-insensitive), else the first
/// character when it is an ASCII letter or digit.
pub fn parse_key_name(name: &str) -> (r: Option<u32>)
    ensures
        r == spec_key_name(name@),
{
    let upper = to_uppercase(name);
    let u = to_chars(upper.as_str());
    if chars_eq(&u, "TAB") {
        Some(0xff09)
    } else if chars_eq(&u, "RETURN") || chars_eq(&u, "ENTER") {
        Some(0xff0d)
    } else if chars_eq(&u, "ESCAPE") || chars_eq(&u, "ESC") {
        Some(0xff1b)
    } else if chars_eq(&u, "BACKSPACE") || chars_eq(&u, "BACK_SPACE") {
        Some(0xff08)
    } else if chars_eq(&u, "DELETE") || chars_eq(&u, "DEL") {
        Some(0xffff)
    } else if chars_eq(&u, "LEFT") {
        Some(0xff51)
    } else if chars_eq(&u, "RIGHT") {
        Some(0xff53)
    } else if chars_eq(&u, "UP") {
        Some(0xff52)
    } else if chars_eq(&u, "DOWN") {
        Some(0xff54)
    } else if chars_eq(&u, "SPACE") {
        Some(0xff20)
    } else if chars_eq(&u, "F1") {
        Some(0xffbe)
    } else if chars_eq(&u, "F2") {
        Some(0xffbf)
    } else if chars_eq(&u, "F3") {
        Some(0xffc0)
    } else if chars_eq(&u, "F4") {
        Some(0xffc1)
    } else if chars_eq(&u, "F5") {
        Some(0xffc2)
    } else if chars_eq(&u, "F6") {
        Some(0xffc3)
    } else if chars_eq(&u, "F7") {
        Some(0xffc4)
    } else if chars_eq(&u, "F8") {
        Some(0xffc5)
    } else if chars_eq(&u, "F9") {
        Some(0xffc6)
    } else if chars_eq(&u, "F10") {
        Some(0xffc7)
    } else if chars_eq(&u, "F11") {
        Some(0xffc8)
    } else if chars_eq(&u, "F12") {
        Some(0xffc9)
    } else {
        let n = name.unicode_len();
        if n == 0 {
            return None;
        }
        let c = name.get_char(0);
        if ('0' <= c && c <= '9') || ('a' <= c && c <= 'z') || ('A' <= c && c <= 'Z') {
            Some(c as u32)
        } else {
            None
        }
    }
}

/// The first word of `s` (up to the first space).
pub open spec fn first_word(s: Seq<char>) -> Seq<char> {
    let i = index_of(s, ' ');
    if i < 0 {
        s
    } else {
        s.take(i)
    }
}

/// What follows the first space of `s`, if there is one.
pub open spec fn after_first_space(s: Seq<char>) -> Option<Seq<char>> {
    let i = index_of(s, ' ');
    if i < 0 {
        None
    } else {
        Some(s.skip(i + 1))
    }
}

/// The action that an action string names; the keyword is case-insensitive.
pub open spec fn spec_action(s: Seq<char>) -> Option<(int, int, Seq<char>)> {
    let u = unicode_upper(s);
    let w = first_word(u);
    if w == "NEXTWINDOW"@ {
        Some((0, 0, seq![]))
    } else if w == "PREVWINDOW"@ || w == "PREVIOUSWINDOW"@ {
        Some((1, 0, seq![]))
    } else if w == "CLOSE"@ {
        Some((2, 0, seq![]))
    } else if w == "ICONIFY"@ || w == "MINIMIZE"@ {
        Some((3, 0, seq![]))
    } else if w == "MAXIMIZE"@ || w == "MAXIMIZEWINDOW"@ || w == "FULLSCREEN"@ {
        Some((4, 0, seq![]))
    } else if w == "MOVEWINDOW"@ || w == "MOVE"@ {
        Some((5, 0, seq![]))
    } else if w == "RESIZEWINDOW"@ || w == "RESIZE"@ {
        Some((6, 0, seq![]))
    } else if w == "GOTOWORKSPACE"@ || w == "WORKSPACE"@ {
        match after_first_space(u) {
            Some(rest) => match parse_unsigned(rest, 10, usize::MAX as nat) {
                Some(n) => Some((7, n as int, seq![])),
                None => None,
            },
            None => None,
        }
    } else if w == "NEXTWORKSPACE"@ || w == "GOTONEXTWORKSPACE"@ {
        Some((8, 0, seq![]))
    } else if w == "PREVWORKSPACE"@ || w == "GOTOPREVWORKSPACE"@ {
        Some((9, 0, seq![]))
    } else if w == "SHOWMENU"@ || w == "ROOTMENU"@ {
        Some((10, 0, seq![]))
    } else if w == "EXIT"@ || w == "QUIT"@ {
        Some((11, 0, seq![]))
    } else if w == "EXEC"@ || w == "EXECUTE"@ {
        match after_first_space(s) {
            Some(rest) => Some((12, 0, trim(rest))),
            None => Some((12, 0, seq![])),
        }
    } else {
        None
    }
}

/// The action that an action string names.
pub fn parse_action(action_str: &str) -> (r: Option<KeyAction>)
    ensures
        match spec_action(action_str@) {
            Some(a) => r is Some && action_view(r->0) == a,
            None => r is None,
        },
{
    let upper = to_uppercase(action_str);
    let u = to_chars(upper.as_str());
    let n = u.len();
    let sp = find_char(&u, 0, n, ' ');
    let w_end = match sp {
        Some(i) => i,
        None => n,
    };
    proof {
        assert(u@.subrange(0, n as int) =~= u@);
        assert(u@.subrange(0, w_end as int) =~= first_word(u@));
    }
    if range_eq(&u, 0, w_end, "NEXTWINDOW") {
        Some(KeyAction::NextWindow)
    } else if range_eq(&u, 0, w_end, "PREVWINDOW") || range_eq(&u, 0, w_end, "PREVIOUSWINDOW") {
        Some(KeyAction::PrevWindow)
    } else if range_eq(&u, 0, w_end, "CLOSE") {
        Some(KeyAction::Close)
    } else if range_eq(&u, 0, w_end, "ICONIFY") || range_eq(&u, 0, w_end, "MINIMIZE") {
        Some(KeyAction::Iconify)
    } else if range_eq(&u, 0, w_end, "MAXIMIZE") || range_eq(&u, 0, w_end, "MAXIMIZEWINDOW")
        || range_eq(&u, 0, w_end, "FULLSCREEN") {
        Some(KeyAction::Maximize)
    } else if range_eq(&u, 0, w_end, "MOVEWINDOW") || range_eq(&u, 0, w_end, "MOVE") {
        Some(KeyAction::Move)
    } else if range_eq(&u, 0, w_end, "RESIZEWINDOW") || range_eq(&u, 0, w_end, "RESIZE") {
        Some(KeyAction::Resize)
    } else if range_eq(&u, 0, w_end, "GOTOWORKSPACE") || range_eq(&u, 0, w_end, "WORKSPACE") {
        match sp {
            Some(i) => {
                proof {
                    assert(u@.subrange(i + 1, n as int) =~= u@.skip(i + 1));
                }
                match parse_unsigned_range(&u, i + 1, n, 10, usize::MAX as u64) {
                    Some(x) => Some(KeyAction::GoToWorkspace(x as usize)),
                    None => None,
                }
            },
            None => None,
        }
    } else if range_eq(&u, 0, w_end, "NEXTWORKSPACE") || range_eq(&u, 0, w_end, "GOTONEXTWORKSPACE") {
        Some(KeyAction::GoToNextWorkspace)
    } else if range_eq(&u, 0, w_end, "PREVWORKSPACE") || range_eq(&u, 0, w_end, "GOTOPREVWORKSPACE") {
        Some(KeyAction::GoToPrevWorkspace)
    } else if range_eq(&u, 0, w_end, "SHOWMENU") || range_eq(&u, 0, w_end, "ROOTMENU") {
        Some(KeyAction::ShowMenu)
    } else if range_eq(&u, 0, w_end, "EXIT") || range_eq(&u, 0, w_end, "QUIT") {
        Some(KeyAction::Exit)
    } else if range_eq(&u, 0, w_end, "EXEC") || range_eq(&u, 0, w_end, "EXECUTE") {
        let v = to_chars(action_str);
        let m = v.len();
        proof {
            assert(v@.subrange(0, m as int) =~= v@);
        }
        match find_char(&v, 0, m, ' ') {
            Some(i) => {
                let (a, b) = trim_range(&v, i + 1, m);
                proof {
                    assert(v@.subrange(i + 1, m as int) =~= v@.skip(i + 1));
                }
                Some(KeyAction::Exec(string_of(&v, a, b)))
            },
            None => Some(KeyAction::Exec(String::new())),
        }
    } else {
        None
    }
}

/// Combine two modifier masks (bitwise OR).
pub fn combine_modmask(a: u16, b: u16) -> (r: u16)
    ensures
        r == a | b,
{
    a | b
}

/// The modifier bit that a key-file word names, if it names one.
pub open spec fn modifier_bit(w: Seq<char>) -> Option<u16> {
    if w == "Mod1"@ || w == "Alt"@ {
        Some(MOD_1)
    } else if w == "Mod2"@ {
        Some(MOD_2)
    } else if w == "Mod3"@ {
        Some(MOD_3)
    } else if w == "Mod4"@ || w == "Super"@ || w == "Win"@ {
        Some(MOD_4)
    } else if w == "Mod5"@ {
        Some(MOD_5)
    } else if w == "Control"@ || w == "Ctrl"@ {
        Some(MOD_CONTROL)
    } else if w == "Shift"@ {
        Some(MOD_SHIFT)
    } else {
        None
    }
}

fn modifier_bit_exec(v: &Vec<char>, lo: usize, hi: usize) -> (r: Option<u16>)
    requires
        lo <= hi <= v@.len(),
    ensures
        r == modifier_bit(v@.subrange(lo as int, hi as int)),
{
    if range_eq(v, lo, hi, "Mod1") || range_eq(v, lo, hi, "Alt") {
        Some(MOD_1)
    } else if range_eq(v, lo, hi, "Mod2") {
        Some(MOD_2)
    } else if range_eq(v, lo, hi, "Mod3") {
        Some(MOD_3)
    } else if range_eq(v, lo, hi, "Mod4") || range_eq(v, lo, hi, "Super") || range_eq(
        v,
        lo,
        hi,
        "Win",
    ) {
        Some(MOD_4)
    } else if range_eq(v, lo, hi, "Mod5") {
        Some(MOD_5)
    } else if range_eq(v, lo, hi, "Control") || range_eq(v, lo, hi, "Ctrl") {
        Some(MOD_CONTROL)
    } else if range_eq(v, lo, hi, "Shift") {
        Some(MOD_SHIFT)
    } else {
        None
    }
}

/// The built-in Fluxbox-like shortcuts.
pub fn default_bindings() -> (r: Vec<(u16, String, KeyAction)>)
    ensures
        r@.len() == 12,
        r@[0].0 == MOD_1 && r@[0].2 == KeyAction::NextWindow,
        r@[1].0 == (MOD_1 | MOD_SHIFT) && r@[1].2 == KeyAction::PrevWindow,
        r@[2].2 == KeyAction::Close,
        r@[3].2 == KeyAction::Iconify,
        r@[4].2 == KeyAction::Maximize,
        r@[5].2 == KeyAction::GoToPrevWorkspace,
        r@[6].2 == KeyAction::GoToNextWorkspace,
        r@[7].2 == KeyAction::GoToWorkspace(1),
        r@[8].2 == KeyAction::GoToWorkspace(2),
        r@[9].2 == KeyAction::GoToWorkspace(3),
        r@[10].2 == KeyAction::GoToWorkspace(4),
        r@[11].2 == KeyAction::ShowMenu,
        forall|i: int| 0 <= i < 12 && i != 1 ==> (#[trigger] r@[i]).0 == MOD_1,
{
    let mut v: Vec<(u16, String, KeyAction)> = Vec::new();
    v.push((MOD_1, String::from_str("Tab"), KeyAction::NextWindow));
    v.push((combine_modmask(MOD_1, MOD_SHIFT), String::from_str("Tab"), KeyAction::PrevWindow));
    v.push((MOD_1, String::from_str("F4"), KeyAction::Close));
    v.push((MOD_1, String::from_str("F9"), KeyAction::Iconify));
    v.push((MOD_1, String::from_str("F10"), KeyAction::Maximize));
    v.push((MOD_1, String::from_str("Left"), KeyAction::GoToPrevWorkspace));
    v.push((MOD_1, String::from_str("Right"), KeyAction::GoToNextWorkspace));
    v.push((MOD_1, String::from_str("F1"), KeyAction::GoToWorkspace(1)));
    v.push((MOD_1, String::from_str("F2"), KeyAction::GoToWorkspace(2)));
    v.push((MOD_1, String::from_str("F3"), KeyAction::GoToWorkspace(3)));
    v.push((MOD_1, String::from_str("F4"), KeyAction::GoToWorkspace(4)));
    v.push((MOD_1, String::from_str("space"), KeyAction::ShowMenu));
    v
}

/// Whether a binding fires for a key event, ignoring the lock modifiers.
pub open spec fn binding_matches(b: KeyBinding, state: u16, detail: u8) -> bool {
    b.keycode == detail && (b.modmask & !LOCK_MASK) == (state & !LOCK_MASK)
}

/// The action of the first binding that matches the key event.
pub fn match_key<'a>(bindings: &'a [KeyBinding], state: u16, detail: u8) -> (r: Option<
    &'a KeyAction,
>)
    ensures
        match r {
            Some(a) => exists|i: int|
                0 <= i < bindings@.len() && binding_matches(#[trigger] bindings@[i], state, detail)
                    && *a == bindings@[i].action && forall|j: int|
                    0 <= j < i ==> !binding_matches(#[trigger] bindings@[j], state, detail),
            None => forall|i: int|
                0 <= i < bindings@.len() ==> !binding_matches(#[trigger] bindings@[i], state, detail),
        },
{
    let state_masked = state & !LOCK_MASK;
    let mut i: usize = 0;
    while i < bindings.len()
        invariant
            i <= bindings@.len(),
            state_masked == state & !LOCK_MASK,
            forall|j: int| 0 <= j < i ==> !binding_matches(#[trigger] bindings@[j], state, detail),
        decreases bindings@.len() - i,
    {
        let b = &bindings[i];
        if b.keycode == detail && (b.modmask & !LOCK_MASK) == state_masked {
            assert(binding_matches(bindings@[i as int], state, detail));
            return Some(&b.action);
        }
        i = i + 1;
    }
    None
}

/// The keycode whose keysym list (in an X keyboard mapping starting at
/// keycode `first`, `per` keysyms per keycode) contains `keysym`.
pub open spec fn spec_keycode_for(first: u8, per: nat, keysyms: Seq<u32>, keysym: u32) -> Option<
    int,
> {
    if exists|i: int| 0 <= i < keysyms.len() && keysyms[i] == keysym {
        let i = choose|i: int|
            0 <= i < keysyms.len() && keysyms[i] == keysym && forall|j: int|
                0 <= j < i ==> keysyms[j] != keysym;
        Some(first + i / (per as int))
    } else {
        None
    }
}

/// Search a keyboard mapping for the first keycode that produces `keysym`.
pub fn keycode_for_keysym(first: u8, per: usize, keysyms: &[u32], keysym: u32) -> (r: Option<u8>)
    requires
        per > 0,
        keysyms@.len() <= (256 - first) * per,
    ensures
        match spec_keycode_for(first, per as nat, keysyms@, keysym) {
            Some(k) => r == Some(k as u8),
            None => r is None,
        },
{
    let mut i: usize = 0;
    while i < keysyms.len()
        invariant
            i <= keysyms@.len(),
            per > 0,
            keysyms@.len() <= (256 - first) * per,
            forall|j: int| 0 <= j < i ==> keysyms@[j] != keysym,
        decreases keysyms@.len() - i,
    {
        if keysyms[i] == keysym {
            proof {
                let k = choose|k: int|
                    0 <= k < keysyms@.len() && keysyms@[k] == keysym && forall|j: int|
                        0 <= j < k ==> keysyms@[j] != keysym;
                assert(0 <= i < keysyms@.len() && keysyms@[i as int] == keysym);
                if k < i {
                } else if k > i {
                }
                assert(k == i);
                assert(first + (i as int) / (per as int) <= 255) by (nonlinear_arith)
                    requires
                        i < keysyms@.len(),
                        keysyms@.len() <= (256 - first) * per,
                        per > 0,
                        first <= 255,
                ;
            }
            return Some(first + (i / per) as u8);
        }
        i = i + 1;
    }
    None
}


/// Modifier mask and key name of the words before the `:` of a key-file
/// line: modifier words OR their bit in, any other word becomes the key.
pub open spec fn fold_key_words(ws: Seq<Seq<char>>) -> (u16, Seq<char>)
    decreases ws.len(),
{
    if ws.len() == 0 {
        (0u16, seq![])
    } else {
        let (m, name) = fold_key_words(ws.drop_last());
        match modifier_bit(ws.last()) {
            Some(b) => ((m | b), name),
            None => (m, ws.last()),
        }
    }
}

/// The binding that one key-file line declares (`Mod1 Tab :NextWindow`),
/// if it declares one.
pub open spec fn key_line(line: Seq<char>) -> Option<(u16, Seq<char>, (int, int, Seq<char>))> {
    let t = trim(line);
    if t.len() == 0 || t[0] == '#' || (t.len() >= 2 && t.take(2) == "//"@) {
        None
    } else {
        let i = index_of(t, ':');
        if i < 0 {
            None
        } else {
            let (m, name) = fold_key_words(words_of(trim(t.take(i))));
            match spec_action(trim(t.skip(i + 1))) {
                Some(a) => Some((m, name, a)),
                None => None,
            }
        }
    }
}

/// The bindings of a sequence of key-file lines, in order.
pub open spec fn keys_of(ls: Seq<Seq<char>>) -> Seq<(u16, Seq<char>, (int, int, Seq<char>))>
    decreases ls.len(),
{
    if ls.len() == 0 {
        seq![]
    } else {
        let p = keys_of(ls.drop_last());
        match key_line(ls.last()) {
            Some(k) => p.push(k),
            None => p,
        }
    }
}

/// How a parsed binding is viewed.
pub open spec fn binding_view(b: (u16, String, KeyAction)) -> (u16, Seq<char>, (int, int, Seq<char>)) {
    (b.0, b.1@, action_view(b.2))
}

fn key_line_exec(v: &Vec<char>) -> (r: Option<(u16, String, KeyAction)>)
    ensures
        match key_line(v@) {
            Some(k) => r is Some && binding_view(r->0) == k,
            None => r is None,
        },
{
    let n = v.len();
    let (a, b) = trim_range(v, 0, n);
    proof {
        assert(v@.subrange(0, n as int) =~= v@);
        reveal_strlit("//");
    }
    let ghost t = v@.subrange(a as int, b as int);
    if a == b || v[a] == '#' || range_starts_with(v, a, b, "//") {
        proof {
            if a < b && b - a >= 2 {
                assert(t.take(2) =~= v@.subrange(a as int, a + 2));
            }
        }
        return None;
    }
    proof {
        if b - a >= 2 {
            assert(t.take(2) =~= v@.subrange(a as int, a + 2));
        }
    }
    match find_char(v, a, b, ':') {
        None => None,
        Some(i) => {
            let (ka, kb) = trim_range(v, a, i);
            let (aa, ab) = trim_range(v, i + 1, b);
            proof {
                assert(t.take(i - a) =~= v@.subrange(a as int, i as int));
                assert(t.skip(i - a + 1) =~= v@.subrange(i + 1, b as int));
            }
            let words = word_ranges(v, ka, kb);
            let mut m: u16 = 0;
            let mut name = String::new();
            let mut k: usize = 0;
            let ghost ws = words_of(v@.subrange(ka as int, kb as int));
            while k < words.len()
                invariant
                    k <= words@.len(),
                    words@.len() == ws.len(),
                    ka <= kb <= v@.len(),
                    forall|j: int|
                        0 <= j < words@.len() ==> ka <= (#[trigger] words@[j]).0 <= words@[j].1
                            <= kb && v@.subrange(words@[j].0 as int, words@[j].1 as int) == ws[j],
                    (m, name@) == fold_key_words(ws.take(k as int)),
                decreases words@.len() - k,
            {
                let (wa, wb) = words[k];
                proof {
                    assert(ws.take(k + 1).drop_last() =~= ws.take(k as int));
                    assert(ws.take(k + 1).last() == ws[k as int]);
                }
                match modifier_bit_exec(v, wa, wb) {
                    Some(bit) => {
                        m = combine_modmask(m, bit);
                    },
                    None => {
                        name = string_of(v, wa, wb);
                    },
                }
                k = k + 1;
            }
            assert(ws.take(words@.len() as int) =~= ws);
            let act = string_of(v, aa, ab);
            match parse_action(act.as_str()) {
                Some(action) => Some((m, name, action)),
                None => None,
            }
        },
    }
}

/// Parse the contents of a Fluxbox-format keys file (`Mod1 Tab :NextWindow`
/// per line; `#` and `//` start comments) into bindings, in file order.
pub fn parse_keys(content: &str) -> (r: Vec<(u16, String, KeyAction)>)
    ensures
        r@.map_values(|b: (u16, String, KeyAction)| binding_view(b)) == keys_of(
            lines_of(content@),
        ),
{
    let ls = lines(content);
    let ghost lsv = lines_of(content@);
    let mut out: Vec<(u16, String, KeyAction)> = Vec::new();
    let mut i: usize = 0;
    while i < ls.len()
        invariant
            i <= ls@.len(),
            ls@.len() == lsv.len(),
            forall|j: int| 0 <= j < ls@.len() ==> #[trigger] ls@[j]@ == lsv[j],
            out@.map_values(|b: (u16, String, KeyAction)| binding_view(b)) == keys_of(
                lsv.take(i as int),
            ),
        decreases ls@.len() - i,
    {
        let ghost prev = out@;
        let k = key_line_exec(&ls[i]);
        proof {
            assert(lsv.take(i + 1).drop_last() =~= lsv.take(i as int));
            assert(lsv.take(i + 1).last() == ls@[i as int]@);
        }
        match k {
            Some(b) => {
                out.push(b);
                assert(out@.map_values(|b: (u16, String, KeyAction)| binding_view(b)) =~= prev.map_values(
                    |b: (u16, String, KeyAction)| binding_view(b),
                ).push(binding_view(out@[i as int - i as int + prev.len() as int])));
            },
            None => {},
        }
        i = i + 1;
    }
    assert(lsv.take(ls@.len() as int) =~= lsv);
    out
}


/// The bindings that resolve to a keycode in the given keyboard mapping, in
/// order; names that denote no keysym, or keysyms that no key produces, are
/// left out.
pub open spec fn resolved_of(
    bs: Seq<(u16, String, KeyAction)>,
    first: u8,
    per: nat,
    keysyms: Seq<u32>,
) -> Seq<(u16, u8, KeyAction)>
    decreases bs.len(),
{
    if bs.len() == 0 {
        seq![]
    } else {
        let p = resolved_of(bs.drop_last(), first, per, keysyms);
        let b = bs.last();
        match spec_key_name(b.1@) {
            Some(ks) => match spec_keycode_for(first, per, keysyms, ks) {
                Some(kc) => p.push((b.0, kc as u8, b.2)),
                None => p,
            },
            None => p,
        }
    }
}

/// Resolve key names to keycodes against a keyboard mapping (the keysyms of
/// keycodes `first..`, `per` per keycode), without registering grabs.
pub fn resolve_bindings(
    bindings: &[(u16, String, KeyAction)],
    first: u8,
    per: usize,
    keysyms: &[u32],
) -> (r: Vec<KeyBinding>)
    requires
        per > 0,
        keysyms@.len() <= (256 - first) * per,
    ensures
        r@.map_values(|k: KeyBinding| (k.modmask, k.keycode, k.action)) == resolved_of(
            bindings@,
            first,
            per as nat,
            keysyms@,
        ),
{
    let mut out: Vec<KeyBinding> = Vec::new();
    let mut i: usize = 0;
    while i < bindings.len()
        invariant
            i <= bindings@.len(),
            per > 0,
            keysyms@.len() <= (256 - first) * per,
            out@.map_values(|k: KeyBinding| (k.modmask, k.keycode, k.action)) == resolved_of(
                bindings@.take(i as int),
                first,
                per as nat,
                keysyms@,
            ),
        decreases bindings@.len() - i,
    {
        let ghost prev = out@;
        proof {
            assert(bindings@.take(i + 1).drop_last() =~= bindings@.take(i as int));
            assert(bindings@.take(i + 1).last() == bindings@[i as int]);
        }
        let (modmask, name, action) = &bindings[i];
        match parse_key_name(name.as_str()) {
            Some(ks) => match keycode_for_keysym(first, per, keysyms, ks) {
                Some(kc) => {
                    out.push(KeyBinding { modmask: *modmask, keycode: kc, action: action.duplicate() });
                    proof {
                        assert(out@.map_values(|k: KeyBinding| (k.modmask, k.keycode, k.action))
                            =~= prev.map_values(|k: KeyBinding| (k.modmask, k.keycode, k.action)).push(
                            (*modmask, kc, *action),
                        ));
                    }
                },
                None => {},
            },
            None => {},
        }
        i = i + 1;
    }
    assert(bindings@.take(bindings@.len() as int) =~= bindings@);
    out
}

/// The keywords of the action language: for every action string, the first
/// word, taken without regard to letter case, decides the action. Each named
/// action comes exactly from its own keywords (`close` gives `Close` and
/// nothing else gives it), `workspace` / `gotoworkspace` and `exec` /
/// `execute` are the only words that give a workspace switch or a command.
pub proof fn lemma_action_keywords(s: Seq<char>)
    ensures
        (first_word(unicode_upper(s)) == "NEXTWINDOW"@)
            <==> spec_action(s) == Some(action_view(KeyAction::NextWindow)),
        (first_word(unicode_upper(s)) == "PREVWINDOW"@ || first_word(unicode_upper(s)) == "PREVIOUSWINDOW"@)
            <==> spec_action(s) == Some(action_view(KeyAction::PrevWindow)),
        (first_word(unicode_upper(s)) == "CLOSE"@)
            <==> spec_action(s) == Some(action_view(KeyAction::Close)),
        (first_word(unicode_upper(s)) == "ICONIFY"@ || first_word(unicode_upper(s)) == "MINIMIZE"@)
            <==> spec_action(s) == Some(action_view(KeyAction::Iconify)),
        (first_word(unicode_upper(s)) == "MAXIMIZE"@ || first_word(unicode_upper(s)) == "MAXIMIZEWINDOW"@ || first_word(unicode_upper(s)) == "FULLSCREEN"@)
            <==> spec_action(s) == Some(action_view(KeyAction::Maximize)),
        (first_word(unicode_upper(s)) == "MOVEWINDOW"@ || first_word(unicode_upper(s)) == "MOVE"@)
            <==> spec_action(s) == Some(action_view(KeyAction::Move)),
        (first_word(unicode_upper(s)) == "RESIZEWINDOW"@ || first_word(unicode_upper(s)) == "RESIZE"@)
            <==> spec_action(s) == Some(action_view(KeyAction::Resize)),
        (first_word(unicode_upper(s)) == "NEXTWORKSPACE"@ || first_word(unicode_upper(s)) == "GOTONEXTWORKSPACE"@)
            <==> spec_action(s) == Some(action_view(KeyAction::GoToNextWorkspace)),
        (first_word(unicode_upper(s)) == "PREVWORKSPACE"@ || first_word(unicode_upper(s)) == "GOTOPREVWORKSPACE"@)
            <==> spec_action(s) == Some(action_view(KeyAction::GoToPrevWorkspace)),
        (first_word(unicode_upper(s)) == "SHOWMENU"@ || first_word(unicode_upper(s)) == "ROOTMENU"@)
            <==> spec_action(s) == Some(action_view(KeyAction::ShowMenu)),
        (first_word(unicode_upper(s)) == "EXIT"@ || first_word(unicode_upper(s)) == "QUIT"@)
            <==> spec_action(s) == Some(action_view(KeyAction::Exit)),
        (spec_action(s) is Some && (spec_action(s)->0).0 == 7) ==> (first_word(unicode_upper(s)) == "GOTOWORKSPACE"@ || first_word(unicode_upper(s)) == "WORKSPACE"@),
        (first_word(unicode_upper(s)) == "EXEC"@ || first_word(unicode_upper(s)) == "EXECUTE"@)
            <==> (spec_action(s) is Some && (spec_action(s)->0).0 == 12),
{
    reveal_strlit("NEXTWINDOW");
    reveal_strlit("PREVWINDOW");
    reveal_strlit("PREVIOUSWINDOW");
    reveal_strlit("CLOSE");
    reveal_strlit("ICONIFY");
    reveal_strlit("MINIMIZE");
    reveal_strlit("MAXIMIZE");
    reveal_strlit("MAXIMIZEWINDOW");
    reveal_strlit("FULLSCREEN");
    reveal_strlit("MOVEWINDOW");
    reveal_strlit("MOVE");
    reveal_strlit("RESIZEWINDOW");
    reveal_strlit("RESIZE");
    reveal_strlit("GOTOWORKSPACE");
    reveal_strlit("WORKSPACE");
    reveal_strlit("NEXTWORKSPACE");
    reveal_strlit("GOTONEXTWORKSPACE");
    reveal_strlit("PREVWORKSPACE");
    reveal_strlit("GOTOPREVWORKSPACE");
    reveal_strlit("SHOWMENU");
    reveal_strlit("ROOTMENU");
    reveal_strlit("EXIT");
    reveal_strlit("QUIT");
    reveal_strlit("EXEC");
    reveal_strlit("EXECUTE");
    let w = first_word(unicode_upper(s));
    if w == "NEXTWINDOW"@ {

    }
    if w == "PREVWINDOW"@ {
        assert("PREVWINDOW"@[0] != "NEXTWINDOW"@[0]);
        assert(w != "NEXTWINDOW"@);
    }
    if w == "PREVIOUSWINDOW"@ {
        assert(w != "NEXTWINDOW"@ && w != "PREVWINDOW"@);
    }
    if w == "CLOSE"@ {
        assert(w != "NEXTWINDOW"@ && w != "PREVWINDOW"@ && w != "PREVIOUSWINDOW"@);
    }
    if w == "ICONIFY"@ {
        assert(w != "NEXTWINDOW"@ && w != "PREVWINDOW"@ && w != "PREVIOUSWINDOW"@ && w != "CLOSE"@);
    }
    if w == "MINIMIZE"@ {
        assert(w != "NEXTWINDOW"@ && w != "PREVWINDOW"@ && w != "PREVIOUSWINDOW"@ && w != "CLOSE"@ && w != "ICONIFY"@);
    }
    if w == "MAXIMIZE"@ {
        assert("MAXIMIZE"@[1] != "MINIMIZE"@[1]);
        assert(w != "NEXTWINDOW"@ && w != "PREVWINDOW"@ && w != "PREVIOUSWINDOW"@ && w != "CLOSE"@ && w != "ICONIFY"@ && w != "MINIMIZE"@);
    }
    if w == "MAXIMIZEWINDOW"@ {
        assert("MAXIMIZEWINDOW"@[0] != "PREVIOUSWINDOW"@[0]);
        assert(w != "NEXTWINDOW"@ && w != "PREVWINDOW"@ && w != "PREVIOUSWINDOW"@ && w != "CLOSE"@ && w != "ICONIFY"@ && w != "MINIMIZE"@ && w != "MAXIMIZE"@);
    }
    if w == "FULLSCREEN"@ {
        assert("FULLSCREEN"@[0] != "NEXTWINDOW"@[0]);
        assert("FULLSCREEN"@[0] != "PREVWINDOW"@[0]);
        assert(w != "NEXTWINDOW"@ && w != "PREVWINDOW"@ && w != "PREVIOUSWINDOW"@ && w != "CLOSE"@ && w != "ICONIFY"@ && w != "MINIMIZE"@ && w != "MAXIMIZE"@ && w != "MAXIMIZEWINDOW"@);
    }
    if w == "MOVEWINDOW"@ {
        assert("MOVEWINDOW"@[0] != "NEXTWINDOW"@[0]);
        assert("MOVEWINDOW"@[0] != "PREVWINDOW"@[0]);
        assert("MOVEWINDOW"@[0] != "FULLSCREEN"@[0]);
        assert(w != "NEXTWINDOW"@ && w != "PREVWINDOW"@ && w != "PREVIOUSWINDOW"@ && w != "CLOSE"@ && w != "ICONIFY"@ && w != "MINIMIZE"@ && w != "MAXIMIZE"@ && w != "MAXIMIZEWINDOW"@ && w != "FULLSCREEN"@);
    }
    if w == "MOVE"@ {
        assert(w != "NEXTWINDOW"@ && w != "PREVWINDOW"@ && w != "PREVIOUSWINDOW"@ && w != "CLOSE"@ && w != "ICONIFY"@ && w != "MINIMIZE"@ && w != "MAXIMIZE"@ && w != "MAXIMIZEWINDOW"@ && w != "FULLSCREEN"@ && w != "MOVEWINDOW"@);
    }
    if w == "RESIZEWINDOW"@ {
        assert(w != "NEXTWINDOW"@ && w != "PREVWINDOW"@ && w != "PREVIOUSWINDOW"@ && w != "CLOSE"@ && w != "ICONIFY"@ && w != "MINIMIZE"@ && w != "MAXIMIZE"@ && w != "MAXIMIZEWINDOW"@ && w != "FULLSCREEN"@ && w != "MOVEWINDOW"@ && w != "MOVE"@);
    }
    if w == "RESIZE"@ {
        assert(w != "NEXTWINDOW"@ && w != "PREVWINDOW"@ && w != "PREVIOUSWINDOW"@ && w != "CLOSE"@ && w != "ICONIFY"@ && w != "MINIMIZE"@ && w != "MAXIMIZE"@ && w != "MAXIMIZEWINDOW"@ && w != "FULLSCREEN"@ && w != "MOVEWINDOW"@ && w != "MOVE"@ && w != "RESIZEWINDOW"@);
    }
    if w == "GOTOWORKSPACE"@ {
        assert(w != "NEXTWINDOW"@ && w != "PREVWINDOW"@ && w != "PREVIOUSWINDOW"@ && w != "CLOSE"@ && w != "ICONIFY"@ && w != "MINIMIZE"@ && w != "MAXIMIZE"@ && w != "MAXIMIZEWINDOW"@ && w != "FULLSCREEN"@ && w != "MOVEWINDOW"@ && w != "MOVE"@ && w != "RESIZEWINDOW"@ && w != "RESIZE"@);
    }
    if w == "WORKSPACE"@ {
        assert(w != "NEXTWINDOW"@ && w != "PREVWINDOW"@ && w != "PREVIOUSWINDOW"@ && w != "CLOSE"@ && w != "ICONIFY"@ && w != "MINIMIZE"@ && w != "MAXIMIZE"@ && w != "MAXIMIZEWINDOW"@ && w != "FULLSCREEN"@ && w != "MOVEWINDOW"@ && w != "MOVE"@ && w != "RESIZEWINDOW"@ && w != "RESIZE"@ && w != "GOTOWORKSPACE"@);
    }
    if w == "NEXTWORKSPACE"@ {
        assert("NEXTWORKSPACE"@[0] != "GOTOWORKSPACE"@[0]);
        assert(w != "NEXTWINDOW"@ && w != "PREVWINDOW"@ && w != "PREVIOUSWINDOW"@ && w != "CLOSE"@ && w != "ICONIFY"@ && w != "MINIMIZE"@ && w != "MAXIMIZE"@ && w != "MAXIMIZEWINDOW"@ && w != "FULLSCREEN"@ && w != "MOVEWINDOW"@ && w != "MOVE"@ && w != "RESIZEWINDOW"@ && w != "RESIZE"@ && w != "GOTOWORKSPACE"@ && w != "WORKSPACE"@);
    }
    if w == "GOTONEXTWORKSPACE"@ {
        assert(w != "NEXTWINDOW"@ && w != "PREVWINDOW"@ && w != "PREVIOUSWINDOW"@ && w != "CLOSE"@ && w != "ICONIFY"@ && w != "MINIMIZE"@ && w != "MAXIMIZE"@ && w != "MAXIMIZEWINDOW"@ && w != "FULLSCREEN"@ && w != "MOVEWINDOW"@ && w != "MOVE"@ && w != "RESIZEWINDOW"@ && w != "RESIZE"@ && w != "GOTOWORKSPACE"@ && w != "WORKSPACE"@ && w != "NEXTWORKSPACE"@);
    }
    if w == "PREVWORKSPACE"@ {
        assert("PREVWORKSPACE"@[0] != "GOTOWORKSPACE"@[0]);
        assert("PREVWORKSPACE"@[0] != "NEXTWORKSPACE"@[0]);
        assert(w != "NEXTWINDOW"@ && w != "PREVWINDOW"@ && w != "PREVIOUSWINDOW"@ && w != "CLOSE"@ && w != "ICONIFY"@ && w != "MINIMIZE"@ && w != "MAXIMIZE"@ && w != "MAXIMIZEWINDOW"@ && w != "FULLSCREEN"@ && w != "MOVEWINDOW"@ && w != "MOVE"@ && w != "RESIZEWINDOW"@ && w != "RESIZE"@ && w != "GOTOWORKSPACE"@ && w != "WORKSPACE"@ && w != "NEXTWORKSPACE"@ && w != "GOTONEXTWORKSPACE"@);
    }
    if w == "GOTOPREVWORKSPACE"@ {
        assert("GOTOPREVWORKSPACE"@[4] != "GOTONEXTWORKSPACE"@[4]);
        assert(w != "NEXTWINDOW"@ && w != "PREVWINDOW"@ && w != "PREVIOUSWINDOW"@ && w != "CLOSE"@ && w != "ICONIFY"@ && w != "MINIMIZE"@ && w != "MAXIMIZE"@ && w != "MAXIMIZEWINDOW"@ && w != "FULLSCREEN"@ && w != "MOVEWINDOW"@ && w != "MOVE"@ && w != "RESIZEWINDOW"@ && w != "RESIZE"@ && w != "GOTOWORKSPACE"@ && w != "WORKSPACE"@ && w != "NEXTWORKSPACE"@ && w != "GOTONEXTWORKSPACE"@ && w != "PREVWORKSPACE"@);
    }
    if w == "SHOWMENU"@ {
        assert("SHOWMENU"@[0] != "MINIMIZE"@[0]);
        assert("SHOWMENU"@[0] != "MAXIMIZE"@[0]);
        assert(w != "NEXTWINDOW"@ && w != "PREVWINDOW"@ && w != "PREVIOUSWINDOW"@ && w != "CLOSE"@ && w != "ICONIFY"@ && w != "MINIMIZE"@ && w != "MAXIMIZE"@ && w != "MAXIMIZEWINDOW"@ && w != "FULLSCREEN"@ && w != "MOVEWINDOW"@ && w != "MOVE"@ && w != "RESIZEWINDOW"@ && w != "RESIZE"@ && w != "GOTOWORKSPACE"@ && w != "WORKSPACE"@ && w != "NEXTWORKSPACE"@ && w != "GOTONEXTWORKSPACE"@ && w != "PREVWORKSPACE"@ && w != "GOTOPREVWORKSPACE"@);
    }
    if w == "ROOTMENU"@ {
        assert("ROOTMENU"@[0] != "MINIMIZE"@[0]);
        assert("ROOTMENU"@[0] != "MAXIMIZE"@[0]);
        assert("ROOTMENU"@[0] != "SHOWMENU"@[0]);
        assert(w != "NEXTWINDOW"@ && w != "PREVWINDOW"@ && w != "PREVIOUSWINDOW"@ && w != "CLOSE"@ && w != "ICONIFY"@ && w != "MINIMIZE"@ && w != "MAXIMIZE"@ && w != "MAXIMIZEWINDOW"@ && w != "FULLSCREEN"@ && w != "MOVEWINDOW"@ && w != "MOVE"@ && w != "RESIZEWINDOW"@ && w != "RESIZE"@ && w != "GOTOWORKSPACE"@ && w != "WORKSPACE"@ && w != "NEXTWORKSPACE"@ && w != "GOTONEXTWORKSPACE"@ && w != "PREVWORKSPACE"@ && w != "GOTOPREVWORKSPACE"@ && w != "SHOWMENU"@);
    }
    if w == "EXIT"@ {
        assert("EXIT"@[0] != "MOVE"@[0]);
        assert(w != "NEXTWINDOW"@ && w != "PREVWINDOW"@ && w != "PREVIOUSWINDOW"@ && w != "CLOSE"@ && w != "ICONIFY"@ && w != "MINIMIZE"@ && w != "MAXIMIZE"@ && w != "MAXIMIZEWINDOW"@ && w != "FULLSCREEN"@ && w != "MOVEWINDOW"@ && w != "MOVE"@ && w != "RESIZEWINDOW"@ && w != "RESIZE"@ && w != "GOTOWORKSPACE"@ && w != "WORKSPACE"@ && w != "NEXTWORKSPACE"@ && w != "GOTONEXTWORKSPACE"@ && w != "PREVWORKSPACE"@ && w != "GOTOPREVWORKSPACE"@ && w != "SHOWMENU"@ && w != "ROOTMENU"@);
    }
    if w == "QUIT"@ {
        assert("QUIT"@[0] != "MOVE"@[0]);
        assert("QUIT"@[0] != "EXIT"@[0]);
        assert(w != "NEXTWINDOW"@ && w != "PREVWINDOW"@ && w != "PREVIOUSWINDOW"@ && w != "CLOSE"@ && w != "ICONIFY"@ && w != "MINIMIZE"@ && w != "MAXIMIZE"@ && w != "MAXIMIZEWINDOW"@ && w != "FULLSCREEN"@ && w != "MOVEWINDOW"@ && w != "MOVE"@ && w != "RESIZEWINDOW"@ && w != "RESIZE"@ && w != "GOTOWORKSPACE"@ && w != "WORKSPACE"@ && w != "NEXTWORKSPACE"@ && w != "GOTONEXTWORKSPACE"@ && w != "PREVWORKSPACE"@ && w != "GOTOPREVWORKSPACE"@ && w != "SHOWMENU"@ && w != "ROOTMENU"@ && w != "EXIT"@);
    }
    if w == "EXEC"@ {
        assert("EXEC"@[0] != "MOVE"@[0]);
        assert("EXEC"@[2] != "EXIT"@[2]);
        assert("EXEC"@[0] != "QUIT"@[0]);
        assert(w != "NEXTWINDOW"@ && w != "PREVWINDOW"@ && w != "PREVIOUSWINDOW"@ && w != "CLOSE"@ && w != "ICONIFY"@ && w != "MINIMIZE"@ && w != "MAXIMIZE"@ && w != "MAXIMIZEWINDOW"@ && w != "FULLSCREEN"@ && w != "MOVEWINDOW"@ && w != "MOVE"@ && w != "RESIZEWINDOW"@ && w != "RESIZE"@ && w != "GOTOWORKSPACE"@ && w != "WORKSPACE"@ && w != "NEXTWORKSPACE"@ && w != "GOTONEXTWORKSPACE"@ && w != "PREVWORKSPACE"@ && w != "GOTOPREVWORKSPACE"@ && w != "SHOWMENU"@ && w != "ROOTMENU"@ && w != "EXIT"@ && w != "QUIT"@);
    }
    if w == "EXECUTE"@ {
        assert("EXECUTE"@[0] != "ICONIFY"@[0]);
        assert(w != "NEXTWINDOW"@ && w != "PREVWINDOW"@ && w != "PREVIOUSWINDOW"@ && w != "CLOSE"@ && w != "ICONIFY"@ && w != "MINIMIZE"@ && w != "MAXIMIZE"@ && w != "MAXIMIZEWINDOW"@ && w != "FULLSCREEN"@ && w != "MOVEWINDOW"@ && w != "MOVE"@ && w != "RESIZEWINDOW"@ && w != "RESIZE"@ && w != "GOTOWORKSPACE"@ && w != "WORKSPACE"@ && w != "NEXTWORKSPACE"@ && w != "GOTONEXTWORKSPACE"@ && w != "PREVWORKSPACE"@ && w != "GOTOPREVWORKSPACE"@ && w != "SHOWMENU"@ && w != "ROOTMENU"@ && w != "EXIT"@ && w != "QUIT"@ && w != "EXEC"@);
    }
}


} // verus!
