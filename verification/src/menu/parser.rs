//! Parser for menu files.
//!
//! Format per line: `[type] (label) {command}`, with types `begin`, `end`,
//! `exec`, `exit`, `restart`, `reconfig`, `submenu`, `separator`, `include`,
//! `nop` and `workspaces`. `#` starts a comment outside brackets.
use vstd::prelude::*;
use crate::text::{
    chars_eq, find_char, index_of, lemma_index_of, lines, lines_of, push_char, string_of,
    to_chars, trim, trim_range, v_range,
};
use super::menuitem::{new_item, ItemView, KindView, MenuItem, MenuItemType};

verus! {

/// Why a menu file could not be parsed.
#[derive(Debug, Clone, Copy, PartialEq, Eq, Structural)]
pub enum MenuParseError {
    /// No `[begin]` line.
    NoBegin,
    /// Submenus nested more than 32 deep.
    TooDeep,
}

// ---------------------------------------------------------------------------
// Line preprocessing
// ---------------------------------------------------------------------------

/// Length of the part of `s` before a `#` that stands outside any `()`, `[]`
/// and `{}` (given the nesting depths `p`, `b`, `c` so far).
pub open spec fn comment_cut(s: Seq<char>, p: int, b: int, c: int) -> int
    decreases s.len(),
{
    if s.len() == 0 {
        0
    } else {
        let ch = s[0];
        if ch == '#' && p == 0 && b == 0 && c == 0 {
            0
        } else {
            let np = if ch == '(' {
                p + 1
            } else if ch == ')' {
                p - 1
            } else {
                p
            };
            let nb = if ch == '[' {
                b + 1
            } else if ch == ']' {
                b - 1
            } else {
                b
            };
            let nc = if ch == '{' {
                c + 1
            } else if ch == '}' {
                c - 1
            } else {
                c
            };
            1 + comment_cut(s.drop_first(), np, nb, nc)
        }
    }
}

proof fn lemma_comment_cut(s: Seq<char>, p: int, b: int, c: int)
    ensures
        0 <= comment_cut(s, p, b, c) <= s.len(),
    decreases s.len(),
{
    if s.len() > 0 {
        let ch = s[0];
        let np = if ch == '(' {
            p + 1
        } else if ch == ')' {
            p - 1
        } else {
            p
        };
        let nb = if ch == '[' {
            b + 1
        } else if ch == ']' {
            b - 1
        } else {
            b
        };
        let nc = if ch == '{' {
            c + 1
        } else if ch == '}' {
            c - 1
        } else {
            c
        };
        lemma_comment_cut(s.drop_first(), np, nb, nc);
    }
}

/// A line with surrounding whitespace and its comment removed.
pub open spec fn clean_line(l: Seq<char>) -> Seq<char> {
    let t = trim(l);
    trim(t.take(comment_cut(t, 0, 0, 0)))
}

/// The non-empty cleaned lines, in order.
pub open spec fn preprocess(ls: Seq<Seq<char>>) -> Seq<Seq<char>>
    decreases ls.len(),
{
    if ls.len() == 0 {
        seq![]
    } else {
        let p = preprocess(ls.drop_last());
        let c = clean_line(ls.last());
        if c.len() == 0 {
            p
        } else {
            p.push(c)
        }
    }
}

fn clean_line_exec(v: &Vec<char>) -> (r: Vec<char>)
    requires
        v@.len() < 0x8000_0000,
    ensures
        r@ == clean_line(v@),
{
    let n = v.len();
    let (a, e) = trim_range(v, 0, n);
    proof {
        assert(v@.subrange(0, n as int) =~= v@);
    }
    let ghost t = v@.subrange(a as int, e as int);
    let mut p: i64 = 0;
    let mut b: i64 = 0;
    let mut c: i64 = 0;
    let mut i = a;
    proof {
        assert(v@.subrange(a as int, e as int).skip(0) =~= t);
    }
    while i < e && !(v[i] == '#' && p == 0 && b == 0 && c == 0)
        invariant
            a <= i <= e <= v@.len(),
            v@.len() < 0x8000_0000,
            t == v@.subrange(a as int, e as int),
            -(i as int) <= p <= i,
            -(i as int) <= b <= i,
            -(i as int) <= c <= i,
            comment_cut(t, 0, 0, 0) == (i - a) + comment_cut(
                v@.subrange(i as int, e as int),
                p as int,
                b as int,
                c as int,
            ),
        decreases e - i,
    {
        let ch = v[i];
        let ghost rest = v@.subrange(i as int, e as int);
        assert(rest[0] == ch);
        assert(rest.drop_first() =~= v@.subrange(i + 1, e as int));
        if ch == '(' {
            p = p + 1;
        } else if ch == ')' {
            p = p - 1;
        } else if ch == '[' {
            b = b + 1;
        } else if ch == ']' {
            b = b - 1;
        } else if ch == '{' {
            c = c + 1;
        } else if ch == '}' {
            c = c - 1;
        }
        i = i + 1;
    }
    let cut = i;
    proof {
        if cut == e {
            assert(v@.subrange(e as int, e as int).len() == 0);
        } else {
            assert(v@.subrange(i as int, e as int)[0] == v@[i as int]);
        }
        assert(comment_cut(t, 0, 0, 0) == cut - a);
        assert(t.take(cut - a) =~= v@.subrange(a as int, cut as int));
    }
    let (x, y) = trim_range(v, a, cut);
    v_range(v, x, y)
}

/// Pre-process the lines of a menu file: strip comments (`#` outside
/// brackets), trim whitespace, drop empty lines.
fn preprocess_lines(content: &str) -> (r: Vec<Vec<char>>)
    requires
        content@.len() < 0x8000_0000,
    ensures
        r@.len() == preprocess(lines_of(content@)).len(),
        forall|i: int| 0 <= i < r@.len() ==> #[trigger] r@[i]@ == preprocess(lines_of(content@))[i],
{
    let ls = lines(content);
    let ghost lsv = lines_of(content@);
    proof {
        lemma_lines_short(content@);
    }
    let mut out: Vec<Vec<char>> = Vec::new();
    let mut i: usize = 0;
    while i < ls.len()
        invariant
            i <= ls@.len(),
            ls@.len() == lsv.len(),
            forall|j: int| 0 <= j < ls@.len() ==> #[trigger] ls@[j]@ == lsv[j],
            forall|j: int| 0 <= j < lsv.len() ==> (#[trigger] lsv[j]).len() < 0x8000_0000,
            out@.len() == preprocess(lsv.take(i as int)).len(),
            forall|j: int|
                0 <= j < out@.len() ==> #[trigger] out@[j]@ == preprocess(lsv.take(i as int))[j],
        decreases ls@.len() - i,
    {
        proof {
            assert(lsv.take(i + 1).drop_last() =~= lsv.take(i as int));
            assert(lsv.take(i + 1).last() == ls@[i as int]@);
        }
        let c = clean_line_exec(&ls[i]);
        if c.len() > 0 {
            out.push(c);
        }
        i = i + 1;
    }
    assert(lsv.take(ls@.len() as int) =~= lsv);
    out
}

/// Lines are never longer than the text.
proof fn lemma_lines_short(s: Seq<char>)
    ensures
        forall|j: int| 0 <= j < lines_of(s).len() ==> (#[trigger] lines_of(s)[j]).len() <= s.len(),
    decreases s.len(),
{
    if s.len() > 0 {
        let i = index_of(s, '\n');
        lemma_index_of(s, '\n');
        if i >= 0 {
            lemma_lines_short(s.skip(i + 1));
            assert forall|j: int| 0 <= j < lines_of(s).len() implies (#[trigger] lines_of(s)[j]).len()
                <= s.len() by {
                if j > 0 {
                    assert(lines_of(s)[j] == lines_of(s.skip(i + 1))[j - 1]);
                }
            }
        }
    }
}

// ---------------------------------------------------------------------------
// Token stream
// ---------------------------------------------------------------------------

/// The state of the token stream: the lines, the current line number, the
/// position within the current line and the current line's text. Past the
/// last line the current text is empty.
pub struct TokState {
    pub lines: Seq<Seq<char>>,
    pub pos: int,
    pub lp: int,
    pub cur: Seq<char>,
}

pub open spec fn tok_wf(t: TokState) -> bool {
    &&& 0 <= t.pos <= t.lines.len()
    &&& 0 <= t.lp <= t.cur.len()
    &&& t.pos < t.lines.len() ==> t.cur == t.lines[t.pos]
    &&& t.pos == t.lines.len() ==> t.cur.len() == 0
}

/// Lines not yet left behind, the current one included.
pub open spec fn lines_left(t: TokState) -> int {
    t.lines.len() - t.pos
}

/// `b` is a well-formed state over the same lines, no earlier than `a`.
pub open spec fn later(a: TokState, b: TokState) -> bool {
    &&& tok_wf(b)
    &&& b.lines == a.lines
    &&& b.pos >= a.pos
}

pub open spec fn tok_init(ls: Seq<Seq<char>>) -> TokState {
    TokState {
        lines: ls,
        pos: 0,
        lp: 0,
        cur: if ls.len() > 0 {
            ls[0]
        } else {
            seq![]
        },
    }
}

/// The first position at or after `lp` that is not a space.
pub open spec fn skip_spaces(cur: Seq<char>, lp: int) -> int
    decreases cur.len() - lp,
{
    if 0 <= lp < cur.len() && cur[lp] == ' ' {
        skip_spaces(cur, lp + 1)
    } else {
        lp
    }
}

pub proof fn lemma_skip_spaces(cur: Seq<char>, lp: int)
    requires
        0 <= lp <= cur.len(),
    ensures
        lp <= skip_spaces(cur, lp) <= cur.len(),
        skip_spaces(cur, lp) < cur.len() ==> cur[skip_spaces(cur, lp)] != ' ',
    decreases cur.len() - lp,
{
    if lp < cur.len() && cur[lp] == ' ' {
        lemma_skip_spaces(cur, lp + 1);
    }
}

/// Move to the start of the next line; false when there is none.
pub open spec fn adv_line(t: TokState) -> (bool, TokState) {
    let np = t.pos + 1;
    if np < t.lines.len() {
        (true, TokState { lines: t.lines, pos: np, lp: 0, cur: t.lines[np] })
    } else {
        (false, TokState { lines: t.lines, pos: t.lines.len() as int, lp: 0, cur: seq![] })
    }
}

/// The next `[...]` token, moving over spaces and exhausted lines.
pub open spec fn next_bracket(t: TokState) -> (Option<Seq<char>>, TokState)
    decreases t.lines.len() - t.pos,
{
    let lp = skip_spaces(t.cur, t.lp);
    if lp >= t.cur.len() {
        let (ok, t2) = adv_line(TokState { lp, ..t });
        if ok {
            next_bracket(t2)
        } else {
            (None, t2)
        }
    } else {
        let rest = t.cur.skip(lp);
        let e = index_of(rest, ']');
        if rest[0] == '[' && e >= 0 {
            (Some(rest.take(e + 1)), TokState { lp: lp + e + 1, ..t })
        } else {
            (None, TokState { lp, ..t })
        }
    }
}

/// Skip spaces; at the end of the line move to the next one.
pub open spec fn skip_ws_adv(t: TokState) -> TokState {
    let lp = skip_spaces(t.cur, t.lp);
    let t1 = TokState { lp, ..t };
    if lp >= t.cur.len() {
        adv_line(t1).1
    } else {
        t1
    }
}

/// The text between `open` and the next `close`, when the stream is at
/// `open`.
pub open spec fn delimited(t: TokState, open: char, close: char) -> (Option<Seq<char>>, TokState) {
    let t1 = skip_ws_adv(t);
    let rest = t1.cur.skip(t1.lp);
    let e = index_of(rest, close);
    if rest.len() > 0 && rest[0] == open && e >= 1 {
        (Some(rest.subrange(1, e)), TokState { lp: t1.lp + e + 1, ..t1 })
    } else {
        (None, t1)
    }
}

/// Skip the rest of the current line.
pub open spec fn skip_rest(t: TokState) -> TokState {
    adv_line(TokState { lp: t.cur.len() as int, ..t }).1
}

/// Jump to the end of the current line.
pub open spec fn advance(t: TokState) -> TokState {
    TokState { lp: t.cur.len() as int, ..t }
}

pub proof fn lemma_next_bracket(t: TokState)
    requires
        tok_wf(t),
    ensures
        later(t, next_bracket(t).1),
        next_bracket(t).0 is Some ==> next_bracket(t).1.pos < t.lines.len(),
    decreases t.lines.len() - t.pos,
{
    lemma_skip_spaces(t.cur, t.lp);
    let lp = skip_spaces(t.cur, t.lp);
    if lp >= t.cur.len() {
        let (ok, t2) = adv_line(TokState { lp, ..t });
        if ok {
            lemma_next_bracket(t2);
        }
    } else {
        let rest = t.cur.skip(lp);
        lemma_index_of(rest, ']');
    }
}

pub proof fn lemma_delimited(t: TokState, open: char, close: char)
    requires
        tok_wf(t),
    ensures
        later(t, delimited(t, open, close).1),
{
    lemma_skip_spaces(t.cur, t.lp);
    let t1 = skip_ws_adv(t);
    let rest = t1.cur.skip(t1.lp);
    lemma_index_of(rest, close);
}

pub open spec fn or_empty(o: Option<Seq<char>>) -> Seq<char> {
    match o {
        Some(s) => s,
        None => seq![],
    }
}

pub open spec fn or_else(o: Option<Seq<char>>, d: Seq<char>) -> Seq<char> {
    match o {
        Some(s) => s,
        None => d,
    }
}

/// `~/...` expanded with the home directory, when it is known.
pub open spec fn expand_path(path: Seq<char>, home: Option<Seq<char>>) -> Seq<char> {
    if path.len() >= 2 && path[0] == '~' && path[1] == '/' && home is Some {
        home->0 + path.skip(1)
    } else {
        path
    }
}

/// The submenu counter after handing out one id.
pub open spec fn wrap_inc(n: u32) -> u32 {
    if n == u32::MAX {
        0
    } else {
        (n + 1) as u32
    }
}

/// The nesting depth past which a submenu is refused.
pub const MAX_DEPTH: usize = 32;

/// The outcome of one block: its items or an error, the stream after it, and
/// the next free submenu id.
pub type BlockOutcome = (Result<Seq<ItemView>, MenuParseError>, TokState, u32);

/// Parse the items of a block (until `[end]`, the end of input, or a line that
/// does not start with a `[...]` token) at nesting depth `depth`.
pub open spec fn block(t: TokState, depth: nat, nid: u32, home: Option<Seq<char>>) -> BlockOutcome
    decreases lines_left(t), 1int,
    when tok_wf(t)
{
    if depth > MAX_DEPTH {
        (Err(MenuParseError::TooDeep), t, nid)
    } else {
        block_loop(t, depth, seq![], nid, home)
    }
}

pub open spec fn is_kw(k: Seq<char>, a: Seq<char>, b: Seq<char>) -> bool {
    k == a || k == b
}

/// For a directive other than `[end]` and `[submenu]`, read at `t` just
/// after its `[...]` token: the item it adds, if any, and the stream at the
/// start of the next line.
pub open spec fn line_item(k: Seq<char>, t: TokState, home: Option<Seq<char>>) -> (
    Option<ItemView>,
    TokState,
) {
    if is_kw(k, "[exec]"@, "[Exec]"@) {
        let (l, t2) = delimited(t, '(', ')');
        let (c, t3) = delimited(t2, '{', '}');
        (Some(new_item(or_empty(l), KindView::Exec(or_empty(c)))), skip_rest(t3))
    } else if is_kw(k, "[exit]"@, "[Exit]"@) {
        let (l, t2) = delimited(t, '(', ')');
        (Some(new_item(or_else(l, "Exit"@), KindView::Exit)), skip_rest(t2))
    } else if is_kw(k, "[restart]"@, "[Restart]"@) {
        let (l, t2) = delimited(t, '(', ')');
        (Some(new_item(or_else(l, "Restart"@), KindView::Restart)), skip_rest(t2))
    } else if is_kw(k, "[reconfig]"@, "[Reconfig]"@) {
        let (l, t2) = delimited(t, '(', ')');
        (Some(new_item(or_else(l, "Reconfigure"@), KindView::Reconfig)), skip_rest(t2))
    } else if is_kw(k, "[separator]"@, "[Separator]"@) || k == "[Separator]:"@ {
        (Some(new_item(seq![], KindView::Separator)), skip_rest(t))
    } else if is_kw(k, "[nop]"@, "[Nop]"@) {
        let (l, t2) = delimited(t, '(', ')');
        (Some(new_item(or_empty(l), KindView::Nop)), skip_rest(t2))
    } else if is_kw(k, "[include]"@, "[Include]"@) {
        let (l, t2) = delimited(t, '(', ')');
        let (c, t3) = delimited(t2, '{', '}');
        let lab = or_empty(l);
        let path = or_empty(c);
        let target = if path.len() > 0 {
            path
        } else {
            expand_path(lab, home)
        };
        (Some(new_item(lab, KindView::Include(target))), skip_rest(t3))
    } else if is_kw(k, "[workspaces]"@, "[Workspaces]"@) {
        let (l, t2) = delimited(t, '(', ')');
        (Some(new_item(or_else(l, "Workspaces"@), KindView::Workspaces)), skip_rest(t2))
    } else {
        (None, skip_rest(t))
    }
}

/// Skipping the rest of a line at or after `t` moves past `t`'s line.
pub proof fn lemma_skip_rest_after(t: TokState, s: TokState)
    requires
        tok_wf(t),
        t.pos < t.lines.len(),
        later(t, s),
    ensures
        later(t, skip_rest(s)),
        skip_rest(s).pos > t.pos,
{
}

pub proof fn lemma_line_item(k: Seq<char>, t: TokState, home: Option<Seq<char>>)
    requires
        tok_wf(t),
        t.pos < t.lines.len(),
    ensures
        later(t, line_item(k, t, home).1),
        line_item(k, t, home).1.pos > t.pos,
{
    let (l, t2) = delimited(t, '(', ')');
    let (c, t3) = delimited(t2, '{', '}');
    lemma_delimited(t, '(', ')');
    lemma_delimited(t2, '{', '}');
    lemma_skip_rest_after(t, t);
    lemma_skip_rest_after(t, t2);
    lemma_skip_rest_after(t, t3);
}

/// Continue a block that has produced `items` so far.
pub open spec fn block_loop(
    t: TokState,
    depth: nat,
    items: Seq<ItemView>,
    nid: u32,
    home: Option<Seq<char>>,
) -> BlockOutcome
    decreases lines_left(t), 0int,
    when tok_wf(t)
{
    let (tok, t1) = next_bracket(t);
    match tok {
        None => (Ok(items), t1, nid),
        Some(k) => if is_kw(k, "[end]"@, "[End]"@) {
            (Ok(items), t1, nid)
        } else if is_kw(k, "[submenu]"@, "[Submenu]"@) {
            let (l, t2) = delimited(t1, '(', ')');
            let lab = or_empty(l);
            proof {
                lemma_next_bracket(t);
                lemma_delimited(t1, '(', ')');
                lemma_skip_rest_after(t1, t2);
            }
            let (r, t3, n3) = block(skip_rest(t2), depth + 1, nid, home);
            match r {
                Err(e) => (Err(e), t3, n3),
                Ok(_) => {
                    let it = new_item(lab, KindView::Submenu(n3, lab));
                    // A submenu never moves the stream back (the exec
                    // parser proves this), so this test always passes.
                    if tok_wf(t3) && lines_left(t3) < lines_left(t) {
                        block_loop(t3, depth, items.push(it), wrap_inc(n3), home)
                    } else {
                        (Ok(items.push(it)), t3, wrap_inc(n3))
                    }
                },
            }
        } else {
            let (o, t2) = line_item(k, t1, home);
            proof {
                lemma_next_bracket(t);
                lemma_line_item(k, t1, home);
            }
            let items2 = match o {
                Some(it) => items.push(it),
                None => items,
            };
            block_loop(t2, depth, items2, nid, home)
        },
    }
}

/// Skip everything before the first `[begin]` token: the stream just before
/// it, or `NoBegin`.
pub open spec fn search(t: TokState) -> Result<TokState, MenuParseError>
    decreases lines_left(t),
    when tok_wf(t)
{
    match next_bracket(t).0 {
        Some(k) => if is_kw(k, "[begin]"@, "[Begin]"@) {
            Ok(t)
        } else {
            proof {
                lemma_next_bracket(t);
                lemma_skip_rest_after(t, advance(t));
            }
            search(skip_rest(advance(t)))
        },
        None => Err(MenuParseError::NoBegin),
    }
}

/// The root label and items parsed from pre-processed lines, or an error,
/// together with the next free submenu id.
pub open spec fn parse_lines(ls: Seq<Seq<char>>, home: Option<Seq<char>>, nid: u32) -> (
    Result<(Seq<char>, Seq<ItemView>), MenuParseError>,
    u32,
) {
    match search(tok_init(ls)) {
        Err(e) => (Err(e), nid),
        Ok(t) => {
            let t1 = next_bracket(t).1;
            let (l, t2) = delimited(t1, '(', ')');
            let (r, _, n) = block(skip_rest(t2), 0, nid, home);
            match r {
                Ok(items) => (Ok((or_empty(l), items)), n),
                Err(e) => (Err(e), n),
            }
        },
    }
}

/// What parsing the menu text `content` gives.
pub open spec fn menu_outcome(content: Seq<char>, home: Option<Seq<char>>, nid: u32) -> (
    Result<(Seq<char>, Seq<ItemView>), MenuParseError>,
    u32,
) {
    parse_lines(preprocess(lines_of(content)), home, nid)
}

pub open spec fn items_view(v: Seq<MenuItem>) -> Seq<ItemView> {
    v.map_values(|m: MenuItem| m.view())
}

pub open spec fn home_view(h: Option<&str>) -> Option<Seq<char>> {
    match h {
        Some(s) => Some(s@),
        None => None,
    }
}

pub open spec fn block_result_view(r: Result<Vec<MenuItem>, MenuParseError>) -> Result<
    Seq<ItemView>,
    MenuParseError,
> {
    match r {
        Ok(v) => Ok(items_view(v@)),
        Err(e) => Err(e),
    }
}

pub open spec fn menu_result_view(r: Result<(String, Vec<MenuItem>), MenuParseError>) -> Result<
    (Seq<char>, Seq<ItemView>),
    MenuParseError,
> {
    match r {
        Ok((l, v)) => Ok((l@, items_view(v@))),
        Err(e) => Err(e),
    }
}

/// A line-based tokeniser over pre-processed lines.
struct TokenStream {
    lines: Vec<Vec<char>>,
    pos: usize,
    line_pos: usize,
    current_line: Vec<char>,
}

spec fn lines_view(ls: Seq<Vec<char>>) -> Seq<Seq<char>> {
    ls.map_values(|l: Vec<char>| l@)
}

/// A copy of a list of lines.
fn copy_lines(lines: &Vec<Vec<char>>) -> (r: Vec<Vec<char>>)
    ensures
        lines_view(r@) == lines_view(lines@),
{
    let mut ls: Vec<Vec<char>> = Vec::new();
    let mut i: usize = 0;
    while i < lines.len()
        invariant
            i <= lines@.len(),
            lines_view(ls@) == lines_view(lines@.take(i as int)),
        decreases lines@.len() - i,
    {
        let l = v_range(&lines[i], 0, lines[i].len());
        proof {
            assert(lines@[i as int]@.subrange(0, lines@[i as int]@.len() as int)
                =~= lines@[i as int]@);
        }
        let ghost before = ls@;
        ls.push(l);
        proof {
            assert(lines@.take(i + 1) =~= lines@.take(i as int).push(lines@[i as int]));
            assert(lines_view(ls@) =~= lines_view(before).push(l@));
            assert(lines_view(lines@.take(i + 1)) =~= lines_view(lines@.take(i as int)).push(
                lines@[i as int]@,
            ));
        }
        i = i + 1;
    }
    assert(lines@.take(lines@.len() as int) =~= lines@);
    ls
}

impl TokenStream {
    closed spec fn view(&self) -> TokState {
        TokState {
            lines: lines_view(self.lines@),
            pos: self.pos as int,
            lp: self.line_pos as int,
            cur: self.current_line@,
        }
    }

    closed spec fn wf(&self) -> bool {
        tok_wf(self.view())
    }

    fn new(lines: &Vec<Vec<char>>) -> (r: TokenStream)
        ensures
            r.wf(),
            r.view() == tok_init(lines_view(lines@)),
    {
        let ls = copy_lines(lines);
        let current_line = if ls.len() > 0 {
            v_range(&ls[0], 0, ls[0].len())
        } else {
            Vec::new()
        };
        proof {
            if ls@.len() > 0 {
                assert(ls@[0]@.subrange(0, ls@[0]@.len() as int) =~= ls@[0]@);
                assert(lines_view(ls@)[0] == ls@[0]@);
            }
        }
        TokenStream { lines: ls, pos: 0, line_pos: 0, current_line }
    }

    /// An independent copy of the stream.
    fn duplicate(&self) -> (r: TokenStream)
        requires
            self.wf(),
        ensures
            r.wf(),
            r.view() == self.view(),
    {
        let ls = copy_lines(&self.lines);
        let cur = v_range(&self.current_line, 0, self.current_line.len());
        assert(self.current_line@.subrange(0, self.current_line@.len() as int)
            =~= self.current_line@);
        TokenStream { lines: ls, pos: self.pos, line_pos: self.line_pos, current_line: cur }
    }

    /// The next bracket token, without moving.
    fn peek(&self) -> (r: Option<Vec<char>>)
        requires
            self.wf(),
        ensures
            r matches Some(v) ==> next_bracket(self.view()).0 == Some(v@),
            r is None ==> next_bracket(self.view()).0 is None,
    {
        let mut stream = self.duplicate();
        stream.next_bracket()
    }

    /// Jump to the end of the current line.
    fn advance(&mut self)
        requires
            old(self).wf(),
        ensures
            final(self).wf(),
            final(self).view() == advance(old(self).view()),
    {
        self.line_pos = self.current_line.len();
    }

    /// Skip to the next line.
    fn skip_line(&mut self)
        requires
            old(self).wf(),
        ensures
            final(self).wf(),
            final(self).view() == skip_rest(old(self).view()),
    {
        self.line_pos = self.current_line.len();
        self.advance_line();
    }

    /// Skip the rest of the current line.
    fn skip_rest(&mut self)
        requires
            old(self).wf(),
        ensures
            final(self).wf(),
            final(self).view() == skip_rest(old(self).view()),
    {
        self.line_pos = self.current_line.len();
        self.advance_line();
    }

    /// The next bracket token.
    fn next(&mut self) -> (r: Option<Vec<char>>)
        requires
            old(self).wf(),
        ensures
            final(self).wf(),
            final(self).view() == next_bracket(old(self).view()).1,
            r matches Some(v) ==> next_bracket(old(self).view()).0 == Some(v@),
            r is None ==> next_bracket(old(self).view()).0 is None,
    {
        self.next_bracket()
    }

    fn next_bracket(&mut self) -> (r: Option<Vec<char>>)
        requires
            old(self).wf(),
        ensures
            final(self).wf(),
            final(self).view() == next_bracket(old(self).view()).1,
            r matches Some(v) ==> next_bracket(old(self).view()).0 == Some(v@),
            r is None ==> next_bracket(old(self).view()).0 is None,
        decreases old(self).lines@.len() - old(self).pos,
    {
        let ghost t0 = self.view();
        while self.line_pos < self.current_line.len() && self.current_line[self.line_pos] == ' '
            invariant
                self.wf(),
                self.lines == old(self).lines,
                self.pos == old(self).pos,
                self.current_line == old(self).current_line,
                skip_spaces(self.current_line@, self.line_pos as int) == skip_spaces(
                    t0.cur,
                    t0.lp,
                ),
                t0 == old(self).view(),
            decreases self.current_line@.len() - self.line_pos,
        {
            self.line_pos = self.line_pos + 1;
        }
        proof {
            lemma_skip_spaces(t0.cur, t0.lp);
        }
        assert(self.line_pos == skip_spaces(t0.cur, t0.lp));
        if self.line_pos >= self.current_line.len() {
            let ok = self.advance_line();
            if !ok {
                return None;
            }
            return self.next_bracket();
        }
        let lp = self.line_pos;
        let n = self.current_line.len();
        proof {
            assert(self.current_line@.subrange(lp as int, n as int) =~= t0.cur.skip(lp as int));
        }
        if self.current_line[lp] == '[' {
            match find_char(&self.current_line, lp, n, ']') {
                Some(end) => {
                    let tok = v_range(&self.current_line, lp, end + 1);
                    self.line_pos = end + 1;
                    proof {
                        assert(t0.cur.skip(lp as int).take(end - lp + 1)
                            =~= self.current_line@.subrange(lp as int, end + 1));
                    }
                    return Some(tok);
                },
                None => {},
            }
        }
        None
    }

    /// The `(label)` at the current position.
    fn next_label(&mut self) -> (r: Option<String>)
        requires
            old(self).wf(),
        ensures
            final(self).wf(),
            final(self).view() == delimited(old(self).view(), '(', ')').1,
            r matches Some(s) ==> delimited(old(self).view(), '(', ')').0 == Some(s@),
            r is None ==> delimited(old(self).view(), '(', ')').0 is None,
    {
        self.delimited_text('(', ')')
    }

    /// The `{argument}` at the current position.
    fn next_arg(&mut self) -> (r: Option<String>)
        requires
            old(self).wf(),
        ensures
            final(self).wf(),
            final(self).view() == delimited(old(self).view(), '{', '}').1,
            r matches Some(s) ==> delimited(old(self).view(), '{', '}').0 == Some(s@),
            r is None ==> delimited(old(self).view(), '{', '}').0 is None,
    {
        self.delimited_text('{', '}')
    }

    fn delimited_text(&mut self, open: char, close: char) -> (r: Option<String>)
        requires
            old(self).wf(),
        ensures
            final(self).wf(),
            final(self).view() == delimited(old(self).view(), open, close).1,
            r matches Some(s) ==> delimited(old(self).view(), open, close).0 == Some(s@),
            r is None ==> delimited(old(self).view(), open, close).0 is None,
    {
        let ghost t0 = self.view();
        self.skip_whitespace();
        let ghost t1 = self.view();
        assert(t1 == skip_ws_adv(t0));
        let lp = self.line_pos;
        let n = self.current_line.len();
        proof {
            assert(self.current_line@.subrange(lp as int, n as int) =~= t1.cur.skip(lp as int));
        }
        if lp < n && self.current_line[lp] == open {
            match find_char(&self.current_line, lp, n, close) {
                Some(end) => {
                    if end >= lp + 1 {
                        let s = string_of(&self.current_line, lp + 1, end);
                        self.line_pos = end + 1;
                        proof {
                            assert(t1.cur.skip(lp as int).subrange(1, end - lp)
                                =~= self.current_line@.subrange(lp + 1, end as int));
                        }
                        return Some(s);
                    }
                },
                None => {},
            }
        }
        None
    }

    fn skip_whitespace(&mut self)
        requires
            old(self).wf(),
        ensures
            final(self).wf(),
            final(self).view() == skip_ws_adv(old(self).view()),
    {
        let ghost t0 = self.view();
        while self.line_pos < self.current_line.len() && self.current_line[self.line_pos] == ' '
            invariant
                self.wf(),
                self.lines == old(self).lines,
                self.pos == old(self).pos,
                self.current_line == old(self).current_line,
                skip_spaces(self.current_line@, self.line_pos as int) == skip_spaces(
                    t0.cur,
                    t0.lp,
                ),
                t0 == old(self).view(),
            decreases self.current_line@.len() - self.line_pos,
        {
            self.line_pos = self.line_pos + 1;
        }
        if self.line_pos >= self.current_line.len() {
            self.advance_line();
        }
    }

    /// Move to the next line; false at the end of input.
    fn advance_line(&mut self) -> (r: bool)
        requires
            old(self).wf(),
        ensures
            final(self).wf(),
            (r, final(self).view()) == adv_line(old(self).view()),
    {
        if self.lines.len() - self.pos > 1 {
            self.pos = self.pos + 1;
            self.line_pos = 0;
            self.current_line = self.pos_increment();
            true
        } else {
            self.pos = self.lines.len();
            self.line_pos = 0;
            self.current_line = Vec::new();
            false
        }
    }

    /// A copy of the line at the current position.
    fn pos_increment(&self) -> (r: Vec<char>)
        requires
            self.pos < self.lines@.len(),
        ensures
            r@ == self.lines@[self.pos as int]@,
    {
        let l = &self.lines[self.pos];
        let r = v_range(l, 0, l.len());
        assert(l@.subrange(0, l@.len() as int) =~= l@);
        r
    }
}

/// Hand out the next submenu id.
fn generate_menu_id(next_id: &mut u32) -> (r: u32)
    ensures
        r == *old(next_id),
        *final(next_id) == wrap_inc(*old(next_id)),
{
    let r = *next_id;
    if r == u32::MAX {
        *next_id = 0;
    } else {
        *next_id = r + 1;
    }
    r
}

/// Expand `~/` at the start of a path with the home directory.
fn expand_home(path: &str, home: Option<&str>) -> (r: String)
    ensures
        r@ == expand_path(path@, home_view(home)),
{
    let v = to_chars(path);
    let n = v.len();
    match home {
        Some(h) => {
            if n >= 2 && v[0] == '~' && v[1] == '/' {
                let mut s = String::from_str(h);
                let mut i: usize = 1;
                while i < n
                    invariant
                        1 <= i <= n,
                        n == v@.len(),
                        v@ == path@,
                        s@ == h@ + v@.subrange(1, i as int),
                    decreases n - i,
                {
                    push_char(&mut s, v[i]);
                    assert(v@.subrange(1, i + 1) =~= v@.subrange(1, i as int).push(v@[i as int]));
                    i = i + 1;
                }
                assert(v@.subrange(1, n as int) =~= path@.skip(1));
                return s;
            }
        },
        None => {},
    }
    String::from_str(path)
}

pub open spec fn opt_view(o: Option<String>) -> Option<Seq<char>> {
    match o {
        Some(s) => Some(s@),
        None => None,
    }
}

fn text_or_empty(o: Option<String>) -> (r: String)
    ensures
        r@ == or_empty(opt_view(o)),
{
    match o {
        Some(s) => s,
        None => String::new(),
    }
}

fn text_or(o: Option<String>, d: &str) -> (r: String)
    ensures
        r@ == or_else(opt_view(o), d@),
{
    match o {
        Some(s) => s,
        None => String::from_str(d),
    }
}

proof fn lemma_items_push(v: Seq<MenuItem>, m: MenuItem)
    ensures
        items_view(v.push(m)) == items_view(v).push(m.view()),
{
    assert(items_view(v.push(m)) =~= items_view(v).push(m.view()));
}

/// Read the item of a directive other than `[end]` and `[submenu]`, whose
/// `[...]` token `k` has just been read, and move to the next line.
fn parse_line_item(tokens: &mut TokenStream, k: &Vec<char>, home: Option<&str>) -> (r: Option<
    MenuItem,
>)
    requires
        old(tokens).wf(),
    ensures
        final(tokens).wf(),
        final(tokens).view() == line_item(k@, old(tokens).view(), home_view(home)).1,
        r matches Some(m) ==> line_item(k@, old(tokens).view(), home_view(home)).0 == Some(
            m.view(),
        ),
        r is None ==> line_item(k@, old(tokens).view(), home_view(home)).0 is None,
{
    if chars_eq(k, "[exec]") || chars_eq(k, "[Exec]") {
        let label = tokens.next_label();
        let cmd = tokens.next_arg();
        tokens.skip_rest();
        let label = text_or_empty(label);
        let cmd = text_or_empty(cmd);
        Some(MenuItem::new(label.as_str(), MenuItemType::Exec(cmd)))
    } else if chars_eq(k, "[exit]") || chars_eq(k, "[Exit]") {
        let label = tokens.next_label();
        tokens.skip_rest();
        let label = text_or(label, "Exit");
        Some(MenuItem::new(label.as_str(), MenuItemType::Exit))
    } else if chars_eq(k, "[restart]") || chars_eq(k, "[Restart]") {
        let label = tokens.next_label();
        tokens.skip_rest();
        let label = text_or(label, "Restart");
        Some(MenuItem::new(label.as_str(), MenuItemType::Restart))
    } else if chars_eq(k, "[reconfig]") || chars_eq(k, "[Reconfig]") {
        let label = tokens.next_label();
        tokens.skip_rest();
        let label = text_or(label, "Reconfigure");
        Some(MenuItem::new(label.as_str(), MenuItemType::Reconfig))
    } else if chars_eq(k, "[separator]") || chars_eq(k, "[Separator]") || chars_eq(
        k,
        "[Separator]:",
    ) {
        tokens.skip_rest();
        Some(MenuItem::separator())
    } else if chars_eq(k, "[nop]") || chars_eq(k, "[Nop]") {
        let label = tokens.next_label();
        tokens.skip_rest();
        let label = text_or_empty(label);
        Some(MenuItem::new(label.as_str(), MenuItemType::Nop))
    } else if chars_eq(k, "[include]") || chars_eq(k, "[Include]") {
        let label = tokens.next_label();
        let path = tokens.next_arg();
        tokens.skip_rest();
        let label = text_or_empty(label);
        let path = text_or_empty(path);
        let target = if path.unicode_len() > 0 {
            path
        } else {
            expand_home(label.as_str(), home)
        };
        Some(MenuItem::new(label.as_str(), MenuItemType::Include(target)))
    } else if chars_eq(k, "[workspaces]") || chars_eq(k, "[Workspaces]") {
        let label = tokens.next_label();
        tokens.skip_rest();
        let label = text_or(label, "Workspaces");
        Some(MenuItem::new(label.as_str(), MenuItemType::Workspaces))
    } else {
        tokens.skip_rest();
        None
    }
}

/// Parse the items of a block until `[end]` or the end of input.
fn parse_block(tokens: &mut TokenStream, depth: usize, next_id: &mut u32, home: Option<&str>) -> (r:
    Result<Vec<MenuItem>, MenuParseError>)
    requires
        old(tokens).wf(),
        depth <= MAX_DEPTH + 1,
    ensures
        final(tokens).wf(),
        final(tokens).view().lines == old(tokens).view().lines,
        lines_left(final(tokens).view()) <= lines_left(old(tokens).view()),
        (block_result_view(r), final(tokens).view(), *final(next_id)) == block(
            old(tokens).view(),
            depth as nat,
            *old(next_id),
            home_view(home),
        ),
    decreases lines_left(old(tokens).view()),
{
    if depth > MAX_DEPTH {
        return Err(MenuParseError::TooDeep);
    }
    let ghost t0 = tokens.view();
    let ghost n0 = *next_id;
    let ghost hv = home_view(home);
    let mut items: Vec<MenuItem> = Vec::new();
    assert(items_view(items@) =~= seq![]);
    loop
        invariant
            tokens.wf(),
            depth <= MAX_DEPTH,
            t0 == old(tokens).view(),
            n0 == *old(next_id),
            hv == home_view(home),
            tokens.view().lines == t0.lines,
            lines_left(tokens.view()) <= lines_left(t0),
            block(t0, depth as nat, n0, hv) == block_loop(
                tokens.view(),
                depth as nat,
                items_view(items@),
                *next_id,
                hv,
            ),
        decreases lines_left(tokens.view()),
    {
        let ghost t = tokens.view();
        proof {
            lemma_next_bracket(t);
        }
        let tok = tokens.next();
        let k = match tok {
            Some(k) => k,
            None => {
                return Ok(items);
            },
        };
        if chars_eq(&k, "[end]") || chars_eq(&k, "[End]") {
            return Ok(items);
        } else if chars_eq(&k, "[submenu]") || chars_eq(&k, "[Submenu]") {
            let ghost t1 = tokens.view();
            let label = tokens.next_label();
            proof {
                lemma_delimited(t1, '(', ')');
                lemma_skip_rest_after(t1, tokens.view());
            }
            tokens.skip_rest();
            let label = text_or_empty(label);
            match parse_block(tokens, depth + 1, next_id, home) {
                Err(e) => {
                    return Err(e);
                },
                Ok(_) => {},
            }
            let sub_id = generate_menu_id(next_id);
            let item = MenuItem::new(label.as_str(), MenuItemType::Submenu(sub_id, label.clone()));
            proof {
                lemma_items_push(items@, item);
            }
            items.push(item);
        } else {
            let ghost t1 = tokens.view();
            proof {
                lemma_line_item(k@, t1, hv);
            }
            match parse_line_item(tokens, &k, home) {
                Some(item) => {
                    proof {
                        lemma_items_push(items@, item);
                    }
                    items.push(item);
                },
                None => {},
            }
        }
    }
}

/// Parse the text of a menu file: the root label (the `(label)` of the first
/// `[begin]` line) and the items of the block it opens. Submenus take their
/// ids from `next_id`, which counts on; `home` stands for `~` at the start of
/// an include path.
pub fn parse_menu(content: &str, home: Option<&str>, next_id: &mut u32) -> (r: Result<
    (String, Vec<MenuItem>),
    MenuParseError,
>)
    requires
        content@.len() < 0x8000_0000,
    ensures
        (menu_result_view(r), *final(next_id)) == menu_outcome(
            content@,
            home_view(home),
            *old(next_id),
        ),
{
    let lines = preprocess_lines(content);
    let ghost ls = preprocess(lines_of(content@));
    proof {
        assert(lines_view(lines@) =~= ls);
    }
    let mut tokens = TokenStream::new(&lines);
    let ghost t0 = tokens.view();
    loop
        invariant
            tokens.wf(),
            t0 == tok_init(ls),
            ls == preprocess(lines_of(content@)),
            *next_id == *old(next_id),
            search(t0) == search(tokens.view()),
        ensures
            search(t0) == Ok::<TokState, MenuParseError>(tokens.view()),
        decreases lines_left(tokens.view()),
    {
        let ghost t = tokens.view();
        proof {
            lemma_next_bracket(t);
        }
        match tokens.peek() {
            Some(k) => {
                if chars_eq(&k, "[begin]") || chars_eq(&k, "[Begin]") {
                    assert(search(t) == Ok::<TokState, MenuParseError>(t));
                    break ;
                }
                proof {
                    lemma_skip_rest_after(t, advance(t));
                }
                tokens.advance();
                tokens.skip_line();
            },
            None => {
                assert(search(t) == Err::<TokState, MenuParseError>(MenuParseError::NoBegin));
                return Err(MenuParseError::NoBegin);
            },
        }
    }
    let _ = tokens.next();
    let label = tokens.next_label();
    tokens.skip_rest();
    let label = text_or_empty(label);
    match parse_block(&mut tokens, 0, next_id, home) {
        Ok(items) => Ok((label, items)),
        Err(e) => Err(e),
    }
}

/// Every submenu entry of `items` carries the submenu's label.
pub open spec fn submenu_labels_match(items: Seq<ItemView>) -> bool {
    forall|i: int| 0 <= i < items.len() ==> submenu_label_ok(#[trigger] items[i])
}

/// A submenu entry carries the submenu's label; other entries anything.
pub open spec fn submenu_label_ok(it: ItemView) -> bool {
    match it.kind {
        KindView::Submenu(_, l) => it.label == l,
        _ => true,
    }
}

/// Plain directives never make a submenu entry.
proof fn lemma_line_item_not_submenu(k: Seq<char>, t: TokState, home: Option<Seq<char>>)
    ensures
        line_item(k, t, home).0 matches Some(it) ==> !(it.kind is Submenu),
{
}

proof fn lemma_block_loop_labels(
    t: TokState,
    depth: nat,
    items: Seq<ItemView>,
    nid: u32,
    home: Option<Seq<char>>,
)
    requires
        tok_wf(t),
        submenu_labels_match(items),
    ensures
        block_loop(t, depth, items, nid, home).0 matches Ok(r) ==> submenu_labels_match(r),
    decreases lines_left(t),
{
    let (tok, t1) = next_bracket(t);
    lemma_next_bracket(t);
    match tok {
        None => {},
        Some(k) => if is_kw(k, "[end]"@, "[End]"@) {
        } else if is_kw(k, "[submenu]"@, "[Submenu]"@) {
            let (l, t2) = delimited(t1, '(', ')');
            let lab = or_empty(l);
            lemma_delimited(t1, '(', ')');
            lemma_skip_rest_after(t1, t2);
            let (r, t3, n3) = block(skip_rest(t2), depth + 1, nid, home);
            match r {
                Err(e) => {},
                Ok(_) => {
                    let it = new_item(lab, KindView::Submenu(n3, lab));
                    let items2 = items.push(it);
                    assert(submenu_labels_match(items2)) by {
                        assert forall|i: int| 0 <= i < items2.len() implies submenu_label_ok(#[trigger] items2[i]) by {
                            if i < items.len() {
                                assert(items2[i] == items[i]);
                            }
                        }
                    }
                    if tok_wf(t3) && lines_left(t3) < lines_left(t) {
                        lemma_block_loop_labels(t3, depth, items2, wrap_inc(n3), home);
                    }
                },
            }
        } else {
            let (o, t2) = line_item(k, t1, home);
            lemma_line_item(k, t1, home);
            lemma_line_item_not_submenu(k, t1, home);
            let items2 = match o {
                Some(it) => items.push(it),
                None => items,
            };
            assert(submenu_labels_match(items2)) by {
                assert forall|i: int| 0 <= i < items2.len() implies submenu_label_ok(#[trigger] items2[i]) by {
                    if i < items.len() {
                        assert(items2[i] == items[i]);
                    }
                }
            }
            lemma_block_loop_labels(t2, depth, items2, nid, home);
        },
    }
}

proof fn lemma_search_wf(t: TokState)
    requires
        tok_wf(t),
    ensures
        search(t) matches Ok(t2) ==> tok_wf(t2) && next_bracket(t2).0 is Some,
    decreases lines_left(t),
{
    match next_bracket(t).0 {
        Some(k) => if !is_kw(k, "[begin]"@, "[Begin]"@) {
            lemma_next_bracket(t);
            lemma_skip_rest_after(t, advance(t));
            lemma_search_wf(skip_rest(advance(t)));
        },
        None => {},
    }
}

/// Every `[submenu] (L)` entry of a parsed menu is labelled `L`: an item
/// whose kind opens submenu `id` titled `l` shows the label `l`.
pub proof fn lemma_submenu_label(content: Seq<char>, home: Option<Seq<char>>, nid: u32)
    ensures
        menu_outcome(content, home, nid).0 matches Ok((root, items)) ==> forall|i: int|
            0 <= i < items.len() ==> ((#[trigger] items[i]).kind matches KindView::Submenu(_, l)
                ==> items[i].label == l),
{
    lemma_submenu_label_inner(content, home, nid);
}

proof fn lemma_submenu_label_inner(content: Seq<char>, home: Option<Seq<char>>, nid: u32)
    ensures
        menu_outcome(content, home, nid).0 matches Ok((root, items)) ==> submenu_labels_match(items),
{
    let ls = preprocess(lines_of(content));
    match search(tok_init(ls)) {
        Err(e) => {},
        Ok(t) => {
            lemma_search_wf(tok_init(ls));
            let t1 = next_bracket(t).1;
            lemma_next_bracket(t);
            let (l, t2) = delimited(t1, '(', ')');
            lemma_delimited(t1, '(', ')');
            lemma_skip_rest_after(t1, t2);
            lemma_block_loop_labels(skip_rest(t2), 0, seq![], nid, home);
        },
    }
}

} // verus!