//! Style themes: `key: value` resources, read as strings, colors, numbers,
//! flags and textures.

use vstd::prelude::*;
use crate::core_types::{Color, TextureType};
use crate::core_types::color::hex_channels;
use crate::core_types::types::{texture_keyword, texture_keyword_exec};
use crate::render::texture::{color_val, default_color, GradientType, Texture};
use crate::text::{
    chars_eq, find_char, index_of, lines, lines_of, parse_signed, parse_signed_range,
    parse_unsigned, parse_unsigned_range, range_starts_with, str_eq, string_of, to_chars,
    to_lowercase, trim, trim_range, unicode_lower, v_range, word_ranges, words_of,
};

verus! {

/// The value that `key` has in `res`: the first pair with that key (the
/// one set last).
pub open spec fn res_lookup(res: Seq<(Seq<char>, Seq<char>)>, key: Seq<char>) -> Option<Seq<char>>
    decreases res.len(),
{
    if res.len() == 0 {
        None
    } else if res[0].0 == key {
        Some(res[0].1)
    } else {
        res_lookup(res.drop_first(), key)
    }
}

proof fn lemma_lookup_push(s: Seq<(Seq<char>, Seq<char>)>, x: (Seq<char>, Seq<char>), k: Seq<char>)
    ensures
        res_lookup(s.push(x), k) == (match res_lookup(s, k) {
            Some(v) => Some(v),
            None => if x.0 == k {
                Some(x.1)
            } else {
                None
            },
        }),
    decreases s.len(),
{
    if s.len() > 0 {
        assert(s.push(x).drop_first() =~= s.drop_first().push(x));
        assert(s.push(x)[0] == s[0]);
        lemma_lookup_push(s.drop_first(), x, k);
    } else {
        assert(s.push(x).drop_first() =~= Seq::<(Seq<char>, Seq<char>)>::empty());
        assert(s.push(x)[0] == x);
        assert(res_lookup(s.push(x).drop_first(), k) is None);
    }
}

/// The resources of `res` as a map.
pub open spec fn res_map(res: Seq<(Seq<char>, Seq<char>)>) -> Map<Seq<char>, Seq<char>> {
    Map::new(|k: Seq<char>| res_lookup(res, k) is Some, |k: Seq<char>| res_lookup(res, k)->0)
}

pub open spec fn pairs_view(v: Seq<(String, String)>) -> Seq<(Seq<char>, Seq<char>)> {
    v.map_values(|p: (String, String)| (p.0@, p.1@))
}

/// One line of a theme file read into `m`: `key: value` (both trimmed);
/// empty lines and lines starting with `!` or `#` are skipped, as are lines
/// without a colon.
pub open spec fn resource_line(m: Map<Seq<char>, Seq<char>>, raw: Seq<char>) -> Map<Seq<char>, Seq<char>> {
    let line = trim(raw);
    if line.len() == 0 || line[0] == '!' || line[0] == '#' {
        m
    } else {
        let e = index_of(line, ':');
        if e < 0 {
            m
        } else {
            m.insert(trim(line.take(e)), trim(line.skip(e + 1)))
        }
    }
}

/// The resources that the lines `ls` define, later lines winning.
pub open spec fn resources_of(ls: Seq<Seq<char>>) -> Map<Seq<char>, Seq<char>>
    decreases ls.len(),
{
    if ls.len() == 0 {
        Map::empty()
    } else {
        resource_line(resources_of(ls.drop_last()), ls.last())
    }
}

/// `p` is a prefix of `s`.
pub open spec fn has_prefix(s: Seq<char>, p: Seq<char>) -> bool {
    p.len() <= s.len() && s.take(p.len() as int) == p
}

/// `s` with every leading copy of `p` removed (`trim_start_matches`).
pub open spec fn strip_prefix_rep(s: Seq<char>, p: Seq<char>) -> Seq<char>
    decreases s.len(),
{
    if p.len() > 0 && has_prefix(s, p) {
        strip_prefix_rep(s.skip(p.len() as int), p)
    } else {
        s
    }
}

/// The gradient a (lowercase) name denotes; horizontal for others.
pub open spec fn gradient_named(n: Seq<char>) -> GradientType {
    if n == "diagonal"@ {
        GradientType::Diagonal
    } else if n == "horizontal"@ {
        GradientType::Horizontal
    } else if n == "vertical"@ {
        GradientType::Vertical
    } else if n == "crossdiagonal"@ {
        GradientType::CrossDiagonal
    } else if n == "pyramid"@ {
        GradientType::Pyramid
    } else if n == "rectangle"@ {
        GradientType::Rectangle
    } else if n == "pipecross"@ {
        GradientType::PipeCross
    } else if n == "elliptic"@ {
        GradientType::Elliptic
    } else if n == "mirrorhorizontal"@ {
        GradientType::MirrorHorizontal
    } else if n == "mirrorvertical"@ {
        GradientType::MirrorVertical
    } else {
        GradientType::Horizontal
    }
}

/// `Color::from_hex(s).unwrap_or_default()`.
pub open spec fn hex_or_default(s: Seq<char>) -> Color {
    match hex_channels(s) {
        Some((r, g, b, a)) => color_val(r, g, b, a),
        None => default_color(),
    }
}

/// One word of a texture description applied to `t`: a texture type, a
/// `gradient<kind>`, a color (`#...` or `rgb:...`; the first one read while
/// the start color is black sets it, later ones the end color), or a bevel
/// width.
pub open spec fn texture_word(t: Texture, part: Seq<char>) -> Texture {
    let lower = unicode_lower(part);
    match texture_keyword(lower) {
        Some(tt) => Texture { type_: tt, ..t },
        None => if has_prefix(lower, "gradient"@) {
            Texture {
                type_: TextureType::Gradient,
                gradient: gradient_named(strip_prefix_rep(lower, "gradient"@)),
                ..t
            }
        } else if (part.len() > 0 && part[0] == '#') || has_prefix(part, "rgb:"@) {
            if t.color.red == 0 && t.color.green == 0 && t.color.blue == 0 {
                Texture { color: hex_or_default(part), ..t }
            } else {
                Texture { color_to: hex_or_default(part), ..t }
            }
        } else {
            match parse_unsigned(part, 10, 0xffff) {
                Some(n) => Texture { bevel_width: n as u16, ..t },
                None => t,
            }
        },
    }
}

/// The words `ws` applied to `t` in order.
pub open spec fn texture_words(t: Texture, ws: Seq<Seq<char>>) -> Texture
    decreases ws.len(),
{
    if ws.len() == 0 {
        t
    } else {
        texture_word(texture_words(t, ws.drop_last()), ws.last())
    }
}

/// The value of a color resource: `rgb:...` and `#...` values lose every
/// leading `rgb:` before being read as hex.
pub open spec fn color_value(v: Seq<char>) -> Option<Color> {
    let s = if has_prefix(v, "rgb:"@) || (v.len() > 0 && v[0] == '#') {
        strip_prefix_rep(v, "rgb:"@)
    } else {
        v
    };
    match hex_channels(s) {
        Some((r, g, b, a)) => Some(color_val(r, g, b, a)),
        None => None,
    }
}

/// Whether a value means yes (Unicode lowercase `true`, `yes`, `1`, `on`).
pub open spec fn yes_value(v: Seq<char>) -> bool {
    let l = unicode_lower(v);
    l == "true"@ || l == "yes"@ || l == "1"@ || l == "on"@
}

pub struct Theme {
    name: String,
    parent: Option<Box<Theme>>,
    resources: Vec<(String, String)>,
}

fn copy_string(s: &String) -> (r: String)
    ensures
        r@ == s@,
{
    s.clone()
}

impl Theme {
    pub closed spec fn name_view(&self) -> Seq<char> {
        self.name@
    }

    /// The theme's resources.
    pub closed spec fn resources_view(&self) -> Map<Seq<char>, Seq<char>> {
        res_map(pairs_view(self.resources@))
    }

    /// An empty theme called `name`.
    pub fn new(name: &str) -> (r: Self)
        ensures
            r.name_view() == name@,
            r.resources_view() == Map::<Seq<char>, Seq<char>>::empty(),
    {
        let r = Theme { name: String::from_str(name), parent: None, resources: Vec::new() };
        assert(r.resources_view() =~= Map::<Seq<char>, Seq<char>>::empty());
        r
    }

    /// Set resource `key` to `value`.
    fn insert(&mut self, key: String, value: String)
        ensures
            final(self).resources_view() == old(self).resources_view().insert(key@, value@),
            final(self).name_view() == old(self).name_view(),
    {
        let ghost before = pairs_view(self.resources@);
        self.resources.insert(0, (key, value));
        proof {
            let after = pairs_view(self.resources@);
            assert(after.drop_first() =~= before);
            assert(after[0] == (key@, value@));
            assert(res_map(after) =~= res_map(before).insert(key@, value@));
        }
    }

    /// A theme called `name` with the resources that the text of a theme
    /// file defines.
    pub fn from_text(name: &str, content: &str) -> (r: Self)
        ensures
            r.name_view() == name@,
            r.resources_view() == resources_of(lines_of(content@)),
    {
        let mut theme = Theme::new(name);
        let ls = lines(content);
        let ghost lsv = lines_of(content@);
        let mut i: usize = 0;
        while i < ls.len()
            invariant
                i <= ls@.len(),
                ls@.len() == lsv.len(),
                lsv == lines_of(content@),
                forall|j: int| 0 <= j < ls@.len() ==> #[trigger] ls@[j]@ == lsv[j],
                theme.name_view() == name@,
                theme.resources_view() == resources_of(lsv.take(i as int)),
            decreases ls@.len() - i,
        {
            proof {
                assert(lsv.take(i + 1).drop_last() =~= lsv.take(i as int));
                assert(lsv.take(i + 1).last() == ls@[i as int]@);
            }
            let l = &ls[i];
            let n = l.len();
            let (a, b) = trim_range(l, 0, n);
            assert(l@.subrange(0, n as int) =~= l@);
            let ghost line = l@.subrange(a as int, b as int);
            if !(a == b || l[a] == '!' || l[a] == '#') {
                match find_char(l, a, b, ':') {
                    Some(e) => {
                        let (ka, kb) = trim_range(l, a, e);
                        let (va, vb) = trim_range(l, e + 1, b);
                        assert(line.take(e - a) =~= l@.subrange(a as int, e as int));
                        assert(line.skip(e - a + 1) =~= l@.subrange(e + 1, b as int));
                        theme.insert(string_of(l, ka, kb), string_of(l, va, vb));
                    },
                    None => {},
                }
            }
            i = i + 1;
        }
        assert(lsv.take(ls@.len() as int) =~= lsv);
        theme
    }

    pub fn name(&self) -> (r: &str)
        ensures
            r@ == self.name_view(),
    {
        self.name.as_str()
    }

    /// The value of resource `key`.
    pub fn get(&self, key: &str) -> (r: Option<&str>)
        ensures
            r is Some <==> self.resources_view().contains_key(key@),
            r matches Some(v) ==> v@ == self.resources_view()[key@],
    {
        let ghost p = pairs_view(self.resources@);
        let mut i: usize = 0;
        assert(p.skip(0) =~= p);
        while i < self.resources.len()
            invariant
                i <= self.resources@.len(),
                p == pairs_view(self.resources@),
                res_lookup(p, key@) == res_lookup(p.skip(i as int), key@),
            decreases self.resources@.len() - i,
        {
            proof {
                assert(p.skip(i as int).drop_first() =~= p.skip(i + 1));
                assert(p.skip(i as int)[0] == p[i as int]);
            }
            if str_eq(self.resources[i].0.as_str(), key) {
                return Some(self.resources[i].1.as_str());
            }
            i = i + 1;
        }
        assert(p.skip(i as int).len() == 0);
        None
    }

    /// Resource `key` as a color.
    pub fn get_color(&self, key: &str) -> (r: Option<Color>)
        ensures
            r == (if self.resources_view().contains_key(key@) {
                color_value(self.resources_view()[key@])
            } else {
                None
            }),
    {
        match self.get(key) {
            None => None,
            Some(v) => {
                let c = to_chars(v);
                let n = c.len();
                let mut a: usize = 0;
                let prefixed = range_starts_with(&c, 0, n, "rgb:") || (n > 0 && c[0] == '#');
                proof {
                    reveal_strlit("rgb:");
                    assert(c@.subrange(0, n as int) =~= c@);
                }
                if prefixed {
                    while range_starts_with(&c, a, n, "rgb:")
                        invariant
                            a <= n == c@.len(),
                            strip_prefix_rep(c@, "rgb:"@) == strip_prefix_rep(
                                c@.subrange(a as int, n as int),
                                "rgb:"@,
                            ),
                        decreases n - a,
                    {
                        proof {
                            reveal_strlit("rgb:");
                            assert(c@.subrange(a as int, n as int).skip(4) =~= c@.subrange(
                                a + 4,
                                n as int,
                            ));
                            assert(c@.subrange(a as int, n as int).take(4) =~= c@.subrange(
                                a as int,
                                a + 4,
                            ));
                        }
                        a = a + 4;
                    }
                    proof {
                        reveal_strlit("rgb:");
                        let t = c@.subrange(a as int, n as int);
                        if has_prefix(t, "rgb:"@) {
                            assert(t.take(4) =~= c@.subrange(a as int, a + 4));
                        }
                    }
                }
                let s = string_of(&c, a, n);
                assert(c@.subrange(0, n as int) =~= c@);
                match Color::from_hex(s.as_str()) {
                    Some(col) => {
                        proof {
                            assert(col == color_val(col.red as int, col.green as int, col.blue as int, col.alpha as int));
                        }
                        Some(col)
                    },
                    None => None,
                }
            },
        }
    }

    /// Resource `key` as a 32-bit number.
    pub fn get_int(&self, key: &str) -> (r: Option<i32>)
        ensures
            r == (if self.resources_view().contains_key(key@) {
                match parse_signed(self.resources_view()[key@], i32::MIN as int, i32::MAX as int) {
                    Some(x) => Some(x as i32),
                    None => None,
                }
            } else {
                None
            }),
    {
        match self.get(key) {
            None => None,
            Some(v) => {
                let c = to_chars(v);
                assert(c@.subrange(0, c@.len() as int) =~= c@);
                match parse_signed_range(&c, 0, c.len(), i32::MIN as i64, i32::MAX as i64) {
                    Some(x) => Some(x as i32),
                    None => None,
                }
            },
        }
    }

    /// Resource `key` as a flag.
    pub fn get_bool(&self, key: &str) -> (r: Option<bool>)
        ensures
            r == (if self.resources_view().contains_key(key@) {
                Some(yes_value(self.resources_view()[key@]))
            } else {
                None
            }),
    {
        match self.get(key) {
            None => None,
            Some(v) => {
                let l = to_lowercase(v);
                let c = to_chars(l.as_str());
                Some(chars_eq(&c, "true") || chars_eq(&c, "yes") || chars_eq(&c, "1") || chars_eq(
                    &c,
                    "on",
                ))
            },
        }
    }

    /// Resource `key` read as a texture description, word by word, from a
    /// new texture.
    pub fn get_texture(&self, key: &str) -> (r: Option<Texture>)
        ensures
            r == (if self.resources_view().contains_key(key@) {
                Some(texture_words(Texture::spec_new(), words_of(self.resources_view()[key@])))
            } else {
                None
            }),
    {
        match self.get(key) {
            None => None,
            Some(v) => {
                let c = to_chars(v);
                let n = c.len();
                let ws = word_ranges(&c, 0, n);
                assert(c@.subrange(0, n as int) =~= c@);
                let ghost wv = words_of(c@);
                let mut t = Texture::new();
                let mut i: usize = 0;
                while i < ws.len()
                    invariant
                        i <= ws@.len(),
                        n == c@.len(),
                        wv == words_of(c@),
                        ws@.len() == wv.len(),
                        forall|j: int|
                            0 <= j < ws@.len() ==> (#[trigger] ws@[j]).0 <= ws@[j].1 <= n
                                && c@.subrange(ws@[j].0 as int, ws@[j].1 as int) == wv[j],
                        t == texture_words(Texture::spec_new(), wv.take(i as int)),
                    decreases ws@.len() - i,
                {
                    proof {
                        assert(wv.take(i + 1).drop_last() =~= wv.take(i as int));
                        assert(wv.take(i + 1).last() == wv[i as int]);
                    }
                    let (a, b) = ws[i];
                    let part = v_range(&c, a, b);
                    t = apply_texture_word(t, &part);
                    i = i + 1;
                }
                assert(wv.take(i as int) =~= wv);
                Some(t)
            },
        }
    }

    /// Add the resources of `other` that this theme does not have.
    pub fn merge(&mut self, other: Theme)
        ensures
            final(self).resources_view() == other.resources_view().union_prefer_right(
                old(self).resources_view(),
            ),
            final(self).name_view() == old(self).name_view(),
    {
        let ghost m0 = self.resources_view();
        let ghost om = other.resources_view();
        let ghost op = pairs_view(other.resources@);
        let mut i: usize = 0;
        while i < other.resources.len()
            invariant
                i <= other.resources@.len(),
                op == pairs_view(other.resources@),
                om == res_map(op),
                self.name_view() == old(self).name_view(),
                self.resources_view() == res_map(op.take(i as int)).union_prefer_right(m0),
            decreases other.resources@.len() - i,
        {
            let ghost before = self.resources_view();
            let k = &other.resources[i].0;
            let v = &other.resources[i].1;
            proof {
                assert(op.take(i + 1).drop_last() =~= op.take(i as int));
                assert(op.take(i + 1).last() == op[i as int]);
            }
            if self.get(k.as_str()).is_none() {
                self.insert(copy_string(k), copy_string(v));
            }
            proof {
                assert forall|k2: Seq<char>| true implies #[trigger] res_lookup(op.take(i + 1), k2) == (match res_lookup(op.take(i as int), k2) {
                    Some(x) => Some(x),
                    None => if op[i as int].0 == k2 {
                        Some(op[i as int].1)
                    } else {
                        None
                    },
                }) by {
                    assert(op.take(i + 1) =~= op.take(i as int).push(op[i as int]));
                    lemma_lookup_push(op.take(i as int), op[i as int], k2);
                }
                assert(self.resources_view() =~= res_map(op.take(i + 1)).union_prefer_right(m0));
            }
            i = i + 1;
        }
        assert(op.take(i as int) =~= op);
    }
}

/// One word of a texture description applied to `t`.
fn apply_texture_word(t: Texture, part: &Vec<char>) -> (r: Texture)
    ensures
        r == texture_word(t, part@),
{
    let n = part.len();
    let ps = string_of(part, 0, n);
    assert(part@.subrange(0, n as int) =~= part@);
    let lower = to_lowercase(ps.as_str());
    let lc = to_chars(lower.as_str());
    let m = lc.len();
    let mut t = t;
    match texture_keyword_exec(&lc) {
        Some(tt) => {
            t.type_ = tt;
            return t;
        },
        None => {},
    }
    proof {
        reveal_strlit("gradient");
        reveal_strlit("rgb:");
        assert(lc@.subrange(0, m as int) =~= lc@);
    }
    if range_starts_with(&lc, 0, m, "gradient") {
        let mut a: usize = 0;
        while range_starts_with(&lc, a, m, "gradient")
            invariant
                a <= m == lc@.len(),
                strip_prefix_rep(lc@, "gradient"@) == strip_prefix_rep(
                    lc@.subrange(a as int, m as int),
                    "gradient"@,
                ),
            decreases m - a,
        {
            proof {
                reveal_strlit("gradient");
                assert(lc@.subrange(a as int, m as int).skip(8) =~= lc@.subrange(a + 8, m as int));
                assert(lc@.subrange(a as int, m as int).take(8) =~= lc@.subrange(a as int, a + 8));
            }
            a = a + 8;
        }
        proof {
            reveal_strlit("gradient");
            let rest = lc@.subrange(a as int, m as int);
            if has_prefix(rest, "gradient"@) {
                assert(rest.take(8) =~= lc@.subrange(a as int, a + 8));
            }
        }
        let g = v_range(&lc, a, m);
        t.type_ = TextureType::Gradient;
        t.gradient = gradient_of(&g);
        return t;
    }
    if (n > 0 && part[0] == '#') || range_starts_with(part, 0, n, "rgb:") {
        let c = match Color::from_hex(ps.as_str()) {
            Some(c) => c,
            None => Color::default(),
        };
        if t.color.red == 0 && t.color.green == 0 && t.color.blue == 0 {
            t.color = c;
        } else {
            t.color_to = c;
        }
        return t;
    }
    match parse_unsigned_range(part, 0, n, 10, 0xffff) {
        Some(x) => {
            t.bevel_width = x as u16;
        },
        None => {},
    }
    t
}

fn gradient_of(g: &Vec<char>) -> (r: GradientType)
    ensures
        r == gradient_named(g@),
{
    if chars_eq(g, "diagonal") {
        GradientType::Diagonal
    } else if chars_eq(g, "horizontal") {
        GradientType::Horizontal
    } else if chars_eq(g, "vertical") {
        GradientType::Vertical
    } else if chars_eq(g, "crossdiagonal") {
        GradientType::CrossDiagonal
    } else if chars_eq(g, "pyramid") {
        GradientType::Pyramid
    } else if chars_eq(g, "rectangle") {
        GradientType::Rectangle
    } else if chars_eq(g, "pipecross") {
        GradientType::PipeCross
    } else if chars_eq(g, "elliptic") {
        GradientType::Elliptic
    } else if chars_eq(g, "mirrorhorizontal") {
        GradientType::MirrorHorizontal
    } else if chars_eq(g, "mirrorvertical") {
        GradientType::MirrorVertical
    } else {
        GradientType::Horizontal
    }
}

/// The current theme and the path it was read from.
pub struct ThemeManager {
    current_theme: Option<Theme>,
    theme_path: Option<String>,
}

impl ThemeManager {
    pub closed spec fn has_theme(&self) -> bool {
        self.current_theme is Some
    }

    pub closed spec fn path_view(&self) -> Option<Seq<char>> {
        match self.theme_path {
            Some(p) => Some(p@),
            None => None,
        }
    }

    /// The current theme's resources.
    pub closed spec fn theme_resources(&self) -> Map<Seq<char>, Seq<char>> {
        self.current_theme->0.resources_view()
    }

    pub closed spec fn theme_name(&self) -> Seq<char> {
        self.current_theme->0.name_view()
    }

    /// No theme yet.
    pub fn new() -> (r: Self)
        ensures
            !r.has_theme(),
            r.path_view() is None,
    {
        ThemeManager { current_theme: None, theme_path: None }
    }

    /// Make the theme that the text `content` of the file at `path` defines
    /// (called `name`, the file's stem) the current one.
    pub fn load_theme(&mut self, path: &str, name: &str, content: &str)
        ensures
            final(self).has_theme(),
            final(self).theme_name() == name@,
            final(self).theme_resources() == resources_of(lines_of(content@)),
            final(self).path_view() == Some(path@),
    {
        let theme = Theme::from_text(name, content);
        self.theme_path = Some(String::from_str(path));
        self.current_theme = Some(theme);
    }

    pub fn theme(&self) -> (r: Option<&Theme>)
        ensures
            r is Some <==> self.has_theme(),
            r matches Some(t) ==> t.resources_view() == self.theme_resources() && t.name_view()
                == self.theme_name(),
    {
        match &self.current_theme {
            Some(t) => Some(t),
            None => None,
        }
    }

    /// The current theme as a value.
    pub closed spec fn theme_value(&self) -> Theme {
        self.current_theme->0
    }

    /// The current theme, to be changed in place.
    pub fn theme_mut(&mut self) -> (r: Option<&mut Theme>)
        ensures
            r is Some <==> old(self).has_theme(),
            r matches Some(t) ==> *t == old(self).theme_value() && final(self).has_theme()
                && final(self).theme_value() == *final(t),
            r is None ==> *final(self) == *old(self),
            final(self).path_view() == old(self).path_view(),
    {
        match &mut self.current_theme {
            Some(t) => Some(t),
            None => None,
        }
    }

    pub fn theme_path(&self) -> (r: Option<&str>)
        ensures
            r is Some <==> self.path_view() is Some,
            r matches Some(p) ==> Some(p@) == self.path_view(),
    {
        match &self.theme_path {
            Some(p) => Some(p.as_str()),
            None => None,
        }
    }
}

impl Default for ThemeManager {
    fn default() -> (r: Self)
        ensures
            !r.has_theme(),
            r.path_view() is None,
    {
        Self::new()
    }
}

/// How `get_bool` reads a flag: a present resource reads as `Some(true)`
/// exactly when its value, in lowercase, is `true`, `yes`, `1` or `on`; one whose
/// value is `false`, `no`, `0`, `off` or empty reads as `Some(false)`; a
/// missing one as `None`.
pub proof fn lemma_flag_words(t: Theme, key: Seq<char>)
    ensures
        t.resources_view().contains_key(key) ==> {
            let l = unicode_lower(t.resources_view()[key]);
            &&& (l == "true"@ || l == "yes"@ || l == "1"@ || l == "on"@) <==> yes_value(
                t.resources_view()[key],
            )
            &&& (l == "false"@ || l == "no"@ || l == "0"@ || l == "off"@ || l.len() == 0)
                ==> !yes_value(t.resources_view()[key])
        },
{
    reveal_strlit("true");
    reveal_strlit("yes");
    reveal_strlit("1");
    reveal_strlit("on");
    reveal_strlit("false");
    reveal_strlit("no");
    reveal_strlit("0");
    reveal_strlit("off");
    if t.resources_view().contains_key(key) {
        let v = t.resources_view()[key];
        let l = unicode_lower(v);
        if l == "false"@ {
            assert(l.len() == 5);
            assert("true"@.len() == 4);
            assert(l != "true"@);
            assert(!yes_value(v));
        }
        if l == "no"@ {
            assert(l[0] != "on"@[0]);
            assert(!yes_value(v));
        }
        if l == "0"@ {
            assert(l[0] != "1"@[0]);
            assert(!yes_value(v));
        }
        if l == "off"@ {
            assert(l[0] != "yes"@[0]);
            assert(l.len() == 3);
            assert(l != "yes"@);
            assert(l != "on"@);
            assert(l != "1"@);
            assert(l != "true"@);
            assert(!yes_value(v));
        }
        if l.len() == 0 {
            assert(!yes_value(v));
        }
    }
}

} // verus!