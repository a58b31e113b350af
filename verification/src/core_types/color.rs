use vstd::prelude::*;
use std::sync::Arc;
use crate::text::{
    all_ascii, digit_value, digits_value, parse_unsigned, parse_unsigned_range, range_is_ascii, range_starts_with,
    skip_leading, split_of, split_ranges, strip_leading, to_chars,
};

verus! {

/// How a color's pixel value was obtained.
#[derive(Debug, Clone, PartialEq)]
pub enum ColorAlloc {
    Unset,
    Pixel(u32),
    Named(Arc<str>),
}

/// A 16-bit-per-channel RGBA color.
#[derive(Debug, Clone, PartialEq)]
pub struct Color {
    pub red: u16,
    pub green: u16,
    pub blue: u16,
    pub alpha: u16,
    pub pixel: u32,
    pub alloc: ColorAlloc,
}

/// A plain color with the given channels, no pixel and no allocation.
pub open spec fn plain(c: Color, r: int, g: int, b: int, a: int) -> bool {
    c.red == r && c.green == g && c.blue == b && c.alpha == a && c.pixel == 0
        && c.alloc is Unset
}

/// One hexadecimal field `s[a..b]` (`u16::from_str_radix(.., 16)`).
pub open spec fn hex_field(s: Seq<char>, a: int, b: int) -> Option<nat> {
    parse_unsigned(s.subrange(a, b), 16, 0xffff)
}

/// The channels that `Color::from_hex` reads from `s`: after any leading `#`,
/// 3, 6, 8 or 12 hexadecimal digits (4, 8, 8 or 12 bits per channel; short
/// forms are scaled to 16 bits).
pub open spec fn hex_channels(s: Seq<char>) -> Option<(int, int, int, int)> {
    let h = strip_leading(s, '#');
    if !all_ascii(h) {
        None
    } else if h.len() == 3 {
        match (hex_field(h, 0, 1), hex_field(h, 1, 2), hex_field(h, 2, 3)) {
            (Some(r), Some(g), Some(b)) => Some(
                ((r * 0x1111) as int, (g * 0x1111) as int, (b * 0x1111) as int, 0xffff),
            ),
            _ => None,
        }
    } else if h.len() == 6 {
        match (hex_field(h, 0, 2), hex_field(h, 2, 4), hex_field(h, 4, 6)) {
            (Some(r), Some(g), Some(b)) => Some(
                ((r * 0x101) as int, (g * 0x101) as int, (b * 0x101) as int, 0xffff),
            ),
            _ => None,
        }
    } else if h.len() == 8 {
        match (hex_field(h, 0, 2), hex_field(h, 2, 4), hex_field(h, 4, 6), hex_field(h, 6, 8)) {
            (Some(r), Some(g), Some(b), Some(a)) => Some(
                ((r * 0x101) as int, (g * 0x101) as int, (b * 0x101) as int, (a * 0x101) as int),
            ),
            _ => None,
        }
    } else if h.len() == 12 {
        match (
            hex_field(h, 0, 3),
            hex_field(h, 3, 6),
            hex_field(h, 6, 9),
            hex_field(h, 9, 12),
        ) {
            (Some(r), Some(g), Some(b), Some(a)) => Some((r as int, g as int, b as int, a as int)),
            _ => None,
        }
    } else {
        None
    }
}

/// The channels that `parse_color` reads: `rgb:r/g/b[/a]` or
/// `rgba:r/g/b[/a]` with hexadecimal fields, else a hex color.
pub open spec fn color_channels(s: Seq<char>) -> Option<(int, int, int, int)> {
    let body = if s.len() >= 5 && s.take(5) == "rgba:"@ {
        Some(s.skip(5))
    } else if s.len() >= 4 && s.take(4) == "rgb:"@ {
        Some(s.skip(4))
    } else {
        None
    };
    match body {
        Some(b) => {
            let parts = split_of(b, '/');
            if parts.len() >= 3 {
                match (
                    parse_unsigned(parts[0], 16, 0xffff),
                    parse_unsigned(parts[1], 16, 0xffff),
                    parse_unsigned(parts[2], 16, 0xffff),
                ) {
                    (Some(r), Some(g), Some(bl)) => {
                        let a = if parts.len() > 3 {
                            match parse_unsigned(parts[3], 16, 0xffff) {
                                Some(a) => a as int,
                                None => 0xffff,
                            }
                        } else {
                            0xffff
                        };
                        Some((r as int, g as int, bl as int, a))
                    },
                    _ => None,
                }
            } else {
                hex_channels(s)
            }
        },
        None => hex_channels(s),
    }
}

/// `u16::from_str_radix(&v[lo..hi], 16)`.
fn hex_range(v: &Vec<char>, lo: usize, hi: usize) -> (r: Option<u16>)
    requires
        lo <= hi <= v@.len(),
    ensures
        match parse_unsigned(v@.subrange(lo as int, hi as int), 16, 0xffff) {
            Some(x) => r == Some(x as u16),
            None => r is None,
        },
{
    match parse_unsigned_range(v, lo, hi, 16, 0xffff) {
        Some(x) => Some(x as u16),
        None => None,
    }
}

impl Color {
    pub fn new(r: u16, g: u16, b: u16, a: u16) -> (c: Color)
        ensures
            plain(c, r as int, g as int, b as int, a as int),
    {
        Color { red: r, green: g, blue: b, alpha: a, pixel: 0, alloc: ColorAlloc::Unset }
    }

    /// A color that only carries an X pixel value.
    pub fn from_pixel(pixel: u32) -> (c: Color)
        ensures
            c.red == 0 && c.green == 0 && c.blue == 0 && c.alpha == 0xffff && c.pixel == pixel
                && c.alloc is Unset,
    {
        Color { red: 0, green: 0, blue: 0, alpha: 0xffff, pixel, alloc: ColorAlloc::Unset }
    }

    /// Parse `#rgb`, `#rrggbb`, `#rrggbbaa` or `#rrrgggbbbaaa` (the `#` is
    /// optional).
    pub fn from_hex(hex: &str) -> (r: Option<Color>)
        ensures
            match hex_channels(hex@) {
                Some((cr, cg, cb, ca)) => r is Some && plain(r->0, cr, cg, cb, ca),
                None => r is None,
            },
    {
        let v = to_chars(hex);
        assert(v@.subrange(0, v@.len() as int) =~= v@);
        Self::from_hex_chars(&v, 0, v.len())
    }

    fn from_hex_chars(v: &Vec<char>, lo: usize, hi: usize) -> (r: Option<Color>)
        requires
            lo <= hi <= v@.len(),
        ensures
            match hex_channels(v@.subrange(lo as int, hi as int)) {
                Some((cr, cg, cb, ca)) => r is Some && plain(r->0, cr, cg, cb, ca),
                None => r is None,
            },
    {
        let a = skip_leading(v, lo, hi, '#');
        let ghost h = v@.subrange(a as int, hi as int);
        if !range_is_ascii(v, a, hi) {
            return None;
        }
        let n = hi - a;
        proof {
            assert forall|x: int, y: int| 0 <= x <= y <= h.len() implies #[trigger] h.subrange(x, y)
                =~= v@.subrange(a + x, a + y) by {}
        }
        if n == 3 {
            let r = hex_range(v, a, a + 1);
            let g = hex_range(v, a + 1, a + 2);
            let b = hex_range(v, a + 2, a + 3);
            proof {
                assert(h.subrange(0, 1) =~= v@.subrange(a as int, a + 1));
                assert(h.subrange(1, 2) =~= v@.subrange(a + 1, a + 2));
                assert(h.subrange(2, 3) =~= v@.subrange(a + 2, a + 3));
            }
            match (r, g, b) {
                (Some(r), Some(g), Some(b)) => {
                    proof {
                        assert(r <= 15 && g <= 15 && b <= 15) by {
                            assert(parse_unsigned(v@.subrange(a as int, a + 1), 16, 0xffff)
                                is Some);
                            lemma_one_hex_digit(v@.subrange(a as int, a + 1));
                            lemma_one_hex_digit(v@.subrange(a + 1, a + 2));
                            lemma_one_hex_digit(v@.subrange(a + 2, a + 3));
                        }
                    }
                    Some(Color::new(r * 0x1111, g * 0x1111, b * 0x1111, 0xffff))
                },
                _ => None,
            }
        } else if n == 6 || n == 8 {
            let r = hex_range(v, a, a + 2);
            let g = hex_range(v, a + 2, a + 4);
            let b = hex_range(v, a + 4, a + 6);
            proof {
                assert(h.subrange(0, 2) =~= v@.subrange(a as int, a + 2));
                assert(h.subrange(2, 4) =~= v@.subrange(a + 2, a + 4));
                assert(h.subrange(4, 6) =~= v@.subrange(a + 4, a + 6));
            }
            let al = if n == 8 {
                proof {
                    assert(h.subrange(6, 8) =~= v@.subrange(a + 6, a + 8));
                }
                match hex_range(v, a + 6, a + 8) {
                    Some(x) => {
                        proof {
                            lemma_two_hex_digits(v@.subrange(a + 6, a + 8));
                        }
                        Some(x * 0x101)
                    },
                    None => None,
                }
            } else {
                Some(0xffffu16)
            };
            match (r, g, b, al) {
                (Some(r), Some(g), Some(b), Some(al)) => {
                    proof {
                        lemma_two_hex_digits(v@.subrange(a as int, a + 2));
                        lemma_two_hex_digits(v@.subrange(a + 2, a + 4));
                        lemma_two_hex_digits(v@.subrange(a + 4, a + 6));
                    }
                    Some(Color::new(r * 0x101, g * 0x101, b * 0x101, al))
                },
                _ => None,
            }
        } else if n == 12 {
            let r = hex_range(v, a, a + 3);
            let g = hex_range(v, a + 3, a + 6);
            let b = hex_range(v, a + 6, a + 9);
            let al = hex_range(v, a + 9, a + 12);
            proof {
                assert(h.subrange(0, 3) =~= v@.subrange(a as int, a + 3));
                assert(h.subrange(3, 6) =~= v@.subrange(a + 3, a + 6));
                assert(h.subrange(6, 9) =~= v@.subrange(a + 6, a + 9));
                assert(h.subrange(9, 12) =~= v@.subrange(a + 9, a + 12));
            }
            match (r, g, b, al) {
                (Some(r), Some(g), Some(b), Some(al)) => Some(Color::new(r, g, b, al)),
                _ => None,
            }
        } else {
            None
        }
    }

    pub fn from_rgb8(r: u8, g: u8, b: u8) -> (c: Color)
        ensures
            plain(c, (r * 0x101) as int, (g * 0x101) as int, (b * 0x101) as int, 0xffff),
    {
        Color::new((r as u16) * 0x101, (g as u16) * 0x101, (b as u16) * 0x101, 0xffff)
    }

    pub fn from_rgba8(r: u8, g: u8, b: u8, a: u8) -> (c: Color)
        ensures
            plain(c, (r * 0x101) as int, (g * 0x101) as int, (b * 0x101) as int, (a * 0x101) as int),
    {
        Color::new((r as u16) * 0x101, (g as u16) * 0x101, (b as u16) * 0x101, (a as u16) * 0x101)
    }

    /// The same color with another alpha.
    pub fn with_alpha(&self, alpha: u16) -> (c: Color)
        ensures
            c.red == self.red && c.green == self.green && c.blue == self.blue && c.alpha
                == alpha && c.pixel == self.pixel && c.alloc == self.alloc,
    {
        let alloc = match &self.alloc {
            ColorAlloc::Unset => ColorAlloc::Unset,
            ColorAlloc::Pixel(p) => ColorAlloc::Pixel(*p),
            ColorAlloc::Named(n) => ColorAlloc::Named(n.clone()),
        };
        Color {
            red: self.red,
            green: self.green,
            blue: self.blue,
            alpha,
            pixel: self.pixel,
            alloc,
        }
    }
}

proof fn lemma_one_hex_digit(s: Seq<char>)
    requires
        s.len() == 1,
        parse_unsigned(s, 16, 0xffff) is Some,
    ensures
        parse_unsigned(s, 16, 0xffff)->0 <= 15,
{
    if s[0] == '+' {
        assert(s.drop_first().len() == 0);
    }
    assert(s[0] != '+');
    assert(digits_value(s.drop_last(), 16) == 0);
    assert(digit_value(s.last(), 16) <= 15);
    assert(digits_value(s, 16) == digits_value(s.drop_last(), 16) * 16 + digit_value(s.last(), 16) as nat);
}

proof fn lemma_two_hex_digits(s: Seq<char>)
    requires
        s.len() == 2,
        parse_unsigned(s, 16, 0xffff) is Some,
    ensures
        parse_unsigned(s, 16, 0xffff)->0 <= 255,
{
    if s[0] == '+' {
        let d = s.drop_first();
        assert(d.len() == 1);
        assert(digits_value(d.drop_last(), 16) == 0);
        assert(digit_value(d.last(), 16) <= 15);
        assert(digits_value(d, 16) == digits_value(d.drop_last(), 16) * 16 + digit_value(d.last(), 16) as nat);
    } else {
        let p = s.drop_last();
        assert(p.len() == 1);
        assert(digits_value(p.drop_last(), 16) == 0);
        assert(p.last() == s[0]);
        assert(digit_value(s[0], 16) >= 0);
        assert(digit_value(s[1], 16) >= 0);
        assert(digit_value(p.last(), 16) <= 15);
        assert(digits_value(p, 16) == digits_value(p.drop_last(), 16) * 16 + digit_value(p.last(), 16) as nat);
        assert(digit_value(s.last(), 16) <= 15);
        assert(digits_value(s, 16) == digits_value(p, 16) * 16 + digit_value(s.last(), 16) as nat);
    }
}

impl Default for Color {
    fn default() -> (c: Color)
        ensures
            plain(c, 0, 0, 0, 0xffff),
    {
        Color::new(0, 0, 0, 0xffff)
    }
}

/// Parse `rgb:r/g/b[/a]`, `rgba:r/g/b[/a]` (hexadecimal fields) or a hex
/// color.
pub fn parse_color(s: &str) -> (r: Option<Color>)
    ensures
        match color_channels(s@) {
            Some((cr, cg, cb, ca)) => r is Some && plain(r->0, cr, cg, cb, ca),
            None => r is None,
        },
{
    let v = to_chars(s);
    let n = v.len();
    assert(v@.subrange(0, n as int) =~= v@);
    proof {
        reveal_strlit("rgba:");
        reveal_strlit("rgb:");
    }
    let body = if range_starts_with(&v, 0, n, "rgba:") {
        5usize
    } else if range_starts_with(&v, 0, n, "rgb:") {
        4usize
    } else {
        0usize
    };
    proof {
        if n >= 5 {
            assert(v@.take(5) =~= v@.subrange(0, 5));
        }
        if n >= 4 {
            assert(v@.take(4) =~= v@.subrange(0, 4));
        }
    }
    if body > 0 {
        let parts = split_ranges(&v, body, n, '/');
        proof {
            assert(v@.subrange(body as int, n as int) =~= v@.skip(body as int));
        }
        if parts.len() >= 3 {
            let (a0, b0) = parts[0];
            let (a1, b1) = parts[1];
            let (a2, b2) = parts[2];
            let r = hex_range(&v, a0, b0);
            let g = hex_range(&v, a1, b1);
            let b = hex_range(&v, a2, b2);
            match (r, g, b) {
                (Some(r), Some(g), Some(b)) => {
                    let a = if parts.len() > 3 {
                        let (a3, b3) = parts[3];
                        match hex_range(&v, a3, b3) {
                            Some(x) => x,
                            None => 0xffff,
                        }
                    } else {
                        0xffff
                    };
                    return Some(Color::new(r, g, b, a));
                },
                _ => {
                    return None;
                },
            }
        }
    }
    Color::from_hex_chars(&v, 0, n)
}

} // verus!
