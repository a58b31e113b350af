//! The small terminal's key input and glyph shading: what bytes a key sends
//! to the shell, and how glyph coverage blends two color channels.

use vstd::prelude::*;

verus! {

/// `a` and `b` mixed by `t` out of 255 (integer division).
pub fn lerp_u8(a: u8, b: u8, t: u8) -> (r: u8)
    ensures
        r == (a * (255 - t) + b * t) / 255,
{
    let t = t as u16;
    let a = a as u16;
    let b = b as u16;
    assert(a * (255 - t) + b * t <= 255 * 255) by (nonlinear_arith)
        requires
            a <= 255,
            b <= 255,
            t <= 255,
    ;
    assert(a * (255 - t) <= 255 * 255) by (nonlinear_arith)
        requires
            a <= 255,
            t <= 255,
    ;
    assert(b * t <= 255 * 255) by (nonlinear_arith)
        requires
            b <= 255,
            t <= 255,
    ;
    ((a * (255 - t) + b * t) / 255) as u8
}

/// A Unicode scalar value (what `char::from_u32` accepts).
pub open spec fn is_scalar(v: u32) -> bool {
    v < 0xD800 || (0xE000 <= v && v <= 0x10FFFF)
}

/// The UTF-8 encoding of the scalar value `c`.
pub open spec fn utf8_of(c: u32) -> Seq<u8> {
    if c < 0x80 {
        seq![c as u8]
    } else if c < 0x800 {
        seq![(0xC0 + c / 64) as u8, (0x80 + c % 64) as u8]
    } else if c < 0x10000 {
        seq![(0xE0 + c / 4096) as u8, (0x80 + (c / 64) % 64) as u8, (0x80 + c % 64) as u8]
    } else {
        seq![
            (0xF0 + c / 262144) as u8,
            (0x80 + (c / 4096) % 64) as u8,
            (0x80 + (c / 64) % 64) as u8,
            (0x80 + c % 64) as u8,
        ]
    }
}

/// `ESC [` followed by `tail`.
pub open spec fn csi(tail: Seq<u8>) -> Seq<u8> {
    seq![0x1Bu8, 0x5Bu8] + tail
}

/// The bytes a key sends: control keys their byte, Home/End and the arrows
/// and page keys their escape sequences, F1..F12 `ESC [ n ~` with `n` from
/// 11 to 22, Ctrl with a lowercase letter the letter's control byte, and
/// any other character its UTF-8 encoding (uppercased when Shift is held
/// and it is an ASCII letter); nothing for a keysym that is no character.
pub open spec fn key_bytes(ks: u32, shift: bool, ctrl: bool) -> Option<Seq<u8>> {
    if ks == 0xFF08 {
        Some(seq![0x7Fu8])
    } else if ks == 0xFF09 {
        Some(seq![0x09u8])
    } else if ks == 0xFF0D {
        Some(seq![0x0Du8])
    } else if ks == 0xFF1B {
        Some(seq![0x1Bu8])
    } else if ks == 0xFF50 {
        Some(csi(seq![0x48u8]))
    } else if ks == 0xFF57 {
        Some(csi(seq![0x46u8]))
    } else if ks == 0xFF51 {
        Some(csi(seq![0x44u8]))
    } else if ks == 0xFF52 {
        Some(csi(seq![0x41u8]))
    } else if ks == 0xFF53 {
        Some(csi(seq![0x43u8]))
    } else if ks == 0xFF54 {
        Some(csi(seq![0x42u8]))
    } else if ks == 0xFF55 {
        Some(csi(seq![0x35u8, 0x7Eu8]))
    } else if ks == 0xFF56 {
        Some(csi(seq![0x36u8, 0x7Eu8]))
    } else if 0xFFBE <= ks && ks <= 0xFFC9 {
        let n = 10 + (ks - 0xFFBE) + 1;
        Some(csi(seq![(0x30 + n / 10) as u8, (0x30 + n % 10) as u8, 0x7Eu8]))
    } else if !is_scalar(ks) {
        None
    } else if ctrl && 0x61 <= ks && ks <= 0x7A {
        Some(seq![(ks - 0x61 + 1) as u8])
    } else if shift && 0x61 <= ks && ks <= 0x7A {
        Some(utf8_of((ks - 32) as u32))
    } else {
        Some(utf8_of(ks))
    }
}

/// The bytes that the key with keysym `ks` sends to the shell.
pub fn keysym_to_bytes(ks: u32, shift: bool, ctrl: bool) -> (r: Option<Vec<u8>>)
    ensures
        match key_bytes(ks, shift, ctrl) {
            Some(b) => r matches Some(v) && v@ == b,
            None => r is None,
        },
{
    let fixed: Option<Vec<u8>> = if ks == 0xFF08 {
        Some(vec![0x7Fu8])
    } else if ks == 0xFF09 {
        Some(vec![0x09u8])
    } else if ks == 0xFF0D {
        Some(vec![0x0Du8])
    } else if ks == 0xFF1B {
        Some(vec![0x1Bu8])
    } else if ks == 0xFF50 {
        Some(vec![0x1Bu8, 0x5B, 0x48])
    } else if ks == 0xFF57 {
        Some(vec![0x1Bu8, 0x5B, 0x46])
    } else if ks == 0xFF51 {
        Some(vec![0x1Bu8, 0x5B, 0x44])
    } else if ks == 0xFF52 {
        Some(vec![0x1Bu8, 0x5B, 0x41])
    } else if ks == 0xFF53 {
        Some(vec![0x1Bu8, 0x5B, 0x43])
    } else if ks == 0xFF54 {
        Some(vec![0x1Bu8, 0x5B, 0x42])
    } else if ks == 0xFF55 {
        Some(vec![0x1Bu8, 0x5B, 0x35, 0x7E])
    } else if ks == 0xFF56 {
        Some(vec![0x1Bu8, 0x5B, 0x36, 0x7E])
    } else if 0xFFBE <= ks && ks <= 0xFFC9 {
        let n = 10 + (ks - 0xFFBE) + 1;
        Some(vec![0x1Bu8, 0x5B, (0x30 + n / 10) as u8, (0x30 + n % 10) as u8, 0x7E])
    } else {
        None
    };
    if fixed.is_some() {
        assert(key_bytes(ks, shift, ctrl) is Some);
        return fixed;
    }
    if !(ks < 0xD800 || (0xE000 <= ks && ks <= 0x10FFFF)) {
        return None;
    }
    if ctrl && 0x61 <= ks && ks <= 0x7A {
        return Some(vec![(ks - 0x61 + 1) as u8]);
    }
    let c: u32 = if shift && 0x61 <= ks && ks <= 0x7A { ks - 32 } else { ks };
    Some(encode_utf8(c))
}

/// The UTF-8 encoding of a scalar value at most 0x10FFFF.
fn encode_utf8(c: u32) -> (r: Vec<u8>)
    requires
        c <= 0x10FFFF,
    ensures
        r@ == utf8_of(c),
{
    if c < 0x80 {
        vec![c as u8]
    } else if c < 0x800 {
        vec![(0xC0 + c / 64) as u8, (0x80 + c % 64) as u8]
    } else if c < 0x10000 {
        vec![(0xE0 + c / 4096) as u8, (0x80 + (c / 64) % 64) as u8, (0x80 + c % 64) as u8]
    } else {
        vec![
            (0xF0 + c / 262144) as u8,
            (0x80 + (c / 4096) % 64) as u8,
            (0x80 + (c / 64) % 64) as u8,
            (0x80 + c % 64) as u8,
        ]
    }
}

} // verus!
