use rustbox::term_keys::{keysym_to_bytes, lerp_u8};

#[test]
fn glyph_coverage_blend() {
    assert_eq!(lerp_u8(0, 255, 0), 0);
    assert_eq!(lerp_u8(0, 255, 255), 255);
    assert_eq!(lerp_u8(0, 200, 128), 100);
    assert_eq!(lerp_u8(255, 0, 51), 204);
}

#[test]
fn keys_to_shell_bytes() {
    assert_eq!(keysym_to_bytes(0xFF08, false, false), Some(vec![0x7f]));
    assert_eq!(keysym_to_bytes(0xFF0D, false, false), Some(vec![0x0d]));
    assert_eq!(keysym_to_bytes(0xFF52, false, false), Some(b"\x1b[A".to_vec()));
    assert_eq!(keysym_to_bytes(0xFF55, false, false), Some(b"\x1b[5~".to_vec()));
    assert_eq!(keysym_to_bytes(0xFFBE, false, false), Some(b"\x1b[11~".to_vec()));
    assert_eq!(keysym_to_bytes(0xFFC9, false, false), Some(b"\x1b[22~".to_vec()));
    assert_eq!(keysym_to_bytes('c' as u32, false, true), Some(vec![3]));
    assert_eq!(keysym_to_bytes('q' as u32, true, false), Some(b"Q".to_vec()));
    assert_eq!(keysym_to_bytes('1' as u32, true, false), Some(b"1".to_vec()));
    assert_eq!(keysym_to_bytes(0xe9, false, false), Some("é".as_bytes().to_vec()));
    assert_eq!(keysym_to_bytes(0x20ac, false, false), Some("€".as_bytes().to_vec()));
    assert_eq!(keysym_to_bytes(0x1F600, false, false), Some("😀".as_bytes().to_vec()));
    assert_eq!(keysym_to_bytes(0xD800, false, false), None);
    assert_eq!(keysym_to_bytes(0xFFE1, false, false), Some(vec![0xEF, 0xBF, 0xA1]));
    assert_eq!(keysym_to_bytes(0x110000, false, false), None);
}
