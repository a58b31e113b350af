use rustbox::render::image::{Image, ImageControl, ImageLoadError};

#[test]
fn from_argb32_reorders_to_rgba() {
    // One pixel: ARGB = (0xAA, 0x12, 0x34, 0x56) -> RGBA = (0x12, 0x34, 0x56, 0xAA)
    let argb = [0xAA, 0x12, 0x34, 0x56];
    let img = Image::from_argb32(1, 1, &argb).unwrap();
    assert_eq!(img.data(), &[0x12, 0x34, 0x56, 0xAA][..]);
    assert_eq!(img.width, 1);
    assert_eq!(img.height, 1);
}

#[test]
fn from_argb32_rejects_short_buffer() {
    let argb = [0u8; 7];
    assert!(Image::from_argb32(2, 1, &argb).is_err());
}

#[test]
fn from_argb32_reports_sizes() {
    let argb = [0u8; 12];
    assert_eq!(
        Image::from_argb32(2, 2, &argb).err(),
        Some(ImageLoadError::WrongSize { expected: 16, actual: 12 })
    );
    let two = [1, 2, 3, 4, 5, 6, 7, 8];
    let img = Image::from_argb32(2, 1, &two).unwrap();
    assert_eq!(img.data(), &[2, 3, 4, 1, 6, 7, 8, 5][..]);
}

/// A 1x1 PNG (RGBA 10, 20, 30, 255).
fn tiny_png() -> Vec<u8> {
    vec![
        0x89, 0x50, 0x4e, 0x47, 0x0d, 0x0a, 0x1a, 0x0a, 0x00, 0x00, 0x00, 0x0d, 0x49, 0x48, 0x44,
        0x52, 0x00, 0x00, 0x00, 0x01, 0x00, 0x00, 0x00, 0x01, 0x08, 0x06, 0x00, 0x00, 0x00, 0x1f,
        0x15, 0xc4, 0x89, 0x00, 0x00, 0x00, 0x0d, 0x49, 0x44, 0x41, 0x54, 0x78, 0x9c, 0x63, 0xe0,
        0x12, 0x91, 0xfb, 0x0f, 0x00, 0x01, 0xa4, 0x01, 0x3c, 0x93, 0x8b, 0x0e, 0xb7, 0x00, 0x00,
        0x00, 0x00, 0x49, 0x45, 0x4e, 0x44, 0xae, 0x42, 0x60, 0x82,
    ]
}

#[test]
fn from_memory_decodes_and_refuses() {
    assert_eq!(Image::from_memory(&[1, 2, 3]).err(), Some(ImageLoadError::Decode));
    match Image::from_memory(&tiny_png()) {
        Ok(img) => {
            assert_eq!((img.width, img.height), (1, 1));
            assert_eq!(img.data(), &[10, 20, 30, 255][..]);
        }
        Err(e) => panic!("png did not decode: {:?}", e),
    }
}

#[test]
fn scale_keeps_or_resizes() {
    let img = Image::from_argb32(2, 1, &[255, 9, 9, 9, 255, 9, 9, 9]).unwrap();
    let same = img.scale(2, 1).unwrap();
    assert_eq!(same.data(), img.data());
    let big = img.scale(4, 3).unwrap();
    assert_eq!((big.width, big.height), (4, 3));
    assert_eq!(big.data().len(), 4 * 3 * 4);
    assert!(big.data().chunks(4).all(|p| p == [9, 9, 9, 255]));
}

#[test]
fn rgba_parts_round_trip() {
    let img = Image::from_rgba(1, 2, vec![1, 2, 3, 4, 5, 6, 7, 8]).unwrap();
    assert_eq!(img.into_data(), vec![1, 2, 3, 4, 5, 6, 7, 8]);
    assert_eq!(
        Image::from_rgba(1, 2, vec![1, 2, 3]).err(),
        Some(ImageLoadError::WrongSize { expected: 8, actual: 3 })
    );
    let img = Image::from_rgba(2, 1, vec![0; 8]).unwrap();
    assert_eq!((img.width(), img.height()), (2, 1));
}

#[test]
fn image_cache_evicts_least_recently_used() {
    let mut c = ImageControl::new(2);
    let px = |v: u8| Image::from_argb32(1, 1, &[255, v, v, v]).unwrap();
    assert!(c.cached("a").is_none());
    c.make_room();
    c.insert("a", px(1));
    c.make_room();
    c.insert("b", px(2));
    // Touch "a": "b" becomes the oldest.
    assert_eq!(c.cached("a").unwrap().data()[0], 1);
    c.make_room();
    c.insert("c", px(3));
    assert!(c.cached("b").is_none());
    assert!(c.cached("a").is_some());
    assert!(c.cached("c").is_some());
    c.remove("a");
    assert!(c.cached("a").is_none());
    c.clear();
    assert!(c.cached("c").is_none());
    assert!(c.load_memory(&[0, 1]).is_err());
    assert!(c.load_memory(&tiny_png()).is_ok());
}
