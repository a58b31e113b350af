//! RGBA8 images: decoding, tray-icon pixel buffers, scaling, and a small
//! cache of loaded images.

use vstd::prelude::*;
use std::sync::Arc;
use image::{DynamicImage, GenericImageView};

verus! {

#[verifier::external_type_specification]
#[verifier::external_body]
pub struct ExImageError(image::ImageError);

/// The RGBA8 image (width, height, bytes) that `image::load_from_memory`
/// decodes from `data`, if it decodes.
pub uninterp spec fn decoded(data: Seq<u8>) -> Option<(u32, u32, Seq<u8>)>;

/// The RGBA8 bytes of the `width` x `height` image `data` resized to exactly
/// `nwidth` x `nheight` with a triangle filter (`resize_exact`).
pub uninterp spec fn resized(width: u32, height: u32, data: Seq<u8>, nwidth: u32, nheight: u32) -> Seq<u8>;

/// `image::load_from_memory` followed by `to_rgba8`: the image's size and
/// RGBA8 bytes (four per pixel), or the decoder's error.
#[verifier::external_body]
fn decode_rgba(data: &[u8]) -> (r: Result<(u32, u32, Vec<u8>), image::ImageError>)
    ensures
        match r {
            Ok((w, h, v)) => decoded(data@) == Some((w, h, v@)) && v@.len() == w * h * 4,
            Err(_) => decoded(data@) is None,
        },
{
    let img = image::load_from_memory(data)?;
    let (w, h) = img.dimensions();
    Ok((w, h, img.to_rgba8().into_raw()))
}

/// `RgbaImage::from_raw` (refused when `data` is too small), then
/// `resize_exact` with the triangle filter and `to_rgba8`: the resized
/// image's bytes, four per pixel.
#[verifier::external_body]
fn resize_rgba(width: u32, height: u32, data: Vec<u8>, nwidth: u32, nheight: u32) -> (r: Option<
    Vec<u8>,
>)
    requires
        nwidth * nheight * 4 <= usize::MAX,
    ensures
        r is None <==> data@.len() < width * height * 4,
        r matches Some(v) ==> v@ == resized(width, height, data@, nwidth, nheight) && v@.len()
            == nwidth * nheight * 4,
{
    let buf = image::RgbaImage::from_raw(width, height, data)?;
    let img = DynamicImage::ImageRgba8(buf);
    Some(img.resize_exact(nwidth, nheight, image::imageops::FilterType::Triangle).to_rgba8().into_raw())
}

/// Why an image could not be made.
#[derive(Debug, Clone, Copy, PartialEq, Eq, Structural)]
pub enum ImageLoadError {
    /// The bytes are no image the decoder knows.
    Decode,
    /// A pixel buffer of the wrong length.
    WrongSize { expected: usize, actual: usize },
    /// The pixel data does not fill the image.
    BadBuffer,
}

/// An image as RGBA8 pixels, row by row.
pub struct Image {
    pub width: u32,
    pub height: u32,
    data: Vec<u8>,
}

/// The RGBA8 bytes of an ARGB32 buffer: each pixel's alpha byte moves from
/// first to last.
pub open spec fn argb_to_rgba(argb: Seq<u8>) -> Seq<u8> {
    Seq::new(
        argb.len(),
        |i: int|
            {
                let p = i - i % 4;
                if i % 4 == 3 {
                    argb[p]
                } else {
                    argb[p + i % 4 + 1]
                }
            },
    )
}

impl Image {
    /// The pixel bytes, RGBA8.
    pub closed spec fn data_view(&self) -> Seq<u8> {
        self.data@
    }

    /// The width, `self.width` (closed: Verus refuses a field of this
    /// type outside its module, as the type has a private field).
    pub closed spec fn w(&self) -> u32 {
        self.width
    }

    /// The height, `self.height`.
    pub closed spec fn h(&self) -> u32 {
        self.height
    }

    /// The width in pixels.
    pub fn width(&self) -> (r: u32)
        ensures
            r == self.w(),
    {
        self.width
    }

    /// The height in pixels.
    pub fn height(&self) -> (r: u32)
        ensures
            r == self.h(),
    {
        self.height
    }

    /// The pixel bytes, RGBA8, row by row.
    pub fn data(&self) -> (r: &[u8])
        ensures
            r@ == self.data_view(),
    {
        self.data.as_slice()
    }

    /// Decode an image file held in memory.
    pub fn from_memory(data: &[u8]) -> (r: Result<Self, ImageLoadError>)
        ensures
            match decoded(data@) {
                Some((w, h, px)) => r matches Ok(img) && img.w() == w && img.h() == h
                    && img.data_view() == px,
                None => r == Err::<Self, ImageLoadError>(ImageLoadError::Decode),
            },
            r matches Ok(img) ==> (img.data_view().len() == img.w() * img.h() * 4),
    {
        match decode_rgba(data) {
            Ok((width, height, px)) => Ok(Image { width, height, data: px }),
            Err(_) => Err(ImageLoadError::Decode),
        }
    }

    /// An image from a tray icon's ARGB32 buffer (4 bytes per pixel, alpha
    /// first), reordered to RGBA8; refused unless the buffer holds exactly
    /// `width * height` pixels.
    pub fn from_argb32(width: u32, height: u32, argb: &[u8]) -> (r: Result<Self, ImageLoadError>)
        requires
            width * height * 4 <= usize::MAX,
        ensures
            argb@.len() != width * height * 4 ==> r == Err::<Self, ImageLoadError>(
                ImageLoadError::WrongSize { expected: (width * height * 4) as usize, actual: argb@.len() as usize },
            ),
            argb@.len() == width * height * 4 ==> (r matches Ok(img) && img.w() == width
                && img.h() == height && img.data_view() == argb_to_rgba(argb@)),
    {
        assert((width as usize) * (height as usize) <= usize::MAX) by (nonlinear_arith)
            requires
                width * height * 4 <= usize::MAX,
        ;
        let expected = width as usize * height as usize * 4;
        if argb.len() != expected {
            return Err(ImageLoadError::WrongSize { expected, actual: argb.len() });
        }
        let mut data: Vec<u8> = Vec::new();
        let mut i: usize = 0;
        while i < argb.len()
            invariant
                argb@.len() == expected,
                expected % 4 == 0,
                i % 4 == 0,
                i <= argb@.len(),
                data@ == argb_to_rgba(argb@).take(i as int),
            decreases argb@.len() - i,
        {
            let (a, r, g, b) = (argb[i], argb[i + 1], argb[i + 2], argb[i + 3]);
            data.push(r);
            data.push(g);
            data.push(b);
            data.push(a);
            proof {
                let t = argb_to_rgba(argb@);
                assert(t[i as int] == r) by {
                    assert((i as int) % 4 == 0);
                }
                assert(t[i + 1] == g) by {
                    assert((i + 1) % 4 == 1);
                }
                assert(t[i + 2] == b) by {
                    assert((i + 2) % 4 == 2);
                }
                assert(t[i + 3] == a) by {
                    assert((i + 3) % 4 == 3);
                }
                assert(data@ =~= t.take(i + 4));
            }
            i = i + 4;
        }
        assert(data@ =~= argb_to_rgba(argb@));
        Ok(Image { width, height, data })
    }

    /// The image resized to exactly `width` x `height` (a copy when the size
    /// is unchanged).
    pub fn scale(&self, width: u32, height: u32) -> (r: Result<Self, ImageLoadError>)
        requires
            !(self.w() == width && self.h() == height) ==> width * height * 4 <= usize::MAX,
        ensures
            self.w() == width && self.h() == height ==> (r matches Ok(img) && img.w()
                == width && img.h() == height && img.data_view() == self.data_view()),
            !(self.w() == width && self.h() == height) ==> (if self.data_view().len()
                < self.w() * self.h() * 4 {
                r == Err::<Self, ImageLoadError>(ImageLoadError::BadBuffer)
            } else {
                r matches Ok(img) && img.w() == width && img.h() == height && img.data_view()
                    == resized(self.w(), self.h(), self.data_view(), width, height)
            }),
    {
        let copy = copy_bytes(&self.data);
        if self.width == width && self.height == height {
            return Ok(Image { width: self.width, height: self.height, data: copy });
        }
        match resize_rgba(self.width, self.height, copy, width, height) {
            Some(px) => Ok(Image { width, height, data: px }),
            None => Err(ImageLoadError::BadBuffer),
        }
    }

    /// An image of the given size and RGBA8 bytes, refused unless the bytes
    /// fill it exactly.
    pub fn from_rgba(width: u32, height: u32, data: Vec<u8>) -> (r: Result<Self, ImageLoadError>)
        ensures
            data@.len() == width * height * 4 ==> (r matches Ok(img) && img.w() == width
                && img.h() == height && img.data_view() == data@),
            data@.len() != width * height * 4 ==> r == Err::<Self, ImageLoadError>(
                ImageLoadError::WrongSize {
                    expected: if width * height * 4 <= usize::MAX {
                        (width * height * 4) as usize
                    } else {
                        usize::MAX
                    },
                    actual: data@.len() as usize,
                },
            ),
    {
        let n = data.len() as u128;
        assert((width as int) * (height as int) <= 0xffff_ffff_ffff_ffff) by (nonlinear_arith)
            requires
                0 <= width <= 0xffff_ffff,
                0 <= height <= 0xffff_ffff,
        ;
        let wh = width as u64 * height as u64;
        if n != wh as u128 * 4 {
            let total = wh as u128 * 4;
            let expected: usize = if total <= usize::MAX as u128 {
                total as usize
            } else {
                usize::MAX
            };
            return Err(ImageLoadError::WrongSize { expected, actual: data.len() });
        }
        Ok(Image { width, height, data })
    }

    /// The pixel bytes, giving up the image.
    pub fn into_data(self) -> (r: Vec<u8>)
        ensures
            r@ == self.data_view(),
    {
        self.data
    }
}

fn copy_bytes(v: &Vec<u8>) -> (r: Vec<u8>)
    ensures
        r@ == v@,
{
    let mut out: Vec<u8> = Vec::new();
    let mut i: usize = 0;
    while i < v.len()
        invariant
            i <= v@.len(),
            out@ == v@.take(i as int),
        decreases v@.len() - i,
    {
        out.push(v[i]);
        assert(out@ =~= v@.take(i + 1));
        i = i + 1;
    }
    assert(v@.take(i as int) =~= v@);
    out
}

/// `Arc::clone`: another pointer to the same image.
#[verifier::external_body]
fn share(a: &Arc<Image>) -> (r: Arc<Image>)
    ensures
        r == *a,
{
    a.clone()
}

/// A cache of loaded images, keyed by path, oldest first.
pub struct ImageControl {
    cache: Vec<(String, Arc<Image>)>,
    max_size: usize,
}

pub open spec fn cache_keys(c: Seq<(String, Arc<Image>)>) -> Seq<Seq<char>> {
    c.map_values(|e: (String, Arc<Image>)| e.0@)
}

pub open spec fn cache_images(c: Seq<(String, Arc<Image>)>) -> Seq<Image> {
    c.map_values(|e: (String, Arc<Image>)| *e.1)
}

/// `keys` with entry `i` moved to the end.
pub open spec fn move_last<A>(s: Seq<A>, i: int) -> Seq<A> {
    s.remove(i).push(s[i])
}

impl ImageControl {
    /// The cached paths, least recently used first.
    pub closed spec fn keys(&self) -> Seq<Seq<char>> {
        cache_keys(self.cache@)
    }

    /// The cached images, in the order of `keys`.
    pub closed spec fn images(&self) -> Seq<Image> {
        cache_images(self.cache@)
    }

    pub closed spec fn capacity(&self) -> usize {
        self.max_size
    }

    /// A path is cached once.
    pub closed spec fn wf(&self) -> bool {
        forall|i: int, j: int| 0 <= i < j < self.keys().len() ==> self.keys()[i] != self.keys()[j]
    }

    /// An empty cache that holds up to `max_size` images.
    pub fn new(max_size: usize) -> (r: Self)
        ensures
            r.wf(),
            r.keys().len() == 0,
            r.images().len() == 0,
            r.capacity() == max_size,
    {
        let r = ImageControl { cache: Vec::new(), max_size };
        assert(r.keys() =~= seq![]);
        r
    }

    fn find(&self, path: &str) -> (r: Option<usize>)
        ensures
            r is None <==> !self.keys().contains(path@),
            r matches Some(i) ==> i < self.keys().len() && self.keys()[i as int] == path@,
    {
        let mut i: usize = 0;
        while i < self.cache.len()
            invariant
                i <= self.cache@.len(),
                forall|j: int| 0 <= j < i ==> self.keys()[j] != path@,
            decreases self.cache@.len() - i,
        {
            if crate::text::str_eq(self.cache[i].0.as_str(), path) {
                assert(self.keys()[i as int] == path@);
                return Some(i);
            }
            i = i + 1;
        }
        proof {
            if self.keys().contains(path@) {
                let j = choose|j: int| 0 <= j < self.keys().len() && self.keys()[j] == path@;
                assert(self.keys()[j] != path@);
            }
        }
        None
    }

    /// The cached image of `path`, if any; it becomes the most recently used.
    pub fn cached(&mut self, path: &str) -> (r: Option<Arc<Image>>)
        requires
            old(self).wf(),
        ensures
            final(self).wf(),
            final(self).capacity() == old(self).capacity(),
            r is None <==> !old(self).keys().contains(path@),
            r is None ==> final(self).keys() == old(self).keys() && final(self).images()
                == old(self).images(),
            r matches Some(img) ==> exists|i: int|
                0 <= i < old(self).keys().len() && old(self).keys()[i] == path@ && *img
                    == old(self).images()[i] && final(self).keys() == move_last(old(self).keys(), i)
                    && final(self).images() == move_last(old(self).images(), i),
    {
        match self.find(path) {
            None => None,
            Some(i) => {
                let ghost k0 = self.cache@;
                let e = self.cache.remove(i);
                let img = share(&e.1);
                self.cache.push(e);
                proof {
                    assert(self.cache@ =~= move_last(k0, i as int));
                    assert(cache_keys(self.cache@) =~= move_last(cache_keys(k0), i as int));
                    assert(cache_images(self.cache@) =~= move_last(cache_images(k0), i as int));
                    assert forall|a: int, b: int| 0 <= a < b < self.keys().len() implies self.keys()[a]
                        != self.keys()[b] by {
                        let ka = if a < i { a } else { a + 1 };
                        let kb = if b == self.keys().len() - 1 { i as int } else if b < i { b } else { b + 1 };
                        assert(self.keys()[a] == cache_keys(k0)[ka]);
                        assert(self.keys()[b] == cache_keys(k0)[kb]);
                    }
                }
                Some(img)
            },
        }
    }

    /// When the cache is full, forget its least recently used image.
    pub fn make_room(&mut self)
        requires
            old(self).wf(),
        ensures
            final(self).wf(),
            final(self).capacity() == old(self).capacity(),
            (old(self).keys().len() >= old(self).capacity() && old(self).keys().len() > 0) ==> final(self).keys()
                == old(self).keys().drop_first() && final(self).images()
                == old(self).images().drop_first(),
            !(old(self).keys().len() >= old(self).capacity() && old(self).keys().len() > 0) ==> final(self).keys()
                == old(self).keys() && final(self).images() == old(self).images(),
    {
        if self.cache.len() >= self.max_size && self.cache.len() > 0 {
            let ghost k0 = self.cache@;
            self.cache.remove(0);
            proof {
                assert(cache_keys(self.cache@) =~= cache_keys(k0).drop_first());
                assert(cache_images(self.cache@) =~= cache_images(k0).drop_first());
                assert forall|a: int, b: int| 0 <= a < b < self.keys().len() implies self.keys()[a]
                    != self.keys()[b] by {
                    assert(self.keys()[a] == cache_keys(k0)[a + 1]);
                    assert(self.keys()[b] == cache_keys(k0)[b + 1]);
                }
            }
        }
    }

    /// Cache `image` as the most recently used one under `path` (replacing
    /// what `path` held).
    pub fn insert(&mut self, path: &str, image: Image) -> (r: Arc<Image>)
        requires
            old(self).wf(),
        ensures
            final(self).wf(),
            final(self).capacity() == old(self).capacity(),
            *r == image,
            final(self).keys().len() > 0 && final(self).keys().last() == path@,
            final(self).images().len() > 0 && final(self).images().last() == image,
            final(self).keys().drop_last() == (if old(self).keys().contains(path@) {
                old(self).keys().remove(old(self).keys().index_of(path@))
            } else {
                old(self).keys()
            }),
    {
        self.remove(path);
        let a = Arc::new(image);
        let b = share(&a);
        let ghost k0 = self.cache@;
        self.cache.push((String::from_str(path), a));
        proof {
            assert(cache_keys(self.cache@) =~= cache_keys(k0).push(path@));
            assert(cache_images(self.cache@) =~= cache_images(k0).push(image));
            assert(cache_keys(self.cache@).drop_last() =~= cache_keys(k0));
            assert forall|x: int, y: int| 0 <= x < y < self.keys().len() implies self.keys()[x]
                != self.keys()[y] by {
                if y == self.keys().len() - 1 {
                    assert(self.keys()[x] == cache_keys(k0)[x]);
                    assert(cache_keys(k0).contains(self.keys()[x]));
                }
            }
        }
        b
    }

    /// Decode an image held in memory (not cached).
    pub fn load_memory(&mut self, data: &[u8]) -> (r: Result<Arc<Image>, ImageLoadError>)
        ensures
            match decoded(data@) {
                Some((w, h, px)) => (r matches Ok(img) && img.w() == w && img.h() == h
                    && img.data_view() == px),
                None => r == Err::<Arc<Image>, ImageLoadError>(ImageLoadError::Decode),
            },
            *final(self) == *old(self),
    {
        match Image::from_memory(data) {
            Ok(img) => Ok(Arc::new(img)),
            Err(e) => Err(e),
        }
    }

    /// Forget every image.
    pub fn clear(&mut self)
        ensures
            final(self).wf(),
            final(self).keys().len() == 0,
            final(self).images().len() == 0,
            final(self).capacity() == old(self).capacity(),
    {
        self.cache.clear();
        assert(self.keys() =~= seq![]);
    }

    /// Forget the image of `path`, if cached.
    pub fn remove(&mut self, path: &str)
        requires
            old(self).wf(),
        ensures
            final(self).wf(),
            final(self).capacity() == old(self).capacity(),
            !final(self).keys().contains(path@),
            old(self).keys().contains(path@) ==> final(self).keys() == old(self).keys().remove(
                old(self).keys().index_of(path@),
            ) && final(self).images() == old(self).images().remove(
                old(self).keys().index_of(path@),
            ),
            !old(self).keys().contains(path@) ==> final(self).keys() == old(self).keys()
                && final(self).images() == old(self).images(),
    {
        match self.find(path) {
            None => {},
            Some(i) => {
                let ghost k0 = self.cache@;
                proof {
                    let ks = cache_keys(k0);
                    assert(ks.contains(path@));
                    let x = ks.index_of(path@);
                    assert(ks[x] == path@);
                    if x != i {
                        assert(ks[i as int] == path@);
                    }
                }
                self.cache.remove(i);
                proof {
                    assert(cache_keys(self.cache@) =~= cache_keys(k0).remove(i as int));
                    assert(cache_images(self.cache@) =~= cache_images(k0).remove(i as int));
                    assert forall|a: int, b: int| 0 <= a < b < self.keys().len() implies self.keys()[a]
                        != self.keys()[b] by {
                        let ka = if a < i { a } else { a + 1 };
                        let kb = if b < i { b } else { b + 1 };
                        assert(self.keys()[a] == cache_keys(k0)[ka]);
                        assert(self.keys()[b] == cache_keys(k0)[kb]);
                    }
                    if self.keys().contains(path@) {
                        let j = choose|j: int| 0 <= j < self.keys().len() && self.keys()[j] == path@;
                        let kj = if j < i { j } else { j + 1 };
                        assert(cache_keys(k0)[kj] == path@);
                    }
                }
            },
        }
    }
}

} // verus!