//! Pixel buffers and the two picture operations the layout is built from:
//! resampling to a new size and overlaying one picture on another.

use imageproc::image::imageops::{overlay, resize, FilterType};
use imageproc::image::RgbImage;
use vstd::prelude::*;

verus! {

/// The mathematical content of a pixel buffer: its size and its bytes, three
/// per pixel (red, green, blue), row after row from the top.
pub struct Picture {
    pub width: int,
    pub height: int,
    pub pixels: Seq<u8>,
}

impl Picture {
    /// The sizes fit in 32 bits and there are exactly three bytes per pixel.
    pub open spec fn wf(self) -> bool {
        &&& 0 <= self.width <= u32::MAX
        &&& 0 <= self.height <= u32::MAX
        &&& self.pixels.len() == 3 * self.width * self.height
    }

    /// Whether column `x`, row `y` lies inside the picture.
    pub open spec fn contains(self, x: int, y: int) -> bool {
        0 <= x < self.width && 0 <= y < self.height
    }

    /// Where channel `c` of the pixel at column `x`, row `y` stands among the
    /// bytes.
    pub open spec fn offset(self, x: int, y: int, c: int) -> int {
        (y * self.width + x) * 3 + c
    }

    /// Channel `c` (0 red, 1 green, 2 blue) of the pixel at column `x`, row `y`.
    pub open spec fn channel(self, x: int, y: int, c: int) -> u8 {
        self.pixels[self.offset(x, y, c)]
    }
}

/// The picture of the given size whose every byte is `shade`.
pub open spec fn solid(width: int, height: int, shade: u8) -> Picture {
    Picture { width, height, pixels: Seq::new((3 * width * height) as nat, |i: int| shade) }
}

/// Byte `i` of `bottom` after `top` has been laid on it with its top-left
/// corner at column `x`, row `y`: the byte of `top` where `top` covers the
/// pixel, the old byte elsewhere.
pub open spec fn overlaid_byte(bottom: Picture, top: Picture, x: int, y: int, i: int) -> u8 {
    let col = (i / 3) % bottom.width;
    let row = (i / 3) / bottom.width;
    if x <= col < x + top.width && y <= row < y + top.height {
        top.channel(col - x, row - y, i % 3)
    } else {
        bottom.pixels[i]
    }
}

/// `bottom` with `top` laid on it at column `x`, row `y`. The size is that of
/// `bottom`; whatever of `top` falls outside is dropped.
pub open spec fn overlaid(bottom: Picture, top: Picture, x: int, y: int) -> Picture {
    Picture {
        width: bottom.width,
        height: bottom.height,
        pixels: Seq::new(bottom.pixels.len(), |i: int| overlaid_byte(bottom, top, x, y, i)),
    }
}

/// The sampling filter used when a picture is resized.
#[derive(Clone, Copy, Debug, PartialEq, Eq, Structural)]
pub enum Resampling {
    /// Linear interpolation.
    Triangle,
    /// Cubic interpolation after Catmull and Rom.
    CatmullRom,
}

/// The bytes that resampling a `width` x `height` picture with bytes `pixels`
/// to `new_width` x `new_height` yields under `filter`.
pub uninterp spec fn resampled(
    pixels: Seq<u8>,
    width: int,
    height: int,
    new_width: int,
    new_height: int,
    filter: Resampling,
) -> Seq<u8>;

/// The largest side, in pixels, that a picture may have on either end of a
/// resampling. Up to this size every pixel coordinate is exact in the single
/// precision in which the sampler computes.
pub const MAX_SIDE: u32 = 4194304;

/// Whether a `width` x `height` picture can be resampled to
/// `new_width` x `new_height`: no side exceeds [`MAX_SIDE`], and the
/// sampler's working buffer and the result can be allocated.
pub open spec fn resamplable(width: int, height: int, new_width: int, new_height: int) -> bool {
    &&& width <= MAX_SIDE
    &&& height <= MAX_SIDE
    &&& new_width <= MAX_SIDE
    &&& new_height <= MAX_SIDE
    &&& 16 * width * new_height <= isize::MAX
    &&& 3 * new_width * new_height <= isize::MAX
}

/// The position of a channel is inside the byte sequence, and position and
/// coordinates determine each other.
pub proof fn lemma_offset(p: Picture, x: int, y: int, c: int)
    requires
        p.wf(),
        p.contains(x, y),
        0 <= c < 3,
    ensures
        0 <= p.offset(x, y, c) < p.pixels.len(),
        p.offset(x, y, c) % 3 == c,
        p.offset(x, y, c) / 3 == y * p.width + x,
        (p.offset(x, y, c) / 3) % p.width == x,
        (p.offset(x, y, c) / 3) / p.width == y,
{
    let w = p.width;
    let k = y * w + x;
    assert(0 <= y * w) by (nonlinear_arith)
        requires
            0 <= y,
            0 <= w,
    ;
    assert(k + 1 <= w * p.height) by (nonlinear_arith)
        requires
            k == y * w + x,
            0 <= x < w,
            0 <= y < p.height,
    ;
    assert(3 * w * p.height == 3 * (w * p.height)) by (nonlinear_arith);
    vstd::arithmetic::div_mod::lemma_fundamental_div_mod_converse(k * 3 + c, 3, k, c);
    vstd::arithmetic::div_mod::lemma_fundamental_div_mod_converse(k, w, y, x);
}

/// The coordinates that a byte position stands for.
pub proof fn lemma_position(p: Picture, i: int)
    requires
        p.wf(),
        0 <= i < p.pixels.len(),
    ensures
        p.width > 0,
        p.contains((i / 3) % p.width, (i / 3) / p.width),
        0 <= i % 3 < 3,
        p.offset((i / 3) % p.width, (i / 3) / p.width, i % 3) == i,
{
    let w = p.width;
    let h = p.height;
    if w == 0 {
        assert(3 * w * h == 0) by (nonlinear_arith)
            requires
                w == 0,
        ;
    }
    let k = i / 3;
    vstd::arithmetic::div_mod::lemma_fundamental_div_mod(i, 3);
    assert(3 * w * h == 3 * (w * h)) by (nonlinear_arith);
    assert(0 <= k < w * h);
    vstd::arithmetic::div_mod::lemma_fundamental_div_mod(k, w);
    vstd::arithmetic::div_mod::lemma_mod_bound(k, w);
    let row = k / w;
    let col = k % w;
    assert(w * row == row * w) by (nonlinear_arith);
    assert(0 <= row) by (nonlinear_arith)
        requires
            k >= 0,
            w > 0,
            k == w * row + col,
            0 <= col < w,
    ;
    assert(row < h) by (nonlinear_arith)
        requires
            k < w * h,
            w > 0,
            k == w * row + col,
            0 <= col < w,
    ;
}

/// What an overlay leaves at each pixel of the bottom picture: the pixel of
/// the top picture where that one covers it, the old pixel elsewhere.
pub proof fn lemma_overlaid_channel(
    bottom: Picture,
    top: Picture,
    x: int,
    y: int,
    px: int,
    py: int,
    c: int,
)
    requires
        bottom.wf(),
        bottom.contains(px, py),
        0 <= c < 3,
    ensures
        overlaid(bottom, top, x, y).wf(),
        overlaid(bottom, top, x, y).channel(px, py, c) == if x <= px < x + top.width && y <= py < y
            + top.height {
            top.channel(px - x, py - y, c)
        } else {
            bottom.channel(px, py, c)
        },
{
    lemma_offset(bottom, px, py, c);
}

/// An overlay that starts at or beyond the right or bottom edge, or ends at
/// or before the left or top edge, changes nothing.
pub proof fn lemma_overlaid_outside(bottom: Picture, top: Picture, x: int, y: int)
    requires
        bottom.wf(),
        top.width >= 0,
        top.height >= 0,
        x >= bottom.width || y >= bottom.height || x + top.width <= 0 || y + top.height <= 0,
    ensures
        overlaid(bottom, top, x, y) == bottom,
{
    let r = overlaid(bottom, top, x, y);
    assert forall|i: int| 0 <= i < bottom.pixels.len() implies r.pixels[i] == bottom.pixels[i] by {
        lemma_position(bottom, i);
    }
    assert(r.pixels =~= bottom.pixels);
}

/// The product `factor * a * b`, which always fits in 128 bits.
fn scaled_area(factor: u8, a: u32, b: u32) -> (n: u128)
    ensures
        n == factor * a * b,
{
    assert(0 <= a * b <= 0xFFFF_FFFF * 0xFFFF_FFFF) by (nonlinear_arith)
        requires
            0 <= a <= 0xFFFF_FFFF,
            0 <= b <= 0xFFFF_FFFF,
    ;
    let area: u128 = (a as u128) * (b as u128);
    assert(0 <= factor * area <= 255 * (0xFFFF_FFFF * 0xFFFF_FFFF)) by (nonlinear_arith)
        requires
            0 <= factor <= 255,
            0 <= area <= 0xFFFF_FFFF * 0xFFFF_FFFF,
    ;
    assert(factor * (a * b) == factor * a * b) by (nonlinear_arith);
    (factor as u128) * area
}

/// A pixel buffer: 8-bit red, green and blue for every pixel, rows from the
/// top, each row from the left.
#[derive(Clone, Debug, PartialEq, Eq)]
pub struct Raster {
    width: u32,
    height: u32,
    data: Vec<u8>,
}

impl View for Raster {
    type V = Picture;

    closed spec fn view(&self) -> Picture {
        Picture { width: self.width as int, height: self.height as int, pixels: self.data@ }
    }
}

impl Raster {
    /// The buffer holds exactly three bytes for each pixel.
    pub open spec fn wf(&self) -> bool {
        self@.wf()
    }

    /// Builds a raster from its size and its bytes.
    ///
    /// Returns `None` exactly when `data` does not hold three bytes per
    /// pixel.
    pub fn from_raw(width: u32, height: u32, data: Vec<u8>) -> (r: Option<Raster>)
        ensures
            r.is_some() <==> data@.len() == 3 * width * height,
            r matches Some(img) ==> img.wf() && img@ == (Picture {
                width: width as int,
                height: height as int,
                pixels: data@,
            }),
    {
        let need: u128 = scaled_area(3, width, height);
        if data.len() as u128 == need {
            Some(Raster { width, height, data })
        } else {
            None
        }
    }

    /// A raster of the given size with every byte equal to `shade`: black
    /// for 0, white for 255.
    pub fn solid(width: u32, height: u32, shade: u8) -> (img: Raster)
        requires
            3 * width * height <= usize::MAX,
        ensures
            img.wf(),
            img@ == solid(width as int, height as int, shade),
    {
        let count: usize = scaled_area(3, width, height) as usize;
        let data: Vec<u8> = vec![shade; count];
        assert(data@ =~= solid(width as int, height as int, shade).pixels);
        Raster { width, height, data }
    }

    pub fn width(&self) -> (w: u32)
        ensures
            w == self@.width,
    {
        self.width
    }

    pub fn height(&self) -> (h: u32)
        ensures
            h == self@.height,
    {
        self.height
    }

    /// The bytes of the raster, three per pixel.
    pub fn as_bytes(&self) -> (bytes: &Vec<u8>)
        ensures
            bytes@ == self@.pixels,
    {
        &self.data
    }

    /// Gives up the raster for its bytes.
    pub fn into_raw(self) -> (bytes: Vec<u8>)
        ensures
            bytes@ == self@.pixels,
    {
        self.data
    }

    /// The red, green and blue of the pixel at column `x`, row `y`.
    pub fn pixel(&self, x: u32, y: u32) -> (rgb: (u8, u8, u8))
        requires
            self.wf(),
            self@.contains(x as int, y as int),
        ensures
            rgb.0 == self@.channel(x as int, y as int, 0),
            rgb.1 == self@.channel(x as int, y as int, 1),
            rgb.2 == self@.channel(x as int, y as int, 2),
    {
        proof {
            lemma_offset(self@, x as int, y as int, 0);
            lemma_offset(self@, x as int, y as int, 2);
            assert(0 <= (y as int) * (self.width as int)) by (nonlinear_arith)
                requires
                    0 <= y,
                    0 <= self.width,
            ;
            assert(self@.offset(x as int, y as int, 2) == (y * self.width + x) * 3 + 2);
            assert(self.data@.len() == self.data.len());
        }
        let base: usize = (y as usize * self.width as usize + x as usize) * 3;
        (self.data[base], self.data[base + 1], self.data[base + 2])
    }

    /// Whether the raster can be resampled to `new_width` x `new_height`.
    pub fn can_resample(&self, new_width: u32, new_height: u32) -> (ok: bool)
        ensures
            ok == resamplable(self@.width, self@.height, new_width as int, new_height as int),
    {
        if self.width > MAX_SIDE || self.height > MAX_SIDE || new_width > MAX_SIDE || new_height
            > MAX_SIDE {
            return false;
        }
        let work: u128 = scaled_area(16, self.width, new_height);
        let result: u128 = scaled_area(3, new_width, new_height);
        work <= isize::MAX as u128 && result <= isize::MAX as u128
    }

    /// Resamples the raster to `new_width` x `new_height`, without keeping
    /// the aspect ratio.
    ///
    /// Trusted: calls `imageops::resize` of the `image` crate, as `imageproc`
    /// hands it on, on an RGB image built from the raster. The contract claims that the result has the requested
    /// size, and that its bytes depend on nothing but the source bytes, the
    /// two sizes and the filter; it does not say what those bytes are. The
    /// precondition keeps the sampler's buffers within what can be allocated.
    #[verifier::external_body]
    pub(crate) fn resample(
        &self,
        new_width: u32,
        new_height: u32,
        filter: Resampling,
    ) -> (out: Raster)
        requires
            self.wf(),
            resamplable(self@.width, self@.height, new_width as int, new_height as int),
        ensures
            out.wf(),
            out@.width == new_width,
            out@.height == new_height,
            out@.pixels == resampled(
                self@.pixels,
                self@.width,
                self@.height,
                new_width as int,
                new_height as int,
                filter,
            ),
    {
        let kind = match filter {
            Resampling::Triangle => FilterType::Triangle,
            Resampling::CatmullRom => FilterType::CatmullRom,
        };
        let source = RgbImage::from_raw(self.width, self.height, self.data.clone()).unwrap();
        let out = resize(&source, new_width, new_height, kind);
        Raster { width: out.width(), height: out.height(), data: out.into_raw() }
    }

    /// Lays `top` on this raster with its top-left corner at column `x`,
    /// row `y`; what falls outside is dropped.
    ///
    /// Trusted: calls `imageops::overlay` of the `image` crate, as
    /// `imageproc` hands it on, on RGB images built from the two rasters. For pixels without an alpha channel that function copies
    /// each pixel of `top` that lands inside the bottom image and leaves the
    /// others alone, for every `x` and `y`; the contract states exactly that.
    #[verifier::external_body]
    pub(crate) fn overlay(&mut self, top: &Raster, x: i64, y: i64)
        requires
            old(self).wf(),
            top.wf(),
        ensures
            final(self).wf(),
            final(self)@ == overlaid(old(self)@, top@, x as int, y as int),
    {
        let mut bottom = RgbImage::from_raw(self.width, self.height, self.data.clone()).unwrap();
        let upper = RgbImage::from_raw(top.width, top.height, top.data.clone()).unwrap();
        overlay(&mut bottom, &upper, x, y);
        self.data = bottom.into_raw();
    }
}

} // verus!
