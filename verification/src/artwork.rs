//! The picture part of a label: the cover art, resized to a square at the
//! top, and the logo, resized and laid on the bottom-right corner.

use crate::layout::Layout;
use crate::raster::{
    lemma_overlaid_channel, overlaid, resamplable, resampled, solid, Picture, Raster, Resampling,
};
use vstd::prelude::*;

verus! {

/// The cover art as it appears on the label: resampled with the triangle
/// filter to a square as wide as the label, whatever its shape was.
pub open spec fn cover_square(l: Layout, cover: Picture) -> Picture {
    Picture {
        width: l.label_width(),
        height: l.label_width(),
        pixels: resampled(
            cover.pixels,
            cover.width,
            cover.height,
            l.label_width(),
            l.label_width(),
            Resampling::Triangle,
        ),
    }
}

/// The logo as it appears on the label: resampled with the Catmull-Rom
/// filter to a square of the layout's logo size.
pub open spec fn logo_square(l: Layout, logo: Picture) -> Picture {
    Picture {
        width: l.logo_size as int,
        height: l.logo_size as int,
        pixels: resampled(
            logo.pixels,
            logo.width,
            logo.height,
            l.logo_size as int,
            l.logo_size as int,
            Resampling::CatmullRom,
        ),
    }
}

/// `image` with the logo laid on it at the logo position.
pub open spec fn with_logo(l: Layout, image: Picture, logo: Picture) -> Picture {
    overlaid(image, logo_square(l, logo), l.logo_x(), l.logo_y())
}

/// The empty label: black, of the label's size.
pub open spec fn empty_label(l: Layout) -> Picture {
    solid(l.label_width(), l.label_height(), 0)
}

/// The label before any text is drawn: the cover square at the top-left
/// corner of an empty label, then the logo.
pub open spec fn artwork(l: Layout, cover: Picture, logo: Picture) -> Picture {
    with_logo(l, overlaid(empty_label(l), cover_square(l, cover), 0, 0), logo)
}

/// Whether `cover` can be resized to the cover square.
pub open spec fn cover_fits(l: Layout, cover: Picture) -> bool {
    resamplable(cover.width, cover.height, l.label_width(), l.label_width())
}

/// Whether `logo` can be resized to the logo square.
pub open spec fn logo_fits(l: Layout, logo: Picture) -> bool {
    resamplable(logo.width, logo.height, l.logo_size as int, l.logo_size as int)
}

/// Whether `cover` can be resized to the cover square of `l`.
pub fn cover_resizable(l: &Layout, cover: &Raster) -> (ok: bool)
    requires
        l.wf(),
    ensures
        ok == cover_fits(*l, cover@),
{
    let side: u32 = l.label_width_px();
    cover.can_resample(side, side)
}

/// Whether `logo` can be resized to the logo square of `l`.
pub fn logo_resizable(l: &Layout, logo: &Raster) -> (ok: bool)
    ensures
        ok == logo_fits(*l, logo@),
{
    logo.can_resample(l.logo_size, l.logo_size)
}

/// Resizes the cover art to the square at the top of the label.
pub fn cover_image(l: &Layout, cover: &Raster) -> (out: Raster)
    requires
        l.wf(),
        cover.wf(),
        cover_fits(*l, cover@),
    ensures
        out.wf(),
        out@ == cover_square(*l, cover@),
{
    let side: u32 = l.label_width_px();
    cover.resample(side, side, Resampling::Triangle)
}

/// Starts a label: an empty label with `square` laid on its top-left
/// corner.
pub fn place_cover(l: &Layout, square: &Raster) -> (label: Raster)
    requires
        l.wf(),
        square.wf(),
    ensures
        label.wf(),
        label@ == overlaid(empty_label(*l), square@, 0, 0),
{
    proof {
        lemma_label_area(*l);
    }
    let mut label = Raster::solid(l.label_width_px(), l.label_height_px(), 0);
    label.overlay(square, 0, 0);
    label
}

/// Lays the resized logo `small` on `image`, half the padding in from the
/// right and bottom edges of the label.
pub fn place_logo(l: &Layout, image: &mut Raster, small: &Raster)
    requires
        l.wf(),
        old(image).wf(),
        small.wf(),
    ensures
        final(image).wf(),
        final(image)@ == overlaid(old(image)@, small@, l.logo_x(), l.logo_y()),
{
    let at = l.logo_position();
    image.overlay(small, at.0 as i64, at.1 as i64);
}

/// Resizes the logo and lays it on `image`, half the padding in from the
/// right and bottom edges of the label.
pub fn overlay_minidisc_logo(l: &Layout, image: &mut Raster, logo: &Raster)
    requires
        l.wf(),
        old(image).wf(),
        logo.wf(),
        logo_fits(*l, logo@),
    ensures
        final(image).wf(),
        final(image)@ == with_logo(*l, old(image)@, logo@),
{
    let small = logo.resample(l.logo_size, l.logo_size, Resampling::CatmullRom);
    place_logo(l, image, &small);
}

/// Composes the picture part of a label from the cover art and the logo.
pub fn compose_artwork(l: &Layout, cover: &Raster, logo: &Raster) -> (label: Raster)
    requires
        l.wf(),
        cover.wf(),
        logo.wf(),
        cover_fits(*l, cover@),
        logo_fits(*l, logo@),
    ensures
        label.wf(),
        label@ == artwork(*l, cover@, logo@),
        label@.width == l.label_width(),
        label@.height == l.label_height(),
{
    let square = cover_image(l, cover);
    let mut label = place_cover(l, &square);
    overlay_minidisc_logo(l, &mut label, logo);
    label
}

/// A label is no larger than the sheet, so it can be allocated.
pub proof fn lemma_label_area(l: Layout)
    requires
        l.wf(),
    ensures
        0 <= 3 * l.label_width() * l.label_height() <= 3 * l.sheet_width() * l.sheet_height(),
        3 * l.label_width() * l.label_height() <= usize::MAX,
        solid(l.label_width(), l.label_height(), 0).wf(),
{
    let (w, h, sw, sh) = (l.label_width(), l.label_height(), l.sheet_width(), l.sheet_height());
    assert(0 <= 3 * w * h <= 3 * sw * sh) by (nonlinear_arith)
        requires
            0 <= w <= sw,
            0 <= h <= sh,
    ;
}

/// What stands where on the composed picture: inside the logo's square the
/// logo; elsewhere, in the square at the top, the cover; elsewhere black.
pub proof fn lemma_artwork_regions(
    l: Layout,
    cover: Picture,
    logo: Picture,
    x: int,
    y: int,
    c: int,
)
    requires
        l.wf(),
        0 <= x < l.label_width(),
        0 <= y < l.label_height(),
        0 <= c < 3,
    ensures
        artwork(l, cover, logo).wf(),
        artwork(l, cover, logo).width == l.label_width(),
        artwork(l, cover, logo).height == l.label_height(),
        artwork(l, cover, logo).channel(x, y, c) == if l.logo_x() <= x < l.logo_x() + l.logo_size
            && l.logo_y() <= y < l.logo_y() + l.logo_size {
            logo_square(l, logo).channel(x - l.logo_x(), y - l.logo_y(), c)
        } else if y < l.label_width() {
            cover_square(l, cover).channel(x, y, c)
        } else {
            0u8
        },
{
    lemma_label_area(l);
    let base = empty_label(l);
    let covered = overlaid(base, cover_square(l, cover), 0, 0);
    lemma_overlaid_channel(base, cover_square(l, cover), 0, 0, x, y, c);
    lemma_overlaid_channel(covered, logo_square(l, logo), l.logo_x(), l.logo_y(), x, y, c);
    crate::raster::lemma_offset(base, x, y, c);
}

/// Composing is a function of what it is given: the same layout, cover and
/// logo give the same picture, byte for byte.
pub proof fn lemma_artwork_repeatable(
    l: Layout,
    cover_a: Picture,
    logo_a: Picture,
    cover_b: Picture,
    logo_b: Picture,
)
    requires
        cover_a.width == cover_b.width && cover_a.height == cover_b.height,
        cover_a.pixels =~= cover_b.pixels,
        logo_a.width == logo_b.width && logo_a.height == logo_b.height,
        logo_a.pixels =~= logo_b.pixels,
    ensures
        artwork(l, cover_a, logo_a) == artwork(l, cover_b, logo_b),
{
}

} // verus!
