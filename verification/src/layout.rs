//! The geometry of a label and of a sheet of labels.
//!
//! Everything here is arithmetic on pixels: where the logo goes, where each
//! line of text starts, and how far from the left edge of the sheet each
//! label is placed.

use crate::raster::MAX_SIDE;
use crate::units::{lemma_px_exact, px, PhysicalSpec};
use vstd::prelude::*;

verus! {

/// The physical sizes together with the distances, in pixels, that shape a
/// label: the padding round the text, the margin between labels on the
/// sheet, the side of the logo and the height of the text.
#[derive(Clone, Copy, Debug)]
pub struct Layout {
    pub physical: PhysicalSpec,
    pub padding: u32,
    pub margin: u32,
    pub logo_size: u32,
    pub text_size: u32,
}

impl Layout {
    pub open spec fn label_width(&self) -> int {
        self.physical.label_width()
    }

    pub open spec fn label_height(&self) -> int {
        self.physical.label_height()
    }

    pub open spec fn sheet_width(&self) -> int {
        self.physical.sheet_width()
    }

    pub open spec fn sheet_height(&self) -> int {
        self.physical.sheet_height()
    }

    /// The height of the text band: what the square cover leaves of the
    /// label.
    pub open spec fn band_height(&self) -> int {
        self.label_height() - self.label_width()
    }

    /// A third of the text band.
    pub open spec fn line_slot(&self) -> int {
        self.band_height() / 3
    }

    /// The column of the logo's left edge: half the padding in from the
    /// right edge of the label.
    pub open spec fn logo_x(&self) -> int {
        self.label_width() - self.padding / 2 - self.logo_size
    }

    /// The row of the logo's top edge: half the padding up from the bottom
    /// edge of the label.
    pub open spec fn logo_y(&self) -> int {
        self.label_height() - self.padding / 2 - self.logo_size
    }

    /// The column at which every line of text starts.
    pub open spec fn text_x(&self) -> int {
        self.padding as int
    }

    /// The row of the title: the padding below the cover.
    pub open spec fn title_y(&self) -> int {
        self.label_width() + self.padding
    }

    /// The row of the artist: the text height and the padding below the
    /// title.
    pub open spec fn artist_y(&self) -> int {
        self.title_y() + self.text_size + self.padding
    }

    /// The row of the release year: one line slot below the artist.
    pub open spec fn year_y(&self) -> int {
        self.artist_y() + self.line_slot()
    }

    /// The column of the left edge of the label at position `pos` on the
    /// sheet, counting from 0.
    pub open spec fn label_x(&self, pos: int) -> int {
        pos * self.label_width() + self.margin * (pos + 2)
    }

    /// Whether `count` labels all lie within the width of the sheet.
    pub open spec fn fits(&self, count: int) -> bool {
        count <= 0 || self.label_x(count - 1) + self.label_width() <= self.sheet_width()
    }

    /// The sizes are valid, the label is at least as tall as wide and no
    /// larger than the sheet, the logo lies inside the label, every text
    /// position fits a signed 32-bit coordinate, and label and sheet can be
    /// allocated and resampled to.
    pub open spec fn wf(&self) -> bool {
        &&& self.physical.wf()
        &&& self.label_width() <= self.label_height()
        &&& self.label_width() <= self.sheet_width()
        &&& self.label_height() <= self.sheet_height()
        &&& self.padding / 2 + self.logo_size <= self.label_width()
        &&& self.year_y() <= i32::MAX
        &&& self.label_width() <= MAX_SIDE
        &&& self.logo_size <= MAX_SIDE
        &&& 3 * self.sheet_width() * self.sheet_height() <= isize::MAX
    }

    /// The standard label and sheet with 40 pixels of padding, 20 of margin,
    /// a logo of 160 pixels and text of 60.
    pub fn standard() -> (l: Layout)
        ensures
            l.wf(),
            l.physical == PhysicalSpec::standard_spec(),
            l.padding == 40,
            l.margin == 20,
            l.logo_size == 160,
            l.text_size == 60,
            l.label_width() == 864 && l.label_height() == 1200,
            l.sheet_width() == 1824 && l.sheet_height() == 1200,
    {
        let l = Layout {
            physical: PhysicalSpec::standard(),
            padding: 40,
            margin: 20,
            logo_size: 160,
            text_size: 60,
        };
        assert(l.line_slot() == 112);
        l
    }

    /// Builds a layout from the physical sizes and the four distances.
    ///
    /// Returns `None` exactly when the result would not be valid.
    pub fn new(
        physical: PhysicalSpec,
        padding: u32,
        margin: u32,
        logo_size: u32,
        text_size: u32,
    ) -> (r: Option<Layout>)
        ensures
            ({
                let l = Layout { physical, padding, margin, logo_size, text_size };
                r == if l.wf() { Some(l) } else { None }
            }),
    {
        let checked = PhysicalSpec::new(
            physical.label_width_mm,
            physical.label_height_mm,
            physical.sheet_width_mm,
            physical.sheet_height_mm,
            physical.dpmm,
        );
        if checked.is_none() {
            return None;
        }
        let lw: u64 = physical.label_width_px() as u64;
        let lh: u64 = physical.label_height_px() as u64;
        let sw: u64 = physical.sheet_width_px() as u64;
        let sh: u64 = physical.sheet_height_px() as u64;
        if lw > lh || lw > sw || lh > sh {
            return None;
        }
        if (padding / 2) as u64 + logo_size as u64 > lw {
            return None;
        }
        let year: u64 = lw + padding as u64 + text_size as u64 + padding as u64 + (lh - lw) / 3;
        if year > i32::MAX as u64 {
            return None;
        }
        if lw > MAX_SIDE as u64 || logo_size > MAX_SIDE {
            return None;
        }
        assert(0 <= sw * sh <= 0xFFFF_FFFF * 0xFFFF_FFFF) by (nonlinear_arith)
            requires
                0 <= sw <= 0xFFFF_FFFF,
                0 <= sh <= 0xFFFF_FFFF,
        ;
        let area: u128 = (sw as u128) * (sh as u128);
        assert(3 * (sw * sh) == 3 * sw * sh) by (nonlinear_arith);
        if 3 * area > isize::MAX as u128 {
            return None;
        }
        Some(Layout { physical, padding, margin, logo_size, text_size })
    }

    pub fn label_width_px(&self) -> (w: u32)
        requires
            self.wf(),
        ensures
            w == self.label_width(),
    {
        self.physical.label_width_px()
    }

    pub fn label_height_px(&self) -> (h: u32)
        requires
            self.wf(),
        ensures
            h == self.label_height(),
    {
        self.physical.label_height_px()
    }

    pub fn sheet_width_px(&self) -> (w: u32)
        requires
            self.wf(),
        ensures
            w == self.sheet_width(),
    {
        self.physical.sheet_width_px()
    }

    pub fn sheet_height_px(&self) -> (h: u32)
        requires
            self.wf(),
        ensures
            h == self.sheet_height(),
    {
        self.physical.sheet_height_px()
    }

    /// The height of the text band and of one of its three line slots.
    pub fn text_band(&self) -> (band: (u32, u32))
        requires
            self.wf(),
        ensures
            band.0 == self.band_height(),
            band.1 == self.line_slot(),
    {
        let height: u32 = self.label_height_px() - self.label_width_px();
        (height, height / 3)
    }

    /// Where the top-left corner of the logo goes on the label.
    pub fn logo_position(&self) -> (at: (u32, u32))
        requires
            self.wf(),
        ensures
            at.0 == self.logo_x(),
            at.1 == self.logo_y(),
    {
        let inset: u32 = self.padding / 2;
        (
            self.label_width_px() - inset - self.logo_size,
            self.label_height_px() - inset - self.logo_size,
        )
    }

    /// Where the title starts.
    pub fn title_position(&self) -> (at: (i32, i32))
        requires
            self.wf(),
        ensures
            at.0 == self.text_x(),
            at.1 == self.title_y(),
    {
        proof {
            self.lemma_text_rows();
        }
        (self.padding as i32, (self.label_width_px() + self.padding) as i32)
    }

    /// Where the artist starts.
    pub fn artist_position(&self) -> (at: (i32, i32))
        requires
            self.wf(),
        ensures
            at.0 == self.text_x(),
            at.1 == self.artist_y(),
    {
        proof {
            self.lemma_text_rows();
        }
        (
            self.padding as i32,
            (self.label_width_px() + self.padding + self.text_size + self.padding) as i32,
        )
    }

    /// Where the release year starts.
    pub fn year_position(&self) -> (at: (i32, i32))
        requires
            self.wf(),
        ensures
            at.0 == self.text_x(),
            at.1 == self.year_y(),
    {
        proof {
            self.lemma_text_rows();
        }
        let slot: u32 = self.text_band().1;
        (
            self.padding as i32,
            (self.label_width_px() + self.padding + self.text_size + self.padding + slot) as i32,
        )
    }

    /// The column of the left edge of the label at position `pos`.
    pub fn label_offset(&self, pos: usize) -> (x: u128)
        requires
            self.wf(),
        ensures
            x == self.label_x(pos as int),
    {
        let w: u128 = self.label_width_px() as u128;
        let m: u128 = self.margin as u128;
        let p: u128 = pos as u128;
        assert(0 <= p * w <= 0xFFFF_FFFF_FFFF_FFFF * 0xFFFF_FFFF) by (nonlinear_arith)
            requires
                0 <= p <= 0xFFFF_FFFF_FFFF_FFFF,
                0 <= w <= 0xFFFF_FFFF,
        ;
        assert(0 <= m * (p + 2) <= 0xFFFF_FFFF * 0x1_0000_0000_0000_0001) by (nonlinear_arith)
            requires
                0 <= p <= 0xFFFF_FFFF_FFFF_FFFF,
                0 <= m <= 0xFFFF_FFFF,
        ;
        p * w + m * (p + 2)
    }

    /// Whether `count` labels all lie within the width of the sheet.
    pub fn labels_fit(&self, count: usize) -> (ok: bool)
        requires
            self.wf(),
        ensures
            ok == self.fits(count as int),
    {
        if count == 0 {
            return true;
        }
        let x: u128 = self.label_offset(count - 1);
        x <= self.sheet_width_px() as u128 - self.label_width_px() as u128
    }

    /// The three text rows come one below the other, all of them within
    /// signed 32-bit range, and none of them depends on whether a release
    /// year is given.
    pub proof fn lemma_text_rows(&self)
        requires
            self.wf(),
        ensures
            0 <= self.band_height(),
            0 <= self.line_slot() <= self.band_height(),
            0 <= self.text_x() <= i32::MAX,
            self.label_width() <= self.title_y() <= self.artist_y() <= self.year_y() <= i32::MAX,
            self.artist_y() - self.title_y() == self.text_size + self.padding,
            self.year_y() - self.artist_y() == self.line_slot(),
    {
        lemma_px_exact(self.physical.label_width_mm as int, self.physical.dpmm as int);
    }

    /// The logo lies wholly inside the label, and below the cover whenever
    /// the text band is at least as high as the logo and its inset.
    pub proof fn lemma_logo_inside(&self)
        requires
            self.wf(),
        ensures
            0 <= self.logo_x(),
            self.logo_x() + self.logo_size <= self.label_width(),
            0 <= self.logo_y(),
            self.logo_y() + self.logo_size <= self.label_height(),
            self.padding / 2 + self.logo_size <= self.band_height() ==> self.label_width()
                <= self.logo_y(),
    {
    }

    /// Labels are placed at the stated offsets: the first one two margins
    /// from the left edge, each next one a label width and a margin further.
    pub proof fn lemma_label_step(&self, pos: int)
        ensures
            self.label_x(0) == 2 * self.margin,
            self.label_x(pos + 1) == self.label_x(pos) + self.label_width() + self.margin,
    {
        let w = self.label_width();
        let m = self.margin as int;
        assert((pos + 1) * w == pos * w + w) by (nonlinear_arith);
        assert(m * (pos + 3) == m * (pos + 2) + m) by (nonlinear_arith);
        assert(0 * w == 0);
        assert(m * 2 == 2 * m);
    }

    /// The distance between the left edges of two labels is the number of
    /// positions between them times a label width and a margin.
    pub proof fn lemma_label_distance(&self, j: int, k: int)
        ensures
            self.label_x(k) - self.label_x(j) == (k - j) * (self.label_width() + self.margin),
    {
        let w = self.label_width();
        let m = self.margin as int;
        assert(k * w + m * (k + 2) - (j * w + m * (j + 2)) == (k - j) * (w + m))
            by (nonlinear_arith);
    }

    /// Offsets grow strictly from label to label, and no two labels overlap:
    /// a later label starts at least a margin to the right of where an
    /// earlier one ends.
    pub proof fn lemma_labels_disjoint(&self, j: int, k: int)
        requires
            self.wf(),
            0 <= j < k,
        ensures
            self.label_x(j) < self.label_x(k),
            self.label_x(j) + self.label_width() + self.margin <= self.label_x(k),
            0 <= self.label_x(j),
    {
        let w = self.label_width();
        let m = self.margin as int;
        lemma_px_exact(self.physical.label_width_mm as int, self.physical.dpmm as int);
        self.lemma_label_distance(j, k);
        assert((k - j) * (w + m) >= w + m) by (nonlinear_arith)
            requires
                k - j >= 1,
                w + m >= 0,
        ;
        assert(j * w + m * (j + 2) >= 0) by (nonlinear_arith)
            requires
                j >= 0,
                w >= 0,
                m >= 0,
        ;
    }

    /// If `count` labels fit on the sheet, every one of them lies wholly
    /// within its width.
    pub proof fn lemma_fits_each(&self, count: int, k: int)
        requires
            self.wf(),
            self.fits(count),
            0 <= k < count,
        ensures
            0 <= self.label_x(k),
            self.label_x(k) + self.label_width() <= self.sheet_width(),
    {
        if k < count - 1 {
            self.lemma_labels_disjoint(k, count - 1);
        } else {
            self.lemma_labels_disjoint(k, k + 1);
        }
    }
}

/// On the standard layout the cover is 864 pixels square, the logo sits at
/// (684, 1020), the text starts in column 40 at rows 904, 1004 and 1116, and
/// labels start at columns 40, 924, 1808: two fit on the sheet, three do not.
pub proof fn lemma_standard_geometry(l: Layout)
    requires
        l.physical == PhysicalSpec::standard_spec(),
        l.padding == 40,
        l.margin == 20,
        l.logo_size == 160,
        l.text_size == 60,
    ensures
        l.wf(),
        l.label_width() == 864 && l.label_height() == 1200,
        l.sheet_width() == 1824 && l.sheet_height() == 1200,
        l.band_height() == 336 && l.line_slot() == 112,
        l.logo_x() == 684 && l.logo_y() == 1020,
        l.text_x() == 40,
        l.title_y() == 904 && l.artist_y() == 1004 && l.year_y() == 1116,
        l.label_x(0) == 40 && l.label_x(1) == 924 && l.label_x(2) == 1808,
        l.fits(2) && !l.fits(3),
{
}

/// On the standard layout nothing overlaps: each line of text ends above
/// the next, the last one ends inside the label, and the logo lies below the
/// cover and inside the label.
pub proof fn lemma_standard_no_overlap(l: Layout)
    requires
        l.physical == PhysicalSpec::standard_spec(),
        l.padding == 40,
        l.margin == 20,
        l.logo_size == 160,
        l.text_size == 60,
    ensures
        l.label_width() <= l.title_y(),
        l.title_y() + l.text_size <= l.artist_y(),
        l.artist_y() + l.text_size <= l.year_y(),
        l.year_y() + l.text_size <= l.label_height(),
        l.label_width() <= l.logo_y(),
        l.logo_x() + l.logo_size <= l.label_width(),
        l.logo_y() + l.logo_size <= l.label_height(),
{
    lemma_standard_geometry(l);
}

} // verus!
