//! Conversion of physical sizes to pixels.

use vstd::prelude::*;

verus! {

/// The number of pixels that `mm` millimetres cover at `dpmm` dots per
/// millimetre. Both are whole numbers, so the product is exact.
pub open spec fn px(mm: int, dpmm: int) -> int {
    mm * dpmm
}

/// Converts a length in millimetres to pixels.
///
/// Returns `None` exactly when the pixel count does not fit in 32 bits.
pub fn mm_to_px(mm: u32, dpmm: u32) -> (r: Option<u32>)
    ensures
        px(mm as int, dpmm as int) <= u32::MAX ==> r == Some(px(mm as int, dpmm as int) as u32),
        px(mm as int, dpmm as int) > u32::MAX ==> r.is_none(),
{
    mm.checked_mul(dpmm)
}

/// The sizes of one label and of the printable sheet in millimetres, and the
/// print resolution in dots per millimetre.
#[derive(Clone, Copy, Debug)]
pub struct PhysicalSpec {
    pub label_width_mm: u32,
    pub label_height_mm: u32,
    pub sheet_width_mm: u32,
    pub sheet_height_mm: u32,
    pub dpmm: u32,
}

impl PhysicalSpec {
    /// Every length and the resolution are positive, and every pixel size
    /// fits in 32 bits.
    pub open spec fn wf(&self) -> bool {
        &&& self.label_width_mm > 0
        &&& self.label_height_mm > 0
        &&& self.sheet_width_mm > 0
        &&& self.sheet_height_mm > 0
        &&& self.dpmm > 0
        &&& px(self.label_width_mm as int, self.dpmm as int) <= u32::MAX
        &&& px(self.label_height_mm as int, self.dpmm as int) <= u32::MAX
        &&& px(self.sheet_width_mm as int, self.dpmm as int) <= u32::MAX
        &&& px(self.sheet_height_mm as int, self.dpmm as int) <= u32::MAX
    }

    pub open spec fn label_width(&self) -> int {
        px(self.label_width_mm as int, self.dpmm as int)
    }

    pub open spec fn label_height(&self) -> int {
        px(self.label_height_mm as int, self.dpmm as int)
    }

    pub open spec fn sheet_width(&self) -> int {
        px(self.sheet_width_mm as int, self.dpmm as int)
    }

    pub open spec fn sheet_height(&self) -> int {
        px(self.sheet_height_mm as int, self.dpmm as int)
    }

    /// A 36 x 50 mm label on a 76 x 50 mm sheet at 24 dots per millimetre.
    pub open spec fn standard_spec() -> PhysicalSpec {
        PhysicalSpec {
            label_width_mm: 36,
            label_height_mm: 50,
            sheet_width_mm: 76,
            sheet_height_mm: 50,
            dpmm: 24,
        }
    }

    /// A 36 x 50 mm label on a 76 x 50 mm sheet at 24 dots per millimetre.
    pub fn standard() -> (s: PhysicalSpec)
        ensures
            s.wf(),
            s.label_width() == 864,
            s.label_height() == 1200,
            s.sheet_width() == 1824,
            s.sheet_height() == 1200,
            s == Self::standard_spec(),
    {
        PhysicalSpec {
            label_width_mm: 36,
            label_height_mm: 50,
            sheet_width_mm: 76,
            sheet_height_mm: 50,
            dpmm: 24,
        }
    }

    /// Builds a specification from its five numbers.
    ///
    /// Returns `None` exactly when one of them is zero or a pixel size does
    /// not fit in 32 bits.
    pub fn new(
        label_width_mm: u32,
        label_height_mm: u32,
        sheet_width_mm: u32,
        sheet_height_mm: u32,
        dpmm: u32,
    ) -> (r: Option<PhysicalSpec>)
        ensures
            ({
                let s = PhysicalSpec {
                    label_width_mm,
                    label_height_mm,
                    sheet_width_mm,
                    sheet_height_mm,
                    dpmm,
                };
                r == if s.wf() { Some(s) } else { None }
            }),
    {
        if label_width_mm == 0 || label_height_mm == 0 || sheet_width_mm == 0
            || sheet_height_mm == 0 || dpmm == 0 {
            return None;
        }
        if mm_to_px(label_width_mm, dpmm).is_none() || mm_to_px(label_height_mm, dpmm).is_none()
            || mm_to_px(sheet_width_mm, dpmm).is_none() || mm_to_px(sheet_height_mm, dpmm).is_none() {
            return None;
        }
        Some(PhysicalSpec { label_width_mm, label_height_mm, sheet_width_mm, sheet_height_mm, dpmm })
    }

    pub fn label_width_px(&self) -> (w: u32)
        requires
            self.wf(),
        ensures
            w == self.label_width(),
    {
        self.label_width_mm * self.dpmm
    }

    pub fn label_height_px(&self) -> (h: u32)
        requires
            self.wf(),
        ensures
            h == self.label_height(),
    {
        self.label_height_mm * self.dpmm
    }

    pub fn sheet_width_px(&self) -> (w: u32)
        requires
            self.wf(),
        ensures
            w == self.sheet_width(),
    {
        self.sheet_width_mm * self.dpmm
    }

    pub fn sheet_height_px(&self) -> (h: u32)
        requires
            self.wf(),
        ensures
            h == self.sheet_height(),
    {
        self.sheet_height_mm * self.dpmm
    }
}

/// A pixel size is a whole multiple of the resolution, and dividing it by the
/// resolution gives the millimetres back: the conversion loses nothing.
pub proof fn lemma_px_exact(mm: int, dpmm: int)
    requires
        mm >= 0,
        dpmm > 0,
    ensures
        px(mm, dpmm) % dpmm == 0,
        px(mm, dpmm) / dpmm == mm,
        px(mm, dpmm) >= mm,
        mm > 0 ==> px(mm, dpmm) > 0,
{
    vstd::arithmetic::div_mod::lemma_mod_multiples_basic(mm, dpmm);
    vstd::arithmetic::div_mod::lemma_div_multiples_vanish(mm, dpmm);
    assert(mm * dpmm == dpmm * mm) by (nonlinear_arith);
    assert(mm * dpmm >= mm) by (nonlinear_arith)
        requires
            mm >= 0,
            dpmm > 0,
    ;
    assert(mm > 0 ==> mm * dpmm > 0) by (nonlinear_arith)
        requires
            dpmm > 0,
    ;
}

} // verus!
