//! The printable sheet: a white canvas on which the labels are placed from
//! left to right.

use crate::layout::Layout;
use crate::raster::{
    lemma_offset, lemma_overlaid_channel, lemma_overlaid_outside, overlaid, solid, Picture, Raster,
};
use vstd::prelude::*;

verus! {

/// The empty sheet: white, of the sheet's size.
pub open spec fn blank(l: Layout) -> Picture {
    solid(l.sheet_width(), l.sheet_height(), 255)
}

/// `sheet` with `label` laid on it at position `pos`: its left edge at the
/// offset of that position, its top edge at the top of the sheet.
pub open spec fn placed(l: Layout, sheet: Picture, label: Picture, pos: int) -> Picture {
    overlaid(sheet, label, l.label_x(pos), 0)
}

/// The sheet that holds `labels`: the empty sheet with each label placed at
/// its position in the sequence, first to last.
pub open spec fn sheet_of(l: Layout, labels: Seq<Picture>) -> Picture
    decreases labels.len(),
{
    if labels.len() == 0 {
        blank(l)
    } else {
        placed(l, sheet_of(l, labels.drop_last()), labels.last(), labels.len() - 1)
    }
}

/// The contents of a vector of rasters.
pub open spec fn pictures(labels: Seq<Raster>) -> Seq<Picture> {
    Seq::new(labels.len(), |i: int| labels[i]@)
}

/// Whether every picture is a valid label of the layout's label size.
pub open spec fn are_labels(l: Layout, labels: Seq<Picture>) -> bool {
    forall|i: int|
        0 <= i < labels.len() ==> (#[trigger] labels[i]).wf() && labels[i].width == l.label_width()
            && labels[i].height == l.label_height()
}

/// Whether column `x`, row `y` of the sheet is covered by the label at
/// position `k`.
pub open spec fn covers(l: Layout, k: int, x: int, y: int) -> bool {
    l.label_x(k) <= x < l.label_x(k) + l.label_width() && 0 <= y < l.label_height()
}

/// Creates the empty sheet.
pub fn blank_sheet(l: &Layout) -> (sheet: Raster)
    requires
        l.wf(),
    ensures
        sheet.wf(),
        sheet@ == blank(*l),
{
    Raster::solid(l.sheet_width_px(), l.sheet_height_px(), 255)
}

/// Lays `label` on the sheet at position `pos`. What reaches beyond the
/// sheet is dropped; a label that starts beyond it leaves the sheet as it
/// was.
pub fn place_label(l: &Layout, sheet: &mut Raster, label: &Raster, pos: usize)
    requires
        l.wf(),
        old(sheet).wf(),
        label.wf(),
    ensures
        final(sheet).wf(),
        final(sheet)@ == placed(*l, old(sheet)@, label@, pos as int),
{
    let x: u128 = l.label_offset(pos);
    if x <= i64::MAX as u128 {
        sheet.overlay(label, x as i64, 0);
    } else {
        proof {
            lemma_overlaid_outside(sheet@, label@, l.label_x(pos as int), 0);
        }
    }
}

/// Builds the sheet that holds `labels`, in their order.
pub fn assemble_sheet(l: &Layout, labels: &Vec<Raster>) -> (sheet: Raster)
    requires
        l.wf(),
        forall|i: int| 0 <= i < labels.len() ==> (#[trigger] labels[i]).wf(),
    ensures
        sheet.wf(),
        sheet@ == sheet_of(*l, pictures(labels@)),
{
    let mut sheet = blank_sheet(l);
    let mut i: usize = 0;
    while i < labels.len()
        invariant
            l.wf(),
            0 <= i <= labels.len(),
            forall|j: int| 0 <= j < labels.len() ==> (#[trigger] labels[j]).wf(),
            sheet.wf(),
            sheet@ == sheet_of(*l, pictures(labels@).subrange(0, i as int)),
        decreases labels.len() - i,
    {
        proof {
            let before = pictures(labels@).subrange(0, i as int);
            let after = pictures(labels@).subrange(0, i + 1);
            assert(after.drop_last() =~= before);
            assert(after.last() == labels[i as int]@);
        }
        place_label(l, &mut sheet, &labels[i], i);
        i = i + 1;
    }
    assert(pictures(labels@).subrange(0, i as int) =~= pictures(labels@));
    sheet
}

/// The sheet keeps its size whatever is placed on it.
pub proof fn lemma_sheet_size(l: Layout, labels: Seq<Picture>)
    requires
        l.wf(),
    ensures
        sheet_of(l, labels).wf(),
        sheet_of(l, labels).width == l.sheet_width(),
        sheet_of(l, labels).height == l.sheet_height(),
    decreases labels.len(),
{
    if labels.len() == 0 {
        assert(3 * l.sheet_width() * l.sheet_height() >= 0) by (nonlinear_arith)
            requires
                l.sheet_width() >= 0,
                l.sheet_height() >= 0,
        ;
    } else {
        lemma_sheet_size(l, labels.drop_last());
    }
}

/// A pixel of the sheet shows the label that covers it, and white where no
/// label does. Labels do not overlap, so at most one covers any pixel.
pub proof fn lemma_sheet_pixel(l: Layout, labels: Seq<Picture>, x: int, y: int, c: int)
    requires
        l.wf(),
        are_labels(l, labels),
        0 <= x < l.sheet_width(),
        0 <= y < l.sheet_height(),
        0 <= c < 3,
    ensures
        forall|k: int|
            0 <= k < labels.len() && covers(l, k, x, y) ==> sheet_of(l, labels).channel(x, y, c)
                == (#[trigger] labels[k]).channel(x - l.label_x(k), y, c),
        (forall|k: int| 0 <= k < labels.len() ==> !covers(l, k, x, y)) ==> sheet_of(
            l,
            labels,
        ).channel(x, y, c) == 255,
    decreases labels.len(),
{
    if labels.len() == 0 {
        lemma_sheet_size(l, labels);
        lemma_offset(blank(l), x, y, c);
    } else {
        let n = labels.len() - 1;
        let rest = labels.drop_last();
        lemma_sheet_size(l, rest);
        lemma_sheet_pixel(l, rest, x, y, c);
        lemma_overlaid_channel(sheet_of(l, rest), labels.last(), l.label_x(n), 0, x, y, c);
        assert forall|k: int| 0 <= k < labels.len() && covers(l, k, x, y) implies sheet_of(
            l,
            labels,
        ).channel(x, y, c) == (#[trigger] labels[k]).channel(x - l.label_x(k), y, c) by {
            if k < n {
                l.lemma_labels_disjoint(k, n);
                assert(rest[k] == labels[k]);
            }
        }
        if forall|k: int| 0 <= k < labels.len() ==> !covers(l, k, x, y) {
            assert(!covers(l, n, x, y));
            assert forall|k: int| 0 <= k < rest.len() implies !covers(l, k, x, y) by {
                assert(0 <= k < labels.len());
            }
        }
    }
}

/// Every label that lies within the sheet is shown on it whole, at its
/// offset and in its place in the order: each of its pixels is on the sheet
/// unchanged.
pub proof fn lemma_label_shown(l: Layout, labels: Seq<Picture>, k: int, x: int, y: int, c: int)
    requires
        l.wf(),
        are_labels(l, labels),
        0 <= k < labels.len(),
        l.label_x(k) + l.label_width() <= l.sheet_width(),
        0 <= x < l.label_width(),
        0 <= y < l.label_height(),
        0 <= c < 3,
    ensures
        sheet_of(l, labels).channel(l.label_x(k) + x, y, c) == labels[k].channel(x, y, c),
{
    l.lemma_labels_disjoint(k, k + 1);
    lemma_sheet_pixel(l, labels, l.label_x(k) + x, y, c);
    assert(covers(l, k, l.label_x(k) + x, y));
}

/// Left of the first label the sheet is white: the first two margins are
/// never drawn on.
pub proof fn lemma_left_margin(l: Layout, labels: Seq<Picture>, x: int, y: int, c: int)
    requires
        l.wf(),
        are_labels(l, labels),
        0 <= x < 2 * l.margin,
        x < l.sheet_width(),
        0 <= y < l.sheet_height(),
        0 <= c < 3,
    ensures
        sheet_of(l, labels).channel(x, y, c) == 255,
{
    lemma_sheet_pixel(l, labels, x, y, c);
    assert forall|k: int| 0 <= k < labels.len() implies !covers(l, k, x, y) by {
        l.lemma_label_step(0);
        if k > 0 {
            l.lemma_labels_disjoint(0, k);
        }
    }
}

} // verus!
