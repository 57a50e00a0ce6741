//! Rectangles and proportional layout splitting.
//!
//! A layout is computed from the terminal's dimensions alone: a vertical
//! split into a one-row header, the body, and a one-row footer; a horizontal
//! 30/70 split of the body; and even five-way splits for the sidebar bands
//! and the grid rows and columns.

use vstd::arithmetic::div_mod::{lemma_div_is_ordered, lemma_div_multiples_vanish};
use vstd::arithmetic::mul::lemma_mul_inequality;
use vstd::prelude::*;

verus! {

/// A rectangular region of the terminal surface, in character cells.
#[derive(Clone, Copy, PartialEq, Eq, Structural, Debug)]
pub struct Rect {
    pub x: u16,
    pub y: u16,
    pub width: u16,
    pub height: u16,
}

impl Rect {
    /// The rectangle stays inside the coordinate space: its far edges are
    /// still representable.
    pub open spec fn wf(self) -> bool {
        self.x + self.width <= u16::MAX && self.y + self.height <= u16::MAX
    }

    /// One past the right edge.
    pub open spec fn right(self) -> int {
        self.x + self.width
    }

    /// One past the bottom edge.
    pub open spec fn bottom(self) -> int {
        self.y + self.height
    }
}

/// Two regions share no cell.
pub open spec fn disjoint(a: Rect, b: Rect) -> bool {
    a.right() <= b.x || b.right() <= a.x || a.bottom() <= b.y || b.bottom() <= a.y
}

/// `inner` lies entirely inside `outer`.
pub open spec fn within(inner: Rect, outer: Rect) -> bool {
    outer.x <= inner.x && inner.right() <= outer.right()
        && outer.y <= inner.y && inner.bottom() <= outer.bottom()
}

/// A region inside `c` shares no cell with a region disjoint from `c`.
pub proof fn lemma_within_disjoint(a: Rect, c: Rect, b: Rect)
    requires
        within(a, c),
        disjoint(c, b),
    ensures
        disjoint(a, b),
        disjoint(b, a),
{
}

/// Split a region into a one-row header, the remaining body, and a one-row
/// footer, stacked top to bottom.
pub fn split_main(area: Rect) -> (r: (Rect, Rect, Rect))
    requires
        area.wf(),
        area.height >= 2,
    ensures
        r.0.x == area.x && r.0.width == area.width,
        r.1.x == area.x && r.1.width == area.width,
        r.2.x == area.x && r.2.width == area.width,
        r.0.y == area.y && r.0.height == 1,
        r.1.y == area.y + 1 && r.1.height == area.height - 2,
        r.2.y == area.y + area.height - 1 && r.2.height == 1,
        r.0.height + r.1.height + r.2.height == area.height,
        r.0.wf() && r.1.wf() && r.2.wf(),
{
    let header = Rect { x: area.x, y: area.y, width: area.width, height: 1 };
    let body = Rect { x: area.x, y: area.y + 1, width: area.width, height: area.height - 2 };
    let footer = Rect {
        x: area.x,
        y: area.y + area.height - 1,
        width: area.width,
        height: 1,
    };
    (header, body, footer)
}

/// Where the `i`-th of `parts` equal bands starts, as an offset into an
/// extent of `extent` cells: the bands tile the extent, band `i` covering
/// offsets `band_start(extent, parts, i)` up to `band_start(extent, parts, i + 1)`.
pub open spec fn band_start(extent: int, parts: int, i: int) -> int {
    extent * i / parts
}

/// Band starts never decrease as the index grows.
pub proof fn lemma_band_start_monotone(extent: int, parts: int, i: int, j: int)
    requires
        0 <= extent,
        0 < parts,
        0 <= i <= j,
    ensures
        band_start(extent, parts, i) <= band_start(extent, parts, j),
{
    lemma_mul_inequality(i, j, extent);
    lemma_div_is_ordered(extent * i, extent * j, parts);
}

/// Every band start lies between zero and the whole extent, and the last
/// band ends exactly at the extent.
pub proof fn lemma_band_start_range(extent: int, parts: int, i: int)
    requires
        0 <= extent,
        0 < parts,
        0 <= i <= parts,
    ensures
        0 <= band_start(extent, parts, i) <= extent,
        band_start(extent, parts, parts) == extent,
        band_start(extent, parts, 0) == 0,
{
    lemma_mul_inequality(0, i, extent);
    lemma_div_is_ordered(0, extent * i, parts);
    lemma_mul_inequality(i, parts, extent);
    lemma_div_is_ordered(extent * i, extent * parts, parts);
    lemma_div_multiples_vanish(extent, parts);
    lemma_div_multiples_vanish(0, parts);
}

/// Split a region into `parts` equal horizontal bands, stacked top to
/// bottom: band `i` spans the rows from `band_start(height, parts, i)` to
/// `band_start(height, parts, i + 1)` below the region's top edge.
pub fn split_even_vertical(area: Rect, parts: u16) -> (r: Vec<Rect>)
    requires
        area.wf(),
        parts >= 1,
    ensures
        r@.len() == parts,
        forall|i: int|
            0 <= i < parts ==> {
                &&& (#[trigger] r@[i]).x == area.x
                &&& r@[i].width == area.width
                &&& r@[i].y == area.y + band_start(area.height as int, parts as int, i)
                &&& r@[i].y + r@[i].height == area.y + band_start(
                    area.height as int,
                    parts as int,
                    i + 1,
                )
                &&& r@[i].wf()
            },
{
    let mut v: Vec<Rect> = Vec::new();
    let h: u64 = area.height as u64;
    let p: u64 = parts as u64;
    let mut i: u16 = 0;
    while i < parts
        invariant
            parts >= 1,
            i <= parts,
            h == area.height,
            p == parts,
            area.wf(),
            v@.len() == i,
            forall|k: int|
                0 <= k < i ==> {
                    &&& (#[trigger] v@[k]).x == area.x
                    &&& v@[k].width == area.width
                    &&& v@[k].y == area.y + band_start(area.height as int, parts as int, k)
                    &&& v@[k].y + v@[k].height == area.y + band_start(
                        area.height as int,
                        parts as int,
                        k + 1,
                    )
                    &&& v@[k].wf()
                },
        decreases parts - i,
    {
        proof {
            assert(h * (i as u64) <= 0xFFFF * 0xFFFF && h * (i as u64 + 1) <= 0xFFFF * 0xFFFF)
                by (nonlinear_arith)
                requires
                    h <= 0xFFFF,
                    i as u64 + 1 <= 0xFFFF,
            ;
            lemma_band_start_monotone(h as int, p as int, i as int, i as int + 1);
            lemma_band_start_range(h as int, p as int, i as int);
            lemma_band_start_range(h as int, p as int, i as int + 1);
        }
        let start: u64 = h * (i as u64) / p;
        let end: u64 = h * (i as u64 + 1) / p;
        let band = Rect {
            x: area.x,
            y: area.y + (start as u16),
            width: area.width,
            height: (end - start) as u16,
        };
        v.push(band);
        i = i + 1;
    }
    v
}

/// Split a region into `parts` equal vertical bands, ordered left to right:
/// band `i` spans the columns from `band_start(width, parts, i)` to
/// `band_start(width, parts, i + 1)` right of the region's left edge.
pub fn split_even_horizontal(area: Rect, parts: u16) -> (r: Vec<Rect>)
    requires
        area.wf(),
        parts >= 1,
    ensures
        r@.len() == parts,
        forall|i: int|
            0 <= i < parts ==> {
                &&& (#[trigger] r@[i]).y == area.y
                &&& r@[i].height == area.height
                &&& r@[i].x == area.x + band_start(area.width as int, parts as int, i)
                &&& r@[i].x + r@[i].width == area.x + band_start(
                    area.width as int,
                    parts as int,
                    i + 1,
                )
                &&& r@[i].wf()
            },
{
    let mut v: Vec<Rect> = Vec::new();
    let w: u64 = area.width as u64;
    let p: u64 = parts as u64;
    let mut i: u16 = 0;
    while i < parts
        invariant
            parts >= 1,
            i <= parts,
            w == area.width,
            p == parts,
            area.wf(),
            v@.len() == i,
            forall|k: int|
                0 <= k < i ==> {
                    &&& (#[trigger] v@[k]).y == area.y
                    &&& v@[k].height == area.height
                    &&& v@[k].x == area.x + band_start(area.width as int, parts as int, k)
                    &&& v@[k].x + v@[k].width == area.x + band_start(
                        area.width as int,
                        parts as int,
                        k + 1,
                    )
                    &&& v@[k].wf()
                },
        decreases parts - i,
    {
        proof {
            assert(w * (i as u64) <= 0xFFFF * 0xFFFF && w * (i as u64 + 1) <= 0xFFFF * 0xFFFF)
                by (nonlinear_arith)
                requires
                    w <= 0xFFFF,
                    i as u64 + 1 <= 0xFFFF,
            ;
            lemma_band_start_monotone(w as int, p as int, i as int, i as int + 1);
            lemma_band_start_range(w as int, p as int, i as int);
            lemma_band_start_range(w as int, p as int, i as int + 1);
        }
        let start: u64 = w * (i as u64) / p;
        let end: u64 = w * (i as u64 + 1) / p;
        let band = Rect {
            x: area.x + (start as u16),
            y: area.y,
            width: (end - start) as u16,
            height: area.height,
        };
        v.push(band);
        i = i + 1;
    }
    v
}

/// Split a region into a sidebar taking thirty percent of the width and a
/// grid area taking the rest, side by side.
pub fn split_body(area: Rect) -> (r: (Rect, Rect))
    requires
        area.wf(),
    ensures
        r.0.x == area.x && r.0.y == area.y && r.0.height == area.height,
        r.1.y == area.y && r.1.height == area.height,
        r.0.width == area.width as int * 30 / 100,
        r.1.x == area.x + r.0.width,
        r.0.width + r.1.width == area.width,
        r.0.wf() && r.1.wf(),
{
    let w: u64 = area.width as u64;
    let side: u64 = w * 30 / 100;
    proof {
        lemma_mul_inequality(30, 100, w as int);
        lemma_div_is_ordered(w as int * 30, w as int * 100, 100);
        lemma_div_multiples_vanish(w as int, 100);
        lemma_mul_inequality(0, 30, w as int);
        lemma_div_is_ordered(0, w as int * 30, 100);
        lemma_div_multiples_vanish(0, 100);
    }
    let sidebar = Rect { x: area.x, y: area.y, width: side as u16, height: area.height };
    let grid = Rect {
        x: area.x + side as u16,
        y: area.y,
        width: area.width - side as u16,
        height: area.height,
    };
    (sidebar, grid)
}

} // verus!
