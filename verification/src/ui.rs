//! The whole-screen layout: header, body (sidebar plus grid), footer, and
//! every labeled panel, computed from the terminal's dimensions alone.

use vstd::prelude::*;
use vstd::string::StringExecFns;

use crate::layout::{
    band_start, disjoint, lemma_band_start_monotone, lemma_band_start_range,
    lemma_within_disjoint, split_body, split_main, within, Rect,
};
use crate::panels::{
    grid_panels, header_title, kanji_title, level_title, sidebar_panels, Panel,
};

verus! {

/// How many columns of a `w`-column body the sidebar takes: thirty percent,
/// rounded down.
pub open spec fn sidebar_width(w: int) -> int {
    w * 30 / 100
}

/// One frame's layout: the fixed panel tree drawn on every iteration of the
/// render loop.
pub struct UiLayout {
    /// The one-row top band, titled `Bundai`.
    pub header: Panel,
    /// Everything between the header and the footer.
    pub body: Rect,
    /// The one-row bottom band; no widget is drawn on it.
    pub footer: Rect,
    /// Five bands stacked in the left thirty percent of the body.
    pub sidebar: Vec<Panel>,
    /// Twenty-five cells tiling the rest of the body, in row-major order.
    pub grid: Vec<Panel>,
}

/// Every region of the layout, pinned down from `area` alone.
pub open spec fn ui_geometry(ui: UiLayout, area: Rect) -> bool {
    let w = area.width as int;
    let h2 = area.height as int - 2;
    let sw = sidebar_width(w);
    &&& ui.header.rect.x == area.x && ui.header.rect.y == area.y && ui.header.rect.width
        == area.width && ui.header.rect.height == 1
    &&& ui.body.x == area.x && ui.body.y == area.y + 1 && ui.body.width == area.width
        && ui.body.height == area.height - 2
    &&& ui.footer.x == area.x && ui.footer.y == area.y + area.height - 1 && ui.footer.width
        == area.width && ui.footer.height == 1
    &&& forall|i: int|
        0 <= i < 5 ==> {
            &&& (#[trigger] ui.sidebar@[i]).rect.x == area.x
            &&& ui.sidebar@[i].rect.width == sw
            &&& ui.sidebar@[i].rect.y == area.y + 1 + band_start(h2, 5, i)
            &&& ui.sidebar@[i].rect.y + ui.sidebar@[i].rect.height == area.y + 1 + band_start(
                h2,
                5,
                i + 1,
            )
        }
    &&& forall|k: int|
        0 <= k < 25 ==> {
            &&& (#[trigger] ui.grid@[k]).rect.x == area.x + sw + band_start(w - sw, 5, k % 5)
            &&& ui.grid@[k].rect.x + ui.grid@[k].rect.width == area.x + sw + band_start(
                w - sw,
                5,
                k % 5 + 1,
            )
            &&& ui.grid@[k].rect.y == area.y + 1 + band_start(h2, 5, k / 5)
            &&& ui.grid@[k].rect.y + ui.grid@[k].rect.height == area.y + 1 + band_start(
                h2,
                5,
                k / 5 + 1,
            )
        }
}

/// Every panel's label: the header is `Bundai`, the sidebar reads `Level N1`
/// through `Level N5` from top to bottom, and the grid reads `Kanji 1`
/// through `Kanji 25` in row-major order.
pub open spec fn ui_titles(ui: UiLayout) -> bool {
    &&& ui.header.title@ == header_title()
    &&& ui.sidebar@.len() == 5
    &&& forall|i: int| 0 <= i < 5 ==> (#[trigger] ui.sidebar@[i]).title@ == level_title(i + 1)
    &&& ui.grid@.len() == 25
    &&& forall|k: int| 0 <= k < 25 ==> (#[trigger] ui.grid@[k]).title@ == kanji_title(k + 1)
}

/// The layout is a partition of `area`: the three top-level bands sum to the
/// full height, every region lies inside `area`, and no two regions overlap.
pub open spec fn ui_partition(ui: UiLayout, area: Rect) -> bool {
    &&& ui.header.rect.height + ui.body.height + ui.footer.height == area.height
    &&& within(ui.header.rect, area)
    &&& within(ui.body, area)
    &&& within(ui.footer, area)
    &&& forall|i: int| 0 <= i < 5 ==> within((#[trigger] ui.sidebar@[i]).rect, area)
    &&& forall|k: int| 0 <= k < 25 ==> within((#[trigger] ui.grid@[k]).rect, area)
    &&& disjoint(ui.header.rect, ui.footer)
    &&& forall|i: int|
        0 <= i < 5 ==> disjoint(ui.header.rect, (#[trigger] ui.sidebar@[i]).rect) && disjoint(
            ui.footer,
            ui.sidebar@[i].rect,
        )
    &&& forall|k: int|
        0 <= k < 25 ==> disjoint(ui.header.rect, (#[trigger] ui.grid@[k]).rect) && disjoint(
            ui.footer,
            ui.grid@[k].rect,
        )
    &&& forall|i: int, j: int|
        0 <= i < 5 && 0 <= j < 5 && i != j ==> disjoint(
            (#[trigger] ui.sidebar@[i]).rect,
            (#[trigger] ui.sidebar@[j]).rect,
        )
    &&& forall|k: int, l: int|
        0 <= k < 25 && 0 <= l < 25 && k != l ==> disjoint(
            (#[trigger] ui.grid@[k]).rect,
            (#[trigger] ui.grid@[l]).rect,
        )
    &&& forall|i: int, k: int|
        0 <= i < 5 && 0 <= k < 25 ==> disjoint(
            (#[trigger] ui.sidebar@[i]).rect,
            (#[trigger] ui.grid@[k]).rect,
        )
}

/// The sidebar's five bands come in fixed top-to-bottom order: each band
/// ends no lower than the next one starts.
pub proof fn lemma_sidebar_top_to_bottom(ui: UiLayout, area: Rect)
    requires
        ui_geometry(ui, area),
        ui_titles(ui),
    ensures
        forall|i: int, j: int|
            0 <= i < j < 5 ==> (#[trigger] ui.sidebar@[i]).rect.y + ui.sidebar@[i].rect.height
                <= (#[trigger] ui.sidebar@[j]).rect.y,
{
    let h2 = area.height as int - 2;
    assert forall|i: int, j: int| 0 <= i < j < 5 implies (#[trigger] ui.sidebar@[i]).rect.y
        + ui.sidebar@[i].rect.height <= (#[trigger] ui.sidebar@[j]).rect.y by {
        lemma_band_start_monotone(h2, 5, i + 1, j);
    }
}

/// The grid's twenty-five cells come in row-major order: a cell earlier in
/// the sequence is in a strictly higher row, or in the same row and ends no
/// further right than where the later cell starts.
pub proof fn lemma_grid_row_major(ui: UiLayout, area: Rect)
    requires
        ui_geometry(ui, area),
        ui_titles(ui),
    ensures
        forall|k: int, l: int|
            0 <= k < l < 25 && k / 5 == l / 5 ==> (#[trigger] ui.grid@[k]).rect.x
                + ui.grid@[k].rect.width <= (#[trigger] ui.grid@[l]).rect.x,
        forall|k: int, l: int|
            0 <= k < l < 25 && k / 5 != l / 5 ==> (#[trigger] ui.grid@[k]).rect.y
                + ui.grid@[k].rect.height <= (#[trigger] ui.grid@[l]).rect.y,
{
    let w = area.width as int;
    let h2 = area.height as int - 2;
    let gw = w - sidebar_width(w);
    assert forall|k: int, l: int| 0 <= k < l < 25 && k / 5 == l / 5 implies (
    #[trigger] ui.grid@[k]).rect.x + ui.grid@[k].rect.width <= (#[trigger] ui.grid@[l]).rect.x by {
        lemma_band_start_monotone(gw, 5, k % 5 + 1, l % 5);
    }
    assert forall|k: int, l: int| 0 <= k < l < 25 && k / 5 != l / 5 implies (
    #[trigger] ui.grid@[k]).rect.y + ui.grid@[k].rect.height <= (#[trigger] ui.grid@[l]).rect.y by {
        lemma_band_start_monotone(h2, 5, k / 5 + 1, l / 5);
    }
}

/// Lay out one frame: split `area` into header, body and footer, the body
/// into sidebar and grid area, and build every labeled panel. The result is
/// a non-overlapping partition of `area` carrying the fixed titles.
pub fn build_ui(area: Rect) -> (ui: UiLayout)
    requires
        area.wf(),
        area.height >= 2,
    ensures
        ui_geometry(ui, area),
        ui_titles(ui),
        ui_partition(ui, area),
{
    let (header_rect, body, footer) = split_main(area);
    let (sb, gr) = split_body(body);
    let sidebar = sidebar_panels(sb);
    let grid = grid_panels(gr);
    let header = Panel { title: String::from_str("Bundai"), rect: header_rect };
    let ui = UiLayout { header, body, footer, sidebar, grid };
    proof {
        let w = area.width as int;
        let h2 = area.height as int - 2;
        let sw = sidebar_width(w);
        let gw = w - sw;

        assert forall|i: int| 0 <= i < 5 implies within((#[trigger] ui.sidebar@[i]).rect, ui.body)
        by {
            lemma_band_start_range(h2, 5, i);
            lemma_band_start_range(h2, 5, i + 1);
        }
        assert forall|k: int| 0 <= k < 25 implies within((#[trigger] ui.grid@[k]).rect, ui.body)
        by {
            lemma_band_start_range(h2, 5, k / 5);
            lemma_band_start_range(h2, 5, k / 5 + 1);
            lemma_band_start_range(gw, 5, k % 5);
            lemma_band_start_range(gw, 5, k % 5 + 1);
        }
        assert forall|i: int, j: int| 0 <= i < 5 && 0 <= j < 5 && i != j implies disjoint(
            (#[trigger] ui.sidebar@[i]).rect,
            (#[trigger] ui.sidebar@[j]).rect,
        ) by {
            if i < j {
                lemma_band_start_monotone(h2, 5, i + 1, j);
            } else {
                lemma_band_start_monotone(h2, 5, j + 1, i);
            }
        }
        assert forall|k: int, l: int| 0 <= k < 25 && 0 <= l < 25 && k != l implies disjoint(
            (#[trigger] ui.grid@[k]).rect,
            (#[trigger] ui.grid@[l]).rect,
        ) by {
            let rk = k / 5;
            let ck = k % 5;
            let rl = l / 5;
            let cl = l % 5;
            if rk == rl {
                if ck < cl {
                    lemma_band_start_monotone(gw, 5, ck + 1, cl);
                } else {
                    lemma_band_start_monotone(gw, 5, cl + 1, ck);
                }
            } else if rk < rl {
                lemma_band_start_monotone(h2, 5, rk + 1, rl);
            } else {
                lemma_band_start_monotone(h2, 5, rl + 1, rk);
            }
        }
        assert forall|i: int, k: int| 0 <= i < 5 && 0 <= k < 25 implies disjoint(
            (#[trigger] ui.sidebar@[i]).rect,
            (#[trigger] ui.grid@[k]).rect,
        ) by {
            lemma_band_start_range(gw, 5, k % 5);
            lemma_band_start_range(h2, 5, i);
            lemma_band_start_range(h2, 5, i + 1);
        }
        assert forall|i: int| 0 <= i < 5 implies disjoint(
            ui.header.rect,
            (#[trigger] ui.sidebar@[i]).rect,
        ) && disjoint(ui.footer, ui.sidebar@[i].rect) by {
            lemma_within_disjoint(ui.sidebar@[i].rect, ui.body, ui.header.rect);
            lemma_within_disjoint(ui.sidebar@[i].rect, ui.body, ui.footer);
        }
        assert forall|k: int| 0 <= k < 25 implies disjoint(
            ui.header.rect,
            (#[trigger] ui.grid@[k]).rect,
        ) && disjoint(ui.footer, ui.grid@[k].rect) by {
            lemma_within_disjoint(ui.grid@[k].rect, ui.body, ui.header.rect);
            lemma_within_disjoint(ui.grid@[k].rect, ui.body, ui.footer);
        }
        assert forall|i: int| 0 <= i < 5 implies within((#[trigger] ui.sidebar@[i]).rect, area)
        by {
            assert(within(ui.sidebar@[i].rect, ui.body));
        }
        assert forall|k: int| 0 <= k < 25 implies within((#[trigger] ui.grid@[k]).rect, area) by {
            assert(within(ui.grid@[k].rect, ui.body));
        }
    }
    ui
}

} // verus!
