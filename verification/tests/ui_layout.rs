use bundai::layout::{split_body, split_even_horizontal, split_even_vertical, split_main};
use bundai::ui::build_ui;
use bundai::Rect;

fn rect(x: u16, y: u16, width: u16, height: u16) -> Rect {
    Rect { x, y, width, height }
}

fn overlap(a: &Rect, b: &Rect) -> bool {
    let x_overlap = a.x < b.x + b.width && b.x < a.x + a.width;
    let y_overlap = a.y < b.y + b.height && b.y < a.y + a.height;
    x_overlap && y_overlap
}

fn inside(inner: &Rect, outer: &Rect) -> bool {
    outer.x <= inner.x
        && inner.x + inner.width <= outer.x + outer.width
        && outer.y <= inner.y
        && inner.y + inner.height <= outer.y + outer.height
}

#[test]
fn split_main_bands() {
    let (header, body, footer) = split_main(rect(0, 0, 80, 24));
    assert_eq!(header, rect(0, 0, 80, 1));
    assert_eq!(body, rect(0, 1, 80, 22));
    assert_eq!(footer, rect(0, 23, 80, 1));
    assert_eq!(header.height + body.height + footer.height, 24);
}

#[test]
fn split_main_minimum_height() {
    let (header, body, footer) = split_main(rect(0, 0, 2, 2));
    assert_eq!(header, rect(0, 0, 2, 1));
    assert_eq!(body, rect(0, 1, 2, 0));
    assert_eq!(footer, rect(0, 1, 2, 1));
}

#[test]
fn split_body_thirty_seventy() {
    let (sidebar, grid) = split_body(rect(0, 1, 80, 22));
    assert_eq!(sidebar, rect(0, 1, 24, 22));
    assert_eq!(grid, rect(24, 1, 56, 22));
    assert_eq!(sidebar.width + grid.width, 80);
}

#[test]
fn split_body_narrow() {
    let (sidebar, grid) = split_body(rect(0, 0, 2, 5));
    assert_eq!(sidebar.width, 0);
    assert_eq!(grid.width, 2);
}

#[test]
fn split_even_vertical_tiles_the_height() {
    let bands = split_even_vertical(rect(0, 1, 24, 22), 5);
    assert_eq!(bands.len(), 5);
    let heights: Vec<u16> = bands.iter().map(|b| b.height).collect();
    assert_eq!(heights, vec![4, 4, 5, 4, 5]);
    assert_eq!(bands[0].y, 1);
    for i in 0..4 {
        assert_eq!(bands[i].y + bands[i].height, bands[i + 1].y);
    }
    assert_eq!(bands[4].y + bands[4].height, 23);
}

#[test]
fn split_even_horizontal_tiles_the_width() {
    let cells = split_even_horizontal(rect(24, 1, 56, 4), 5);
    assert_eq!(cells.len(), 5);
    let widths: Vec<u16> = cells.iter().map(|c| c.width).collect();
    assert_eq!(widths, vec![11, 11, 11, 11, 12]);
    assert_eq!(cells[0].x, 24);
    assert_eq!(cells[4].x + cells[4].width, 80);
}

#[test]
fn ui_sidebar_titles_in_order() {
    let ui = build_ui(rect(0, 0, 80, 24));
    assert_eq!(ui.sidebar.len(), 5);
    for i in 0..5 {
        assert_eq!(ui.sidebar[i].title, format!("Level N{}", i + 1));
    }
    for i in 0..4 {
        assert!(
            ui.sidebar[i].rect.y + ui.sidebar[i].rect.height <= ui.sidebar[i + 1].rect.y
        );
    }
}

#[test]
fn ui_grid_titles_row_major() {
    let ui = build_ui(rect(0, 0, 80, 24));
    assert_eq!(ui.grid.len(), 25);
    for k in 0..25 {
        assert_eq!(ui.grid[k].title, format!("Kanji {}", k + 1));
    }
    assert_eq!(ui.grid[0].title, "Kanji 1");
    assert_eq!(ui.grid[7].title, "Kanji 8");
    assert_eq!(ui.grid[24].title, "Kanji 25");
    for row in 0..5 {
        for col in 0..5 {
            let cell = &ui.grid[row * 5 + col];
            if col > 0 {
                let left = &ui.grid[row * 5 + col - 1];
                assert_eq!(left.rect.x + left.rect.width, cell.rect.x);
            }
            if row > 0 {
                let above = &ui.grid[(row - 1) * 5 + col];
                assert_eq!(above.rect.y + above.rect.height, cell.rect.y);
            }
        }
    }
}

#[test]
fn ui_header_title() {
    let ui = build_ui(rect(0, 0, 80, 24));
    assert_eq!(ui.header.title, "Bundai");
    assert_eq!(ui.header.rect, rect(0, 0, 80, 1));
    assert_eq!(ui.footer, rect(0, 23, 80, 1));
}

#[test]
fn ui_partition_no_overlap() {
    let area = rect(0, 0, 80, 24);
    let ui = build_ui(area);
    let mut all: Vec<Rect> = vec![ui.header.rect, ui.footer];
    all.extend(ui.sidebar.iter().map(|p| p.rect));
    all.extend(ui.grid.iter().map(|p| p.rect));
    assert_eq!(all.len(), 32);
    for r in &all {
        assert!(inside(r, &area));
    }
    for i in 0..all.len() {
        for j in 0..all.len() {
            if i != j {
                assert!(!overlap(&all[i], &all[j]), "regions {} and {} overlap", i, j);
            }
        }
    }
    assert_eq!(ui.header.rect.height + ui.body.height + ui.footer.height, area.height);
}

#[test]
fn ui_partition_minimum_size() {
    let area = rect(0, 0, 2, 3);
    let ui = build_ui(area);
    let mut all: Vec<Rect> = vec![ui.header.rect, ui.footer];
    all.extend(ui.sidebar.iter().map(|p| p.rect));
    all.extend(ui.grid.iter().map(|p| p.rect));
    for r in &all {
        assert!(inside(r, &area));
    }
    for i in 0..all.len() {
        for j in 0..all.len() {
            if i != j {
                assert!(!overlap(&all[i], &all[j]));
            }
        }
    }
    assert_eq!(ui.header.rect.height + ui.body.height + ui.footer.height, 3);
}

#[test]
fn ui_offset_area() {
    let ui = build_ui(rect(5, 7, 40, 12));
    assert_eq!(ui.header.rect, rect(5, 7, 40, 1));
    assert_eq!(ui.body, rect(5, 8, 40, 10));
    assert_eq!(ui.footer, rect(5, 18, 40, 1));
    assert_eq!(ui.sidebar[0].rect.x, 5);
    assert_eq!(ui.sidebar[0].rect.width, 12);
    assert_eq!(ui.grid[0].rect.x, 17);
}
