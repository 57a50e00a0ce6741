//! The fixed panel tree: a header titled `Bundai`, five sidebar bands titled
//! `Level N1` through `Level N5`, and a five-by-five grid of cells titled
//! `Kanji 1` through `Kanji 25` in row-major order.

use vstd::prelude::*;
use vstd::string::StringExecFns;

use crate::layout::{band_start, split_even_horizontal, split_even_vertical, Rect};

verus! {

/// A labeled region: a title drawn on a bordered block covering `rect`.
#[derive(Clone, Debug)]
pub struct Panel {
    pub title: String,
    pub rect: Rect,
}

/// The decimal digit `d` as a character.
pub open spec fn digit_char(d: int) -> char {
    if d == 0 {
        '0'
    } else if d == 1 {
        '1'
    } else if d == 2 {
        '2'
    } else if d == 3 {
        '3'
    } else if d == 4 {
        '4'
    } else if d == 5 {
        '5'
    } else if d == 6 {
        '6'
    } else if d == 7 {
        '7'
    } else if d == 8 {
        '8'
    } else {
        '9'
    }
}

/// The decimal rendering of `n`, for `n` below one hundred: one digit below
/// ten, two digits otherwise.
pub open spec fn dec_digits(n: int) -> Seq<char>
    recommends
        0 <= n < 100,
{
    if n < 10 {
        seq![digit_char(n)]
    } else {
        seq![digit_char(n / 10), digit_char(n % 10)]
    }
}

/// The title of the `i`-th sidebar band, counted from one.
pub open spec fn level_title(i: int) -> Seq<char>
    recommends
        1 <= i <= 5,
{
    "Level N"@ + dec_digits(i)
}

/// The title of the `n`-th grid cell in row-major order, counted from one.
pub open spec fn kanji_title(n: int) -> Seq<char>
    recommends
        1 <= n <= 25,
{
    "Kanji "@ + dec_digits(n)
}

/// The header band's title.
pub open spec fn header_title() -> Seq<char> {
    "Bundai"@
}

/// The decimal digit `d` as a one-character string slice.
fn digit_str(d: u16) -> (r: &'static str)
    requires
        d < 10,
    ensures
        r@ == seq![digit_char(d as int)],
{
    proof {
        reveal_strlit("0");
        reveal_strlit("1");
        reveal_strlit("2");
        reveal_strlit("3");
        reveal_strlit("4");
        reveal_strlit("5");
        reveal_strlit("6");
        reveal_strlit("7");
        reveal_strlit("8");
        reveal_strlit("9");
    }
    match d {
        0 => "0",
        1 => "1",
        2 => "2",
        3 => "3",
        4 => "4",
        5 => "5",
        6 => "6",
        7 => "7",
        8 => "8",
        _ => "9",
    }
}

/// A title made of a fixed prefix followed by the decimal rendering of `n`.
pub fn make_title(prefix: &str, n: u16) -> (r: String)
    requires
        0 <= n < 100,
    ensures
        r@ == prefix@ + dec_digits(n as int),
{
    let mut s = String::from_str(prefix);
    if n < 10 {
        s.append(digit_str(n));
    } else {
        s.append(digit_str(n / 10));
        s.append(digit_str(n % 10));
    }
    proof {
        assert(s@ =~= prefix@ + dec_digits(n as int));
    }
    s
}

/// Build the five sidebar panels: equal bands of `area` from top to bottom,
/// titled `Level N1` through `Level N5`.
pub fn sidebar_panels(area: Rect) -> (r: Vec<Panel>)
    requires
        area.wf(),
    ensures
        r@.len() == 5,
        forall|i: int|
            0 <= i < 5 ==> {
                &&& (#[trigger] r@[i]).title@ == level_title(i + 1)
                &&& r@[i].rect.x == area.x
                &&& r@[i].rect.width == area.width
                &&& r@[i].rect.y == area.y + band_start(area.height as int, 5, i)
                &&& r@[i].rect.y + r@[i].rect.height == area.y + band_start(
                    area.height as int,
                    5,
                    i + 1,
                )
                &&& r@[i].rect.wf()
            },
{
    let bands = split_even_vertical(area, 5);
    let mut v: Vec<Panel> = Vec::new();
    let mut i: u16 = 0;
    while i < 5
        invariant
            area.wf(),
            i <= 5,
            bands@.len() == 5,
            forall|k: int|
                0 <= k < 5 ==> {
                    &&& (#[trigger] bands@[k]).x == area.x
                    &&& bands@[k].width == area.width
                    &&& bands@[k].y == area.y + band_start(area.height as int, 5, k)
                    &&& bands@[k].y + bands@[k].height == area.y + band_start(
                        area.height as int,
                        5,
                        k + 1,
                    )
                    &&& bands@[k].wf()
                },
            v@.len() == i,
            forall|k: int|
                0 <= k < i ==> {
                    &&& (#[trigger] v@[k]).title@ == level_title(k + 1)
                    &&& v@[k].rect == bands@[k]
                },
        decreases 5 - i,
    {
        let title = make_title("Level N", i + 1);
        let p = Panel { title, rect: bands[i as usize] };
        v.push(p);
        i = i + 1;
    }
    v
}

/// Build the twenty-five grid panels in row-major order: `area` is cut into
/// five equal rows, each row into five equal columns, and the cell in row
/// `row` and column `col` is titled `Kanji n` with `n == row * 5 + col + 1`.
pub fn grid_panels(area: Rect) -> (r: Vec<Panel>)
    requires
        area.wf(),
    ensures
        r@.len() == 25,
        forall|k: int|
            0 <= k < 25 ==> {
                &&& (#[trigger] r@[k]).title@ == kanji_title(k + 1)
                &&& r@[k].rect.y == area.y + band_start(area.height as int, 5, k / 5)
                &&& r@[k].rect.y + r@[k].rect.height == area.y + band_start(
                    area.height as int,
                    5,
                    k / 5 + 1,
                )
                &&& r@[k].rect.x == area.x + band_start(area.width as int, 5, k % 5)
                &&& r@[k].rect.x + r@[k].rect.width == area.x + band_start(
                    area.width as int,
                    5,
                    k % 5 + 1,
                )
                &&& r@[k].rect.wf()
            },
{
    let rows = split_even_vertical(area, 5);
    let mut v: Vec<Panel> = Vec::new();
    let mut row: u16 = 0;
    while row < 5
        invariant
            area.wf(),
            row <= 5,
            rows@.len() == 5,
            forall|k: int|
                0 <= k < 5 ==> {
                    &&& (#[trigger] rows@[k]).x == area.x
                    &&& rows@[k].width == area.width
                    &&& rows@[k].y == area.y + band_start(area.height as int, 5, k)
                    &&& rows@[k].y + rows@[k].height == area.y + band_start(
                        area.height as int,
                        5,
                        k + 1,
                    )
                    &&& rows@[k].wf()
                },
            v@.len() == 5 * row,
            forall|k: int|
                0 <= k < 5 * row ==> {
                    &&& (#[trigger] v@[k]).title@ == kanji_title(k + 1)
                    &&& v@[k].rect.y == area.y + band_start(area.height as int, 5, k / 5)
                    &&& v@[k].rect.y + v@[k].rect.height == area.y + band_start(
                        area.height as int,
                        5,
                        k / 5 + 1,
                    )
                    &&& v@[k].rect.x == area.x + band_start(area.width as int, 5, k % 5)
                    &&& v@[k].rect.x + v@[k].rect.width == area.x + band_start(
                        area.width as int,
                        5,
                        k % 5 + 1,
                    )
                    &&& v@[k].rect.wf()
                },
        decreases 5 - row,
    {
        let row_rect = rows[row as usize];
        let cells = split_even_horizontal(row_rect, 5);
        let mut col: u16 = 0;
        while col < 5
            invariant
                area.wf(),
                row < 5,
                col <= 5,
                cells@.len() == 5,
                row_rect.x == area.x,
                row_rect.width == area.width,
                row_rect.y == area.y + band_start(area.height as int, 5, row as int),
                row_rect.y + row_rect.height == area.y + band_start(
                    area.height as int,
                    5,
                    row as int + 1,
                ),
                forall|c: int|
                    0 <= c < 5 ==> {
                        &&& (#[trigger] cells@[c]).y == row_rect.y
                        &&& cells@[c].height == row_rect.height
                        &&& cells@[c].x == row_rect.x + band_start(row_rect.width as int, 5, c)
                        &&& cells@[c].x + cells@[c].width == row_rect.x + band_start(
                            row_rect.width as int,
                            5,
                            c + 1,
                        )
                        &&& cells@[c].wf()
                    },
                v@.len() == 5 * row + col,
                forall|k: int|
                    0 <= k < 5 * row + col ==> {
                        &&& (#[trigger] v@[k]).title@ == kanji_title(k + 1)
                        &&& v@[k].rect.y == area.y + band_start(area.height as int, 5, k / 5)
                        &&& v@[k].rect.y + v@[k].rect.height == area.y + band_start(
                            area.height as int,
                            5,
                            k / 5 + 1,
                        )
                        &&& v@[k].rect.x == area.x + band_start(area.width as int, 5, k % 5)
                        &&& v@[k].rect.x + v@[k].rect.width == area.x + band_start(
                            area.width as int,
                            5,
                            k % 5 + 1,
                        )
                        &&& v@[k].rect.wf()
                    },
            decreases 5 - col,
        {
            let n: u16 = row * 5 + col + 1;
            let title = make_title("Kanji ", n);
            let p = Panel { title, rect: cells[col as usize] };
            proof {
                let k = 5 * row as int + col as int;
                assert(k / 5 == row as int && k % 5 == col as int);
            }
            v.push(p);
            col = col + 1;
        }
        row = row + 1;
    }
    v
}

} // verus!
