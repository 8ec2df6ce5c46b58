//! Mapping a screen click to a board cell.
//!
//! The board occupies a fixed 400x400 pixel footprint centered in the
//! window, split into three 133-pixel cells per axis. A click is mapped by
//! floor division, so a position exactly on a cell boundary falls into the
//! lower-indexed cell; anything outside the footprint maps to no cell.

use vstd::prelude::*;

verus! {

/// Pixel width and height of the board's footprint.
pub const BOARD_SIZE: i64 = 400;

/// Pixel width and height of one cell, the board size split three ways.
pub const CELL_SIZE: i64 = 133;

/// Where the board's low edge sits on one axis: the footprint is centered
/// in a window of `size` pixels.
pub open spec fn board_origin(size: int) -> int {
    (size - 400) / 2
}

/// The cell index that position `p` on one axis falls into, counted from
/// the board origin in cell-size steps; meaningful as a cell only when it
/// lands in `[0, 3)`.
pub open spec fn cell_coord(size: int, p: int) -> int {
    (p - board_origin(size)) / 133
}

/// The `(col, row)` cell a click at `(x, y)` addresses in a window of
/// `w` by `h` pixels, or nothing when the click misses the board.
pub open spec fn click_cell(w: int, h: int, x: int, y: int) -> Option<(int, int)> {
    let c = cell_coord(w, x);
    let r = cell_coord(h, y);
    if 0 <= c < 3 && 0 <= r < 3 {
        Some((c, r))
    } else {
        None
    }
}

/// Floor division of `a` by two, computed over unsigned halves so that a
/// negative numerator still rounds toward negative infinity.
fn floor_half(a: i64) -> (q: i64)
    requires
        -1000000000000 <= a <= 1000000000000,
    ensures
        q == a as int / 2,
{
    if a >= 0 {
        ((a as u64) / 2) as i64
    } else {
        let m: u64 = (-a) as u64;
        proof {
            lemma_neg_floor_half(a as int);
        }
        -(((m + 1) / 2) as i64)
    }
}

/// Floor division by two of a negative number, written over its negation:
/// the floor of `a / 2` is minus the ceiling of `-a / 2`.
proof fn lemma_neg_floor_half(a: int)
    requires
        a < 0,
    ensures
        a / 2 == -((-a + 1) / 2),
{
    let m = -a;
    let k = (m + 1) / 2;
    let s = (m + 1) % 2;
    vstd::arithmetic::div_mod::lemma_fundamental_div_mod(m + 1, 2);
    vstd::arithmetic::div_mod::lemma_mod_bound(m + 1, 2);
    assert(a == (-k) * 2 + (1 - s)) by {
        assert(m + 1 == 2 * k + s);
    }
    vstd::arithmetic::div_mod::lemma_fundamental_div_mod_converse_div(a, 2, -k, 1 - s);
}

/// The cell index position `p` falls into on an axis of a window `size`
/// pixels wide, when it lands on the board at all.
pub fn cell_index(size: u32, p: i32) -> (res: Option<u8>)
    ensures
        (match res {
            Some(c) => 0 <= cell_coord(size as int, p as int) < 3 && c == cell_coord(
                size as int,
                p as int,
            ),
            None => !(0 <= cell_coord(size as int, p as int) < 3),
        }),
{
    let s: i64 = size as i64;
    let pp: i64 = p as i64;
    let ox: i64 = floor_half(s - BOARD_SIZE);
    let dx: i64 = pp - ox;
    proof {
        vstd::arithmetic::div_mod::lemma_fundamental_div_mod(dx as int, 133);
        vstd::arithmetic::div_mod::lemma_mod_bound(dx as int, 133);
    }
    if dx >= 0 && dx < 3 * CELL_SIZE {
        let c: u64 = (dx as u64) / (CELL_SIZE as u64);
        Some(c as u8)
    } else {
        None
    }
}

/// Map a click at `(x, y)` in a `width` by `height` window to the board
/// cell it addresses, if any.
pub fn map_click(width: u32, height: u32, x: i32, y: i32) -> (res: Option<(u8, u8)>)
    ensures
        (match res {
            Some(cr) => click_cell(width as int, height as int, x as int, y as int) == Some(
                (cr.0 as int, cr.1 as int),
            ),
            None => click_cell(width as int, height as int, x as int, y as int) is None,
        }),
{
    let c = cell_index(width, x);
    let r = cell_index(height, y);
    match (c, r) {
        (Some(c), Some(r)) => Some((c, r)),
        _ => None,
    }
}

/// The exact center of a cell maps back to that cell: on an axis of any
/// window size, the position one cell origin plus half a cell deep into
/// cell `c` has cell coordinate `c`.
pub proof fn lemma_cell_center(size: int, c: int)
    requires
        0 <= c < 3,
    ensures
        cell_coord(size, board_origin(size) + 133 * c + 66) == c,
{
    vstd::arithmetic::div_mod::lemma_fundamental_div_mod_converse_div(133 * c + 66, 133, c, 66);
}

} // verus!
