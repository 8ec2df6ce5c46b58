use tictactoe::map_click;

#[test]
fn center_of_middle_cell_maps_to_it() {
    // 800x600 window: board origin is (200, 100); the center of cell (1, 1)
    // sits one cell plus half a cell past the origin on each axis.
    assert_eq!(map_click(800, 600, 200 + 133 + 66, 100 + 133 + 66), Some((1, 1)));
}

#[test]
fn cell_centers_map_back() {
    for col in 0..3u8 {
        for row in 0..3u8 {
            let x = (col as i32) * 133 + 66;
            let y = (row as i32) * 133 + 66;
            assert_eq!(map_click(400, 400, x, y), Some((col, row)));
        }
    }
}

#[test]
fn boundary_rounds_down() {
    // In a 400x400 window the origin is (0, 0): offset 132 still falls in
    // cell 0, offset 133 is the first pixel of cell 1.
    assert_eq!(map_click(400, 400, 132, 0), Some((0, 0)));
    assert_eq!(map_click(400, 400, 133, 0), Some((1, 0)));
    assert_eq!(map_click(400, 400, 265, 0), Some((1, 0)));
    assert_eq!(map_click(400, 400, 266, 0), Some((2, 0)));
}

#[test]
fn clicks_off_the_board_map_to_nothing() {
    assert_eq!(map_click(800, 600, 199, 300), None); // left of the board
    assert_eq!(map_click(800, 600, 300, 99), None); // above the board
    assert_eq!(map_click(800, 600, 200 + 399, 300), None); // right edge
    assert_eq!(map_click(800, 600, 200 + 398, 100 + 398), Some((2, 2)));
    assert_eq!(map_click(800, 600, -50, -50), None);
}

#[test]
fn window_smaller_than_board_still_maps() {
    // A 100x100 window centers the board around it: the origin is
    // (-150, -150), so the window's own top-left corner lies in cell (1, 1).
    assert_eq!(map_click(100, 100, 0, 0), Some((1, 1)));
    // An odd difference floors the origin: 399 wide gives origin -1, so
    // position 0 is offset 1 into cell 0.
    assert_eq!(map_click(399, 399, 0, 0), Some((0, 0)));
}
