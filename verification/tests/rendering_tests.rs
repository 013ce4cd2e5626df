use vibe_asteroid::rendering::{GameGrid, Minimap, ScreenBuffer};

#[test]
fn screen_buffer_starts_blank() {
    let sb = ScreenBuffer::new(4, 3);
    assert_eq!(sb.buffer.len(), 3);
    for row in &sb.buffer {
        assert_eq!(row.len(), 4);
        assert!(row.iter().all(|&c| c == ' '));
    }
    assert_eq!(sb.cursor_x, 0);
    assert_eq!(sb.cursor_y, 0);
}

#[test]
fn screen_buffer_set_char_writes_in_bounds_only() {
    let mut sb = ScreenBuffer::new(4, 3);
    sb.set_char(2, 1, 'x');
    assert_eq!(sb.buffer[1][2], 'x');
    sb.set_char(4, 1, 'y');
    sb.set_char(1, 3, 'z');
    for (y, row) in sb.buffer.iter().enumerate() {
        for (x, &c) in row.iter().enumerate() {
            if (x, y) == (2, 1) {
                assert_eq!(c, 'x');
            } else {
                assert_eq!(c, ' ');
            }
        }
    }
}

#[test]
fn screen_buffer_write_str_advances_the_cursor() {
    let mut sb = ScreenBuffer::new(5, 2);
    sb.move_to(1, 0);
    sb.write_str("abc");
    assert_eq!(sb.cursor_x, 4);
    assert_eq!(sb.cursor_y, 0);
    assert_eq!(sb.buffer[0], vec![' ', 'a', 'b', 'c', ' ']);
}

#[test]
fn screen_buffer_write_str_drops_overflowing_characters() {
    let mut sb = ScreenBuffer::new(3, 1);
    sb.move_to(1, 0);
    sb.write_str("abcd");
    assert_eq!(sb.buffer[0], vec![' ', 'a', 'b']);
    assert_eq!(sb.cursor_x, 5);
}

#[test]
fn screen_buffer_clear_resets_everything() {
    let mut sb = ScreenBuffer::new(3, 2);
    sb.move_to(1, 1);
    sb.write_char('q');
    sb.clear();
    assert_eq!(sb.cursor_x, 0);
    assert_eq!(sb.cursor_y, 0);
    assert!(sb.buffer.iter().all(|r| r.iter().all(|&c| c == ' ')));
}

#[test]
fn game_grid_set_char_and_clear() {
    let mut g = GameGrid::new(10, 5);
    g.set_char(9, 4, '@');
    assert_eq!(g.grid[4][9], '@');
    g.set_char(10, 0, '@');
    g.set_char(0, 5, '@');
    assert_eq!(g.grid[0][0], ' ');
    g.clear();
    assert!(g.grid.iter().all(|r| r.iter().all(|&c| c == ' ')));
}

#[test]
fn minimap_sits_in_the_top_right_corner() {
    let mut m = Minimap::new(20, 20, 80);
    assert_eq!(m.placement(), (60, 0));
    m.set_char(3, 2, '*');
    assert_eq!(m.rows()[2][3], '*');
    m.set_char(20, 0, '*');
    m.clear();
    assert!(m.rows().iter().all(|r| r.iter().all(|&c| c == ' ')));
}
