use bounce::grid::{draw_border_helper, draw_hline, draw_string_helper, fill_grid, set_cell_helper, TerminalCell};

fn blank() -> TerminalCell {
    TerminalCell { ch: ' ', fg: (1, 2, 3), bg: (9, 9, 9), bold: false }
}

fn row(grid: &[TerminalCell], cols: usize, y: usize) -> String {
    grid[y * cols..(y + 1) * cols].iter().map(|c| c.ch).collect()
}

#[test]
fn set_cell_writes_inside_screen() {
    let mut grid = vec![blank(); 6];
    set_cell_helper(&mut grid, 3, 2, 2, 1, 'x', (5, 6, 7), true);
    assert_eq!(grid[5], TerminalCell { ch: 'x', fg: (5, 6, 7), bg: (0, 0, 0), bold: true });
    for i in 0..5 {
        assert_eq!(grid[i], blank());
    }
}

#[test]
fn set_cell_off_screen_is_ignored() {
    let mut grid = vec![blank(); 6];
    set_cell_helper(&mut grid, 3, 2, 3, 0, 'x', (5, 6, 7), true);
    set_cell_helper(&mut grid, 3, 2, 0, 2, 'y', (5, 6, 7), true);
    assert!(grid.iter().all(|c| *c == blank()));
}

#[test]
fn draw_string_clips_at_right_edge() {
    let mut grid = vec![blank(); 10];
    draw_string_helper(&mut grid, 5, 2, 3, 1, "hello", (1, 1, 1), false);
    assert_eq!(row(&grid, 5, 0), "     ");
    assert_eq!(row(&grid, 5, 1), "   he");
}

#[test]
fn draw_string_handles_unicode() {
    let mut grid = vec![blank(); 4];
    draw_string_helper(&mut grid, 4, 1, 0, 0, "é☺─", (1, 1, 1), true);
    assert_eq!(row(&grid, 4, 0), "é☺─ ");
    assert!(grid[0].bold && grid[2].bold && !grid[3].bold);
}

#[test]
fn draw_string_starting_off_screen_draws_nothing() {
    let mut grid = vec![blank(); 4];
    draw_string_helper(&mut grid, 4, 1, 7, 0, "abc", (1, 1, 1), true);
    assert!(grid.iter().all(|c| *c == blank()));
}

#[test]
fn border_with_title() {
    let cols = 12;
    let mut grid = vec![blank(); cols * 4];
    draw_border_helper(&mut grid, cols, 4, 0, 0, 10, 4, "AB", (7, 7, 7));
    assert_eq!(row(&grid, cols, 0), "╔══ AB ══╗  ");
    assert_eq!(row(&grid, cols, 1), "║        ║  ");
    assert_eq!(row(&grid, cols, 2), "║        ║  ");
    assert_eq!(row(&grid, cols, 3), "╚════════╝  ");
    assert!(grid[4].bold);
    assert!(!grid[0].bold);
    assert_eq!(grid[1 * cols + 1], blank());
}

#[test]
fn border_title_too_wide_is_left_out() {
    let cols = 6;
    let mut grid = vec![blank(); cols * 3];
    draw_border_helper(&mut grid, cols, 3, 1, 0, 4, 3, "LONG", (7, 7, 7));
    assert_eq!(row(&grid, cols, 0), " ╔══╗ ");
    assert_eq!(row(&grid, cols, 1), " ║  ║ ");
    assert_eq!(row(&grid, cols, 2), " ╚══╝ ");
}

#[test]
fn border_title_exactly_fitting_covers_the_corners() {
    let cols = 6;
    let mut grid = vec![blank(); cols * 2];
    draw_border_helper(&mut grid, cols, 2, 0, 0, 4, 2, "ab", (7, 7, 7));
    assert_eq!(row(&grid, cols, 0), " ab   ");
    assert_eq!(row(&grid, cols, 1), "╚══╝  ");
}

#[test]
fn border_partly_off_screen() {
    let cols = 4;
    let mut grid = vec![blank(); cols * 3];
    draw_border_helper(&mut grid, cols, 3, 2, 1, 5, 5, "", (7, 7, 7));
    assert_eq!(row(&grid, cols, 0), "    ");
    assert_eq!(row(&grid, cols, 1), "  ╔═");
    assert_eq!(row(&grid, cols, 2), "  ║ ");
}

#[test]
fn one_row_border_keeps_bottom_corners() {
    let cols = 5;
    let mut grid = vec![blank(); cols];
    draw_border_helper(&mut grid, cols, 1, 0, 0, 4, 1, "", (7, 7, 7));
    assert_eq!(row(&grid, cols, 0), "╚══╝ ");
}

#[test]
fn fill_and_hline() {
    let mut grid = vec![blank(); 8];
    let c = TerminalCell { ch: '.', fg: (0, 0, 0), bg: (0, 0, 0), bold: false };
    fill_grid(&mut grid, c);
    assert!(grid.iter().all(|x| *x == c));
    draw_hline(&mut grid, 4, 2, 2, 1, 5, '=', (1, 1, 1), false);
    assert_eq!(row(&grid, 4, 0), "....");
    assert_eq!(row(&grid, 4, 1), "..==");
}
