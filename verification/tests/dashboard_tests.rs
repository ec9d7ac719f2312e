use bounce::console::ConsoleState;
use bounce::dashboard::{draw_dashboard, DashboardView};
use bounce::game::BhopState;
use bounce::grid::TerminalCell;
use bounce::panel_bhop::{draw_bhop_panel, GameView};
use bounce::panel_console::draw_console_panel;
use bounce::panel_sys_info::SystemInfoView;

const ACCENT: (u8, u8, u8) = (0, 120, 215);

fn blank() -> TerminalCell {
    TerminalCell { ch: '?', fg: (9, 9, 9), bg: (9, 9, 9), bold: true }
}

fn row(grid: &[TerminalCell], cols: usize, y: usize) -> String {
    grid[y * cols..(y + 1) * cols].iter().map(|c| c.ch).collect()
}

fn system() -> SystemInfoView {
    SystemInfoView {
        username: "alice".to_string(),
        hostname: "DESKTOP-1".to_string(),
        os_name: "Windows 11".to_string(),
        kernel_version: "10.0.22631".to_string(),
        shell_name: "pwsh".to_string(),
        refresh_rate: 60,
        cell_w: 12,
        cell_h: 20,
        uptime_secs: 3661,
        cpu_id: "Ryzen".to_string(),
        gpus: "Radeon".to_string(),
        memory_text: "8.0 GB / 16.0 GB (50%)".to_string(),
        monitors: "1".to_string(),
        theme_mode: "Dark Mode".to_string(),
        power_status: "AC Power".to_string(),
        disk_summary: "C: 100 GB free".to_string(),
        skill_text: "72%".to_string(),
        logo_lines: vec!["ab c".to_string(), "xyz".to_string()],
    }
}

fn game() -> GameView {
    GameView {
        score: 3,
        best: 12,
        speed: 250,
        state: BhopState::Playing,
        player_lift: 0,
        airborne: false,
        obstacle_offset: 10,
        scenery_tick: 0,
    }
}

fn view(show: bool) -> DashboardView {
    DashboardView { accent: ACCENT, show_sys_info: show, cursor_visible: true, system: system(), game: game() }
}

#[test]
fn small_screen_shows_only_the_warning() {
    let (cols, rows) = (80, 24);
    let mut grid = vec![blank(); cols * rows];
    draw_dashboard(&view(true), &ConsoleState::new(), &mut grid, cols, rows);
    let warn = "Screen size too small for console dashboard.";
    for y in 0..rows {
        let expected = if y == 12 {
            format!("{}{}{}", " ".repeat(18), warn, " ".repeat(18))
        } else {
            " ".repeat(cols)
        };
        assert_eq!(row(&grid, cols, y), expected);
    }
    assert_eq!(grid[12 * cols + 18].fg, (255, 120, 0));
    assert_eq!(grid[0].fg, ACCENT);
    assert!(!grid[0].bold);
}

#[test]
fn full_dashboard_with_system_panel() {
    let (cols, rows) = (80, 40);
    let mut grid = vec![blank(); cols * rows];
    draw_dashboard(&view(true), &ConsoleState::new(), &mut grid, cols, rows);
    let top = row(&grid, cols, 0);
    assert!(top.starts_with("╔"));
    assert!(top.contains(" SYSTEM DIAGNOSTICS "));
    assert_eq!(grid[74].ch, '╗');
    assert_eq!(grid[76].ch, '╔');
    let logo: String = row(&grid, cols, 2).chars().skip(4).take(4).collect();
    assert_eq!(logo, "ab c");
    assert!(grid[2 * cols + 4].bold);
    assert!(!grid[2 * cols + 6].bold);
    let logo2: String = row(&grid, cols, 3).chars().skip(4).take(4).collect();
    assert_eq!(logo2, "xyz ");
    let divider: String = row(&grid, cols, 9).chars().skip(2).take(71).collect();
    assert_eq!(divider, "─".repeat(71));
    let title: String = row(&grid, cols, 11).chars().skip(4).take(15).collect();
    assert_eq!(title, "alice@desktop-1");
    let uptime: String = row(&grid, cols, 18).chars().skip(14).take(8).collect();
    assert_eq!(uptime, "1h 1m 1s");
    let display: String = row(&grid, cols, 22).chars().skip(14).take(29).collect();
    assert_eq!(display, "960x800 @ 60Hz (Main Monitor)");
    let theme: String = row(&grid, cols, 32).chars().skip(14).take(24).collect();
    assert_eq!(theme, "Dark Mode Mode (#0078D7)");
    assert!(grid.iter().all(|c| c.ch != '?'));
    assert_eq!(grid[35 * cols + 4].ch, '█');
    assert_eq!(grid[35 * cols + 4].fg, (255, 0, 127));
}

#[test]
fn wide_dashboard_without_system_panel() {
    let (cols, rows) = (120, 30);
    let mut grid = vec![blank(); cols * rows];
    let mut console = ConsoleState::new();
    console.advance("alice", "DESKTOP-1");
    console.advance("alice", "DESKTOP-1");
    draw_dashboard(&view(false), &console, &mut grid, cols, rows);
    let top = row(&grid, cols, 0);
    assert!(top.contains(" COMMAND CONSOLE "));
    assert!(top.contains(" BHOP SIMULATOR v1.3 (WIDE) "));
    assert!(row(&grid, cols, 1)[..].contains("Initializing console system..."));
    let prompt_row: String = row(&grid, cols, 2).chars().skip(2).take(18).collect();
    assert_eq!(prompt_row, "alice@desktop-1:~$");
    assert_eq!(grid[2 * cols + 2].fg, (0, 240, 200));
    assert!(!grid[2 * cols + 2].bold);
    assert_eq!(grid[1 * cols + 2].fg, (235, 240, 250));
    let typed: String = row(&grid, cols, 2).chars().skip(2).take(20).collect();
    assert_eq!(typed, "alice@desktop-1:~$ c");
    assert_eq!(grid[2 * cols + 22].ch, '█');
    let score: String = row(&grid, cols, 1).chars().skip(62).take(11).collect();
    assert_eq!(score, "SCORE: 3   ");
    let best: String = row(&grid, cols, 1).chars().skip(77).take(10).collect();
    assert_eq!(best, "BEST: 12  ");
    let status: String = row(&grid, cols, 1).chars().skip(93).take(21).collect();
    assert_eq!(status, "STATUS: BUNNY HOPPING");
}

#[test]
fn console_panel_keeps_the_newest_lines() {
    let cols = 30;
    let rows = 6;
    let mut grid = vec![blank(); cols * rows];
    let mut console = ConsoleState::new();
    for _ in 0..40 {
        console.advance("u", "h");
    }
    draw_console_panel(&console, "u", true, &mut grid, cols, rows, 0, 0, 30, 5, (1, 1, 1), (2, 2, 2));
    let n = console.line_count();
    for r in 0..3 {
        let text: String = row(&grid, cols, 1 + r).chars().skip(2).take(26).collect();
        let expected: String = console.line(n - 3 + r).chars().chain(std::iter::repeat('?')).take(26).collect();
        if r < 2 {
            assert_eq!(text, expected);
        }
    }
    assert_eq!(row(&grid, cols, 0), "?".repeat(cols));
    for y in 1..4 {
        for &x in &[0usize, 29] {
            assert_eq!(grid[y * cols + x], blank());
        }
    }
    assert_eq!(row(&grid, cols, 4), "?".repeat(cols));
    assert_eq!(row(&grid, cols, 5), "?".repeat(cols));
}

#[test]
fn bhop_panel_after_a_crash() {
    let cols = 80;
    let rows = 16;
    let mut grid = vec![blank(); cols * rows];
    let mut g = game();
    g.state = BhopState::Dead;
    draw_bhop_panel(&g, &mut grid, cols, rows, 0, 0, 80, 14, (1, 1, 1), (2, 2, 2));
    assert!(row(&grid, cols, 1).contains("SPEED: 250 u/s"));
    let status: String = row(&grid, cols, 1).chars().skip(50).take(27).collect();
    assert_eq!(status, "STATUS: GAME OVER (CRASHED)");
    let floor = 14 - 3;
    assert_eq!(grid[floor * cols + 2].ch, '▀');
    assert_eq!(grid[3 * cols + 2].ch, '═');
    assert_eq!(grid[(floor - 1) * cols + 8].ch, '☠');
    assert_eq!(grid[(floor - 1) * cols + 8].fg, (255, 120, 0));
    assert!(!row(&grid, cols, floor - 1).contains('▲'));
    assert_eq!(grid[(floor - 4) * cols + 2].ch, '.');
    assert_eq!(grid[(floor - 6) * cols + 22].ch, '*');
}

#[test]
fn bhop_panel_while_playing() {
    let cols = 80;
    let rows = 16;
    let mut grid = vec![blank(); cols * rows];
    let mut g = game();
    g.player_lift = 3;
    g.airborne = true;
    g.scenery_tick = 17;
    draw_bhop_panel(&g, &mut grid, cols, rows, 0, 0, 80, 14, (1, 1, 1), (2, 2, 2));
    let floor = 11;
    assert_eq!(grid[(floor - 1 - 3) * cols + 8].ch, '☻');
    assert_eq!(grid[(floor - 1 - 3) * cols + 8].fg, (1, 1, 1));
    assert_eq!(grid[(floor - 1) * cols + 12].ch, '▲');
    // shift 17: dots where (i + 17) % 15 == 0, the first at i = 13
    assert_eq!(grid[(floor - 4) * cols + 2 + 13].ch, '.');
    assert_eq!(grid[(floor - 4) * cols + 2].ch, '?');
}

#[test]
fn narrow_game_panel_omits_status_that_does_not_fit() {
    let cols = 60;
    let rows = 16;
    let mut grid = vec![blank(); cols * rows];
    let mut g = game();
    g.state = BhopState::Dead;
    draw_bhop_panel(&g, &mut grid, cols, rows, 0, 0, 60, 14, (1, 1, 1), (2, 2, 2));
    assert!(!row(&grid, cols, 1).contains("STATUS"));
}

#[test]
fn warning_on_a_screen_without_columns_needs_no_grid() {
    let mut grid: Vec<TerminalCell> = Vec::new();
    draw_dashboard(&view(true), &ConsoleState::new(), &mut grid, 0, 3);
    assert!(grid.is_empty());
}

#[test]
fn drawing_twice_gives_the_same_screen() {
    let (cols, rows) = (90, 32);
    let mut a = vec![blank(); cols * rows];
    let mut b = vec![TerminalCell { ch: 'z', fg: (1, 1, 1), bg: (1, 1, 1), bold: false }; cols * rows];
    let console = ConsoleState::new();
    draw_dashboard(&view(true), &console, &mut a, cols, rows);
    draw_dashboard(&view(true), &console, &mut b, cols, rows);
    assert_eq!(a, b);
    draw_dashboard(&view(true), &console, &mut a, cols, rows);
    assert_eq!(a, b);
}

#[test]
fn lowest_game_panel_skips_the_star_row_above_the_screen() {
    let cols = 60;
    let rows = 8;
    let mut grid = vec![blank(); cols * rows];
    draw_bhop_panel(&game(), &mut grid, cols, rows, 0, 2, 60, 5, (1, 1, 1), (2, 2, 2));
    // floor row 4, scenery row 0: dots drawn, stars (two rows higher) fall off the top
    assert_eq!(grid[4 * cols + 2].ch, '▀');
    assert_eq!(grid[0 * cols + 2].ch, '.');
    assert!(grid.iter().all(|c| c.ch != '*'));
}
