use vstd::prelude::*;
use crate::grid::{
    TerminalCell, Rgb, covers, put_text, put_border, painted, filled, fill_grid, draw_string_helper, text_writable,
    draw_border_helper, lemma_covers_writable_all, lemma_covers_writable, lemma_put_text_cells, on_screen,
    cell_index,
};
use crate::layout::{
    fits_dashboard, is_wide, console_panel, game_panel, dashboard_layout, lemma_layout_sound,
    MIN_DASHBOARD_COLS, MIN_DASHBOARD_ROWS,
};
use crate::console::{ConsoleState, ConsoleView};
use crate::grid::{lemma_border_within_box, lemma_border_title_centred, title_text};
use crate::panel_console::lemma_put_console_panel_len;
use crate::panel_bhop::{lemma_put_game_panel_len, lemma_game_panel_keeps_top_row};
use crate::panel_sys_info::lemma_put_system_panel_len;
use crate::panel_console::{put_console_panel, draw_console_panel};
use crate::panel_bhop::{GameView, put_game_panel, draw_bhop_panel};
use crate::panel_sys_info::{SystemInfoView, put_system_panel, draw_system_info_panel};

verus! {

/// Everything the dashboard shows besides the console.
pub struct DashboardView {
    /// Accent colour of the desktop theme: frames, titles, prompts and the logo.
    pub accent: (u8, u8, u8),
    /// Whether the system panel is shown.
    pub show_sys_info: bool,
    /// Whether the blinking console cursor is in its visible phase.
    pub cursor_visible: bool,
    pub system: SystemInfoView,
    pub game: GameView,
}

/// The text shown instead of the dashboard on a screen that is too small.
pub open spec fn too_small_text() -> Seq<char> {
    "Screen size too small for console dashboard."@
}

/// Column where the warning starts: centred, or at the left edge when the screen
/// is narrower than the warning.
pub open spec fn warning_start(cols: int) -> int {
    let n = too_small_text().len() as int;
    if cols >= n { (cols - n) / 2 } else { 0 }
}

/// Title of the game panel, naming the arrangement of the panels.
pub open spec fn game_title(wide: bool) -> Seq<char> {
    "BHOP SIMULATOR v1.3 ("@ + (if wide { "WIDE"@ } else { "STACK"@ }) + ")"@
}

/// The game panel's title names the arrangement: `BHOP SIMULATOR v1.3 (WIDE)` when
/// the panels stand side by side, `BHOP SIMULATOR v1.3 (STACK)` when they are stacked,
/// so the two titles differ.
pub proof fn lemma_game_title_names_arrangement(wide: bool)
    ensures
        game_title(wide) == if wide { "BHOP SIMULATOR v1.3 (WIDE)"@ } else { "BHOP SIMULATOR v1.3 (STACK)"@ },
        game_title(true) != game_title(false),
{
    reveal_strlit("BHOP SIMULATOR v1.3 (");
    reveal_strlit("WIDE");
    reveal_strlit("STACK");
    reveal_strlit(")");
    reveal_strlit("BHOP SIMULATOR v1.3 (WIDE)");
    reveal_strlit("BHOP SIMULATOR v1.3 (STACK)");
    assert(game_title(true) =~= "BHOP SIMULATOR v1.3 (WIDE)"@);
    assert(game_title(false) =~= "BHOP SIMULATOR v1.3 (STACK)"@);
    assert(game_title(true).len() != game_title(false).len());
}

/// On a screen large enough for the dashboard, the top edge of the game panel's
/// frame carries, centred and in bold accent colour, ` BHOP SIMULATOR v1.3 (WIDE) `
/// when the console and game panels stand side by side and
/// ` BHOP SIMULATOR v1.3 (STACK) ` when they are stacked, whenever that text fits in
/// the panel's width; only the runner, lifted up to that row by a high jump, may
/// cover one of its characters.
pub proof fn lemma_game_frame_title(
    len: nat,
    cols: int,
    rows: int,
    view: DashboardView,
    console: ConsoleView,
    cx: int,
)
    requires
        covers(len as int, cols, rows),
        fits_dashboard(cols, rows),
        on_screen(cols, rows, cx, game_panel(cols, rows, view.show_sys_info).1),
    ensures
        ({
            let show = view.show_sys_info;
            let gp = game_panel(cols, rows, show);
            let t = if is_wide(cols, show) {
                " BHOP SIMULATOR v1.3 (WIDE) "@
            } else {
                " BHOP SIMULATOR v1.3 (STACK) "@
            };
            let tx = gp.0 + (gp.2 - t.len()) / 2;
            let floor = gp.1 + gp.3 - 3;
            let runner_y = if floor - 1 >= view.game.player_lift { floor - 1 - view.game.player_lift } else { 0 };
            let runner_here = cx == gp.0 + 8 && gp.1 == runner_y;
            (t.len() <= gp.2 && tx <= cx < tx + t.len() && !runner_here) ==> put_dashboard(
                len,
                cols,
                rows,
                view,
                console,
            )[cell_index(cols, cx, gp.1)] == painted(t[cx - tx], view.accent, true)
        }),
{
    reveal_strlit(" BHOP SIMULATOR v1.3 (WIDE) ");
    reveal_strlit(" BHOP SIMULATOR v1.3 (STACK) ");
    reveal_strlit("BHOP SIMULATOR v1.3 (WIDE)");
    reveal_strlit("BHOP SIMULATOR v1.3 (STACK)");
    let blank = filled(len, painted(' ', view.accent, false));
    let blue = view.accent;
    let teal: Rgb = (0u8, 240u8, 200u8);
    let show = view.show_sys_info;
    let c = console_panel(cols, rows, show);
    let gp = game_panel(cols, rows, show);
    lemma_layout_sound(cols, rows, show);
    assert(gp.3 >= 10);
    let g1 = if show {
        let framed = put_border(blank, cols, rows, 0, 0, 75, rows - 2, "SYSTEM DIAGNOSTICS"@, blue);
        lemma_border_within_box(blank, cols, rows, 0, 0, 75, rows - 2, "SYSTEM DIAGNOSTICS"@, blue);
        lemma_put_system_panel_len(framed, cols, rows, view.system, blue);
        put_system_panel(framed, cols, rows, view.system, blue)
    } else {
        blank
    };
    let g2 = put_border(g1, cols, rows, c.0, c.1, c.2, c.3, "COMMAND CONSOLE"@, blue);
    lemma_border_within_box(g1, cols, rows, c.0, c.1, c.2, c.3, "COMMAND CONSOLE"@, blue);
    let g3 = put_console_panel(
        g2, cols, rows, console, view.system.username@, view.cursor_visible, c.0, c.1, c.2, c.3, blue, teal,
    );
    lemma_put_console_panel_len(
        g2, cols, rows, console, view.system.username@, view.cursor_visible, c.0, c.1, c.2, c.3, blue, teal,
    );
    let wide = is_wide(cols, show);
    let title = game_title(wide);
    lemma_game_title_names_arrangement(wide);
    let t = title_text(title);
    let lit = if wide { " BHOP SIMULATOR v1.3 (WIDE) "@ } else { " BHOP SIMULATOR v1.3 (STACK) "@ };
    assert(t =~= lit);
    let g4 = put_border(g3, cols, rows, gp.0, gp.1, gp.2, gp.3, title, blue);
    lemma_border_within_box(g3, cols, rows, gp.0, gp.1, gp.2, gp.3, title, blue);
    if t.len() <= gp.2 {
        lemma_border_title_centred(g3, cols, rows, gp.0, gp.1, gp.2, gp.3, title, blue, cx, gp.1);
    }
    let floor = gp.1 + gp.3 - 3;
    let runner_y = if floor - 1 >= view.game.player_lift { floor - 1 - view.game.player_lift } else { 0 };
    if !(cx == gp.0 + 8 && gp.1 == runner_y) {
        lemma_game_panel_keeps_top_row(g4, cols, rows, view.game, gp.0, gp.1, gp.2, gp.3, blue, teal, cx);
    }
}

/// The whole screen. Every cell is first blanked in the accent colour. A screen
/// smaller than 80 by 30 then only shows, in orange, a warning centred on its middle
/// row. Otherwise the system panel (if shown) is framed at the left, 75 columns wide,
/// and filled; the console panel is framed and filled; and the game panel is framed,
/// titled with the arrangement, and filled.
pub open spec fn put_dashboard(
    len: nat,
    cols: int,
    rows: int,
    view: DashboardView,
    console: ConsoleView,
) -> Seq<TerminalCell> {
    let blank = filled(len, painted(' ', view.accent, false));
    if !fits_dashboard(cols, rows) {
        put_text(blank, cols, rows, warning_start(cols), rows / 2, too_small_text(), (255u8, 120u8, 0u8), false)
    } else {
        let blue = view.accent;
        let teal: Rgb = (0u8, 240u8, 200u8);
        let show = view.show_sys_info;
        let c = console_panel(cols, rows, show);
        let gp = game_panel(cols, rows, show);
        let g1 = if show {
            let framed = put_border(blank, cols, rows, 0, 0, 75, rows - 2, "SYSTEM DIAGNOSTICS"@, blue);
            put_system_panel(framed, cols, rows, view.system, blue)
        } else {
            blank
        };
        let g2 = put_border(g1, cols, rows, c.0, c.1, c.2, c.3, "COMMAND CONSOLE"@, blue);
        let g3 = put_console_panel(
            g2, cols, rows, console, view.system.username@, view.cursor_visible, c.0, c.1, c.2, c.3, blue, teal,
        );
        let g4 = put_border(g3, cols, rows, gp.0, gp.1, gp.2, gp.3, game_title(is_wide(cols, show)), blue);
        put_game_panel(g4, cols, rows, view.game, gp.0, gp.1, gp.2, gp.3, blue, teal)
    }
}

/// The display-size texts of the system panel can be formed: the pixel sizes fit in an `i32`.
pub open spec fn pixel_size_fits(cols: int, rows: int, view: DashboardView) -> bool {
    &&& i32::MIN <= (cols as i32) * view.system.cell_w <= i32::MAX
    &&& i32::MIN <= (rows as i32) * view.system.cell_h <= i32::MAX
}

/// On a screen smaller than 80 by 30 the dashboard shows nothing but the warning:
/// its characters in orange on the middle row, starting at column `(cols - 44) / 2`
/// (column 0 if the screen is narrower than the warning), and every other cell blank
/// in the accent colour.
pub proof fn lemma_small_screen_shows_warning(
    len: nat,
    cols: int,
    rows: int,
    view: DashboardView,
    console: ConsoleView,
    cx: int,
    cy: int,
)
    requires
        covers(len as int, cols, rows),
        !fits_dashboard(cols, rows),
        on_screen(cols, rows, cx, cy),
    ensures
        too_small_text().len() == 44,
        put_dashboard(len, cols, rows, view, console)[cell_index(cols, cx, cy)] == ({
            let sx = if cols >= 44 { (cols - 44) / 2 } else { 0 };
            if cy == rows / 2 && sx <= cx < sx + 44 {
                painted(too_small_text()[cx - sx], (255u8, 120u8, 0u8), false)
            } else {
                painted(' ', view.accent, false)
            }
        }),
{
    reveal_strlit("Screen size too small for console dashboard.");
    let blank = filled(len, painted(' ', view.accent, false));
    lemma_put_text_cells(
        blank, cols, rows, warning_start(cols), rows / 2, too_small_text(), (255u8, 120u8, 0u8), false, cx, cy,
    );
    lemma_covers_writable(len as int, cols, rows, cx, cy);
}

/// The picture depends on the grid only through its length, and drawing it keeps
/// that length: drawing into two grids of the same length gives the same picture,
/// whatever they held, and drawing again over a drawn dashboard changes nothing.
pub proof fn lemma_redraw_gives_same_picture(
    g1: Seq<TerminalCell>,
    g2: Seq<TerminalCell>,
    cols: int,
    rows: int,
    view: DashboardView,
    console: ConsoleView,
)
    requires
        g1.len() == g2.len(),
        covers(g1.len() as int, cols, rows),
    ensures
        put_dashboard(g1.len(), cols, rows, view, console) == put_dashboard(g2.len(), cols, rows, view, console),
        put_dashboard(g1.len(), cols, rows, view, console).len() == g1.len(),
        put_dashboard(put_dashboard(g1.len(), cols, rows, view, console).len(), cols, rows, view, console)
            == put_dashboard(g1.len(), cols, rows, view, console),
{
    let len = g1.len();
    let blank = filled(len, painted(' ', view.accent, false));
    assert(blank.len() == len);
    if !fits_dashboard(cols, rows) {
        crate::grid::lemma_put_text_len(
            blank, cols, rows, warning_start(cols), rows / 2, too_small_text(), (255u8, 120u8, 0u8), false,
        );
    } else {
        let blue = view.accent;
        let teal: Rgb = (0u8, 240u8, 200u8);
        let show = view.show_sys_info;
        let c = console_panel(cols, rows, show);
        let gp = game_panel(cols, rows, show);
        lemma_layout_sound(cols, rows, show);
        let g1 = if show {
            let framed = put_border(blank, cols, rows, 0, 0, 75, rows - 2, "SYSTEM DIAGNOSTICS"@, blue);
            lemma_border_within_box(blank, cols, rows, 0, 0, 75, rows - 2, "SYSTEM DIAGNOSTICS"@, blue);
            lemma_put_system_panel_len(framed, cols, rows, view.system, blue);
            put_system_panel(framed, cols, rows, view.system, blue)
        } else {
            blank
        };
        let g2 = put_border(g1, cols, rows, c.0, c.1, c.2, c.3, "COMMAND CONSOLE"@, blue);
        lemma_border_within_box(g1, cols, rows, c.0, c.1, c.2, c.3, "COMMAND CONSOLE"@, blue);
        let g3 = put_console_panel(
            g2, cols, rows, console, view.system.username@, view.cursor_visible, c.0, c.1, c.2, c.3, blue, teal,
        );
        lemma_put_console_panel_len(
            g2, cols, rows, console, view.system.username@, view.cursor_visible, c.0, c.1, c.2, c.3, blue, teal,
        );
        let title = game_title(is_wide(cols, show));
        let g4 = put_border(g3, cols, rows, gp.0, gp.1, gp.2, gp.3, title, blue);
        lemma_border_within_box(g3, cols, rows, gp.0, gp.1, gp.2, gp.3, title, blue);
        lemma_put_game_panel_len(g4, cols, rows, view.game, gp.0, gp.1, gp.2, gp.3, blue, teal);
    }
}

/// Draws the whole dashboard onto `grid`, a `cols` by `rows` screen. On a screen
/// large enough for the dashboard the grid must hold every cell of the screen; on a
/// smaller one only the warning's on-screen cells need to lie inside it.
pub fn draw_dashboard(
    view: &DashboardView,
    console: &ConsoleState,
    grid: &mut [TerminalCell],
    cols: usize,
    rows: usize,
)
    requires
        fits_dashboard(cols as int, rows as int) ==> covers(old(grid)@.len() as int, cols as int, rows as int),
        !fits_dashboard(cols as int, rows as int) ==> text_writable(
            old(grid)@.len() as int, cols as int, rows as int, warning_start(cols as int), (rows / 2) as int,
            too_small_text().len() as int,
        ),
        fits_dashboard(cols as int, rows as int) ==> rows <= i32::MAX,
        fits_dashboard(cols as int, rows as int) && view.show_sys_info ==> pixel_size_fits(cols as int, rows as int, *view),
    ensures
        final(grid)@.len() == old(grid)@.len(),
        final(grid)@ == put_dashboard(old(grid)@.len(), cols as int, rows as int, *view, console@),
{
    let len = grid.len();
    let ghost glen = grid@.len();
    fill_grid(grid, TerminalCell { ch: ' ', fg: view.accent, bg: (0, 0, 0), bold: false });

    if cols < MIN_DASHBOARD_COLS || rows < MIN_DASHBOARD_ROWS {
        let warn = "Screen size too small for console dashboard.";
        let warn_len = warn.unicode_len();
        let start_x = cols.saturating_sub(warn_len) / 2;
        let start_y = rows / 2;
        draw_string_helper(grid, cols, rows, start_x, start_y, warn, (255, 120, 0), false);
        return;
    }

    proof {
        lemma_covers_writable_all(glen as int, cols as int, rows as int);
        lemma_layout_sound(cols as int, rows as int, view.show_sys_info);
        assert(cols * 30 <= cols * rows) by (nonlinear_arith)
            requires
                rows >= 30;
        assert(cols * rows <= len);
    }
    let blue = view.accent;
    let teal = (0u8, 240u8, 200u8);
    let layout = dashboard_layout(cols, rows, view.show_sys_info);
    let c = layout.console;
    let gp = layout.game;

    if view.show_sys_info {
        draw_border_helper(grid, cols, rows, 0, 0, 75, rows - 2, "SYSTEM DIAGNOSTICS", blue);
        draw_system_info_panel(&view.system, grid, cols, rows, blue);
    }

    draw_border_helper(grid, cols, rows, c.x, c.y, c.w, c.h, "COMMAND CONSOLE", blue);
    draw_console_panel(
        console, view.system.username.as_str(), view.cursor_visible, grid, cols, rows, c.x, c.y, c.w, c.h,
        blue, teal,
    );

    let mut title = String::from_str("BHOP SIMULATOR v1.3 (");
    if layout.wide {
        title.append("WIDE");
    } else {
        title.append("STACK");
    }
    title.append(")");
    assert(title@ =~= game_title(is_wide(cols as int, view.show_sys_info)));
    draw_border_helper(grid, cols, rows, gp.x, gp.y, gp.w, gp.h, title.as_str(), blue);
    draw_bhop_panel(&view.game, grid, cols, rows, gp.x, gp.y, gp.w, gp.h, blue, teal);
}

} // verus!
