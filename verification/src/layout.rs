use vstd::prelude::*;

verus! {

/// Narrowest screen on which the dashboard is laid out.
pub const MIN_DASHBOARD_COLS: usize = 80;

/// Lowest screen on which the dashboard is laid out.
pub const MIN_DASHBOARD_ROWS: usize = 30;

/// Width of the system-information column, including the gap after it.
pub const SYSTEM_COLUMN_WIDTH: usize = 76;

/// With system information shown, screens at least this wide get three columns.
pub const THREE_COLUMN_MIN_COLS: usize = 220;

/// Without system information, screens at least this wide get two columns.
pub const TWO_COLUMN_MIN_COLS: usize = 120;

/// The dashboard is drawn, rather than a warning, on a screen this large.
pub open spec fn fits_dashboard(cols: int, rows: int) -> bool {
    cols >= MIN_DASHBOARD_COLS && rows >= MIN_DASHBOARD_ROWS
}

/// The console and game panels sit side by side (rather than stacked).
pub open spec fn is_wide(cols: int, show_sys_info: bool) -> bool {
    if show_sys_info {
        cols >= THREE_COLUMN_MIN_COLS
    } else {
        cols >= TWO_COLUMN_MIN_COLS
    }
}

/// Height of the console panel when the panels are stacked.
pub open spec fn stacked_console_height(rows: int) -> int {
    (rows - 2) / 2 + 1
}

/// Left edge of the console and game panels.
pub open spec fn panels_left(show_sys_info: bool) -> int {
    if show_sys_info { SYSTEM_COLUMN_WIDTH as int } else { 0 }
}

/// Width left for the console and game panels, one column of it the gap between
/// them when they sit side by side.
pub open spec fn panels_width(cols: int, show_sys_info: bool) -> int {
    if show_sys_info { cols - (SYSTEM_COLUMN_WIDTH + 1) } else if cols >= TWO_COLUMN_MIN_COLS { cols - 1 } else { cols }
}

/// The console panel `(x, y, w, h)`: the left half of the panel area when the
/// panels sit side by side, its upper half otherwise.
pub open spec fn console_panel(cols: int, rows: int, show_sys_info: bool) -> (int, int, int, int) {
    let left = panels_left(show_sys_info);
    let usable = panels_width(cols, show_sys_info);
    if is_wide(cols, show_sys_info) {
        (left, 0, usable / 2, rows - 2)
    } else {
        (left, 0, usable, stacked_console_height(rows))
    }
}

/// The game panel `(x, y, w, h)`: right of the console after a one-column gap
/// when the panels sit side by side, below it otherwise.
pub open spec fn game_panel(cols: int, rows: int, show_sys_info: bool) -> (int, int, int, int) {
    let left = panels_left(show_sys_info);
    let usable = panels_width(cols, show_sys_info);
    if is_wide(cols, show_sys_info) {
        (left + usable / 2 + 1, 0, usable - usable / 2, rows - 2)
    } else {
        let ch = stacked_console_height(rows);
        (left, ch, usable, rows - 2 - ch)
    }
}

/// A rectangle of screen cells: top-left corner `(x, y)`, `w` columns, `h` rows.
#[derive(Clone, Copy, PartialEq, Eq, Debug)]
pub struct PanelRect {
    pub x: usize,
    pub y: usize,
    pub w: usize,
    pub h: usize,
}

impl PanelRect {
    /// The rectangle as `(x, y, w, h)`.
    pub open spec fn as_tuple(self) -> (int, int, int, int) {
        (self.x as int, self.y as int, self.w as int, self.h as int)
    }
}

/// Where the console and game panels go, and whether they sit side by side.
#[derive(Clone, Copy, PartialEq, Eq, Debug)]
pub struct DashboardLayout {
    pub console: PanelRect,
    pub game: PanelRect,
    pub wide: bool,
}

/// Places the console and game panels on a `cols` by `rows` screen.
pub fn dashboard_layout(cols: usize, rows: usize, show_sys_info: bool) -> (r: DashboardLayout)
    requires
        fits_dashboard(cols as int, rows as int),
    ensures
        r.console.as_tuple() == console_panel(cols as int, rows as int, show_sys_info),
        r.game.as_tuple() == game_panel(cols as int, rows as int, show_sys_info),
        r.wide == is_wide(cols as int, show_sys_info),
{
    let is_three_column = cols >= THREE_COLUMN_MIN_COLS;
    if show_sys_info {
        if is_three_column {
            let total_rem_w = cols - SYSTEM_COLUMN_WIDTH;
            let usable_w = total_rem_w - 1;
            let col2_w = usable_w / 2;
            let col3_w = usable_w - col2_w;
            DashboardLayout {
                console: PanelRect { x: SYSTEM_COLUMN_WIDTH, y: 0, w: col2_w, h: rows - 2 },
                game: PanelRect { x: SYSTEM_COLUMN_WIDTH + col2_w + 1, y: 0, w: col3_w, h: rows - 2 },
                wide: true,
            }
        } else {
            let console_h = (rows - 2) / 2 + 1;
            DashboardLayout {
                console: PanelRect { x: SYSTEM_COLUMN_WIDTH, y: 0, w: cols - 77, h: console_h },
                game: PanelRect { x: SYSTEM_COLUMN_WIDTH, y: console_h, w: cols - 77, h: rows - 2 - console_h },
                wide: false,
            }
        }
    } else {
        if cols >= TWO_COLUMN_MIN_COLS {
            let usable_w = cols - 1;
            let col2_w = usable_w / 2;
            let col3_w = usable_w - col2_w;
            DashboardLayout {
                console: PanelRect { x: 0, y: 0, w: col2_w, h: rows - 2 },
                game: PanelRect { x: col2_w + 1, y: 0, w: col3_w, h: rows - 2 },
                wide: true,
            }
        } else {
            let console_h = (rows - 2) / 2 + 1;
            DashboardLayout {
                console: PanelRect { x: 0, y: 0, w: cols, h: console_h },
                game: PanelRect { x: 0, y: console_h, w: cols, h: rows - 2 - console_h },
                wide: false,
            }
        }
    }
}

/// Width of the game panel as the game itself works it out, for any screen width.
pub open spec fn game_width(cols: int, show_sys_info: bool) -> int {
    if show_sys_info {
        if cols >= THREE_COLUMN_MIN_COLS {
            let usable = cols - (SYSTEM_COLUMN_WIDTH + 1);
            usable - usable / 2
        } else if cols >= SYSTEM_COLUMN_WIDTH + 1 {
            cols - (SYSTEM_COLUMN_WIDTH + 1)
        } else {
            0
        }
    } else if cols >= TWO_COLUMN_MIN_COLS {
        let usable = cols - 1;
        usable - usable / 2
    } else {
        cols
    }
}

/// Width of the game panel for a screen `cols` wide, saturating at zero on
/// screens too narrow for the system column.
pub fn bhop_panel_width(cols: usize, show_sys_info: bool) -> (r: usize)
    ensures
        r == game_width(cols as int, show_sys_info),
{
    if show_sys_info {
        if cols >= THREE_COLUMN_MIN_COLS {
            let total_rem_w = cols.saturating_sub(SYSTEM_COLUMN_WIDTH);
            let usable_w = total_rem_w.saturating_sub(1);
            let col2_w = usable_w / 2;
            usable_w - col2_w
        } else {
            cols.saturating_sub(77)
        }
    } else {
        if cols >= TWO_COLUMN_MIN_COLS {
            let usable_w = cols.saturating_sub(1);
            let col2_w = usable_w / 2;
            usable_w - col2_w
        } else {
            cols
        }
    }
}

/// Columns of the game panel inside its frame and margins.
pub open spec fn game_content_width(panel_w: int) -> int {
    if panel_w >= 4 { panel_w - 4 } else { 0 }
}

/// Where a new obstacle appears: four columns short of the right end of the
/// track, but never nearer the player than column 40.
pub open spec fn obstacle_start(cols: int, show_sys_info: bool) -> int {
    let content = game_content_width(game_width(cols, show_sys_info));
    if content - 4 >= 40 { content - 4 } else { 40 }
}

/// The column at which a new obstacle appears on a screen `cols` wide.
pub fn obstacle_start_x(cols: usize, show_sys_info: bool) -> (r: usize)
    ensures
        r == obstacle_start(cols as int, show_sys_info),
        r >= 40,
{
    let content = bhop_panel_width(cols, show_sys_info).saturating_sub(4);
    if content >= 44 { content - 4 } else { 40 }
}

/// The rectangle `(x, y, w, h)` lies on the screen, above its two bottom rows.
pub open spec fn inside_panel_area(r: (int, int, int, int), cols: int, rows: int) -> bool {
    &&& 0 <= r.0 && 0 <= r.1
    &&& 1 <= r.2 && 1 <= r.3
    &&& r.0 + r.2 <= cols
    &&& r.1 + r.3 <= rows - 2
}

/// The rectangles share no cell.
pub open spec fn disjoint(a: (int, int, int, int), b: (int, int, int, int)) -> bool {
    a.0 + a.2 <= b.0 || b.0 + b.2 <= a.0 || a.1 + a.3 <= b.1 || b.1 + b.3 <= a.1
}

/// On every screen large enough for the dashboard, the console and game panels
/// lie on the screen above the status rows, do not overlap, leave the system
/// column (columns 0 to 75) free when it is shown, and the game panel is as wide
/// as the game itself reckons it to be.
pub proof fn lemma_layout_sound(cols: int, rows: int, show_sys_info: bool)
    requires
        fits_dashboard(cols, rows),
    ensures
        inside_panel_area(console_panel(cols, rows, show_sys_info), cols, rows),
        inside_panel_area(game_panel(cols, rows, show_sys_info), cols, rows),
        disjoint(console_panel(cols, rows, show_sys_info), game_panel(cols, rows, show_sys_info)),
        show_sys_info ==> console_panel(cols, rows, show_sys_info).0 >= SYSTEM_COLUMN_WIDTH,
        show_sys_info ==> game_panel(cols, rows, show_sys_info).0 >= SYSTEM_COLUMN_WIDTH,
        game_panel(cols, rows, show_sys_info).2 == game_width(cols, show_sys_info),
{
}

/// When the panels sit side by side they span the panel area exactly: the game
/// panel ends at the right edge of the screen, one column after the console.
pub proof fn lemma_wide_layout_spans_width(cols: int, rows: int, show_sys_info: bool)
    requires
        fits_dashboard(cols, rows),
        is_wide(cols, show_sys_info),
    ensures
        console_panel(cols, rows, show_sys_info).0 + console_panel(cols, rows, show_sys_info).2 + 1
            == game_panel(cols, rows, show_sys_info).0,
        game_panel(cols, rows, show_sys_info).0 + game_panel(cols, rows, show_sys_info).2 == cols,
{
}

/// When the panels are stacked they share the full panel height: the game panel
/// starts on the row after the console and ends above the status rows.
pub proof fn lemma_stacked_layout_spans_height(cols: int, rows: int, show_sys_info: bool)
    requires
        fits_dashboard(cols, rows),
        !is_wide(cols, show_sys_info),
    ensures
        console_panel(cols, rows, show_sys_info).1 + console_panel(cols, rows, show_sys_info).3
            == game_panel(cols, rows, show_sys_info).1,
        game_panel(cols, rows, show_sys_info).1 + game_panel(cols, rows, show_sys_info).3 == rows - 2,
{
}

} // verus!
