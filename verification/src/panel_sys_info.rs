use vstd::prelude::*;
use crate::grid::{
    TerminalCell, Rgb, covers, put, put_text, put_hline, painted, lemma_covers_writable_all,
    draw_string_helper, set_cell_helper, draw_hline, writable, width_px, height_px,
};
use crate::console::{lowercase, to_lowercase};
use crate::text::str_chars;
use crate::format::{
    decimal, signed_decimal, hex_byte, push_decimal, push_signed_decimal, push_hex_byte,
};
use crate::panel_bhop::track_grey;
use crate::grid::{group_grid_len, lemma_put_len, lemma_put_other, lemma_put_text_cells, lemma_covers_writable, on_screen, cell_index};

verus! {

/// What the system panel shows.
pub struct SystemInfoView {
    pub username: String,
    pub hostname: String,
    pub os_name: String,
    pub kernel_version: String,
    pub shell_name: String,
    /// Display refresh rate, in hertz.
    pub refresh_rate: i32,
    /// Character cell width, in pixels.
    pub cell_w: i32,
    /// Character cell height, in pixels.
    pub cell_h: i32,
    pub uptime_secs: u64,
    pub cpu_id: String,
    pub gpus: String,
    /// The memory line, already formatted.
    pub memory_text: String,
    pub monitors: String,
    pub theme_mode: String,
    pub power_status: String,
    pub disk_summary: String,
    /// The autopilot skill line, already formatted.
    pub skill_text: String,
    /// The rendered logo, one text per row.
    pub logo_lines: Vec<String>,
}

/// Share of memory in use, in whole percent; zero when the total is unknown (zero).
pub fn memory_percent(used_mb: u64, total_mb: u64) -> (r: u64)
    requires
        used_mb * 100 <= u64::MAX,
    ensures
        r == if total_mb == 0 { 0 } else { (used_mb * 100) / total_mb as int },
{
    let scaled = used_mb * 100;
    if total_mb == 0 { 0 } else { scaled / total_mb }
}

/// Text colour of the system panel's values.
pub open spec fn value_white() -> Rgb {
    (235u8, 240u8, 250u8)
}

/// `user@host` with the host name in lower case.
pub open spec fn user_title(username: Seq<char>, hostname: Seq<char>) -> Seq<char> {
    username + seq!['@'] + lowercase(hostname)
}

/// `<h>h <m>m <s>s` for an uptime in seconds.
pub open spec fn uptime_text(secs: nat) -> Seq<char> {
    decimal(secs / 3600) + "h "@ + decimal((secs % 3600) / 60) + "m "@ + decimal(secs % 60) + "s"@
}

/// `<width>x<height> @ <rate>Hz (Main Monitor)`.
pub open spec fn display_text(width: int, height: int, rate: int) -> Seq<char> {
    signed_decimal(width) + "x"@ + signed_decimal(height) + " @ "@ + signed_decimal(rate) + "Hz (Main Monitor)"@
}

/// `<mode> Mode (#RRGGBB)` for the theme mode and accent colour.
pub open spec fn theme_text(mode: Seq<char>, accent: Rgb) -> Seq<char> {
    mode + " Mode (#"@ + hex_byte(accent.0) + hex_byte(accent.1) + hex_byte(accent.2) + ")"@
}

/// The grid after the first `n` characters of a logo row `line` at row `gy` from
/// column 4, spaces left transparent.
pub open spec fn put_logo_row(
    g: Seq<TerminalCell>,
    cols: int,
    rows: int,
    line: Seq<char>,
    gy: int,
    n: int,
    blue: Rgb,
) -> Seq<TerminalCell>
    decreases n,
{
    if n <= 0 {
        g
    } else {
        let before = put_logo_row(g, cols, rows, line, gy, n - 1, blue);
        if line[n - 1] != ' ' {
            put(before, cols, rows, 4 + n - 1, gy, painted(line[n - 1], blue, true))
        } else {
            before
        }
    }
}

/// The grid after the first `k` logo rows, from row 2 down.
pub open spec fn put_logo(
    g: Seq<TerminalCell>,
    cols: int,
    rows: int,
    lines: Seq<Seq<char>>,
    k: int,
    blue: Rgb,
) -> Seq<TerminalCell>
    decreases k,
{
    if k <= 0 {
        g
    } else {
        let before = put_logo(g, cols, rows, lines, k - 1, blue);
        put_logo_row(before, cols, rows, lines[k - 1], 2 + k - 1, lines[k - 1].len() as int, blue)
    }
}

/// Colour of swatch `i` of the palette strip.
pub open spec fn swatch_color(i: int) -> Rgb {
    if i == 0 {
        (255u8, 0u8, 127u8)
    } else if i == 1 {
        (0u8, 255u8, 255u8)
    } else if i == 2 {
        (0u8, 180u8, 255u8)
    } else if i == 3 {
        (255u8, 255u8, 0u8)
    } else if i == 4 {
        (240u8, 240u8, 255u8)
    } else {
        (60u8, 60u8, 75u8)
    }
}

/// The grid after the first `n` columns of swatch `i`: two rows of blocks from row
/// `by`, at columns `4 + 8 i` onward.
pub open spec fn put_swatch(
    g: Seq<TerminalCell>,
    cols: int,
    rows: int,
    i: int,
    by: int,
    n: int,
) -> Seq<TerminalCell>
    decreases n,
{
    if n <= 0 {
        g
    } else {
        let before = put_swatch(g, cols, rows, i, by, n - 1);
        let x = 4 + i * 8 + n - 1;
        let c = painted('█', swatch_color(i), false);
        put(put(before, cols, rows, x, by, c), cols, rows, x, by + 1, c)
    }
}

/// The grid after the first `k` swatches, six blocks wide each.
pub open spec fn put_swatches(g: Seq<TerminalCell>, cols: int, rows: int, by: int, k: int) -> Seq<TerminalCell>
    decreases k,
{
    if k <= 0 {
        g
    } else {
        put_swatch(put_swatches(g, cols, rows, by, k - 1), cols, rows, k - 1, by, 6)
    }
}

/// Row of the palette strip: five rows above the bottom.
pub open spec fn swatch_row(rows: int) -> int {
    if rows >= 5 { rows - 5 } else { 0 }
}

/// The system panel's contents: the logo, a divider, the labelled facts from row 11
/// down (every other row), and the palette strip when the screen has room for it
/// below the facts.
pub open spec fn put_system_panel(
    g: Seq<TerminalCell>,
    cols: int,
    rows: int,
    info: SystemInfoView,
    blue: Rgb,
) -> Seq<TerminalCell> {
    let teal: Rgb = (0u8, 240u8, 200u8);
    let white = value_white();
    let logo = info.logo_lines@.map_values(|l: String| l@);
    let g0 = put_logo(g, cols, rows, logo, logo.len() as int, blue);
    let g1 = put_hline(g0, cols, rows, 2, 9, 71, painted('─', track_grey(), false));
    let g2 = put_text(g1, cols, rows, 4, 11, user_title(info.username@, info.hostname@), blue, true);
    let g3 = put_text(g2, cols, rows, 4, 12, "--------------------------------------------"@, teal, false);
    let g4 = put_text(g3, cols, rows, 4, 14, "BUILD: "@, teal, true);
    let g5 = put_text(g4, cols, rows, 14, 14, info.os_name@, white, false);
    let g6 = put_text(g5, cols, rows, 4, 16, "Kernel: "@, teal, true);
    let g7 = put_text(g6, cols, rows, 14, 16, info.kernel_version@, white, false);
    let g8 = put_text(g7, cols, rows, 4, 18, "Uptime: "@, teal, true);
    let g9 = put_text(g8, cols, rows, 14, 18, uptime_text(info.uptime_secs as nat), white, false);
    let g10 = put_text(g9, cols, rows, 4, 20, "Shell: "@, teal, true);
    let g11 = put_text(g10, cols, rows, 14, 20, info.shell_name@, white, false);
    let display = display_text(
        (cols as i32) * info.cell_w,
        (rows as i32) * info.cell_h,
        info.refresh_rate as int,
    );
    let g12 = put_text(g11, cols, rows, 4, 22, "Display: "@, teal, true);
    let g13 = put_text(g12, cols, rows, 14, 22, display, white, false);
    let g14 = put_text(g13, cols, rows, 4, 24, "CPU: "@, teal, true);
    let g15 = put_text(g14, cols, rows, 14, 24, info.cpu_id@, white, false);
    let g16 = put_text(g15, cols, rows, 4, 26, "GPU: "@, teal, true);
    let g17 = put_text(g16, cols, rows, 14, 26, info.gpus@, white, false);
    let g18 = put_text(g17, cols, rows, 4, 28, "Memory: "@, teal, true);
    let g19 = put_text(g18, cols, rows, 14, 28, info.memory_text@, white, false);
    let g20 = put_text(g19, cols, rows, 4, 30, "Monitors: "@, teal, true);
    let g21 = put_text(g20, cols, rows, 14, 30, info.monitors@, white, false);
    let g22 = put_text(g21, cols, rows, 4, 32, "Theme: "@, teal, true);
    let g23 = put_text(g22, cols, rows, 14, 32, theme_text(info.theme_mode@, blue), white, false);
    let g24 = put_text(g23, cols, rows, 4, 34, "Power: "@, teal, true);
    let g25 = put_text(g24, cols, rows, 14, 34, info.power_status@, white, false);
    let g26 = put_text(g25, cols, rows, 4, 36, "Disk: "@, teal, true);
    let g27 = put_text(g26, cols, rows, 14, 36, info.disk_summary@, white, false);
    let g28 = put_text(g27, cols, rows, 4, 38, "AI Skill: "@, teal, true);
    let g29 = put_text(g28, cols, rows, 14, 38, info.skill_text@, white, false);
    let by = swatch_row(rows);
    if by >= 30 { put_swatches(g29, cols, rows, by, 6) } else { g29 }
}

/// Logo characters past the right edge of the screen change nothing.
proof fn lemma_logo_row_clipped(
    g: Seq<TerminalCell>,
    cols: int,
    rows: int,
    line: Seq<char>,
    gy: int,
    n: int,
    k: int,
    blue: Rgb,
)
    requires
        0 <= k <= n,
        4 + k >= cols,
    ensures
        put_logo_row(g, cols, rows, line, gy, n, blue) == put_logo_row(g, cols, rows, line, gy, k, blue),
    decreases n,
{
    if n > k {
        lemma_logo_row_clipped(g, cols, rows, line, gy, n - 1, k, blue);
    }
}

/// A logo row below the bottom of the screen changes nothing.
proof fn lemma_logo_row_below(g: Seq<TerminalCell>, cols: int, rows: int, line: Seq<char>, gy: int, n: int, blue: Rgb)
    requires
        gy >= rows,
    ensures
        put_logo_row(g, cols, rows, line, gy, n, blue) == g,
    decreases n,
{
    if n > 0 {
        lemma_logo_row_below(g, cols, rows, line, gy, n - 1, blue);
    }
}

/// Logo rows below the bottom of the screen change nothing.
proof fn lemma_logo_clipped(g: Seq<TerminalCell>, cols: int, rows: int, lines: Seq<Seq<char>>, k: int, m: int, blue: Rgb)
    requires
        0 <= m <= k,
        2 + m >= rows,
    ensures
        put_logo(g, cols, rows, lines, k, blue) == put_logo(g, cols, rows, lines, m, blue),
    decreases k,
{
    if k > m {
        lemma_logo_clipped(g, cols, rows, lines, k - 1, m, blue);
        lemma_logo_row_below(
            put_logo(g, cols, rows, lines, k - 1, blue), cols, rows, lines[k - 1], 2 + k - 1,
            lines[k - 1].len() as int, blue,
        );
    }
}

/// Draws logo row `line` at row `gy`.
fn draw_logo_row(
    grid: &mut [TerminalCell],
    cols: usize,
    rows: usize,
    line: &str,
    gy: usize,
    blue: (u8, u8, u8),
)
    requires
        covers(old(grid)@.len() as int, cols as int, rows as int),
    ensures
        final(grid)@.len() == old(grid)@.len(),
        final(grid)@ == put_logo_row(old(grid)@, cols as int, rows as int, line@, gy as int, line@.len() as int, blue),
{
    let ghost len = grid@.len() as int;
    proof {
        lemma_covers_writable_all(len, cols as int, rows as int);
    }
    let chars = str_chars(line);
    let n = chars.len();
    let room: usize = if cols > 4 { cols - 4 } else { 0 };
    let m: usize = if n <= room { n } else { room };
    let mut c: usize = 0;
    while c < m
        invariant
            grid@.len() == len,
            forall|a: int, b: int| #[trigger] writable(len, cols as int, rows as int, a, b),
            chars@ == line@,
            n == chars@.len(),
            m <= n,
            m <= room,
            room == (if cols > 4 { cols - 4 } else { 0 }),
            c <= m,
            grid@ == put_logo_row(old(grid)@, cols as int, rows as int, line@, gy as int, c as int, blue),
        decreases m - c,
    {
        let ch = chars[c];
        if ch != ' ' {
            set_cell_helper(grid, cols, rows, 4 + c, gy, ch, blue, true);
        }
        c += 1;
    }
    proof {
        if m < n {
            lemma_logo_row_clipped(old(grid)@, cols as int, rows as int, line@, gy as int, n as int, m as int, blue);
        }
    }
}

/// Draws the logo rows from row 2 down.
fn draw_logo(
    grid: &mut [TerminalCell],
    cols: usize,
    rows: usize,
    lines: &Vec<String>,
    blue: (u8, u8, u8),
)
    requires
        covers(old(grid)@.len() as int, cols as int, rows as int),
    ensures
        final(grid)@.len() == old(grid)@.len(),
        final(grid)@ == put_logo(
            old(grid)@, cols as int, rows as int, lines@.map_values(|l: String| l@), lines@.len() as int, blue,
        ),
{
    let ghost views = lines@.map_values(|l: String| l@);
    let n = lines.len();
    let room: usize = if rows > 2 { rows - 2 } else { 0 };
    let m: usize = if n <= room { n } else { room };
    let mut r: usize = 0;
    while r < m
        invariant
            covers(grid@.len() as int, cols as int, rows as int),
            grid@.len() == old(grid)@.len(),
            views == lines@.map_values(|l: String| l@),
            n == lines@.len(),
            m <= n,
            m <= room,
            room == (if rows > 2 { rows - 2 } else { 0 }),
            r <= m,
            grid@ == put_logo(old(grid)@, cols as int, rows as int, views, r as int, blue),
        decreases m - r,
    {
        let line = &lines[r];
        assert(views[r as int] == line@);
        draw_logo_row(grid, cols, rows, line.as_str(), 2 + r, blue);
        r += 1;
    }
    proof {
        if m < n {
            lemma_logo_clipped(old(grid)@, cols as int, rows as int, views, n as int, m as int, blue);
        }
    }
}

/// Draws the palette strip: six swatches of two rows of six blocks from row `by`.
fn draw_swatches(grid: &mut [TerminalCell], cols: usize, rows: usize, by: usize)
    requires
        covers(old(grid)@.len() as int, cols as int, rows as int),
        by < usize::MAX,
    ensures
        final(grid)@.len() == old(grid)@.len(),
        final(grid)@ == put_swatches(old(grid)@, cols as int, rows as int, by as int, 6),
{
    let ghost len = grid@.len() as int;
    proof {
        lemma_covers_writable_all(len, cols as int, rows as int);
    }
    let mut i: usize = 0;
    while i < 6
        invariant
            grid@.len() == len,
            forall|a: int, b: int| #[trigger] writable(len, cols as int, rows as int, a, b),
            by < usize::MAX,
            i <= 6,
            grid@ == put_swatches(old(grid)@, cols as int, rows as int, by as int, i as int),
        decreases 6 - i,
    {
        let color: (u8, u8, u8) = match i {
            0 => (255, 0, 127),
            1 => (0, 255, 255),
            2 => (0, 180, 255),
            3 => (255, 255, 0),
            4 => (240, 240, 255),
            _ => (60, 60, 75),
        };
        assert(color == swatch_color(i as int));
        let ghost start = grid@;
        let mut j: usize = 0;
        while j < 6
            invariant
                grid@.len() == len,
                forall|a: int, b: int| #[trigger] writable(len, cols as int, rows as int, a, b),
                by < usize::MAX,
                i < 6,
                j <= 6,
                color == swatch_color(i as int),
                grid@ == put_swatch(start, cols as int, rows as int, i as int, by as int, j as int),
            decreases 6 - j,
        {
            set_cell_helper(grid, cols, rows, 4 + i * 8 + j, by, '█', color, false);
            set_cell_helper(grid, cols, rows, 4 + i * 8 + j, by + 1, '█', color, false);
            j += 1;
        }
        i += 1;
    }
}

/// Draws a label in teal bold at column 4 and its value in white at column 14 on row `y`.
fn draw_fact(
    grid: &mut [TerminalCell],
    cols: usize,
    rows: usize,
    y: usize,
    label: &str,
    value: &str,
)
    requires
        covers(old(grid)@.len() as int, cols as int, rows as int),
    ensures
        final(grid)@.len() == old(grid)@.len(),
        final(grid)@ == put_text(
            put_text(old(grid)@, cols as int, rows as int, 4, y as int, label@, (0u8, 240u8, 200u8), true),
            cols as int, rows as int, 14, y as int, value@, value_white(), false,
        ),
{
    let ghost len = grid@.len() as int;
    proof {
        lemma_covers_writable_all(len, cols as int, rows as int);
    }
    draw_string_helper(grid, cols, rows, 4, y, label, (0, 240, 200), true);
    draw_string_helper(grid, cols, rows, 14, y, value, (235, 240, 250), false);
}

/// Draws the system panel's contents: logo, divider, facts and palette strip.
/// The grid must hold every cell of the `cols` by `rows` screen, as the screen
/// buffer it is drawn into always does; a shorter grid is not accepted even where
/// no on-screen write would reach past its end.
pub fn draw_system_info_panel(
    info: &SystemInfoView,
    grid: &mut [TerminalCell],
    cols: usize,
    rows: usize,
    blue: (u8, u8, u8),
)
    requires
        covers(old(grid)@.len() as int, cols as int, rows as int),
        i32::MIN <= (cols as i32) * info.cell_w <= i32::MAX,
        i32::MIN <= (rows as i32) * info.cell_h <= i32::MAX,
    ensures
        final(grid)@.len() == old(grid)@.len(),
        final(grid)@ == put_system_panel(old(grid)@, cols as int, rows as int, *info, blue),
{
    let ghost len = grid@.len() as int;
    proof {
        lemma_covers_writable_all(len, cols as int, rows as int);
        reveal_strlit("--------------------------------------------");
        reveal_strlit("BUILD: ");
        reveal_strlit("Kernel: ");
        reveal_strlit("Uptime: ");
        reveal_strlit("Shell: ");
        reveal_strlit("Display: ");
        reveal_strlit("CPU: ");
        reveal_strlit("GPU: ");
        reveal_strlit("Memory: ");
        reveal_strlit("Monitors: ");
        reveal_strlit("Theme: ");
        reveal_strlit("Power: ");
        reveal_strlit("Disk: ");
        reveal_strlit("AI Skill: ");
    }
    let teal = (0u8, 240u8, 200u8);
    draw_logo(grid, cols, rows, &info.logo_lines, blue);
    draw_hline(grid, cols, rows, 2, 9, 71, '─', (60, 60, 75), false);

    let host = to_lowercase(info.hostname.as_str());
    let mut title = String::from_str(info.username.as_str());
    title.append("@");
    title.append(host.as_str());
    proof {
        reveal_strlit("@");
        assert(title@ =~= user_title(info.username@, info.hostname@));
    }
    draw_string_helper(grid, cols, rows, 4, 11, title.as_str(), blue, true);
    draw_string_helper(grid, cols, rows, 4, 12, "--------------------------------------------", teal, false);

    draw_fact(grid, cols, rows, 14, "BUILD: ", info.os_name.as_str());
    draw_fact(grid, cols, rows, 16, "Kernel: ", info.kernel_version.as_str());

    let secs = info.uptime_secs;
    let mut uptime = String::new();
    push_decimal(&mut uptime, secs / 3600);
    uptime.append("h ");
    push_decimal(&mut uptime, (secs % 3600) / 60);
    uptime.append("m ");
    push_decimal(&mut uptime, secs % 60);
    uptime.append("s");
    proof {
        assert(uptime@ =~= uptime_text(secs as nat));
        reveal_strlit("h ");
        reveal_strlit("m ");
        reveal_strlit("s");
    }
    draw_fact(grid, cols, rows, 18, "Uptime: ", uptime.as_str());
    draw_fact(grid, cols, rows, 20, "Shell: ", info.shell_name.as_str());

    let mut display = String::new();
    push_signed_decimal(&mut display, width_px(cols, info.cell_w) as i64);
    display.append("x");
    push_signed_decimal(&mut display, height_px(rows, info.cell_h) as i64);
    display.append(" @ ");
    push_signed_decimal(&mut display, info.refresh_rate as i64);
    display.append("Hz (Main Monitor)");
    proof {
        assert(display@ =~= display_text(
            (cols as i32) * info.cell_w,
            (rows as i32) * info.cell_h,
            info.refresh_rate as int,
        ));
    }
    draw_fact(grid, cols, rows, 22, "Display: ", display.as_str());
    draw_fact(grid, cols, rows, 24, "CPU: ", info.cpu_id.as_str());
    draw_fact(grid, cols, rows, 26, "GPU: ", info.gpus.as_str());
    draw_fact(grid, cols, rows, 28, "Memory: ", info.memory_text.as_str());
    draw_fact(grid, cols, rows, 30, "Monitors: ", info.monitors.as_str());

    let mut theme = String::from_str(info.theme_mode.as_str());
    theme.append(" Mode (#");
    push_hex_byte(&mut theme, blue.0);
    push_hex_byte(&mut theme, blue.1);
    push_hex_byte(&mut theme, blue.2);
    theme.append(")");
    proof {
        assert(theme@ =~= theme_text(info.theme_mode@, blue));
        reveal_strlit(" Mode (#");
        reveal_strlit(")");
    }
    draw_fact(grid, cols, rows, 32, "Theme: ", theme.as_str());
    draw_fact(grid, cols, rows, 34, "Power: ", info.power_status.as_str());
    draw_fact(grid, cols, rows, 36, "Disk: ", info.disk_summary.as_str());
    draw_fact(grid, cols, rows, 38, "AI Skill: ", info.skill_text.as_str());

    let blocks_y = rows.saturating_sub(5);
    if blocks_y >= 30 {
        draw_swatches(grid, cols, rows, blocks_y);
    }
}

/// A swatch leaves every cell off its two rows as it was.
proof fn lemma_swatch_other(g: Seq<TerminalCell>, cols: int, rows: int, i: int, by: int, n: int, cx: int, cy: int)
    requires
        covers(g.len() as int, cols, rows),
        on_screen(cols, rows, cx, cy),
        cy != by,
        cy != by + 1,
    ensures
        put_swatch(g, cols, rows, i, by, n)[cell_index(cols, cx, cy)] == g[cell_index(cols, cx, cy)],
        put_swatch(g, cols, rows, i, by, n).len() == g.len(),
    decreases n,
{
    if n > 0 {
        let before = put_swatch(g, cols, rows, i, by, n - 1);
        let x = 4 + i * 8 + n - 1;
        let c = painted('█', swatch_color(i), false);
        lemma_swatch_other(g, cols, rows, i, by, n - 1, cx, cy);
        lemma_put_other(before, cols, rows, x, by, c, cx, cy);
        lemma_put_other(put(before, cols, rows, x, by, c), cols, rows, x, by + 1, c, cx, cy);
    }
}

/// The palette strip leaves every cell off its two rows as it was.
proof fn lemma_swatches_other(g: Seq<TerminalCell>, cols: int, rows: int, by: int, k: int, cx: int, cy: int)
    requires
        covers(g.len() as int, cols, rows),
        on_screen(cols, rows, cx, cy),
        cy != by,
        cy != by + 1,
    ensures
        put_swatches(g, cols, rows, by, k)[cell_index(cols, cx, cy)] == g[cell_index(cols, cx, cy)],
        put_swatches(g, cols, rows, by, k).len() == g.len(),
    decreases k,
{
    if k > 0 {
        lemma_swatches_other(g, cols, rows, by, k - 1, cx, cy);
        lemma_swatch_other(put_swatches(g, cols, rows, by, k - 1), cols, rows, k - 1, by, 6, cx, cy);
    }
}

/// Cell `cell` at column `cx` of a fact row shows the fact: over the label's columns
/// from 4 the label's character in teal bold, over the value's columns from 14 the
/// value's character in white.
pub open spec fn fact_shown(cell: TerminalCell, cx: int, label: Seq<char>, value: Seq<char>) -> bool {
    &&& 4 <= cx < 4 + label.len() ==> cell == painted(label[cx - 4], (0u8, 240u8, 200u8), true)
    &&& 14 <= cx < 14 + value.len() ==> cell == painted(value[cx - 14], value_white(), false)
}

/// Row 11 of the system panel shows `user@host` in bold accent colour from column 4,
/// and each fact row shows the field its label names: build and
/// the OS name on row 14, kernel and its version on row 16, then uptime, shell,
/// display, CPU, GPU and memory every other row down to row 28, and monitors, theme,
/// power, disk and skill on rows 30 to 38 wherever the palette strip does not lie
/// over them.
pub proof fn lemma_facts_shown(
    g: Seq<TerminalCell>,
    cols: int,
    rows: int,
    info: SystemInfoView,
    blue: Rgb,
    cx: int,
    cy: int,
)
    requires
        covers(g.len() as int, cols, rows),
        on_screen(cols, rows, cx, cy),
    ensures
        ({
            let cell = put_system_panel(g, cols, rows, info, blue)[cell_index(cols, cx, cy)];
            let by = swatch_row(rows);
            let clear = by < 30 || (cy != by && cy != by + 1);
            let display = display_text(
                (cols as i32) * info.cell_w,
                (rows as i32) * info.cell_h,
                info.refresh_rate as int,
            );
            &&& (cy == 11 && 4 <= cx < 4 + user_title(info.username@, info.hostname@).len()) ==> cell == painted(
                user_title(info.username@, info.hostname@)[cx - 4],
                blue,
                true,
            )
            &&& cy == 14 ==> fact_shown(cell, cx, "BUILD: "@, info.os_name@)
            &&& cy == 16 ==> fact_shown(cell, cx, "Kernel: "@, info.kernel_version@)
            &&& cy == 18 ==> fact_shown(cell, cx, "Uptime: "@, uptime_text(info.uptime_secs as nat))
            &&& cy == 20 ==> fact_shown(cell, cx, "Shell: "@, info.shell_name@)
            &&& cy == 22 ==> fact_shown(cell, cx, "Display: "@, display)
            &&& cy == 24 ==> fact_shown(cell, cx, "CPU: "@, info.cpu_id@)
            &&& cy == 26 ==> fact_shown(cell, cx, "GPU: "@, info.gpus@)
            &&& cy == 28 ==> fact_shown(cell, cx, "Memory: "@, info.memory_text@)
            &&& (cy == 30 && clear) ==> fact_shown(cell, cx, "Monitors: "@, info.monitors@)
            &&& (cy == 32 && clear) ==> fact_shown(cell, cx, "Theme: "@, theme_text(info.theme_mode@, blue))
            &&& (cy == 34 && clear) ==> fact_shown(cell, cx, "Power: "@, info.power_status@)
            &&& (cy == 36 && clear) ==> fact_shown(cell, cx, "Disk: "@, info.disk_summary@)
            &&& (cy == 38 && clear) ==> fact_shown(cell, cx, "AI Skill: "@, info.skill_text@)
        }),
{
    broadcast use group_grid_len, lemma_put_logo_len;

    reveal_strlit("BUILD: ");
    reveal_strlit("Kernel: ");
    reveal_strlit("Uptime: ");
    reveal_strlit("Shell: ");
    reveal_strlit("Display: ");
    reveal_strlit("CPU: ");
    reveal_strlit("GPU: ");
    reveal_strlit("Memory: ");
    reveal_strlit("Monitors: ");
    reveal_strlit("Theme: ");
    reveal_strlit("Power: ");
    reveal_strlit("Disk: ");
    reveal_strlit("AI Skill: ");
    let teal: Rgb = (0u8, 240u8, 200u8);
    let white = value_white();
    let logo = info.logo_lines@.map_values(|l: String| l@);
    let g0 = put_logo(g, cols, rows, logo, logo.len() as int, blue);
    let g1 = put_hline(g0, cols, rows, 2, 9, 71, painted('─', track_grey(), false));
    let g2 = put_text(g1, cols, rows, 4, 11, user_title(info.username@, info.hostname@), blue, true);
    let g3 = put_text(g2, cols, rows, 4, 12, "--------------------------------------------"@, teal, false);
    lemma_put_text_cells(g1, cols, rows, 4, 11, user_title(info.username@, info.hostname@), blue, true, cx, cy);
    lemma_put_text_cells(g2, cols, rows, 4, 12, "--------------------------------------------"@, teal, false, cx, cy);
    assert(g3.len() == g.len());
    let display = display_text((cols as i32) * info.cell_w, (rows as i32) * info.cell_h, info.refresh_rate as int);
    lemma_covers_writable(g.len() as int, cols, rows, cx, cy);
    let g4 = put_text(g3, cols, rows, 4, 14, "BUILD: "@, teal, true);
    lemma_put_text_cells(g3, cols, rows, 4, 14, "BUILD: "@, teal, true, cx, cy);
    let g5 = put_text(g4, cols, rows, 14, 14, info.os_name@, white, false);
    lemma_put_text_cells(g4, cols, rows, 14, 14, info.os_name@, white, false, cx, cy);
    let g6 = put_text(g5, cols, rows, 4, 16, "Kernel: "@, teal, true);
    lemma_put_text_cells(g5, cols, rows, 4, 16, "Kernel: "@, teal, true, cx, cy);
    let g7 = put_text(g6, cols, rows, 14, 16, info.kernel_version@, white, false);
    lemma_put_text_cells(g6, cols, rows, 14, 16, info.kernel_version@, white, false, cx, cy);
    let g8 = put_text(g7, cols, rows, 4, 18, "Uptime: "@, teal, true);
    lemma_put_text_cells(g7, cols, rows, 4, 18, "Uptime: "@, teal, true, cx, cy);
    let g9 = put_text(g8, cols, rows, 14, 18, uptime_text(info.uptime_secs as nat), white, false);
    lemma_put_text_cells(g8, cols, rows, 14, 18, uptime_text(info.uptime_secs as nat), white, false, cx, cy);
    let g10 = put_text(g9, cols, rows, 4, 20, "Shell: "@, teal, true);
    lemma_put_text_cells(g9, cols, rows, 4, 20, "Shell: "@, teal, true, cx, cy);
    let g11 = put_text(g10, cols, rows, 14, 20, info.shell_name@, white, false);
    lemma_put_text_cells(g10, cols, rows, 14, 20, info.shell_name@, white, false, cx, cy);
    let g12 = put_text(g11, cols, rows, 4, 22, "Display: "@, teal, true);
    lemma_put_text_cells(g11, cols, rows, 4, 22, "Display: "@, teal, true, cx, cy);
    let g13 = put_text(g12, cols, rows, 14, 22, display, white, false);
    lemma_put_text_cells(g12, cols, rows, 14, 22, display, white, false, cx, cy);
    let g14 = put_text(g13, cols, rows, 4, 24, "CPU: "@, teal, true);
    lemma_put_text_cells(g13, cols, rows, 4, 24, "CPU: "@, teal, true, cx, cy);
    let g15 = put_text(g14, cols, rows, 14, 24, info.cpu_id@, white, false);
    lemma_put_text_cells(g14, cols, rows, 14, 24, info.cpu_id@, white, false, cx, cy);
    let g16 = put_text(g15, cols, rows, 4, 26, "GPU: "@, teal, true);
    lemma_put_text_cells(g15, cols, rows, 4, 26, "GPU: "@, teal, true, cx, cy);
    let g17 = put_text(g16, cols, rows, 14, 26, info.gpus@, white, false);
    lemma_put_text_cells(g16, cols, rows, 14, 26, info.gpus@, white, false, cx, cy);
    let g18 = put_text(g17, cols, rows, 4, 28, "Memory: "@, teal, true);
    lemma_put_text_cells(g17, cols, rows, 4, 28, "Memory: "@, teal, true, cx, cy);
    let g19 = put_text(g18, cols, rows, 14, 28, info.memory_text@, white, false);
    lemma_put_text_cells(g18, cols, rows, 14, 28, info.memory_text@, white, false, cx, cy);
    let g20 = put_text(g19, cols, rows, 4, 30, "Monitors: "@, teal, true);
    lemma_put_text_cells(g19, cols, rows, 4, 30, "Monitors: "@, teal, true, cx, cy);
    let g21 = put_text(g20, cols, rows, 14, 30, info.monitors@, white, false);
    lemma_put_text_cells(g20, cols, rows, 14, 30, info.monitors@, white, false, cx, cy);
    let g22 = put_text(g21, cols, rows, 4, 32, "Theme: "@, teal, true);
    lemma_put_text_cells(g21, cols, rows, 4, 32, "Theme: "@, teal, true, cx, cy);
    let g23 = put_text(g22, cols, rows, 14, 32, theme_text(info.theme_mode@, blue), white, false);
    lemma_put_text_cells(g22, cols, rows, 14, 32, theme_text(info.theme_mode@, blue), white, false, cx, cy);
    let g24 = put_text(g23, cols, rows, 4, 34, "Power: "@, teal, true);
    lemma_put_text_cells(g23, cols, rows, 4, 34, "Power: "@, teal, true, cx, cy);
    let g25 = put_text(g24, cols, rows, 14, 34, info.power_status@, white, false);
    lemma_put_text_cells(g24, cols, rows, 14, 34, info.power_status@, white, false, cx, cy);
    let g26 = put_text(g25, cols, rows, 4, 36, "Disk: "@, teal, true);
    lemma_put_text_cells(g25, cols, rows, 4, 36, "Disk: "@, teal, true, cx, cy);
    let g27 = put_text(g26, cols, rows, 14, 36, info.disk_summary@, white, false);
    lemma_put_text_cells(g26, cols, rows, 14, 36, info.disk_summary@, white, false, cx, cy);
    let g28 = put_text(g27, cols, rows, 4, 38, "AI Skill: "@, teal, true);
    lemma_put_text_cells(g27, cols, rows, 4, 38, "AI Skill: "@, teal, true, cx, cy);
    let g29 = put_text(g28, cols, rows, 14, 38, info.skill_text@, white, false);
    lemma_put_text_cells(g28, cols, rows, 14, 38, info.skill_text@, white, false, cx, cy);
    let by = swatch_row(rows);
    if by >= 30 && cy != by && cy != by + 1 {
        lemma_swatches_other(g29, cols, rows, by, 6, cx, cy);
    }
}

/// Drawing a logo row keeps the grid's length.
pub broadcast proof fn lemma_put_logo_row_len(
    g: Seq<TerminalCell>,
    cols: int,
    rows: int,
    line: Seq<char>,
    gy: int,
    n: int,
    blue: Rgb,
)
    requires
        covers(g.len() as int, cols, rows),
    ensures
        #[trigger] put_logo_row(g, cols, rows, line, gy, n, blue).len() == g.len(),
    decreases n,
{
    if n > 0 {
        lemma_put_logo_row_len(g, cols, rows, line, gy, n - 1, blue);
        lemma_put_len(put_logo_row(g, cols, rows, line, gy, n - 1, blue), cols, rows, 4 + n - 1, gy, painted(line[n - 1], blue, true));
    }
}

/// Drawing the logo keeps the grid's length.
pub broadcast proof fn lemma_put_logo_len(
    g: Seq<TerminalCell>,
    cols: int,
    rows: int,
    lines: Seq<Seq<char>>,
    k: int,
    blue: Rgb,
)
    requires
        covers(g.len() as int, cols, rows),
    ensures
        #[trigger] put_logo(g, cols, rows, lines, k, blue).len() == g.len(),
    decreases k,
{
    if k > 0 {
        let before = put_logo(g, cols, rows, lines, k - 1, blue);
        lemma_put_logo_len(g, cols, rows, lines, k - 1, blue);
        lemma_put_logo_row_len(before, cols, rows, lines[k - 1], 2 + k - 1, lines[k - 1].len() as int, blue);
    }
}

/// Drawing a swatch keeps the grid's length.
pub broadcast proof fn lemma_put_swatch_len(g: Seq<TerminalCell>, cols: int, rows: int, i: int, by: int, n: int)
    requires
        covers(g.len() as int, cols, rows),
    ensures
        #[trigger] put_swatch(g, cols, rows, i, by, n).len() == g.len(),
    decreases n,
{
    if n > 0 {
        lemma_put_swatch_len(g, cols, rows, i, by, n - 1);
        broadcast use group_grid_len;
    }
}

/// Drawing the palette strip keeps the grid's length.
pub broadcast proof fn lemma_put_swatches_len(g: Seq<TerminalCell>, cols: int, rows: int, by: int, k: int)
    requires
        covers(g.len() as int, cols, rows),
    ensures
        #[trigger] put_swatches(g, cols, rows, by, k).len() == g.len(),
    decreases k,
{
    if k > 0 {
        lemma_put_swatches_len(g, cols, rows, by, k - 1);
        lemma_put_swatch_len(put_swatches(g, cols, rows, by, k - 1), cols, rows, k - 1, by, 6);
    }
}

/// Drawing the system panel keeps the grid's length.
pub proof fn lemma_put_system_panel_len(g: Seq<TerminalCell>, cols: int, rows: int, info: SystemInfoView, blue: Rgb)
    requires
        covers(g.len() as int, cols, rows),
    ensures
        put_system_panel(g, cols, rows, info, blue).len() == g.len(),
{
    broadcast use group_grid_len, lemma_put_logo_len, lemma_put_swatches_len;
}

} // verus!
