use vstd::prelude::*;
use crate::grid::{
    TerminalCell, Rgb, covers, put, put_text, painted, lemma_covers_writable_all, draw_string_helper,
    set_cell_helper, changed_only_within, lemma_put_within, lemma_put_text_within,
    lemma_changed_only_within_trans, lemma_covers_writable, lemma_put_text_cells, lemma_put_text_len,
    lemma_put_other, on_screen, cell_index, group_grid_len,
};
use crate::text::{has_prefix, str_chars, chars_start_with};
use crate::console::{
    CommandState, ConsoleState, ConsoleView, command_text, command_line, prompt_prefix,
};

verus! {


/// Colour of ordinary console output.
pub open spec fn console_white() -> Rgb {
    (235u8, 240u8, 250u8)
}

/// How many console lines fit in a console panel `h` rows high (at least one).
pub open spec fn console_visible_rows(h: int) -> int {
    if h - 2 >= 1 { h - 2 } else { 1 }
}

/// The console lines shown: the newest ones that fit.
pub open spec fn console_shown_lines(lines: Seq<Seq<char>>, h: int) -> Seq<Seq<char>> {
    let visible = console_visible_rows(h);
    if lines.len() >= visible { lines.subrange(lines.len() - visible, lines.len() as int) } else { lines }
}

/// How many of the shown lines are drawn: those above the bottom edge of the frame.
pub open spec fn console_rows_drawn(shown: int, h: int) -> int {
    if h - 2 <= 0 { 0 } else if shown <= h - 2 { shown } else { h - 2 }
}

/// The first `n` characters of `s`, or all of it when it is shorter.
pub open spec fn clip(s: Seq<char>, n: int) -> Seq<char> {
    if s.len() <= n { s } else { s.take(n) }
}

/// Columns of text a console panel `w` wide shows per line.
pub open spec fn console_text_width(w: int) -> int {
    if w >= 4 { w - 4 } else { 0 }
}

/// Row `r` of the console panel at `(x, y)`, `w` wide: the line, clipped to the
/// panel; the newest line while typing gets the typed part of the command appended
/// and is drawn in teal, others are drawn in the accent colour (bold) if they begin
/// with the user's prompt prefix and in white otherwise; a block cursor follows the
/// newest line while typing or cooling down if the cursor is in its visible phase
/// and there is room before the right edge.
pub open spec fn put_console_row(
    g: Seq<TerminalCell>,
    cols: int,
    rows: int,
    console: ConsoleView,
    username: Seq<char>,
    cursor_visible: bool,
    x: int,
    y: int,
    w: int,
    h: int,
    blue: Rgb,
    teal: Rgb,
    r: int,
) -> Seq<TerminalCell> {
    let shown = console_shown_lines(console.lines, h);
    let gy = y + 1 + r;
    let sx = x + 2;
    let line = shown[r];
    let last = r == shown.len() - 1;
    let width = console_text_width(w);
    if last && console.state == CommandState::Typing {
        let typed_line = line + command_text(console.command).take(console.typed);
        let shown_text = clip(typed_line, width);
        let g1 = put_text(g, cols, rows, sx, gy, shown_text, teal, false);
        if cursor_visible && sx + shown_text.len() < x + w - 1 {
            put(g1, cols, rows, sx + shown_text.len(), gy, painted('█', teal, true))
        } else {
            g1
        }
    } else {
        let is_prompt = has_prefix(line, prompt_prefix(username));
        let color = if is_prompt { blue } else { console_white() };
        let shown_text = clip(line, width);
        let g1 = put_text(g, cols, rows, sx, gy, shown_text, color, is_prompt);
        if last && console.state == CommandState::CoolDown && cursor_visible && sx + shown_text.len() < x + w - 1 {
            put(g1, cols, rows, sx + shown_text.len(), gy, painted('█', blue, true))
        } else {
            g1
        }
    }
}

/// The grid after drawing the first `k` rows of the console panel.
pub open spec fn put_console_rows(
    g: Seq<TerminalCell>,
    cols: int,
    rows: int,
    console: ConsoleView,
    username: Seq<char>,
    cursor_visible: bool,
    x: int,
    y: int,
    w: int,
    h: int,
    blue: Rgb,
    teal: Rgb,
    k: int,
) -> Seq<TerminalCell>
    decreases k,
{
    if k <= 0 {
        g
    } else {
        put_console_row(
            put_console_rows(g, cols, rows, console, username, cursor_visible, x, y, w, h, blue, teal, k - 1),
            cols, rows, console, username, cursor_visible, x, y, w, h, blue, teal, k - 1,
        )
    }
}

/// The console panel's contents: every row that fits, from the oldest shown line down.
pub open spec fn put_console_panel(
    g: Seq<TerminalCell>,
    cols: int,
    rows: int,
    console: ConsoleView,
    username: Seq<char>,
    cursor_visible: bool,
    x: int,
    y: int,
    w: int,
    h: int,
    blue: Rgb,
    teal: Rgb,
) -> Seq<TerminalCell> {
    let n = console_rows_drawn(console_shown_lines(console.lines, h).len() as int, h);
    put_console_rows(g, cols, rows, console, username, cursor_visible, x, y, w, h, blue, teal, n)
}

/// Drawing the console panel keeps the grid's length.
pub proof fn lemma_put_console_panel_len(
    g: Seq<TerminalCell>,
    cols: int,
    rows: int,
    console: ConsoleView,
    username: Seq<char>,
    cursor_visible: bool,
    x: int,
    y: int,
    w: int,
    h: int,
    blue: Rgb,
    teal: Rgb,
)
    requires
        covers(g.len() as int, cols, rows),
        0 <= x,
        0 <= y,
    ensures
        put_console_panel(g, cols, rows, console, username, cursor_visible, x, y, w, h, blue, teal).len() == g.len(),
{
    lemma_console_panel_inside_frame(g, cols, rows, console, username, cursor_visible, x, y, w, h, blue, teal);
}

/// One console row stays inside the panel's text area.
proof fn lemma_console_row_inside_frame(
    g: Seq<TerminalCell>,
    cols: int,
    rows: int,
    console: ConsoleView,
    username: Seq<char>,
    cursor_visible: bool,
    x: int,
    y: int,
    w: int,
    h: int,
    blue: Rgb,
    teal: Rgb,
    r: int,
)
    requires
        covers(g.len() as int, cols, rows),
        0 <= x,
        0 <= y,
        0 <= r < console_rows_drawn(console_shown_lines(console.lines, h).len() as int, h),
    ensures
        changed_only_within(
            g,
            put_console_row(g, cols, rows, console, username, cursor_visible, x, y, w, h, blue, teal, r),
            cols, rows, x + 2, y + 1, x + w - 1, y + h - 1,
        ),
{
    let shown = console_shown_lines(console.lines, h);
    let gy = y + 1 + r;
    let sx = x + 2;
    let line = shown[r];
    let last = r == shown.len() - 1;
    let width = console_text_width(w);
    let (x0, y0, x1, y1) = (x + 2, y + 1, x + w - 1, y + h - 1);
    if last && console.state == CommandState::Typing {
        let shown_text = clip(line + command_text(console.command).take(console.typed), width);
        let g1 = put_text(g, cols, rows, sx, gy, shown_text, teal, false);
        lemma_put_text_within(g, cols, rows, sx, gy, shown_text, teal, false, x0, y0, x1, y1);
        if cursor_visible && sx + shown_text.len() < x + w - 1 {
            lemma_covers_writable(g1.len() as int, cols, rows, sx + shown_text.len(), gy);
            lemma_put_within(g1, cols, rows, sx + shown_text.len(), gy, painted('█', teal, true), x0, y0, x1, y1);
            lemma_changed_only_within_trans(
                g, g1, put(g1, cols, rows, sx + shown_text.len(), gy, painted('█', teal, true)),
                cols, rows, x0, y0, x1, y1,
            );
        }
    } else {
        let is_prompt = has_prefix(line, prompt_prefix(username));
        let color = if is_prompt { blue } else { console_white() };
        let shown_text = clip(line, width);
        let g1 = put_text(g, cols, rows, sx, gy, shown_text, color, is_prompt);
        lemma_put_text_within(g, cols, rows, sx, gy, shown_text, color, is_prompt, x0, y0, x1, y1);
        if last && console.state == CommandState::CoolDown && cursor_visible && sx + shown_text.len() < x + w - 1 {
            lemma_covers_writable(g1.len() as int, cols, rows, sx + shown_text.len(), gy);
            lemma_put_within(g1, cols, rows, sx + shown_text.len(), gy, painted('█', blue, true), x0, y0, x1, y1);
            lemma_changed_only_within_trans(
                g, g1, put(g1, cols, rows, sx + shown_text.len(), gy, painted('█', blue, true)),
                cols, rows, x0, y0, x1, y1,
            );
        }
    }
}

/// The first `k` console rows stay inside the panel's text area.
proof fn lemma_console_rows_inside_frame(
    g: Seq<TerminalCell>,
    cols: int,
    rows: int,
    console: ConsoleView,
    username: Seq<char>,
    cursor_visible: bool,
    x: int,
    y: int,
    w: int,
    h: int,
    blue: Rgb,
    teal: Rgb,
    k: int,
)
    requires
        covers(g.len() as int, cols, rows),
        0 <= x,
        0 <= y,
        k <= console_rows_drawn(console_shown_lines(console.lines, h).len() as int, h),
    ensures
        changed_only_within(
            g,
            put_console_rows(g, cols, rows, console, username, cursor_visible, x, y, w, h, blue, teal, k),
            cols, rows, x + 2, y + 1, x + w - 1, y + h - 1,
        ),
    decreases k,
{
    if k > 0 {
        let before = put_console_rows(g, cols, rows, console, username, cursor_visible, x, y, w, h, blue, teal, k - 1);
        lemma_console_rows_inside_frame(g, cols, rows, console, username, cursor_visible, x, y, w, h, blue, teal, k - 1);
        lemma_console_row_inside_frame(before, cols, rows, console, username, cursor_visible, x, y, w, h, blue, teal, k - 1);
        lemma_changed_only_within_trans(
            g, before,
            put_console_rows(g, cols, rows, console, username, cursor_visible, x, y, w, h, blue, teal, k),
            cols, rows, x + 2, y + 1, x + w - 1, y + h - 1,
        );
    } else {
        assert(changed_only_within(g, g, cols, rows, x + 2, y + 1, x + w - 1, y + h - 1));
    }
}

/// The console never draws outside its frame: drawing the console panel at
/// `(x, y)`, `w` by `h`, changes only cells strictly inside that box, and never the
/// first column inside the frame either (columns `x + 2 .. x + w - 1`, rows
/// `y + 1 .. y + h - 1`), whatever the lines hold.
pub proof fn lemma_console_panel_inside_frame(
    g: Seq<TerminalCell>,
    cols: int,
    rows: int,
    console: ConsoleView,
    username: Seq<char>,
    cursor_visible: bool,
    x: int,
    y: int,
    w: int,
    h: int,
    blue: Rgb,
    teal: Rgb,
)
    requires
        covers(g.len() as int, cols, rows),
        0 <= x,
        0 <= y,
    ensures
        changed_only_within(
            g,
            put_console_panel(g, cols, rows, console, username, cursor_visible, x, y, w, h, blue, teal),
            cols, rows, x + 2, y + 1, x + w - 1, y + h - 1,
        ),
{
    let n = console_rows_drawn(console_shown_lines(console.lines, h).len() as int, h);
    lemma_console_rows_inside_frame(g, cols, rows, console, username, cursor_visible, x, y, w, h, blue, teal, n);
}

/// A console row changes nothing off its own row.
proof fn lemma_console_row_keeps_other_rows(
    g: Seq<TerminalCell>,
    cols: int,
    rows: int,
    console: ConsoleView,
    username: Seq<char>,
    cursor_visible: bool,
    x: int,
    y: int,
    w: int,
    h: int,
    blue: Rgb,
    teal: Rgb,
    r: int,
    cx: int,
    cy: int,
)
    requires
        covers(g.len() as int, cols, rows),
        on_screen(cols, rows, cx, cy),
        cy != y + 1 + r,
    ensures
        put_console_row(g, cols, rows, console, username, cursor_visible, x, y, w, h, blue, teal, r)[cell_index(
            cols,
            cx,
            cy,
        )] == g[cell_index(cols, cx, cy)],
        put_console_row(g, cols, rows, console, username, cursor_visible, x, y, w, h, blue, teal, r).len()
            == g.len(),
{
    let shown = console_shown_lines(console.lines, h);
    let gy = y + 1 + r;
    let sx = x + 2;
    let line = shown[r];
    let width = console_text_width(w);
    let typed_text = clip(line + command_text(console.command).take(console.typed), width);
    let g1 = put_text(g, cols, rows, sx, gy, typed_text, teal, false);
    lemma_put_text_cells(g, cols, rows, sx, gy, typed_text, teal, false, cx, cy);
    lemma_put_text_len(g, cols, rows, sx, gy, typed_text, teal, false);
    lemma_put_other(g1, cols, rows, sx + typed_text.len(), gy, painted('█', teal, true), cx, cy);
    let is_prompt = has_prefix(line, prompt_prefix(username));
    let color = if is_prompt { blue } else { console_white() };
    let plain = clip(line, width);
    let g2 = put_text(g, cols, rows, sx, gy, plain, color, is_prompt);
    lemma_put_text_cells(g, cols, rows, sx, gy, plain, color, is_prompt, cx, cy);
    lemma_put_text_len(g, cols, rows, sx, gy, plain, color, is_prompt);
    lemma_put_other(g2, cols, rows, sx + plain.len(), gy, painted('█', blue, true), cx, cy);
}

/// Rows drawn after row `r` leave row `r` as it was.
proof fn lemma_console_rows_keep_row(
    g: Seq<TerminalCell>,
    cols: int,
    rows: int,
    console: ConsoleView,
    username: Seq<char>,
    cursor_visible: bool,
    x: int,
    y: int,
    w: int,
    h: int,
    blue: Rgb,
    teal: Rgb,
    k: int,
    r: int,
    cx: int,
)
    requires
        covers(g.len() as int, cols, rows),
        0 <= r < k,
        on_screen(cols, rows, cx, y + 1 + r),
    ensures
        put_console_rows(g, cols, rows, console, username, cursor_visible, x, y, w, h, blue, teal, k)[cell_index(
            cols,
            cx,
            y + 1 + r,
        )] == put_console_rows(g, cols, rows, console, username, cursor_visible, x, y, w, h, blue, teal, r + 1)[cell_index(
            cols,
            cx,
            y + 1 + r,
        )],
        put_console_rows(g, cols, rows, console, username, cursor_visible, x, y, w, h, blue, teal, k).len()
            == g.len(),
    decreases k,
{
    if k > r + 1 {
        lemma_console_rows_keep_row(g, cols, rows, console, username, cursor_visible, x, y, w, h, blue, teal, k - 1, r, cx);
        lemma_console_row_keeps_other_rows(
            put_console_rows(g, cols, rows, console, username, cursor_visible, x, y, w, h, blue, teal, k - 1),
            cols, rows, console, username, cursor_visible, x, y, w, h, blue, teal, k - 1, cx, y + 1 + r,
        );
    } else {
        lemma_console_rows_len(g, cols, rows, console, username, cursor_visible, x, y, w, h, blue, teal, k);
    }
}

/// Drawing console rows keeps the grid's length.
proof fn lemma_console_rows_len(
    g: Seq<TerminalCell>,
    cols: int,
    rows: int,
    console: ConsoleView,
    username: Seq<char>,
    cursor_visible: bool,
    x: int,
    y: int,
    w: int,
    h: int,
    blue: Rgb,
    teal: Rgb,
    k: int,
)
    requires
        covers(g.len() as int, cols, rows),
    ensures
        put_console_rows(g, cols, rows, console, username, cursor_visible, x, y, w, h, blue, teal, k).len()
            == g.len(),
    decreases k,
{
    if k > 0 {
        lemma_console_rows_len(g, cols, rows, console, username, cursor_visible, x, y, w, h, blue, teal, k - 1);
        broadcast use group_grid_len;

    }
}

/// Every console row other than the one being typed on shows its line, clipped to
/// the panel's text width, from column `x + 2` of row `y + 1 + r`: in bold accent
/// colour when it begins with the user's prompt, in white otherwise. The shown lines
/// are the newest ones that fit, oldest at the top. While the console cools down
/// after a command, the visible cursor follows the newest line in bold accent colour
/// if there is room before the right edge of the frame.
pub proof fn lemma_console_row_shows_line(
    g: Seq<TerminalCell>,
    cols: int,
    rows: int,
    console: ConsoleView,
    username: Seq<char>,
    cursor_visible: bool,
    x: int,
    y: int,
    w: int,
    h: int,
    blue: Rgb,
    teal: Rgb,
    r: int,
    cx: int,
)
    requires
        covers(g.len() as int, cols, rows),
        0 <= x,
        0 <= y,
        0 <= r < console_rows_drawn(console_shown_lines(console.lines, h).len() as int, h),
        !(r == console_shown_lines(console.lines, h).len() - 1 && console.state == CommandState::Typing),
        on_screen(cols, rows, cx, y + 1 + r),
    ensures
        ({
            let line = console_shown_lines(console.lines, h)[r];
            let text = clip(line, console_text_width(w));
            let is_prompt = has_prefix(line, prompt_prefix(username));
            let color = if is_prompt { blue } else { console_white() };
            let p = put_console_panel(g, cols, rows, console, username, cursor_visible, x, y, w, h, blue, teal);
            &&& (x + 2 <= cx < x + 2 + text.len()) ==> p[cell_index(cols, cx, y + 1 + r)] == painted(
                text[cx - (x + 2)],
                color,
                is_prompt,
            )
            &&& (r == console_shown_lines(console.lines, h).len() - 1 && console.state == CommandState::CoolDown
                && cursor_visible && cx == x + 2 + text.len() && cx < x + w - 1) ==> p[cell_index(
                cols,
                cx,
                y + 1 + r,
            )] == painted('█', blue, true)
        }),
{
    let shown = console_shown_lines(console.lines, h);
    let n = console_rows_drawn(shown.len() as int, h);
    let gy = y + 1 + r;
    let sx = x + 2;
    let line = shown[r];
    let is_prompt = has_prefix(line, prompt_prefix(username));
    let color = if is_prompt { blue } else { console_white() };
    let text = clip(line, console_text_width(w));
    lemma_console_rows_keep_row(g, cols, rows, console, username, cursor_visible, x, y, w, h, blue, teal, n, r, cx);
    let prev = put_console_rows(g, cols, rows, console, username, cursor_visible, x, y, w, h, blue, teal, r);
    lemma_console_rows_len(g, cols, rows, console, username, cursor_visible, x, y, w, h, blue, teal, r);
    let g1 = put_text(prev, cols, rows, sx, gy, text, color, is_prompt);
    lemma_put_text_cells(prev, cols, rows, sx, gy, text, color, is_prompt, cx, gy);
    lemma_put_text_len(prev, cols, rows, sx, gy, text, color, is_prompt);
    lemma_covers_writable(g.len() as int, cols, rows, cx, gy);
    if cx != sx + text.len() {
        lemma_put_other(g1, cols, rows, sx + text.len(), gy, painted('█', blue, true), cx, gy);
    }
}

/// While a command is being typed, the newest console row shows the newest line
/// followed by the first `typed` characters of the current command, clipped to the
/// panel's text width, in teal from column `x + 2`; the row is the last one drawn
/// (row `y + n` for `n` shown lines). In its visible phase the block cursor sits right
/// after that text, if there is room before the right edge of the frame.
pub proof fn lemma_typing_row_shows_typed_command(
    g: Seq<TerminalCell>,
    cols: int,
    rows: int,
    console: ConsoleView,
    username: Seq<char>,
    cursor_visible: bool,
    x: int,
    y: int,
    w: int,
    h: int,
    blue: Rgb,
    teal: Rgb,
    cx: int,
    cy: int,
)
    requires
        covers(g.len() as int, cols, rows),
        0 <= x,
        0 <= y,
        3 <= h,
        console.lines.len() > 0,
        console.state == CommandState::Typing,
        on_screen(cols, rows, cx, cy),
    ensures
        ({
            let row = y + if console.lines.len() <= h - 2 { console.lines.len() as int } else { h - 2 };
            let typed_line = console.lines.last() + command_text(console.command).take(console.typed);
            let text = clip(typed_line, console_text_width(w));
            let p = put_console_panel(g, cols, rows, console, username, cursor_visible, x, y, w, h, blue, teal);
            &&& (cy == row && x + 2 <= cx < x + 2 + text.len()) ==> p[cell_index(cols, cx, cy)] == painted(
                text[cx - (x + 2)],
                teal,
                false,
            )
            &&& (cursor_visible && cy == row && cx == x + 2 + text.len() && cx < x + w - 1)
                ==> p[cell_index(cols, cx, cy)] == painted('█', teal, true)
        }),
{
    let shown = console_shown_lines(console.lines, h);
    let n = console_rows_drawn(shown.len() as int, h);
    assert(n == shown.len() && n >= 1);
    assert(shown[n - 1] == console.lines.last());
    let prev = put_console_rows(g, cols, rows, console, username, cursor_visible, x, y, w, h, blue, teal, n - 1);
    lemma_console_rows_inside_frame(g, cols, rows, console, username, cursor_visible, x, y, w, h, blue, teal, n - 1);
    let gy = y + 1 + (n - 1);
    let sx = x + 2;
    let text = clip(shown[n - 1] + command_text(console.command).take(console.typed), console_text_width(w));
    let g1 = put_text(prev, cols, rows, sx, gy, text, teal, false);
    lemma_put_text_cells(prev, cols, rows, sx, gy, text, teal, false, cx, cy);
    lemma_put_text_len(prev, cols, rows, sx, gy, text, teal, false);
    lemma_covers_writable(g.len() as int, cols, rows, cx, cy);
    if cx != sx + text.len() || cy != gy {
        lemma_put_other(g1, cols, rows, sx + text.len(), gy, painted('█', teal, true), cx, cy);
    }
}

/// Draws one row of the console panel.
fn draw_console_row(
    console: &ConsoleState,
    username: &str,
    prefix: &Vec<char>,
    cursor_visible: bool,
    grid: &mut [TerminalCell],
    cols: usize,
    rows: usize,
    x: usize,
    y: usize,
    w: usize,
    h: usize,
    blue: (u8, u8, u8),
    teal: (u8, u8, u8),
    start: usize,
    r: usize,
)
    requires
        covers(old(grid)@.len() as int, cols as int, rows as int),
        x + w + 2 <= usize::MAX,
        1 <= x + w,
        y + h <= usize::MAX,
        prefix@ == prompt_prefix(username@),
        start == console@.lines.len() - console_shown_lines(console@.lines, h as int).len(),
        r < console_rows_drawn(console_shown_lines(console@.lines, h as int).len() as int, h as int),
    ensures
        final(grid)@.len() == old(grid)@.len(),
        final(grid)@ == put_console_row(
            old(grid)@, cols as int, rows as int, console@, username@, cursor_visible,
            x as int, y as int, w as int, h as int, blue, teal, r as int,
        ),
{
    let ghost len = grid@.len() as int;
    proof {
        lemma_covers_writable_all(len, cols as int, rows as int);
    }
    let ghost shown = console_shown_lines(console@.lines, h as int);
    let n_lines = console.line_count();
    let line = console.line(start + r);
    assert(line@ == shown[r as int]);
    let gy = y + 1 + r;
    let sx = x + 2;
    let width: usize = if w >= 4 { w - 4 } else { 0 };
    let last = start + r == n_lines - 1;
    let state = console.state();
    if last && state == CommandState::Typing {
        let cmd = command_line(console.command_index());
        let typed = cmd.substring_char(0, console.typed_len());
        let mut typed_line = String::from_str(line.as_str());
        typed_line.append(typed);
        let full_len = typed_line.as_str().unicode_len();
        let shown_len = if full_len <= width { full_len } else { width };
        let shown_text = typed_line.as_str().substring_char(0, shown_len);
        proof {
            assert(shown_text@ =~= clip(shown[r as int] + command_text(console@.command).take(console@.typed), width as int));
        }
        draw_string_helper(grid, cols, rows, sx, gy, shown_text, teal, false);
        if cursor_visible && sx + shown_len < x + w - 1 {
            set_cell_helper(grid, cols, rows, sx + shown_len, gy, '█', teal, true);
        }
    } else {
        let chars = str_chars(line.as_str());
        let is_prompt = chars_start_with(&chars, prefix);
        let color = if is_prompt { blue } else { (235, 240, 250) };
        let full_len = line.as_str().unicode_len();
        let shown_len = if full_len <= width { full_len } else { width };
        let shown_text = line.as_str().substring_char(0, shown_len);
        proof {
            assert(shown_text@ =~= clip(shown[r as int], width as int));
        }
        draw_string_helper(grid, cols, rows, sx, gy, shown_text, color, is_prompt);
        if last && state == CommandState::CoolDown && cursor_visible && sx + shown_len < x + w - 1 {
            set_cell_helper(grid, cols, rows, sx + shown_len, gy, '█', blue, true);
        }
    }
}

/// Draws the console lines inside the console panel at `(console_x, console_y)`,
/// `console_w` by `console_h`, with the typed command and the cursor.
/// The grid must hold every cell of the `cols` by `rows` screen, as the screen
/// buffer it is drawn into always does; a shorter grid is not accepted even where
/// no on-screen write would reach past its end.
pub fn draw_console_panel(
    console: &ConsoleState,
    username: &str,
    cursor_visible: bool,
    grid: &mut [TerminalCell],
    cols: usize,
    rows: usize,
    console_x: usize,
    console_y: usize,
    console_w: usize,
    console_h: usize,
    blue: (u8, u8, u8),
    teal: (u8, u8, u8),
)
    requires
        covers(old(grid)@.len() as int, cols as int, rows as int),
        console_x + console_w + 2 <= usize::MAX,
        1 <= console_x + console_w,
        console_y + console_h <= usize::MAX,
        console_h <= i32::MAX,
    ensures
        final(grid)@.len() == old(grid)@.len(),
        final(grid)@ == put_console_panel(
            old(grid)@, cols as int, rows as int, console@, username@, cursor_visible,
            console_x as int, console_y as int, console_w as int, console_h as int, blue, teal,
        ),
{
    let mut prefix = str_chars(username);
    prefix.push('@');
    assert(prefix@ =~= prompt_prefix(username@));
    let visible: usize = if console_h >= 3 { console_h - 2 } else { 1 };
    let n_lines = console.line_count();
    let start = if n_lines >= visible { n_lines - visible } else { 0 };
    let shown_count = n_lines - start;
    let limit: usize = if console_h >= 2 { console_h - 2 } else { 0 };
    let drawn = if shown_count <= limit { shown_count } else { limit };
    assert(drawn == console_rows_drawn(console_shown_lines(console@.lines, console_h as int).len() as int, console_h as int));
    let mut r: usize = 0;
    while r < drawn
        invariant
            covers(grid@.len() as int, cols as int, rows as int),
            grid@.len() == old(grid)@.len(),
            console_x + console_w + 2 <= usize::MAX,
            1 <= console_x + console_w,
            console_y + console_h <= usize::MAX,
            prefix@ == prompt_prefix(username@),
            start == console@.lines.len() - console_shown_lines(console@.lines, console_h as int).len(),
            drawn == console_rows_drawn(console_shown_lines(console@.lines, console_h as int).len() as int, console_h as int),
            r <= drawn,
            grid@ == put_console_rows(
                old(grid)@, cols as int, rows as int, console@, username@, cursor_visible,
                console_x as int, console_y as int, console_w as int, console_h as int, blue, teal, r as int,
            ),
        decreases drawn - r,
    {
        draw_console_row(
            console, username, &prefix, cursor_visible, grid, cols, rows,
            console_x, console_y, console_w, console_h, blue, teal, start, r,
        );
        r += 1;
    }
}

} // verus!
