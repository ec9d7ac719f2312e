use vstd::prelude::*;

verus! {

/// An RGB colour triple.
pub type Rgb = (u8, u8, u8);

/// One character cell of the terminal screen.
#[derive(Clone, Copy, PartialEq, Eq, Debug)]
pub struct TerminalCell {
    pub ch: char,
    pub fg: (u8, u8, u8),
    pub bg: (u8, u8, u8),
    pub bold: bool,
}

/// The cell that the drawing helpers write: the given glyph and colour on black.
pub open spec fn painted(ch: char, fg: Rgb, bold: bool) -> TerminalCell {
    TerminalCell { ch, fg, bg: (0u8, 0u8, 0u8), bold }
}

/// `(x, y)` lies on a screen of `cols` columns and `rows` rows.
pub open spec fn on_screen(cols: int, rows: int, x: int, y: int) -> bool {
    0 <= x < cols && 0 <= y < rows
}

/// Row-major position of cell `(x, y)` in the grid.
pub open spec fn cell_index(cols: int, x: int, y: int) -> int {
    y * cols + x
}

/// A write at `(x, y)` either falls off the screen or lands inside the grid.
pub open spec fn writable(len: int, cols: int, rows: int, x: int, y: int) -> bool {
    on_screen(cols, rows, x, y) ==> cell_index(cols, x, y) < len
}

/// The grid holds every cell of a `cols` by `rows` screen.
pub open spec fn covers(len: int, cols: int, rows: int) -> bool {
    0 <= cols && 0 <= rows && cols * rows <= len
}

/// The grid after writing `c` at `(x, y)`; a write off the screen changes nothing.
pub open spec fn put(g: Seq<TerminalCell>, cols: int, rows: int, x: int, y: int, c: TerminalCell) -> Seq<TerminalCell> {
    if on_screen(cols, rows, x, y) {
        g.update(cell_index(cols, x, y), c)
    } else {
        g
    }
}

/// The grid after writing `text` left to right from `(x, y)`, one cell per character.
pub open spec fn put_text(
    g: Seq<TerminalCell>,
    cols: int,
    rows: int,
    x: int,
    y: int,
    text: Seq<char>,
    fg: Rgb,
    bold: bool,
) -> Seq<TerminalCell>
    decreases text.len(),
{
    if text.len() == 0 {
        g
    } else {
        put(
            put_text(g, cols, rows, x, y, text.drop_last(), fg, bold),
            cols,
            rows,
            x + text.len() - 1,
            y,
            painted(text.last(), fg, bold),
        )
    }
}

/// Every cell that writing `n` characters from `(x, y)` touches lies inside the grid.
pub open spec fn text_writable(len: int, cols: int, rows: int, x: int, y: int, n: int) -> bool {
    forall|i: int| 0 <= i < n ==> #[trigger] writable(len, cols, rows, x + i, y)
}

/// The grid after writing `c` at `(x + i, top)` and `(x + i, bottom)` for `i` in `0..n`,
/// column by column.
pub open spec fn put_hedges(
    g: Seq<TerminalCell>,
    cols: int,
    rows: int,
    x: int,
    top: int,
    bottom: int,
    n: int,
    c: TerminalCell,
) -> Seq<TerminalCell>
    decreases n,
{
    if n <= 0 {
        g
    } else {
        let before = put_hedges(g, cols, rows, x, top, bottom, n - 1, c);
        put(put(before, cols, rows, x + n - 1, top, c), cols, rows, x + n - 1, bottom, c)
    }
}

/// The grid after writing `c` at `(left, y + i)` and `(right, y + i)` for `i` in `0..n`,
/// row by row.
pub open spec fn put_vedges(
    g: Seq<TerminalCell>,
    cols: int,
    rows: int,
    left: int,
    right: int,
    y: int,
    n: int,
    c: TerminalCell,
) -> Seq<TerminalCell>
    decreases n,
{
    if n <= 0 {
        g
    } else {
        let before = put_vedges(g, cols, rows, left, right, y, n - 1, c);
        put(put(before, cols, rows, left, y + n - 1, c), cols, rows, right, y + n - 1, c)
    }
}

/// The double-line frame of the `w` by `h` box whose top-left corner is `(x, y)`:
/// the four corners, then the top and bottom edges, then the side edges.
pub open spec fn put_frame(
    g: Seq<TerminalCell>,
    cols: int,
    rows: int,
    x: int,
    y: int,
    w: int,
    h: int,
    fg: Rgb,
) -> Seq<TerminalCell> {
    let right = x + w - 1;
    let bottom = y + h - 1;
    let g1 = put(g, cols, rows, x, y, painted('╔', fg, false));
    let g2 = put(g1, cols, rows, right, y, painted('╗', fg, false));
    let g3 = put(g2, cols, rows, x, bottom, painted('╚', fg, false));
    let g4 = put(g3, cols, rows, right, bottom, painted('╝', fg, false));
    let g5 = put_hedges(g4, cols, rows, x + 1, y, bottom, w - 2, painted('═', fg, false));
    put_vedges(g5, cols, rows, x, right, y + 1, h - 2, painted('║', fg, false))
}

/// A box title as it is shown: the title with one space on each side.
pub open spec fn title_text(title: Seq<char>) -> Seq<char> {
    seq![' '] + title + seq![' ']
}

/// The frame, then, if the title is not empty and its padded text fits in the
/// width, the padded title centred on the top edge in bold.
pub open spec fn put_border(
    g: Seq<TerminalCell>,
    cols: int,
    rows: int,
    x: int,
    y: int,
    w: int,
    h: int,
    title: Seq<char>,
    fg: Rgb,
) -> Seq<TerminalCell> {
    let framed = put_frame(g, cols, rows, x, y, w, h, fg);
    let t = title_text(title);
    if title.len() > 0 && w >= t.len() {
        put_text(framed, cols, rows, x + (w - t.len()) / 2, y, t, fg, true)
    } else {
        framed
    }
}

/// On a grid that covers the screen, every on-screen cell lies inside the grid.
pub proof fn lemma_covers_writable(len: int, cols: int, rows: int, x: int, y: int)
    by (nonlinear_arith)
    requires
        covers(len, cols, rows),
    ensures
        writable(len, cols, rows, x, y),
{
    if on_screen(cols, rows, x, y) {
        assert(y * cols + x < (y + 1) * cols);
        assert((y + 1) * cols <= rows * cols);
    }
}

/// The same, for every cell at once.
pub proof fn lemma_covers_writable_all(len: int, cols: int, rows: int)
    requires
        covers(len, cols, rows),
    ensures
        forall|x: int, y: int| #[trigger] writable(len, cols, rows, x, y),
{
    assert forall|x: int, y: int| #[trigger] writable(len, cols, rows, x, y) by {
        lemma_covers_writable(len, cols, rows, x, y);
    }
}

/// The grid after writing `c` at `(x + i, y)` for `i` in `0..n`, left to right.
pub open spec fn put_hline(
    g: Seq<TerminalCell>,
    cols: int,
    rows: int,
    x: int,
    y: int,
    n: int,
    c: TerminalCell,
) -> Seq<TerminalCell>
    decreases n,
{
    if n <= 0 {
        g
    } else {
        put(put_hline(g, cols, rows, x, y, n - 1, c), cols, rows, x + n - 1, y, c)
    }
}

/// A grid of `len` copies of `c`.
pub open spec fn filled(len: nat, c: TerminalCell) -> Seq<TerminalCell> {
    Seq::new(len, |i: int| c)
}

/// Distinct on-screen cells have distinct grid positions, and all of them lie
/// before position `cols * rows`.
pub proof fn lemma_cell_index_unique(cols: int, rows: int, x1: int, y1: int, x2: int, y2: int)
    requires
        on_screen(cols, rows, x1, y1),
        on_screen(cols, rows, x2, y2),
    ensures
        (x1 != x2 || y1 != y2) ==> cell_index(cols, x1, y1) != cell_index(cols, x2, y2),
        0 <= cell_index(cols, x1, y1) < cols * rows,
{
    if y1 < y2 {
        lemma_cell_index_order(cols, x1, y1, x2, y2);
    } else if y2 < y1 {
        lemma_cell_index_order(cols, x2, y2, x1, y1);
    }
    lemma_covers_writable(cols * rows, cols, rows, x1, y1);
    assert(0 <= y1 * cols) by (nonlinear_arith)
        requires
            0 <= y1,
            0 <= cols;
}

/// A cell on a lower row comes later in the grid.
proof fn lemma_cell_index_order(cols: int, x1: int, y1: int, x2: int, y2: int)
    by (nonlinear_arith)
    requires
        0 <= x1 < cols,
        0 <= x2 < cols,
        0 <= y1 < y2,
    ensures
        cell_index(cols, x1, y1) < cell_index(cols, x2, y2),
{
    assert(y1 * cols + cols <= y2 * cols);
}

/// `g2` differs from `g1` at most in the on-screen cells of the rectangle of columns
/// `x0..x1` and rows `y0..y1`.
pub open spec fn changed_only_within(
    g1: Seq<TerminalCell>,
    g2: Seq<TerminalCell>,
    cols: int,
    rows: int,
    x0: int,
    y0: int,
    x1: int,
    y1: int,
) -> bool {
    &&& g2.len() == g1.len()
    &&& forall|x: int, y: int|
        on_screen(cols, rows, x, y) && !(x0 <= x < x1 && y0 <= y < y1) && cell_index(cols, x, y) < g1.len()
            ==> #[trigger] g2[cell_index(cols, x, y)] == g1[cell_index(cols, x, y)]
    &&& forall|k: int| cols * rows <= k < g1.len() ==> #[trigger] g2[k] == g1[k]
}

/// No change stays within any rectangle, and changes within a rectangle compose.
pub proof fn lemma_changed_only_within_trans(
    g1: Seq<TerminalCell>,
    g2: Seq<TerminalCell>,
    g3: Seq<TerminalCell>,
    cols: int,
    rows: int,
    x0: int,
    y0: int,
    x1: int,
    y1: int,
)
    requires
        changed_only_within(g1, g2, cols, rows, x0, y0, x1, y1),
        changed_only_within(g2, g3, cols, rows, x0, y0, x1, y1),
    ensures
        changed_only_within(g1, g3, cols, rows, x0, y0, x1, y1),
{
    assert forall|x: int, y: int|
        on_screen(cols, rows, x, y) && !(x0 <= x < x1 && y0 <= y < y1) && cell_index(cols, x, y) < g1.len()
        implies #[trigger] g3[cell_index(cols, x, y)] == g1[cell_index(cols, x, y)] by {
        assert(g2[cell_index(cols, x, y)] == g1[cell_index(cols, x, y)]);
    }
    assert forall|k: int| cols * rows <= k < g1.len() implies #[trigger] g3[k] == g1[k] by {
        assert(g2[k] == g1[k]);
    }
}

/// Writing one cell inside the rectangle (or off the screen) changes nothing outside it.
pub proof fn lemma_put_within(
    g: Seq<TerminalCell>,
    cols: int,
    rows: int,
    x: int,
    y: int,
    c: TerminalCell,
    x0: int,
    y0: int,
    x1: int,
    y1: int,
)
    requires
        writable(g.len() as int, cols, rows, x, y),
        on_screen(cols, rows, x, y) ==> x0 <= x < x1 && y0 <= y < y1,
    ensures
        changed_only_within(g, put(g, cols, rows, x, y, c), cols, rows, x0, y0, x1, y1),
{
    let g2 = put(g, cols, rows, x, y, c);
    if on_screen(cols, rows, x, y) {
        assert forall|a: int, b: int|
            on_screen(cols, rows, a, b) && !(x0 <= a < x1 && y0 <= b < y1) && cell_index(cols, a, b) < g.len()
            implies #[trigger] g2[cell_index(cols, a, b)] == g[cell_index(cols, a, b)] by {
            lemma_cell_index_unique(cols, rows, a, b, x, y);
        }
        assert forall|k: int| cols * rows <= k < g.len() implies #[trigger] g2[k] == g[k] by {
            lemma_cell_index_unique(cols, rows, x, y, x, y);
        }
    }
}

/// Text written on a row of the rectangle, starting and ending within its columns,
/// changes nothing outside it.
pub proof fn lemma_put_text_within(
    g: Seq<TerminalCell>,
    cols: int,
    rows: int,
    x: int,
    y: int,
    text: Seq<char>,
    fg: Rgb,
    bold: bool,
    x0: int,
    y0: int,
    x1: int,
    y1: int,
)
    requires
        covers(g.len() as int, cols, rows),
        text.len() > 0 ==> (x0 <= x && x + text.len() <= x1 && y0 <= y < y1),
    ensures
        changed_only_within(g, put_text(g, cols, rows, x, y, text, fg, bold), cols, rows, x0, y0, x1, y1),
    decreases text.len(),
{
    if text.len() > 0 {
        let before = put_text(g, cols, rows, x, y, text.drop_last(), fg, bold);
        lemma_put_text_within(g, cols, rows, x, y, text.drop_last(), fg, bold, x0, y0, x1, y1);
        lemma_covers_writable(before.len() as int, cols, rows, x + text.len() - 1, y);
        lemma_put_within(before, cols, rows, x + text.len() - 1, y, painted(text.last(), fg, bold), x0, y0, x1, y1);
        lemma_changed_only_within_trans(
            g, before, put_text(g, cols, rows, x, y, text, fg, bold), cols, rows, x0, y0, x1, y1,
        );
    }
}

/// Writing a cell keeps the grid's length.
pub broadcast proof fn lemma_put_len(g: Seq<TerminalCell>, cols: int, rows: int, x: int, y: int, c: TerminalCell)
    requires
        covers(g.len() as int, cols, rows),
    ensures
        #[trigger] put(g, cols, rows, x, y, c).len() == g.len(),
{
    lemma_covers_writable(g.len() as int, cols, rows, x, y);
}

/// Writing a row of cells keeps the grid's length.
pub broadcast proof fn lemma_put_hline_len(
    g: Seq<TerminalCell>,
    cols: int,
    rows: int,
    x: int,
    y: int,
    n: int,
    c: TerminalCell,
)
    requires
        covers(g.len() as int, cols, rows),
    ensures
        #[trigger] put_hline(g, cols, rows, x, y, n, c).len() == g.len(),
    decreases n,
{
    if n > 0 {
        lemma_put_hline_len(g, cols, rows, x, y, n - 1, c);
        lemma_put_len(put_hline(g, cols, rows, x, y, n - 1, c), cols, rows, x + n - 1, y, c);
    }
}

/// Writing top and bottom edges keeps the grid's length.
pub broadcast proof fn lemma_put_hedges_len(
    g: Seq<TerminalCell>,
    cols: int,
    rows: int,
    x: int,
    top: int,
    bottom: int,
    n: int,
    c: TerminalCell,
)
    requires
        covers(g.len() as int, cols, rows),
    ensures
        #[trigger] put_hedges(g, cols, rows, x, top, bottom, n, c).len() == g.len(),
    decreases n,
{
    if n > 0 {
        let before = put_hedges(g, cols, rows, x, top, bottom, n - 1, c);
        lemma_put_hedges_len(g, cols, rows, x, top, bottom, n - 1, c);
        lemma_put_len(before, cols, rows, x + n - 1, top, c);
        lemma_put_len(put(before, cols, rows, x + n - 1, top, c), cols, rows, x + n - 1, bottom, c);
    }
}

/// Writing side edges keeps the grid's length.
pub broadcast proof fn lemma_put_vedges_len(
    g: Seq<TerminalCell>,
    cols: int,
    rows: int,
    left: int,
    right: int,
    y: int,
    n: int,
    c: TerminalCell,
)
    requires
        covers(g.len() as int, cols, rows),
    ensures
        #[trigger] put_vedges(g, cols, rows, left, right, y, n, c).len() == g.len(),
    decreases n,
{
    if n > 0 {
        let before = put_vedges(g, cols, rows, left, right, y, n - 1, c);
        lemma_put_vedges_len(g, cols, rows, left, right, y, n - 1, c);
        lemma_put_len(before, cols, rows, left, y + n - 1, c);
        lemma_put_len(put(before, cols, rows, left, y + n - 1, c), cols, rows, right, y + n - 1, c);
    }
}

/// Drawing keeps the grid's length: the facts above, for use together.
pub broadcast group group_grid_len {
    lemma_put_len,
    lemma_put_text_len,
    lemma_put_hline_len,
    lemma_put_hedges_len,
    lemma_put_vedges_len,
}

/// Writing text keeps the grid's length.
pub broadcast proof fn lemma_put_text_len(
    g: Seq<TerminalCell>,
    cols: int,
    rows: int,
    x: int,
    y: int,
    text: Seq<char>,
    fg: Rgb,
    bold: bool,
)
    requires
        covers(g.len() as int, cols, rows),
    ensures
        #[trigger] put_text(g, cols, rows, x, y, text, fg, bold).len() == g.len(),
    decreases text.len(),
{
    if text.len() > 0 {
        lemma_put_text_len(g, cols, rows, x, y, text.drop_last(), fg, bold);
        lemma_covers_writable(g.len() as int, cols, rows, x + text.len() - 1, y);
    }
}

/// Top and bottom edge cells inside the rectangle change nothing outside it.
proof fn lemma_hedges_within(
    g: Seq<TerminalCell>,
    cols: int,
    rows: int,
    x: int,
    top: int,
    bottom: int,
    n: int,
    c: TerminalCell,
    x0: int,
    y0: int,
    x1: int,
    y1: int,
)
    requires
        covers(g.len() as int, cols, rows),
        n > 0 ==> (x0 <= x && x + n <= x1 && y0 <= top < y1 && y0 <= bottom < y1),
    ensures
        changed_only_within(g, put_hedges(g, cols, rows, x, top, bottom, n, c), cols, rows, x0, y0, x1, y1),
    decreases n,
{
    if n > 0 {
        let before = put_hedges(g, cols, rows, x, top, bottom, n - 1, c);
        lemma_hedges_within(g, cols, rows, x, top, bottom, n - 1, c, x0, y0, x1, y1);
        lemma_covers_writable(before.len() as int, cols, rows, x + n - 1, top);
        lemma_put_within(before, cols, rows, x + n - 1, top, c, x0, y0, x1, y1);
        let mid = put(before, cols, rows, x + n - 1, top, c);
        lemma_covers_writable(mid.len() as int, cols, rows, x + n - 1, bottom);
        lemma_put_within(mid, cols, rows, x + n - 1, bottom, c, x0, y0, x1, y1);
        lemma_changed_only_within_trans(g, before, mid, cols, rows, x0, y0, x1, y1);
        lemma_changed_only_within_trans(g, mid, put(mid, cols, rows, x + n - 1, bottom, c), cols, rows, x0, y0, x1, y1);
    } else {
        assert(changed_only_within(g, g, cols, rows, x0, y0, x1, y1));
    }
}

/// Side edge cells inside the rectangle change nothing outside it.
proof fn lemma_vedges_within(
    g: Seq<TerminalCell>,
    cols: int,
    rows: int,
    left: int,
    right: int,
    y: int,
    n: int,
    c: TerminalCell,
    x0: int,
    y0: int,
    x1: int,
    y1: int,
)
    requires
        covers(g.len() as int, cols, rows),
        n > 0 ==> (y0 <= y && y + n <= y1 && x0 <= left < x1 && x0 <= right < x1),
    ensures
        changed_only_within(g, put_vedges(g, cols, rows, left, right, y, n, c), cols, rows, x0, y0, x1, y1),
    decreases n,
{
    if n > 0 {
        let before = put_vedges(g, cols, rows, left, right, y, n - 1, c);
        lemma_vedges_within(g, cols, rows, left, right, y, n - 1, c, x0, y0, x1, y1);
        lemma_covers_writable(before.len() as int, cols, rows, left, y + n - 1);
        lemma_put_within(before, cols, rows, left, y + n - 1, c, x0, y0, x1, y1);
        let mid = put(before, cols, rows, left, y + n - 1, c);
        lemma_covers_writable(mid.len() as int, cols, rows, right, y + n - 1);
        lemma_put_within(mid, cols, rows, right, y + n - 1, c, x0, y0, x1, y1);
        lemma_changed_only_within_trans(g, before, mid, cols, rows, x0, y0, x1, y1);
        lemma_changed_only_within_trans(g, mid, put(mid, cols, rows, right, y + n - 1, c), cols, rows, x0, y0, x1, y1);
    } else {
        assert(changed_only_within(g, g, cols, rows, x0, y0, x1, y1));
    }
}

/// A border stays within its box: drawing the `w` by `h` border at `(x, y)`, title
/// included, changes only cells of columns `x .. x + w` and rows `y .. y + h`.
pub proof fn lemma_border_within_box(
    g: Seq<TerminalCell>,
    cols: int,
    rows: int,
    x: int,
    y: int,
    w: int,
    h: int,
    title: Seq<char>,
    fg: Rgb,
)
    requires
        covers(g.len() as int, cols, rows),
        0 <= x,
        0 <= y,
        1 <= w,
        1 <= h,
    ensures
        changed_only_within(g, put_border(g, cols, rows, x, y, w, h, title, fg), cols, rows, x, y, x + w, y + h),
{
    let (x1, y1) = (x + w, y + h);
    let right = x + w - 1;
    let bottom = y + h - 1;
    let g1 = put(g, cols, rows, x, y, painted('╔', fg, false));
    let g2 = put(g1, cols, rows, right, y, painted('╗', fg, false));
    let g3 = put(g2, cols, rows, x, bottom, painted('╚', fg, false));
    let g4 = put(g3, cols, rows, right, bottom, painted('╝', fg, false));
    lemma_covers_writable(g.len() as int, cols, rows, x, y);
    lemma_put_within(g, cols, rows, x, y, painted('╔', fg, false), x, y, x1, y1);
    lemma_covers_writable(g1.len() as int, cols, rows, right, y);
    lemma_put_within(g1, cols, rows, right, y, painted('╗', fg, false), x, y, x1, y1);
    lemma_changed_only_within_trans(g, g1, g2, cols, rows, x, y, x1, y1);
    lemma_covers_writable(g2.len() as int, cols, rows, x, bottom);
    lemma_put_within(g2, cols, rows, x, bottom, painted('╚', fg, false), x, y, x1, y1);
    lemma_changed_only_within_trans(g, g2, g3, cols, rows, x, y, x1, y1);
    lemma_covers_writable(g3.len() as int, cols, rows, right, bottom);
    lemma_put_within(g3, cols, rows, right, bottom, painted('╝', fg, false), x, y, x1, y1);
    lemma_changed_only_within_trans(g, g3, g4, cols, rows, x, y, x1, y1);
    let g5 = put_hedges(g4, cols, rows, x + 1, y, bottom, w - 2, painted('═', fg, false));
    lemma_hedges_within(g4, cols, rows, x + 1, y, bottom, w - 2, painted('═', fg, false), x, y, x1, y1);
    lemma_changed_only_within_trans(g, g4, g5, cols, rows, x, y, x1, y1);
    let framed = put_vedges(g5, cols, rows, x, right, y + 1, h - 2, painted('║', fg, false));
    lemma_vedges_within(g5, cols, rows, x, right, y + 1, h - 2, painted('║', fg, false), x, y, x1, y1);
    lemma_changed_only_within_trans(g, g5, framed, cols, rows, x, y, x1, y1);
    let t = title_text(title);
    if title.len() > 0 && w >= t.len() {
        let tx = x + (w - t.len()) / 2;
        lemma_put_text_within(framed, cols, rows, tx, y, t, fg, true, x, y, x1, y1);
        lemma_changed_only_within_trans(
            g, framed, put_text(framed, cols, rows, tx, y, t, fg, true), cols, rows, x, y, x1, y1,
        );
    }
}

/// Writing one cell leaves every other on-screen cell as it was.
pub proof fn lemma_put_other(
    g: Seq<TerminalCell>,
    cols: int,
    rows: int,
    x: int,
    y: int,
    c: TerminalCell,
    cx: int,
    cy: int,
)
    requires
        covers(g.len() as int, cols, rows),
        on_screen(cols, rows, cx, cy),
        cx != x || cy != y,
    ensures
        put(g, cols, rows, x, y, c)[cell_index(cols, cx, cy)] == g[cell_index(cols, cx, cy)],
        put(g, cols, rows, x, y, c).len() == g.len(),
{
    lemma_covers_writable(g.len() as int, cols, rows, x, y);
    lemma_covers_writable(g.len() as int, cols, rows, cx, cy);
    if on_screen(cols, rows, x, y) {
        lemma_cell_index_unique(cols, rows, cx, cy, x, y);
    }
}

/// A horizontal line leaves every cell off its row, or outside its columns, as it was.
pub proof fn lemma_hline_other(
    g: Seq<TerminalCell>,
    cols: int,
    rows: int,
    x: int,
    y: int,
    n: int,
    c: TerminalCell,
    cx: int,
    cy: int,
)
    requires
        covers(g.len() as int, cols, rows),
        on_screen(cols, rows, cx, cy),
        cy != y || cx < x || cx >= x + n,
    ensures
        put_hline(g, cols, rows, x, y, n, c)[cell_index(cols, cx, cy)] == g[cell_index(cols, cx, cy)],
        put_hline(g, cols, rows, x, y, n, c).len() == g.len(),
    decreases n,
{
    if n > 0 {
        lemma_hline_other(g, cols, rows, x, y, n - 1, c, cx, cy);
        lemma_put_other(put_hline(g, cols, rows, x, y, n - 1, c), cols, rows, x + n - 1, y, c, cx, cy);
    }
}

/// Top and bottom edges leave every cell off those rows, or outside their columns,
/// as it was.
proof fn lemma_hedges_other(
    g: Seq<TerminalCell>,
    cols: int,
    rows: int,
    x: int,
    top: int,
    bottom: int,
    n: int,
    c: TerminalCell,
    cx: int,
    cy: int,
)
    requires
        covers(g.len() as int, cols, rows),
        on_screen(cols, rows, cx, cy),
        (cy != top && cy != bottom) || cx < x || cx >= x + n,
    ensures
        put_hedges(g, cols, rows, x, top, bottom, n, c)[cell_index(cols, cx, cy)] == g[cell_index(cols, cx, cy)],
        put_hedges(g, cols, rows, x, top, bottom, n, c).len() == g.len(),
    decreases n,
{
    if n > 0 {
        let before = put_hedges(g, cols, rows, x, top, bottom, n - 1, c);
        lemma_hedges_other(g, cols, rows, x, top, bottom, n - 1, c, cx, cy);
        lemma_put_other(before, cols, rows, x + n - 1, top, c, cx, cy);
        lemma_put_other(put(before, cols, rows, x + n - 1, top, c), cols, rows, x + n - 1, bottom, c, cx, cy);
    }
}

/// Side edges leave every cell off those columns, or outside their rows, as it was.
proof fn lemma_vedges_other(
    g: Seq<TerminalCell>,
    cols: int,
    rows: int,
    left: int,
    right: int,
    y: int,
    n: int,
    c: TerminalCell,
    cx: int,
    cy: int,
)
    requires
        covers(g.len() as int, cols, rows),
        on_screen(cols, rows, cx, cy),
        (cx != left && cx != right) || cy < y || cy >= y + n,
    ensures
        put_vedges(g, cols, rows, left, right, y, n, c)[cell_index(cols, cx, cy)] == g[cell_index(cols, cx, cy)],
        put_vedges(g, cols, rows, left, right, y, n, c).len() == g.len(),
    decreases n,
{
    if n > 0 {
        let before = put_vedges(g, cols, rows, left, right, y, n - 1, c);
        lemma_vedges_other(g, cols, rows, left, right, y, n - 1, c, cx, cy);
        lemma_put_other(before, cols, rows, left, y + n - 1, c, cx, cy);
        lemma_put_other(put(before, cols, rows, left, y + n - 1, c), cols, rows, right, y + n - 1, c, cx, cy);
    }
}

/// A framed box of at least two by two cells shows its four corner glyphs (unless a
/// title wide enough to reach a corner covers it) and leaves every cell strictly
/// inside the frame as it was.
pub proof fn lemma_border_corners_and_inside(
    g: Seq<TerminalCell>,
    cols: int,
    rows: int,
    x: int,
    y: int,
    w: int,
    h: int,
    title: Seq<char>,
    fg: Rgb,
    cx: int,
    cy: int,
)
    requires
        covers(g.len() as int, cols, rows),
        0 <= x,
        0 <= y,
        2 <= w,
        2 <= h,
        on_screen(cols, rows, cx, cy),
    ensures
        ({
            let b = put_border(g, cols, rows, x, y, w, h, title, fg);
            let untitled = title.len() == 0 || title_text(title).len() + 2 <= w;
            &&& (x < cx < x + w - 1 && y < cy < y + h - 1) ==> b[cell_index(cols, cx, cy)] == g[cell_index(cols, cx, cy)]
            &&& (untitled && cx == x && cy == y) ==> b[cell_index(cols, cx, cy)] == painted('╔', fg, false)
            &&& (untitled && cx == x + w - 1 && cy == y) ==> b[cell_index(cols, cx, cy)] == painted('╗', fg, false)
            &&& (cx == x && cy == y + h - 1) ==> b[cell_index(cols, cx, cy)] == painted('╚', fg, false)
            &&& (cx == x + w - 1 && cy == y + h - 1) ==> b[cell_index(cols, cx, cy)] == painted('╝', fg, false)
        }),
{
    let right = x + w - 1;
    let bottom = y + h - 1;
    let k = cell_index(cols, cx, cy);
    lemma_covers_writable(g.len() as int, cols, rows, cx, cy);
    let g1 = put(g, cols, rows, x, y, painted('╔', fg, false));
    let g2 = put(g1, cols, rows, right, y, painted('╗', fg, false));
    let g3 = put(g2, cols, rows, x, bottom, painted('╚', fg, false));
    let g4 = put(g3, cols, rows, right, bottom, painted('╝', fg, false));
    lemma_covers_writable(g.len() as int, cols, rows, x, y);
    lemma_covers_writable(g.len() as int, cols, rows, right, y);
    lemma_covers_writable(g.len() as int, cols, rows, x, bottom);
    lemma_covers_writable(g.len() as int, cols, rows, right, bottom);
    assert(g4.len() == g.len());
    let g5 = put_hedges(g4, cols, rows, x + 1, y, bottom, w - 2, painted('═', fg, false));
    let framed = put_vedges(g5, cols, rows, x, right, y + 1, h - 2, painted('║', fg, false));
    let on_corner = (cx == x || cx == right) && (cy == y || cy == bottom);
    let inside = x < cx < right && y < cy < bottom;
    if on_corner || inside {
        // The edges never touch corners or the inside.
        lemma_hedges_other(g4, cols, rows, x + 1, y, bottom, w - 2, painted('═', fg, false), cx, cy);
        lemma_vedges_other(g5, cols, rows, x, right, y + 1, h - 2, painted('║', fg, false), cx, cy);
        assert(framed[k] == g4[k]);
        if inside {
            lemma_put_other(g, cols, rows, x, y, painted('╔', fg, false), cx, cy);
            lemma_put_other(g1, cols, rows, right, y, painted('╗', fg, false), cx, cy);
            lemma_put_other(g2, cols, rows, x, bottom, painted('╚', fg, false), cx, cy);
            lemma_put_other(g3, cols, rows, right, bottom, painted('╝', fg, false), cx, cy);
        } else if cx == right && cy == bottom {
            lemma_cell_index_unique(cols, rows, cx, cy, cx, cy);
        } else if cx == x && cy == bottom {
            lemma_put_other(g3, cols, rows, right, bottom, painted('╝', fg, false), cx, cy);
            lemma_cell_index_unique(cols, rows, cx, cy, cx, cy);
            lemma_put_other(g, cols, rows, x, y, painted('╔', fg, false), cx, cy);
        } else if cx == right && cy == y {
            lemma_put_other(g3, cols, rows, right, bottom, painted('╝', fg, false), cx, cy);
            lemma_put_other(g2, cols, rows, x, bottom, painted('╚', fg, false), cx, cy);
            lemma_cell_index_unique(cols, rows, cx, cy, cx, cy);
        } else {
            lemma_put_other(g3, cols, rows, right, bottom, painted('╝', fg, false), cx, cy);
            lemma_put_other(g2, cols, rows, x, bottom, painted('╚', fg, false), cx, cy);
            lemma_put_other(g1, cols, rows, right, y, painted('╗', fg, false), cx, cy);
            lemma_cell_index_unique(cols, rows, cx, cy, cx, cy);
        }
        let t = title_text(title);
        if title.len() > 0 && w >= t.len() {
            let tx = x + (w - t.len()) / 2;
            lemma_put_text_cells(framed, cols, rows, tx, y, t, fg, true, cx, cy);
        }
    }
}

/// The title is centred on the top edge: a border whose padded title (`n`
/// characters) fits in its width is the same border without a title, with the padded
/// title written over the top edge in bold from column `x + (w - n) / 2`; each
/// on-screen cell of that span shows its title character, every other cell is as
/// the untitled border left it.
pub proof fn lemma_border_title_centred(
    g: Seq<TerminalCell>,
    cols: int,
    rows: int,
    x: int,
    y: int,
    w: int,
    h: int,
    title: Seq<char>,
    fg: Rgb,
    cx: int,
    cy: int,
)
    requires
        covers(g.len() as int, cols, rows),
        0 <= x,
        0 <= y,
        1 <= h,
        title.len() > 0,
        title_text(title).len() <= w,
        on_screen(cols, rows, cx, cy),
    ensures
        ({
            let t = title_text(title);
            let tx = x + (w - t.len()) / 2;
            let plain = put_border(g, cols, rows, x, y, w, h, Seq::empty(), fg);
            let titled = put_border(g, cols, rows, x, y, w, h, title, fg);
            &&& titled == put_text(plain, cols, rows, tx, y, t, fg, true)
            &&& titled[cell_index(cols, cx, cy)] == if cy == y && tx <= cx < tx + t.len() {
                painted(t[cx - tx], fg, true)
            } else {
                plain[cell_index(cols, cx, cy)]
            }
        }),
{
    let t = title_text(title);
    let tx = x + (w - t.len()) / 2;
    let plain = put_border(g, cols, rows, x, y, w, h, Seq::empty(), fg);
    lemma_border_within_box(g, cols, rows, x, y, w, h, Seq::empty(), fg);
    lemma_put_text_cells(plain, cols, rows, tx, y, t, fg, true, cx, cy);
}

/// What writing a text leaves in each on-screen cell: character `i` of the text in
/// painted form at `(x + i, y)` for the characters that fit, the old cell elsewhere.
pub proof fn lemma_put_text_cells(
    g: Seq<TerminalCell>,
    cols: int,
    rows: int,
    x: int,
    y: int,
    text: Seq<char>,
    fg: Rgb,
    bold: bool,
    cx: int,
    cy: int,
)
    requires
        covers(g.len() as int, cols, rows),
        on_screen(cols, rows, cx, cy),
    ensures
        put_text(g, cols, rows, x, y, text, fg, bold)[cell_index(cols, cx, cy)] == if cy == y && x <= cx < x + text.len() {
            painted(text[cx - x], fg, bold)
        } else {
            g[cell_index(cols, cx, cy)]
        },
    decreases text.len(),
{
    lemma_covers_writable(g.len() as int, cols, rows, cx, cy);
    if text.len() > 0 {
        let before = put_text(g, cols, rows, x, y, text.drop_last(), fg, bold);
        lemma_put_text_cells(g, cols, rows, x, y, text.drop_last(), fg, bold, cx, cy);
        lemma_put_text_len(g, cols, rows, x, y, text.drop_last(), fg, bold);
        let lx = x + text.len() - 1;
        if on_screen(cols, rows, lx, y) {
            lemma_cell_index_unique(cols, rows, cx, cy, lx, y);
            lemma_covers_writable(g.len() as int, cols, rows, lx, y);
        }
        if cy == y && x <= cx < lx {
            assert(text.drop_last()[cx - x] == text[cx - x]);
        }
    }
}

/// Writes `ch` at `(x, y)` when that cell is on the screen; does nothing otherwise.
pub fn set_cell_helper(
    grid: &mut [TerminalCell],
    cols: usize,
    rows: usize,
    x: usize,
    y: usize,
    ch: char,
    fg: (u8, u8, u8),
    bold: bool,
)
    requires
        writable(old(grid)@.len() as int, cols as int, rows as int, x as int, y as int),
    ensures
        final(grid)@.len() == old(grid)@.len(),
        final(grid)@ == put(old(grid)@, cols as int, rows as int, x as int, y as int, painted(ch, fg, bold)),
{
    if x < cols && y < rows {
        let len = grid.len();
        assert(y * cols + x < len);
        let idx = y * cols + x;
        grid[idx] = TerminalCell { ch, fg, bg: (0, 0, 0), bold };
    }
}

/// Characters written past the right edge of the screen change nothing: writing
/// the whole text equals writing its first `k` characters once those reach the edge.
pub proof fn lemma_put_text_clipped(
    g: Seq<TerminalCell>,
    cols: int,
    rows: int,
    x: int,
    y: int,
    text: Seq<char>,
    fg: Rgb,
    bold: bool,
    k: int,
)
    requires
        0 <= k <= text.len(),
        x + k >= cols,
    ensures
        put_text(g, cols, rows, x, y, text, fg, bold) == put_text(g, cols, rows, x, y, text.take(k), fg, bold),
    decreases text.len(),
{
    if text.len() == k {
        assert(text.take(k) =~= text);
    } else {
        assert(text.drop_last().take(k) =~= text.take(k));
        lemma_put_text_clipped(g, cols, rows, x, y, text.drop_last(), fg, bold, k);
    }
}

/// Writes `text` left to right from `(x, y)`; characters past the screen edge are dropped.
pub fn draw_string_helper(
    grid: &mut [TerminalCell],
    cols: usize,
    rows: usize,
    x: usize,
    y: usize,
    text: &str,
    fg: (u8, u8, u8),
    bold: bool,
)
    requires
        text_writable(old(grid)@.len() as int, cols as int, rows as int, x as int, y as int, text@.len() as int),
    ensures
        final(grid)@.len() == old(grid)@.len(),
        final(grid)@ == put_text(old(grid)@, cols as int, rows as int, x as int, y as int, text@, fg, bold),
{
    let n = text.unicode_len();
    let room: usize = if x < cols { cols - x } else { 0 };
    let m: usize = if n <= room { n } else { room };
    let mut i: usize = 0;
    while i < m
        invariant
            n == text@.len(),
            m <= n,
            m <= room,
            room == (if x < cols { cols - x } else { 0 }),
            i <= m,
            grid@.len() == old(grid)@.len(),
            text_writable(grid@.len() as int, cols as int, rows as int, x as int, y as int, n as int),
            grid@ == put_text(old(grid)@, cols as int, rows as int, x as int, y as int, text@.take(i as int), fg, bold),
        decreases m - i,
    {
        let ch = text.get_char(i);
        assert(writable(grid@.len() as int, cols as int, rows as int, x + i, y as int));
        set_cell_helper(grid, cols, rows, x + i, y, ch, fg, bold);
        assert(text@.take(i + 1).drop_last() =~= text@.take(i as int));
        i += 1;
    }
    proof {
        if m == n {
            assert(text@.take(n as int) =~= text@);
        } else {
            lemma_put_text_clipped(old(grid)@, cols as int, rows as int, x as int, y as int, text@, fg, bold, m as int);
        }
    }
}

/// Pixel width of `cols` character columns `cell_w` pixels wide (the column count
/// taken as an `i32`).
pub fn width_px(cols: usize, cell_w: i32) -> (r: i32)
    requires
        i32::MIN <= (cols as i32) * cell_w <= i32::MAX,
    ensures
        r == (cols as i32) * cell_w,
{
    (cols as i32) * cell_w
}

/// Pixel height of `rows` character rows `cell_h` pixels high (the row count taken
/// as an `i32`).
pub fn height_px(rows: usize, cell_h: i32) -> (r: i32)
    requires
        i32::MIN <= (rows as i32) * cell_h <= i32::MAX,
    ensures
        r == (rows as i32) * cell_h,
{
    (rows as i32) * cell_h
}

/// Sets every cell of the grid to `cell`.
pub fn fill_grid(grid: &mut [TerminalCell], cell: TerminalCell)
    ensures
        final(grid)@ == filled(old(grid)@.len(), cell),
{
    let n = grid.len();
    let mut i: usize = 0;
    while i < n
        invariant
            n == grid@.len(),
            n == old(grid)@.len(),
            i <= n,
            forall|k: int| 0 <= k < i ==> grid@[k] == cell,
        decreases n - i,
    {
        grid[i] = cell;
        i += 1;
    }
    assert(grid@ =~= filled(old(grid)@.len(), cell));
}

/// Writes `n` copies of `ch` left to right from `(x, y)`.
pub fn draw_hline(
    grid: &mut [TerminalCell],
    cols: usize,
    rows: usize,
    x: usize,
    y: usize,
    n: usize,
    ch: char,
    fg: (u8, u8, u8),
    bold: bool,
)
    requires
        text_writable(old(grid)@.len() as int, cols as int, rows as int, x as int, y as int, n as int),
        x + n <= usize::MAX,
    ensures
        final(grid)@.len() == old(grid)@.len(),
        final(grid)@ == put_hline(old(grid)@, cols as int, rows as int, x as int, y as int, n as int, painted(ch, fg, bold)),
{
    let ghost len = grid@.len() as int;
    let mut i: usize = 0;
    while i < n
        invariant
            grid@.len() == len,
            text_writable(len, cols as int, rows as int, x as int, y as int, n as int),
            i <= n,
            x + n <= usize::MAX,
            grid@ == put_hline(old(grid)@, cols as int, rows as int, x as int, y as int, i as int, painted(ch, fg, bold)),
        decreases n - i,
    {
        assert(writable(len, cols as int, rows as int, x + i, y as int));
        set_cell_helper(grid, cols, rows, x + i, y, ch, fg, bold);
        i += 1;
    }
}

/// `a` is an end of the span from `lo` to `hi` or lies between them.
pub open spec fn in_span(a: int, lo: int, hi: int) -> bool {
    a == lo || a == hi || lo < a < hi
}

/// Every cell that the `w` by `h` border at `(x, y)` can write (its corners, edges
/// and title) either falls off the screen or lands inside the grid.
pub open spec fn border_writable(len: int, cols: int, rows: int, x: int, y: int, w: int, h: int) -> bool {
    forall|a: int, b: int|
        in_span(a, x, x + w - 1) && in_span(b, y, y + h - 1) ==> #[trigger] writable(len, cols, rows, a, b)
}

/// Draws the double-line frame of the `w` by `h` box at `(x, y)` and, when it fits,
/// its title centred on the top edge.
pub fn draw_border_helper(
    grid: &mut [TerminalCell],
    cols: usize,
    rows: usize,
    x: usize,
    y: usize,
    w: usize,
    h: usize,
    title: &str,
    fg: (u8, u8, u8),
)
    requires
        border_writable(old(grid)@.len() as int, cols as int, rows as int, x as int, y as int, w as int, h as int),
        1 <= x + w <= usize::MAX,
        1 <= y + h <= usize::MAX,
        x < usize::MAX,
        y < usize::MAX,
    ensures
        final(grid)@.len() == old(grid)@.len(),
        final(grid)@ == put_border(
            old(grid)@,
            cols as int,
            rows as int,
            x as int,
            y as int,
            w as int,
            h as int,
            title@,
            fg,
        ),
{
    let ghost g0 = grid@;
    let ghost len = grid@.len() as int;
    let right = x + w - 1;
    let bottom = y + h - 1;
    set_cell_helper(grid, cols, rows, x, y, '╔', fg, false);
    set_cell_helper(grid, cols, rows, right, y, '╗', fg, false);
    set_cell_helper(grid, cols, rows, x, bottom, '╚', fg, false);
    set_cell_helper(grid, cols, rows, right, bottom, '╝', fg, false);
    let ghost g4 = grid@;
    let mut cx = x + 1;
    while cx < right
        invariant
            grid@.len() == len,
            border_writable(len, cols as int, rows as int, x as int, y as int, w as int, h as int),
            x + 1 <= cx,
            cx <= right || cx == x + 1,
            right == x + w - 1,
            bottom == y + h - 1,
            grid@ == put_hedges(
                g4,
                cols as int,
                rows as int,
                x + 1,
                y as int,
                bottom as int,
                cx - (x + 1),
                painted('═', fg, false),
            ),
        decreases right - cx,
    {
        set_cell_helper(grid, cols, rows, cx, y, '═', fg, false);
        set_cell_helper(grid, cols, rows, cx, bottom, '═', fg, false);
        cx += 1;
    }
    let ghost g5 = grid@;
    assert(g5 == put_hedges(g4, cols as int, rows as int, x + 1, y as int, bottom as int, w - 2, painted('═', fg, false)));
    let mut cy = y + 1;
    while cy < bottom
        invariant
            grid@.len() == len,
            border_writable(len, cols as int, rows as int, x as int, y as int, w as int, h as int),
            right == x + w - 1,
            y + 1 <= cy,
            cy <= bottom || cy == y + 1,
            bottom == y + h - 1,
            grid@ == put_vedges(
                g5,
                cols as int,
                rows as int,
                x as int,
                right as int,
                y + 1,
                cy - (y + 1),
                painted('║', fg, false),
            ),
        decreases bottom - cy,
    {
        set_cell_helper(grid, cols, rows, x, cy, '║', fg, false);
        set_cell_helper(grid, cols, rows, right, cy, '║', fg, false);
        cy += 1;
    }
    assert(grid@ == put_frame(g0, cols as int, rows as int, x as int, y as int, w as int, h as int, fg));
    if !title.is_empty() {
        let mut padded = String::new();
        padded.append(" ");
        padded.append(title);
        padded.append(" ");
        proof {
            reveal_strlit(" ");
            assert(padded@ =~= title_text(title@));
        }
        let tl = padded.as_str().unicode_len();
        if w >= tl {
            let tx = x + (w - tl) / 2;
            assert forall|i: int| 0 <= i < tl implies #[trigger] writable(len, cols as int, rows as int, tx + i, y as int) by {
                assert(in_span(tx + i, x as int, x + w - 1));
                assert(in_span(y as int, y as int, y + h - 1));
            }
            draw_string_helper(grid, cols, rows, tx, y, padded.as_str(), fg, true);
        }
    }
}

} // verus!
