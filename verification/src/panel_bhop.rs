use vstd::prelude::*;
use crate::grid::{
    TerminalCell, Rgb, covers, put, put_text, put_hline, painted, lemma_covers_writable_all,
    draw_string_helper, set_cell_helper, draw_hline, writable,
};
use crate::format::{decimal, pad_right, push_decimal, push_padded_decimal};
use crate::game::BhopState;
use crate::layout::game_content_width;
use crate::grid::{group_grid_len, lemma_put_other, lemma_put_text_cells, lemma_hline_other, on_screen, cell_index};
use vstd::arithmetic::div_mod::{lemma_add_mod_noop, lemma_small_mod};

verus! {

/// What the game panel shows, read off the game state.
#[derive(Clone, Copy, PartialEq, Eq, Debug)]
pub struct GameView {
    /// Obstacles cleared this round.
    pub score: usize,
    /// Best score so far.
    pub best: usize,
    /// Current speed, in columns per second.
    pub speed: u32,
    /// Phase of the game.
    pub state: BhopState,
    /// Rows the runner is above the floor, rounded.
    pub player_lift: usize,
    /// The runner is in the air (more than a tenth of a row up).
    pub airborne: bool,
    /// Column of the obstacle on the track, rounded.
    pub obstacle_offset: usize,
    /// Scenery scroll position, in tenths of a second of elapsed time.
    pub scenery_tick: usize,
}

/// Dim grey of the track, floor and near scenery.
pub open spec fn track_grey() -> Rgb {
    (60u8, 60u8, 75u8)
}

/// Colour of the game-over runner and status.
pub open spec fn alert_orange() -> Rgb {
    (255u8, 120u8, 0u8)
}

/// `SCORE: ` and the score, padded to four characters.
pub open spec fn score_text(score: nat) -> Seq<char> {
    "SCORE: "@ + pad_right(decimal(score), 4)
}

/// `BEST: ` and the best score, padded to four characters.
pub open spec fn best_text(best: nat) -> Seq<char> {
    "BEST: "@ + pad_right(decimal(best), 4)
}

/// `SPEED: `, the speed and ` u/s`.
pub open spec fn speed_text(speed: nat) -> Seq<char> {
    "SPEED: "@ + decimal(speed) + " u/s"@
}

/// The status line for each phase and its colour.
pub open spec fn status_line(state: BhopState, teal: Rgb) -> (Seq<char>, Rgb) {
    match state {
        BhopState::Playing => ("STATUS: BUNNY HOPPING"@, teal),
        BhopState::Dead => ("STATUS: GAME OVER (CRASHED)"@, alert_orange()),
        BhopState::Respawning => ("STATUS: RE-SPAWNING..."@, (255u8, 255u8, 0u8)),
    }
}

/// The status line names the phase: bunny hopping in teal while playing, game over
/// in orange after a crash, re-spawning in yellow while waiting for the next round;
/// no two phases share a text.
pub proof fn lemma_status_names_phase(state: BhopState, other: BhopState, teal: Rgb)
    ensures
        status_line(BhopState::Playing, teal) == ("STATUS: BUNNY HOPPING"@, teal),
        status_line(BhopState::Dead, teal) == ("STATUS: GAME OVER (CRASHED)"@, (255u8, 120u8, 0u8)),
        status_line(BhopState::Respawning, teal) == ("STATUS: RE-SPAWNING..."@, (255u8, 255u8, 0u8)),
        state != other ==> status_line(state, teal).0 != status_line(other, teal).0,
{
    reveal_strlit("STATUS: BUNNY HOPPING");
    reveal_strlit("STATUS: GAME OVER (CRASHED)");
    reveal_strlit("STATUS: RE-SPAWNING...");
    let hop = "STATUS: BUNNY HOPPING"@;
    let over = "STATUS: GAME OVER (CRASHED)"@;
    let wait = "STATUS: RE-SPAWNING..."@;
    assert(hop[8] != over[8]);
    assert(hop.len() != wait.len());
    assert(over[8] != wait[8]);
}

/// Column offset of the status line within the game panel's content.
pub open spec fn status_offset(content: int) -> int {
    if content > 68 { 48 } else if content >= 25 { content - 25 } else { 0 }
}

/// The runner's glyph: smiling on the ground, grinning in the air, a skull after a crash.
pub open spec fn runner_glyph(state: BhopState, airborne: bool) -> char {
    match state {
        BhopState::Playing => if airborne { '☻' } else { '☺' },
        _ => '☠',
    }
}

/// The grid after the scrolling scenery of the first `n` track columns from `sx`:
/// a dot on row `sy` every 15 columns and a star two rows higher every 25 columns,
/// both shifted by `shift`.
pub open spec fn put_scenery(
    g: Seq<TerminalCell>,
    cols: int,
    rows: int,
    sx: int,
    sy: int,
    shift: int,
    n: int,
) -> Seq<TerminalCell>
    decreases n,
{
    if n <= 0 {
        g
    } else {
        let i = n - 1;
        let before = put_scenery(g, cols, rows, sx, sy, shift, n - 1);
        let with_dot = if (i + shift) % 15 == 0 {
            put(before, cols, rows, sx + i, sy, painted('.', track_grey(), false))
        } else {
            before
        };
        if (i + shift + 5) % 25 == 0 {
            put(with_dot, cols, rows, sx + i, sy - 2, painted('*', (40u8, 40u8, 50u8), false))
        } else {
            with_dot
        }
    }
}

/// Row of the floor of a game panel at row `y`, `h` rows high.
pub open spec fn floor_row(y: int, h: int) -> int {
    y + h - 3
}

/// The game panel's contents for the panel at `(x, y)`, `w` by `h`: score, best and
/// speed, the status line when it fits, the track and the floor, the runner, the
/// obstacle while playing, and the scenery.
pub open spec fn put_game_panel(
    g: Seq<TerminalCell>,
    cols: int,
    rows: int,
    game: GameView,
    x: int,
    y: int,
    w: int,
    h: int,
    blue: Rgb,
    teal: Rgb,
) -> Seq<TerminalCell> {
    let sx = x + 2;
    let sy = y + 1;
    let content = game_content_width(w);
    let g1 = put_text(g, cols, rows, sx, sy, score_text(game.score as nat), teal, true);
    let g2 = put_text(g1, cols, rows, sx + 15, sy, best_text(game.best as nat), teal, true);
    let g3 = put_text(g2, cols, rows, sx + 30, sy, speed_text(game.speed as nat), teal, false);
    let (status, status_color) = status_line(game.state, teal);
    let offset = status_offset(content);
    let g4 = if sx + offset + status.len() < x + w {
        put_text(g3, cols, rows, sx + offset, sy, status, status_color, true)
    } else {
        g3
    };
    let g5 = put_hline(g4, cols, rows, sx, sy + 2, content, painted('═', track_grey(), false));
    let floor = floor_row(y, h);
    let g6 = put_hline(g5, cols, rows, sx, floor, content, painted('▀', track_grey(), false));
    let player_y = if floor - 1 >= game.player_lift { floor - 1 - game.player_lift } else { 0 };
    let player_color = if game.state == BhopState::Playing { blue } else { alert_orange() };
    let g7 = if player_y < rows {
        put(g6, cols, rows, sx + 6, player_y, painted(runner_glyph(game.state, game.airborne), player_color, true))
    } else {
        g6
    };
    let g8 = if game.state == BhopState::Playing && game.obstacle_offset < content {
        put(g7, cols, rows, sx + game.obstacle_offset, floor - 1, painted('▲', teal, true))
    } else {
        g7
    };
    let shift = (game.scenery_tick as int) % (if content >= 1 { content } else { 1 });
    put_scenery(g8, cols, rows, sx, floor - 4, shift, content)
}

/// Draws the game panel's contents inside the panel at `(bhop_x, bhop_y)`,
/// `bhop_w` by `bhop_h`.
/// The grid must hold every cell of the `cols` by `rows` screen, as the screen
/// buffer it is drawn into always does; a shorter grid is not accepted even where
/// no on-screen write would reach past its end.
pub fn draw_bhop_panel(
    game: &GameView,
    grid: &mut [TerminalCell],
    cols: usize,
    rows: usize,
    bhop_x: usize,
    bhop_y: usize,
    bhop_w: usize,
    bhop_h: usize,
    blue: (u8, u8, u8),
    teal: (u8, u8, u8),
)
    requires
        covers(old(grid)@.len() as int, cols as int, rows as int),
        bhop_x + bhop_w <= usize::MAX,
        bhop_x + 32 <= usize::MAX,
        bhop_y + bhop_h <= usize::MAX + 1,
        5 <= bhop_h,
        7 <= bhop_y + bhop_h,
    ensures
        final(grid)@.len() == old(grid)@.len(),
        final(grid)@ == put_game_panel(
            old(grid)@, cols as int, rows as int, *game, bhop_x as int, bhop_y as int,
            bhop_w as int, bhop_h as int, blue, teal,
        ),
{
    let ghost g0 = grid@;
    let ghost len = grid@.len() as int;
    proof {
        lemma_covers_writable_all(len, cols as int, rows as int);
    }
    let orange = (255u8, 120u8, 0u8);
    let grey = (60u8, 60u8, 75u8);
    let sx = bhop_x + 2;
    let sy = bhop_y + 1;
    let content: usize = if bhop_w >= 4 { bhop_w - 4 } else { 0 };
    let panel_h = bhop_h - 2;

    let mut score = String::from_str("SCORE: ");
    push_padded_decimal(&mut score, game.score as u64, 4);
    let mut best = String::from_str("BEST: ");
    push_padded_decimal(&mut best, game.best as u64, 4);
    let mut speed = String::from_str("SPEED: ");
    push_decimal(&mut speed, game.speed as u64);
    speed.append(" u/s");
    proof {
        reveal_strlit("SCORE: ");
        reveal_strlit("BEST: ");
        reveal_strlit("SPEED: ");
        reveal_strlit(" u/s");
        assert(score@ =~= score_text(game.score as nat));
        assert(best@ =~= best_text(game.best as nat));
        assert(speed@ =~= speed_text(game.speed as nat));
    }
    draw_string_helper(grid, cols, rows, sx, sy, score.as_str(), teal, true);
    draw_string_helper(grid, cols, rows, sx + 15, sy, best.as_str(), teal, true);
    draw_string_helper(grid, cols, rows, sx + 30, sy, speed.as_str(), teal, false);

    let (status, status_color): (&str, (u8, u8, u8)) = match game.state {
        BhopState::Playing => ("STATUS: BUNNY HOPPING", teal),
        BhopState::Dead => ("STATUS: GAME OVER (CRASHED)", orange),
        BhopState::Respawning => ("STATUS: RE-SPAWNING...", (255, 255, 0)),
    };
    proof {
        reveal_strlit("STATUS: BUNNY HOPPING");
        reveal_strlit("STATUS: GAME OVER (CRASHED)");
        reveal_strlit("STATUS: RE-SPAWNING...");
    }
    let offset: usize = if content > 68 { 48 } else { content.saturating_sub(25) };
    let status_len = status.unicode_len();
    if status_len + 2 < bhop_w && offset < bhop_w - status_len - 2 {
        draw_string_helper(grid, cols, rows, sx + offset, sy, status, status_color, true);
    }

    draw_hline(grid, cols, rows, sx, sy + 2, content, '═', grey, false);
    let game_h = panel_h - 3;
    let floor_y = sy + 3 + game_h - 2;
    draw_hline(grid, cols, rows, sx, floor_y, content, '▀', grey, false);

    let player_gx = sx + 6;
    let player_gy = (floor_y - 1).saturating_sub(game.player_lift);
    let player_char = match game.state {
        BhopState::Playing => if game.airborne { '☻' } else { '☺' },
        _ => '☠',
    };
    let player_color = match game.state {
        BhopState::Playing => blue,
        _ => orange,
    };
    if player_gy < rows {
        set_cell_helper(grid, cols, rows, player_gx, player_gy, player_char, player_color, true);
    }

    match game.state {
        BhopState::Playing => {
            if game.obstacle_offset < content {
                set_cell_helper(grid, cols, rows, sx + game.obstacle_offset, floor_y - 1, '▲', teal, true);
            }
        },
        _ => {},
    }

    let scenery_y = floor_y - 4;
    let period: usize = if content >= 1 { content } else { 1 };
    let shift = game.scenery_tick % period;
    let ghost g8 = grid@;
    let mut i: usize = 0;
    while i < content
        invariant
            grid@.len() == len,
            forall|a: int, b: int| #[trigger] writable(len, cols as int, rows as int, a, b),
            i <= content,
            content <= bhop_w,
            bhop_x + bhop_w <= usize::MAX,
            content + 4 <= bhop_w || content == 0,
            sx == bhop_x + 2,
            sx <= usize::MAX - 30,
            shift < period,
            grey == track_grey(),
            grid@ == put_scenery(g8, cols as int, rows as int, sx as int, scenery_y as int, shift as int, i as int),
        decreases content - i,
    {
        proof {
            lemma_add_mod_noop(i as int, shift as int, 15);
            lemma_small_mod(5, 25);
            lemma_add_mod_noop(shift as int, 5, 25);
            lemma_add_mod_noop(i as int, shift + 5, 25);
        }
        if (i % 15 + shift % 15) % 15 == 0 {
            set_cell_helper(grid, cols, rows, sx + i, scenery_y, '.', grey, false);
        }
        if (i % 25 + (shift % 25 + 5) % 25) % 25 == 0 && scenery_y >= 2 {
            set_cell_helper(grid, cols, rows, sx + i, scenery_y - 2, '*', (40, 40, 50), false);
        }
        i += 1;
    }
}

/// The scenery leaves every cell off its two rows as it was.
proof fn lemma_scenery_other(
    g: Seq<TerminalCell>,
    cols: int,
    rows: int,
    sx: int,
    sy: int,
    shift: int,
    n: int,
    cx: int,
    cy: int,
)
    requires
        covers(g.len() as int, cols, rows),
        on_screen(cols, rows, cx, cy),
        cy != sy,
        cy != sy - 2,
    ensures
        put_scenery(g, cols, rows, sx, sy, shift, n)[cell_index(cols, cx, cy)] == g[cell_index(cols, cx, cy)],
        put_scenery(g, cols, rows, sx, sy, shift, n).len() == g.len(),
    decreases n,
{
    if n > 0 {
        let i = n - 1;
        let before = put_scenery(g, cols, rows, sx, sy, shift, n - 1);
        lemma_scenery_other(g, cols, rows, sx, sy, shift, n - 1, cx, cy);
        lemma_put_other(before, cols, rows, sx + i, sy, painted('.', track_grey(), false), cx, cy);
        let with_dot = if (i + shift) % 15 == 0 {
            put(before, cols, rows, sx + i, sy, painted('.', track_grey(), false))
        } else {
            before
        };
        lemma_put_other(with_dot, cols, rows, sx + i, sy - 2, painted('*', (40u8, 40u8, 50u8), false), cx, cy);
    }
}

/// The game panel's contents leave its top row, the row of its frame, as it was,
/// but for the runner's cell when a high jump lifts the runner up to that row; this
/// holds for a panel at least ten rows high, where the track, the floor, the
/// obstacle and the scenery all lie below that row.
pub proof fn lemma_game_panel_keeps_top_row(
    g: Seq<TerminalCell>,
    cols: int,
    rows: int,
    game: GameView,
    x: int,
    y: int,
    w: int,
    h: int,
    blue: Rgb,
    teal: Rgb,
    cx: int,
)
    requires
        covers(g.len() as int, cols, rows),
        on_screen(cols, rows, cx, y),
        10 <= h,
        !(cx == x + 8 && y == (if floor_row(y, h) - 1 >= game.player_lift {
            floor_row(y, h) - 1 - game.player_lift
        } else {
            0
        })),
    ensures
        put_game_panel(g, cols, rows, game, x, y, w, h, blue, teal)[cell_index(cols, cx, y)] == g[cell_index(cols, cx, y)],
{
    broadcast use group_grid_len;

    let sx = x + 2;
    let sy = y + 1;
    let content = game_content_width(w);
    let g1 = put_text(g, cols, rows, sx, sy, score_text(game.score as nat), teal, true);
    let g2 = put_text(g1, cols, rows, sx + 15, sy, best_text(game.best as nat), teal, true);
    let g3 = put_text(g2, cols, rows, sx + 30, sy, speed_text(game.speed as nat), teal, false);
    let (status, status_color) = status_line(game.state, teal);
    let offset = status_offset(content);
    lemma_put_text_cells(g, cols, rows, sx, sy, score_text(game.score as nat), teal, true, cx, y);
    lemma_put_text_cells(g1, cols, rows, sx + 15, sy, best_text(game.best as nat), teal, true, cx, y);
    lemma_put_text_cells(g2, cols, rows, sx + 30, sy, speed_text(game.speed as nat), teal, false, cx, y);
    lemma_put_text_cells(g3, cols, rows, sx + offset, sy, status, status_color, true, cx, y);
    let g4 = if sx + offset + status.len() < x + w {
        put_text(g3, cols, rows, sx + offset, sy, status, status_color, true)
    } else {
        g3
    };
    let g5 = put_hline(g4, cols, rows, sx, sy + 2, content, painted('═', track_grey(), false));
    lemma_hline_other(g4, cols, rows, sx, sy + 2, content, painted('═', track_grey(), false), cx, y);
    let floor = floor_row(y, h);
    let g6 = put_hline(g5, cols, rows, sx, floor, content, painted('▀', track_grey(), false));
    lemma_hline_other(g5, cols, rows, sx, floor, content, painted('▀', track_grey(), false), cx, y);
    let player_y = if floor - 1 >= game.player_lift { floor - 1 - game.player_lift } else { 0 };
    let player_color = if game.state == BhopState::Playing { blue } else { alert_orange() };
    let runner = painted(runner_glyph(game.state, game.airborne), player_color, true);
    lemma_put_other(g6, cols, rows, sx + 6, player_y, runner, cx, y);
    let g7 = if player_y < rows { put(g6, cols, rows, sx + 6, player_y, runner) } else { g6 };
    lemma_put_other(g7, cols, rows, sx + game.obstacle_offset, floor - 1, painted('▲', teal, true), cx, y);
    let g8 = if game.state == BhopState::Playing && game.obstacle_offset < content {
        put(g7, cols, rows, sx + game.obstacle_offset, floor - 1, painted('▲', teal, true))
    } else {
        g7
    };
    let shift = (game.scenery_tick as int) % (if content >= 1 { content } else { 1 });
    lemma_scenery_other(g8, cols, rows, sx, floor - 4, shift, content, cx, y);
}

/// The game panel shows the phase's status line on its first content row (row
/// `y + 1`), from the status column on, in the phase's colour and in bold, whenever
/// the line fits before the right edge of the panel. Only the runner's cell, the
/// obstacle's cell, and the floor and scenery rows, where a panel too low to keep
/// them below that row puts them, may cover one of its characters.
pub proof fn lemma_game_panel_shows_status(
    g: Seq<TerminalCell>,
    cols: int,
    rows: int,
    game: GameView,
    x: int,
    y: int,
    w: int,
    h: int,
    blue: Rgb,
    teal: Rgb,
    cx: int,
)
    requires
        covers(g.len() as int, cols, rows),
        on_screen(cols, rows, cx, y + 1),
    ensures
        ({
            let status = status_line(game.state, teal).0;
            let color = status_line(game.state, teal).1;
            let sx = x + 2;
            let start = sx + status_offset(game_content_width(w));
            let floor = floor_row(y, h);
            let runner_y = if floor - 1 >= game.player_lift { floor - 1 - game.player_lift } else { 0 };
            let covered = (cx == sx + 6 && y + 1 == runner_y) || (cx == sx + game.obstacle_offset && y + 1
                == floor - 1) || y + 1 == floor || y + 1 == floor - 4 || y + 1 == floor - 6;
            (start + status.len() < x + w && start <= cx < start + status.len() && !covered) ==> put_game_panel(
                g,
                cols,
                rows,
                game,
                x,
                y,
                w,
                h,
                blue,
                teal,
            )[cell_index(cols, cx, y + 1)] == painted(status[cx - start], color, true)
        }),
{
    broadcast use group_grid_len;

    let sx = x + 2;
    let sy = y + 1;
    let content = game_content_width(w);
    let g1 = put_text(g, cols, rows, sx, sy, score_text(game.score as nat), teal, true);
    let g2 = put_text(g1, cols, rows, sx + 15, sy, best_text(game.best as nat), teal, true);
    let g3 = put_text(g2, cols, rows, sx + 30, sy, speed_text(game.speed as nat), teal, false);
    let (status, status_color) = status_line(game.state, teal);
    let offset = status_offset(content);
    lemma_put_text_cells(g3, cols, rows, sx + offset, sy, status, status_color, true, cx, sy);
    let g4 = if sx + offset + status.len() < x + w {
        put_text(g3, cols, rows, sx + offset, sy, status, status_color, true)
    } else {
        g3
    };
    let floor = floor_row(y, h);
    let player_y = if floor - 1 >= game.player_lift { floor - 1 - game.player_lift } else { 0 };
    let covered = (cx == sx + 6 && sy == player_y) || (cx == sx + game.obstacle_offset && sy == floor - 1) || sy
        == floor || sy == floor - 4 || sy == floor - 6;
    if !covered {
        let g5 = put_hline(g4, cols, rows, sx, sy + 2, content, painted('═', track_grey(), false));
        lemma_hline_other(g4, cols, rows, sx, sy + 2, content, painted('═', track_grey(), false), cx, sy);
        let g6 = put_hline(g5, cols, rows, sx, floor, content, painted('▀', track_grey(), false));
        lemma_hline_other(g5, cols, rows, sx, floor, content, painted('▀', track_grey(), false), cx, sy);
        let player_color = if game.state == BhopState::Playing { blue } else { alert_orange() };
        let runner = painted(runner_glyph(game.state, game.airborne), player_color, true);
        lemma_put_other(g6, cols, rows, sx + 6, player_y, runner, cx, sy);
        let g7 = if player_y < rows { put(g6, cols, rows, sx + 6, player_y, runner) } else { g6 };
        lemma_put_other(g7, cols, rows, sx + game.obstacle_offset, floor - 1, painted('▲', teal, true), cx, sy);
        let g8 = if game.state == BhopState::Playing && game.obstacle_offset < content {
            put(g7, cols, rows, sx + game.obstacle_offset, floor - 1, painted('▲', teal, true))
        } else {
            g7
        };
        let shift = (game.scenery_tick as int) % (if content >= 1 { content } else { 1 });
        lemma_scenery_other(g8, cols, rows, sx, floor - 4, shift, content, cx, sy);
    }
}

/// Drawing the scenery keeps the grid's length.
pub broadcast proof fn lemma_put_scenery_len(
    g: Seq<TerminalCell>,
    cols: int,
    rows: int,
    sx: int,
    sy: int,
    shift: int,
    n: int,
)
    requires
        covers(g.len() as int, cols, rows),
    ensures
        #[trigger] put_scenery(g, cols, rows, sx, sy, shift, n).len() == g.len(),
    decreases n,
{
    if n > 0 {
        lemma_put_scenery_len(g, cols, rows, sx, sy, shift, n - 1);
        broadcast use group_grid_len;
    }
}

/// Drawing the game panel keeps the grid's length.
pub proof fn lemma_put_game_panel_len(
    g: Seq<TerminalCell>,
    cols: int,
    rows: int,
    game: GameView,
    x: int,
    y: int,
    w: int,
    h: int,
    blue: Rgb,
    teal: Rgb,
)
    requires
        covers(g.len() as int, cols, rows),
    ensures
        put_game_panel(g, cols, rows, game, x, y, w, h, blue, teal).len() == g.len(),
{
    broadcast use group_grid_len, lemma_put_scenery_len;
}

} // verus!
