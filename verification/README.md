# bounce

A terminal "dashboard" screensaver: a system-information panel, a scripted command
console that types and runs commands, and a small self-playing bunny-hop game, drawn
into a grid of character cells.

The library in `src/` is verified with Verus:

- `rng` – the seeded linear congruential generator.
- `grid` – character cells and the rasterizer (cells, text, lines, framed boxes),
  with laws on clipping and on which cells a drawing may change.
- `layout` – where the console and game panels go on a screen, and the width the
  game works with.
- `text`, `format` – character-sequence search and decimal/hexadecimal formatting.
- `console` – the scripted console as a state machine with its invariant.
- `game` – speed rules and the scoreboard of the game.
- `panel_console`, `panel_bhop`, `panel_sys_info`, `dashboard` – the panels and the
  whole screen, each with an exact description of the cells it draws.

`app/` holds the program around it: the operating-system queries, the frame timing
and the floating-point physics of the game, which hand plain values to the library.
