# falling_tetromino_engine

A tetromino stacker engine whose game logic is verified with Verus.

The engine simulates a board of 10 × 32 cells on which tetrominoes spawn,
fall, are moved, rotated, held and locked, and full lines are cleared. A game
advances along an in-game timeline (nanoseconds): `Game::update` handles, in
order, every event due up to a target time and applies a player input at that
time, returning timestamped notifications.

## Layout

- `src/pieces.rs` — tetrominoes, orientations, pieces and the board geometry.
- `src/rotation.rs` — the rotation systems and their kick tables.
- `src/durations.rs`, `src/delays.rs` — extended durations, fixed-point
  factors, and the fall and lock delay curves.
- `src/controls.rs` — buttons, inputs and the held-button state.
- `src/rng.rs` — the random number generator (`rand_chacha`) and the random
  draws taken from it (`rand`).
- `src/generation.rs` — the tetromino generators (reroll, stock/bag,
  balance-out, recency).
- `src/game.rs` — configuration, state, phases, limits and notifications.
- `src/engine.rs` — the event handlers: spawning, player input, automatic
  shifts, falling, locking and line clearing.
- `src/game_update.rs` — reading a game, the update loop and forfeiting.
- `src/game_building.rs` — the game builder.
- `app/lib.rs` — conversions to and from `std::time::Duration`, `f64` and
  `either::Either`, and serde-enabled copies of plain types.

Times are whole nanoseconds (`u64`); scaling factors are fixed-point
millionths (`Factor`).

## Scope

The engine has no compile-time modding: there are no game modifiers, no
update hooks and no modded build. The tetromino generators and rotation
systems are fixed enums (`StdTetGen`, `RotationSystem`) rather than traits for
users to implement.
