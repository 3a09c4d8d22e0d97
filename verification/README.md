# mc-entity

Entity rules for a block-world game — mobs, items, loot, progression — as a
library verified with Verus.

- `src/` is the verified library. Every function has a contract; the
  central properties (what merging drops conserves, what a spawn and a
  despawn undo, how levels and experience totals convert, what loot a table
  can drop, which advancements unlock) are stated as proof functions next
  to the code they are about. Values the game keeps as floats appear here as
  integers (hundredths, quarter seconds, half points, 24-bit fractions).
- `app/` holds the floating-point side: physics, timers, positions and
  render data, built on the library.
- `tests/` exercises the library on concrete values.

The only call that Verus takes on trust is the random draw of item counts
in `src/drops.rs`, which uses `rand`.
