# racing_game

The rules of a retro top-down racing game, verified with Verus: scoring and
combos, difficulty levels, lives and invincibility, obstacles and collisions,
power-ups and their timed effects, achievements, game modes, settings and
the save format's values, and the screen-to-screen state machine.

- `src/` is the verified library. Every quantity is an integer with a fixed
  unit: milliseconds for time, percent for multipliers, volumes and colours,
  thousandths of a pixel for positions and sizes. Random choices go through
  `rand`, behind the trusted items in `src/random.rs`.
- `tests/` runs the library on concrete values.
- `app/` is the game itself on the Bevy engine: windows, input, drawing,
  sound, particles, the JSON save file, and the floating-point motion that
  only the renderer needs. It converts between the engine's floats and the
  library's units and asks the library for every rule.
