# simple_game

The rules of a small wave-survival shooter, verified with Verus: actor stats
and status effects, effect triggers and how they apply (on cast, hit, end,
kill, death and damage), the clean-up of dead actors, projectile collisions,
class changes, game-state transitions, player input and connection handling,
and the descriptions shown to players.

Floating-point values are held by their single-precision bit patterns
(`float::Float`); comparisons, negation, `min` and `max` are decided exactly
on the patterns, while arithmetic and the decimal rendering of numbers are
left to the host program.

Layout:

- `src/` — the verified library (`src/lib.rs` lists the modules).
- `tests/` — tests of the library on concrete values.
- `app/` — the host side: `f32` conversion and rendering, the rules that
  compute with floating-point numbers or chance, asset formats (serde, ron)
  and the command line (clap).
