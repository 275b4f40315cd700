# yet_another_vampire_survivor_clone

The rules of a small survivor-style game, as a Verus-verified library.

- `src/` holds the game's discrete logic with its contracts and laws: weapon and upgrade tables,
  ammunition and attack patterns, projectile hit bookkeeping, experience and levels, loot tables
  and the random draws of the level-up and weapon-upgrade screens, the texts of the HUD, waves
  and gems. Random choices go through `rand`, behind the trusted items of `src/random.rs`.
- `app/` is a small headless program around the library: it reads `assets/items.ron`, keeps the
  floating-point statistics and geometry, and prints what the upgrade screens would offer.
- `tests/` runs the library on concrete values.
