# dino_scooter

The game rules of a split-screen dino scooter racer, verified with Verus.

- `src/players.rs`: the player count buttons and the dino counter.
- `src/layout.rs`: the split-screen camera grid and the viewport of each cell.
- `src/controls.rs`: steering and throttle from the keys, and the thrust,
  damping and turning that follow from them.
- `src/text.rs`: decimal digits for names and labels.
- `src/spawn.rs`: what is spawned for each player of a round.
- `app/`: the Bevy game around the library (window, physics, rendering).
