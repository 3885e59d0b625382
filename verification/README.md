# neon_blue

The game rules of the Neon Blue pinball machine, verified with Verus.

Every playfield system of the game is a plain state machine: it takes the
machine's events as `Signal`s and answers with the `Action`s the host must
perform (points, sounds, music, timers, LED programs, coils, other systems).
Each public function states in its contract what it answers and how its state
changes; laws that span calls (the mode manager hands the playfield to one
mode at a time, the scoop offers modes in the order they qualified, the
attract screens rotate back to where they started, ...) are proof functions
beside the code they speak of.

Layout:

- `src/signals.rs`, `src/effects.rs`: the events, actions and LED programs
  the rules speak in.
- `src/dmd/`: the attract screens and score screens of the dot-matrix display.
- `src/game/`: the modes, their qualifications and starters, the mode manager,
  city coverage and spores, skill shots, end of ball.
- `src/chance.rs`: the random draws, through `rand`.
- `tests/`: scenarios on concrete values.
- `app/`: the host on the frontbox framework: it turns framework events into
  signals, performs actions, builds the LED programs and draws the display.
