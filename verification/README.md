# Soul Bomb Monster Hunt — verified rules

The rules of the game, as a Verus library (`src/`), and the Bevy application
around them (`app/`).

- `src/functionality_override.rs`: the debug switches (bombs in the middle,
  one-second fuses, monsters that stay put, never attack or flee, never
  collide, or come alone), all off in the game as played.
- `src/timers.rs`: the timers the rules start (what they act on, how long they
  run, what they announce when done, their place in a sequence).
- `src/game/bombs/`: the life of a bomb (colours, growing and the spot it
  spawns at, picking up with its pull and countdown timers, throwing, the
  countdown text, contact with monsters, explosions and what they reach, score
  and game over).
- `src/game/monsters/`: what a monster hears and the state it takes (chase the
  last player it hears, flee the bomb closest to going off, wander), state-change
  visuals and cries, the fade-in timer and collider of a new monster, its
  looping main path, stray paths (the timer they replace, the two timers they
  start, and their end), spawn spots, path shapes, animation frames and error
  messages.
- `src/game/bounds_wrapped_logic/`: wrap-around at the screen's edges.
- `src/game/event_channels.rs`, `src/game/game_event_handler.rs`: game events
  carried by timers, and restarts (which entities they clear, and that those
  there before the game are spared).
- `src/decimal.rs`: reading and writing the countdown's whole seconds, with the
  round trip proved.
- `src/selection.rs`: the "first least key" scan used to pick the closest bomb
  and the most dangerous bomb.
- `src/float_bits.rs`: binary32 values carried by their bit patterns. The rules
  only compare, negate and pass on positions, distances and times; those
  operations are exact on the bit pattern and are proved here to order values
  as `f32` does. All arithmetic on them (distances, interpolation, random
  coordinates) is done by the engine in `app/`.
- `src/random.rs`: the two calls into `rand` the rules make; `src/entity.rs`:
  entity handles, and the engine's debug text of one.
- `app/timers.rs`: the engine side of timers, which runs what the rules ask
  for.

`tests/` runs the library on concrete values, including the laws proved in
`src/`.
