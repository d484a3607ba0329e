# blobo_party

The rules of Blobo Party, a rhythm roguelite, as a Verus-verified library,
with the Bevy game around it.

- `src/` — the verified library. Each module holds one part of the rules
  with its contracts and laws: `beat` (eighth-beat counting and the
  every-n-beats condition), `card_deck` and `queued_deck` (decks and their
  cursors), `deck_dock` (reordering cards), `level`, `stats`, `spawner`
  (waves of enemies), `cleanup` (beat countdowns), `sprite` (beat-driven
  animation), `faction` (collision layers), `combat` (hits), `stepping`
  (the debug stepping overlay), `theme`, `schedule`, `progress`, `names`,
  `health` and `spotlight` (colour ramps), `backup`, and `random` (the calls
  into `rand`).
- `tests/` — tests on concrete values.
- `app/` — the Bevy game: it reads the ECS world, calls the library and
  applies the results; floating-point gameplay lives there.
