# korman_screeps_bot

The decision logic of a Screeps bot, verified with Verus.

- `src/` is the library. Each game-facing routine is a decision function:
  it takes what was read from the game and returns the next action, so the
  whole tick's behaviour is stated in its contract.
  - `creep`, `game_logic::creep_logic`: a creep's tick (keep, drop or pick a
    target; upgrade, harvest or move).
  - `movement`: directions and the fallbacks used to move a creep.
  - `game_logic::spawning`, `systems`: spawn planning, creep naming and the
    cleanup of remembered creeps.
  - `table`: the per-creep target table; `position`, `body`, `naming`:
    positions, body part costs and creep names.
- `app/` holds the game entry point and the drivers that read the game, call
  the decision functions and carry out their actions.
- `tests/` runs the library on concrete values.
