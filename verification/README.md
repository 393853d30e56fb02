# world

Decision logic of a Screeps colony, verified with Verus.

- `src/` is the library. Each tick the game is read into plain snapshots
  (`CreepView`, `RoomView`, `TargetView`, world coordinates, object ids as
  `u128`) and the library answers with plans:
  - `lifecycle`: retiring creeps near the end of their life, the worker body
    and its cost, spawn requests and unique creep names, the memory sweep.
  - `combat`: which structures fire at hostiles.
  - `management`: the per-creep target store, target assignment by priority
    (`assign`), the step on a locked target and the answer to it (`perform`,
    `settle`), crowding checks (`path`) and structure predicates
    (`structures`).
  - `geometry`: world positions, nearness and range, computed by the
    `screeps-game-api` crate.
- `app/` is the wasm entry point: it reads the game, calls the library and
  issues the intents.
- `tests/` exercises the library on concrete snapshots.
