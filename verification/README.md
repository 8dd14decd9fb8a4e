# entity_info

Verified core of a per-tick entity information service for a tile-based game
world.

- `src/coord.rs`: packed tile coordinates (x and z in 14 bits each, level in
  2 bits), zones of 8 by 8 tiles, and the decision whether a move crosses into
  another zone.
- `src/npc.rs`: the npc record, its creation and its end-of-tick cleanup.
- `src/npcs.rs`: the table of npc slots and the operations the host calls on
  it each tick: add, remove, update, observer bookkeeping and cleanup.
- `src/player_grid.rs`: the players of the current tick grouped by the tile
  they stand on.
- `app/lib.rs`: JavaScript bindings that hold one table behind a lock.
