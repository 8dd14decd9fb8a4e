//! Verified core of the per-tick entity information of a tile-based game
//! world: packed tile coordinates and zones, npc records and the npc table,
//! and the grid of players by tile.

pub mod coord;
pub mod npc;
pub mod npcs;
pub mod player_grid;
