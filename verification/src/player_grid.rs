use vstd::prelude::*;

use crate::coord::CoordGrid;
use std::collections::HashMap;

verus! {

broadcast use vstd::std_specs::hash::group_hash_axioms;

/// The players of the current tick grouped by the tile they stand on, each
/// list in the order in which the players were recorded.
pub struct PlayerGrid {
    by_coord: HashMap<u32, Vec<i32>>,
}

impl View for PlayerGrid {
    type V = Map<u32, Seq<i32>>;

    closed spec fn view(&self) -> Map<u32, Seq<i32>> {
        self.by_coord@.map_values(|v: Vec<i32>| v@)
    }
}

/// The players recorded on the tile with packed coordinate `packed`.
pub open spec fn players_on(grid: Map<u32, Seq<i32>>, packed: u32) -> Seq<i32> {
    if grid.contains_key(packed) {
        grid[packed]
    } else {
        Seq::empty()
    }
}

impl PlayerGrid {
    /// An empty grid.
    pub fn new() -> (g: PlayerGrid)
        ensures
            g@ == Map::<u32, Seq<i32>>::empty(),
    {
        let g = PlayerGrid { by_coord: HashMap::with_capacity(2048) };
        assert(g@ =~= Map::<u32, Seq<i32>>::empty());
        g
    }

    /// Records player `pid` as standing on `coord`, after the players already
    /// recorded there.
    pub fn add_player(&mut self, coord: CoordGrid, pid: i32)
        ensures
            final(self)@ == old(self)@.insert(
                coord.packed,
                players_on(old(self)@, coord.packed).push(pid),
            ),
    {
        let key = coord.packed;
        let mut players = match self.by_coord.remove(&key) {
            Some(v) => v,
            None => Vec::new(),
        };
        players.push(pid);
        self.by_coord.insert(key, players);
        assert(self@ =~= old(self)@.insert(key, players_on(old(self)@, key).push(pid)));
    }

    /// The players recorded on `coord`, in the order they were recorded.
    pub fn players_at(&self, coord: CoordGrid) -> (r: &[i32])
        ensures
            r@ == players_on(self@, coord.packed),
    {
        match self.by_coord.get(&coord.packed) {
            Some(v) => v.as_slice(),
            None => &[],
        }
    }

    /// Forgets every recorded player.
    pub fn clear(&mut self)
        ensures
            final(self)@ == Map::<u32, Seq<i32>>::empty(),
    {
        self.by_coord.clear();
        assert(self@ =~= Map::<u32, Seq<i32>>::empty());
    }
}

/// Recording a player puts it last on its own tile and leaves every other
/// tile as it was; after a clear no tile holds anyone.
pub proof fn lemma_add_player_local(grid: Map<u32, Seq<i32>>, packed: u32, pid: i32, other: u32)
    ensures
        ({
            let after = grid.insert(packed, players_on(grid, packed).push(pid));
            &&& players_on(after, packed).last() == pid
            &&& players_on(after, packed).len() == players_on(grid, packed).len() + 1
            &&& other != packed ==> players_on(after, other) == players_on(grid, other)
        }),
        players_on(Map::<u32, Seq<i32>>::empty(), other) == Seq::<i32>::empty(),
{
}

/// A tile's list is what the grid holds for it, and a tile the grid does not
/// hold has nobody on it.
pub proof fn lemma_players_on_reads_grid(grid: Map<u32, Seq<i32>>, packed: u32)
    ensures
        grid.contains_key(packed) ==> players_on(grid, packed) == grid[packed],
        !grid.contains_key(packed) ==> players_on(grid, packed).len() == 0,
{
}

} // verus!
