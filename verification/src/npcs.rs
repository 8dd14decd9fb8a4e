use vstd::prelude::*;

use crate::coord::{changes_zone, pack, zone_changed, CoordGrid};
use crate::npc::Npc;

verus! {

/// Number of npc slots in a table.
pub const MAX_NPCS: usize = 16384;

/// The npcs of a world, each in the slot of its index; an empty slot is `None`.
pub struct NpcTable {
    slots: Vec<Option<Npc>>,
}

/// What `compute_npc` did, and what is left for the caller: an npc that was
/// updated gets its rendering refreshed, and one that moved to another zone
/// leaves the zone of `from` for the zone of `to`.
#[derive(Clone, Copy, Debug, PartialEq, Eq, Structural)]
pub enum NpcUpdate {
    Skipped,
    Updated,
    Moved { from: CoordGrid, to: CoordGrid },
}

impl View for NpcTable {
    type V = Seq<Option<Npc>>;

    closed spec fn view(&self) -> Seq<Option<Npc>> {
        self.slots@
    }
}

/// Whether `nid` names a slot of `slots`.
pub open spec fn holds_slot(slots: Seq<Option<Npc>>, nid: i32) -> bool {
    0 <= nid < slots.len()
}

/// Whether the slot named by `nid` holds an npc.
pub open spec fn occupied(slots: Seq<Option<Npc>>, nid: i32) -> bool {
    holds_slot(slots, nid) && slots[nid as int] is Some
}

/// The slots after adding npc `nid` of type `ntype`: a fresh npc replaces
/// whatever the slot held; `-1` for either, or an index outside the table,
/// changes nothing.
pub open spec fn after_add(slots: Seq<Option<Npc>>, nid: i32, ntype: i32) -> Seq<Option<Npc>> {
    if nid == -1 || ntype == -1 || !holds_slot(slots, nid) {
        slots
    } else {
        slots.update(nid as int, Some(Npc::spawned(nid, ntype)))
    }
}

/// The slots after removing npc `nid`: its slot is emptied.
pub open spec fn after_remove(slots: Seq<Option<Npc>>, nid: i32) -> Seq<Option<Npc>> {
    if nid == -1 || !holds_slot(slots, nid) {
        slots
    } else {
        slots.update(nid as int, None)
    }
}

/// The observer count reported for npc `nid`: that of the npc in its slot,
/// cut to an `i32`, or 0 where there is none.
pub open spec fn observers_of(slots: Seq<Option<Npc>>, nid: i32) -> i32 {
    if nid != -1 && occupied(slots, nid) {
        slots[nid as int].unwrap().observers as i32
    } else {
        0
    }
}

/// A slot at the end of a tick: its npc, if any, cleaned up.
pub open spec fn cleaned_slot(slot: Option<Npc>) -> Option<Npc> {
    match slot {
        Some(n) => Some(n.cleaned()),
        None => None,
    }
}

/// How many times `v` occurs in `s`.
pub open spec fn occurrences(s: Seq<i32>, v: int) -> nat
    decreases s.len(),
{
    if s.len() == 0 {
        0
    } else {
        occurrences(s.drop_last(), v) + if s.last() == v {
            1nat
        } else {
            0nat
        }
    }
}

/// A slot whose npc lost `k` observers, never going below none.
pub open spec fn released_slot(slot: Option<Npc>, k: nat) -> Option<Npc> {
    match slot {
        Some(n) => Some(
            Npc {
                observers: if n.observers >= k {
                    (n.observers - k) as usize
                } else {
                    0usize
                },
                ..n
            },
        ),
        None => None,
    }
}

impl NpcTable {
    /// A table of `MAX_NPCS` empty slots.
    pub fn new() -> (t: NpcTable)
        ensures
            t@.len() == MAX_NPCS,
            forall|i: int| 0 <= i < t@.len() ==> t@[i] is None,
    {
        let mut slots: Vec<Option<Npc>> = Vec::new();
        while slots.len() < MAX_NPCS
            invariant
                slots@.len() <= MAX_NPCS,
                forall|i: int| 0 <= i < slots@.len() ==> slots@[i] is None,
            decreases MAX_NPCS - slots@.len(),
        {
            slots.push(None);
        }
        NpcTable { slots }
    }

    /// The number of slots.
    pub fn len(&self) -> (r: usize)
        ensures
            r == self@.len(),
    {
        self.slots.len()
    }

    /// Puts `slot` into slot `nid`, if the table has that slot.
    pub fn set(&mut self, nid: i32, slot: Option<Npc>)
        ensures
            final(self)@ == (if holds_slot(old(self)@, nid) {
                old(self)@.update(nid as int, slot)
            } else {
                old(self)@
            }),
    {
        if 0 <= nid && (nid as usize) < self.slots.len() {
            self.slots.set(nid as usize, slot);
        }
    }

    /// The npc in slot `nid`, if the slot exists and holds one.
    pub fn get(&self, nid: i32) -> (r: Option<&Npc>)
        ensures
            r == (if occupied(self@, nid) {
                Some(&self@[nid as int].unwrap())
            } else {
                None
            }),
    {
        if nid < 0 || nid as usize >= self.slots.len() {
            return None;
        }
        match &self.slots[nid as usize] {
            Some(n) => Some(n),
            None => None,
        }
    }
}

/// Puts a fresh npc of type `ntype` into slot `nid`.
pub fn add_npc(npcs: &mut NpcTable, nid: i32, ntype: i32)
    ensures
        final(npcs)@ == after_add(old(npcs)@, nid, ntype),
        final(npcs)@.len() == old(npcs)@.len(),
        nid != -1 && ntype != -1 && 0 <= nid < old(npcs)@.len() ==> final(npcs)@[nid as int]
            == Some(Npc::spawned(nid, ntype)),
        forall|j: int|
            0 <= j < old(npcs)@.len() && j != nid ==> #[trigger] final(npcs)@[j] == old(npcs)@[j],
{
    if nid == -1 || ntype == -1 {
        return ;
    }
    if nid < 0 || nid as usize >= npcs.slots.len() {
        return ;
    }
    npcs.slots.set(nid as usize, Some(Npc::new(nid, ntype)));
}

/// Empties slot `nid` and hands back the npc that was in it, whose position
/// tells the caller which zone to take it out of.
pub fn remove_npc(npcs: &mut NpcTable, nid: i32) -> (r: Option<Npc>)
    ensures
        final(npcs)@ == after_remove(old(npcs)@, nid),
        r == (if nid != -1 && holds_slot(old(npcs)@, nid) {
            old(npcs)@[nid as int]
        } else {
            None
        }),
        final(npcs)@.len() == old(npcs)@.len(),
        0 <= nid < old(npcs)@.len() ==> final(npcs)@[nid as int] is None && r == old(
            npcs,
        )@[nid as int],
        !(0 <= nid < old(npcs)@.len()) ==> r is None,
        forall|j: int|
            0 <= j < old(npcs)@.len() && j != nid ==> #[trigger] final(npcs)@[j] == old(npcs)@[j],
{
    if nid == -1 {
        return None;
    }
    if nid < 0 || nid as usize >= npcs.slots.len() {
        return None;
    }
    let idx = nid as usize;
    npcs.slots[idx].take()
}

/// The number of players that currently observe npc `nid`.
pub fn get_npc_observers(npcs: &NpcTable, nid: i32) -> (r: i32)
    ensures
        r == observers_of(npcs@, nid),
        0 <= nid < npcs@.len() && npcs@[nid as int] is Some ==> r == npcs@[nid as int].unwrap().observers as i32,
        !(0 <= nid < npcs@.len() && npcs@[nid as int] is Some) ==> r == 0,
{
    if nid == -1 {
        return 0;
    }
    match npcs.get(nid) {
        Some(n) => n.observers as i32,
        None => 0,
    }
}

/// Ends the tick for every npc of the table.
pub fn cleanup_npcs(npcs: &mut NpcTable)
    ensures
        final(npcs)@.len() == old(npcs)@.len(),
        forall|i: int|
            0 <= i < old(npcs)@.len() ==> #[trigger] final(npcs)@[i] == cleaned_slot(old(npcs)@[i]),
        forall|i: int|
            0 <= i < old(npcs)@.len() ==> (#[trigger] final(npcs)@[i] is Some <==> old(
                npcs,
            )@[i] is Some),
        forall|i: int|
            0 <= i < old(npcs)@.len() && old(npcs)@[i] is Some ==> #[trigger] final(npcs)@[i]
                == Some(old(npcs)@[i].unwrap().cleaned()),
{
    let n = npcs.slots.len();
    let mut i: usize = 0;
    while i < n
        invariant
            n == old(npcs)@.len(),
            npcs@.len() == n,
            i <= n,
            forall|j: int| 0 <= j < i ==> #[trigger] npcs@[j] == cleaned_slot(old(npcs)@[j]),
            forall|j: int| i <= j < n ==> #[trigger] npcs@[j] == old(npcs)@[j],
        decreases n - i,
    {
        let slot = npcs.slots[i].take();
        match slot {
            Some(mut npc) => {
                npc.cleanup();
                npcs.slots.set(i, Some(npc));
            },
            None => {},
        }
        i = i + 1;
    }
}

/// Whether `compute_npc` leaves the table as it is: the update names no npc,
/// or its slot is empty.
pub open spec fn compute_skips(slots: Seq<Option<Npc>>, nid: i32, ntype: i32) -> bool {
    nid == -1 || ntype == -1 || !occupied(slots, nid)
}

/// Records what npc `nid` is and did this tick. The npc keeps its index and
/// observer count; every other field takes the value given. The result says
/// whether the npc was updated and whether it moved to another zone.
pub fn compute_npc(
    npcs: &mut NpcTable,
    x: u16,
    y: u8,
    z: u16,
    nid: i32,
    ntype: i32,
    tele: bool,
    jump: bool,
    run_dir: i8,
    walk_dir: i8,
    active: bool,
    masks: u32,
    face_entity: i32,
    face_x: i32,
    face_z: i32,
    orientation_x: i32,
    orientation_z: i32,
    damage_taken: i32,
    damage_type: i32,
    damage_taken2: i32,
    damage_type2: i32,
    current_hitpoints: i32,
    base_hitpoints: i32,
    anim_id: i32,
    anim_delay: i32,
    say: Option<String>,
    graphic_id: i32,
    graphic_height: i32,
    graphic_delay: i32,
) -> (r: NpcUpdate)
    ensures
        compute_skips(old(npcs)@, nid, ntype) ==> final(npcs)@ == old(npcs)@ && r is Skipped,
        (nid == -1 || ntype == -1 || !(0 <= nid < old(npcs)@.len()) || old(npcs)@[nid as int] is None)
            ==> final(npcs)@ == old(npcs)@ && r is Skipped,
        (nid != -1 && ntype != -1 && 0 <= nid < old(npcs)@.len() && old(npcs)@[nid as int] is Some)
            ==> (r !is Skipped && final(npcs)@[nid as int] is Some),
        !compute_skips(old(npcs)@, nid, ntype) ==> ({
            let o = old(npcs)@[nid as int].unwrap();
            let n = final(npcs)@[nid as int].unwrap();
            &&& final(npcs)@ == old(npcs)@.update(nid as int, Some(n))
            &&& n.coord.packed == pack(x, y, z)
            &&& n.nid == o.nid
            &&& n.ntype == ntype
            &&& n.tele == tele
            &&& n.jump == jump
            &&& n.run_dir == run_dir
            &&& n.walk_dir == walk_dir
            &&& n.active == active
            &&& n.masks == masks
            &&& n.face_entity == face_entity
            &&& n.face_x == face_x
            &&& n.face_z == face_z
            &&& n.orientation_x == orientation_x
            &&& n.orientation_z == orientation_z
            &&& n.damage_taken == damage_taken
            &&& n.damage_type == damage_type
            &&& n.damage_taken2 == damage_taken2
            &&& n.damage_type2 == damage_type2
            &&& n.current_hitpoints == current_hitpoints
            &&& n.base_hitpoints == base_hitpoints
            &&& n.anim_id == anim_id
            &&& n.anim_delay == anim_delay
            &&& n.say == say
            &&& n.graphic_id == graphic_id
            &&& n.graphic_height == graphic_height
            &&& n.graphic_delay == graphic_delay
            &&& n.observers == o.observers
            &&& r == (if zone_changed(o.coord, n.coord) {
                NpcUpdate::Moved { from: o.coord, to: n.coord }
            } else {
                NpcUpdate::Updated
            })
        }),
{
    if nid == -1 || ntype == -1 {
        return NpcUpdate::Skipped;
    }
    if nid < 0 || nid as usize >= npcs.slots.len() {
        return NpcUpdate::Skipped;
    }
    let idx = nid as usize;
    let slot = npcs.slots[idx].take();
    match slot {
        None => NpcUpdate::Skipped,
        Some(mut npc) => {
            let coord = CoordGrid::from(x, y, z);
            let from = npc.coord;
            let moved = changes_zone(&from, &coord);
            npc.ntype = ntype;
            npc.coord = coord;
            npc.tele = tele;
            npc.jump = jump;
            npc.run_dir = run_dir;
            npc.walk_dir = walk_dir;
            npc.active = active;
            npc.masks = masks;
            npc.face_entity = face_entity;
            npc.face_x = face_x;
            npc.face_z = face_z;
            npc.orientation_x = orientation_x;
            npc.orientation_z = orientation_z;
            npc.damage_taken = damage_taken;
            npc.damage_type = damage_type;
            npc.damage_taken2 = damage_taken2;
            npc.damage_type2 = damage_type2;
            npc.current_hitpoints = current_hitpoints;
            npc.base_hitpoints = base_hitpoints;
            npc.anim_id = anim_id;
            npc.anim_delay = anim_delay;
            npc.say = say;
            npc.graphic_id = graphic_id;
            npc.graphic_height = graphic_height;
            npc.graphic_delay = graphic_delay;
            npcs.slots.set(idx, Some(npc));
            if moved {
                NpcUpdate::Moved { from, to: coord }
            } else {
                NpcUpdate::Updated
            }
        },
    }
}

/// Tells each npc named in `nids` that one player stopped observing it; an
/// npc named `k` times loses `k` observers, never going below none. Names of
/// empty or missing slots are passed over.
pub fn release_observers(npcs: &mut NpcTable, nids: &[i32])
    ensures
        final(npcs)@.len() == old(npcs)@.len(),
        forall|i: int|
            0 <= i < old(npcs)@.len() ==> #[trigger] final(npcs)@[i] == released_slot(
                old(npcs)@[i],
                occurrences(nids@, i),
            ),
        forall|i: int|
            0 <= i < old(npcs)@.len() ==> (#[trigger] final(npcs)@[i] is Some <==> old(
                npcs,
            )@[i] is Some),
        forall|i: int|
            0 <= i < old(npcs)@.len() && old(npcs)@[i] is Some ==> {
                let o = old(npcs)@[i].unwrap();
                let n = #[trigger] final(npcs)@[i].unwrap();
                let k = occurrences(nids@, i);
                &&& n == Npc { observers: n.observers, ..o }
                &&& n.observers == (if o.observers >= k {
                    o.observers - k
                } else {
                    0
                })
            },
{
    let len = npcs.slots.len();
    let mut k: usize = 0;
    while k < nids.len()
        invariant
            len == old(npcs)@.len(),
            npcs@.len() == len,
            k <= nids@.len(),
            forall|i: int|
                0 <= i < len ==> #[trigger] npcs@[i] == released_slot(
                    old(npcs)@[i],
                    occurrences(nids@.take(k as int), i),
                ),
        decreases nids@.len() - k,
    {
        let nid = nids[k];
        proof {
            assert(nids@.take(k + 1).drop_last() =~= nids@.take(k as int));
        }
        if 0 <= nid && (nid as usize) < len {
            let idx = nid as usize;
            let slot = npcs.slots[idx].take();
            match slot {
                Some(mut npc) => {
                    if npc.observers > 0 {
                        npc.observers = npc.observers - 1;
                    }
                    npcs.slots.set(idx, Some(npc));
                },
                None => {},
            }
        }
        k = k + 1;
    }
    proof {
        assert(nids@.take(nids@.len() as int) =~= nids@);
    }
}

/// An npc that was just added sits in its slot with no observers, and
/// removing it again empties the slot and leaves every other slot as it was
/// before the add.
pub proof fn lemma_add_then_remove(slots: Seq<Option<Npc>>, nid: i32, ntype: i32)
    requires
        holds_slot(slots, nid),
        ntype != -1,
    ensures
        after_add(slots, nid, ntype)[nid as int] == Some(Npc::spawned(nid, ntype)),
        observers_of(after_add(slots, nid, ntype), nid) == 0,
        after_remove(after_add(slots, nid, ntype), nid) == slots.update(nid as int, None),
{
    assert(after_remove(after_add(slots, nid, ntype), nid) =~= slots.update(nid as int, None));
}

/// Removing an npc twice is the same as removing it once, and an empty slot
/// reports no observers.
pub proof fn lemma_remove_idempotent(slots: Seq<Option<Npc>>, nid: i32)
    ensures
        after_remove(after_remove(slots, nid), nid) == after_remove(slots, nid),
        observers_of(after_remove(slots, nid), nid) == 0,
{
    assert(after_remove(after_remove(slots, nid), nid) =~= after_remove(slots, nid));
}

/// Ending the tick twice is the same as ending it once, a slot keeps or
/// lacks its npc across the end of a tick, and a freshly added npc is
/// already clean.
pub proof fn lemma_cleanup_npcs_idempotent(slot: Option<Npc>, nid: i32, ntype: i32)
    ensures
        cleaned_slot(cleaned_slot(slot)) == cleaned_slot(slot),
        cleaned_slot(slot) is Some <==> slot is Some,
        cleaned_slot(Some(Npc::spawned(nid, ntype))) == Some(Npc::spawned(nid, ntype)),
{
}

/// An npc that nobody stopped observing keeps its slot as it was, and an
/// npc never ends up with more observers than it had.
pub proof fn lemma_release_unlisted(slot: Option<Npc>, k: nat)
    ensures
        released_slot(slot, 0) == slot,
        released_slot(slot, k) is Some <==> slot is Some,
        slot is Some ==> released_slot(slot, k).unwrap().observers <= slot.unwrap().observers,
{
}

/// An npc whose index does not occur in the list keeps its observers.
pub proof fn lemma_release_spares_unlisted(nids: Seq<i32>, slot: Option<Npc>, i: int)
    requires
        !nids.contains(i as i32),
        i32::MIN <= i <= i32::MAX,
    ensures
        occurrences(nids, i) == 0,
        released_slot(slot, occurrences(nids, i)) == slot,
    decreases nids.len(),
{
    if nids.len() > 0 {
        assert(!nids.drop_last().contains(i as i32)) by {
            if nids.drop_last().contains(i as i32) {
                let j = choose|j: int| 0 <= j < nids.drop_last().len() && nids.drop_last()[j] == i as i32;
                assert(nids[j] == i as i32);
            }
        }
        assert(nids.last() != i) by {
            assert(nids[nids.len() - 1] == nids.last());
        }
        lemma_release_spares_unlisted(nids.drop_last(), slot, i);
    }
    lemma_release_unlisted(slot, 0);
}

/// Every mention counts, the last one included: a list that names `v` once
/// more counts one more mention of `v`, and a list of just `v` counts one.
pub proof fn lemma_occurrences_push(s: Seq<i32>, x: i32, v: int)
    ensures
        occurrences(Seq::<i32>::empty(), v) == 0,
        occurrences(s.push(x), v) == occurrences(s, v) + if x == v {
            1nat
        } else {
            0nat
        },
        occurrences(seq![x], x as int) == 1,
{
    assert(s.push(x).drop_last() =~= s);
    assert(seq![x].drop_last() =~= Seq::<i32>::empty());
    assert(occurrences(Seq::<i32>::empty(), x as int) == 0);
    assert(seq![x].last() == x);
}

/// A slot of an npc that loses `k` observers keeps its npc, which keeps
/// every field but its observer count, and that drops by `k`, stopping at 0.
pub proof fn lemma_released_slot_observers(slot: Option<Npc>, k: nat)
    ensures
        slot is None ==> released_slot(slot, k) is None,
        slot is Some ==> {
            let o = slot.unwrap();
            let n = released_slot(slot, k).unwrap();
            &&& released_slot(slot, k) is Some
            &&& n == Npc { observers: n.observers, ..o }
            &&& n.observers == (if o.observers >= k {
                o.observers - k
            } else {
                0
            })
        },
{
}

/// Removing an npc empties its slot, whatever npc it held, and leaves every
/// other slot as it was.
pub proof fn lemma_after_remove_empties(slots: Seq<Option<Npc>>, nid: i32)
    requires
        0 <= nid < slots.len(),
    ensures
        after_remove(slots, nid)[nid as int] is None,
        after_remove(slots, nid).len() == slots.len(),
        forall|j: int| 0 <= j < slots.len() && j != nid ==> #[trigger] after_remove(slots, nid)[j] == slots[j],
{
}

/// Adding an npc puts a fresh npc of the given index and type into its slot
/// and leaves every other slot as it was.
pub proof fn lemma_after_add_fills(slots: Seq<Option<Npc>>, nid: i32, ntype: i32)
    requires
        0 <= nid < slots.len(),
        ntype != -1,
    ensures
        after_add(slots, nid, ntype)[nid as int] == Some(Npc::spawned(nid, ntype)),
        after_add(slots, nid, ntype).len() == slots.len(),
        forall|j: int| 0 <= j < slots.len() && j != nid ==> #[trigger] after_add(slots, nid, ntype)[j] == slots[j],
{
}

/// The reported observer count is that of the npc in the slot, whatever
/// else holds of that npc, and 0 for an empty or missing slot.
pub proof fn lemma_observers_of_reads_slot(slots: Seq<Option<Npc>>, nid: i32)
    ensures
        0 <= nid < slots.len() && slots[nid as int] is Some ==> observers_of(slots, nid)
            == slots[nid as int].unwrap().observers as i32,
        !(0 <= nid < slots.len() && slots[nid as int] is Some) ==> observers_of(slots, nid) == 0,
{
}

/// `compute_npc` passes over an update exactly when it names no npc or the
/// slot is missing or empty; what the stored npc is doing never matters.
pub proof fn lemma_compute_skips_exactly(slots: Seq<Option<Npc>>, nid: i32, ntype: i32)
    ensures
        compute_skips(slots, nid, ntype) <==> (nid == -1 || ntype == -1 || !(0 <= nid < slots.len())
            || slots[nid as int] is None),
{
}

} // verus!
