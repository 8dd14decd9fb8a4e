use vstd::prelude::*;

use crate::coord::{pack, CoordGrid};

verus! {

/// A non-player character as the info encoder sees it: where it stands, what
/// it is, and what it did during the current tick.
#[derive(Clone)]
pub struct Npc {
    pub coord: CoordGrid,
    pub nid: i32,
    pub ntype: i32,
    pub tele: bool,
    pub jump: bool,
    pub run_dir: i8,
    pub walk_dir: i8,
    pub active: bool,
    pub masks: u32,
    pub face_entity: i32,
    pub face_x: i32,
    pub face_z: i32,
    pub orientation_x: i32,
    pub orientation_z: i32,
    pub damage_taken: i32,
    pub damage_type: i32,
    pub damage_taken2: i32,
    pub damage_type2: i32,
    pub current_hitpoints: i32,
    pub base_hitpoints: i32,
    pub anim_id: i32,
    pub anim_delay: i32,
    pub say: Option<String>,
    pub graphic_id: i32,
    pub graphic_height: i32,
    pub graphic_delay: i32,
    pub observers: usize,
}

impl Npc {
    /// A freshly added npc: at tile 0 of level 0, inactive, observed by no
    /// one, and with every per-tick field at its resting value.
    pub open spec fn spawned(nid: i32, ntype: i32) -> Npc {
        Npc {
            coord: CoordGrid { packed: 0u32 },
            nid,
            ntype,
            tele: false,
            jump: false,
            run_dir: -1i8,
            walk_dir: -1i8,
            active: false,
            masks: 0u32,
            face_entity: -1i32,
            face_x: -1i32,
            face_z: -1i32,
            orientation_x: -1i32,
            orientation_z: -1i32,
            damage_taken: -1i32,
            damage_type: -1i32,
            damage_taken2: -1i32,
            damage_type2: -1i32,
            current_hitpoints: -1i32,
            base_hitpoints: -1i32,
            anim_id: -1i32,
            anim_delay: -1i32,
            say: None,
            graphic_id: -1i32,
            graphic_height: -1i32,
            graphic_delay: -1i32,
            observers: 0usize,
        }
    }

    /// This npc at the end of a tick: every per-tick field back at its resting
    /// value; position, identity, activity, facing entity, orientation and
    /// observer count kept.
    pub open spec fn cleaned(self) -> Npc {
        Npc {
            walk_dir: -1i8,
            run_dir: -1i8,
            jump: false,
            tele: false,
            masks: 0u32,
            face_x: -1i32,
            face_z: -1i32,
            damage_taken: -1i32,
            damage_type: -1i32,
            damage_taken2: -1i32,
            damage_type2: -1i32,
            current_hitpoints: -1i32,
            base_hitpoints: -1i32,
            anim_id: -1i32,
            anim_delay: -1i32,
            say: None,
            graphic_id: -1i32,
            graphic_height: -1i32,
            graphic_delay: -1i32,
            ..self
        }
    }

    /// Creates the npc with index `nid` and type `ntype`.
    pub fn new(nid: i32, ntype: i32) -> (n: Npc)
        ensures
            n == Npc::spawned(nid, ntype),
            n.walk_dir == -1,
            n.run_dir == -1,
            n.masks == 0,
            n.face_x == -1,
            n.face_z == -1,
            n.damage_taken == -1,
            n.damage_type == -1,
            n.damage_taken2 == -1,
            n.damage_type2 == -1,
            n.current_hitpoints == -1,
            n.base_hitpoints == -1,
            n.anim_id == -1,
            n.anim_delay == -1,
            n.graphic_id == -1,
            n.graphic_height == -1,
            n.graphic_delay == -1,
            !n.tele,
            !n.jump,
            n.say is None,
            n.coord.packed == 0,
            n.nid == nid,
            n.ntype == ntype,
            !n.active,
            n.face_entity == -1,
            n.orientation_x == -1,
            n.orientation_z == -1,
            n.observers == 0,
    {
        let coord = CoordGrid::from(0, 0, 0);
        assert(pack(0, 0, 0) == 0) by (bit_vector);
        Npc {
            coord,
            nid,
            ntype,
            tele: false,
            jump: false,
            run_dir: -1,
            walk_dir: -1,
            active: false,
            masks: 0,
            face_entity: -1,
            face_x: -1,
            face_z: -1,
            orientation_x: -1,
            orientation_z: -1,
            damage_taken: -1,
            damage_type: -1,
            damage_taken2: -1,
            damage_type2: -1,
            current_hitpoints: -1,
            base_hitpoints: -1,
            anim_id: -1,
            anim_delay: -1,
            say: None,
            graphic_id: -1,
            graphic_height: -1,
            graphic_delay: -1,
            observers: 0,
        }
    }

    /// Resets what the npc did this tick, ready for the next one.
    pub fn cleanup(&mut self)
        ensures
            *final(self) == old(self).cleaned(),
            final(self).walk_dir == -1,
            final(self).run_dir == -1,
            final(self).masks == 0,
            final(self).face_x == -1,
            final(self).face_z == -1,
            final(self).damage_taken == -1,
            final(self).damage_type == -1,
            final(self).damage_taken2 == -1,
            final(self).damage_type2 == -1,
            final(self).current_hitpoints == -1,
            final(self).base_hitpoints == -1,
            final(self).anim_id == -1,
            final(self).anim_delay == -1,
            final(self).graphic_id == -1,
            final(self).graphic_height == -1,
            final(self).graphic_delay == -1,
            !final(self).tele,
            !final(self).jump,
            final(self).say is None,
            final(self).coord == old(self).coord,
            final(self).nid == old(self).nid,
            final(self).ntype == old(self).ntype,
            final(self).active == old(self).active,
            final(self).face_entity == old(self).face_entity,
            final(self).orientation_x == old(self).orientation_x,
            final(self).orientation_z == old(self).orientation_z,
            final(self).observers == old(self).observers,
    {
        self.walk_dir = -1;
        self.run_dir = -1;
        self.jump = false;
        self.tele = false;
        self.masks = 0;
        self.face_x = -1;
        self.face_z = -1;
        self.damage_taken = -1;
        self.damage_type = -1;
        self.damage_taken2 = -1;
        self.damage_type2 = -1;
        self.current_hitpoints = -1;
        self.base_hitpoints = -1;
        self.anim_id = -1;
        self.anim_delay = -1;
        self.say = None;
        self.graphic_id = -1;
        self.graphic_height = -1;
        self.graphic_delay = -1;
    }
}

/// A freshly added npc has nothing to clean up: cleaning it changes nothing.
pub proof fn lemma_spawned_is_clean(nid: i32, ntype: i32)
    ensures
        Npc::spawned(nid, ntype).cleaned() == Npc::spawned(nid, ntype),
{
}

/// Cleaning up twice is the same as cleaning up once.
pub proof fn lemma_cleanup_idempotent(n: Npc)
    ensures
        n.cleaned().cleaned() == n.cleaned(),
{
}

/// Cleaning up keeps the position, identity, activity, facing entity,
/// orientation and observer count of an npc.
pub proof fn lemma_cleanup_keeps_persistent_state(n: Npc)
    ensures
        n.cleaned().coord == n.coord,
        n.cleaned().nid == n.nid,
        n.cleaned().ntype == n.ntype,
        n.cleaned().active == n.active,
        n.cleaned().face_entity == n.face_entity,
        n.cleaned().orientation_x == n.orientation_x,
        n.cleaned().orientation_z == n.orientation_z,
        n.cleaned().observers == n.observers,
{
}

/// Whatever state an npc is in (whatever its masks, activity or movement),
/// after the end of a tick every per-tick field is at its resting value.
pub proof fn lemma_cleaned_is_at_rest(n: Npc)
    ensures
        n.cleaned().walk_dir == -1,
        n.cleaned().run_dir == -1,
        n.cleaned().masks == 0,
        n.cleaned().face_x == -1,
        n.cleaned().face_z == -1,
        n.cleaned().damage_taken == -1,
        n.cleaned().damage_type == -1,
        n.cleaned().damage_taken2 == -1,
        n.cleaned().damage_type2 == -1,
        n.cleaned().current_hitpoints == -1,
        n.cleaned().base_hitpoints == -1,
        n.cleaned().anim_id == -1,
        n.cleaned().anim_delay == -1,
        n.cleaned().graphic_id == -1,
        n.cleaned().graphic_height == -1,
        n.cleaned().graphic_delay == -1,
        !n.cleaned().tele,
        !n.cleaned().jump,
        n.cleaned().say is None,
{
}

/// A freshly added npc stands on packed tile 0, is inactive, faces nothing,
/// has no orientation and no observers, and every per-tick field rests.
pub proof fn lemma_spawned_fields(nid: i32, ntype: i32)
    ensures
        Npc::spawned(nid, ntype).walk_dir == -1,
        Npc::spawned(nid, ntype).run_dir == -1,
        Npc::spawned(nid, ntype).masks == 0,
        Npc::spawned(nid, ntype).face_x == -1,
        Npc::spawned(nid, ntype).face_z == -1,
        Npc::spawned(nid, ntype).damage_taken == -1,
        Npc::spawned(nid, ntype).damage_type == -1,
        Npc::spawned(nid, ntype).damage_taken2 == -1,
        Npc::spawned(nid, ntype).damage_type2 == -1,
        Npc::spawned(nid, ntype).current_hitpoints == -1,
        Npc::spawned(nid, ntype).base_hitpoints == -1,
        Npc::spawned(nid, ntype).anim_id == -1,
        Npc::spawned(nid, ntype).anim_delay == -1,
        Npc::spawned(nid, ntype).graphic_id == -1,
        Npc::spawned(nid, ntype).graphic_height == -1,
        Npc::spawned(nid, ntype).graphic_delay == -1,
        !Npc::spawned(nid, ntype).tele,
        !Npc::spawned(nid, ntype).jump,
        Npc::spawned(nid, ntype).say is None,
        Npc::spawned(nid, ntype).coord.packed == 0,
        Npc::spawned(nid, ntype).nid == nid,
        Npc::spawned(nid, ntype).ntype == ntype,
        !Npc::spawned(nid, ntype).active,
        Npc::spawned(nid, ntype).face_entity == -1,
        Npc::spawned(nid, ntype).observers == 0,
{
}

} // verus!
