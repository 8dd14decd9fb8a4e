use entity_info::coord::CoordGrid;
use entity_info::npc::Npc;
use entity_info::npcs::{
    add_npc, cleanup_npcs, compute_npc, get_npc_observers, release_observers, remove_npc,
    NpcTable, NpcUpdate, MAX_NPCS,
};

fn move_to(t: &mut NpcTable, nid: i32, ntype: i32, x: u16, y: u8, z: u16) -> NpcUpdate {
    compute_npc(
        t, x, y, z, nid, ntype, false, false, -1, 2, true, 0x10, -1, 3200, 3201, 5, 6, 4, 1, -1, -1,
        7, 10, 808, 0, Some(String::from("grr")), 86, 92, 0,
    )
}

fn with_observers(nid: i32, observers: usize) -> Npc {
    let mut n = Npc::new(nid, 1);
    n.observers = observers;
    n
}

#[test]
fn new_table_is_empty() {
    let t = NpcTable::new();
    assert_eq!(t.len(), MAX_NPCS);
    assert_eq!(MAX_NPCS, 16384);
    assert!(t.get(0).is_none());
    assert!(t.get(16383).is_none());
    assert!(t.get(16384).is_none());
    assert!(t.get(-1).is_none());
}

#[test]
fn add_npc_fills_slot() {
    let mut t = NpcTable::new();
    add_npc(&mut t, 5, 7);
    let n = t.get(5).unwrap();
    assert_eq!(n.nid, 5);
    assert_eq!(n.ntype, 7);
    assert_eq!(n.coord.packed, 0);
    assert_eq!(n.observers, 0);
    assert!(t.get(4).is_none());
    assert!(t.get(6).is_none());
}

#[test]
fn add_npc_replaces_existing() {
    let mut t = NpcTable::new();
    t.set(5, Some(with_observers(5, 9)));
    add_npc(&mut t, 5, 8);
    let n = t.get(5).unwrap();
    assert_eq!(n.ntype, 8);
    assert_eq!(n.observers, 0);
}

#[test]
fn add_npc_ignores_absent_ids() {
    let mut t = NpcTable::new();
    add_npc(&mut t, -1, 7);
    add_npc(&mut t, 3, -1);
    add_npc(&mut t, 16384, 7);
    add_npc(&mut t, -5, 7);
    assert!(t.get(3).is_none());
    for i in 0..16384 {
        assert!(t.get(i).is_none());
    }
}

#[test]
fn remove_npc_empties_slot_and_returns_npc() {
    let mut t = NpcTable::new();
    add_npc(&mut t, 5, 7);
    add_npc(&mut t, 6, 9);
    let removed = remove_npc(&mut t, 5).unwrap();
    assert_eq!(removed.nid, 5);
    assert_eq!(removed.ntype, 7);
    assert!(t.get(5).is_none());
    assert_eq!(t.get(6).unwrap().ntype, 9);
}

#[test]
fn remove_npc_twice_finds_nothing() {
    let mut t = NpcTable::new();
    add_npc(&mut t, 5, 7);
    assert!(remove_npc(&mut t, 5).is_some());
    assert!(remove_npc(&mut t, 5).is_none());
    assert!(remove_npc(&mut t, -1).is_none());
    assert!(remove_npc(&mut t, 20000).is_none());
    assert_eq!(get_npc_observers(&t, 5), 0);
}

#[test]
fn observers_reported_for_present_npc() {
    let mut t = NpcTable::new();
    t.set(10, Some(with_observers(10, 4)));
    assert_eq!(get_npc_observers(&t, 10), 4);
    assert_eq!(get_npc_observers(&t, 11), 0);
    assert_eq!(get_npc_observers(&t, -1), 0);
    assert_eq!(get_npc_observers(&t, 16384), 0);
}

#[test]
fn observers_count_is_cut_to_i32() {
    let mut t = NpcTable::new();
    let big: u64 = (1u64 << 32) + 5;
    t.set(10, Some(with_observers(10, big as usize)));
    assert_eq!(get_npc_observers(&t, 10), (big as usize) as i32);
}

#[test]
fn added_npc_has_no_observers() {
    let mut t = NpcTable::new();
    add_npc(&mut t, 100, 2);
    assert_eq!(get_npc_observers(&t, 100), 0);
}

#[test]
fn compute_npc_updates_fields_and_reports_move() {
    let mut t = NpcTable::new();
    add_npc(&mut t, 5, 7);
    t.set(5, Some(with_observers(5, 2)));
    let r = move_to(&mut t, 5, 9, 3200, 0, 3200);
    assert_eq!(
        r,
        NpcUpdate::Moved { from: CoordGrid::from(0, 0, 0), to: CoordGrid::from(3200, 0, 3200) }
    );
    let n = t.get(5).unwrap();
    assert_eq!(n.nid, 5);
    assert_eq!(n.ntype, 9);
    assert_eq!(n.coord, CoordGrid::from(3200, 0, 3200));
    assert!(!n.tele);
    assert!(!n.jump);
    assert_eq!(n.run_dir, -1);
    assert_eq!(n.walk_dir, 2);
    assert!(n.active);
    assert_eq!(n.masks, 0x10);
    assert_eq!(n.face_entity, -1);
    assert_eq!(n.face_x, 3200);
    assert_eq!(n.face_z, 3201);
    assert_eq!(n.orientation_x, 5);
    assert_eq!(n.orientation_z, 6);
    assert_eq!(n.damage_taken, 4);
    assert_eq!(n.damage_type, 1);
    assert_eq!(n.damage_taken2, -1);
    assert_eq!(n.damage_type2, -1);
    assert_eq!(n.current_hitpoints, 7);
    assert_eq!(n.base_hitpoints, 10);
    assert_eq!(n.anim_id, 808);
    assert_eq!(n.anim_delay, 0);
    assert_eq!(n.say.as_deref(), Some("grr"));
    assert_eq!(n.graphic_id, 86);
    assert_eq!(n.graphic_height, 92);
    assert_eq!(n.graphic_delay, 0);
    assert_eq!(n.observers, 2);
}

#[test]
fn compute_npc_inside_zone_is_plain_update() {
    let mut t = NpcTable::new();
    add_npc(&mut t, 5, 7);
    move_to(&mut t, 5, 7, 3200, 0, 3200);
    let r = move_to(&mut t, 5, 7, 3201, 0, 3207);
    assert_eq!(r, NpcUpdate::Updated);
    assert_eq!(t.get(5).unwrap().coord, CoordGrid::from(3201, 0, 3207));
    let same = move_to(&mut t, 5, 7, 3201, 0, 3207);
    assert_eq!(same, NpcUpdate::Updated);
}

#[test]
fn compute_npc_level_change_is_move() {
    let mut t = NpcTable::new();
    add_npc(&mut t, 5, 7);
    move_to(&mut t, 5, 7, 3200, 0, 3200);
    let r = move_to(&mut t, 5, 7, 3200, 1, 3200);
    assert_eq!(
        r,
        NpcUpdate::Moved { from: CoordGrid::from(3200, 0, 3200), to: CoordGrid::from(3200, 1, 3200) }
    );
}

#[test]
fn compute_npc_skips_missing_npc() {
    let mut t = NpcTable::new();
    assert_eq!(move_to(&mut t, 5, 7, 3200, 0, 3200), NpcUpdate::Skipped);
    assert!(t.get(5).is_none());
    add_npc(&mut t, 5, 7);
    assert_eq!(move_to(&mut t, -1, 7, 3200, 0, 3200), NpcUpdate::Skipped);
    assert_eq!(move_to(&mut t, 5, -1, 3200, 0, 3200), NpcUpdate::Skipped);
    assert_eq!(move_to(&mut t, 20000, 7, 3200, 0, 3200), NpcUpdate::Skipped);
    let n = t.get(5).unwrap();
    assert_eq!(n.coord.packed, 0);
    assert_eq!(n.walk_dir, -1);
}

#[test]
fn cleanup_npcs_ends_tick_for_every_npc() {
    let mut t = NpcTable::new();
    add_npc(&mut t, 1, 7);
    add_npc(&mut t, 2, 8);
    move_to(&mut t, 1, 7, 3200, 0, 3200);
    move_to(&mut t, 2, 8, 3300, 0, 3300);
    cleanup_npcs(&mut t);
    for nid in [1, 2] {
        let n = t.get(nid).unwrap();
        assert_eq!(n.walk_dir, -1);
        assert_eq!(n.masks, 0);
        assert_eq!(n.face_x, -1);
        assert_eq!(n.damage_taken, -1);
        assert_eq!(n.anim_id, -1);
        assert!(n.say.is_none());
        assert_eq!(n.graphic_id, -1);
        assert!(n.active);
        assert_eq!(n.orientation_x, 5);
    }
    assert_eq!(t.get(1).unwrap().coord, CoordGrid::from(3200, 0, 3200));
    assert_eq!(t.get(2).unwrap().coord, CoordGrid::from(3300, 0, 3300));
    assert!(t.get(3).is_none());
}

#[test]
fn cleanup_npcs_twice_equals_once() {
    let mut t = NpcTable::new();
    add_npc(&mut t, 1, 7);
    move_to(&mut t, 1, 7, 3200, 0, 3200);
    cleanup_npcs(&mut t);
    cleanup_npcs(&mut t);
    let n = t.get(1).unwrap();
    assert_eq!(n.walk_dir, -1);
    assert_eq!(n.coord, CoordGrid::from(3200, 0, 3200));
    assert!(n.active);
}

#[test]
fn release_observers_counts_each_mention() {
    let mut t = NpcTable::new();
    t.set(2, Some(with_observers(2, 3)));
    t.set(4, Some(with_observers(4, 1)));
    release_observers(&mut t, &[2, 2, 9, -1, 20000]);
    assert_eq!(t.get(2).unwrap().observers, 1);
    assert_eq!(t.get(4).unwrap().observers, 1);
    assert!(t.get(9).is_none());
}

#[test]
fn release_observers_stops_at_zero() {
    let mut t = NpcTable::new();
    t.set(2, Some(with_observers(2, 1)));
    add_npc(&mut t, 3, 5);
    release_observers(&mut t, &[2, 2, 2, 3]);
    assert_eq!(t.get(2).unwrap().observers, 0);
    assert_eq!(t.get(3).unwrap().observers, 0);
}

#[test]
fn release_observers_of_nobody_changes_nothing() {
    let mut t = NpcTable::new();
    t.set(2, Some(with_observers(2, 6)));
    release_observers(&mut t, &[]);
    assert_eq!(t.get(2).unwrap().observers, 6);
}
