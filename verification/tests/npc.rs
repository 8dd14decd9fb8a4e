use entity_info::coord::CoordGrid;
use entity_info::npc::Npc;

fn assert_tick_fields_rest(n: &Npc) {
    assert_eq!(n.walk_dir, -1);
    assert_eq!(n.run_dir, -1);
    assert!(!n.jump);
    assert!(!n.tele);
    assert_eq!(n.masks, 0);
    assert_eq!(n.face_x, -1);
    assert_eq!(n.face_z, -1);
    assert_eq!(n.damage_taken, -1);
    assert_eq!(n.damage_type, -1);
    assert_eq!(n.damage_taken2, -1);
    assert_eq!(n.damage_type2, -1);
    assert_eq!(n.current_hitpoints, -1);
    assert_eq!(n.base_hitpoints, -1);
    assert_eq!(n.anim_id, -1);
    assert_eq!(n.anim_delay, -1);
    assert!(n.say.is_none());
    assert_eq!(n.graphic_id, -1);
    assert_eq!(n.graphic_height, -1);
    assert_eq!(n.graphic_delay, -1);
}

fn busy_npc() -> Npc {
    let mut n = Npc::new(12, 34);
    n.coord = CoordGrid::from(3200, 2, 3100);
    n.tele = true;
    n.jump = true;
    n.run_dir = 3;
    n.walk_dir = 4;
    n.active = true;
    n.masks = 0x40;
    n.face_entity = 99;
    n.face_x = 3201;
    n.face_z = 3101;
    n.orientation_x = 7;
    n.orientation_z = 8;
    n.damage_taken = 5;
    n.damage_type = 1;
    n.damage_taken2 = 6;
    n.damage_type2 = 2;
    n.current_hitpoints = 10;
    n.base_hitpoints = 20;
    n.anim_id = 808;
    n.anim_delay = 0;
    n.say = Some(String::from("hello"));
    n.graphic_id = 86;
    n.graphic_height = 92;
    n.graphic_delay = 1;
    n.observers = 3;
    n
}

#[test]
fn new_npc_rests_at_origin() {
    let n = Npc::new(12, 34);
    assert_eq!(n.nid, 12);
    assert_eq!(n.ntype, 34);
    assert_eq!(n.coord.packed, 0);
    assert!(!n.active);
    assert_eq!(n.face_entity, -1);
    assert_eq!(n.orientation_x, -1);
    assert_eq!(n.orientation_z, -1);
    assert_eq!(n.observers, 0);
    assert_tick_fields_rest(&n);
}

#[test]
fn cleanup_resets_tick_and_keeps_identity() {
    let mut n = busy_npc();
    n.cleanup();
    assert_tick_fields_rest(&n);
    assert_eq!(n.coord, CoordGrid::from(3200, 2, 3100));
    assert_eq!(n.nid, 12);
    assert_eq!(n.ntype, 34);
    assert!(n.active);
    assert_eq!(n.face_entity, 99);
    assert_eq!(n.orientation_x, 7);
    assert_eq!(n.orientation_z, 8);
    assert_eq!(n.observers, 3);
}

#[test]
fn cleanup_of_new_npc_changes_nothing() {
    let mut n = Npc::new(3, 4);
    n.cleanup();
    assert_eq!(n.nid, 3);
    assert_eq!(n.ntype, 4);
    assert_eq!(n.coord.packed, 0);
    assert!(!n.active);
    assert_eq!(n.face_entity, -1);
    assert_eq!(n.orientation_x, -1);
    assert_eq!(n.orientation_z, -1);
    assert_eq!(n.observers, 0);
    assert_tick_fields_rest(&n);
}

#[test]
fn cleanup_twice_equals_once() {
    let mut n = busy_npc();
    n.cleanup();
    n.cleanup();
    assert_tick_fields_rest(&n);
    assert_eq!(n.coord, CoordGrid::from(3200, 2, 3100));
    assert!(n.active);
    assert_eq!(n.face_entity, 99);
    assert_eq!(n.observers, 3);
}
