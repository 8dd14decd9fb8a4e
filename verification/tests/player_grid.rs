use entity_info::coord::CoordGrid;
use entity_info::player_grid::PlayerGrid;

#[test]
fn new_grid_is_empty() {
    let g = PlayerGrid::new();
    assert!(g.players_at(CoordGrid::from(3200, 0, 3200)).is_empty());
}

#[test]
fn players_listed_in_recording_order() {
    let mut g = PlayerGrid::new();
    let here = CoordGrid::from(3200, 0, 3200);
    g.add_player(here, 7);
    g.add_player(here, 3);
    g.add_player(here, 7);
    assert_eq!(g.players_at(here), &[7, 3, 7]);
}

#[test]
fn tiles_are_kept_apart() {
    let mut g = PlayerGrid::new();
    let a = CoordGrid::from(3200, 0, 3200);
    let b = CoordGrid::from(3200, 1, 3200);
    g.add_player(a, 1);
    g.add_player(b, 2);
    assert_eq!(g.players_at(a), &[1]);
    assert_eq!(g.players_at(b), &[2]);
    assert!(g.players_at(CoordGrid::from(3201, 0, 3200)).is_empty());
}

#[test]
fn clear_forgets_everyone() {
    let mut g = PlayerGrid::new();
    let a = CoordGrid::from(3200, 0, 3200);
    g.add_player(a, 1);
    g.clear();
    assert!(g.players_at(a).is_empty());
    g.add_player(a, 4);
    assert_eq!(g.players_at(a), &[4]);
}
