use bevy_game_dungeon::level::asset::{Interactables, Level};
use bevy_game_dungeon::level::interactables::{Interactable, Loot, Teleporter};
use bevy_game_dungeon::level::Tile;
use bevy_game_dungeon::movement::GridPosition;

fn pos(x: usize, y: usize) -> GridPosition {
    GridPosition { x, y }
}

fn ragged() -> Level {
    Level::new(
        vec![
            vec![Tile::Stone, Tile::Void, Tile::Stone],
            vec![Tile::Stone],
            vec![],
            vec![Tile::Void, Tile::Stone],
        ],
        pos(0, 0),
    )
}

#[test]
fn default_tile_is_void() {
    assert_eq!(Tile::default(), Tile::Void);
}

#[test]
fn only_void_is_no_floor() {
    assert!(!Tile::Void.is_floor());
    assert!(Tile::Stone.is_floor());
}

#[test]
fn tile_at_reads_row_then_column() {
    let level = ragged();
    assert_eq!(level.tile_at(0, 0), Some(&Tile::Stone));
    assert_eq!(level.tile_at(1, 0), Some(&Tile::Void));
    assert_eq!(level.tile_at(2, 0), Some(&Tile::Stone));
    assert_eq!(level.tile_at(0, 3), Some(&Tile::Void));
    assert_eq!(level.tile_at(1, 3), Some(&Tile::Stone));
}

#[test]
fn tile_at_is_none_beyond_the_extents() {
    let level = ragged();
    assert_eq!(level.tile_at(3, 0), None);
    assert_eq!(level.tile_at(1, 1), None);
    assert_eq!(level.tile_at(0, 2), None);
    assert_eq!(level.tile_at(2, 3), None);
    assert_eq!(level.tile_at(0, 4), None);
    assert_eq!(level.tile_at(usize::MAX, usize::MAX), None);
}

#[test]
fn is_passable_needs_a_tile_that_is_not_void() {
    let level = ragged();
    assert!(level.is_passable(&pos(0, 0)));
    assert!(!level.is_passable(&pos(1, 0)));
    assert!(level.is_passable(&pos(2, 0)));
    assert!(level.is_passable(&pos(0, 1)));
    assert!(!level.is_passable(&pos(1, 1)));
    assert!(!level.is_passable(&pos(0, 2)));
    assert!(!level.is_passable(&pos(0, 3)));
    assert!(level.is_passable(&pos(1, 3)));
    assert!(!level.is_passable(&pos(0, 4)));
}

#[test]
fn an_empty_level_has_no_cell() {
    let level = Level::default();
    assert_eq!(level.start_pos, pos(0, 0));
    assert_eq!(level.tile_at(0, 0), None);
    assert!(!level.is_passable(&pos(0, 0)));
    assert_eq!(level.interactable_at(&pos(0, 0)), None);
}

#[test]
fn new_map_holds_nothing() {
    let map = Interactables::new();
    assert!(!map.contains_key(&pos(0, 0)));
    assert_eq!(map.get(&pos(0, 0)), None);
    assert_eq!(map, Interactables::new());
}

#[test]
fn insert_binds_one_cell_and_hands_back_what_was_there() {
    let mut map = Interactables::new();
    assert_eq!(map.insert(pos(1, 2), Interactable::Door), None);
    assert!(map.contains_key(&pos(1, 2)));
    assert!(!map.contains_key(&pos(2, 1)));
    assert_eq!(map.get(&pos(1, 2)), Some(&Interactable::Door));
    assert_eq!(map.get(&pos(2, 1)), None);
    assert_eq!(
        map.insert(pos(1, 2), Interactable::Chest(Loot::Key)),
        Some(Interactable::Door)
    );
    assert_eq!(map.get(&pos(1, 2)), Some(&Interactable::Chest(Loot::Key)));
    assert_eq!(map.insert(pos(2, 1), Interactable::Door), None);
    assert_eq!(map.get(&pos(1, 2)), Some(&Interactable::Chest(Loot::Key)));
    assert_eq!(map.get(&pos(2, 1)), Some(&Interactable::Door));
}

#[test]
fn interactable_at_looks_up_the_exact_position() {
    let mut level = ragged();
    let teleporter = Interactable::Teleporter(Teleporter {
        grid_position: pos(1, 3),
        level: Some(String::from("level/001.lvl")),
    });
    level.interactables.insert(pos(2, 0), teleporter.clone());
    level.interactables.insert(pos(0, 1), Interactable::Chest(Loot::Key));
    assert_eq!(level.interactable_at(&pos(2, 0)), Some(teleporter));
    assert_eq!(level.interactable_at(&pos(0, 1)), Some(Interactable::Chest(Loot::Key)));
    assert_eq!(level.interactable_at(&pos(0, 2)), None);
    assert_eq!(level.interactable_at(&pos(1, 0)), None);
    assert_eq!(level.interactable_at(&pos(0, 0)), None);
}

#[test]
fn clones_are_equal_to_what_they_were_made_from() {
    let far = Teleporter { grid_position: pos(4, 5), level: Some(String::from("a")) };
    let near = Teleporter { grid_position: pos(4, 5), level: None };
    assert_eq!(far.clone(), far);
    assert_eq!(near.clone(), near);
    assert_ne!(far, near);
    for i in [
        Interactable::Door,
        Interactable::Chest(Loot::Key),
        Interactable::Teleporter(far.clone()),
        Interactable::Teleporter(near.clone()),
    ] {
        assert_eq!(i.clone(), i);
    }
}
