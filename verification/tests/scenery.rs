use bevy_game_dungeon::level::asset::Level;
use bevy_game_dungeon::level::change::{ChangeLevel, World};
use bevy_game_dungeon::level::create::{
    create_level_geometry, is_walled, level_change_create, level_change_despawn,
    move_player_to_start_pos, GeometryKind, LevelGeometry,
};
use bevy_game_dungeon::level::{CurrentLevel, Tile};
use bevy_game_dungeon::movement::{Actor, GridDirection, GridPosition};

fn pos(x: usize, y: usize) -> GridPosition {
    GridPosition { x, y }
}

fn floor(x: usize, y: usize) -> LevelGeometry {
    LevelGeometry { position: pos(x, y), kind: GeometryKind::Floor }
}

fn wall(x: usize, y: usize, direction: GridDirection) -> LevelGeometry {
    LevelGeometry { position: pos(x, y), kind: GeometryKind::Wall(direction) }
}

#[test]
fn a_single_cell_has_a_floor_and_four_walls() {
    let level = Level::new(vec![vec![Tile::Stone]], pos(0, 0));
    assert_eq!(
        create_level_geometry(&level),
        vec![
            floor(0, 0),
            wall(0, 0, GridDirection::North),
            wall(0, 0, GridDirection::South),
            wall(0, 0, GridDirection::West),
            wall(0, 0, GridDirection::East),
        ]
    );
}

#[test]
fn void_and_empty_levels_have_no_geometry() {
    assert_eq!(create_level_geometry(&Level::default()), vec![]);
    let void = Level::new(vec![vec![Tile::Void, Tile::Void], vec![], vec![Tile::Void]], pos(0, 0));
    assert_eq!(create_level_geometry(&void), vec![]);
}

#[test]
fn walls_stand_where_floor_borders_on_void_or_on_nothing() {
    let level = Level::new(
        vec![vec![Tile::Stone, Tile::Stone], vec![Tile::Void, Tile::Stone]],
        pos(0, 0),
    );
    assert_eq!(
        create_level_geometry(&level),
        vec![
            floor(0, 0),
            wall(0, 0, GridDirection::North),
            wall(0, 0, GridDirection::South),
            wall(0, 0, GridDirection::West),
            floor(1, 0),
            wall(1, 0, GridDirection::North),
            wall(1, 0, GridDirection::East),
            floor(1, 1),
            wall(1, 1, GridDirection::South),
            wall(1, 1, GridDirection::West),
            wall(1, 1, GridDirection::East),
        ]
    );
}

#[test]
fn a_shorter_row_next_door_counts_as_no_floor() {
    let level = Level::new(vec![vec![Tile::Stone], vec![Tile::Stone, Tile::Stone]], pos(0, 0));
    assert!(is_walled(&level, &pos(1, 1), &GridDirection::North));
    assert!(!is_walled(&level, &pos(0, 1), &GridDirection::North));
    assert!(is_walled(&level, &pos(0, 0), &GridDirection::East));
    assert!(!is_walled(&level, &pos(0, 1), &GridDirection::East));
    assert!(is_walled(&level, &pos(0, 0), &GridDirection::North));
    assert!(is_walled(&level, &pos(0, 0), &GridDirection::West));
    assert_eq!(
        create_level_geometry(&level),
        vec![
            floor(0, 0),
            wall(0, 0, GridDirection::North),
            wall(0, 0, GridDirection::West),
            wall(0, 0, GridDirection::East),
            floor(0, 1),
            wall(0, 1, GridDirection::South),
            wall(0, 1, GridDirection::West),
            floor(1, 1),
            wall(1, 1, GridDirection::North),
            wall(1, 1, GridDirection::South),
            wall(1, 1, GridDirection::East),
        ]
    );
}

#[test]
fn a_ring_of_stone_is_walled_outside_and_around_its_hole() {
    let level = Level::new(
        vec![
            vec![Tile::Stone, Tile::Stone, Tile::Stone],
            vec![Tile::Stone, Tile::Void, Tile::Stone],
            vec![Tile::Stone, Tile::Stone, Tile::Stone],
        ],
        pos(0, 0),
    );
    let geometry = create_level_geometry(&level);
    let floors = geometry.iter().filter(|g| g.kind == GeometryKind::Floor).count();
    assert_eq!(floors, 8);
    assert_eq!(geometry.len(), 8 + 12 + 4);
    assert!(geometry.iter().all(|g| g.position != pos(1, 1)));
    assert!(geometry.contains(&wall(1, 0, GridDirection::South)));
    assert!(geometry.contains(&wall(1, 2, GridDirection::North)));
    assert!(geometry.contains(&wall(0, 1, GridDirection::East)));
    assert!(geometry.contains(&wall(2, 1, GridDirection::West)));
    assert!(!geometry.contains(&wall(0, 0, GridDirection::East)));
    assert!(!geometry.contains(&wall(0, 0, GridDirection::South)));
    for (i, piece) in geometry.iter().enumerate() {
        assert!(!geometry[..i].contains(piece));
    }
}

#[test]
fn the_steps_of_a_swap_each_do_their_part() {
    let level = Level::new(vec![vec![Tile::Stone]], pos(0, 0));
    let mut world = World::new();
    world.geometry.push(floor(9, 9));
    world.player = Actor::new(pos(5, 5), GridDirection::West);
    level_change_despawn(&mut world);
    assert!(world.geometry.is_empty());
    assert_eq!(world.current_level, CurrentLevel(None));
    assert_eq!(world.player, Actor::new(pos(5, 5), GridDirection::West));
    level_change_create(&mut world, &String::from("level/000.lvl"), &level);
    assert_eq!(world.current_level, CurrentLevel(Some(String::from("level/000.lvl"))));
    assert_eq!(world.geometry, create_level_geometry(&level));
    assert_eq!(world.geometry.len(), 5);
    assert_eq!(world.player, Actor::new(pos(5, 5), GridDirection::West));
    let at_start = ChangeLevel { level: String::from("level/000.lvl"), position: None };
    move_player_to_start_pos(&mut world, &level, &at_start);
    assert_eq!(world.player, Actor::new(pos(0, 0), GridDirection::South));
    let at_spawn = ChangeLevel { level: String::from("level/000.lvl"), position: Some(pos(3, 4)) };
    move_player_to_start_pos(&mut world, &level, &at_spawn);
    assert_eq!(world.player, Actor::new(pos(3, 4), GridDirection::South));
    assert_eq!(world.geometry.len(), 5);
}
