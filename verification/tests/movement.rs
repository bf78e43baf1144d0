use bevy_game_dungeon::level::asset::Level;
use bevy_game_dungeon::level::interactables::{Interactable, Loot};
use bevy_game_dungeon::level::Tile;
use bevy_game_dungeon::movement::{
    end_of_ease, face_direction, move_forward, move_target, Actor, EaseTo, FaceDirection,
    GridDirection, GridPosition, MoveError, Transition,
};

fn pos(x: usize, y: usize) -> GridPosition {
    GridPosition { x, y }
}

/// Three rows of three cells of stone, with a hole in the middle.
fn ring() -> Level {
    Level::new(
        vec![
            vec![Tile::Stone, Tile::Stone, Tile::Stone],
            vec![Tile::Stone, Tile::Void, Tile::Stone],
            vec![Tile::Stone, Tile::Stone, Tile::Stone],
        ],
        pos(0, 0),
    )
}

fn turn(actor: &Actor, direction: GridDirection) -> Actor {
    end_of_ease(&face_direction(actor, &FaceDirection { direction }))
}

fn step(level: &Level, actor: &Actor) -> Actor {
    end_of_ease(&move_forward(level, actor))
}

#[test]
fn ease_to_holds_its_target() {
    assert_eq!(EaseTo::new(pos(3, 4)).target, pos(3, 4));
    assert_eq!(EaseTo::new(GridDirection::West).target, GridDirection::West);
    let ease = EaseTo::new(7u8);
    assert_eq!(ease.clone(), ease);
}

#[test]
fn a_new_actor_is_settled() {
    let actor = Actor::new(pos(1, 2), GridDirection::East);
    assert!(actor.is_settled());
    assert_eq!(actor.grid_position, pos(1, 2));
    assert_eq!(actor.direction, GridDirection::East);
    assert_eq!(actor.transition, None);
}

#[test]
fn move_target_names_each_reason() {
    let mut level = ring();
    level.interactables.insert(pos(0, 1), Interactable::Chest(Loot::Key));
    assert_eq!(move_target(&level, &pos(0, 0), &GridDirection::East), Ok(pos(1, 0)));
    assert_eq!(
        move_target(&level, &pos(0, 0), &GridDirection::North),
        Err(MoveError::OutOfRange)
    );
    assert_eq!(
        move_target(&level, &pos(0, 0), &GridDirection::West),
        Err(MoveError::OutOfRange)
    );
    assert_eq!(
        move_target(&level, &pos(2, 2), &GridDirection::East),
        Err(MoveError::LevelBoundsExceeded)
    );
    assert_eq!(
        move_target(&level, &pos(2, 2), &GridDirection::South),
        Err(MoveError::LevelBoundsExceeded)
    );
    assert_eq!(
        move_target(&level, &pos(1, 0), &GridDirection::South),
        Err(MoveError::ImpassableTarget)
    );
    assert_eq!(
        move_target(&level, &pos(0, 0), &GridDirection::South),
        Err(MoveError::OccupiedByInteractable)
    );
}

#[test]
fn an_object_on_void_is_still_void_to_a_move() {
    let mut level = ring();
    level.interactables.insert(pos(1, 1), Interactable::Door);
    assert_eq!(
        move_target(&level, &pos(1, 0), &GridDirection::South),
        Err(MoveError::ImpassableTarget)
    );
}

#[test]
fn rows_of_different_length_bound_a_move_each_on_its_own() {
    let level = Level::new(vec![vec![Tile::Stone, Tile::Stone], vec![Tile::Stone]], pos(0, 0));
    assert_eq!(
        move_target(&level, &pos(1, 0), &GridDirection::South),
        Err(MoveError::LevelBoundsExceeded)
    );
    assert_eq!(move_target(&level, &pos(0, 0), &GridDirection::South), Ok(pos(0, 1)));
    assert_eq!(
        move_target(&level, &pos(0, 1), &GridDirection::East),
        Err(MoveError::LevelBoundsExceeded)
    );
}

#[test]
fn a_valid_move_begins_a_transition_and_completes_into_the_position() {
    let level = ring();
    let actor = Actor::new(pos(0, 0), GridDirection::East);
    let moving = move_forward(&level, &actor);
    assert!(!moving.is_settled());
    assert_eq!(moving.grid_position, pos(0, 0));
    assert_eq!(moving.direction, GridDirection::East);
    assert_eq!(moving.transition, Some(Transition::Position(EaseTo::new(pos(1, 0)))));
    let arrived = end_of_ease(&moving);
    assert_eq!(arrived, Actor::new(pos(1, 0), GridDirection::East));
}

#[test]
fn a_turn_is_always_begun_and_completes_into_the_facing() {
    let actor = Actor::new(pos(1, 1), GridDirection::South);
    let turning = face_direction(&actor, &FaceDirection { direction: GridDirection::North });
    assert_eq!(turning.grid_position, pos(1, 1));
    assert_eq!(turning.direction, GridDirection::South);
    assert_eq!(turning.transition, Some(Transition::Direction(EaseTo::new(GridDirection::North))));
    assert_eq!(end_of_ease(&turning), Actor::new(pos(1, 1), GridDirection::North));
}

#[test]
fn intents_are_dropped_while_a_transition_is_in_flight() {
    let level = ring();
    let actor = Actor::new(pos(0, 0), GridDirection::East);
    let moving = move_forward(&level, &actor);
    assert_eq!(move_forward(&level, &moving), moving);
    assert_eq!(face_direction(&moving, &FaceDirection { direction: GridDirection::South }), moving);
    let turning = face_direction(&actor, &FaceDirection { direction: GridDirection::South });
    assert_eq!(move_forward(&level, &turning), turning);
    assert_eq!(face_direction(&turning, &FaceDirection { direction: GridDirection::West }), turning);
    assert_eq!(end_of_ease(&turning), Actor::new(pos(0, 0), GridDirection::South));
    assert_eq!(end_of_ease(&moving), Actor::new(pos(1, 0), GridDirection::East));
}

#[test]
fn end_of_ease_leaves_a_settled_actor_alone() {
    let actor = Actor::new(pos(2, 2), GridDirection::West);
    assert_eq!(end_of_ease(&actor), actor);
}

#[test]
fn blocked_moves_never_change_the_position() {
    let mut level = ring();
    level.interactables.insert(pos(0, 1), Interactable::Door);
    let blocked = [
        Actor::new(pos(0, 0), GridDirection::North),
        Actor::new(pos(0, 0), GridDirection::West),
        Actor::new(pos(0, 0), GridDirection::South),
        Actor::new(pos(1, 0), GridDirection::South),
        Actor::new(pos(2, 2), GridDirection::East),
        Actor::new(pos(2, 2), GridDirection::South),
    ];
    for actor in blocked {
        assert_eq!(move_forward(&level, &actor), actor);
        assert_eq!(step(&level, &actor), actor);
    }
}

#[test]
fn east_twice_then_south_around_the_hole() {
    let level = ring();
    let mut actor = Actor::new(level.start_pos, GridDirection::default());
    assert_eq!(actor.grid_position, pos(0, 0));
    actor = turn(&actor, GridDirection::East);
    assert_eq!(move_target(&level, &actor.grid_position, &actor.direction), Ok(pos(1, 0)));
    actor = step(&level, &actor);
    assert_eq!(actor.grid_position, pos(1, 0));
    assert_eq!(
        move_target(&level, &actor.grid_position, &GridDirection::South),
        Err(MoveError::ImpassableTarget)
    );
    assert_eq!(move_target(&level, &actor.grid_position, &actor.direction), Ok(pos(2, 0)));
    actor = step(&level, &actor);
    assert_eq!(actor.grid_position, pos(2, 0));
    assert_eq!(
        move_target(&level, &actor.grid_position, &actor.direction),
        Err(MoveError::LevelBoundsExceeded)
    );
    actor = turn(&actor, GridDirection::South);
    assert_eq!(move_target(&level, &actor.grid_position, &actor.direction), Ok(pos(2, 1)));
    actor = step(&level, &actor);
    assert_eq!(actor, Actor::new(pos(2, 1), GridDirection::South));
}

#[test]
fn south_into_the_hole_is_refused_at_each_try() {
    let level = ring();
    let mut actor = Actor::new(pos(1, 0), GridDirection::South);
    for _ in 0..3 {
        actor = step(&level, &actor);
        assert_eq!(actor, Actor::new(pos(1, 0), GridDirection::South));
    }
}
