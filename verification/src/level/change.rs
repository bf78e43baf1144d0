//! The swap of the active level.

use vstd::prelude::*;

use crate::level::asset::Level;
use crate::level::create::{
    level_change_create, level_change_despawn, move_player_to_start_pos, spec_create_level_geometry,
    LevelGeometry,
};
use crate::level::CurrentLevel;
use crate::loading::LevelAssets;
use crate::movement::{Actor, GridDirection, GridPosition};

verus! {

/// The request to make the level of the name `level` the active one. With a
/// `position` the actor spawns there, without one at the start position of
/// the level.
#[derive(Debug, PartialEq, Eq)]
pub struct ChangeLevel {
    pub level: String,
    pub position: Option<GridPosition>,
}

impl Clone for ChangeLevel {
    fn clone(&self) -> (r: Self)
        ensures
            r == *self,
    {
        ChangeLevel { level: self.level.clone(), position: self.position }
    }
}

/// The error of a request that names a level which is not loaded.
#[derive(Debug, PartialEq, Eq)]
pub struct UnknownLevelReference {
    pub level: String,
}

/// What changes with the active level: its name, the geometry that stands for
/// it, and the player.
#[derive(Debug, PartialEq, Eq)]
pub struct World {
    pub current_level: CurrentLevel,
    pub geometry: Vec<LevelGeometry>,
    pub player: Actor,
}

impl World {
    /// The world before the first level is installed: no active level, no
    /// geometry, and a settled player at the origin that faces the default direction.
    pub fn new() -> (r: World)
        ensures
            r.current_level.0 is None,
            r.geometry@.len() == 0,
            r.player == (Actor {
                grid_position: GridPosition { x: 0, y: 0 },
                direction: GridDirection::South,
                transition: None,
            }),
    {
        World {
            current_level: CurrentLevel(None),
            geometry: Vec::new(),
            player: Actor {
                grid_position: GridPosition { x: 0, y: 0 },
                direction: GridDirection::South,
                transition: None,
            },
        }
    }

    /// Whether the name of the active level is registered in `level_assets`.
    pub open spec fn refers_to_loaded(&self, level_assets: &LevelAssets) -> bool {
        self.current_level.0 matches Some(name) && level_assets@.dom().contains(name@)
    }
}

/// The player as a swap to `level` on `event` places it.
pub open spec fn spec_spawned(level: &Level, event: &ChangeLevel) -> Actor {
    Actor {
        grid_position: match event.position {
            Some(position) => position,
            None => level.start_pos,
        },
        direction: GridDirection::South,
        transition: None,
    }
}

/// Swaps the active level as `event` asks.
///
/// Where the level that `event` names is registered, the swap is carried out
/// in three steps, in this order: the geometry of the level that is left is
/// retired, the new level is installed with its own geometry, and the player
/// is placed in it. Afterwards the world holds nothing of the old level.
/// Where the level is not registered, the swap is refused: the error names
/// the level and the world stays as it was.
pub fn swap(world: &mut World, level_assets: &LevelAssets, event: &ChangeLevel) -> (r: Result<
    (),
    UnknownLevelReference,
>)
    ensures
        level_assets@.dom().contains(event.level@) ==> {
            &&& r is Ok
            &&& final(world).refers_to_loaded(level_assets)
            &&& final(world).current_level.0 == Some(event.level)
            &&& final(world).geometry@ == spec_create_level_geometry(&level_assets@[event.level@])
            &&& final(world).player == spec_spawned(&level_assets@[event.level@], event)
        },
        !level_assets@.dom().contains(event.level@) ==> {
            &&& r == Err::<(), UnknownLevelReference>(UnknownLevelReference { level: event.level })
            &&& *final(world) == *old(world)
        },
{
    match level_assets.level(&event.level) {
        Ok(level) => {
            level_change_despawn(world);
            level_change_create(world, &event.level, level);
            move_player_to_start_pos(world, level, event);
            assert(world.geometry@ =~= spec_create_level_geometry(level));
            Ok(())
        },
        Err(error) => Err(error),
    }
}

} // verus!
