//! The fixed objects of a level and what activating one of them does.

use vstd::prelude::*;

use crate::level::change::ChangeLevel;
use crate::movement::{Actor, GridPosition};

verus! {

/// What a chest holds.
#[derive(Debug, Clone, Copy, PartialEq, Eq, Structural)]
pub enum Loot {
    Key,
}

/// A jump to `grid_position`: within the active level where `level` is `None`,
/// else into the level of that name.
#[derive(Debug, PartialEq, Eq)]
pub struct Teleporter {
    pub grid_position: GridPosition,
    pub level: Option<String>,
}

impl Clone for Teleporter {
    fn clone(&self) -> (r: Self)
        ensures
            r == *self,
    {
        let level: Option<String> = match &self.level {
            Some(name) => Some(name.clone()),
            None => None,
        };
        Teleporter { grid_position: self.grid_position, level }
    }
}

/// An object bound to one cell, activated by facing it and interacting.
#[derive(Debug, PartialEq, Eq)]
pub enum Interactable {
    Chest(Loot),
    Door,
    Teleporter(Teleporter),
}

impl Clone for Interactable {
    fn clone(&self) -> (r: Self)
        ensures
            r == *self,
    {
        match self {
            Interactable::Chest(loot) => Interactable::Chest(*loot),
            Interactable::Door => Interactable::Door,
            Interactable::Teleporter(teleporter) => Interactable::Teleporter(teleporter.clone()),
        }
    }
}

/// The intent to activate `target`, the object that the actor faces.
#[derive(Debug, PartialEq, Eq)]
pub struct Interact {
    pub target: Interactable,
}

/// What an interaction asks of the world beyond the actor itself.
#[derive(Debug, PartialEq, Eq)]
pub enum Effect {
    /// The actor has taken the loot of a chest.
    LootAcquired(Loot),
    /// The active level is to be swapped.
    ChangeLevel(ChangeLevel),
}

/// The actor after it has activated the target of `event`, and the effect
/// that this has on the world.
///
/// A chest hands out its loot. A door does nothing. A teleporter without a
/// level name sets the actor's position to its destination at once, whether or
/// not a transition is in flight, and begins none. A teleporter with a level
/// name leaves the actor alone and asks for a swap to that level, with its
/// destination as the spawn position.
pub open spec fn spec_interact(event: &Interact, actor: &Actor) -> (Actor, Option<Effect>) {
    match event.target {
        Interactable::Chest(loot) => (*actor, Some(Effect::LootAcquired(loot))),
        Interactable::Door => (*actor, None),
        Interactable::Teleporter(teleporter) => match teleporter.level {
            None => (Actor { grid_position: teleporter.grid_position, ..*actor }, None),
            Some(name) => (
                *actor,
                Some(
                    Effect::ChangeLevel(
                        ChangeLevel { level: name, position: Some(teleporter.grid_position) },
                    ),
                ),
            ),
        },
    }
}

/// Dispatches an interaction on the kind of its target.
#[verifier::when_used_as_spec(spec_interact)]
pub fn interact(event: &Interact, actor: &Actor) -> (r: (Actor, Option<Effect>))
    ensures
        r == spec_interact(event, actor),
{
    match &event.target {
        Interactable::Chest(loot) => (*actor, Some(Effect::LootAcquired(*loot))),
        Interactable::Door => (*actor, None),
        Interactable::Teleporter(teleporter) => match &teleporter.level {
            None => (
                Actor {
                    grid_position: teleporter.grid_position,
                    direction: actor.direction,
                    transition: actor.transition,
                },
                None,
            ),
            Some(name) => (
                *actor,
                Some(
                    Effect::ChangeLevel(
                        ChangeLevel {
                            level: name.clone(),
                            position: Some(teleporter.grid_position),
                        },
                    ),
                ),
            ),
        },
    }
}

} // verus!
