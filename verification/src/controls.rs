//! From what the player asks for to the intents of the actor.

use vstd::prelude::*;

use crate::level::asset::Level;
use crate::level::change::{spec_spawned, ChangeLevel};
use crate::level::interactables::{interact, Effect, Interact, Interactable, Teleporter};
use crate::movement::{Actor, FaceDirection, GridDirection, GridPosition, OutOfRange};

verus! {

/// The turn that the pressed keys ask for, seen from `direction`: a quarter
/// turn right for the right key, else a half turn for the down key, else a
/// quarter turn left for the left key, else none.
pub open spec fn spec_face_direction_controls(
    direction: &GridDirection,
    right: bool,
    down: bool,
    left: bool,
) -> Option<FaceDirection> {
    if right {
        Some(FaceDirection { direction: direction.right() })
    } else if down {
        Some(FaceDirection { direction: direction.back() })
    } else if left {
        Some(FaceDirection { direction: direction.left() })
    } else {
        None
    }
}

/// Turns the state of the three turn keys into a turn intent. Where several
/// are pressed at once, right goes before down and down before left.
#[verifier::when_used_as_spec(spec_face_direction_controls)]
pub fn face_direction_controls(direction: &GridDirection, right: bool, down: bool, left: bool) -> (r:
    Option<FaceDirection>)
    ensures
        r == spec_face_direction_controls(direction, right, down, left),
{
    if right {
        Some(FaceDirection { direction: direction.right() })
    } else if down {
        Some(FaceDirection { direction: direction.back() })
    } else if left {
        Some(FaceDirection { direction: direction.left() })
    } else {
        None
    }
}

/// The interaction that an actor who asks to interact begins: with the object
/// in the cell in front of it, where that cell is in range and holds one.
pub open spec fn spec_interact_controls(level: &Level, actor: &Actor) -> Option<Interact> {
    match actor.grid_position.next(&actor.direction) {
        Ok(faced) => match level.interactable_at(&faced) {
            Some(target) => Some(Interact { target }),
            None => None,
        },
        Err(_) => None,
    }
}

/// Resolves the intent to interact into the object that the actor faces. A
/// transition in flight is not looked at: the position and the facing count
/// as they stand.
#[verifier::when_used_as_spec(spec_interact_controls)]
pub fn interact_controls(level: &Level, actor: &Actor) -> (r: Option<Interact>)
    ensures
        r == spec_interact_controls(level, actor),
{
    match actor.grid_position.next(&actor.direction) {
        Ok(faced) => match level.interactable_at(&faced) {
            Some(target) => Some(Interact { target }),
            None => None,
        },
        Err(_) => None,
    }
}

/// An actor that faces no object interacts with nothing: where the cell in
/// front of it is out of range or holds no object, no interaction begins, and
/// where it holds one, the interaction is with that object.
pub proof fn lemma_interaction_needs_a_faced_object(level: &Level, actor: &Actor)
    ensures
        actor.grid_position.next(&actor.direction) is Err ==> interact_controls(level, actor) is None,
        actor.grid_position.next(&actor.direction) matches Ok(faced) ==> (interact_controls(
            level,
            actor,
        ) == match level.interactable_at(&faced) {
            Some(target) => Some(Interact { target }),
            None => None,
        }),
{
}

/// An actor that faces a teleporter within the level and interacts stands at
/// the destination of the teleporter at once: nothing else of it changes, no
/// transition begins and none that is in flight ends, and nothing is asked of
/// the world.
pub proof fn lemma_teleport_within_level(
    level: &Level,
    actor: &Actor,
    faced: GridPosition,
    destination: GridPosition,
)
    requires
        actor.grid_position.next(&actor.direction) == Ok::<GridPosition, OutOfRange>(faced),
        level.interactable_at(&faced) == Some(
            Interactable::Teleporter(Teleporter { grid_position: destination, level: None }),
        ),
    ensures
        interact_controls(level, actor) is Some,
        interact(&interact_controls(level, actor).unwrap(), actor) == ((
            Actor { grid_position: destination, ..*actor },
            None::<Effect>,
        )),
{
}

/// An actor that faces a teleporter into another level and interacts asks
/// for the swap to that level; and the player whom that swap places stands at
/// the destination of the teleporter, settled, and faces the default
/// direction, whatever the level holds.
pub proof fn lemma_teleport_across_levels(
    level: &Level,
    actor: &Actor,
    faced: GridPosition,
    destination: GridPosition,
    name: String,
    entered: &Level,
)
    requires
        actor.grid_position.next(&actor.direction) == Ok::<GridPosition, OutOfRange>(faced),
        level.interactable_at(&faced) == Some(
            Interactable::Teleporter(Teleporter { grid_position: destination, level: Some(name) }),
        ),
    ensures
        interact_controls(level, actor) is Some,
        interact(&interact_controls(level, actor).unwrap(), actor) == ((
            *actor,
            Some(Effect::ChangeLevel(ChangeLevel { level: name, position: Some(destination) })),
        )),
        spec_spawned(entered, &ChangeLevel { level: name, position: Some(destination) }) == (Actor {
            grid_position: destination,
            direction: GridDirection::South,
            transition: None,
        }),
{
}

/// Interactions keep an actor on the floor of a well-authored level: an
/// actor that stands on floor, and moves towards floor where it moves, still
/// does so after it has interacted with the object that it faces.
pub proof fn lemma_interaction_keeps_actor_on_floor(level: &Level, actor: &Actor)
    requires
        level.well_authored(),
        actor.on_floor(level),
        interact_controls(level, actor) is Some,
    ensures
        interact(&interact_controls(level, actor).unwrap(), actor).0.on_floor(level),
{
    let faced = actor.grid_position.next(&actor.direction).unwrap();
    assert(level.interactables@.dom().contains(faced));
}

} // verus!
