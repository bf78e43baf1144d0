//! Grid geometry and the movement state machine of an actor.
//!
//! A position is a cell address, a direction one of the four cardinal facings.
//! An actor owns one of each and at most one transition in flight; while a
//! transition is in flight every further move or turn intent is dropped.

use vstd::prelude::*;

use crate::level::asset::Level;

verus! {

/// The error of a step that would leave the coordinate range of the grid.
#[derive(Debug, Clone, Copy, PartialEq, Eq, Structural)]
pub struct OutOfRange;

/// The address of a cell: column `x`, row `y`, counted from the north-west corner.
#[derive(Debug, Clone, Copy, PartialEq, Eq, Hash, Structural)]
pub struct GridPosition {
    pub x: usize,
    pub y: usize,
}

impl Default for GridPosition {
    fn default() -> (r: Self)
        ensures
            r == (GridPosition { x: 0, y: 0 }),
    {
        GridPosition { x: 0, y: 0 }
    }
}

/// One of the four cardinal facings. North is towards row 0, west towards column 0.
#[derive(Debug, Clone, Copy, PartialEq, Eq, Hash, Structural)]
pub enum GridDirection {
    North,
    East,
    South,
    West,
}

impl Default for GridDirection {
    fn default() -> (r: Self)
        ensures
            r == GridDirection::South,
    {
        GridDirection::South
    }
}

impl GridDirection {
    /// The change of the column index on one step in this direction.
    pub open spec fn dx(self) -> int {
        match self {
            GridDirection::East => 1,
            GridDirection::West => -1,
            _ => 0,
        }
    }

    /// The change of the row index on one step in this direction.
    pub open spec fn dy(self) -> int {
        match self {
            GridDirection::South => 1,
            GridDirection::North => -1,
            _ => 0,
        }
    }

    /// The facing itself.
    pub fn front(&self) -> (r: GridDirection)
        ensures
            r == *self,
    {
        *self
    }

    /// The facing a quarter turn clockwise: north, east, south, west, north.
    pub open spec fn spec_right(&self) -> GridDirection {
        match *self {
            GridDirection::North => GridDirection::East,
            GridDirection::East => GridDirection::South,
            GridDirection::South => GridDirection::West,
            GridDirection::West => GridDirection::North,
        }
    }

    /// The opposite facing.
    pub open spec fn spec_back(&self) -> GridDirection {
        match *self {
            GridDirection::North => GridDirection::South,
            GridDirection::East => GridDirection::West,
            GridDirection::South => GridDirection::North,
            GridDirection::West => GridDirection::East,
        }
    }

    /// The facing a quarter turn counter-clockwise: north, west, south, east, north.
    pub open spec fn spec_left(&self) -> GridDirection {
        match *self {
            GridDirection::North => GridDirection::West,
            GridDirection::East => GridDirection::North,
            GridDirection::South => GridDirection::East,
            GridDirection::West => GridDirection::South,
        }
    }

    /// Turns a quarter turn clockwise.
    #[verifier::when_used_as_spec(spec_right)]
    pub fn right(&self) -> (r: GridDirection)
        ensures
            r == self.spec_right(),
    {
        match self {
            GridDirection::North => GridDirection::East,
            GridDirection::East => GridDirection::South,
            GridDirection::South => GridDirection::West,
            GridDirection::West => GridDirection::North,
        }
    }

    /// Turns half a turn.
    #[verifier::when_used_as_spec(spec_back)]
    pub fn back(&self) -> (r: GridDirection)
        ensures
            r == self.spec_back(),
    {
        match self {
            GridDirection::North => GridDirection::South,
            GridDirection::East => GridDirection::West,
            GridDirection::South => GridDirection::North,
            GridDirection::West => GridDirection::East,
        }
    }

    /// Turns a quarter turn counter-clockwise.
    #[verifier::when_used_as_spec(spec_left)]
    pub fn left(&self) -> (r: GridDirection)
        ensures
            r == self.spec_left(),
    {
        match self {
            GridDirection::North => GridDirection::West,
            GridDirection::East => GridDirection::North,
            GridDirection::South => GridDirection::East,
            GridDirection::West => GridDirection::South,
        }
    }

    /// The rotations form the cyclic group of order four: four right turns
    /// give the facing back, left undoes right and right undoes left, two half
    /// turns give the facing back, and a half turn is two right turns.
    pub proof fn lemma_rotations(self)
        ensures
            self.right().right().right().right() == self,
            self.right().left() == self,
            self.left().right() == self,
            self.back().back() == self,
            self.back() == self.right().right(),
            self.left() == self.right().right().right(),
    {
    }
}

impl GridPosition {
    /// The neighbour of `self` in `direction`: the unit step applied to the
    /// coordinates, or `OutOfRange` where a coordinate would leave the range of `usize`.
    pub open spec fn spec_next(&self, direction: &GridDirection) -> Result<GridPosition, OutOfRange> {
        let x = self.x + direction.dx();
        let y = self.y + direction.dy();
        if 0 <= x <= usize::MAX && 0 <= y <= usize::MAX {
            Ok(GridPosition { x: x as usize, y: y as usize })
        } else {
            Err(OutOfRange)
        }
    }

    /// Steps one cell in `direction`. The bounds of a level are not looked at.
    #[verifier::when_used_as_spec(spec_next)]
    pub fn next(&self, direction: &GridDirection) -> (r: Result<Self, OutOfRange>)
        ensures
            r == self.spec_next(direction),
    {
        let stepped: (Option<usize>, Option<usize>) = match direction {
            GridDirection::North => (Some(self.x), self.y.checked_sub(1)),
            GridDirection::East => (self.x.checked_add(1), Some(self.y)),
            GridDirection::South => (Some(self.x), self.y.checked_add(1)),
            GridDirection::West => (self.x.checked_sub(1), Some(self.y)),
        };
        match stepped {
            (Some(x), Some(y)) => Ok(GridPosition { x, y }),
            _ => Err(OutOfRange),
        }
    }

    /// A step and the step back: where a step in `direction` stays in range,
    /// the step in the opposite direction from there stays in range too and
    /// ends at the start.
    pub proof fn lemma_step_and_back(self, direction: GridDirection)
        requires
            self.next(&direction) is Ok,
        ensures
            self.next(&direction).unwrap().next(&direction.back()) == Ok::<GridPosition, OutOfRange>(
                self,
            ),
    {
    }
}

/// The value that a transition in flight will set when it completes.
#[derive(Debug, PartialEq, Eq)]
pub struct EaseTo<T: Copy> {
    pub target: T,
}

impl<T: Copy> Clone for EaseTo<T> {
    fn clone(&self) -> (r: Self)
        ensures
            r == *self,
    {
        EaseTo { target: self.target }
    }
}

impl<T: Copy> Copy for EaseTo<T> {

}

impl<T: Copy> EaseTo<T> {
    /// A transition towards `target`.
    pub fn new(target: T) -> (r: Self)
        ensures
            r.target == target,
    {
        EaseTo { target }
    }
}

/// The intent to face `direction`.
#[derive(Debug, Clone, Copy, PartialEq, Eq)]
pub struct FaceDirection {
    pub direction: GridDirection,
}

/// The one transition that an actor can have in flight: a move or a turn.
#[derive(Debug, Clone, Copy, PartialEq, Eq)]
pub enum Transition {
    Position(EaseTo<GridPosition>),
    Direction(EaseTo<GridDirection>),
}

/// The controllable entity: where it stands, where it faces, and the
/// transition in flight, if there is one. An actor without one is settled.
#[derive(Debug, Clone, Copy, PartialEq, Eq)]
pub struct Actor {
    pub grid_position: GridPosition,
    pub direction: GridDirection,
    pub transition: Option<Transition>,
}

/// Why a move towards a cell is not begun.
#[derive(Debug, Clone, Copy, PartialEq, Eq, Structural)]
pub enum MoveError {
    /// The step leaves the coordinate range.
    OutOfRange,
    /// The cell is in range and beyond the actual extents of the level.
    LevelBoundsExceeded,
    /// The cell is `Void`.
    ImpassableTarget,
    /// The cell holds an object, which is to be interacted with, not walked on.
    OccupiedByInteractable,
}

impl Actor {
    /// A settled actor at `grid_position` that faces `direction`.
    pub fn new(grid_position: GridPosition, direction: GridDirection) -> (r: Actor)
        ensures
            r == (Actor { grid_position, direction, transition: None }),
    {
        Actor { grid_position, direction, transition: None }
    }

    /// Whether no transition is in flight.
    pub open spec fn spec_is_settled(&self) -> bool {
        self.transition is None
    }

    /// Whether no transition is in flight.
    #[verifier::when_used_as_spec(spec_is_settled)]
    pub fn is_settled(&self) -> (r: bool)
        ensures
            r == self.spec_is_settled(),
    {
        self.transition.is_none()
    }

    /// Whether the actor stands on floor of `level`, and moves towards floor
    /// where it moves.
    pub open spec fn on_floor(&self, level: &Level) -> bool {
        &&& level.is_passable(&self.grid_position)
        &&& self.transition matches Some(Transition::Position(ease)) ==> level.is_passable(
            &ease.target,
        )
    }
}

/// The cell that a move from `position` in `direction` enters, or why the
/// move is not begun. The checks run in this order: the step stays in range,
/// the cell is within the level, it is not `Void`, it holds no object.
pub open spec fn spec_move_target(
    level: &Level,
    position: &GridPosition,
    direction: &GridDirection,
) -> Result<GridPosition, MoveError> {
    match position.next(direction) {
        Err(_) => Err(MoveError::OutOfRange),
        Ok(target) => if !level.in_bounds(target.x, target.y) {
            Err(MoveError::LevelBoundsExceeded)
        } else if !level.is_passable(&target) {
            Err(MoveError::ImpassableTarget)
        } else if level.interactables@.dom().contains(target) {
            Err(MoveError::OccupiedByInteractable)
        } else {
            Ok(target)
        },
    }
}

/// Validates a move from `position` in `direction` against `level`.
#[verifier::when_used_as_spec(spec_move_target)]
pub fn move_target(level: &Level, position: &GridPosition, direction: &GridDirection) -> (r: Result<
    GridPosition,
    MoveError,
>)
    ensures
        r == spec_move_target(level, position, direction),
{
    match position.next(direction) {
        Err(_) => Err(MoveError::OutOfRange),
        Ok(target) => match level.tile_at(target.x, target.y) {
            None => Err(MoveError::LevelBoundsExceeded),
            Some(tile) => if !tile.is_floor() {
                Err(MoveError::ImpassableTarget)
            } else if level.interactables.contains_key(&target) {
                Err(MoveError::OccupiedByInteractable)
            } else {
                Ok(target)
            },
        },
    }
}

/// The actor after a move intent: a settled actor whose move is valid begins
/// the transition towards the cell in front of it; any other actor is unchanged.
pub open spec fn spec_move_forward(level: &Level, actor: &Actor) -> Actor {
    if actor.transition is Some {
        *actor
    } else {
        match move_target(level, &actor.grid_position, &actor.direction) {
            Ok(target) => Actor {
                transition: Some(Transition::Position(EaseTo { target })),
                ..*actor
            },
            Err(_) => *actor,
        }
    }
}

/// Handles a move intent. The position itself changes only when the
/// transition completes.
#[verifier::when_used_as_spec(spec_move_forward)]
pub fn move_forward(level: &Level, actor: &Actor) -> (r: Actor)
    ensures
        r == spec_move_forward(level, actor),
{
    if actor.transition.is_some() {
        return *actor;
    }
    match move_target(level, &actor.grid_position, &actor.direction) {
        Ok(target) => Actor {
            grid_position: actor.grid_position,
            direction: actor.direction,
            transition: Some(Transition::Position(EaseTo::new(target))),
        },
        Err(_) => *actor,
    }
}

/// The actor after a turn intent: a settled actor begins the transition
/// towards the facing asked for, whatever the level holds; an actor in
/// transition is unchanged.
pub open spec fn spec_face_direction(actor: &Actor, event: &FaceDirection) -> Actor {
    if actor.transition is Some {
        *actor
    } else {
        Actor {
            transition: Some(Transition::Direction(EaseTo { target: event.direction })),
            ..*actor
        }
    }
}

/// Handles a turn intent. The facing itself changes only when the
/// transition completes.
#[verifier::when_used_as_spec(spec_face_direction)]
pub fn face_direction(actor: &Actor, event: &FaceDirection) -> (r: Actor)
    ensures
        r == spec_face_direction(actor, event),
{
    if actor.transition.is_some() {
        return *actor;
    }
    Actor {
        grid_position: actor.grid_position,
        direction: actor.direction,
        transition: Some(Transition::Direction(EaseTo::new(event.direction))),
    }
}

/// The actor after its transition has completed: the target of the
/// transition is set and the actor is settled. A settled actor is unchanged.
pub open spec fn spec_end_of_ease(actor: &Actor) -> Actor {
    match actor.transition {
        Some(Transition::Position(ease)) => Actor {
            grid_position: ease.target,
            direction: actor.direction,
            transition: None,
        },
        Some(Transition::Direction(ease)) => Actor {
            grid_position: actor.grid_position,
            direction: ease.target,
            transition: None,
        },
        None => *actor,
    }
}

/// Completes the transition in flight.
#[verifier::when_used_as_spec(spec_end_of_ease)]
pub fn end_of_ease(actor: &Actor) -> (r: Actor)
    ensures
        r == spec_end_of_ease(actor),
{
    match actor.transition {
        Some(Transition::Position(ease)) => Actor {
            grid_position: ease.target,
            direction: actor.direction,
            transition: None,
        },
        Some(Transition::Direction(ease)) => Actor {
            grid_position: actor.grid_position,
            direction: ease.target,
            transition: None,
        },
        None => *actor,
    }
}

/// An actor in transition drops every move and turn intent, so that the one
/// transition in flight stays the only one until it completes; once it has
/// completed, the actor is settled and a turn intent begins a transition again.
pub proof fn lemma_transition_excludes_intents(level: &Level, actor: &Actor, event: &FaceDirection)
    requires
        !actor.is_settled(),
    ensures
        move_forward(level, actor) == *actor,
        face_direction(actor, event) == *actor,
        end_of_ease(actor).is_settled(),
        !face_direction(&end_of_ease(actor), event).is_settled(),
{
}

/// A move towards a cell out of range, beyond the extents of the level, of
/// `Void` or with an object begins no transition and leaves the actor as it
/// was; and no move intent, valid or not, changes the position at once.
pub proof fn lemma_blocked_move_changes_nothing(level: &Level, actor: &Actor)
    ensures
        move_target(level, &actor.grid_position, &actor.direction) is Err ==> move_forward(
            level,
            actor,
        ) == *actor,
        move_forward(level, actor).grid_position == actor.grid_position,
        move_forward(level, actor).direction == actor.direction,
        actor.is_settled() && move_target(level, &actor.grid_position, &actor.direction) is Err
            ==> end_of_ease(&move_forward(level, actor)).grid_position == actor.grid_position,
{
}

/// What an accepted move enters: a cell next to the actor that is floor of
/// the level and holds no object.
pub proof fn lemma_accepted_move(level: &Level, actor: &Actor)
    requires
        actor.is_settled(),
        move_target(level, &actor.grid_position, &actor.direction) is Ok,
    ensures
        ({
            let target = move_target(level, &actor.grid_position, &actor.direction).unwrap();
            &&& actor.grid_position.next(&actor.direction) == Ok::<GridPosition, OutOfRange>(target)
            &&& level.is_passable(&target)
            &&& level.interactable_at(&target) is None
            &&& !move_forward(level, actor).is_settled()
            &&& end_of_ease(&move_forward(level, actor)) == (Actor {
                grid_position: target,
                ..*actor
            })
        }),
{
}

/// Moves and turns keep an actor on the floor: an actor that stands on floor
/// of the level, and moves towards floor where it moves, still does so after
/// any move intent, turn intent or completed transition.
pub proof fn lemma_actor_stays_on_floor(level: &Level, actor: &Actor, event: &FaceDirection)
    requires
        actor.on_floor(level),
    ensures
        move_forward(level, actor).on_floor(level),
        face_direction(actor, event).on_floor(level),
        end_of_ease(actor).on_floor(level),
{
}

} // verus!
