//! The level model: tiles, the objects bound to cells, the registry of loaded
//! levels and the protocol that swaps the active one.

pub mod asset;
pub mod change;
pub mod create;
pub mod interactables;

use vstd::prelude::*;

verus! {

/// The terrain of one cell. `Void` is no floor at all: it cannot be entered and
/// nothing is drawn for it. Every other tile is floor that can be walked on.
#[derive(Debug, Clone, Copy, PartialEq, Eq, Hash, Structural)]
pub enum Tile {
    Void,
    Stone,
}

impl Default for Tile {
    fn default() -> (r: Self)
        ensures
            r == Tile::Void,
    {
        Tile::Void
    }
}

impl Tile {
    /// Whether the tile is floor.
    pub open spec fn spec_is_floor(&self) -> bool {
        *self != Tile::Void
    }

    /// Whether the tile is floor, that is anything but `Void`.
    #[verifier::when_used_as_spec(spec_is_floor)]
    pub fn is_floor(&self) -> (r: bool)
        ensures
            r == self.spec_is_floor(),
    {
        match self {
            Tile::Void => false,
            _ => true,
        }
    }
}

/// The name of the active level. `None` until the first swap.
#[derive(Debug, PartialEq, Eq)]
pub struct CurrentLevel(pub Option<String>);

impl Default for CurrentLevel {
    fn default() -> (r: Self)
        ensures
            r.0 is None,
    {
        CurrentLevel(None)
    }
}

} // verus!
