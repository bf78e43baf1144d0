//! The static world of one level: the tile grid, the start position and the
//! objects bound to cells.

use vstd::prelude::*;

use bevy::utils::HashMap;

use crate::level::interactables::Interactable;
use crate::level::Tile;
use crate::movement::GridPosition;

verus! {

/// The objects of a level by the cell that each one occupies: a
/// `bevy::utils::HashMap`, which is the `HashMap` of `hashbrown` with a
/// hasher of `ahash`, keyed by column and row. The verifier does not look
/// inside; what the map holds is `interactable_cells`.
#[verifier::external_body]
#[derive(Debug, PartialEq, Eq)]
pub struct Interactables {
    cells: HashMap<(usize, usize), Interactable>,
}

/// What the map inside an `Interactables` holds: the object of each occupied
/// cell, by the cell's column and row.
pub uninterp spec fn interactable_cells(m: Interactables) -> Map<(usize, usize), Interactable>;

/// `hashbrown::HashMap::default`: the map that it makes holds no key.
#[verifier::external_body]
fn cells_empty() -> (r: Interactables)
    ensures
        forall|key: (usize, usize)| !interactable_cells(r).dom().contains(key),
{
    Interactables { cells: HashMap::default() }
}

/// `hashbrown::HashMap::insert`: afterwards the key maps to the new value and
/// every other key is as before; the value that the key had, if it had one,
/// is handed back.
#[verifier::external_body]
fn cells_insert(m: &mut Interactables, x: usize, y: usize, value: Interactable) -> (r: Option<
    Interactable,
>)
    ensures
        interactable_cells(*final(m)) == interactable_cells(*old(m)).insert((x, y), value),
        r == (if interactable_cells(*old(m)).dom().contains((x, y)) {
            Some(interactable_cells(*old(m))[(x, y)])
        } else {
            None
        }),
{
    m.cells.insert((x, y), value)
}

/// `hashbrown::HashMap::get`: the value of the key, or `None` where the map
/// has no such key.
#[verifier::external_body]
fn cells_get(m: &Interactables, x: usize, y: usize) -> (r: Option<&Interactable>)
    ensures
        r == (if interactable_cells(*m).dom().contains((x, y)) {
            Some(&interactable_cells(*m)[(x, y)])
        } else {
            None
        }),
{
    m.cells.get(&(x, y))
}

/// `hashbrown::HashMap::contains_key`: whether the map has the key.
#[verifier::external_body]
fn cells_contains_key(m: &Interactables, x: usize, y: usize) -> (r: bool)
    ensures
        r == interactable_cells(*m).dom().contains((x, y)),
{
    m.cells.contains_key(&(x, y))
}

impl View for Interactables {
    type V = Map<GridPosition, Interactable>;

    /// The object of each occupied cell, by the cell's position.
    open spec fn view(&self) -> Map<GridPosition, Interactable> {
        Map::new(
            |p: GridPosition| interactable_cells(*self).dom().contains((p.x, p.y)),
            |p: GridPosition| interactable_cells(*self)[(p.x, p.y)],
        )
    }
}

impl Interactables {
    /// A map without objects.
    pub fn new() -> (r: Interactables)
        ensures
            r@ == Map::<GridPosition, Interactable>::empty(),
    {
        let r = cells_empty();
        assert(r@ =~= Map::<GridPosition, Interactable>::empty());
        r
    }

    /// Binds `interactable` to the cell at `position` and returns the object
    /// that was bound to it before, if there was one. No other cell changes.
    pub fn insert(&mut self, position: GridPosition, interactable: Interactable) -> (r: Option<
        Interactable,
    >)
        ensures
            final(self)@ == old(self)@.insert(position, interactable),
            r == (if old(self)@.dom().contains(position) {
                Some(old(self)@[position])
            } else {
                None
            }),
    {
        let r = cells_insert(self, position.x, position.y, interactable);
        assert(self@ =~= old(self)@.insert(position, interactable));
        r
    }

    /// The object bound to the cell at `position`.
    pub fn get(&self, position: &GridPosition) -> (r: Option<&Interactable>)
        ensures
            r == (if self@.dom().contains(*position) {
                Some(&self@[*position])
            } else {
                None
            }),
    {
        cells_get(self, position.x, position.y)
    }

    /// Whether an object is bound to the cell at `position`.
    pub fn contains_key(&self, position: &GridPosition) -> (r: bool)
        ensures
            r == self@.dom().contains(*position),
    {
        cells_contains_key(self, position.x, position.y)
    }
}

/// One level. It is built once and read from then on.
///
/// `grid` holds the rows from north to south, each row its tiles from west to
/// east; rows may differ in length, and a cell that its row does not reach is
/// no part of the level.
#[derive(Debug, PartialEq, Eq)]
pub struct Level {
    pub grid: Vec<Vec<Tile>>,
    pub start_pos: GridPosition,
    pub interactables: Interactables,
}

impl Default for Level {
    fn default() -> (r: Self)
        ensures
            r.grid@.len() == 0,
            r.start_pos == (GridPosition { x: 0, y: 0 }),
            r.interactables@ == Map::<GridPosition, Interactable>::empty(),
    {
        Level {
            grid: Vec::new(),
            start_pos: GridPosition { x: 0, y: 0 },
            interactables: Interactables::new(),
        }
    }
}

impl Level {
    /// Whether the grid has a cell in column `x` of row `y`.
    pub open spec fn in_bounds(&self, x: usize, y: usize) -> bool {
        y < self.grid@.len() && x < self.grid@[y as int]@.len()
    }

    /// The tile in column `x` of row `y`, where the grid has such a cell.
    pub open spec fn spec_tile_at(&self, x: usize, y: usize) -> Option<&Tile> {
        if self.in_bounds(x, y) {
            Some(&self.grid@[y as int]@[x as int])
        } else {
            None
        }
    }

    /// Whether the cell at `position` is part of the grid and floor.
    pub open spec fn spec_is_passable(&self, position: &GridPosition) -> bool {
        self.in_bounds(position.x, position.y) && self.grid@[position.y as int]@[position.x as int]
            != Tile::Void
    }

    /// The object bound to the cell at `position`, if there is one.
    pub open spec fn spec_interactable_at(&self, position: &GridPosition) -> Option<Interactable> {
        if self.interactables@.dom().contains(*position) {
            Some(self.interactables@[*position])
        } else {
            None
        }
    }

    /// Whether the level is authored as it should be: the start position is
    /// floor, and so is the destination of each teleporter that leads to a
    /// cell of this level. Nothing checks this when a level is built.
    pub open spec fn well_authored(&self) -> bool {
        &&& self.is_passable(&self.start_pos)
        &&& forall|position: GridPosition| #[trigger]
            self.interactables@.dom().contains(position) ==> (self.interactables@[position] matches Interactable::Teleporter(
                teleporter,
            ) ==> teleporter.level is None ==> self.is_passable(&teleporter.grid_position))
    }

    /// A level of the given grid and start position without objects.
    pub fn new(grid: Vec<Vec<Tile>>, start_pos: GridPosition) -> (r: Level)
        ensures
            r.grid == grid,
            r.start_pos == start_pos,
            r.interactables@ == Map::<GridPosition, Interactable>::empty(),
    {
        Level { grid, start_pos, interactables: Interactables::new() }
    }

    /// The tile in column `x` of row `y`, or `None` where `y` is no row of the
    /// grid or row `y` has no column `x`.
    #[verifier::when_used_as_spec(spec_tile_at)]
    pub fn tile_at(&self, x: usize, y: usize) -> (r: Option<&Tile>)
        ensures
            r == self.spec_tile_at(x, y),
    {
        if y < self.grid.len() {
            let row: &Vec<Tile> = &self.grid[y];
            if x < row.len() {
                return Some(&row[x]);
            }
        }
        None
    }

    /// Whether an actor can stand on the cell at `position`: the cell is part
    /// of the grid and its tile is not `Void`.
    #[verifier::when_used_as_spec(spec_is_passable)]
    pub fn is_passable(&self, position: &GridPosition) -> (r: bool)
        ensures
            r == self.spec_is_passable(position),
    {
        match self.tile_at(position.x, position.y) {
            Some(tile) => tile.is_floor(),
            None => false,
        }
    }

    /// The object bound to the cell at `position`, if there is one.
    #[verifier::when_used_as_spec(spec_interactable_at)]
    pub fn interactable_at(&self, position: &GridPosition) -> (r: Option<Interactable>)
        ensures
            r == self.spec_interactable_at(position),
    {
        match self.interactables.get(position) {
            Some(interactable) => Some(interactable.clone()),
            None => None,
        }
    }
}

} // verus!
