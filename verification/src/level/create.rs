//! The geometry that stands for a level, and the steps of a level swap.

use vstd::prelude::*;
use vstd::seq_lib::lemma_no_dup_in_concat;

use crate::level::asset::Level;
use crate::level::change::{spec_spawned, ChangeLevel, World};
use crate::level::CurrentLevel;
use crate::movement::{Actor, GridDirection, GridPosition};

verus! {

/// A kind of geometry: the floor of a cell, or the wall on one of its sides.
#[derive(Debug, Clone, Copy, PartialEq, Eq, Structural)]
pub enum GeometryKind {
    Floor,
    Wall(GridDirection),
}

/// One piece of the geometry of a level: what stands at which cell.
#[derive(Debug, Clone, Copy, PartialEq, Eq, Structural)]
pub struct LevelGeometry {
    pub position: GridPosition,
    pub kind: GeometryKind,
}

/// Whether the cell at `position` borders in `direction` on what is no floor:
/// the edge of the coordinate range, a cell that the grid does not have, or `Void`.
pub open spec fn spec_is_walled(level: &Level, position: &GridPosition, direction: &GridDirection) -> bool {
    match position.next(direction) {
        Ok(neighbour) => !level.is_passable(&neighbour),
        Err(_) => true,
    }
}

/// Whether a wall closes the cell at `position` in `direction`.
#[verifier::when_used_as_spec(spec_is_walled)]
pub fn is_walled(level: &Level, position: &GridPosition, direction: &GridDirection) -> (r: bool)
    ensures
        r == spec_is_walled(level, position, direction),
{
    match position.next(direction) {
        Ok(neighbour) => !level.is_passable(&neighbour),
        Err(_) => true,
    }
}

/// Whether `piece` belongs to the geometry of `level`: its cell is floor, and
/// it is the floor of that cell or the wall on a side where the cell borders
/// on what is no floor.
pub open spec fn belongs_to(level: &Level, piece: LevelGeometry) -> bool {
    &&& level.is_passable(&piece.position)
    &&& piece.kind matches GeometryKind::Wall(direction) ==> is_walled(
        level,
        &piece.position,
        &direction,
    )
}

/// The wall of the cell at `position` in `direction`, where there is one.
pub open spec fn wall_geometry(level: &Level, position: GridPosition, direction: GridDirection) -> Seq<
    LevelGeometry,
> {
    if is_walled(level, &position, &direction) {
        seq![LevelGeometry { position, kind: GeometryKind::Wall(direction) }]
    } else {
        Seq::empty()
    }
}

/// The geometry of one cell: nothing where the cell is no floor, else its
/// floor and then its walls to the north, south, west and east.
pub open spec fn tile_geometry(level: &Level, position: GridPosition) -> Seq<LevelGeometry> {
    if level.is_passable(&position) {
        seq![LevelGeometry { position, kind: GeometryKind::Floor }] + wall_geometry(
            level,
            position,
            GridDirection::North,
        ) + wall_geometry(level, position, GridDirection::South) + wall_geometry(
            level,
            position,
            GridDirection::West,
        ) + wall_geometry(level, position, GridDirection::East)
    } else {
        Seq::empty()
    }
}

/// The geometry of the first `columns` cells of row `y`, from west to east.
pub open spec fn row_geometry(level: &Level, y: usize, columns: nat) -> Seq<LevelGeometry>
    decreases columns,
{
    if columns == 0 {
        Seq::empty()
    } else {
        row_geometry(level, y, (columns - 1) as nat) + tile_geometry(
            level,
            GridPosition { x: (columns - 1) as usize, y },
        )
    }
}

/// The geometry of the first `rows` rows, from north to south.
pub open spec fn grid_geometry(level: &Level, rows: nat) -> Seq<LevelGeometry>
    decreases rows,
{
    if rows == 0 {
        Seq::empty()
    } else {
        grid_geometry(level, (rows - 1) as nat) + row_geometry(
            level,
            (rows - 1) as usize,
            level.grid@[rows - 1]@.len(),
        )
    }
}

/// The geometry of `level`: that of its cells, row by row.
pub open spec fn spec_create_level_geometry(level: &Level) -> Seq<LevelGeometry> {
    grid_geometry(level, level.grid@.len())
}

/// Appends the wall of the cell at `position` in `direction` to `out`, where there is one.
fn push_wall(out: &mut Vec<LevelGeometry>, level: &Level, position: GridPosition, direction: GridDirection)
    ensures
        final(out)@ == old(out)@ + wall_geometry(level, position, direction),
{
    if is_walled(level, &position, &direction) {
        out.push(LevelGeometry { position, kind: GeometryKind::Wall(direction) });
        assert(out@ =~= old(out)@ + wall_geometry(level, position, direction));
    } else {
        assert(out@ =~= old(out)@ + wall_geometry(level, position, direction));
    }
}

/// Lists the geometry of `level`: for each cell of floor the floor itself and
/// a wall on each side where the cell borders on what is no floor. Cells of
/// `Void` get nothing.
pub fn create_level_geometry(level: &Level) -> (r: Vec<LevelGeometry>)
    ensures
        r@ == spec_create_level_geometry(level),
{
    let mut out: Vec<LevelGeometry> = Vec::new();
    let mut y: usize = 0;
    while y < level.grid.len()
        invariant
            y <= level.grid@.len(),
            out@ == grid_geometry(level, y as nat),
        decreases level.grid@.len() - y,
    {
        let ghost before = out@;
        let columns: usize = level.grid[y].len();
        let mut x: usize = 0;
        while x < columns
            invariant
                y < level.grid@.len(),
                columns == level.grid@[y as int]@.len(),
                x <= columns,
                out@ == before + row_geometry(level, y, x as nat),
            decreases columns - x,
        {
            let position = GridPosition { x, y };
            let ghost row = out@;
            if level.is_passable(&position) {
                out.push(LevelGeometry { position, kind: GeometryKind::Floor });
                push_wall(&mut out, level, position, GridDirection::North);
                push_wall(&mut out, level, position, GridDirection::South);
                push_wall(&mut out, level, position, GridDirection::West);
                push_wall(&mut out, level, position, GridDirection::East);
            }
            assert(out@ =~= row + tile_geometry(level, position));
            x = x + 1;
            assert(out@ =~= before + row_geometry(level, y, x as nat));
        }
        y = y + 1;
    }
    out
}

/// A piece is in a concatenation exactly if it is in one of the two parts.
proof fn lemma_contains_of_concat(a: Seq<LevelGeometry>, b: Seq<LevelGeometry>, piece: LevelGeometry)
    ensures
        (a + b).contains(piece) <==> a.contains(piece) || b.contains(piece),
{
    if a.contains(piece) {
        let i = choose|i: int| 0 <= i < a.len() && a[i] == piece;
        assert((a + b)[i] == piece);
    }
    if b.contains(piece) {
        let i = choose|i: int| 0 <= i < b.len() && b[i] == piece;
        assert((a + b)[a.len() + i] == piece);
    }
    if (a + b).contains(piece) {
        let i = choose|i: int| 0 <= i < (a + b).len() && (a + b)[i] == piece;
        if i < a.len() {
            assert(a[i] == piece);
        } else {
            assert(b[i - a.len()] == piece);
        }
    }
}

/// The wall of a cell in a direction is that one piece, where the side is walled.
proof fn lemma_wall_geometry(
    level: &Level,
    position: GridPosition,
    direction: GridDirection,
    piece: LevelGeometry,
)
    ensures
        wall_geometry(level, position, direction).contains(piece) <==> is_walled(
            level,
            &position,
            &direction,
        ) && piece == (LevelGeometry { position, kind: GeometryKind::Wall(direction) }),
{
    let walls = wall_geometry(level, position, direction);
    if is_walled(level, &position, &direction) {
        assert(walls[0] == LevelGeometry { position, kind: GeometryKind::Wall(direction) });
    }
}

/// The geometry of a cell holds the pieces at that cell that belong to the level.
proof fn lemma_tile_geometry(level: &Level, position: GridPosition, piece: LevelGeometry)
    ensures
        tile_geometry(level, position).contains(piece) <==> piece.position == position && belongs_to(
            level,
            piece,
        ),
{
    let floor = seq![LevelGeometry { position, kind: GeometryKind::Floor }];
    let north = wall_geometry(level, position, GridDirection::North);
    let south = wall_geometry(level, position, GridDirection::South);
    let west = wall_geometry(level, position, GridDirection::West);
    let east = wall_geometry(level, position, GridDirection::East);
    if level.is_passable(&position) {
        lemma_contains_of_concat(floor + north + south + west, east, piece);
        lemma_contains_of_concat(floor + north + south, west, piece);
        lemma_contains_of_concat(floor + north, south, piece);
        lemma_contains_of_concat(floor, north, piece);
        lemma_wall_geometry(level, position, GridDirection::North, piece);
        lemma_wall_geometry(level, position, GridDirection::South, piece);
        lemma_wall_geometry(level, position, GridDirection::West, piece);
        lemma_wall_geometry(level, position, GridDirection::East, piece);
        assert(floor[0] == LevelGeometry { position, kind: GeometryKind::Floor });
        assert(floor.contains(piece) <==> piece == LevelGeometry {
            position,
            kind: GeometryKind::Floor,
        });
    }
}

/// The geometry of a part of a row holds the pieces at its cells that belong to the level.
proof fn lemma_row_geometry(level: &Level, y: usize, columns: nat, piece: LevelGeometry)
    requires
        columns <= usize::MAX + 1,
    ensures
        row_geometry(level, y, columns).contains(piece) <==> piece.position.y == y
            && piece.position.x < columns && belongs_to(level, piece),
    decreases columns,
{
    if columns > 0 {
        let position = GridPosition { x: (columns - 1) as usize, y };
        lemma_row_geometry(level, y, (columns - 1) as nat, piece);
        lemma_tile_geometry(level, position, piece);
        lemma_contains_of_concat(
            row_geometry(level, y, (columns - 1) as nat),
            tile_geometry(level, position),
            piece,
        );
    }
}

/// The geometry of the first rows holds the pieces at their cells that belong to the level.
proof fn lemma_grid_geometry(level: &Level, rows: nat, piece: LevelGeometry)
    requires
        rows <= level.grid@.len(),
    ensures
        grid_geometry(level, rows).contains(piece) <==> piece.position.y < rows && belongs_to(
            level,
            piece,
        ),
    decreases rows,
{
    if rows > 0 {
        assert(level.grid@.len() == level.grid.len());
        assert(level.grid@[rows - 1]@.len() == level.grid@[rows - 1].len());
        let y = (rows - 1) as usize;
        lemma_grid_geometry(level, (rows - 1) as nat, piece);
        lemma_row_geometry(level, y, level.grid@[rows - 1]@.len(), piece);
        lemma_contains_of_concat(
            grid_geometry(level, (rows - 1) as nat),
            row_geometry(level, y, level.grid@[rows - 1]@.len()),
            piece,
        );
    }
}

/// Two lists without repetition that share no piece join to one without repetition.
proof fn lemma_concat_lists_once(a: Seq<LevelGeometry>, b: Seq<LevelGeometry>)
    requires
        a.no_duplicates(),
        b.no_duplicates(),
        forall|piece: LevelGeometry| a.contains(piece) ==> !b.contains(piece),
    ensures
        (a + b).no_duplicates(),
{
    assert forall|i: int, j: int| 0 <= i < a.len() && 0 <= j < b.len() implies a[i] != b[j] by {
        assert(a.contains(a[i]));
        assert(b.contains(b[j]));
    }
    lemma_no_dup_in_concat(a, b);
}

/// The geometry of a cell lists each of its pieces once.
proof fn lemma_tile_lists_once(level: &Level, position: GridPosition)
    ensures
        tile_geometry(level, position).no_duplicates(),
{
    let floor = seq![LevelGeometry { position, kind: GeometryKind::Floor }];
    let north = wall_geometry(level, position, GridDirection::North);
    let south = wall_geometry(level, position, GridDirection::South);
    let west = wall_geometry(level, position, GridDirection::West);
    let east = wall_geometry(level, position, GridDirection::East);
    if level.is_passable(&position) {
        assert forall|piece: LevelGeometry| floor.contains(piece) implies !north.contains(piece) by {
            lemma_wall_geometry(level, position, GridDirection::North, piece);
        }
        lemma_concat_lists_once(floor, north);
        assert forall|piece: LevelGeometry| (floor + north).contains(piece) implies !south.contains(
            piece,
        ) by {
            lemma_contains_of_concat(floor, north, piece);
            lemma_wall_geometry(level, position, GridDirection::North, piece);
            lemma_wall_geometry(level, position, GridDirection::South, piece);
        }
        lemma_concat_lists_once(floor + north, south);
        assert forall|piece: LevelGeometry| (floor + north + south).contains(piece) implies !west.contains(
            piece,
        ) by {
            lemma_contains_of_concat(floor + north, south, piece);
            lemma_contains_of_concat(floor, north, piece);
            lemma_wall_geometry(level, position, GridDirection::North, piece);
            lemma_wall_geometry(level, position, GridDirection::South, piece);
            lemma_wall_geometry(level, position, GridDirection::West, piece);
        }
        lemma_concat_lists_once(floor + north + south, west);
        assert forall|piece: LevelGeometry|
            (floor + north + south + west).contains(piece) implies !east.contains(piece) by {
            lemma_contains_of_concat(floor + north + south, west, piece);
            lemma_contains_of_concat(floor + north, south, piece);
            lemma_contains_of_concat(floor, north, piece);
            lemma_wall_geometry(level, position, GridDirection::North, piece);
            lemma_wall_geometry(level, position, GridDirection::South, piece);
            lemma_wall_geometry(level, position, GridDirection::West, piece);
            lemma_wall_geometry(level, position, GridDirection::East, piece);
        }
        lemma_concat_lists_once(floor + north + south + west, east);
    }
}

/// The geometry of a part of a row lists each of its pieces once.
proof fn lemma_row_lists_once(level: &Level, y: usize, columns: nat)
    requires
        columns <= usize::MAX + 1,
    ensures
        row_geometry(level, y, columns).no_duplicates(),
    decreases columns,
{
    if columns > 0 {
        let position = GridPosition { x: (columns - 1) as usize, y };
        let earlier = row_geometry(level, y, (columns - 1) as nat);
        lemma_row_lists_once(level, y, (columns - 1) as nat);
        lemma_tile_lists_once(level, position);
        assert forall|piece: LevelGeometry| earlier.contains(piece) implies !tile_geometry(
            level,
            position,
        ).contains(piece) by {
            lemma_row_geometry(level, y, (columns - 1) as nat, piece);
            lemma_tile_geometry(level, position, piece);
        }
        lemma_concat_lists_once(earlier, tile_geometry(level, position));
    }
}

/// The geometry of the first rows lists each of its pieces once.
proof fn lemma_grid_lists_once(level: &Level, rows: nat)
    requires
        rows <= level.grid@.len(),
    ensures
        grid_geometry(level, rows).no_duplicates(),
    decreases rows,
{
    if rows > 0 {
        assert(level.grid@.len() == level.grid.len());
        assert(level.grid@[rows - 1]@.len() == level.grid@[rows - 1].len());
        let y = (rows - 1) as usize;
        let columns = level.grid@[rows - 1]@.len();
        let earlier = grid_geometry(level, (rows - 1) as nat);
        lemma_grid_lists_once(level, (rows - 1) as nat);
        lemma_row_lists_once(level, y, columns);
        assert forall|piece: LevelGeometry| earlier.contains(piece) implies !row_geometry(
            level,
            y,
            columns,
        ).contains(piece) by {
            lemma_grid_geometry(level, (rows - 1) as nat, piece);
            lemma_row_geometry(level, y, columns, piece);
        }
        lemma_concat_lists_once(earlier, row_geometry(level, y, columns));
    }
}

/// The geometry of a level lists no piece twice.
pub proof fn lemma_geometry_lists_each_piece_once(level: &Level)
    ensures
        spec_create_level_geometry(level).no_duplicates(),
{
    lemma_grid_lists_once(level, level.grid@.len());
}

/// The geometry of a level is what belongs to it and nothing else: a piece is
/// listed exactly if its cell is floor and it is the floor of that cell or a
/// wall on a side where the cell borders on what is no floor. So no cell of
/// `Void` and no cell beyond the grid has any geometry.
pub proof fn lemma_geometry_is_what_belongs(level: &Level, piece: LevelGeometry)
    ensures
        spec_create_level_geometry(level).contains(piece) <==> belongs_to(level, piece),
{
    lemma_grid_geometry(level, level.grid@.len(), piece);
}

/// Retires the geometry of the level that is left.
pub fn level_change_despawn(world: &mut World)
    ensures
        final(world).geometry@.len() == 0,
        final(world).current_level == old(world).current_level,
        final(world).player == old(world).player,
{
    world.geometry.clear();
}

/// Installs `level`, registered under `name`, as the active level: its name
/// becomes the current one and its geometry joins the geometry of the world.
pub fn level_change_create(world: &mut World, name: &String, level: &Level)
    ensures
        final(world).current_level.0 == Some(*name),
        final(world).geometry@ == old(world).geometry@ + spec_create_level_geometry(level),
        final(world).player == old(world).player,
{
    world.current_level = CurrentLevel(Some(name.clone()));
    let mut created = create_level_geometry(level);
    world.geometry.append(&mut created);
}

/// Places the player in `level` as `event` asks: at the position that the
/// event names, or at the start position of the level where it names none;
/// facing the default direction; with no transition in flight.
pub fn move_player_to_start_pos(world: &mut World, level: &Level, event: &ChangeLevel)
    ensures
        final(world).player == spec_spawned(level, event),
        final(world).current_level == old(world).current_level,
        final(world).geometry == old(world).geometry,
{
    let grid_position = match event.position {
        Some(position) => position,
        None => level.start_pos,
    };
    world.player = Actor { grid_position, direction: GridDirection::South, transition: None };
}

} // verus!
