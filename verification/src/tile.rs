use vstd::prelude::*;

verus! {

/// A single grid cell of the dungeon map.
///
/// `blocked` and `block_sight` are fixed once generation is over; only
/// `explored` is ever mutated afterwards, and only from `false` to `true`.
#[derive(Clone, Debug)]
pub struct Tile {
    pub blocked: bool,
    pub block_sight: bool,
    pub explored: bool,
}

impl Tile {
    /// A walkable, see-through, unexplored floor tile.
    pub fn empty() -> (t: Tile)
        ensures
            t == (Tile { blocked: false, block_sight: false, explored: false }),
    {
        Tile { blocked: false, block_sight: false, explored: false }
    }

    /// A solid, sight-blocking, unexplored wall tile.
    pub fn wall() -> (t: Tile)
        ensures
            t == (Tile { blocked: true, block_sight: true, explored: false }),
    {
        Tile { blocked: true, block_sight: true, explored: false }
    }
}

/// The dungeon map: a rectangular grid of tiles, indexed as `map[x][y]`.
pub type TileGrid = Vec<Vec<Tile>>;

/// Number of columns of the grid.
pub open spec fn map_width(m: Seq<Vec<Tile>>) -> int {
    m.len() as int
}

/// Number of rows of the grid (the length every column must have).
pub open spec fn map_height(m: Seq<Vec<Tile>>) -> int {
    if m.len() == 0 {
        0
    } else {
        m[0]@.len() as int
    }
}

/// The grid is non-degenerate and rectangular: every column has the
/// same length.
pub open spec fn map_wf(m: Seq<Vec<Tile>>) -> bool {
    &&& 0 < m.len()
    &&& 0 < m[0]@.len()
    &&& forall|i: int| 0 <= i < m.len() ==> (#[trigger] m[i]@.len()) == m[0]@.len()
}

pub open spec fn in_bounds(m: Seq<Vec<Tile>>, x: int, y: int) -> bool {
    0 <= x < map_width(m) && 0 <= y < map_height(m)
}

pub open spec fn tile_at(m: Seq<Vec<Tile>>, x: int, y: int) -> Tile {
    m[x]@[y]
}

/// A border cell: first or last column, or first or last row.
pub open spec fn on_border(m: Seq<Vec<Tile>>, x: int, y: int) -> bool {
    x == 0 || x == map_width(m) - 1 || y == 0 || y == map_height(m) - 1
}

/// A generated map keeps a solid ring of wall around its edge, so a
/// one-cell step from any non-blocked tile stays inside the grid.
pub open spec fn map_sealed(m: Seq<Vec<Tile>>) -> bool {
    forall|x: int, y: int|
        in_bounds(m, x, y) && on_border(m, x, y) ==> (#[trigger] tile_at(m, x, y)).blocked
}

/// The shape of the map never changes after generation: same size, and
/// the same `blocked` / `block_sight` flags on every tile.
pub open spec fn same_terrain(m1: Seq<Vec<Tile>>, m2: Seq<Vec<Tile>>) -> bool {
    &&& map_width(m2) == map_width(m1)
    &&& map_height(m2) == map_height(m1)
    &&& forall|x: int, y: int|
        in_bounds(m1, x, y) ==> (#[trigger] tile_at(m2, x, y)).blocked == tile_at(
            m1,
            x,
            y,
        ).blocked && tile_at(m2, x, y).block_sight == tile_at(m1, x, y).block_sight
}

/// Exploration only ever grows: a tile once explored stays explored.
pub open spec fn explored_monotone(m1: Seq<Vec<Tile>>, m2: Seq<Vec<Tile>>) -> bool {
    forall|x: int, y: int|
        in_bounds(m1, x, y) && (#[trigger] tile_at(m1, x, y)).explored ==> tile_at(
            m2,
            x,
            y,
        ).explored
}

/// Exploration stays monotonic over any sequence of steps: a tile that
/// was ever explored is still explored after any further run of
/// operations, since each step only grows the explored set.
pub proof fn lemma_explored_monotone_trans(
    m1: Seq<Vec<Tile>>,
    m2: Seq<Vec<Tile>>,
    m3: Seq<Vec<Tile>>,
)
    requires
        explored_monotone(m1, m2),
        explored_monotone(m2, m3),
        map_width(m2) == map_width(m1),
        map_height(m2) == map_height(m1),
    ensures
        explored_monotone(m1, m3),
{
    assert forall|x: int, y: int|
        in_bounds(m1, x, y) && (#[trigger] tile_at(m1, x, y)).explored implies tile_at(
        m3,
        x,
        y,
    ).explored by {
        assert(in_bounds(m2, x, y));
        assert(tile_at(m2, x, y).explored);
    }
}

} // verus!
