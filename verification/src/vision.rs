use vstd::prelude::*;
use vstd::string::StringExecFns;

use crate::object::Object;
use crate::tile::{in_bounds, map_height, map_width, map_wf, tile_at, Tile, TileGrid};

verus! {

/// The live visible set, as a grid of flags aligned with the map: the
/// cell `(x, y)` is currently in the field of view exactly when
/// `grid[x][y]`. The geometry that fills it (shadow casting from the
/// player's position within a radius) belongs to the rendering
/// collaborator; the core consumes the resulting set.
pub struct Visibility {
    pub grid: Vec<Vec<bool>>,
}

/// The flag grid is rectangular with the given dimensions.
pub open spec fn vis_wf(v: Seq<Vec<bool>>, w: int, h: int) -> bool {
    &&& v.len() == w
    &&& forall|i: int| 0 <= i < v.len() ==> (#[trigger] v[i]@.len()) == h
}

/// The cell `(x, y)` is in the live visible set.
pub open spec fn visible_at(v: Seq<Vec<bool>>, x: int, y: int) -> bool {
    v[x]@[y]
}

impl Visibility {
    /// A visible set of the given dimensions with nothing visible yet.
    pub fn new(width: usize, height: usize) -> (v: Visibility)
        ensures
            vis_wf(v.grid@, width as int, height as int),
            forall|x: int, y: int|
                0 <= x < width && 0 <= y < height ==> !visible_at(v.grid@, x, y),
    {
        let mut grid: Vec<Vec<bool>> = Vec::new();
        let mut x: usize = 0;
        while x < width
            invariant
                x <= width,
                grid@.len() == x,
                forall|i: int| 0 <= i < x ==> (#[trigger] grid@[i])@.len() == height,
                forall|i: int, j: int|
                    0 <= i < x && 0 <= j < height ==> !(#[trigger] grid@[i]@[j]),
            decreases width - x,
        {
            let mut col: Vec<bool> = Vec::new();
            let mut y: usize = 0;
            while y < height
                invariant
                    y <= height,
                    col@.len() == y,
                    forall|j: int| 0 <= j < y ==> !(#[trigger] col@[j]),
                decreases height - y,
            {
                col.push(false);
                y = y + 1;
            }
            grid.push(col);
            x = x + 1;
        }
        Visibility { grid }
    }

    /// Mark one cell of the visible set.
    pub fn set(&mut self, x: usize, y: usize, value: bool)
        requires
            x < old(self).grid@.len(),
            y < old(self).grid@[x as int]@.len(),
        ensures
            final(self).grid@.len() == old(self).grid@.len(),
            final(self).grid@[x as int]@ == old(self).grid@[x as int]@.update(y as int, value),
            forall|i: int|
                0 <= i < old(self).grid@.len() && i != x ==> final(self).grid@[i] == old(
                    self,
                ).grid@[i],
    {
        let col = &mut self.grid[x];
        col[y] = value;
    }

    /// Whether the cell is in the live visible set.
    pub fn is_in_fov(&self, x: i32, y: i32) -> (r: bool)
        requires
            0 <= x < self.grid@.len(),
            0 <= y < self.grid@[x as int]@.len(),
        ensures
            r == visible_at(self.grid@, x as int, y as int),
    {
        self.grid[x as usize][y as usize]
    }
}

/// Mark every currently visible tile as explored, permanently: a tile's
/// `explored` flag never goes back to false, so exploration only grows.
pub fn apply_visibility(map: &mut TileGrid, fov: &Visibility)
    requires
        map_wf(old(map)@),
        map_width(old(map)@) <= i32::MAX,
        map_height(old(map)@) <= i32::MAX,
        vis_wf(fov.grid@, map_width(old(map)@), map_height(old(map)@)),
    ensures
        map_wf(final(map)@),
        map_width(final(map)@) == map_width(old(map)@),
        map_height(final(map)@) == map_height(old(map)@),
        forall|x: int, y: int|
            #![trigger tile_at(final(map)@, x, y)]
            #![trigger tile_at(old(map)@, x, y)]
            in_bounds(old(map)@, x, y) ==> tile_at(final(map)@, x, y) == (Tile {
                explored: tile_at(old(map)@, x, y).explored || visible_at(fov.grid@, x, y),
                ..tile_at(old(map)@, x, y)
            }),
        crate::tile::explored_monotone(old(map)@, final(map)@),
        crate::tile::same_terrain(old(map)@, final(map)@),
{
    let width = map.len();
    let mut x: usize = 0;
    while x < width
        invariant
            map_wf(old(map)@),
            map_width(old(map)@) <= i32::MAX,
            map_height(old(map)@) <= i32::MAX,
            vis_wf(fov.grid@, map_width(old(map)@), map_height(old(map)@)),
            width == map_width(old(map)@),
            x <= width,
            map@.len() == old(map)@.len(),
            forall|i: int| 0 <= i < width ==> (#[trigger] map@[i])@.len() == map_height(old(map)@),
            forall|i: int, j: int|
                #![trigger in_bounds(old(map)@, i, j)]
                in_bounds(old(map)@, i, j) ==> tile_at(map@, i, j) == (
                if i < x {
                    Tile {
                        explored: tile_at(old(map)@, i, j).explored || visible_at(fov.grid@, i, j),
                        ..tile_at(old(map)@, i, j)
                    }
                } else {
                    tile_at(old(map)@, i, j)
                }),
        decreases width - x,
    {
        let height = map[x].len();
        let mut y: usize = 0;
        while y < height
            invariant
                map_wf(old(map)@),
                map_width(old(map)@) <= i32::MAX,
                map_height(old(map)@) <= i32::MAX,
                vis_wf(fov.grid@, map_width(old(map)@), map_height(old(map)@)),
                width == map_width(old(map)@),
                height == map_height(old(map)@),
                x < width,
                y <= height,
                map@.len() == old(map)@.len(),
                forall|i: int|
                    0 <= i < width ==> (#[trigger] map@[i])@.len() == map_height(old(map)@),
                forall|i: int, j: int|
                    #![trigger in_bounds(old(map)@, i, j)]
                    in_bounds(old(map)@, i, j) ==> tile_at(map@, i, j) == (
                    if i < x || (i == x && j < y) {
                        Tile {
                            explored: tile_at(old(map)@, i, j).explored || visible_at(
                                fov.grid@,
                                i,
                                j,
                            ),
                            ..tile_at(old(map)@, i, j)
                        }
                    } else {
                        tile_at(old(map)@, i, j)
                    }),
            decreases height - y,
        {
            if fov.is_in_fov(x as i32, y as i32) {
                let col = &mut map[x];
                let t = &mut col[y];
                t.explored = true;
            }
            y = y + 1;
        }
        x = x + 1;
    }
}

/// The visible set is recomputed only when the origin of sight moved
/// since the last recomputation; this is the explicit decision the
/// render step is handed, rather than recomputing every frame.
pub fn should_recompute_fov(previous: (i32, i32), current: (i32, i32)) -> (r: bool)
    ensures
        r == (previous != current),
{
    previous.0 != current.0 || previous.1 != current.1
}

/// How an explored tile renders: walls and ground each have a lit
/// form (inside the field of view) and a dark form (outside it).
#[derive(Clone, Copy, Debug, PartialEq, Eq, Structural)]
pub enum TileLook {
    DarkWall,
    DarkGround,
    LightWall,
    LightGround,
}

/// Classify one tile for the renderer: a never-explored tile is not
/// drawn at all; an explored one renders as wall or ground, lit when
/// currently visible and dark otherwise.
pub fn tile_render(visible: bool, tile: &Tile) -> (look: Option<TileLook>)
    ensures
        look == (if tile.explored {
            Some(
                if visible && tile.block_sight {
                    TileLook::LightWall
                } else if visible {
                    TileLook::LightGround
                } else if tile.block_sight {
                    TileLook::DarkWall
                } else {
                    TileLook::DarkGround
                },
            )
        } else {
            None::<TileLook>
        }),
{
    if tile.explored {
        let wall = tile.block_sight;
        Some(
            match (visible, wall) {
                (false, true) => TileLook::DarkWall,
                (false, false) => TileLook::DarkGround,
                (true, true) => TileLook::LightWall,
                (true, false) => TileLook::LightGround,
            },
        )
    } else {
        None
    }
}

/// An entity is drawn this frame when it stands on a currently
/// visible cell.
pub open spec fn drawable(objs: Seq<Object>, vis: Seq<Vec<bool>>, i: int) -> bool {
    visible_at(vis, objs[i].x as int, objs[i].y as int)
}

/// The indices, in collection order, of the visible entities whose
/// `blocks` flag equals `want_blocks`, among the first `n`.
pub open spec fn visible_indices(
    objs: Seq<Object>,
    vis: Seq<Vec<bool>>,
    n: int,
    want_blocks: bool,
) -> Seq<usize>
    decreases n,
{
    if n <= 0 {
        Seq::empty()
    } else {
        let prev = visible_indices(objs, vis, n - 1, want_blocks);
        if drawable(objs, vis, n - 1) && objs[n - 1].blocks == want_blocks {
            prev.push((n - 1) as usize)
        } else {
            prev
        }
    }
}

/// The order entities are drawn in: only the currently visible ones,
/// non-blocking entities first (corpses and items), then blocking ones,
/// so blockers visually sit on top; collection order within each class.
pub fn draw_order(objects: &Vec<Object>, fov: &Visibility) -> (order: Vec<usize>)
    requires
        forall|i: int|
            0 <= i < objects@.len() ==> {
                let o = #[trigger] objects@[i];
                &&& 0 <= o.x < fov.grid@.len()
                &&& 0 <= o.y < fov.grid@[o.x as int]@.len()
            },
    ensures
        order@ == visible_indices(objects@, fov.grid@, objects@.len() as int, false)
            + visible_indices(objects@, fov.grid@, objects@.len() as int, true),
{
    let mut order: Vec<usize> = Vec::new();
    let mut i: usize = 0;
    while i < objects.len()
        invariant
            i <= objects@.len(),
            forall|k: int|
                0 <= k < objects@.len() ==> {
                    let o = #[trigger] objects@[k];
                    &&& 0 <= o.x < fov.grid@.len()
                    &&& 0 <= o.y < fov.grid@[o.x as int]@.len()
                },
            order@ == visible_indices(objects@, fov.grid@, i as int, false),
        decreases objects@.len() - i,
    {
        if !objects[i].blocks && fov.is_in_fov(objects[i].x, objects[i].y) {
            order.push(i);
        }
        i = i + 1;
    }
    let mut j: usize = 0;
    while j < objects.len()
        invariant
            j <= objects@.len(),
            forall|k: int|
                0 <= k < objects@.len() ==> {
                    let o = #[trigger] objects@[k];
                    &&& 0 <= o.x < fov.grid@.len()
                    &&& 0 <= o.y < fov.grid@[o.x as int]@.len()
                },
            order@ == visible_indices(objects@, fov.grid@, objects@.len() as int, false)
                + visible_indices(objects@, fov.grid@, j as int, true),
        decreases objects@.len() - j,
    {
        if objects[j].blocks && fov.is_in_fov(objects[j].x, objects[j].y) {
            order.push(j);
        }
        j = j + 1;
    }
    order
}

/// Whether entity `i` contributes to the hover tooltip for cell
/// `(x, y)`: it stands there and is currently visible.
pub open spec fn hovered(objs: Seq<Object>, vis: Seq<Vec<bool>>, i: int, x: int, y: int) -> bool {
    objs[i].x == x && objs[i].y == y && visible_at(vis, x, y)
}

/// Some entity among the first `n` is hovered.
pub open spec fn any_hovered(
    objs: Seq<Object>,
    vis: Seq<Vec<bool>>,
    n: int,
    x: int,
    y: int,
) -> bool
    decreases n,
{
    if n <= 0 {
        false
    } else {
        any_hovered(objs, vis, n - 1, x, y) || hovered(objs, vis, n - 1, x, y)
    }
}

/// The tooltip text for cell `(x, y)`: the names of the hovered
/// entities among the first `n`, in collection order, joined by a
/// comma and a space.
pub open spec fn hover_names(
    objs: Seq<Object>,
    vis: Seq<Vec<bool>>,
    n: int,
    x: int,
    y: int,
) -> Seq<char>
    decreases n,
{
    if n <= 0 {
        Seq::empty()
    } else {
        let prev = hover_names(objs, vis, n - 1, x, y);
        if hovered(objs, vis, n - 1, x, y) {
            if any_hovered(objs, vis, n - 1, x, y) {
                prev + ", "@ + objs[n - 1].name@
            } else {
                prev + objs[n - 1].name@
            }
        } else {
            prev
        }
    }
}

/// The tooltip the renderer shows under the mouse: the names of all
/// currently visible entities at that cell, in collection order,
/// joined by ", ".
pub fn get_names_under_mouse(
    x: i32,
    y: i32,
    objects: &Vec<Object>,
    fov: &Visibility,
) -> (names: String)
    requires
        forall|i: int|
            0 <= i < objects@.len() ==> {
                let o = #[trigger] objects@[i];
                &&& 0 <= o.x < fov.grid@.len()
                &&& 0 <= o.y < fov.grid@[o.x as int]@.len()
            },
    ensures
        names@ == hover_names(objects@, fov.grid@, objects@.len() as int, x as int, y as int),
{
    let mut names = String::new();
    let mut any = false;
    let mut i: usize = 0;
    while i < objects.len()
        invariant
            i <= objects@.len(),
            forall|k: int|
                0 <= k < objects@.len() ==> {
                    let o = #[trigger] objects@[k];
                    &&& 0 <= o.x < fov.grid@.len()
                    &&& 0 <= o.y < fov.grid@[o.x as int]@.len()
                },
            any == any_hovered(objects@, fov.grid@, i as int, x as int, y as int),
            names@ == hover_names(objects@, fov.grid@, i as int, x as int, y as int),
        decreases objects@.len() - i,
    {
        if objects[i].x == x && objects[i].y == y && fov.is_in_fov(objects[i].x, objects[i].y) {
            if any {
                names.append(", ");
            }
            names.append(objects[i].name.as_str());
            any = true;
        }
        i = i + 1;
    }
    names
}

} // verus!
