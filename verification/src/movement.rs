use vstd::prelude::*;

use crate::object::Object;
use crate::tile::{in_bounds, map_sealed, map_wf, on_border, tile_at, TileGrid};

verus! {

/// A cell is blocked when its tile stops movement or some blocking
/// entity occupies it.
pub open spec fn blocked_at(m: Seq<Vec<Tile>>, objs: Seq<Object>, x: int, y: int) -> bool {
    ||| tile_at(m, x, y).blocked
    ||| exists|i: int|
        0 <= i < objs.len() && (#[trigger] objs[i]).blocks && objs[i].x == x && objs[i].y == y
}

use crate::tile::Tile;

/// Whether movement onto `(x, y)` is stopped, either by the terrain or
/// by any blocking entity standing there.
pub fn is_blocked(x: i32, y: i32, map: &TileGrid, objects: &Vec<Object>) -> (r: bool)
    requires
        map_wf(map@),
        in_bounds(map@, x as int, y as int),
    ensures
        r == blocked_at(map@, objects@, x as int, y as int),
{
    // first test the map tile
    if map[x as usize][y as usize].blocked {
        return true;
    }
    // now check for any blocking objects
    let mut i: usize = 0;
    while i < objects.len()
        invariant
            i <= objects@.len(),
            forall|j: int|
                0 <= j < i ==> !((#[trigger] objects@[j]).blocks && objects@[j].x == x
                    && objects@[j].y == y),
        decreases objects@.len() - i,
    {
        if objects[i].blocks && objects[i].x == x && objects[i].y == y {
            return true;
        }
        i = i + 1;
    }
    false
}

/// How one attempted one-cell move ends: onto a free cell the mover
/// stands at the destination, onto a blocked one it silently stays put.
pub open spec fn move_transition(
    m: Seq<Vec<Tile>>,
    objs0: Seq<Object>,
    objs1: Seq<Object>,
    id: int,
    dx: int,
    dy: int,
) -> bool {
    let nx = objs0[id].x + dx;
    let ny = objs0[id].y + dy;
    if blocked_at(m, objs0, nx, ny) {
        objs1 == objs0
    } else {
        objs1 == objs0.update(
            id,
            Object { x: nx as i32, y: ny as i32, ..objs0[id] },
        )
    }
}

/// Move entity `id` by the given one-cell offset, unless the
/// destination is blocked by terrain or by a blocking entity; bumping
/// into something is a valid no-op, not an error.
pub fn move_by(id: usize, dx: i32, dy: i32, map: &TileGrid, objects: &mut Vec<Object>)
    requires
        map_wf(map@),
        crate::tile::map_width(map@) <= i32::MAX,
        crate::tile::map_height(map@) <= i32::MAX,
        id < old(objects)@.len(),
        in_bounds(
            map@,
            old(objects)@[id as int].x + dx,
            old(objects)@[id as int].y + dy,
        ),
    ensures
        move_transition(map@, old(objects)@, final(objects)@, id as int, dx as int, dy as int),
{
    let (x, y) = objects[id].pos();
    if !is_blocked(x + dx, y + dy, map, objects) {
        let o = &mut objects[id];
        o.set_pos(x + dx, y + dy);
    }
}

/// Squared Euclidean distance between two points.
pub open spec fn dist_sq(x1: int, y1: int, x2: int, y2: int) -> int {
    (x2 - x1) * (x2 - x1) + (y2 - y1) * (y2 - y1)
}

impl Object {
    /// Squared distance to another entity. The step and attack rules
    /// compare distances against fixed thresholds, so the square is
    /// compared against the squared threshold and no root is taken.
    pub fn distance_sq_to(&self, other: &Object) -> (d: i64)
        requires
            -0x8000 <= self.x <= 0x8000,
            -0x8000 <= self.y <= 0x8000,
            -0x8000 <= other.x <= 0x8000,
            -0x8000 <= other.y <= 0x8000,
        ensures
            d == dist_sq(self.x as int, self.y as int, other.x as int, other.y as int),
    {
        let dx: i64 = other.x as i64 - self.x as i64;
        let dy: i64 = other.y as i64 - self.y as i64;
        proof {
            assert(dx * dx <= 0x10000 * 0x10000 && dy * dy <= 0x10000 * 0x10000 && 0 <= dx * dx
                && 0 <= dy * dy) by (nonlinear_arith)
                requires
                    -0x10000 <= dx <= 0x10000,
                    -0x10000 <= dy <= 0x10000,
            ;
        }
        dx * dx + dy * dy
    }
}

pub open spec fn sgn(x: int) -> int {
    if x > 0 {
        1
    } else if x < 0 {
        -1
    } else {
        0
    }
}

/// The one-cell step of the greedy straight-line walk: the direction
/// vector, normalized to unit length and rounded on each axis
/// independently to the nearest integer (halves round away from zero).
/// An axis contributes a step exactly when its share of the direction
/// is at least half, that is when `|dx| / sqrt(dx^2 + dy^2) >= 1/2`,
/// which squared reads `4 * dx^2 >= dx^2 + dy^2`.
pub open spec fn step_toward(dx: int, dy: int) -> (int, int) {
    let d2 = dx * dx + dy * dy;
    (
        if 4 * dx * dx >= d2 {
            sgn(dx)
        } else {
            0
        },
        if 4 * dy * dy >= d2 {
            sgn(dy)
        } else {
            0
        },
    )
}

/// Walk entity `id` one greedy step toward the target cell. This is a
/// straight-line stepper, not a pathfinder: it can oscillate or get
/// stuck on obstacles, which is intentional.
pub fn move_towards(
    id: usize,
    target_x: i32,
    target_y: i32,
    map: &TileGrid,
    objects: &mut Vec<Object>,
)
    requires
        map_wf(map@),
        map_sealed(map@),
        crate::tile::map_width(map@) <= 0x8000,
        crate::tile::map_height(map@) <= 0x8000,
        id < old(objects)@.len(),
        in_bounds(map@, old(objects)@[id as int].x as int, old(objects)@[id as int].y as int),
        !tile_at(map@, old(objects)@[id as int].x as int, old(objects)@[id as int].y as int).blocked,
        in_bounds(map@, target_x as int, target_y as int),
    ensures
        ({
            let step = step_toward(
                target_x - old(objects)@[id as int].x,
                target_y - old(objects)@[id as int].y,
            );
            move_transition(map@, old(objects)@, final(objects)@, id as int, step.0, step.1)
        }),
{
    // vector from this object to the target
    let dx: i64 = target_x as i64 - objects[id].x as i64;
    let dy: i64 = target_y as i64 - objects[id].y as i64;
    proof {
        assert(0 <= dx * dx <= 0x10000 * 0x10000 && 0 <= dy * dy <= 0x10000 * 0x10000 && 4 * (dx
            * dx) == 4 * dx * dx && 4 * (dy * dy) == 4 * dy * dy) by (nonlinear_arith)
            requires
                -0x10000 <= dx <= 0x10000,
                -0x10000 <= dy <= 0x10000,
        ;
    }
    let dxx: i64 = dx * dx;
    let dyy: i64 = dy * dy;
    let d2: i64 = dxx + dyy;
    // normalize to length 1 (preserving direction), rounding each axis
    // to the nearest integer step, so movement stays on the grid
    let sx: i32 = if 4 * dxx >= d2 {
        if dx > 0 {
            1
        } else if dx < 0 {
            -1
        } else {
            0
        }
    } else {
        0
    };
    let sy: i32 = if 4 * dyy >= d2 {
        if dy > 0 {
            1
        } else if dy < 0 {
            -1
        } else {
            0
        }
    } else {
        0
    };
    proof {
        let o = old(objects)@[id as int];
        // the mover stands on an open tile, and the border is sealed,
        // so one cell in any direction stays on the map
        assert(!on_border(map@, o.x as int, o.y as int));
    }
    move_by(id, sx, sy, map, objects);
}

} // verus!
