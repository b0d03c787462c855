use vstd::prelude::*;

use crate::rect::{rect_interior, Rect};
use crate::tile::{in_bounds, map_height, map_width, map_wf, tile_at, Tile, TileGrid};

verus! {

/// The tile every carving step writes: walkable, see-through,
/// unexplored.
pub open spec fn floor_tile() -> Tile {
    Tile { blocked: false, block_sight: false, explored: false }
}

/// Both grids have the same shape.
pub open spec fn same_dims(m1: Seq<Vec<Tile>>, m2: Seq<Vec<Tile>>) -> bool {
    &&& m2.len() == m1.len()
    &&& forall|i: int| 0 <= i < m1.len() ==> (#[trigger] m2[i]@.len()) == m1[i]@.len()
}

fn set_tile(map: &mut TileGrid, x: usize, y: usize, t: Tile)
    requires
        x < old(map)@.len(),
        y < old(map)@[x as int]@.len(),
    ensures
        final(map)@.len() == old(map)@.len(),
        final(map)@[x as int]@ == old(map)@[x as int]@.update(y as int, t),
        forall|i: int| 0 <= i < old(map)@.len() && i != x ==> final(map)@[i] == old(map)@[i],
{
    let col = &mut map[x];
    col[y] = t;
}

/// Carve the interior of `room` (exclusive of its bounding edge) into
/// walkable, see-through floor; every other tile is untouched.
pub fn create_room(room: Rect, map: &mut TileGrid)
    requires
        map_wf(old(map)@),
        map_width(old(map)@) <= i32::MAX,
        map_height(old(map)@) <= i32::MAX,
        0 <= room.x1 <= room.x2 < map_width(old(map)@),
        0 <= room.y1 <= room.y2 < map_height(old(map)@),
    ensures
        same_dims(old(map)@, final(map)@),
        map_wf(final(map)@),
        map_width(final(map)@) == map_width(old(map)@),
        map_height(final(map)@) == map_height(old(map)@),
        forall|i: int, j: int|
            #![trigger in_bounds(old(map)@, i, j)]
            #![trigger tile_at(final(map)@, i, j)]
            in_bounds(old(map)@, i, j) ==> tile_at(final(map)@, i, j) == (
            if rect_interior(room, i, j) {
                floor_tile()
            } else {
                tile_at(old(map)@, i, j)
            }),
{
    let mut x: i32 = room.x1 + 1;
    while x < room.x2
        invariant
            map_wf(old(map)@),
            map_width(old(map)@) <= i32::MAX,
            map_height(old(map)@) <= i32::MAX,
            0 <= room.x1 <= room.x2 < map_width(old(map)@),
            0 <= room.y1 <= room.y2 < map_height(old(map)@),
            room.x1 + 1 <= x,
            same_dims(old(map)@, map@),
            forall|i: int, j: int|
                #![trigger in_bounds(old(map)@, i, j)]
                in_bounds(old(map)@, i, j) ==> tile_at(map@, i, j) == (
                if rect_interior(room, i, j) && i < x {
                    floor_tile()
                } else {
                    tile_at(old(map)@, i, j)
                }),
        decreases room.x2 - x,
    {
        let mut y: i32 = room.y1 + 1;
        while y < room.y2
            invariant
                map_wf(old(map)@),
                map_width(old(map)@) <= i32::MAX,
                map_height(old(map)@) <= i32::MAX,
                0 <= room.x1 <= room.x2 < map_width(old(map)@),
                0 <= room.y1 <= room.y2 < map_height(old(map)@),
                room.x1 + 1 <= x < room.x2,
                room.y1 + 1 <= y,
                same_dims(old(map)@, map@),
                forall|i: int, j: int|
                    #![trigger in_bounds(old(map)@, i, j)]
                    in_bounds(old(map)@, i, j) ==> tile_at(map@, i, j) == (
                    if rect_interior(room, i, j) && (i < x || (i == x && j < y)) {
                        floor_tile()
                    } else {
                        tile_at(old(map)@, i, j)
                    }),
            decreases room.y2 - y,
        {
            set_tile(map, x as usize, y as usize, Tile::empty());
            y = y + 1;
        }
        x = x + 1;
    }
}

/// Carve a horizontal corridor covering every column between `x1` and
/// `x2` (inclusive, in either order) at row `y`.
pub fn create_horizontal_tunnel(x1: i32, x2: i32, y: i32, map: &mut TileGrid)
    requires
        map_wf(old(map)@),
        map_width(old(map)@) <= i32::MAX,
        map_height(old(map)@) <= i32::MAX,
        0 <= x1 < map_width(old(map)@),
        0 <= x2 < map_width(old(map)@),
        0 <= y < map_height(old(map)@),
    ensures
        same_dims(old(map)@, final(map)@),
        map_wf(final(map)@),
        map_width(final(map)@) == map_width(old(map)@),
        map_height(final(map)@) == map_height(old(map)@),
        forall|i: int, j: int|
            #![trigger in_bounds(old(map)@, i, j)]
            #![trigger tile_at(final(map)@, i, j)]
            in_bounds(old(map)@, i, j) ==> tile_at(final(map)@, i, j) == (
            if j == y && (if x1 <= x2 {
                x1 <= i <= x2
            } else {
                x2 <= i <= x1
            }) {
                floor_tile()
            } else {
                tile_at(old(map)@, i, j)
            }),
{
    let lo: i32 = if x1 < x2 {
        x1
    } else {
        x2
    };
    let hi: i32 = if x1 < x2 {
        x2
    } else {
        x1
    };
    let mut x: i32 = lo;
    while x <= hi
        invariant
            map_wf(old(map)@),
            map_width(old(map)@) <= i32::MAX,
            0 <= lo <= x,
            x <= hi + 1,
            hi < map_width(old(map)@),
            lo <= hi,
            0 <= y < map_height(old(map)@),
            same_dims(old(map)@, map@),
            forall|i: int, j: int|
                #![trigger in_bounds(old(map)@, i, j)]
                in_bounds(old(map)@, i, j) ==> tile_at(map@, i, j) == (
                if j == y && lo <= i < x {
                    floor_tile()
                } else {
                    tile_at(old(map)@, i, j)
                }),
        decreases hi - x + 1,
    {
        set_tile(map, x as usize, y as usize, Tile::empty());
        x = x + 1;
    }
}

/// Carve a vertical corridor covering every row between `y1` and `y2`
/// (inclusive, in either order) at column `x`.
pub fn create_vertical_tunnel(y1: i32, y2: i32, x: i32, map: &mut TileGrid)
    requires
        map_wf(old(map)@),
        map_width(old(map)@) <= i32::MAX,
        map_height(old(map)@) <= i32::MAX,
        0 <= y1 < map_height(old(map)@),
        0 <= y2 < map_height(old(map)@),
        0 <= x < map_width(old(map)@),
    ensures
        same_dims(old(map)@, final(map)@),
        map_wf(final(map)@),
        map_width(final(map)@) == map_width(old(map)@),
        map_height(final(map)@) == map_height(old(map)@),
        forall|i: int, j: int|
            #![trigger in_bounds(old(map)@, i, j)]
            #![trigger tile_at(final(map)@, i, j)]
            in_bounds(old(map)@, i, j) ==> tile_at(final(map)@, i, j) == (
            if i == x && (if y1 <= y2 {
                y1 <= j <= y2
            } else {
                y2 <= j <= y1
            }) {
                floor_tile()
            } else {
                tile_at(old(map)@, i, j)
            }),
{
    let lo: i32 = if y1 < y2 {
        y1
    } else {
        y2
    };
    let hi: i32 = if y1 < y2 {
        y2
    } else {
        y1
    };
    let mut y: i32 = lo;
    while y <= hi
        invariant
            map_wf(old(map)@),
            map_height(old(map)@) <= i32::MAX,
            0 <= lo <= y,
            y <= hi + 1,
            hi < map_height(old(map)@),
            lo <= hi,
            0 <= x < map_width(old(map)@),
            same_dims(old(map)@, map@),
            forall|i: int, j: int|
                #![trigger in_bounds(old(map)@, i, j)]
                in_bounds(old(map)@, i, j) ==> tile_at(map@, i, j) == (
                if i == x && lo <= j < y {
                    floor_tile()
                } else {
                    tile_at(old(map)@, i, j)
                }),
        decreases hi - y + 1,
    {
        set_tile(map, x as usize, y as usize, Tile::empty());
        y = y + 1;
    }
}


} // verus!

use crate::color::Color;
use crate::movement::is_blocked;
use crate::object::{fighter_in_range, world_ok, Ai, DeathCallback, Fighter, Object};
use crate::rect::{rect_center, rects_overlap};
use crate::rng::{rand_coin, rand_range, rand_ratio};
use crate::tile::map_sealed;

verus! {

/// `x` lies between `a` and `b`, whichever order they come in.
pub open spec fn between(a: int, x: int, b: int) -> bool {
    (a <= x <= b) || (b <= x <= a)
}

/// Every tile of row `y` between columns `xa` and `xb` is walkable.
pub open spec fn h_path_clear(m: Seq<Vec<Tile>>, xa: int, xb: int, y: int) -> bool {
    forall|i: int| between(xa, i, xb) ==> !(#[trigger] tile_at(m, i, y)).blocked
}

/// Every tile of column `x` between rows `ya` and `yb` is walkable.
pub open spec fn v_path_clear(m: Seq<Vec<Tile>>, ya: int, yb: int, x: int) -> bool {
    forall|j: int| between(ya, j, yb) ==> !(#[trigger] tile_at(m, x, j)).blocked
}

/// A contiguous walkable L-shaped path joins `a` to `b`: either the
/// horizontal leg first and then the vertical one, or the other way
/// around.
pub open spec fn l_connected(m: Seq<Vec<Tile>>, a: (int, int), b: (int, int)) -> bool {
    ||| (h_path_clear(m, a.0, b.0, a.1) && v_path_clear(m, a.1, b.1, b.0))
    ||| (v_path_clear(m, a.1, b.1, a.0) && h_path_clear(m, a.0, b.0, b.1))
}

/// The room sits on the map with at least a one-tile rim on every side
/// and a non-empty interior.
pub open spec fn room_in_bounds(m: Seq<Vec<Tile>>, r: Rect) -> bool {
    &&& 0 <= r.x1
    &&& r.x1 + 2 <= r.x2
    &&& r.x2 < map_width(m)
    &&& 0 <= r.y1
    &&& r.y1 + 2 <= r.y2
    &&& r.y2 < map_height(m)
}

/// The room's whole interior is walkable and does not block sight.
pub open spec fn room_carved(m: Seq<Vec<Tile>>, r: Rect) -> bool {
    forall|i: int, j: int|
        rect_interior(r, i, j) ==> !(#[trigger] tile_at(m, i, j)).blocked && !tile_at(
            m,
            i,
            j,
        ).block_sight
}

/// Everything generation promises of the accepted rooms: each lies on
/// the map with its interior carved, no two overlap (closed-interval
/// test), and each one's center is joined to the previous one's center
/// by a contiguous walkable L-path.
pub open spec fn rooms_ok(m: Seq<Vec<Tile>>, rooms: Seq<Rect>) -> bool {
    &&& forall|k: int|
        0 <= k < rooms.len() ==> room_in_bounds(m, #[trigger] rooms[k]) && room_carved(m, rooms[k])
    &&& forall|k1: int, k2: int|
        0 <= k1 < k2 < rooms.len() ==> !rects_overlap(#[trigger] rooms[k1], #[trigger] rooms[k2])
    &&& forall|k: int|
        1 <= k < rooms.len() ==> l_connected(
            m,
            rect_center(#[trigger] rooms[k - 1]),
            rect_center(rooms[k]),
        )
}

/// A freshly placed monster: one of the two archetypes, alive,
/// blocking, with its autonomous behavior attached.
pub open spec fn monster_form(o: Object) -> bool {
    &&& o.blocks
    &&& o.alive
    &&& o.ai == Some(Ai::Basic)
    &&& o.item is None
    &&& (orc_form(o) || troll_form(o))
}

/// The weak, common archetype.
pub open spec fn orc_form(o: Object) -> bool {
    &&& o.char == 'o'
    &&& o.name@ == "orc"@
    &&& o.color == (Color { r: 63, g: 127, b: 63 })
    &&& o.fighter == Some(
        Fighter { max_hp: 10, hp: 10, defense: 0, power: 3, on_death: DeathCallback::Monster },
    )
}

/// The strong, rare archetype.
pub open spec fn troll_form(o: Object) -> bool {
    &&& o.char == 'T'
    &&& o.name@ == "troll"@
    &&& o.color == (Color { r: 0, g: 127, b: 0 })
    &&& o.fighter == Some(
        Fighter { max_hp: 16, hp: 16, defense: 1, power: 4, on_death: DeathCallback::Monster },
    )
}

/// Populate a room with a random number of monsters (at most
/// `max_room_monsters`), each at a uniformly sampled interior
/// coordinate; a coordinate already blocked by terrain or by any
/// blocking entity simply skips that monster rather than resampling,
/// so placed monsters never share a cell with an earlier blocker.
/// Species: the weak archetype with probability 4/5, the strong one
/// otherwise.
pub fn place_objects(room: Rect, map: &TileGrid, objects: &mut Vec<Object>, max_room_monsters: i32)
    requires
        map_wf(map@),
        room_in_bounds(map@, room),
        0 <= max_room_monsters < i32::MAX,
    ensures
        final(objects)@.len() >= old(objects)@.len(),
        final(objects)@.len() <= old(objects)@.len() + max_room_monsters,
        forall|i: int| 0 <= i < old(objects)@.len() ==> final(objects)@[i] == old(objects)@[i],
        forall|k: int|
            old(objects)@.len() <= k < final(objects)@.len() ==> {
                let o = #[trigger] final(objects)@[k];
                &&& monster_form(o)
                &&& rect_interior(room, o.x as int, o.y as int)
                &&& !tile_at(map@, o.x as int, o.y as int).blocked
            },
        forall|k: int, j: int|
            #![trigger final(objects)@[k], final(objects)@[j]]
            old(objects)@.len() <= k < final(objects)@.len() && 0 <= j < k
                && final(objects)@[j].blocks ==> !(final(objects)@[k].x == final(objects)@[j].x
                && final(objects)@[k].y == final(objects)@[j].y),
{
    // choose a random number of monsters
    let num_monsters = rand_range(0, max_room_monsters + 1);
    let mut n: i32 = 0;
    while n < num_monsters
        invariant
            map_wf(map@),
            room_in_bounds(map@, room),
            0 <= n <= num_monsters,
            num_monsters <= max_room_monsters,
            objects@.len() >= old(objects)@.len(),
            objects@.len() <= old(objects)@.len() + n,
            forall|i: int| 0 <= i < old(objects)@.len() ==> objects@[i] == old(objects)@[i],
            forall|k: int|
                old(objects)@.len() <= k < objects@.len() ==> {
                    let o = #[trigger] objects@[k];
                    &&& monster_form(o)
                    &&& rect_interior(room, o.x as int, o.y as int)
                    &&& !tile_at(map@, o.x as int, o.y as int).blocked
                },
            forall|k: int, j: int|
                #![trigger objects@[k], objects@[j]]
                old(objects)@.len() <= k < objects@.len() && 0 <= j < k && objects@[j].blocks
                    ==> !(objects@[k].x == objects@[j].x && objects@[k].y == objects@[j].y),
        decreases num_monsters - n,
    {
        // choose a random interior coordinate for this monster
        let x = rand_range(room.x1 + 1, room.x2);
        let y = rand_range(room.y1 + 1, room.y2);
        // only place it if the tile is not blocked
        if !is_blocked(x, y, map, objects) {
            let mut monster = if rand_ratio(4, 5) {
                let mut orc = Object::new(x, y, 'o', "orc", Color::desaturated_green(), true);
                orc.fighter = Some(Fighter::new(0, 10, 10, 3, DeathCallback::Monster));
                orc.ai = Some(Ai::Basic);
                orc
            } else {
                let mut troll = Object::new(x, y, 'T', "troll", Color::darker_green(), true);
                troll.fighter = Some(Fighter::new(1, 16, 16, 4, DeathCallback::Monster));
                troll.ai = Some(Ai::Basic);
                troll
            };
            monster.alive = true;
            objects.push(monster);
        }
        n = n + 1;
    }
}


/// The tile the whole map starts as: solid, sight-blocking wall.
pub open spec fn wall_tile() -> Tile {
    Tile { blocked: true, block_sight: true, explored: false }
}

/// `o1` is `o0`, possibly standing somewhere else.
pub open spec fn same_except_pos(o0: Object, o1: Object) -> bool {
    o1 == (Object { x: o1.x, y: o1.y, ..o0 })
}

/// The cells of one L-shaped corridor from `a` to `b`: the horizontal
/// leg at `a`'s row followed by the vertical leg at `b`'s column, or
/// (with `horizontal_first` false) the vertical leg at `a`'s column
/// followed by the horizontal leg at `b`'s row.
pub open spec fn on_l_path(
    a: (int, int),
    b: (int, int),
    horizontal_first: bool,
    i: int,
    j: int,
) -> bool {
    if horizontal_first {
        (j == a.1 && between(a.0, i, b.0)) || (i == b.0 && between(a.1, j, b.1))
    } else {
        (i == a.0 && between(a.1, j, b.1)) || (j == b.1 && between(a.0, i, b.0))
    }
}

/// Join two room centers with one L-shaped corridor, flipping a coin
/// between horizontal-then-vertical and vertical-then-horizontal
/// routing; the returned flag says which way the coin fell. Exactly
/// the corridor's cells are carved to floor, and corridors run
/// strictly between the rooms' center coordinates, so the map's border
/// ring is never touched.
pub fn connect_rooms(prev: Rect, new: Rect, map: &mut TileGrid) -> (horizontal_first: bool)
    requires
        map_wf(old(map)@),
        map_width(old(map)@) <= 0x8000,
        map_height(old(map)@) <= 0x8000,
        room_in_bounds(old(map)@, prev),
        room_in_bounds(old(map)@, new),
    ensures
        map_wf(final(map)@),
        map_width(final(map)@) == map_width(old(map)@),
        map_height(final(map)@) == map_height(old(map)@),
        forall|i: int, j: int|
            #![trigger in_bounds(old(map)@, i, j)]
            #![trigger tile_at(final(map)@, i, j)]
            in_bounds(old(map)@, i, j) ==> tile_at(final(map)@, i, j) == (
            if on_l_path(rect_center(prev), rect_center(new), horizontal_first, i, j) {
                floor_tile()
            } else {
                tile_at(old(map)@, i, j)
            }),
        forall|i: int, j: int|
            in_bounds(old(map)@, i, j) && crate::tile::on_border(old(map)@, i, j)
                ==> #[trigger] tile_at(final(map)@, i, j) == tile_at(old(map)@, i, j),
        l_connected(final(map)@, rect_center(prev), rect_center(new)),
{
    let (prev_x, prev_y) = prev.center();
    let (new_x, new_y) = new.center();
    let ghost mid_map: Seq<Vec<Tile>>;
    let horizontal_first = rand_coin();
    if horizontal_first {
        // first move horizontally, then vertically
        create_horizontal_tunnel(prev_x, new_x, prev_y, map);
        proof {
            mid_map = map@;
        }
        create_vertical_tunnel(prev_y, new_y, new_x, map);
    } else {
        // first move vertically, then horizontally
        create_vertical_tunnel(prev_y, new_y, prev_x, map);
        proof {
            mid_map = map@;
        }
        create_horizontal_tunnel(prev_x, new_x, new_y, map);
    }
    proof {
        assert forall|i: int, j: int| in_bounds(old(map)@, i, j) implies tile_at(map@, i, j) == (
        if on_l_path(rect_center(prev), rect_center(new), horizontal_first, i, j) {
            floor_tile()
        } else {
            tile_at(old(map)@, i, j)
        }) by {
            assert(in_bounds(mid_map, i, j));
        }
    }
    horizontal_first
}

/// One corridor per accepted room after the first: corridor `k` joins
/// room `k`'s center to room `k + 1`'s center, in the orientation its
/// coin chose.
pub open spec fn corridors_follow(
    rooms: Seq<Rect>,
    corridors: Seq<((int, int), (int, int), bool)>,
) -> bool {
    &&& (if rooms.len() == 0 {
        corridors.len() == 0
    } else {
        corridors.len() == rooms.len() - 1
    })
    &&& forall|k: int|
        0 <= k < corridors.len() ==> (#[trigger] corridors[k]).0 == rect_center(rooms[k])
            && corridors[k].1 == rect_center(rooms[k + 1])
}

/// The cell lies strictly inside some accepted room's interior.
pub open spec fn in_some_room(rooms: Seq<Rect>, x: int, y: int) -> bool {
    exists|q: int| 0 <= q < rooms.len() && rect_interior(#[trigger] rooms[q], x, y)
}

/// The cell lies inside some accepted room's interior or on one of the
/// generated corridors.
pub open spec fn carved_cell(
    rooms: Seq<Rect>,
    corridors: Seq<((int, int), (int, int), bool)>,
    i: int,
    j: int,
) -> bool {
    ||| in_some_room(rooms, i, j)
    ||| exists|k: int|
        0 <= k < corridors.len() && on_l_path(
            (#[trigger] corridors[k]).0,
            corridors[k].1,
            corridors[k].2,
            i,
            j,
        )
}

/// The map is exactly the generation's carving: solid wall everywhere
/// except the accepted rooms' interiors and the corridors joining
/// consecutive room centers, which are open floor.
pub open spec fn map_is_carving(
    m: Seq<Vec<Tile>>,
    rooms: Seq<Rect>,
    corridors: Seq<((int, int), (int, int), bool)>,
) -> bool {
    &&& corridors_follow(rooms, corridors)
    &&& forall|i: int, j: int|
        #![trigger tile_at(m, i, j)]
        in_bounds(m, i, j) ==> tile_at(m, i, j) == (if carved_cell(rooms, corridors, i, j) {
            floor_tile()
        } else {
            wall_tile()
        })
}

proof fn lemma_carved_push_room(
    rooms: Seq<Rect>,
    corridors: Seq<((int, int), (int, int), bool)>,
    r: Rect,
    i: int,
    j: int,
)
    ensures
        carved_cell(rooms.push(r), corridors, i, j) <==> (carved_cell(rooms, corridors, i, j)
            || rect_interior(r, i, j)),
{
    let rooms1 = rooms.push(r);
    assert(rooms1[rooms.len() as int] == r);
    if in_some_room(rooms1, i, j) {
        let k = choose|k: int| 0 <= k < rooms1.len() && rect_interior(#[trigger] rooms1[k], i, j);
        if k < rooms.len() {
            assert(rooms[k] == rooms1[k]);
            assert(rect_interior(rooms[k], i, j));
        }
    }
    if in_some_room(rooms, i, j) {
        let k = choose|k: int| 0 <= k < rooms.len() && rect_interior(#[trigger] rooms[k], i, j);
        assert(rooms1[k] == rooms[k]);
        assert(rect_interior(rooms1[k], i, j));
    }
}

proof fn lemma_carved_push_corridor(
    rooms: Seq<Rect>,
    corridors: Seq<((int, int), (int, int), bool)>,
    c: ((int, int), (int, int), bool),
    i: int,
    j: int,
)
    ensures
        carved_cell(rooms, corridors.push(c), i, j) <==> (carved_cell(rooms, corridors, i, j)
            || on_l_path(c.0, c.1, c.2, i, j)),
{
    let corridors1 = corridors.push(c);
    assert(corridors1[corridors.len() as int] == c);
    if exists|k: int|
        0 <= k < corridors1.len() && on_l_path(
            (#[trigger] corridors1[k]).0,
            corridors1[k].1,
            corridors1[k].2,
            i,
            j,
        ) {
        let k = choose|k: int|
            0 <= k < corridors1.len() && on_l_path(
                (#[trigger] corridors1[k]).0,
                corridors1[k].1,
                corridors1[k].2,
                i,
                j,
            );
        if k < corridors.len() {
            assert(corridors[k] == corridors1[k]);
            assert(on_l_path(corridors[k].0, corridors[k].1, corridors[k].2, i, j));
        }
    }
    if exists|k: int|
        0 <= k < corridors.len() && on_l_path(
            (#[trigger] corridors[k]).0,
            corridors[k].1,
            corridors[k].2,
            i,
            j,
        ) {
        let k = choose|k: int|
            0 <= k < corridors.len() && on_l_path(
                (#[trigger] corridors[k]).0,
                corridors[k].1,
                corridors[k].2,
                i,
                j,
            );
        assert(corridors1[k] == corridors[k]);
        assert(on_l_path(corridors1[k].0, corridors1[k].1, corridors1[k].2, i, j));
    }
}

/// Generate the dungeon: start from solid wall, carve up to
/// `max_rooms` random non-overlapping rooms, place the player at the
/// first room's center, join each further room's center to the
/// previous room's center with one randomly oriented L-shaped
/// corridor, and populate each accepted room with monsters. Returns
/// the map and the accepted rooms, oldest first.
#[verifier::loop_isolation(false)]
#[verifier::rlimit(100)]
pub fn make_map(
    width: i32,
    height: i32,
    max_rooms: i32,
    room_min_size: i32,
    room_max_size: i32,
    max_room_monsters: i32,
    objects: &mut Vec<Object>,
) -> (result: (TileGrid, Vec<Rect>))
    requires
        3 <= width <= 0x8000,
        3 <= height <= 0x8000,
        2 <= room_min_size <= room_max_size,
        room_max_size < width,
        room_max_size < height,
        1 <= max_rooms,
        0 <= max_room_monsters < i32::MAX,
        old(objects)@.len() == 1,
        old(objects)@[0].blocks,
        old(objects)@[0].ai is None,
        match old(objects)@[0].fighter {
            Some(f) => {
                &&& fighter_in_range(f)
                &&& f.hp <= 0 ==> !old(objects)@[0].alive
                &&& f.on_death == DeathCallback::Player
            },
            None => true,
        },
    ensures
        map_wf(result.0@),
        map_width(result.0@) == width,
        map_height(result.0@) == height,
        map_sealed(result.0@),
        forall|i: int, j: int|
            in_bounds(result.0@, i, j) ==> !(#[trigger] tile_at(result.0@, i, j)).explored,
        1 <= result.1@.len(),
        rooms_ok(result.0@, result.1@),
        world_ok(result.0@, final(objects)@),
        same_except_pos(old(objects)@[0], final(objects)@[0]),
        final(objects)@[0].x as int == rect_center(result.1@[0]).0,
        final(objects)@[0].y as int == rect_center(result.1@[0]).1,
        forall|k: int|
            1 <= k < final(objects)@.len() ==> monster_form(#[trigger] final(objects)@[k]),
        exists|corridors: Seq<((int, int), (int, int), bool)>|
            #[trigger] map_is_carving(result.0@, result.1@, corridors),
        forall|k: int|
            1 <= k < final(objects)@.len() ==> in_some_room(
                result.1@,
                (#[trigger] final(objects)@[k]).x as int,
                final(objects)@[k].y as int,
            ),
{
    // fill the whole map with solid wall
    let mut map: TileGrid = Vec::new();
    let mut cx: i32 = 0;
    while cx < width
        invariant
            0 <= cx <= width,
            map@.len() == cx,
            forall|i: int| 0 <= i < cx ==> (#[trigger] map@[i])@.len() == height,
            forall|i: int, j: int|
                0 <= i < cx && 0 <= j < height ==> (#[trigger] map@[i]@[j]) == wall_tile(),
        decreases width - cx,
    {
        let mut col: Vec<Tile> = Vec::new();
        let mut cy: i32 = 0;
        while cy < height
            invariant
                0 <= cy <= height,
                col@.len() == cy,
                forall|j: int| 0 <= j < cy ==> (#[trigger] col@[j]) == wall_tile(),
            decreases height - cy,
        {
            col.push(Tile::wall());
            cy = cy + 1;
        }
        map.push(col);
        cx = cx + 1;
    }

    let mut rooms: Vec<Rect> = Vec::new();
    let ghost mut corridors: Seq<((int, int), (int, int), bool)> = Seq::empty();
    let mut r: i32 = 0;
    while r < max_rooms
        invariant
            0 <= r <= max_rooms,
            map_wf(map@),
            map_width(map@) == width,
            map_height(map@) == height,
            map_sealed(map@),
            forall|i: int, j: int|
                in_bounds(map@, i, j) ==> !(#[trigger] tile_at(map@, i, j)).explored,
            rooms_ok(map@, rooms@),
            r >= 1 ==> rooms@.len() >= 1,
            objects@.len() >= 1,
            same_except_pos(old(objects)@[0], objects@[0]),
            rooms@.len() == 0 ==> objects@ == old(objects)@,
            rooms@.len() >= 1 ==> {
                &&& objects@[0].x as int == rect_center(rooms@[0]).0
                &&& objects@[0].y as int == rect_center(rooms@[0]).1
                &&& in_bounds(map@, objects@[0].x as int, objects@[0].y as int)
                &&& !tile_at(map@, objects@[0].x as int, objects@[0].y as int).blocked
            },
            forall|k: int|
                1 <= k < objects@.len() ==> {
                    let o = #[trigger] objects@[k];
                    &&& monster_form(o)
                    &&& in_bounds(map@, o.x as int, o.y as int)
                    &&& !tile_at(map@, o.x as int, o.y as int).blocked
                },
            crate::object::blockers_distinct(objects@),
            map_is_carving(map@, rooms@, corridors),
            forall|k: int|
                1 <= k < objects@.len() ==> in_some_room(
                    rooms@,
                    (#[trigger] objects@[k]).x as int,
                    objects@[k].y as int,
                ),
        decreases max_rooms - r,
    {
        // random width and height
        let w = rand_range(room_min_size, room_max_size + 1);
        let h = rand_range(room_min_size, room_max_size + 1);
        // random position without going out of the map bounds
        let x = rand_range(0, width - w);
        let y = rand_range(0, height - h);
        let new_room = Rect::new(x, y, w, h);

        // run through the other rooms and see if they intersect this one
        let mut intersects = false;
        let mut k: usize = 0;
        while k < rooms.len()
            invariant
                k <= rooms@.len(),
                intersects == exists|j: int|
                    0 <= j < k && rects_overlap(new_room, #[trigger] rooms@[j]),
            decreases rooms@.len() - k,
        {
            if new_room.intersects_with(&rooms[k]) {
                intersects = true;
            }
            k = k + 1;
        }

        if !intersects {
            let ghost rooms0 = rooms@;
            let ghost corridors0 = corridors;
            let ghost map0 = map@;
            // paint the room onto the map's tiles
            create_room(new_room, &mut map);
            let ghost map1 = map@;

            // center coordinates of the new room
            let (new_x, new_y) = new_room.center();

            if rooms.len() == 0 {
                // the first room, where the player starts
                let player = &mut objects[0];
                player.set_pos(new_x, new_y);
            } else {
                // connect to the previous room with a corridor
                let prev = rooms[rooms.len() - 1];
                let horizontal_first = connect_rooms(prev, new_room, &mut map);
                proof {
                    corridors = corridors.push(
                        (rect_center(prev), rect_center(new_room), horizontal_first),
                    );
                }
            }
            // add some monsters to this room; the occupancy check sees
            // the player, so no monster lands on an occupied cell
            place_objects(new_room, &map, objects, max_room_monsters);
            let ghost old_len = rooms@.len() as int;
            rooms.push(new_room);
            proof {
                assert(rooms@[old_len] == new_room);
                assert forall|i: int, j: int| in_bounds(map@, i, j) implies #[trigger] tile_at(
                    map@,
                    i,
                    j,
                ) == (if carved_cell(rooms@, corridors, i, j) {
                    floor_tile()
                } else {
                    wall_tile()
                }) by {
                    assert(in_bounds(map0, i, j));
                    assert(in_bounds(map1, i, j));
                    lemma_carved_push_room(rooms0, corridors0, new_room, i, j);
                    if rooms0.len() > 0 {
                        lemma_carved_push_corridor(
                            rooms0.push(new_room),
                            corridors0,
                            corridors[corridors.len() - 1],
                            i,
                            j,
                        );
                        lemma_carved_push_room(rooms0, corridors, new_room, i, j);
                    }
                }
                assert forall|k: int| 1 <= k < objects@.len() implies in_some_room(
                    rooms@,
                    (#[trigger] objects@[k]).x as int,
                    objects@[k].y as int,
                ) by {
                    lemma_carved_push_room(rooms0, corridors, new_room, objects@[k].x as int, objects@[k].y as int);
                    if rect_interior(new_room, objects@[k].x as int, objects@[k].y as int) {
                        assert(rect_interior(
                            rooms@[old_len],
                            objects@[k].x as int,
                            objects@[k].y as int,
                        ));
                    } else {
                        let q = choose|q: int|
                            0 <= q < rooms0.len() && rect_interior(
                                #[trigger] rooms0[q],
                                objects@[k].x as int,
                                objects@[k].y as int,
                            );
                        assert(rooms@[q] == rooms0[q]);
                        assert(rect_interior(rooms@[q], objects@[k].x as int, objects@[k].y as int));
                    }
                }
            }
        }
        r = r + 1;
    }
    proof {
        assert(map_is_carving(map@, rooms@, corridors));
    }
    (map, rooms)
}

} // verus!
