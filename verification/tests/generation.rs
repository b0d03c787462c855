use roguelike::{make_map, Color, DeathCallback, Fighter, Object, Rect, TileGrid};

fn fresh_player() -> Object {
    let mut player = Object::new(0, 0, '@', "player", Color::white(), true);
    player.alive = true;
    player.fighter = Some(Fighter::new(2, 30, 30, 5, DeathCallback::Player));
    player
}

fn generate() -> (TileGrid, Vec<Rect>, Vec<Object>) {
    let mut objects = vec![fresh_player()];
    let (map, rooms) = make_map(80, 43, 30, 6, 10, 3, &mut objects);
    (map, rooms, objects)
}

#[test]
fn rooms_never_overlap() {
    let (_, rooms, _) = generate();
    assert!(rooms.len() >= 1);
    for a in 0..rooms.len() {
        for b in 0..rooms.len() {
            if a != b {
                let ra = &rooms[a];
                let rb = &rooms[b];
                let overlap = ra.x1 <= rb.x2 && ra.x2 >= rb.x1 && ra.y1 <= rb.y2 && ra.y2 >= rb.y1;
                assert!(!overlap, "rooms {} and {} overlap", a, b);
            }
        }
    }
}

#[test]
fn room_interiors_are_walkable_and_clear() {
    let (map, rooms, _) = generate();
    for room in &rooms {
        for x in (room.x1 + 1)..room.x2 {
            for y in (room.y1 + 1)..room.y2 {
                let t = &map[x as usize][y as usize];
                assert!(!t.blocked, "blocked interior tile at ({}, {})", x, y);
                assert!(!t.block_sight, "sight-blocking interior tile at ({}, {})", x, y);
            }
        }
    }
}

fn h_leg_clear(map: &TileGrid, x1: i32, x2: i32, y: i32) -> bool {
    let (lo, hi) = if x1 <= x2 { (x1, x2) } else { (x2, x1) };
    (lo..=hi).all(|x| !map[x as usize][y as usize].blocked)
}

fn v_leg_clear(map: &TileGrid, y1: i32, y2: i32, x: i32) -> bool {
    let (lo, hi) = if y1 <= y2 { (y1, y2) } else { (y2, y1) };
    (lo..=hi).all(|y| !map[x as usize][y as usize].blocked)
}

#[test]
fn consecutive_room_centers_are_l_connected() {
    let (map, rooms, _) = generate();
    for k in 1..rooms.len() {
        let (ax, ay) = ((rooms[k - 1].x1 + rooms[k - 1].x2) / 2, (rooms[k - 1].y1 + rooms[k - 1].y2) / 2);
        let (bx, by) = ((rooms[k].x1 + rooms[k].x2) / 2, (rooms[k].y1 + rooms[k].y2) / 2);
        let horizontal_first = h_leg_clear(&map, ax, bx, ay) && v_leg_clear(&map, ay, by, bx);
        let vertical_first = v_leg_clear(&map, ay, by, ax) && h_leg_clear(&map, ax, bx, by);
        assert!(
            horizontal_first || vertical_first,
            "no contiguous walkable L-path between rooms {} and {}",
            k - 1,
            k
        );
    }
}

#[test]
fn player_starts_at_first_room_center() {
    let (_, rooms, objects) = generate();
    let cx = (rooms[0].x1 + rooms[0].x2) / 2;
    let cy = (rooms[0].y1 + rooms[0].y2) / 2;
    assert_eq!(objects[0].pos(), (cx, cy));
    assert_eq!(objects[0].name, "player");
    assert!(objects[0].alive);
}

#[test]
fn generated_map_is_sealed_and_sized() {
    let (map, _, _) = generate();
    assert_eq!(map.len(), 80);
    for col in &map {
        assert_eq!(col.len(), 43);
    }
    for x in 0..80usize {
        assert!(map[x][0].blocked && map[x][42].blocked);
    }
    for y in 0..43usize {
        assert!(map[0][y].blocked && map[79][y].blocked);
    }
    // a fresh map starts entirely unexplored
    for col in &map {
        for t in col {
            assert!(!t.explored);
        }
    }
}

#[test]
fn placed_monsters_are_well_formed() {
    let (map, _, objects) = generate();
    for monster in &objects[1..] {
        assert!(monster.alive && monster.blocks);
        assert!(monster.ai.is_some());
        assert!(!map[monster.x as usize][monster.y as usize].blocked);
        let f = monster.fighter.expect("a placed monster can fight");
        let orc = monster.name == "orc" && monster.char == 'o' && f.power == 3 && f.defense == 0
            && f.hp == 10 && f.max_hp == 10;
        let troll = monster.name == "troll" && monster.char == 'T' && f.power == 4
            && f.defense == 1 && f.hp == 16 && f.max_hp == 16;
        assert!(orc || troll, "unexpected monster {:?}", monster.name);
    }
}

#[test]
fn blocking_entities_never_share_a_cell() {
    let (_, _, objects) = generate();
    for a in 0..objects.len() {
        for b in (a + 1)..objects.len() {
            if objects[a].blocks && objects[b].blocks {
                assert!(
                    objects[a].pos() != objects[b].pos(),
                    "entities {} and {} share a cell",
                    a,
                    b
                );
            }
        }
    }
}

#[test]
fn monster_count_is_bounded_per_room() {
    let (_, rooms, objects) = generate();
    // at most three monsters per accepted room
    assert!(objects.len() - 1 <= rooms.len() * 3);
}

#[test]
fn monsters_stand_inside_accepted_rooms() {
    let (_, rooms, objects) = generate();
    for monster in &objects[1..] {
        let inside = rooms.iter().any(|r| {
            r.x1 < monster.x && monster.x < r.x2 && r.y1 < monster.y && monster.y < r.y2
        });
        assert!(inside, "a monster stands outside every room interior");
    }
}

#[test]
fn everything_outside_rooms_and_corridors_is_wall() {
    // with a single room there are no corridors: everything outside its
    // interior must still be solid wall
    let mut objects = vec![fresh_player()];
    let (map, rooms) = make_map(30, 20, 1, 6, 10, 0, &mut objects);
    assert_eq!(rooms.len(), 1);
    let room = &rooms[0];
    for x in 0..30i32 {
        for y in 0..20i32 {
            let inside = room.x1 < x && x < room.x2 && room.y1 < y && y < room.y2;
            let t = &map[x as usize][y as usize];
            if inside {
                assert!(!t.blocked && !t.block_sight);
            } else {
                assert!(t.blocked && t.block_sight);
            }
        }
    }
}
