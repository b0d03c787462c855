use roguelike::{
    apply_visibility, draw_order, get_names_under_mouse, move_by, tile_render, Ai, Color,
    DeathCallback, Fighter, Game, Item, Messages, Object, Tile, TileGrid, TileLook, UseResult,
    Visibility,
};

fn test_map(w: usize, h: usize) -> TileGrid {
    let mut map = Vec::new();
    for x in 0..w {
        let mut col = Vec::new();
        for y in 0..h {
            if x == 0 || y == 0 || x == w - 1 || y == h - 1 {
                col.push(Tile::wall());
            } else {
                col.push(Tile::empty());
            }
        }
        map.push(col);
    }
    map
}

fn vis_all(w: usize, h: usize, value: bool) -> Visibility {
    let mut v = Visibility::new(w, h);
    for x in 0..w {
        for y in 0..h {
            v.set(x, y, value);
        }
    }
    v
}

fn player_at(x: i32, y: i32) -> Object {
    let mut player = Object::new(x, y, '@', "player", Color::white(), true);
    player.alive = true;
    player.fighter = Some(Fighter::new(2, 30, 30, 5, DeathCallback::Player));
    player
}

fn orc_at(x: i32, y: i32) -> Object {
    let mut orc = Object::new(x, y, 'o', "orc", Color::desaturated_green(), true);
    orc.fighter = Some(Fighter::new(0, 10, 10, 3, DeathCallback::Monster));
    orc.ai = Some(Ai::Basic);
    orc.alive = true;
    orc
}

fn game_with(map: TileGrid) -> Game {
    Game { map, messages: Messages::new(), inventory: Vec::new() }
}

#[test]
fn tile_constructors() {
    let e = Tile::empty();
    assert!(!e.blocked && !e.block_sight && !e.explored);
    let w = Tile::wall();
    assert!(w.blocked && w.block_sight && !w.explored);
}

#[test]
fn rect_center_and_overlap() {
    let r = roguelike::Rect::new(1, 2, 4, 6);
    assert_eq!((r.x1, r.y1, r.x2, r.y2), (1, 2, 5, 8));
    assert_eq!(r.center(), (3, 5));
    let other = roguelike::Rect::new(5, 8, 3, 3);
    // closed-interval test: rectangles sharing only an edge point overlap
    assert!(r.intersects_with(&other));
    assert!(other.intersects_with(&r));
    let far = roguelike::Rect::new(6, 9, 2, 2);
    assert!(!r.intersects_with(&far));
}

#[test]
fn messages_append_in_order() {
    let mut msgs = Messages::new();
    assert_eq!(msgs.len(), 0);
    msgs.add(String::from("first"), Color::white());
    msgs.add(String::from("second"), Color::red());
    assert_eq!(msgs.len(), 2);
    assert_eq!(msgs.get(0).0, "first");
    assert_eq!(msgs.get(1).0, "second");
    assert_eq!(msgs.get(1).1, Color::red());
}

#[test]
fn decimal_rendering() {
    assert_eq!(roguelike::messages::u32_to_dec(0), "0");
    assert_eq!(roguelike::messages::u32_to_dec(7), "7");
    assert_eq!(roguelike::messages::u32_to_dec(10), "10");
    assert_eq!(roguelike::messages::u32_to_dec(1234), "1234");
}

#[test]
fn combat_damage_is_power_minus_defense() {
    // power 5, defense 2: damage is exactly 3
    let mut game = game_with(test_map(8, 8));
    let mut player = player_at(1, 1);
    let mut orc = orc_at(2, 1);
    orc.fighter = Some(Fighter::new(2, 10, 10, 3, DeathCallback::Monster));
    player.attack(&mut orc, &mut game);
    assert_eq!(orc.fighter.unwrap().hp, 7);
    assert_eq!(game.messages.len(), 1);
    assert_eq!(game.messages.get(0).0, "player attacks orc for 3 hit points.");
}

#[test]
fn combat_no_effect_when_defense_wins() {
    // power 2, defense 5: damage 0, no hp change, "no effect" message
    let mut game = game_with(test_map(8, 8));
    let mut weakling = player_at(1, 1);
    weakling.fighter = Some(Fighter::new(2, 30, 30, 2, DeathCallback::Player));
    let mut tank = orc_at(2, 1);
    tank.fighter = Some(Fighter::new(5, 10, 10, 3, DeathCallback::Monster));
    weakling.attack(&mut tank, &mut game);
    assert_eq!(tank.fighter.unwrap().hp, 10);
    assert_eq!(game.messages.len(), 1);
    assert_eq!(game.messages.get(0).0, "player attacks orc but it has no effect!");
}

#[test]
fn monster_death_transition() {
    // an entity with the Monster policy brought to hp 0 becomes a
    // non-blocking corpse, loses Fighter and Ai, and is renamed
    let mut game = game_with(test_map(8, 8));
    let mut player = player_at(1, 1);
    let mut orc = orc_at(2, 1);
    orc.fighter = Some(Fighter::new(0, 5, 10, 3, DeathCallback::Monster));
    player.attack(&mut orc, &mut game);
    assert!(!orc.blocks);
    assert!(!orc.alive);
    assert!(orc.fighter.is_none());
    assert!(orc.ai.is_none());
    assert_eq!(orc.name, "remains of orc");
    assert_eq!(orc.char, '%');
    assert_eq!(orc.color, Color::dark_red());
    // the death message is logged before the blow's message, which
    // names the defender as it reads after the blow
    assert_eq!(game.messages.len(), 2);
    assert_eq!(game.messages.get(0).0, "orc is dead!");
    assert_eq!(game.messages.get(1).0, "player attacks remains of orc for 5 hit points.");
}

#[test]
fn player_death_keeps_identity() {
    let mut game = game_with(test_map(8, 8));
    let mut player = player_at(1, 1);
    player.fighter = Some(Fighter::new(2, 2, 30, 5, DeathCallback::Player));
    player.take_damage(5, &mut game);
    assert!(!player.alive);
    assert_eq!(player.char, '%');
    assert_eq!(player.color, Color::dark_red());
    // the player corpse keeps its name, Fighter bundle and blocking
    assert_eq!(player.name, "player");
    assert_eq!(player.fighter.unwrap().hp, -3);
    assert!(player.blocks);
    assert_eq!(game.messages.len(), 1);
    assert_eq!(game.messages.get(0).0, "You died!");
}

#[test]
fn movement_rejected_by_terrain_and_blockers() {
    let map = test_map(8, 8);
    let mut objects = vec![player_at(1, 1), orc_at(2, 1)];
    // into the wall: position unchanged
    move_by(0, -1, 0, &map, &mut objects);
    assert_eq!(objects[0].pos(), (1, 1));
    // into a blocking entity: position unchanged
    move_by(0, 1, 0, &map, &mut objects);
    assert_eq!(objects[0].pos(), (1, 1));
    // into a free cell: moved
    move_by(0, 0, 1, &map, &mut objects);
    assert_eq!(objects[0].pos(), (1, 2));
}

#[test]
fn heal_clamps_at_max_hp() {
    // hp 28 of 30, heal amount 40: result is exactly 30
    let mut o = player_at(1, 1);
    o.fighter = Some(Fighter::new(2, 28, 30, 5, DeathCallback::Player));
    o.heal(40);
    assert_eq!(o.fighter.unwrap().hp, 30);
    // away from the boundary the full amount lands
    let mut o2 = player_at(1, 1);
    o2.fighter = Some(Fighter::new(2, 10, 30, 5, DeathCallback::Player));
    o2.heal(5);
    assert_eq!(o2.fighter.unwrap().hp, 15);
}

#[test]
fn heal_item_use_results() {
    let mut o = player_at(1, 1);
    o.fighter = Some(Fighter::new(2, 28, 30, 5, DeathCallback::Player));
    assert_eq!(o.use_item(Item::Heal, 40), UseResult::UsedUp);
    assert_eq!(o.fighter.unwrap().hp, 30);
    // an entity without a Fighter cannot be healed
    let mut scroll = Object::new(1, 1, '!', "potion", Color::white(), false);
    assert_eq!(scroll.use_item(Item::Heal, 40), UseResult::Cancelled);
    assert!(scroll.fighter.is_none());
}

#[test]
fn tile_render_classification() {
    let mut explored_wall = Tile::wall();
    explored_wall.explored = true;
    let mut explored_ground = Tile::empty();
    explored_ground.explored = true;
    assert_eq!(tile_render(false, &explored_wall), Some(TileLook::DarkWall));
    assert_eq!(tile_render(false, &explored_ground), Some(TileLook::DarkGround));
    assert_eq!(tile_render(true, &explored_wall), Some(TileLook::LightWall));
    assert_eq!(tile_render(true, &explored_ground), Some(TileLook::LightGround));
    assert_eq!(tile_render(false, &Tile::wall()), None);
    assert_eq!(tile_render(true, &Tile::empty()), None);
}

#[test]
fn explored_is_monotonic() {
    let mut map = test_map(6, 6);
    let mut vis = Visibility::new(6, 6);
    vis.set(2, 2, true);
    apply_visibility(&mut map, &vis);
    assert!(map[2][2].explored);
    assert!(!map[3][3].explored);
    // the cell drops out of sight; explored must persist
    let none = Visibility::new(6, 6);
    apply_visibility(&mut map, &none);
    assert!(map[2][2].explored);
    // terrain never changes
    assert!(map[0][0].blocked && map[0][0].block_sight);
    assert!(!map[2][2].blocked && !map[2][2].block_sight);
}

#[test]
fn names_under_mouse_joins_visible_names() {
    let objects = vec![player_at(2, 2), orc_at(2, 2), orc_at(3, 3)];
    let vis = vis_all(6, 6, true);
    assert_eq!(get_names_under_mouse(2, 2, &objects, &vis), "player, orc");
    assert_eq!(get_names_under_mouse(3, 3, &objects, &vis), "orc");
    assert_eq!(get_names_under_mouse(4, 4, &objects, &vis), "");
    let blind = Visibility::new(6, 6);
    assert_eq!(get_names_under_mouse(2, 2, &objects, &blind), "");
}

#[test]
fn draw_order_puts_non_blockers_first() {
    let mut corpse = Object::new(1, 1, '%', "remains of orc", Color::dark_red(), false);
    corpse.alive = false;
    let objects = vec![player_at(2, 2), corpse, orc_at(3, 3)];
    let vis = vis_all(6, 6, true);
    let order = draw_order(&objects, &vis);
    assert_eq!(order, vec![1usize, 0, 2]);
    // out of sight, out of the draw list
    let blind = Visibility::new(6, 6);
    assert_eq!(draw_order(&objects, &blind), Vec::<usize>::new());
}
