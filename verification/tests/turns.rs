use roguelike::{
    advance_turn, handle_keys, Ai, Color, DeathCallback, Fighter, Game, Key, Messages, Object,
    PlayerAction, Tile, TileGrid, Visibility,
};
use roguelike::turn::ai_take_turn;

fn test_map(w: usize, h: usize) -> TileGrid {
    let mut map = Vec::new();
    for x in 0..w {
        let mut col = Vec::new();
        for y in 0..h {
            if x == 0 || y == 0 || x == w - 1 || y == h - 1 {
                col.push(Tile::wall());
            } else {
                col.push(Tile::empty());
            }
        }
        map.push(col);
    }
    map
}

fn vis_all(w: usize, h: usize, value: bool) -> Visibility {
    let mut v = Visibility::new(w, h);
    for x in 0..w {
        for y in 0..h {
            v.set(x, y, value);
        }
    }
    v
}

fn player_at(x: i32, y: i32) -> Object {
    let mut player = Object::new(x, y, '@', "player", Color::white(), true);
    player.alive = true;
    player.fighter = Some(Fighter::new(2, 30, 30, 5, DeathCallback::Player));
    player
}

fn orc_at(x: i32, y: i32) -> Object {
    let mut orc = Object::new(x, y, 'o', "orc", Color::desaturated_green(), true);
    orc.fighter = Some(Fighter::new(0, 10, 10, 3, DeathCallback::Monster));
    orc.ai = Some(Ai::Basic);
    orc.alive = true;
    orc
}

fn game_with(map: TileGrid) -> Game {
    Game { map, messages: Messages::new(), inventory: Vec::new() }
}

#[test]
fn ai_outside_visible_set_does_nothing() {
    let mut game = game_with(test_map(10, 10));
    let mut objects = vec![player_at(1, 1), orc_at(4, 1)];
    let blind = Visibility::new(10, 10);
    ai_take_turn(1, &blind, &mut game, &mut objects);
    assert_eq!(objects[1].pos(), (4, 1));
    assert_eq!(objects[0].fighter.unwrap().hp, 30);
    assert_eq!(game.messages.len(), 0);
}

#[test]
fn ai_adjacent_attacks_instead_of_moving() {
    // distance 1.0 while visible: attack, not move
    let mut game = game_with(test_map(10, 10));
    let mut objects = vec![player_at(1, 1), orc_at(2, 1)];
    let vis = vis_all(10, 10, true);
    ai_take_turn(1, &vis, &mut game, &mut objects);
    assert_eq!(objects[1].pos(), (2, 1));
    // orc power 3 against player defense 2: exactly 1 hit point
    assert_eq!(objects[0].fighter.unwrap().hp, 29);
    assert_eq!(game.messages.len(), 1);
    assert_eq!(game.messages.get(0).0, "orc attacks player for 1 hit points.");
}

#[test]
fn ai_at_distance_moves_one_step_toward_player() {
    // distance 3.0 while visible: one greedy step toward the player
    let mut game = game_with(test_map(10, 10));
    let mut objects = vec![player_at(1, 1), orc_at(4, 1)];
    let vis = vis_all(10, 10, true);
    ai_take_turn(1, &vis, &mut game, &mut objects);
    assert_eq!(objects[1].pos(), (3, 1));
    assert_eq!(objects[0].fighter.unwrap().hp, 30);
    assert_eq!(game.messages.len(), 0);
}

#[test]
fn ai_does_not_attack_downed_player() {
    let mut game = game_with(test_map(10, 10));
    let mut player = player_at(1, 1);
    player.fighter = Some(Fighter::new(2, -3, 30, 5, DeathCallback::Player));
    player.alive = false;
    let mut objects = vec![player, orc_at(2, 1)];
    let vis = vis_all(10, 10, true);
    ai_take_turn(1, &vis, &mut game, &mut objects);
    assert_eq!(objects[0].fighter.unwrap().hp, -3);
    assert_eq!(game.messages.len(), 0);
}

#[test]
fn handle_keys_escape_exits() {
    let mut game = game_with(test_map(10, 10));
    let mut objects = vec![player_at(1, 1)];
    assert_eq!(handle_keys(Key::Escape, &mut game, &mut objects), PlayerAction::Exit);
    assert_eq!(objects[0].pos(), (1, 1));
}

#[test]
fn handle_keys_unrecognized_takes_no_turn() {
    let mut game = game_with(test_map(10, 10));
    let mut objects = vec![player_at(1, 1)];
    assert_eq!(handle_keys(Key::Other, &mut game, &mut objects), PlayerAction::DidntTakeTurn);
    assert_eq!(handle_keys(Key::AltEnter, &mut game, &mut objects), PlayerAction::DidntTakeTurn);
    assert_eq!(objects[0].pos(), (1, 1));
    assert_eq!(game.messages.len(), 0);
}

#[test]
fn handle_keys_dead_player_takes_no_action() {
    let mut game = game_with(test_map(10, 10));
    let mut player = player_at(2, 2);
    player.alive = false;
    let mut objects = vec![player];
    assert_eq!(handle_keys(Key::Up, &mut game, &mut objects), PlayerAction::DidntTakeTurn);
    assert_eq!(objects[0].pos(), (2, 2));
    // Escape still exits for a dead player
    assert_eq!(handle_keys(Key::Escape, &mut game, &mut objects), PlayerAction::Exit);
}

#[test]
fn bumping_a_wall_still_consumes_the_turn() {
    let mut game = game_with(test_map(10, 10));
    let mut objects = vec![player_at(1, 1)];
    // up from (1, 1) runs into the border wall
    let action = handle_keys(Key::Up, &mut game, &mut objects);
    assert_eq!(action, PlayerAction::TookTurn);
    assert_eq!(objects[0].pos(), (1, 1));
}

#[test]
fn directional_key_moves_the_player() {
    let mut game = game_with(test_map(10, 10));
    let mut objects = vec![player_at(1, 1)];
    let action = handle_keys(Key::Down, &mut game, &mut objects);
    assert_eq!(action, PlayerAction::TookTurn);
    assert_eq!(objects[0].pos(), (1, 2));
}

#[test]
fn directional_key_into_monster_attacks() {
    let mut game = game_with(test_map(10, 10));
    let mut objects = vec![player_at(1, 1), orc_at(2, 1)];
    let action = handle_keys(Key::Right, &mut game, &mut objects);
    assert_eq!(action, PlayerAction::TookTurn);
    assert_eq!(objects[0].pos(), (1, 1));
    // player power 5 against orc defense 0
    assert_eq!(objects[1].fighter.unwrap().hp, 5);
    assert_eq!(game.messages.get(0).0, "player attacks orc for 5 hit points.");
}

#[test]
fn no_ai_acts_after_didnt_take_turn() {
    let mut game = game_with(test_map(10, 10));
    let mut objects = vec![player_at(1, 1), orc_at(2, 1)];
    let vis = vis_all(10, 10, true);
    let keep_going = advance_turn(PlayerAction::DidntTakeTurn, &vis, &mut game, &mut objects);
    assert!(keep_going);
    assert_eq!(objects[0].fighter.unwrap().hp, 30);
    assert_eq!(objects[1].pos(), (2, 1));
    assert_eq!(game.messages.len(), 0);
}

#[test]
fn exit_halts_all_turn_processing() {
    let mut game = game_with(test_map(10, 10));
    let mut objects = vec![player_at(1, 1), orc_at(2, 1)];
    let vis = vis_all(10, 10, true);
    let keep_going = advance_turn(PlayerAction::Exit, &vis, &mut game, &mut objects);
    assert!(!keep_going);
    assert_eq!(objects[0].fighter.unwrap().hp, 30);
    assert_eq!(game.messages.len(), 0);
}

#[test]
fn monsters_act_in_index_order_after_a_turn() {
    let mut game = game_with(test_map(10, 10));
    let mut troll = Object::new(1, 2, 'T', "troll", Color::darker_green(), true);
    troll.fighter = Some(Fighter::new(1, 16, 16, 4, DeathCallback::Monster));
    troll.ai = Some(Ai::Basic);
    troll.alive = true;
    let mut objects = vec![player_at(1, 1), orc_at(2, 1), troll];
    let vis = vis_all(10, 10, true);
    let keep_going = advance_turn(PlayerAction::TookTurn, &vis, &mut game, &mut objects);
    assert!(keep_going);
    // both adjacent monsters hit: 30 - 1 (orc) - 2 (troll)
    assert_eq!(objects[0].fighter.unwrap().hp, 27);
    assert_eq!(game.messages.len(), 2);
    assert_eq!(game.messages.get(0).0, "orc attacks player for 1 hit points.");
    assert_eq!(game.messages.get(1).0, "troll attacks player for 2 hit points.");
}

#[test]
fn no_ai_acts_when_player_is_dead() {
    let mut game = game_with(test_map(10, 10));
    let mut player = player_at(1, 1);
    player.alive = false;
    player.fighter = Some(Fighter::new(2, -1, 30, 5, DeathCallback::Player));
    let mut objects = vec![player, orc_at(4, 1)];
    let vis = vis_all(10, 10, true);
    let keep_going = advance_turn(PlayerAction::TookTurn, &vis, &mut game, &mut objects);
    assert!(keep_going);
    assert_eq!(objects[1].pos(), (4, 1));
    assert_eq!(game.messages.len(), 0);
}

#[test]
fn ai_steps_diagonally_when_both_axes_dominate() {
    let mut game = game_with(test_map(10, 10));
    let mut objects = vec![player_at(1, 1), orc_at(4, 4)];
    let vis = vis_all(10, 10, true);
    ai_take_turn(1, &vis, &mut game, &mut objects);
    assert_eq!(objects[1].pos(), (3, 3));
}

#[test]
fn fov_recompute_only_after_movement() {
    assert!(roguelike::should_recompute_fov((-1, -1), (5, 5)));
    assert!(!roguelike::should_recompute_fov((5, 5), (5, 5)));
    assert!(roguelike::should_recompute_fov((5, 5), (5, 6)));
}
