use vstd::prelude::*;

use crate::combat::{attack_at, attack_transition};
use crate::messages::msgs_extended;
use crate::movement::{dist_sq, move_by, move_transition, move_towards, step_toward};
use crate::object::{world_ok, Game, Object};
use crate::tile::{map_height, map_width};
use crate::vision::{vis_wf, visible_at, Visibility};

verus! {

/// The one input event per frame the core reacts to. The rendering
/// collaborator translates raw device events into this set; anything
/// it does not recognize comes in as `Other`, and a frame without an
/// event comes in as `Other` too.
#[derive(Clone, Copy, Debug, PartialEq, Eq, Structural)]
pub enum Key {
    AltEnter,
    Escape,
    Up,
    Down,
    Left,
    Right,
    Other,
}

/// What one input event amounted to: a turn was spent, nothing
/// happened that costs a turn, or the game is over.
#[derive(Clone, Copy, Debug, PartialEq, Eq, Structural)]
pub enum PlayerAction {
    TookTurn,
    DidntTakeTurn,
    Exit,
}

/// The movement direction a key stands for, if any.
pub open spec fn key_delta(key: Key) -> Option<(int, int)> {
    match key {
        Key::Up => Some((0int, -1int)),
        Key::Down => Some((0int, 1int)),
        Key::Left => Some((-1int, 0int)),
        Key::Right => Some((1int, 0int)),
        _ => None,
    }
}

/// Entity `i` has a Fighter and stands at `(x, y)`: it can be the
/// target of an attack on that cell.
pub open spec fn fighter_at(objs: Seq<Object>, i: int, x: int, y: int) -> bool {
    0 <= i < objs.len() && objs[i].fighter is Some && objs[i].x == x && objs[i].y == y
}

/// How one "move or attack" of the player ends. If some entity with a
/// Fighter occupies the destination cell, the player attacks the first
/// such entity (lowest index) instead of moving; otherwise the player
/// attempts the move, which silently stays put when the destination is
/// blocked.
pub open spec fn move_or_attack_transition(
    m: Seq<Vec<Tile>>,
    objs0: Seq<Object>,
    objs1: Seq<Object>,
    msgs0: Seq<(String, Color)>,
    msgs1: Seq<(String, Color)>,
    dx: int,
    dy: int,
) -> bool {
    let x = objs0[0].x + dx;
    let y = objs0[0].y + dy;
    if exists|i: int| #[trigger] fighter_at(objs0, i, x, y) {
        exists|tid: int|
            {
                &&& #[trigger] fighter_at(objs0, tid, x, y)
                &&& forall|j: int| 0 <= j < tid ==> !fighter_at(objs0, j, x, y)
                &&& objs1.len() == objs0.len()
                &&& forall|i: int| 0 <= i < objs0.len() && i != tid ==> objs1[i] == objs0[i]
                &&& attack_transition(objs0[0], objs0[tid], objs1[tid], msgs0, msgs1)
            }
    } else {
        &&& move_transition(m, objs0, objs1, 0, dx, dy)
        &&& msgs1 == msgs0
    }
}

use crate::color::Color;
use crate::tile::Tile;

/// Resolve one directional player input: attack the first entity with
/// a Fighter on the destination cell, or else try to move there
/// (bumping into a wall or a blocking entity is a valid no-op).
pub fn player_move_or_attack(dx: i32, dy: i32, game: &mut Game, objects: &mut Vec<Object>)
    requires
        world_ok(old(game).map@, old(objects)@),
        -1 <= dx <= 1,
        -1 <= dy <= 1,
        !(dx == 0 && dy == 0),
    ensures
        world_ok(final(game).map@, final(objects)@),
        final(objects)@.len() == old(objects)@.len(),
        final(game).map == old(game).map,
        final(game).inventory == old(game).inventory,
        msgs_extended(old(game).messages.messages@, final(game).messages.messages@),
        move_or_attack_transition(
            old(game).map@,
            old(objects)@,
            final(objects)@,
            old(game).messages.messages@,
            final(game).messages.messages@,
            dx as int,
            dy as int,
        ),
{
    proof {
        assert(crate::object::object_ok(old(game).map@, old(objects)@, 0));
    }
    // the cell the player is moving to or attacking
    let x = objects[0].x + dx;
    let y = objects[0].y + dy;

    // try to find an attackable entity there
    let mut target_id: usize = 0;
    let mut found = false;
    let mut i: usize = 0;
    while i < objects.len()
        invariant
            i <= objects@.len(),
            !found ==> forall|j: int| 0 <= j < i ==> !fighter_at(objects@, j, x as int, y as int),
            found ==> {
                &&& fighter_at(objects@, target_id as int, x as int, y as int)
                &&& forall|j: int|
                    0 <= j < target_id ==> !fighter_at(objects@, j, x as int, y as int)
            },
        decreases objects@.len() - i,
    {
        if !found && objects[i].fighter.is_some() && objects[i].x == x && objects[i].y == y {
            found = true;
            target_id = i;
        }
        i = i + 1;
    }

    // attack if a target was found, move otherwise
    if found {
        proof {
            assert(crate::object::object_ok(old(game).map@, old(objects)@, target_id as int));
        }
        attack_at(objects, 0, target_id, game);
    } else {
        move_by(0, dx, dy, &game.map, objects);
    }
    proof {
        assert forall|i: int| 0 <= i < final(objects)@.len() implies crate::object::object_ok(
            final(game).map@,
            final(objects)@,
            i,
        ) by {
            assert(crate::object::object_ok(old(game).map@, old(objects)@, i));
        }
    }
}

/// What the player's Fighter reads as "still in the fight": present
/// with hit points above zero.
pub open spec fn player_can_be_hit(objs: Seq<Object>) -> bool {
    match objs[0].fighter {
        Some(f) => f.hp > 0,
        None => false,
    }
}

/// How one Basic-behavior step of entity `id` ends. An entity outside
/// the current visible set does nothing at all. A visible one at
/// (squared) distance 4 or more walks one greedy step toward the
/// player; closer than that it attacks the player, provided the
/// player's hit points are still above zero.
pub open spec fn ai_transition(
    m: Seq<Vec<Tile>>,
    vis: Seq<Vec<bool>>,
    objs0: Seq<Object>,
    objs1: Seq<Object>,
    msgs0: Seq<(String, Color)>,
    msgs1: Seq<(String, Color)>,
    id: int,
) -> bool {
    let mx = objs0[id].x as int;
    let my = objs0[id].y as int;
    let px = objs0[0].x as int;
    let py = objs0[0].y as int;
    if !visible_at(vis, mx, my) {
        objs1 == objs0 && msgs1 == msgs0
    } else if dist_sq(mx, my, px, py) >= 4 {
        let step = step_toward(px - mx, py - my);
        move_transition(m, objs0, objs1, id, step.0, step.1) && msgs1 == msgs0
    } else if player_can_be_hit(objs0) {
        &&& objs1.len() == objs0.len()
        &&& forall|i: int| 0 < i < objs0.len() ==> objs1[i] == objs0[i]
        &&& attack_transition(objs0[id], objs0[0], objs1[0], msgs0, msgs1)
    } else {
        objs1 == objs0 && msgs1 == msgs0
    }
}

/// One turn of a Basic-behavior monster: if you can see it, it can see
/// you — an entity outside the visible set does nothing, has no
/// patrol and keeps no memory of a last-seen position.
pub fn ai_take_turn(monster_id: usize, fov: &Visibility, game: &mut Game, objects: &mut Vec<
    Object,
>)
    requires
        world_ok(old(game).map@, old(objects)@),
        1 <= monster_id < old(objects)@.len(),
        old(objects)@[monster_id as int].ai is Some,
        vis_wf(fov.grid@, map_width(old(game).map@), map_height(old(game).map@)),
    ensures
        world_ok(final(game).map@, final(objects)@),
        final(objects)@.len() == old(objects)@.len(),
        final(game).map == old(game).map,
        final(game).inventory == old(game).inventory,
        msgs_extended(old(game).messages.messages@, final(game).messages.messages@),
        ai_transition(
            old(game).map@,
            fov.grid@,
            old(objects)@,
            final(objects)@,
            old(game).messages.messages@,
            final(game).messages.messages@,
            monster_id as int,
        ),
{
    proof {
        assert(crate::object::object_ok(old(game).map@, old(objects)@, 0));
        assert(crate::object::object_ok(old(game).map@, old(objects)@, monster_id as int));
    }
    // a Basic monster takes its turn: if you can see it, it can see you
    let (monster_x, monster_y) = objects[monster_id].pos();
    if fov.is_in_fov(monster_x, monster_y) {
        let d = objects[monster_id].distance_sq_to(&objects[0]);
        if d >= 4 {
            // too far away: move toward the player
            let (player_x, player_y) = objects[0].pos();
            move_towards(monster_id, player_x, player_y, &game.map, objects);
        } else {
            let player_up = match objects[0].fighter {
                Some(f) => f.hp > 0,
                None => false,
            };
            if player_up {
                // close enough and the player is still up: attack
                attack_at(objects, monster_id, 0, game);
            }
        }
    }
    proof {
        assert forall|i: int| 0 <= i < final(objects)@.len() implies crate::object::object_ok(
            final(game).map@,
            final(objects)@,
            i,
        ) by {
            assert(crate::object::object_ok(old(game).map@, old(objects)@, i));
        }
    }
}

/// One frame's monster pass, written as the chain of states it goes
/// through: `trace[k]` is the world just before entity `k` takes its
/// turn (so the pass visits entities in ascending collection-index
/// order), and entity `k` acts by `ai_transition` exactly when it
/// carries autonomous behavior at that moment, and is skipped
/// untouched otherwise. `msgs[k]` is the message log alongside.
pub open spec fn ai_pass_steps(
    m: Seq<Vec<Tile>>,
    vis: Seq<Vec<bool>>,
    trace: Seq<Seq<Object>>,
    msgs: Seq<Seq<(String, Color)>>,
) -> bool {
    &&& trace.len() == msgs.len()
    &&& forall|k: int|
        0 <= k < trace.len() - 1 ==> (if (#[trigger] trace[k])[k].ai is Some {
            ai_transition(m, vis, trace[k], trace[k + 1], msgs[k], msgs[k + 1], k)
        } else {
            trace[k + 1] == trace[k] && msgs[k + 1] == msgs[k]
        })
}

/// The whole monsters' pass ran: some chain of intermediate states
/// leads from the old world to the new one, one `ai_pass_steps` step
/// per entity, in ascending index order.
pub open spec fn ai_pass(
    m: Seq<Vec<Tile>>,
    vis: Seq<Vec<bool>>,
    s0: Seq<Object>,
    s1: Seq<Object>,
    ms0: Seq<(String, Color)>,
    ms1: Seq<(String, Color)>,
) -> bool {
    exists|trace: Seq<Seq<Object>>, msgs: Seq<Seq<(String, Color)>>|
        {
            &&& #[trigger] ai_pass_steps(m, vis, trace, msgs)
            &&& trace.len() == s0.len() + 1
            &&& trace.first() == s0
            &&& trace.last() == s1
            &&& msgs.first() == ms0
            &&& msgs.last() == ms1
        }
}

/// Close out one frame after the player's action has been classified.
/// `Exit` halts immediately: nothing else of the turn is processed and
/// the caller must stop its loop. The monsters move once each, in
/// ascending collection-index order, exactly when the action consumed
/// a turn and the player is alive; after `DidntTakeTurn` no entity
/// acts at all.
pub fn advance_turn(
    action: PlayerAction,
    fov: &Visibility,
    game: &mut Game,
    objects: &mut Vec<Object>,
) -> (keep_going: bool)
    requires
        world_ok(old(game).map@, old(objects)@),
        vis_wf(fov.grid@, map_width(old(game).map@), map_height(old(game).map@)),
    ensures
        keep_going == (action != PlayerAction::Exit),
        world_ok(final(game).map@, final(objects)@),
        final(objects)@.len() == old(objects)@.len(),
        final(game).map == old(game).map,
        final(game).inventory == old(game).inventory,
        msgs_extended(old(game).messages.messages@, final(game).messages.messages@),
        (action != PlayerAction::TookTurn || !old(objects)@[0].alive) ==> (final(objects)@ == old(
            objects,
        )@ && *final(game) == *old(game)),
        forall|i: int|
            1 <= i < old(objects)@.len() && old(objects)@[i].ai is None ==> final(objects)@[i]
                == old(objects)@[i],
        final(objects)@[0].x == old(objects)@[0].x,
        final(objects)@[0].y == old(objects)@[0].y,
        (action == PlayerAction::TookTurn && old(objects)@[0].alive) ==> ai_pass(
            old(game).map@,
            fov.grid@,
            old(objects)@,
            final(objects)@,
            old(game).messages.messages@,
            final(game).messages.messages@,
        ),
{
    if action == PlayerAction::Exit {
        return false;
    }
    // let the monsters take their turn
    if objects[0].alive && action == PlayerAction::TookTurn {
        let ghost mut trace: Seq<Seq<Object>> = seq![old(objects)@];
        let ghost mut msgs_trace: Seq<Seq<(String, Color)>> = seq![old(game).messages.messages@];
        let mut id: usize = 0;
        while id < objects.len()
            invariant
                world_ok(game.map@, objects@),
                objects@.len() == old(objects)@.len(),
                game.map == old(game).map,
                game.inventory == old(game).inventory,
                msgs_extended(old(game).messages.messages@, game.messages.messages@),
                vis_wf(fov.grid@, map_width(game.map@), map_height(game.map@)),
                forall|i: int|
                    1 <= i < old(objects)@.len() && old(objects)@[i].ai is None ==> objects@[i]
                        == old(objects)@[i],
                objects@[0].x == old(objects)@[0].x,
                objects@[0].y == old(objects)@[0].y,
                id <= objects@.len(),
                trace.len() == id + 1,
                msgs_trace.len() == id + 1,
                trace.first() == old(objects)@,
                trace.last() == objects@,
                msgs_trace.first() == old(game).messages.messages@,
                msgs_trace.last() == game.messages.messages@,
                ai_pass_steps(old(game).map@, fov.grid@, trace, msgs_trace),
            decreases objects@.len() - id,
        {
            let ghost pre_objects = objects@;
            let ghost pre_messages = game.messages.messages@;
            if objects[id].ai.is_some() {
                ai_take_turn(id, fov, game, objects);
            }
            proof {
                trace = trace.push(objects@);
                msgs_trace = msgs_trace.push(game.messages.messages@);
                assert(trace[id as int] == pre_objects);
                assert(msgs_trace[id as int] == pre_messages);
                assert forall|k: int| 0 <= k < trace.len() - 1 implies (if (#[trigger] trace[k])[k].ai
                    is Some {
                    ai_transition(
                        old(game).map@,
                        fov.grid@,
                        trace[k],
                        trace[k + 1],
                        msgs_trace[k],
                        msgs_trace[k + 1],
                        k,
                    )
                } else {
                    trace[k + 1] == trace[k] && msgs_trace[k + 1] == msgs_trace[k]
                }) by {
                    if k < id {
                        assert(trace[k] == trace.drop_last()[k]);
                        assert(trace[k + 1] == trace.drop_last()[k + 1]);
                        assert(msgs_trace[k] == msgs_trace.drop_last()[k]);
                        assert(msgs_trace[k + 1] == msgs_trace.drop_last()[k + 1]);
                    }
                }
            }
            id = id + 1;
        }
        proof {
            assert(ai_pass_steps(old(game).map@, fov.grid@, trace, msgs_trace));
            assert(trace.first() == old(objects)@ && trace.last() == objects@);
            assert(ai_pass(
                old(game).map@,
                fov.grid@,
                old(objects)@,
                objects@,
                old(game).messages.messages@,
                game.messages.messages@,
            ));
        }
    }
    true
}


/// Classify and resolve one input event. Alt+Enter is a UI-only
/// fullscreen toggle the caller performs; Escape exits; a directional
/// key while the player is alive resolves "move or attack" and spends
/// the turn; anything else — including any key while the player is
/// dead — spends nothing and changes nothing.
pub fn handle_keys(key: Key, game: &mut Game, objects: &mut Vec<Object>) -> (action: PlayerAction)
    requires
        world_ok(old(game).map@, old(objects)@),
    ensures
        world_ok(final(game).map@, final(objects)@),
        final(objects)@.len() == old(objects)@.len(),
        final(game).map == old(game).map,
        final(game).inventory == old(game).inventory,
        msgs_extended(old(game).messages.messages@, final(game).messages.messages@),
        (action == PlayerAction::Exit) <==> (key == Key::Escape),
        (action == PlayerAction::TookTurn) <==> (key_delta(key) is Some && old(
            objects,
        )@[0].alive),
        action != PlayerAction::TookTurn ==> (final(objects)@ == old(objects)@ && *final(game)
            == *old(game)),
        action == PlayerAction::TookTurn ==> move_or_attack_transition(
            old(game).map@,
            old(objects)@,
            final(objects)@,
            old(game).messages.messages@,
            final(game).messages.messages@,
            key_delta(key).unwrap().0,
            key_delta(key).unwrap().1,
        ),
{
    let alive = objects[0].alive;
    match key {
        Key::AltEnter => {
            // the fullscreen toggle itself is the caller's UI concern
            PlayerAction::DidntTakeTurn
        },
        Key::Escape => PlayerAction::Exit,
        Key::Up => {
            if alive {
                player_move_or_attack(0, -1, game, objects);
                PlayerAction::TookTurn
            } else {
                PlayerAction::DidntTakeTurn
            }
        },
        Key::Down => {
            if alive {
                player_move_or_attack(0, 1, game, objects);
                PlayerAction::TookTurn
            } else {
                PlayerAction::DidntTakeTurn
            }
        },
        Key::Left => {
            if alive {
                player_move_or_attack(-1, 0, game, objects);
                PlayerAction::TookTurn
            } else {
                PlayerAction::DidntTakeTurn
            }
        },
        Key::Right => {
            if alive {
                player_move_or_attack(1, 0, game, objects);
                PlayerAction::TookTurn
            } else {
                PlayerAction::DidntTakeTurn
            }
        },
        Key::Other => PlayerAction::DidntTakeTurn,
    }
}

} // verus!
