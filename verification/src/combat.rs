use vstd::prelude::*;
use vstd::string::StringExecFns;

use crate::color::Color;
use crate::messages::{dec_rep, msgs_pushed, msgs_pushed2, u32_to_dec};
use crate::object::{defense_of, power_of, DeathCallback, Fighter, Game, Object};

verus! {

/// "<attacker> attacks <target> for <damage> hit points."
pub open spec fn attack_hit_text(attacker: Seq<char>, target: Seq<char>, damage: int) -> Seq<
    char,
> {
    attacker + " attacks "@ + target + " for "@ + dec_rep(damage as nat) + " hit points."@
}

/// "<attacker> attacks <target> but it has no effect!"
pub open spec fn attack_miss_text(attacker: Seq<char>, target: Seq<char>) -> Seq<char> {
    attacker + " attacks "@ + target + " but it has no effect!"@
}

/// "<name> is dead!"
pub open spec fn death_text(name: Seq<char>) -> Seq<char> {
    name + " is dead!"@
}

/// "remains of <name>"
pub open spec fn remains_text(name: Seq<char>) -> Seq<char> {
    "remains of "@ + name
}

fn attack_hit_message(attacker: &String, target: &String, damage: i32) -> (s: String)
    requires
        damage > 0,
    ensures
        s@ == attack_hit_text(attacker@, target@, damage as int),
{
    let mut s = attacker.clone();
    s.append(" attacks ");
    s.append(target.as_str());
    s.append(" for ");
    let d = u32_to_dec(damage as u32);
    s.append(d.as_str());
    s.append(" hit points.");
    proof {
        assert(s@ =~= attack_hit_text(attacker@, target@, damage as int));
    }
    s
}

fn attack_miss_message(attacker: &String, target: &String) -> (s: String)
    ensures
        s@ == attack_miss_text(attacker@, target@),
{
    let mut s = attacker.clone();
    s.append(" attacks ");
    s.append(target.as_str());
    s.append(" but it has no effect!");
    proof {
        assert(s@ =~= attack_miss_text(attacker@, target@));
    }
    s
}

fn death_message(name: &String) -> (s: String)
    ensures
        s@ == death_text(name@),
{
    let mut s = name.clone();
    s.append(" is dead!");
    s
}

fn remains_name(name: &String) -> (s: String)
    ensures
        s@ == remains_text(name@),
{
    let mut s = "remains of ".to_owned();
    s.append(name.as_str());
    s
}

/// The player's death transition: narrate it and turn the glyph into
/// remains; the entity keeps its name and capabilities, the run is
/// simply over.
pub fn player_death(player: &mut Object, game: &mut Game)
    ensures
        *final(player) == (Object {
            char: '%',
            color: Color { r: 191, g: 0, b: 0 },
            ..*old(player)
        }),
        msgs_pushed(
            old(game).messages.messages@,
            final(game).messages.messages@,
            "You died!"@,
            (Color { r: 255, g: 0, b: 0 }),
        ),
        final(game).map == old(game).map,
        final(game).inventory == old(game).inventory,
{
    game.messages.add("You died!".to_owned(), Color::red());
    player.char = '%';
    player.color = Color::dark_red();
}

/// A monster's death transition: narrate it, convert the entity to a
/// non-blocking corpse, strip its Fighter and its autonomous behavior,
/// and rename it to "remains of <name>".
pub fn monster_death(monster: &mut Object, game: &mut Game)
    ensures
        final(monster).x == old(monster).x,
        final(monster).y == old(monster).y,
        final(monster).char == '%',
        final(monster).color == (Color { r: 191, g: 0, b: 0 }),
        !final(monster).blocks,
        final(monster).alive == old(monster).alive,
        final(monster).fighter is None,
        final(monster).ai is None,
        final(monster).item == old(monster).item,
        final(monster).name@ == remains_text(old(monster).name@),
        msgs_pushed(
            old(game).messages.messages@,
            final(game).messages.messages@,
            death_text(old(monster).name@),
            (Color { r: 255, g: 127, b: 0 }),
        ),
        final(game).map == old(game).map,
        final(game).inventory == old(game).inventory,
{
    let msg = death_message(&monster.name);
    game.messages.add(msg, Color::orange());
    monster.char = '%';
    monster.color = Color::dark_red();
    monster.blocks = false;
    monster.fighter = None;
    monster.ai = None;
    let renamed = remains_name(&monster.name);
    monster.name = renamed;
}

impl DeathCallback {
    /// Run the death transition this policy selects.
    pub fn callback(self, object: &mut Object, game: &mut Game)
        ensures
            death_transition(self, *old(object), *final(object)),
            match self {
                DeathCallback::Player => msgs_pushed(
                    old(game).messages.messages@,
                    final(game).messages.messages@,
                    "You died!"@,
                    (Color { r: 255, g: 0, b: 0 }),
                ),
                DeathCallback::Monster => msgs_pushed(
                    old(game).messages.messages@,
                    final(game).messages.messages@,
                    death_text(old(object).name@),
                    (Color { r: 255, g: 127, b: 0 }),
                ),
            },
            final(game).map == old(game).map,
            final(game).inventory == old(game).inventory,
    {
        match self {
            DeathCallback::Player => player_death(object, game),
            DeathCallback::Monster => monster_death(object, game),
        }
    }
}

/// How an entity looks after the death transition `policy` selects has
/// run on it.
pub open spec fn death_transition(policy: DeathCallback, o0: Object, o1: Object) -> bool {
    match policy {
        DeathCallback::Player => o1 == (Object {
            char: '%',
            color: Color { r: 191, g: 0, b: 0 },
            ..o0
        }),
        DeathCallback::Monster => {
            &&& o1.x == o0.x
            &&& o1.y == o0.y
            &&& o1.char == '%'
            &&& o1.color == (Color { r: 191, g: 0, b: 0 })
            &&& !o1.blocks
            &&& o1.alive == o0.alive
            &&& o1.fighter is None
            &&& o1.ai is None
            &&& o1.item == o0.item
            &&& o1.name@ == remains_text(o0.name@)
        },
    }
}

/// How an entity and the message log look after `damage` has been dealt
/// to the entity: hit points drop (only a positive amount has any
/// effect), and an entity brought to zero or below is no longer alive
/// and goes through its death transition.
pub open spec fn damage_transition(
    o0: Object,
    o1: Object,
    m0: Seq<(String, Color)>,
    m1: Seq<(String, Color)>,
    damage: int,
) -> bool {
    match o0.fighter {
        None => o1 == o0 && m1 == m0,
        Some(f) => {
            let hp2 = if damage > 0 {
                f.hp - damage
            } else {
                f.hp as int
            };
            if hp2 > 0 {
                &&& o1 == (Object { fighter: Some(Fighter { hp: hp2 as i32, ..f }), ..o0 })
                &&& m1 == m0
            } else {
                let dead = Object {
                    alive: false,
                    fighter: Some(Fighter { hp: hp2 as i32, ..f }),
                    ..o0
                };
                match f.on_death {
                    DeathCallback::Player => death_transition(DeathCallback::Player, dead, o1)
                        && msgs_pushed(m0, m1, "You died!"@, (Color { r: 255, g: 0, b: 0 })),
                    DeathCallback::Monster => death_transition(DeathCallback::Monster, dead, o1)
                        && msgs_pushed(m0, m1, death_text(o0.name@), (Color { r: 255, g: 127, b: 0 })),
                }
            }
        },
    }
}

impl Object {
    /// Apply damage to this entity, then detect death: an entity at or
    /// below zero hit points stops being alive and goes through the
    /// death transition its policy selects. Hit points may transiently
    /// go negative; no floor is enforced before the death check.
    pub fn take_damage(&mut self, damage: i32, game: &mut Game)
        requires
            match old(self).fighter {
                Some(f) => damage > 0 ==> i32::MIN <= f.hp - damage,
                None => true,
            },
        ensures
            damage_transition(
                *old(self),
                *final(self),
                old(game).messages.messages@,
                final(game).messages.messages@,
                damage as int,
            ),
            final(game).map == old(game).map,
            final(game).inventory == old(game).inventory,
    {
        // apply damage if possible
        match self.fighter {
            Some(f) => {
                if damage > 0 {
                    self.fighter = Some(Fighter { hp: f.hp - damage, ..f });
                }
            },
            None => {},
        }
        // check for death and run the death transition if needed
        match self.fighter {
            Some(f) => {
                if f.hp <= 0 {
                    self.alive = false;
                    f.on_death.callback(self, game);
                }
            },
            None => {},
        }
    }

    /// Attack another entity: damage is the attacker's power minus the
    /// defender's defense (a missing Fighter contributes zero to both),
    /// applied only when positive, and one message narrates the blow.
    /// The damage message is logged after any death message, and names
    /// the defender as it reads after the blow.
    pub fn attack(&mut self, target: &mut Object, game: &mut Game)
        requires
            i32::MIN <= power_of(*old(self)) - defense_of(*old(target)) <= i32::MAX,
            ({
                let damage = power_of(*old(self)) - defense_of(*old(target));
                match old(target).fighter {
                    Some(f) => damage > 0 ==> i32::MIN <= f.hp - damage,
                    None => true,
                }
            }),
        ensures
            *final(self) == *old(self),
            attack_transition(
                *old(self),
                *old(target),
                *final(target),
                old(game).messages.messages@,
                final(game).messages.messages@,
            ),
            final(game).map == old(game).map,
            final(game).inventory == old(game).inventory,
    {
        let ghost m0 = game.messages.messages@;
        // a simple formula for attack damage
        let power = match self.fighter {
            Some(f) => f.power,
            None => 0,
        };
        let defense = match target.fighter {
            Some(f) => f.defense,
            None => 0,
        };
        let damage = power - defense;
        let message = if damage > 0 {
            target.take_damage(damage, game);
            attack_hit_message(&self.name, &target.name, damage)
        } else {
            attack_miss_message(&self.name, &target.name)
        };
        let ghost mmid = game.messages.messages@;
        game.messages.add(message, Color::white());
        proof {
            let m1 = game.messages.messages@;
            assert(m1.subrange(0, m0.len() as int) =~= mmid.subrange(0, m0.len() as int));
            if mmid.len() == m0.len() {
                assert(mmid.subrange(0, m0.len() as int) =~= m0);
            }
        }
    }
}

/// Resolve an attack between two distinct entities of the collection,
/// addressed by index. Fetching two entities for one mutable operation
/// through a single handle is rejected by construction: the indices
/// must differ.
pub fn attack_at(objects: &mut Vec<Object>, attacker_id: usize, target_id: usize, game: &mut Game)
    requires
        attacker_id < old(objects)@.len(),
        target_id < old(objects)@.len(),
        attacker_id != target_id,
        ({
            let attacker = old(objects)@[attacker_id as int];
            let target = old(objects)@[target_id as int];
            let damage = power_of(attacker) - defense_of(target);
            &&& i32::MIN <= damage <= i32::MAX
            &&& match target.fighter {
                Some(f) => damage > 0 ==> i32::MIN <= f.hp - damage,
                None => true,
            }
        }),
    ensures
        final(objects)@.len() == old(objects)@.len(),
        forall|i: int|
            0 <= i < old(objects)@.len() && i != target_id ==> final(objects)@[i] == old(
                objects,
            )@[i],
        attack_transition(
            old(objects)@[attacker_id as int],
            old(objects)@[target_id as int],
            final(objects)@[target_id as int],
            old(game).messages.messages@,
            final(game).messages.messages@,
        ),
        final(game).map == old(game).map,
        final(game).inventory == old(game).inventory,
{
    // Take the target out of the collection so the attacker and the
    // target can be mutated through two independent borrows.
    let mut target = Object::new(0, 0, ' ', "", Color::white(), false);
    core::mem::swap(&mut objects[target_id], &mut target);
    let attacker = &mut objects[attacker_id];
    attacker.attack(&mut target, game);
    core::mem::swap(&mut objects[target_id], &mut target);
}

/// How the defender and the message log look after one attack call.
pub open spec fn attack_transition(
    attacker: Object,
    t0: Object,
    t1: Object,
    m0: Seq<(String, Color)>,
    m1: Seq<(String, Color)>,
) -> bool {
    let white = Color { r: 255, g: 255, b: 255 };
    let damage = power_of(attacker) - defense_of(t0);
    if damage <= 0 {
        &&& t1 == t0
        &&& msgs_pushed(m0, m1, attack_miss_text(attacker.name@, t0.name@), white)
    } else {
        match t0.fighter {
            None => t1 == t0 && msgs_pushed(
                m0,
                m1,
                attack_hit_text(attacker.name@, t0.name@, damage),
                white,
            ),
            Some(f) => {
                let hp2 = f.hp - damage;
                if hp2 > 0 {
                    &&& t1 == (Object { fighter: Some(Fighter { hp: hp2 as i32, ..f }), ..t0 })
                    &&& msgs_pushed(m0, m1, attack_hit_text(attacker.name@, t1.name@, damage), white)
                } else {
                    let dead = Object { alive: false, fighter: Some(Fighter { hp: hp2 as i32, ..f }), ..t0 };
                    match f.on_death {
                        DeathCallback::Player => death_transition(DeathCallback::Player, dead, t1)
                            && msgs_pushed2(
                            m0,
                            m1,
                            "You died!"@,
                            (Color { r: 255, g: 0, b: 0 }),
                            attack_hit_text(attacker.name@, t1.name@, damage),
                            white,
                        ),
                        DeathCallback::Monster => death_transition(
                            DeathCallback::Monster,
                            dead,
                            t1,
                        ) && msgs_pushed2(
                            m0,
                            m1,
                            death_text(t0.name@),
                            (Color { r: 255, g: 127, b: 0 }),
                            attack_hit_text(attacker.name@, t1.name@, damage),
                            white,
                        ),
                    }
                }
            },
        }
    }
}

} // verus!
