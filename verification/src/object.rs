use vstd::prelude::*;

use crate::color::Color;
use crate::messages::Messages;
use crate::tile::{in_bounds, map_sealed, map_wf, tile_at, TileGrid};

verus! {

/// Which death transition runs when a fighter's hit points reach zero.
/// A dispatch key over a closed set of policies, not inheritance.
#[derive(Clone, Copy, Debug, PartialEq, Eq, Structural)]
pub enum DeathCallback {
    Player,
    Monster,
}

/// Combat capability: present only on entities that can fight.
#[derive(Clone, Copy, Debug, PartialEq, Eq, Structural)]
pub struct Fighter {
    pub max_hp: i32,
    pub hp: i32,
    pub defense: i32,
    pub power: i32,
    pub on_death: DeathCallback,
}

impl Fighter {
    pub fn new(defense: i32, hp: i32, max_hp: i32, power: i32, on_death: DeathCallback) -> (f:
        Fighter)
        ensures
            f == (Fighter { defense, hp, max_hp, power, on_death }),
    {
        Fighter { defense, hp, max_hp, power, on_death }
    }
}

/// Autonomous behavior: present only on entities that act on their own
/// each turn.
#[derive(Clone, Copy, Debug, PartialEq, Eq, Structural)]
pub enum Ai {
    Basic,
}

/// Consumable effect: present only on entities that are items.
#[derive(Clone, Copy, Debug, PartialEq, Eq, Structural)]
pub enum Item {
    Heal,
}

/// Outcome of using an item.
#[derive(Clone, Copy, Debug, PartialEq, Eq, Structural)]
pub enum UseResult {
    UsedUp,
    Cancelled,
}

/// A generic entity: the player, a monster, an item, ... distinguished
/// only by which optional capability bundles it carries.
#[derive(Clone, Debug)]
pub struct Object {
    pub x: i32,
    pub y: i32,
    pub char: char,
    pub name: String,
    pub color: Color,
    pub blocks: bool,
    pub alive: bool,
    pub fighter: Option<Fighter>,
    pub ai: Option<Ai>,
    pub item: Option<Item>,
}

/// Attack strength an entity contributes; an entity without a Fighter
/// contributes zero.
pub open spec fn power_of(o: Object) -> int {
    match o.fighter {
        Some(f) => f.power as int,
        None => 0,
    }
}

/// Damage reduction an entity contributes; an entity without a Fighter
/// contributes zero.
pub open spec fn defense_of(o: Object) -> int {
    match o.fighter {
        Some(f) => f.defense as int,
        None => 0,
    }
}

/// Fighter stats stay in a range far away from the `i32` limits, so one
/// round of damage arithmetic can never overflow. Hit points may sit
/// below zero (one killing blow can overshoot) but never further than
/// one maximal blow takes them.
pub open spec fn fighter_in_range(f: Fighter) -> bool {
    &&& 0 <= f.power <= 0x10_0000
    &&& 0 <= f.defense <= 0x10_0000
    &&& 0 <= f.max_hp <= 0x10_0000
    &&& -0x20_0000 <= f.hp <= f.max_hp
}

/// Everything the rest of the core relies on, per entity `i`:
/// it stands on the map; if it blocks movement it stands on a
/// non-blocked tile; its stats are in range; an entity with
/// `hp <= 0` is not alive, and only the player (index 0) may linger
/// dead with its Fighter bundle still attached — a dead monster loses
/// it in the death transition, which is why every fighter other than
/// the player runs the Monster death policy, and the player's own
/// fighter the Player policy (its corpse keeps blocking and stays
/// addressable).
pub open spec fn object_ok(m: Seq<Vec<Tile>>, objs: Seq<Object>, i: int) -> bool {
    let o = objs[i];
    &&& in_bounds(m, o.x as int, o.y as int)
    &&& o.blocks ==> !tile_at(m, o.x as int, o.y as int).blocked
    &&& o.ai is Some ==> o.blocks
    &&& match o.fighter {
        Some(f) => {
            &&& fighter_in_range(f)
            &&& f.hp <= 0 ==> i == 0 && !o.alive
            &&& i != 0 ==> f.on_death == DeathCallback::Monster
            &&& i == 0 ==> f.on_death == DeathCallback::Player
        },
        None => true,
    }
}

use crate::tile::Tile;
use crate::tile::{map_height, map_width};

/// A blocking entity occupies its tile exclusively with respect to
/// movement: no two blocking entities ever share a cell.
pub open spec fn blockers_distinct(objs: Seq<Object>) -> bool {
    forall|i: int, j: int|
        #![trigger objs[i], objs[j]]
        0 <= i < j < objs.len() && objs[i].blocks && objs[j].blocks ==> !(objs[i].x == objs[j].x
            && objs[i].y == objs[j].y)
}

/// The world invariant: a well-formed, sealed map of moderate size, the
/// player at index 0 (blocking, without autonomous behavior), every
/// entity well placed, and no two blocking entities on one cell.
pub open spec fn world_ok(m: Seq<Vec<Tile>>, objs: Seq<Object>) -> bool {
    &&& map_wf(m)
    &&& map_sealed(m)
    &&& map_width(m) <= 0x8000
    &&& map_height(m) <= 0x8000
    &&& 1 <= objs.len()
    &&& objs[0].ai is None
    &&& objs[0].blocks
    &&& blockers_distinct(objs)
    &&& forall|i: int| 0 <= i < objs.len() ==> #[trigger] object_ok(m, objs, i)
}

impl Object {
    /// A fresh entity at `(x, y)`; it starts non-alive and carries no
    /// capability bundles.
    pub fn new(x: i32, y: i32, char: char, name: &str, color: Color, blocks: bool) -> (o: Object)
        ensures
            o.x == x,
            o.y == y,
            o.char == char,
            o.name@ == name@,
            o.color == color,
            o.blocks == blocks,
            !o.alive,
            o.fighter is None,
            o.ai is None,
            o.item is None,
    {
        Object {
            x,
            y,
            char,
            color,
            name: name.to_owned(),
            blocks,
            alive: false,
            fighter: None,
            ai: None,
            item: None,
        }
    }

    pub fn pos(&self) -> (p: (i32, i32))
        ensures
            p == (self.x, self.y),
    {
        (self.x, self.y)
    }

    pub fn set_pos(&mut self, x: i32, y: i32)
        ensures
            *final(self) == (Object { x, y, ..*old(self) }),
    {
        self.x = x;
        self.y = y;
    }

    /// Heal by the given amount, without going over the maximum; an
    /// entity without a Fighter is untouched.
    pub fn heal(&mut self, amount: i32)
        requires
            match old(self).fighter {
                Some(f) => i32::MIN <= f.hp + amount <= i32::MAX,
                None => true,
            },
        ensures
            match old(self).fighter {
                Some(f) => *final(self) == (Object {
                    fighter: Some(
                        Fighter {
                            hp: if f.hp + amount > f.max_hp {
                                f.max_hp
                            } else {
                                (f.hp + amount) as i32
                            },
                            ..f
                        },
                    ),
                    ..*old(self)
                }),
                None => *final(self) == *old(self),
            },
    {
        if let Some(ref mut fighter) = self.fighter {
            fighter.hp += amount;
            if fighter.hp > fighter.max_hp {
                fighter.hp = fighter.max_hp;
            }
        }
    }

    /// Use an item on this entity. A Heal never raises hit points above
    /// the maximum, and is cancelled on an entity that cannot fight.
    pub fn use_item(&mut self, item: Item, amount: i32) -> (r: UseResult)
        requires
            0 <= amount <= 0x10_0000,
            match old(self).fighter {
                Some(f) => f.hp <= f.max_hp <= 0x10_0000,
                None => true,
            },
        ensures
            match item {
                Item::Heal => match old(self).fighter {
                    Some(f) => r == UseResult::UsedUp && *final(self) == (Object {
                        fighter: Some(
                            Fighter {
                                hp: if f.hp + amount > f.max_hp {
                                    f.max_hp
                                } else {
                                    (f.hp + amount) as i32
                                },
                                ..f
                            },
                        ),
                        ..*old(self)
                    }),
                    None => r == UseResult::Cancelled && *final(self) == *old(self),
                },
            },
    {
        match item {
            Item::Heal => {
                if self.fighter.is_some() {
                    self.heal(amount);
                    UseResult::UsedUp
                } else {
                    UseResult::Cancelled
                }
            },
        }
    }
}

/// The aggregate root: the map, the message log, and the player's
/// inventory, passed by mutable reference to every operation that
/// mutates exploration state or appends messages.
pub struct Game {
    pub map: TileGrid,
    pub messages: Messages,
    pub inventory: Vec<Object>,
}

} // verus!
