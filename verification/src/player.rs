//! The player: survival attributes, what moving costs and what consuming an
//! item gives back.
//!
//! Attributes are kept in hundredths of a point, as integers, so that the
//! steps of a tenth, a twentieth and a hundredth of a point are exact.

use vstd::prelude::*;
use crate::components::{Attribute, ItemType, ItemValue, Position, Render};
use crate::inventory::Inventory;

verus! {

/// How many stored units make one attribute point.
pub const ATTRIBUTE_SCALE: i64 = 100;

/// The stored value of 100 points, where health is full and thirst and hunger
/// start to hurt.
pub const ATTRIBUTE_FULL: i64 = 10_000;

/// What a step costs in health once thirst or hunger is full: 0.1 points.
pub const FATIGUE_HEALTH: i64 = 10;

/// What a step adds to thirst: 0.05 points.
pub const FATIGUE_THIRST: i64 = 5;

/// What a step adds to hunger: 0.01 points.
pub const FATIGUE_HUNGER: i64 = 1;

/// The player.
#[derive(Default, Debug)]
pub struct Player {
    pub start_pos: (i32, i32),
    pub name: String,
    /// Health in hundredths of a point.
    pub health: i64,
    /// Thirst in hundredths of a point.
    pub thirst: i64,
    /// Hunger in hundredths of a point.
    pub hunger: i64,
    /// Temperature in hundredths of a point.
    pub temperature: i64,
}

/// The four attributes as exact numbers, in hundredths of a point.
pub ghost struct Vitals {
    pub health: int,
    pub thirst: int,
    pub hunger: int,
    pub temperature: int,
}

impl Vitals {
    /// Whether each attribute can be stored.
    pub open spec fn storable(self) -> bool {
        &&& i64::MIN <= self.health <= i64::MAX
        &&& i64::MIN <= self.thirst <= i64::MAX
        &&& i64::MIN <= self.hunger <= i64::MAX
        &&& i64::MIN <= self.temperature <= i64::MAX
    }
}

/// The smaller of two numbers.
pub open spec fn smaller(a: int, b: int) -> int {
    if a <= b {
        a
    } else {
        b
    }
}

/// The attributes after one step of fatigue: with thirst or hunger at 100
/// points or more, health drops by 0.1; otherwise thirst grows by 0.05 and
/// hunger by 0.01. Nothing is clamped.
pub open spec fn after_fatigue(v: Vitals) -> Vitals {
    if v.thirst >= ATTRIBUTE_FULL || v.hunger >= ATTRIBUTE_FULL {
        Vitals { health: v.health - FATIGUE_HEALTH, ..v }
    } else {
        Vitals { thirst: v.thirst + FATIGUE_THIRST, hunger: v.hunger + FATIGUE_HUNGER, ..v }
    }
}

/// The attributes after one effect is applied, or `None` where the effect is
/// refused. `magnitude` is in whole points.
///
/// Health is refused at 100 points or more, and otherwise grows by the smaller
/// of the current health and the magnitude. Thirst and hunger are refused at
/// zero or below, and otherwise shrink by the smaller of the current value and
/// the magnitude. Temperature always takes the magnitude as it is.
pub open spec fn after_effect(v: Vitals, attribute: Attribute, magnitude: i32) -> Option<Vitals> {
    let amount = magnitude * ATTRIBUTE_SCALE;
    match attribute {
        Attribute::Health => if v.health >= ATTRIBUTE_FULL {
            None
        } else {
            Some(Vitals { health: v.health + smaller(v.health, amount), ..v })
        },
        Attribute::Thirst => if v.thirst <= 0 {
            None
        } else {
            Some(Vitals { thirst: v.thirst - smaller(v.thirst, amount), ..v })
        },
        Attribute::Hunger => if v.hunger <= 0 {
            None
        } else {
            Some(Vitals { hunger: v.hunger - smaller(v.hunger, amount), ..v })
        },
        Attribute::Temperature => Some(Vitals { temperature: v.temperature + amount, ..v }),
    }
}

/// The attributes after an item is consumed, or `None` where nothing is
/// consumed. Only water can be consumed, and only the first of its effects is
/// applied.
pub open spec fn after_consume(v: Vitals, item: ItemValue) -> Option<Vitals> {
    match item {
        ItemValue::Wood { .. } => None,
        ItemValue::Water { name, effects } => if effects.len() == 0 {
            None
        } else {
            after_effect(v, effects[0].0, effects[0].1)
        },
    }
}

/// Drinking never leaves thirst below zero: an effect on thirst of a
/// magnitude that is not negative, on a thirst that is not negative, is
/// refused at zero and otherwise leaves thirst between zero and what it was.
pub proof fn lemma_thirst_stays_in_range(v: Vitals, magnitude: i32)
    requires
        v.thirst >= 0,
        magnitude >= 0,
    ensures
        v.thirst == 0 ==> after_effect(v, Attribute::Thirst, magnitude) is None,
        v.thirst > 0 ==> after_effect(v, Attribute::Thirst, magnitude) is Some,
        after_effect(v, Attribute::Thirst, magnitude) is Some ==> 0 <= after_effect(
            v,
            Attribute::Thirst,
            magnitude,
        ).unwrap().thirst <= v.thirst,
        v.thirst > 0 && magnitude * ATTRIBUTE_SCALE >= v.thirst ==> after_effect(
            v,
            Attribute::Thirst,
            magnitude,
        ).unwrap().thirst == 0,
{
}

/// The smaller of two stored values.
fn smaller_of(a: i64, b: i64) -> (least: i64)
    ensures
        least == smaller(a as int, b as int),
{
    if a <= b {
        a
    } else {
        b
    }
}

/// Whether `value + change` can be stored.
fn stays_storable(value: i64, change: i64) -> (fits: bool)
    ensures
        fits == (i64::MIN <= value + change <= i64::MAX),
{
    if change >= 0 {
        value <= i64::MAX - change
    } else {
        value >= i64::MIN - change
    }
}

impl Player {
    /// The attributes as exact numbers.
    pub open spec fn vitals(&self) -> Vitals {
        Vitals {
            health: self.health as int,
            thirst: self.thirst as int,
            hunger: self.hunger as int,
            temperature: self.temperature as int,
        }
    }

    /// The player as the game starts: at the origin, in full health, neither
    /// thirsty nor hungry, at 50 points of temperature.
    pub fn new() -> (player: Player)
        ensures
            player.start_pos == (0i32, 0i32),
            player.name@ == "Player1"@,
            player.vitals() == (Vitals { health: 10_000, thirst: 0, hunger: 0, temperature: 5_000 }),
    {
        Player {
            start_pos: (0, 0),
            name: "Player1".to_owned(),
            health: ATTRIBUTE_FULL,
            thirst: 0,
            hunger: 0,
            temperature: 50 * ATTRIBUTE_SCALE,
        }
    }

    /// Whether the attributes after one step of fatigue can be stored.
    pub fn fatigue_fits(&self) -> (fits: bool)
        ensures
            fits == after_fatigue(self.vitals()).storable(),
    {
        if self.thirst >= ATTRIBUTE_FULL || self.hunger >= ATTRIBUTE_FULL {
            self.health >= i64::MIN + FATIGUE_HEALTH
        } else {
            true
        }
    }

    /// Whether the attributes after `item_type` is consumed can be stored;
    /// true where nothing would be consumed.
    pub fn consume_fits(&self, item_type: &ItemType) -> (fits: bool)
        ensures
            fits == (after_consume(self.vitals(), item_type@) is Some ==> after_consume(
                self.vitals(),
                item_type@,
            ).unwrap().storable()),
    {
        match item_type {
            ItemType::Water { name: _, consume } => {
                if consume.attribute_effect.len() == 0 {
                    return true;
                }
                let first: (Attribute, i32) = consume.attribute_effect[0];
                let amount: i64 = (first.1 as i64) * ATTRIBUTE_SCALE;
                match first.0 {
                    Attribute::Health => self.health >= ATTRIBUTE_FULL || stays_storable(
                        self.health,
                        smaller_of(self.health, amount),
                    ),
                    Attribute::Thirst => self.thirst <= 0 || stays_storable(
                        self.thirst,
                        -smaller_of(self.thirst, amount),
                    ),
                    Attribute::Hunger => self.hunger <= 0 || stays_storable(
                        self.hunger,
                        -smaller_of(self.hunger, amount),
                    ),
                    Attribute::Temperature => stays_storable(self.temperature, amount),
                }
            },
            ItemType::Wood { .. } => true,
        }
    }

    /// One step of fatigue.
    pub fn add_fatigue(&mut self)
        requires
            after_fatigue(old(self).vitals()).storable(),
        ensures
            final(self).vitals() == after_fatigue(old(self).vitals()),
            final(self).name == old(self).name,
            final(self).start_pos == old(self).start_pos,
    {
        if self.thirst >= ATTRIBUTE_FULL || self.hunger >= ATTRIBUTE_FULL {
            self.health = self.health - FATIGUE_HEALTH;
        } else {
            self.thirst = self.thirst + FATIGUE_THIRST;
            self.hunger = self.hunger + FATIGUE_HUNGER;
        }
    }

    /// Applies one effect and says whether it was taken.
    fn apply_effect(&mut self, attribute: Attribute, magnitude: i32) -> (taken: bool)
        requires
            after_effect(old(self).vitals(), attribute, magnitude) is Some ==> after_effect(
                old(self).vitals(),
                attribute,
                magnitude,
            ).unwrap().storable(),
        ensures
            taken == after_effect(old(self).vitals(), attribute, magnitude) is Some,
            taken ==> final(self).vitals() == after_effect(
                old(self).vitals(),
                attribute,
                magnitude,
            ).unwrap(),
            !taken ==> final(self).vitals() == old(self).vitals(),
            final(self).name == old(self).name,
            final(self).start_pos == old(self).start_pos,
    {
        let amount: i64 = (magnitude as i64) * ATTRIBUTE_SCALE;
        match attribute {
            Attribute::Health => {
                if self.health >= ATTRIBUTE_FULL {
                    return false;
                }
                self.health = self.health + smaller_of(self.health, amount);
                true
            },
            Attribute::Thirst => {
                if self.thirst <= 0 {
                    return false;
                }
                self.thirst = self.thirst - smaller_of(self.thirst, amount);
                true
            },
            Attribute::Hunger => {
                if self.hunger <= 0 {
                    return false;
                }
                self.hunger = self.hunger - smaller_of(self.hunger, amount);
                true
            },
            Attribute::Temperature => {
                self.temperature = self.temperature + amount;
                true
            },
        }
    }

    /// Consumes an item and says whether anything was consumed. Wood is never
    /// consumed; of water only the first effect counts, and it may be refused.
    /// The inventory is the caller's to update.
    pub fn consume_item(&mut self, item_type: &ItemType) -> (consumed: bool)
        requires
            after_consume(old(self).vitals(), item_type@) is Some ==> after_consume(
                old(self).vitals(),
                item_type@,
            ).unwrap().storable(),
        ensures
            consumed == after_consume(old(self).vitals(), item_type@) is Some,
            consumed ==> final(self).vitals() == after_consume(
                old(self).vitals(),
                item_type@,
            ).unwrap(),
            !consumed ==> final(self).vitals() == old(self).vitals(),
            final(self).name == old(self).name,
            final(self).start_pos == old(self).start_pos,
    {
        match item_type {
            ItemType::Water { name: _, consume } => {
                if consume.attribute_effect.len() == 0 {
                    return false;
                }
                let first: (Attribute, i32) = consume.attribute_effect[0];
                self.apply_effect(first.0, first.1)
            },
            ItemType::Wood { .. } => false,
        }
    }
}

/// Everything the player's entity is made of.
pub struct PlayerBundle {
    pub player: Player,
    pub position: Position,
    pub render: Render,
    pub inventory: Inventory,
}

/// The layer the player's sprite is drawn on.
pub const PLAYER_Z_ORDER: usize = 2;

impl PlayerBundle {
    /// The player's entity as the game starts: a new player on its start
    /// cell, drawn with the given sprite above the terrain, holding nothing.
    pub fn new(sprite_index: usize) -> (bundle: PlayerBundle)
        ensures
            bundle.player.start_pos == (0i32, 0i32),
            bundle.player.name@ == "Player1"@,
            bundle.player.vitals() == (Vitals {
                health: 10_000,
                thirst: 0,
                hunger: 0,
                temperature: 5_000,
            }),
            bundle.position == (Position { x: 0, y: 0 }),
            bundle.render == (Render { sprite_index, z_order: PLAYER_Z_ORDER }),
            bundle.inventory.wf(),
            bundle.inventory@ == Map::<ItemValue, nat>::empty(),
    {
        let player = Player::new();
        let position = Position { x: player.start_pos.0, y: player.start_pos.1 };
        PlayerBundle {
            player,
            position,
            render: Render { sprite_index, z_order: PLAYER_Z_ORDER },
            inventory: Inventory::new(),
        }
    }
}

} // verus!
