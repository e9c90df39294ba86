//! The value types shared by every part of the world: positions, items and
//! what consuming an item does.

use vstd::prelude::*;

verus! {

/// A cell of the grid. Positions carry no bounds of their own; movement is
/// what holds them inside the world.
#[derive(Default, Copy, Clone, Debug, PartialEq, Eq, Structural, Hash)]
pub struct Position {
    pub x: i32,
    pub y: i32,
}

/// How an entity is drawn: which sprite, on which layer.
#[derive(Default, Copy, Clone, Debug, PartialEq, Eq, Structural)]
pub struct Render {
    pub sprite_index: usize,
    pub z_order: usize,
}

/// A survival attribute of the player.
#[derive(Copy, Clone, Hash, PartialEq, Eq, Structural, Debug)]
pub enum Attribute {
    Thirst,
    Hunger,
    Health,
    Temperature,
}

/// What consuming an item does: an ordered list of attributes, each with a
/// magnitude in whole attribute points.
#[derive(Default, Clone, PartialEq, Hash, Debug, Eq)]
pub struct Consumable {
    pub attribute_effect: Vec<(Attribute, i32)>,
}

impl View for Consumable {
    type V = Seq<(Attribute, i32)>;

    open spec fn view(&self) -> Seq<(Attribute, i32)> {
        self.attribute_effect@
    }
}

/// The mathematical value of an [`ItemType`]: two items are the same item
/// exactly when their values are equal, effects included.
pub ghost enum ItemValue {
    Wood { name: Seq<char> },
    Water { name: Seq<char>, effects: Seq<(Attribute, i32)> },
}

/// Something that can be harvested from a tile and held in the inventory.
#[derive(Clone, PartialEq, Hash, Debug, Eq)]
pub enum ItemType {
    Wood { name: String },
    Water { name: String, consume: Consumable },
}

impl View for ItemType {
    type V = ItemValue;

    open spec fn view(&self) -> ItemValue {
        match self {
            ItemType::Wood { name } => ItemValue::Wood { name: name@ },
            ItemType::Water { name, consume } => ItemValue::Water {
                name: name@,
                effects: consume@,
            },
        }
    }
}

impl Consumable {
    /// A copy with the same effects in the same order.
    pub fn duplicate(&self) -> (copy: Consumable)
        ensures
            copy@ == self@,
    {
        let mut effects: Vec<(Attribute, i32)> = Vec::new();
        let mut i: usize = 0;
        while i < self.attribute_effect.len()
            invariant
                i <= self.attribute_effect.len(),
                effects@ == self.attribute_effect@.take(i as int),
            decreases self.attribute_effect.len() - i,
        {
            effects.push(self.attribute_effect[i]);
            i += 1;
        }
        Consumable { attribute_effect: effects }
    }

    /// Whether two consumables list the same effects in the same order.
    pub fn same_as(&self, other: &Consumable) -> (same: bool)
        ensures
            same == (self@ == other@),
    {
        if self.attribute_effect.len() != other.attribute_effect.len() {
            return false;
        }
        let mut i: usize = 0;
        while i < self.attribute_effect.len()
            invariant
                i <= self.attribute_effect.len(),
                self.attribute_effect.len() == other.attribute_effect.len(),
                self@.take(i as int) == other@.take(i as int),
            decreases self.attribute_effect.len() - i,
        {
            let a = self.attribute_effect[i];
            let b = other.attribute_effect[i];
            if a.0 != b.0 || a.1 != b.1 {
                return false;
            }
            i += 1;
        }
        assert(self@ == self@.take(i as int));
        assert(other@ == other@.take(i as int));
        true
    }
}

impl ItemType {
    /// A copy that is the same item.
    pub fn duplicate(&self) -> (copy: ItemType)
        ensures
            copy@ == self@,
    {
        match self {
            ItemType::Wood { name } => ItemType::Wood { name: name.clone() },
            ItemType::Water { name, consume } => ItemType::Water {
                name: name.clone(),
                consume: consume.duplicate(),
            },
        }
    }

    /// Whether two items are the same item: same variant, same name, same
    /// effects.
    pub fn same_as(&self, other: &ItemType) -> (same: bool)
        ensures
            same == (self@ == other@),
    {
        match self {
            ItemType::Wood { name } => match other {
                ItemType::Wood { name: other_name } => *name == *other_name,
                ItemType::Water { .. } => false,
            },
            ItemType::Water { name, consume } => match other {
                ItemType::Wood { .. } => false,
                ItemType::Water { name: other_name, consume: other_consume } => {
                    *name == *other_name && consume.same_as(other_consume)
                },
            },
        }
    }
}

/// A grid cell that bears a resource, with the items it yields.
#[derive(Default, Clone, PartialEq)]
pub struct Harvestable {
    pub pos: Position,
    pub items: Vec<ItemType>,
}

} // verus!
