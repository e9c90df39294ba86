//! What the windows show of the player and the inventory, and what a click on
//! an inventory button asks for.

use vstd::prelude::*;
use crate::components::ItemType;
use crate::harvest::InventoryButtonEvent;

verus! {

/// The whole points of a stored attribute value, rounded towards zero.
pub open spec fn whole_points(value: int) -> int {
    if value >= 0 {
        value / 100
    } else {
        -((-value) / 100)
    }
}

/// The number shown for a stored attribute value: its whole points.
pub fn attribute_points(value: i64) -> (points: i64)
    ensures
        points == whole_points(value as int),
{
    if value >= 0 {
        value / 100
    } else if value > -100 {
        0
    } else {
        -1 - ((-(value + 100)) / 100)
    }
}

/// The name shown on the button of an item.
pub fn button_name(item: &ItemType) -> (name: &String)
    ensures
        match item {
            ItemType::Wood { name: n } => name@ == n@,
            ItemType::Water { name: n, .. } => name@ == n@,
        },
{
    match item {
        ItemType::Wood { name } => name,
        ItemType::Water { name, .. } => name,
    }
}

/// What a click on the button of an item asks for: to consume one, if the
/// item is water, and nothing for wood.
pub fn button_click(item: &ItemType) -> (event: Option<InventoryButtonEvent>)
    ensures
        match event {
            Some(e) => item@ is Water && e.0@ == item@,
            None => item@ is Wood,
        },
{
    match item {
        ItemType::Water { .. } => Some(InventoryButtonEvent(item.duplicate())),
        ItemType::Wood { .. } => None,
    }
}

} // verus!
