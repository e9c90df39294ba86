//! Harvesting a tile and consuming what was harvested.

use vstd::prelude::*;
use crate::components::{ItemType, ItemValue, Position};
use crate::game::{item_values, GameState, SpriteChangeEvent};
use crate::inventory::Inventory;
use crate::player::{after_consume, Player};

verus! {

/// What a harvest brought: the item, and the request to redraw the tile it
/// came from.
pub struct Harvested {
    pub item: ItemType,
    pub refresh: SpriteChangeEvent,
}

/// A request to consume one of an item from the inventory.
pub struct InventoryButtonEvent(pub ItemType);

/// Where the cursor is: always on the player's cell or next to it.
#[derive(Default, Clone, Copy, Debug, PartialEq, Eq, Structural)]
pub struct MouseState {
    pub pos: Position,
}

/// What a harvest at `pos` yields: the first item of the tile on that cell,
/// or nothing where no tile is.
pub open spec fn harvest_yield(tiles: Map<Position, Seq<ItemValue>>, pos: Position) -> Option<
    ItemValue,
> {
    if tiles.contains_key(pos) {
        Some(tiles[pos][0])
    } else {
        None
    }
}

/// The harvestable tiles after a harvest at `pos`: the tile on that cell is
/// gone, whichever of its items was taken.
pub open spec fn tiles_after_harvest(tiles: Map<Position, Seq<ItemValue>>, pos: Position) -> Map<
    Position,
    Seq<ItemValue>,
> {
    tiles.remove(pos)
}

/// The blocked cells after a harvest at `pos`: the cell blocks no longer if
/// something was harvested there.
pub open spec fn blocked_after_harvest(
    blocked: Set<Position>,
    tiles: Map<Position, Seq<ItemValue>>,
    pos: Position,
) -> Set<Position> {
    if tiles.contains_key(pos) {
        blocked.remove(pos)
    } else {
        blocked
    }
}

/// The inventory with one more of an item.
pub open spec fn with_one_more(held: Map<ItemValue, nat>, item: ItemValue) -> Map<ItemValue, nat> {
    if held.contains_key(item) {
        held.insert(item, held[item] + 1)
    } else {
        held.insert(item, 1)
    }
}

/// The inventory with one less of an item: the entry is deleted when its last
/// one goes, and an inventory without the item stays as it is.
pub open spec fn with_one_less(held: Map<ItemValue, nat>, item: ItemValue) -> Map<ItemValue, nat> {
    if !held.contains_key(item) {
        held
    } else if held[item] <= 1 {
        held.remove(item)
    } else {
        held.insert(item, (held[item] - 1) as nat)
    }
}

/// The inventory after a harvest at `pos`: one more of what was harvested.
pub open spec fn inventory_after_harvest(
    held: Map<ItemValue, nat>,
    tiles: Map<Position, Seq<ItemValue>>,
    pos: Position,
) -> Map<ItemValue, nat> {
    match harvest_yield(tiles, pos) {
        Some(item) => with_one_more(held, item),
        None => held,
    }
}

/// A tile is harvested at most once: after a harvest at `pos`, whether or not
/// it brought anything, another harvest at `pos` yields nothing and leaves
/// the inventory, the tiles and the blocked cells as they are.
pub proof fn lemma_harvest_at_most_once(
    held: Map<ItemValue, nat>,
    tiles: Map<Position, Seq<ItemValue>>,
    blocked: Set<Position>,
    pos: Position,
)
    ensures
        harvest_yield(tiles_after_harvest(tiles, pos), pos) is None,
        inventory_after_harvest(
            inventory_after_harvest(held, tiles, pos),
            tiles_after_harvest(tiles, pos),
            pos,
        ) == inventory_after_harvest(held, tiles, pos),
        tiles_after_harvest(tiles_after_harvest(tiles, pos), pos) == tiles_after_harvest(tiles, pos),
        blocked_after_harvest(
            blocked_after_harvest(blocked, tiles, pos),
            tiles_after_harvest(tiles, pos),
            pos,
        ) == blocked_after_harvest(blocked, tiles, pos),
{
}

/// A cell on which something was harvested blocks no longer.
pub proof fn lemma_harvest_unblocks(
    tiles: Map<Position, Seq<ItemValue>>,
    blocked: Set<Position>,
    pos: Position,
)
    requires
        harvest_yield(tiles, pos) is Some,
    ensures
        !blocked_after_harvest(blocked, tiles, pos).contains(pos),
{
}

/// Whether the inventory has room for what a harvest at `pos` would bring:
/// true where it would bring nothing.
pub fn harvest_fits(game_state: &GameState, inventory: &Inventory, pos: Position) -> (fits: bool)
    requires
        game_state.wf(),
        inventory.wf(),
    ensures
        fits == (game_state.harvestables().contains_key(pos) ==> inventory.count(
            game_state.harvestables()[pos][0],
        ) < u32::MAX),
{
    match game_state.harvestable_at(pos) {
        Some(tile) => inventory.count_of(&tile.items[0]) < u32::MAX,
        None => true,
    }
}

/// Harvests the tile on `pos`, if there is one: its first item goes into the
/// inventory, the tile is deleted, the cell blocks no longer, and the tile is
/// to be redrawn. Without a tile nothing changes.
pub fn harvest_at(game_state: &mut GameState, inventory: &mut Inventory, pos: Position) -> (harvested:
    Option<Harvested>)
    requires
        old(game_state).wf(),
        old(inventory).wf(),
        old(game_state).harvestables().contains_key(pos) ==> old(inventory).count(
            old(game_state).harvestables()[pos][0],
        ) < u32::MAX,
    ensures
        final(game_state).wf(),
        final(inventory).wf(),
        match harvested {
            Some(h) => harvest_yield(old(game_state).harvestables(), pos) == Some(h.item@)
                && h.refresh == SpriteChangeEvent(pos),
            None => harvest_yield(old(game_state).harvestables(), pos) is None,
        },
        final(game_state).harvestables() == tiles_after_harvest(
            old(game_state).harvestables(),
            pos,
        ),
        final(game_state).blocked_set() == blocked_after_harvest(
            old(game_state).blocked_set(),
            old(game_state).harvestables(),
            pos,
        ),
        final(inventory)@ == inventory_after_harvest(
            old(inventory)@,
            old(game_state).harvestables(),
            pos,
        ),
        harvested is None ==> final(game_state).harvestables() == old(game_state).harvestables(),
        harvested is Some ==> !final(game_state).blocked(pos),
        !final(game_state).harvestables().contains_key(pos),
        final(game_state).loaded() == old(game_state).loaded(),
        final(game_state).has_spawned() == old(game_state).has_spawned(),
{
    let item = match game_state.harvestable_at(pos) {
        Some(tile) => tile.items[0].duplicate(),
        None => {
            return None;
        },
    };
    inventory.add(&item);
    game_state.remove_harvestable(pos);
    game_state.clear_collision(pos);
    Some(Harvested { item, refresh: SpriteChangeEvent(pos) })
}

/// What the inventory and the player's attributes are after a request to
/// consume an item: if the player consumes it, one is taken from the
/// inventory; if not, nothing changes.
pub fn inventory_button_event(
    player: &mut Player,
    inventory: &mut Inventory,
    event: &InventoryButtonEvent,
) -> (consumed: bool)
    requires
        old(inventory).wf(),
        old(inventory)@.contains_key(event.0@),
        after_consume(old(player).vitals(), event.0@) is Some ==> after_consume(
            old(player).vitals(),
            event.0@,
        ).unwrap().storable(),
    ensures
        final(inventory).wf(),
        consumed == after_consume(old(player).vitals(), event.0@) is Some,
        consumed ==> {
            &&& final(player).vitals() == after_consume(old(player).vitals(), event.0@).unwrap()
            &&& final(inventory)@ == with_one_less(old(inventory)@, event.0@)
        },
        !consumed ==> {
            &&& final(player).vitals() == old(player).vitals()
            &&& final(inventory)@ == old(inventory)@
        },
        final(player).name == old(player).name,
        final(player).start_pos == old(player).start_pos,
{
    if player.consume_item(&event.0) {
        proof {
            inventory.lemma_counts_in_range();
        }
        let _ = inventory.remove_one(&event.0);
        true
    } else {
        false
    }
}

/// One step from `from` towards `to` along an axis.
pub open spec fn step_towards(from: int, to: int) -> int {
    if to > from {
        from + 1
    } else if to < from {
        from - 1
    } else {
        from
    }
}

/// One step from `from` towards `to` along an axis.
fn step_to(from: i32, to: i32) -> (next: i32)
    ensures
        next == step_towards(from as int, to as int),
{
    if to > from {
        from + 1
    } else if to < from {
        from - 1
    } else {
        from
    }
}

impl MouseState {
    /// Where the cursor will be after it has followed the pointer.
    pub fn target(&self, player: Position, pointer: Option<Position>) -> (cell: Position)
        ensures
            cell == cursor_after(self.pos, player, pointer),
    {
        match pointer {
            Some(to) => {
                if to != player {
                    Position { x: step_to(player.x, to.x), y: step_to(player.y, to.y) }
                } else {
                    self.pos
                }
            },
            None => self.pos,
        }
    }

    /// Follows the pointer: when the pointer is over another cell than the
    /// player's, the cursor goes to the neighbour of the player's cell in the
    /// pointer's direction; when it is over the player's cell, the cursor
    /// stays where it was. Says whether the cursor was set.
    pub fn track(&mut self, player: Position, pointer: Position) -> (set: bool)
        ensures
            set == (pointer != player),
            set ==> final(self).pos == (Position {
                x: step_towards(player.x as int, pointer.x as int) as i32,
                y: step_towards(player.y as int, pointer.y as int) as i32,
            }),
            !set ==> final(self).pos == old(self).pos,
    {
        let x = step_to(player.x, pointer.x);
        let y = step_to(player.y, pointer.y);
        if x != player.x || y != player.y {
            self.pos = Position { x, y };
            true
        } else {
            false
        }
    }
}

/// Where the cursor is after it has followed the pointer.
pub open spec fn cursor_after(cursor: Position, player: Position, pointer: Option<Position>) -> Position {
    match pointer {
        Some(cell) => if cell != player {
            Position {
                x: step_towards(player.x as int, cell.x as int) as i32,
                y: step_towards(player.y as int, cell.y as int) as i32,
            }
        } else {
            cursor
        },
        None => cursor,
    }
}

/// One tick of the cursor: follows the pointer if there is news of it, then,
/// if harvesting was asked for, harvests the tile under the cursor.
pub fn my_cursor_system(
    mouse_state: &mut MouseState,
    game_state: &mut GameState,
    inventory: &mut Inventory,
    player: Position,
    pointer: Option<Position>,
    harvest: bool,
) -> (harvested: Option<Harvested>)
    requires
        old(game_state).wf(),
        old(inventory).wf(),
        harvest && old(game_state).harvestables().contains_key(
            cursor_after(old(mouse_state).pos, player, pointer),
        ) ==> old(inventory).count(
            old(game_state).harvestables()[cursor_after(old(mouse_state).pos, player, pointer)][0],
        ) < u32::MAX,
    ensures
        final(game_state).wf(),
        final(inventory).wf(),
        final(mouse_state).pos == cursor_after(old(mouse_state).pos, player, pointer),
        !harvest ==> {
            &&& harvested is None
            &&& final(game_state).harvestables() == old(game_state).harvestables()
            &&& final(game_state).blocked_set() == old(game_state).blocked_set()
            &&& final(inventory)@ == old(inventory)@
        },
        harvest ==> {
            &&& match harvested {
                Some(h) => harvest_yield(old(game_state).harvestables(), final(mouse_state).pos)
                    == Some(h.item@) && h.refresh == SpriteChangeEvent(final(mouse_state).pos),
                None => harvest_yield(old(game_state).harvestables(), final(mouse_state).pos)
                    is None,
            }
            &&& final(game_state).harvestables() == tiles_after_harvest(
                old(game_state).harvestables(),
                final(mouse_state).pos,
            )
            &&& final(game_state).blocked_set() == blocked_after_harvest(
                old(game_state).blocked_set(),
                old(game_state).harvestables(),
                final(mouse_state).pos,
            )
            &&& final(inventory)@ == inventory_after_harvest(
                old(inventory)@,
                old(game_state).harvestables(),
                final(mouse_state).pos,
            )
        },
        final(game_state).loaded() == old(game_state).loaded(),
        final(game_state).has_spawned() == old(game_state).has_spawned(),
{
    match pointer {
        Some(cell) => {
            let _ = mouse_state.track(player, cell);
        },
        None => {},
    }
    if harvest {
        harvest_at(game_state, inventory, mouse_state.pos)
    } else {
        None
    }
}

} // verus!
