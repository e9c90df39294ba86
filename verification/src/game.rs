//! The state of a running game: which cells block movement and which bear a
//! resource, both derived from the grid and changed by harvesting.

use std::collections::HashSet;
use vstd::prelude::*;
use crate::assoc::{
    lemma_pairs_absent, lemma_pairs_lookup, lemma_pairs_push, lemma_pairs_remove, pairs_map,
};
use crate::components::{Attribute, Consumable, Harvestable, ItemType, ItemValue, Position};
use crate::world::WorldMap;

verus! {

broadcast use vstd::std_specs::hash::group_hash_axioms;

/// Which screen the application shows.
#[derive(Clone, Copy, Debug, PartialEq, Eq, Structural)]
pub enum AppState {
    MainMenu,
    InGame,
}

/// What a tile code stands for, as far as the rules are concerned.
#[derive(Clone, Copy, Debug, PartialEq, Eq, Structural)]
pub enum TileKind {
    /// Open ground.
    Floor,
    /// A tree: blocks movement and yields wood.
    Tree,
    /// Water: blocks movement and yields water.
    Water,
    /// Any other code: drawn as ground, blocks nothing.
    Other,
}

/// The kind of a tile code: 1, 2, 3 and 22 are ground, 4 to 6 are trees, 11 is
/// water.
pub open spec fn tile_kind(code: i64) -> TileKind {
    if code == 1 || code == 2 || code == 3 || code == 22 {
        TileKind::Floor
    } else if 3 < code < 7 {
        TileKind::Tree
    } else if code == 11 {
        TileKind::Water
    } else {
        TileKind::Other
    }
}

/// Whether a tile with this code blocks movement.
pub open spec fn is_blocking(code: i64) -> bool {
    tile_kind(code) == TileKind::Tree || tile_kind(code) == TileKind::Water
}

/// Whether a tile with this code bears a resource.
pub open spec fn is_harvestable(code: i64) -> bool {
    tile_kind(code) == TileKind::Tree || tile_kind(code) == TileKind::Water
}

/// The wood that a tree yields.
pub open spec fn wood_value() -> ItemValue {
    ItemValue::Wood { name: "Wood"@ }
}

/// The water that a water tile yields: drinking it takes 20 points of thirst.
pub open spec fn water_value() -> ItemValue {
    ItemValue::Water { name: "Water"@, effects: seq![(Attribute::Thirst, 20i32)] }
}

/// The items on a harvestable tile with this code.
pub open spec fn yield_of(code: i64) -> Seq<ItemValue> {
    if tile_kind(code) == TileKind::Water {
        seq![water_value()]
    } else {
        seq![wood_value()]
    }
}

/// The values of a list of items, in order.
pub open spec fn item_values(items: Seq<ItemType>) -> Seq<ItemValue> {
    Seq::new(items.len(), |i: int| items[i]@)
}

/// The kind of a tile code.
pub fn classify(code: i64) -> (kind: TileKind)
    ensures
        kind == tile_kind(code),
{
    if code == 1 || code == 2 || code == 3 || code == 22 {
        TileKind::Floor
    } else if code > 3 && code < 7 {
        TileKind::Tree
    } else if code == 11 {
        TileKind::Water
    } else {
        TileKind::Other
    }
}

/// The sprite a tile is drawn with.
#[derive(Clone, Copy, Debug, PartialEq, Eq, Structural)]
pub enum TileVisual {
    Grass0,
    Grass1,
    Grass2,
    Grass3,
    Tree0,
    Tree1,
    Tree2,
    Water4,
}

/// The sprite for a tile code; codes without a sprite of their own are drawn
/// as plain grass.
pub open spec fn visual_of(code: i64) -> TileVisual {
    if code == 2 {
        TileVisual::Grass1
    } else if code == 3 {
        TileVisual::Grass2
    } else if code == 4 {
        TileVisual::Tree0
    } else if code == 5 {
        TileVisual::Tree1
    } else if code == 6 {
        TileVisual::Tree2
    } else if code == 11 {
        TileVisual::Water4
    } else if code == 22 {
        TileVisual::Grass3
    } else {
        TileVisual::Grass0
    }
}

/// The sprite for a tile code.
pub fn tile_visual(code: i64) -> (visual: TileVisual)
    ensures
        visual == visual_of(code),
{
    if code == 2 {
        TileVisual::Grass1
    } else if code == 3 {
        TileVisual::Grass2
    } else if code == 4 {
        TileVisual::Tree0
    } else if code == 5 {
        TileVisual::Tree1
    } else if code == 6 {
        TileVisual::Tree2
    } else if code == 11 {
        TileVisual::Water4
    } else if code == 22 {
        TileVisual::Grass3
    } else {
        TileVisual::Grass0
    }
}

/// The number under which a cell is kept in the collision set: distinct cells
/// have distinct numbers.
spec fn cell_key(p: Position) -> int {
    p.x * 0x1_0000_0000 + (p.y + 0x8000_0000)
}

/// The set of cells that block movement.
pub struct CollisionSet {
    cells: HashSet<i64>,
}

impl View for CollisionSet {
    type V = Set<Position>;

    closed spec fn view(&self) -> Set<Position> {
        Set::new(|p: Position| self.cells@.contains(cell_key(p) as i64))
    }
}

fn key_of(p: Position) -> (key: i64)
    ensures
        key == cell_key(p),
{
    (p.x as i64) * 0x1_0000_0000 + ((p.y as i64) + 0x8000_0000)
}

impl CollisionSet {
    /// The empty set.
    pub fn new() -> (set: CollisionSet)
        ensures
            set@ == Set::<Position>::empty(),
    {
        let set = CollisionSet { cells: HashSet::new() };
        assert(set@ =~= Set::<Position>::empty());
        set
    }

    /// Adds a cell.
    pub fn insert(&mut self, p: Position)
        ensures
            final(self)@ == old(self)@.insert(p),
    {
        let key = key_of(p);
        let _ = self.cells.insert(key);
        assert(final(self)@ =~= old(self)@.insert(p));
    }

    /// Takes a cell out, whether or not it was in.
    pub fn remove(&mut self, p: Position)
        ensures
            final(self)@ == old(self)@.remove(p),
    {
        let key = key_of(p);
        let _ = self.cells.remove(&key);
        assert(final(self)@ =~= old(self)@.remove(p));
    }

    /// Whether a cell is in the set.
    pub fn contains(&self, p: Position) -> (found: bool)
        ensures
            found == self@.contains(p),
    {
        let key = key_of(p);
        self.cells.contains(&key)
    }
}

impl Default for CollisionSet {
    fn default() -> (set: CollisionSet)
        ensures
            set@ == Set::<Position>::empty(),
    {
        CollisionSet::new()
    }
}

/// The positions of a list of harvestable tiles, in order.
spec fn tile_positions(tiles: Seq<Harvestable>) -> Seq<Position> {
    Seq::new(tiles.len(), |i: int| tiles[i].pos)
}

/// The yields of a list of harvestable tiles, in order.
spec fn tile_yields(tiles: Seq<Harvestable>) -> Seq<Seq<ItemValue>> {
    Seq::new(tiles.len(), |i: int| item_values(tiles[i].items@))
}

/// Whether the scan of the grid, column by column and upwards within a
/// column, has passed cell `p` when it stands before cell (`x`, `y`).
spec fn scanned(map: WorldMap, p: Position, x: int, y: int) -> bool {
    &&& map.in_bounds(p.x as int, p.y as int)
    &&& p.x < x || (p.x == x && p.y < y)
}

/// The blocking cells among those scanned before (`x`, `y`).
spec fn blocked_before(map: WorldMap, x: int, y: int) -> Set<Position> {
    Set::new(
        |p: Position| scanned(map, p, x, y) && is_blocking(map.code(p.x as int, p.y as int)),
    )
}

/// The harvestable cells among those scanned before (`x`, `y`), with their
/// yields.
spec fn harvestable_before(map: WorldMap, x: int, y: int) -> Map<
    Position,
    Seq<ItemValue>,
> {
    Map::new(
        |p: Position| scanned(map, p, x, y) && is_harvestable(map.code(p.x as int, p.y as int)),
        |p: Position| yield_of(map.code(p.x as int, p.y as int)),
    )
}

/// The cells of a grid that block movement: those with a tree or water code.
pub open spec fn blocked_cells(map: WorldMap) -> Set<Position> {
    Set::new(
        |p: Position|
            map.in_bounds(p.x as int, p.y as int) && is_blocking(map.code(p.x as int, p.y as int)),
    )
}

/// The cells of a grid that bear a resource, each with its yield: wood on a
/// tree, water on water.
pub open spec fn harvestable_cells(map: WorldMap) -> Map<Position, Seq<ItemValue>> {
    Map::new(
        |p: Position|
            map.in_bounds(p.x as int, p.y as int) && is_harvestable(
                map.code(p.x as int, p.y as int),
            ),
        |p: Position| yield_of(map.code(p.x as int, p.y as int)),
    )
}

/// Right after the index is built from a grid, a cell of the grid is blocked
/// exactly when its code is a tree's or water's, and a cell outside the grid
/// is not blocked.
pub proof fn lemma_blocked_iff_blocking_code(map: WorldMap, p: Position)
    ensures
        map.in_bounds(p.x as int, p.y as int) ==> (blocked_cells(map).contains(p) <==> is_blocking(
            map.code(p.x as int, p.y as int),
        )),
        !map.in_bounds(p.x as int, p.y as int) ==> !blocked_cells(map).contains(p),
        harvestable_cells(map).contains_key(p) <==> blocked_cells(map).contains(p),
{
}

/// A request to redraw a tile as cleared ground.
#[derive(Default, Clone, Copy, Debug, PartialEq, Eq, Structural)]
pub struct SpriteChangeEvent(pub Position);

/// The blocked cells and the harvestable tiles of the world.
pub struct GameState {
    map_loaded: bool,
    spawned: bool,
    collisions: CollisionSet,
    harvestable_tiles: Vec<Harvestable>,
}

impl GameState {
    /// No cell bears two harvestable tiles, and every tile yields something.
    pub closed spec fn wf(&self) -> bool {
        &&& tile_positions(self.harvestable_tiles@).no_duplicates()
        &&& forall|i: int|
            0 <= i < self.harvestable_tiles@.len() ==> (
            #[trigger] self.harvestable_tiles@[i]).items@.len() > 0
    }

    /// The harvestable tiles as a map from their cell to what they yield.
    pub closed spec fn harvestables(&self) -> Map<Position, Seq<ItemValue>> {
        pairs_map(tile_positions(self.harvestable_tiles@), tile_yields(self.harvestable_tiles@))
    }

    /// The cells that block movement.
    pub closed spec fn blocked_set(&self) -> Set<Position> {
        self.collisions@
    }

    /// Whether the index has been built from a grid.
    pub closed spec fn loaded(&self) -> bool {
        self.map_loaded
    }

    /// Whether the player has been put into the world.
    pub closed spec fn has_spawned(&self) -> bool {
        self.spawned
    }

    /// Whether a cell blocks movement.
    pub open spec fn blocked(&self, p: Position) -> bool {
        self.blocked_set().contains(p)
    }

    /// A state before any map is loaded: nothing blocks, nothing to harvest.
    pub fn new() -> (state: GameState)
        ensures
            state.wf(),
            !state.loaded(),
            !state.has_spawned(),
            state.blocked_set() == Set::<Position>::empty(),
            state.harvestables() == Map::<Position, Seq<ItemValue>>::empty(),
    {
        let state = GameState {
            map_loaded: false,
            spawned: false,
            collisions: CollisionSet::new(),
            harvestable_tiles: Vec::new(),
        };
        assert(state.harvestables() =~= Map::<Position, Seq<ItemValue>>::empty());
        state
    }

    /// Whether the index has been built from a grid.
    pub fn map_loaded(&self) -> (loaded: bool)
        ensures
            loaded == self.loaded(),
    {
        self.map_loaded
    }

    /// Whether the player has been put into the world.
    pub fn spawned(&self) -> (spawned: bool)
        ensures
            spawned == self.has_spawned(),
    {
        self.spawned
    }

    /// Records whether the player has been put into the world.
    pub fn set_spawned(&mut self, spawned: bool)
        ensures
            final(self).has_spawned() == spawned,
            final(self).loaded() == old(self).loaded(),
            final(self).blocked_set() == old(self).blocked_set(),
            final(self).harvestables() == old(self).harvestables(),
            final(self).wf() == old(self).wf(),
    {
        self.spawned = spawned;
    }

    /// The collision set.
    pub fn collisions(&self) -> (set: &CollisionSet)
        ensures
            set@ == self.blocked_set(),
    {
        &self.collisions
    }

    /// Whether a cell blocks movement.
    pub fn is_blocked(&self, pos: Position) -> (blocked: bool)
        ensures
            blocked == self.blocked(pos),
    {
        self.collisions.contains(pos)
    }

    /// The index of the harvestable tile on a cell, if there is one.
    fn find_tile(&self, pos: Position) -> (at: Option<usize>)
        ensures
            match at {
                Some(i) => i < self.harvestable_tiles@.len() && self.harvestable_tiles@[i as int].pos
                    == pos,
                None => forall|i: int|
                    0 <= i < self.harvestable_tiles@.len() ==> self.harvestable_tiles@[i].pos
                        != pos,
            },
    {
        let mut i: usize = 0;
        while i < self.harvestable_tiles.len()
            invariant
                i <= self.harvestable_tiles@.len(),
                forall|j: int| 0 <= j < i ==> self.harvestable_tiles@[j].pos != pos,
            decreases self.harvestable_tiles@.len() - i,
        {
            if self.harvestable_tiles[i].pos == pos {
                return Some(i);
            }
            i += 1;
        }
        None
    }

    /// The harvestable tile on a cell, if there is one.
    pub fn harvestable_at(&self, pos: Position) -> (tile: Option<&Harvestable>)
        requires
            self.wf(),
        ensures
            match tile {
                Some(h) => {
                    &&& self.harvestables().contains_key(pos)
                    &&& h.pos == pos
                    &&& item_values(h.items@) == self.harvestables()[pos]
                    &&& h.items@.len() > 0
                },
                None => !self.harvestables().contains_key(pos),
            },
    {
        let keys = Ghost(tile_positions(self.harvestable_tiles@));
        let vals = Ghost(tile_yields(self.harvestable_tiles@));
        match self.find_tile(pos) {
            Some(i) => {
                proof {
                    lemma_pairs_lookup(keys@, vals@, i as int);
                }
                Some(&self.harvestable_tiles[i])
            },
            None => {
                proof {
                    lemma_pairs_absent(keys@, vals@, pos);
                }
                None
            },
        }
    }

    /// Deletes the harvestable tile on a cell; without one, nothing changes.
    pub fn remove_harvestable(&mut self, pos: Position)
        requires
            old(self).wf(),
        ensures
            final(self).wf(),
            final(self).harvestables() == old(self).harvestables().remove(pos),
            final(self).blocked_set() == old(self).blocked_set(),
            final(self).loaded() == old(self).loaded(),
            final(self).has_spawned() == old(self).has_spawned(),
    {
        let keys = Ghost(tile_positions(self.harvestable_tiles@));
        let vals = Ghost(tile_yields(self.harvestable_tiles@));
        match self.find_tile(pos) {
            Some(i) => {
                proof {
                    lemma_pairs_remove(keys@, vals@, i as int);
                }
                let _ = self.harvestable_tiles.remove(i);
                assert(tile_positions(self.harvestable_tiles@) =~= keys@.remove(i as int));
                assert(tile_yields(self.harvestable_tiles@) =~= vals@.remove(i as int));
            },
            None => {
                proof {
                    lemma_pairs_absent(keys@, vals@, pos);
                    assert(self.harvestables() =~= self.harvestables().remove(pos));
                }
            },
        }
    }

    /// Takes a cell out of the collision set, whether or not it was blocking.
    pub fn clear_collision(&mut self, pos: Position)
        ensures
            final(self).blocked_set() == old(self).blocked_set().remove(pos),
            final(self).harvestables() == old(self).harvestables(),
            final(self).wf() == old(self).wf(),
            final(self).loaded() == old(self).loaded(),
            final(self).has_spawned() == old(self).has_spawned(),
    {
        self.collisions.remove(pos);
    }
}

impl Default for GameState {
    fn default() -> (state: GameState)
        ensures
            state.wf(),
            !state.loaded(),
            !state.has_spawned(),
            state.blocked_set() == Set::<Position>::empty(),
            state.harvestables() == Map::<Position, Seq<ItemValue>>::empty(),
    {
        GameState::new()
    }
}

/// The wood that a tree yields.
fn wood() -> (item: ItemType)
    ensures
        item@ == wood_value(),
{
    ItemType::Wood { name: "Wood".to_owned() }
}

/// The water that a water tile yields.
fn water() -> (item: ItemType)
    ensures
        item@ == water_value(),
{
    let mut effects: Vec<(Attribute, i32)> = Vec::new();
    effects.push((Attribute::Thirst, 20));
    assert(effects@ =~= seq![(Attribute::Thirst, 20i32)]);
    ItemType::Water { name: "Water".to_owned(), consume: Consumable { attribute_effect: effects } }
}

/// A harvestable tile on cell `p` that yields the one item given.
fn tile_with(p: Position, item: ItemType) -> (tile: Harvestable)
    ensures
        tile.pos == p,
        tile.items@.len() == 1,
        item_values(tile.items@) == seq![item@],
{
    let mut items: Vec<ItemType> = Vec::new();
    items.push(item);
    assert(item_values(items@) =~= seq![item@]);
    Harvestable { pos: p, items }
}

/// Builds the collision set and the harvestable tiles from the grid, in one
/// pass over its cells, and marks the state as loaded. A state that is
/// already loaded is left as it is.
pub fn build_world(game_state: &mut GameState, world_map: &WorldMap)
    requires
        old(game_state).wf(),
        world_map.wf(),
    ensures
        final(game_state).wf(),
        final(game_state).loaded(),
        final(game_state).has_spawned() == old(game_state).has_spawned(),
        old(game_state).loaded() ==> {
            &&& final(game_state).blocked_set() == old(game_state).blocked_set()
            &&& final(game_state).harvestables() == old(game_state).harvestables()
        },
        !old(game_state).loaded() ==> {
            &&& final(game_state).blocked_set() == blocked_cells(*world_map)
            &&& final(game_state).harvestables() == harvestable_cells(*world_map)
        },
{
    if game_state.map_loaded {
        return;
    }
    let mut collisions = CollisionSet::new();
    let mut tiles: Vec<Harvestable> = Vec::new();
    let mut x: i64 = 0;
    assert(collisions@ =~= blocked_before(*world_map, 0, 0));
    assert(pairs_map(tile_positions(tiles@), tile_yields(tiles@)) =~= harvestable_before(
        *world_map,
        0,
        0,
    ));
    while x < world_map.width
        invariant
            world_map.wf(),
            0 <= x <= world_map.width,
            collisions@ == blocked_before(*world_map, x as int, 0),
            tile_positions(tiles@).no_duplicates(),
            pairs_map(tile_positions(tiles@), tile_yields(tiles@)) == harvestable_before(
                *world_map,
                x as int,
                0,
            ),
            forall|i: int| 0 <= i < tiles@.len() ==> (#[trigger] tiles@[i]).items@.len() > 0,
        decreases world_map.width - x,
    {
        let mut y: i64 = 0;
        while y < world_map.height
            invariant
                world_map.wf(),
                0 <= x < world_map.width,
                0 <= y <= world_map.height,
                collisions@ == blocked_before(*world_map, x as int, y as int),
                tile_positions(tiles@).no_duplicates(),
                pairs_map(tile_positions(tiles@), tile_yields(tiles@)) == harvestable_before(
                    *world_map,
                    x as int,
                    y as int,
                ),
                forall|i: int| 0 <= i < tiles@.len() ==> (#[trigger] tiles@[i]).items@.len() > 0,
            decreases world_map.height - y,
        {
            assert(world_map.tiles@[x as int]@.len() == world_map.height);
            let code: i64 = world_map.tiles[x as usize][y as usize];
            let p = Position { x: x as i32, y: y as i32 };
            let kind = classify(code);
            let ghost keys = tile_positions(tiles@);
            let ghost vals = tile_yields(tiles@);
            if kind == TileKind::Tree || kind == TileKind::Water {
                collisions.insert(p);
                let item = if kind == TileKind::Water {
                    water()
                } else {
                    wood()
                };
                let tile = tile_with(p, item);
                proof {
                    if keys.contains(p) {
                        assert(pairs_map(keys, vals).contains_key(p));
                        assert(scanned(*world_map, p, x as int, y as int));
                    }
                    lemma_pairs_push(keys, vals, p, yield_of(code));
                }
                tiles.push(tile);
                assert(tile_positions(tiles@) =~= keys.push(p));
                assert(tile_yields(tiles@) =~= vals.push(yield_of(code)));
                assert(pairs_map(keys, vals).insert(p, yield_of(code)) =~= harvestable_before(
                    *world_map,
                    x as int,
                    y + 1,
                ));
            } else {
                assert(pairs_map(keys, vals) =~= harvestable_before(*world_map, x as int, y + 1));
            }
            assert(collisions@ =~= blocked_before(*world_map, x as int, y + 1));
            y += 1;
        }
        assert(blocked_before(*world_map, x as int, world_map.height as int) =~= blocked_before(
            *world_map,
            x + 1,
            0,
        ));
        assert(harvestable_before(*world_map, x as int, world_map.height as int)
            =~= harvestable_before(*world_map, x + 1, 0));
        x += 1;
    }
    assert(blocked_before(*world_map, world_map.width as int, 0) =~= blocked_cells(*world_map));
    assert(harvestable_before(*world_map, world_map.width as int, 0) =~= harvestable_cells(
        *world_map,
    ));
    game_state.collisions = collisions;
    game_state.harvestable_tiles = tiles;
    game_state.map_loaded = true;
}

/// What the renderer is asked to draw on a cleared cell: the layer to clear,
/// and the sprite to put on the cell with its layer.
#[derive(Clone, Copy, Debug, PartialEq, Eq, Structural)]
pub struct TileRedraw {
    pub pos: Position,
    pub cleared_z_order: usize,
    pub visual: TileVisual,
    pub z_order: usize,
}

/// The drawing of cleared ground on a cell: the bottom layer is cleared and
/// plain grass is put on the terrain layer.
pub open spec fn cleared_ground(pos: Position) -> TileRedraw {
    TileRedraw { pos, cleared_z_order: 0, visual: TileVisual::Grass0, z_order: 1 }
}

/// Handles a request to redraw a tile as cleared ground: whatever stood on
/// the cell, it blocks no longer, and the cell is to be drawn as plain grass.
/// Handling the same request again changes nothing more.
pub fn sprite_change_event(game_state: &mut GameState, event: &SpriteChangeEvent) -> (redraw:
    TileRedraw)
    ensures
        redraw == cleared_ground(event.0),
        final(game_state).blocked_set() == old(game_state).blocked_set().remove(event.0),
        final(game_state).harvestables() == old(game_state).harvestables(),
        final(game_state).wf() == old(game_state).wf(),
        final(game_state).loaded() == old(game_state).loaded(),
        final(game_state).has_spawned() == old(game_state).has_spawned(),
{
    game_state.clear_collision(event.0);
    TileRedraw { pos: event.0, cleared_z_order: 0, visual: TileVisual::Grass0, z_order: 1 }
}

} // verus!
