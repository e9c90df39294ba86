use tile_world::components::{Attribute, Consumable, ItemType, Position, Render};
use tile_world::game::{
    build_world, classify, sprite_change_event, tile_visual, CollisionSet, GameState,
    SpriteChangeEvent, TileKind, TileRedraw, TileVisual,
};
use tile_world::harvest::{harvest_at, harvest_fits, my_cursor_system, MouseState};
use tile_world::inventory::Inventory;
use tile_world::movement::{
    character_movement, move_sprite, try_move, try_move_player, Direction, MoveResult,
};
use tile_world::player::Player;
use tile_world::world::{WorldMap, WorldProps};

fn cell(x: i32, y: i32) -> Position {
    Position { x, y }
}

fn water_item() -> ItemType {
    ItemType::Water {
        name: String::from("Water"),
        consume: Consumable { attribute_effect: vec![(Attribute::Thirst, 20)] },
    }
}

fn wood_item() -> ItemType {
    ItemType::Wood { name: String::from("Wood") }
}

/// A square grid of ground with the given codes on the given cells.
fn grid(side: i64, special: &[(i64, i64, i64)]) -> WorldMap {
    let mut data = vec![Some(1); (side * side) as usize];
    for (x, y, code) in special {
        data[(side * (side - 1 - y) + x) as usize] = Some(*code);
    }
    WorldMap::from_layer_data(side, side, &data).unwrap()
}

fn props(side: i32) -> WorldProps {
    WorldProps {
        chunk_width: 50,
        chunk_height: 50,
        tilemap_width: side,
        tilemap_height: side,
        tile_size: 8,
    }
}

fn loaded(side: i64, special: &[(i64, i64, i64)]) -> GameState {
    let mut state = GameState::new();
    build_world(&mut state, &grid(side, special));
    state
}

#[test]
fn tile_codes_have_kinds() {
    assert_eq!(classify(1), TileKind::Floor);
    assert_eq!(classify(2), TileKind::Floor);
    assert_eq!(classify(3), TileKind::Floor);
    assert_eq!(classify(22), TileKind::Floor);
    assert_eq!(classify(4), TileKind::Tree);
    assert_eq!(classify(5), TileKind::Tree);
    assert_eq!(classify(6), TileKind::Tree);
    assert_eq!(classify(11), TileKind::Water);
    assert_eq!(classify(0), TileKind::Other);
    assert_eq!(classify(7), TileKind::Other);
    assert_eq!(classify(-4), TileKind::Other);
}

#[test]
fn tile_codes_have_sprites() {
    assert_eq!(tile_visual(1), TileVisual::Grass0);
    assert_eq!(tile_visual(2), TileVisual::Grass1);
    assert_eq!(tile_visual(3), TileVisual::Grass2);
    assert_eq!(tile_visual(4), TileVisual::Tree0);
    assert_eq!(tile_visual(5), TileVisual::Tree1);
    assert_eq!(tile_visual(6), TileVisual::Tree2);
    assert_eq!(tile_visual(11), TileVisual::Water4);
    assert_eq!(tile_visual(22), TileVisual::Grass3);
    assert_eq!(tile_visual(0), TileVisual::Grass0);
    assert_eq!(tile_visual(99), TileVisual::Grass0);
}

#[test]
fn collision_set_holds_cells() {
    let mut set = CollisionSet::new();
    assert!(!set.contains(cell(0, 0)));
    set.insert(cell(1, -1));
    set.insert(cell(-1, 1));
    set.insert(cell(i32::MIN, i32::MIN));
    set.insert(cell(i32::MAX, i32::MAX));
    assert!(set.contains(cell(1, -1)));
    assert!(set.contains(cell(-1, 1)));
    assert!(set.contains(cell(i32::MIN, i32::MIN)));
    assert!(set.contains(cell(i32::MAX, i32::MAX)));
    assert!(!set.contains(cell(1, 1)));
    assert!(!set.contains(cell(0, -1)));
    assert!(!set.contains(cell(i32::MIN, i32::MAX)));
    set.remove(cell(1, -1));
    set.remove(cell(5, 5));
    assert!(!set.contains(cell(1, -1)));
    assert!(set.contains(cell(-1, 1)));
}

#[test]
fn a_new_state_is_empty() {
    let state = GameState::new();
    assert!(!state.map_loaded());
    assert!(!state.spawned());
    assert!(!state.is_blocked(cell(0, 0)));
    assert!(state.harvestable_at(cell(0, 0)).is_none());
}

#[test]
fn the_index_blocks_trees_and_water_only() {
    let special = [(0, 0, 4), (1, 0, 5), (2, 0, 6), (3, 0, 11), (4, 0, 22), (0, 1, 2), (1, 1, 3), (2, 1, 7), (3, 1, 0)];
    let state = loaded(5, &special);
    assert!(state.map_loaded());
    for x in 0..5 {
        for y in 0..5 {
            let blocking = y == 0 && x < 4;
            assert_eq!(state.is_blocked(cell(x, y)), blocking);
            assert_eq!(state.harvestable_at(cell(x, y)).is_some(), blocking);
        }
    }
    assert!(!state.is_blocked(cell(-1, 0)));
    assert!(!state.is_blocked(cell(5, 0)));
}

#[test]
fn trees_yield_wood_and_water_yields_water() {
    let state = loaded(4, &[(1, 2, 5), (2, 1, 11)]);
    let tree = state.harvestable_at(cell(1, 2)).unwrap();
    assert_eq!(tree.pos, cell(1, 2));
    assert_eq!(tree.items, vec![wood_item()]);
    let pond = state.harvestable_at(cell(2, 1)).unwrap();
    assert_eq!(pond.pos, cell(2, 1));
    assert_eq!(pond.items, vec![water_item()]);
}

#[test]
fn a_loaded_state_is_not_built_again() {
    let mut state = loaded(3, &[(1, 1, 4)]);
    build_world(&mut state, &grid(3, &[(0, 0, 11)]));
    assert!(state.is_blocked(cell(1, 1)));
    assert!(!state.is_blocked(cell(0, 0)));
}

#[test]
fn spawned_is_recorded() {
    let mut state = GameState::new();
    state.set_spawned(true);
    assert!(state.spawned());
    assert!(!state.map_loaded());
}

#[test]
fn removing_a_harvestable_keeps_the_collision() {
    let mut state = loaded(3, &[(1, 1, 4)]);
    state.remove_harvestable(cell(1, 1));
    assert!(state.harvestable_at(cell(1, 1)).is_none());
    assert!(state.is_blocked(cell(1, 1)));
    state.remove_harvestable(cell(1, 1));
    state.remove_harvestable(cell(2, 2));
    assert!(state.is_blocked(cell(1, 1)));
}

#[test]
fn clearing_a_collision_keeps_the_harvestable() {
    let mut state = loaded(3, &[(1, 1, 4)]);
    state.clear_collision(cell(1, 1));
    assert!(!state.is_blocked(cell(1, 1)));
    assert!(state.harvestable_at(cell(1, 1)).is_some());
    state.clear_collision(cell(1, 1));
    state.clear_collision(cell(0, 0));
    assert!(!state.is_blocked(cell(1, 1)));
    assert!(!state.is_blocked(cell(0, 0)));
}

#[test]
fn a_tile_refresh_clears_the_collision_and_may_be_repeated() {
    let mut state = loaded(3, &[(1, 1, 4), (2, 2, 11)]);
    let redraw = sprite_change_event(&mut state, &SpriteChangeEvent(cell(1, 1)));
    assert_eq!(
        redraw,
        TileRedraw { pos: cell(1, 1), cleared_z_order: 0, visual: TileVisual::Grass0, z_order: 1 }
    );
    assert!(!state.is_blocked(cell(1, 1)));
    assert!(state.is_blocked(cell(2, 2)));
    sprite_change_event(&mut state, &SpriteChangeEvent(cell(1, 1)));
    sprite_change_event(&mut state, &SpriteChangeEvent(cell(0, 0)));
    assert!(!state.is_blocked(cell(1, 1)));
    assert!(state.is_blocked(cell(2, 2)));
}

#[test]
fn harvesting_water_end_to_end() {
    let mut state = loaded(10, &[(3, 3, 11)]);
    let mut inventory = Inventory::new();
    assert_eq!(state.harvestable_at(cell(3, 3)).unwrap().items, vec![water_item()]);
    assert!(state.is_blocked(cell(3, 3)));
    let harvested = harvest_at(&mut state, &mut inventory, cell(3, 3)).unwrap();
    assert_eq!(harvested.item, water_item());
    assert_eq!(harvested.refresh, SpriteChangeEvent(cell(3, 3)));
    assert_eq!(inventory.entries(), vec![(water_item(), 1)]);
    assert!(!state.is_blocked(cell(3, 3)));
    assert!(harvest_at(&mut state, &mut inventory, cell(3, 3)).is_none());
    assert_eq!(inventory.entries(), vec![(water_item(), 1)]);
}

#[test]
fn harvesting_open_ground_brings_nothing() {
    let mut state = loaded(10, &[(3, 3, 11)]);
    let mut inventory = Inventory::new();
    assert!(harvest_at(&mut state, &mut inventory, cell(3, 2)).is_none());
    assert!(harvest_at(&mut state, &mut inventory, cell(-1, 40)).is_none());
    assert_eq!(inventory.len(), 0);
    assert!(state.is_blocked(cell(3, 3)));
    assert!(state.harvestable_at(cell(3, 3)).is_some());
}

#[test]
fn harvesting_two_trees_counts_two_wood() {
    let mut state = loaded(4, &[(0, 0, 4), (1, 0, 6), (2, 0, 11)]);
    let mut inventory = Inventory::new();
    assert!(harvest_at(&mut state, &mut inventory, cell(0, 0)).is_some());
    assert!(harvest_at(&mut state, &mut inventory, cell(1, 0)).is_some());
    assert!(harvest_at(&mut state, &mut inventory, cell(2, 0)).is_some());
    assert!(harvest_at(&mut state, &mut inventory, cell(1, 0)).is_none());
    assert_eq!(inventory.count_of(&wood_item()), 2);
    assert_eq!(inventory.count_of(&water_item()), 1);
    assert_eq!(inventory.len(), 2);
}

#[test]
fn a_step_onto_open_ground_is_taken() {
    let state = loaded(10, &[(3, 3, 11)]);
    let result = try_move(cell(3, 1), (0, 1), 10, 10, state.collisions());
    assert_eq!(result, MoveResult { accepted: true, new_pos: cell(3, 2) });
}

#[test]
fn a_step_onto_a_blocked_cell_is_rejected() {
    let state = loaded(10, &[(3, 3, 11)]);
    let result = try_move(cell(3, 2), (0, 1), 10, 10, state.collisions());
    assert_eq!(result, MoveResult { accepted: false, new_pos: cell(3, 2) });
    let result = try_move(cell(4, 3), (-1, 0), 10, 10, state.collisions());
    assert_eq!(result, MoveResult { accepted: false, new_pos: cell(4, 3) });
}

#[test]
fn a_step_out_of_the_world_is_rejected() {
    let state = loaded(10, &[]);
    for (from, delta) in [
        (cell(0, 0), (-1, 0)),
        (cell(0, 0), (0, -1)),
        (cell(9, 9), (1, 0)),
        (cell(9, 9), (0, 1)),
        (cell(i32::MAX, 0), (1, 0)),
        (cell(0, i32::MIN), (0, -1)),
    ] {
        let result = try_move(from, delta, 10, 10, state.collisions());
        assert_eq!(result, MoveResult { accepted: false, new_pos: from });
    }
}

#[test]
fn a_step_back_into_the_world_is_taken() {
    let state = loaded(10, &[]);
    let result = try_move(cell(-1, 5), (1, 0), 10, 10, state.collisions());
    assert_eq!(result, MoveResult { accepted: true, new_pos: cell(0, 5) });
}

#[test]
fn try_move_player_moves_in_place() {
    let state = loaded(10, &[(3, 3, 11)]);
    let mut position = cell(3, 1);
    assert!(try_move_player(&mut position, (0, 1), 10, 10, state.collisions()));
    assert_eq!(position, cell(3, 2));
    assert!(!try_move_player(&mut position, (0, 1), 10, 10, state.collisions()));
    assert_eq!(position, cell(3, 2));
}

#[test]
fn harvesting_opens_the_way() {
    let mut state = loaded(10, &[(3, 3, 11)]);
    let mut inventory = Inventory::new();
    let mut position = cell(3, 2);
    assert!(!try_move_player(&mut position, (0, 1), 10, 10, state.collisions()));
    assert!(harvest_at(&mut state, &mut inventory, cell(3, 3)).is_some());
    assert!(try_move_player(&mut position, (0, 1), 10, 10, state.collisions()));
    assert_eq!(position, cell(3, 3));
}

#[test]
fn directions_have_deltas() {
    assert_eq!(Direction::Up.delta(), (0, 1));
    assert_eq!(Direction::Left.delta(), (-1, 0));
    assert_eq!(Direction::Down.delta(), (0, -1));
    assert_eq!(Direction::Right.delta(), (1, 0));
}

#[test]
fn move_sprite_redraws_and_updates_chunks() {
    let render = Render { sprite_index: 9, z_order: 2 };
    let redraw = move_sprite(cell(49, 0), cell(50, 0), &render, &WorldProps::standard());
    assert_eq!(redraw.cleared, cell(49, 0));
    assert_eq!(redraw.cleared_z_order, 2);
    assert_eq!(redraw.placed, cell(50, 0));
    assert_eq!(redraw.sprite_index, 9);
    assert_eq!(redraw.z_order, 2);
    assert_eq!(redraw.chunks.spawn.len(), 9);
    assert_eq!(redraw.chunks.despawn.len(), 3);
    let redraw = move_sprite(cell(1, 0), cell(2, 0), &render, &WorldProps::standard());
    assert!(redraw.chunks.spawn.is_empty());
    assert!(redraw.chunks.despawn.is_empty());
}

#[test]
fn a_taken_step_tires_the_player() {
    let state = loaded(100, &[]);
    let render = Render { sprite_index: 9, z_order: 2 };
    let mut position = cell(49, 7);
    let mut player = Player::new();
    let step = character_movement(
        &state,
        &props(100),
        &mut position,
        &render,
        &mut player,
        Direction::Right,
    );
    assert!(step.moved);
    assert_eq!(position, cell(50, 7));
    assert_eq!(player.thirst, 5);
    assert_eq!(player.hunger, 1);
    let redraw = step.redraw.unwrap();
    assert_eq!(redraw.cleared, cell(49, 7));
    assert_eq!(redraw.placed, cell(50, 7));
    assert_eq!(redraw.chunks.spawn.len(), 9);
    assert_eq!(redraw.chunks.despawn.len(), 3);
}

#[test]
fn a_rejected_step_costs_nothing() {
    let state = loaded(10, &[(3, 3, 11)]);
    let render = Render { sprite_index: 9, z_order: 2 };
    let mut position = cell(3, 2);
    let mut player = Player::new();
    let step =
        character_movement(&state, &props(10), &mut position, &render, &mut player, Direction::Up);
    assert!(!step.moved);
    assert!(step.redraw.is_none());
    assert_eq!(position, cell(3, 2));
    assert_eq!(player.thirst, 0);
    assert_eq!(player.hunger, 0);
}

#[test]
fn nothing_moves_before_the_map_is_loaded() {
    let state = GameState::new();
    let render = Render { sprite_index: 9, z_order: 2 };
    let mut position = cell(3, 2);
    let mut player = Player::new();
    let step =
        character_movement(&state, &props(10), &mut position, &render, &mut player, Direction::Up);
    assert!(!step.moved);
    assert_eq!(position, cell(3, 2));
    assert_eq!(player.thirst, 0);
}

#[test]
fn the_cursor_stays_next_to_the_player() {
    let mut mouse = MouseState::default();
    assert!(mouse.track(cell(5, 5), cell(9, 5)));
    assert_eq!(mouse.pos, cell(6, 5));
    assert!(mouse.track(cell(5, 5), cell(0, 9)));
    assert_eq!(mouse.pos, cell(4, 6));
    assert!(!mouse.track(cell(5, 5), cell(5, 5)));
    assert_eq!(mouse.pos, cell(4, 6));
    assert!(mouse.track(cell(i32::MAX, i32::MIN), cell(0, 0)));
    assert_eq!(mouse.pos, cell(i32::MAX - 1, i32::MIN + 1));
}

#[test]
fn the_cursor_harvests_what_it_points_at() {
    let mut state = loaded(10, &[(3, 3, 11)]);
    let mut inventory = Inventory::new();
    let mut mouse = MouseState::default();
    let none = my_cursor_system(
        &mut mouse,
        &mut state,
        &mut inventory,
        cell(3, 2),
        Some(cell(3, 8)),
        false,
    );
    assert!(none.is_none());
    assert_eq!(mouse.pos, cell(3, 3));
    assert!(state.is_blocked(cell(3, 3)));
    let harvested =
        my_cursor_system(&mut mouse, &mut state, &mut inventory, cell(3, 2), None, true).unwrap();
    assert_eq!(harvested.item, water_item());
    assert_eq!(harvested.refresh, SpriteChangeEvent(cell(3, 3)));
    assert_eq!(inventory.count_of(&water_item()), 1);
    assert!(!state.is_blocked(cell(3, 3)));
    let again = my_cursor_system(&mut mouse, &mut state, &mut inventory, cell(3, 2), None, true);
    assert!(again.is_none());
    assert_eq!(inventory.count_of(&water_item()), 1);
}

#[test]
fn the_cursor_target_is_where_tracking_puts_it() {
    let mut mouse = MouseState { pos: cell(2, 2) };
    assert_eq!(mouse.target(cell(5, 5), None), cell(2, 2));
    assert_eq!(mouse.target(cell(5, 5), Some(cell(5, 5))), cell(2, 2));
    assert_eq!(mouse.target(cell(5, 5), Some(cell(7, 1))), cell(6, 4));
    mouse.track(cell(5, 5), cell(7, 1));
    assert_eq!(mouse.pos, cell(6, 4));
}

#[test]
fn a_harvest_fits_an_inventory_with_room() {
    let state = loaded(10, &[(3, 3, 11)]);
    let inventory = Inventory::new();
    assert!(harvest_fits(&state, &inventory, cell(3, 3)));
    assert!(harvest_fits(&state, &inventory, cell(0, 0)));
}

#[test]
fn a_default_state_is_a_new_state() {
    let state = GameState::default();
    assert!(!state.map_loaded());
    assert!(!state.spawned());
    assert!(!state.is_blocked(cell(3, 3)));
    assert!(!CollisionSet::default().contains(cell(0, 0)));
}

#[test]
fn an_empty_grid_blocks_nothing() {
    let mut state = GameState::new();
    build_world(&mut state, &WorldMap::default());
    assert!(state.map_loaded());
    assert!(!state.is_blocked(cell(0, 0)));
    assert!(state.harvestable_at(cell(0, 0)).is_none());
}
