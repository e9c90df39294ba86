//! Movement: whether a step is allowed, and what an allowed step sets off.

use vstd::prelude::*;
use crate::chunks::{despawn_requests, on_position_changed, spawn_requests, ChunkRequests};
use crate::components::{Position, Render};
use crate::game::{CollisionSet, GameState};
use crate::player::{after_fatigue, Player};
use crate::world::WorldProps;

verus! {

/// The four ways to step.
#[derive(Clone, Copy, Debug, PartialEq, Eq, Structural)]
pub enum Direction {
    Up,
    Left,
    Down,
    Right,
}

impl Direction {
    /// The step as a change of position: up is towards larger `y`.
    pub open spec fn offset(self) -> (i32, i32) {
        match self {
            Direction::Up => (0i32, 1i32),
            Direction::Left => (-1i32, 0i32),
            Direction::Down => (0i32, -1i32),
            Direction::Right => (1i32, 0i32),
        }
    }

    /// The step as a change of position.
    pub fn delta(self) -> (delta: (i32, i32))
        ensures
            delta == self.offset(),
    {
        match self {
            Direction::Up => (0, 1),
            Direction::Left => (-1, 0),
            Direction::Down => (0, -1),
            Direction::Right => (1, 0),
        }
    }
}

/// What became of a proposed step.
#[derive(Clone, Copy, Debug, PartialEq, Eq, Structural)]
pub struct MoveResult {
    pub accepted: bool,
    pub new_pos: Position,
}

/// Whether a step from `pos` by `delta` is allowed in a world of the given
/// width and height: the destination lies inside the world and is not blocked.
pub open spec fn move_allowed(
    pos: Position,
    delta: (i32, i32),
    width: int,
    height: int,
    blocked: Set<Position>,
) -> bool {
    &&& 0 <= pos.x + delta.0 < width
    &&& 0 <= pos.y + delta.1 < height
    &&& !blocked.contains(Position { x: (pos.x + delta.0) as i32, y: (pos.y + delta.1) as i32 })
}

/// Where a proposed step ends: at the destination if it is allowed, and where
/// it started if not.
pub open spec fn position_after(
    pos: Position,
    delta: (i32, i32),
    width: int,
    height: int,
    blocked: Set<Position>,
) -> Position {
    if move_allowed(pos, delta, width, height, blocked) {
        Position { x: (pos.x + delta.0) as i32, y: (pos.y + delta.1) as i32 }
    } else {
        pos
    }
}

/// A step onto a blocked cell, or out of the world, leaves the position where
/// it was.
pub proof fn lemma_rejected_move_stays(
    pos: Position,
    delta: (i32, i32),
    width: int,
    height: int,
    blocked: Set<Position>,
)
    requires
        !(0 <= pos.x + delta.0 < width && 0 <= pos.y + delta.1 < height) || blocked.contains(
            Position { x: (pos.x + delta.0) as i32, y: (pos.y + delta.1) as i32 },
        ),
    ensures
        !move_allowed(pos, delta, width, height, blocked),
        position_after(pos, delta, width, height, blocked) == pos,
{
}

/// Validates a step against the bounds of the world and the collision set.
/// A rejected step leaves the position where it was.
pub fn try_move(
    pos: Position,
    delta: (i32, i32),
    tilemap_width: i32,
    tilemap_height: i32,
    collisions: &CollisionSet,
) -> (result: MoveResult)
    ensures
        result.accepted == move_allowed(
            pos,
            delta,
            tilemap_width as int,
            tilemap_height as int,
            collisions@,
        ),
        result.new_pos == position_after(
            pos,
            delta,
            tilemap_width as int,
            tilemap_height as int,
            collisions@,
        ),
        !result.accepted ==> result.new_pos == pos,
{
    let x: i64 = pos.x as i64 + delta.0 as i64;
    let y: i64 = pos.y as i64 + delta.1 as i64;
    if x < 0 || x >= tilemap_width as i64 || y < 0 || y >= tilemap_height as i64 {
        return MoveResult { accepted: false, new_pos: pos };
    }
    let candidate = Position { x: x as i32, y: y as i32 };
    if collisions.contains(candidate) {
        MoveResult { accepted: false, new_pos: pos }
    } else {
        MoveResult { accepted: true, new_pos: candidate }
    }
}

/// Moves a position by one step if the step is allowed, and says whether it
/// was.
pub fn try_move_player(
    position: &mut Position,
    delta_xy: (i32, i32),
    tilemap_width: i32,
    tilemap_height: i32,
    collisions: &CollisionSet,
) -> (moved: bool)
    ensures
        moved == move_allowed(
            *old(position),
            delta_xy,
            tilemap_width as int,
            tilemap_height as int,
            collisions@,
        ),
        *final(position) == position_after(
            *old(position),
            delta_xy,
            tilemap_width as int,
            tilemap_height as int,
            collisions@,
        ),
        !moved ==> *final(position) == *old(position),
{
    let result = try_move(*position, delta_xy, tilemap_width, tilemap_height, collisions);
    *position = result.new_pos;
    result.accepted
}

/// What the renderer is asked to do when a sprite has moved: clear the sprite
/// layer on the cell it left, draw it on the cell it is on, and update the
/// resident chunks.
pub struct SpriteMove {
    pub cleared: Position,
    pub cleared_z_order: usize,
    pub placed: Position,
    pub sprite_index: usize,
    pub z_order: usize,
    pub chunks: ChunkRequests,
}

/// The layer on which the player's sprite is cleared.
pub const SPRITE_LAYER: usize = 2;

/// Decides what to redraw and which chunks to spawn and despawn when a sprite
/// has gone from `previous_position` to `position`.
pub fn move_sprite(
    previous_position: Position,
    position: Position,
    render: &Render,
    props: &WorldProps,
) -> (redraw: SpriteMove)
    requires
        props.wf(),
    ensures
        redraw.cleared == previous_position,
        redraw.cleared_z_order == SPRITE_LAYER,
        redraw.placed == position,
        redraw.sprite_index == render.sprite_index,
        redraw.z_order == render.z_order,
        redraw.chunks.spawn@ == spawn_requests(previous_position, position, *props),
        redraw.chunks.despawn@ == despawn_requests(previous_position, position, *props),
{
    SpriteMove {
        cleared: previous_position,
        cleared_z_order: SPRITE_LAYER,
        placed: position,
        sprite_index: render.sprite_index,
        z_order: render.z_order,
        chunks: on_position_changed(previous_position, position, props),
    }
}

/// What a movement tick did: whether the step was taken and, if it was, what
/// the renderer is asked to do.
pub struct Step {
    pub moved: bool,
    pub redraw: Option<SpriteMove>,
}

/// One movement tick: tries the step, and if it is taken, moves the sprite,
/// updates the chunk window and lets the player tire by one step of fatigue.
/// Before the map is loaded, and when the step is rejected, nothing changes.
pub fn character_movement(
    game_state: &GameState,
    world_props: &WorldProps,
    position: &mut Position,
    render: &Render,
    player: &mut Player,
    direction: Direction,
) -> (step: Step)
    requires
        world_props.wf(),
        game_state.loaded() && move_allowed(
            *old(position),
            direction.offset(),
            world_props.tilemap_width as int,
            world_props.tilemap_height as int,
            game_state.blocked_set(),
        ) ==> after_fatigue(old(player).vitals()).storable(),
    ensures
        step.moved == (game_state.loaded() && move_allowed(
            *old(position),
            direction.offset(),
            world_props.tilemap_width as int,
            world_props.tilemap_height as int,
            game_state.blocked_set(),
        )),
        !step.moved ==> {
            &&& *final(position) == *old(position)
            &&& final(player).vitals() == old(player).vitals()
            &&& step.redraw is None
        },
        step.moved ==> {
            &&& *final(position) == position_after(
                *old(position),
                direction.offset(),
                world_props.tilemap_width as int,
                world_props.tilemap_height as int,
                game_state.blocked_set(),
            )
            &&& final(player).vitals() == after_fatigue(old(player).vitals())
            &&& step.redraw is Some
            &&& step.redraw.unwrap().cleared == *old(position)
            &&& step.redraw.unwrap().cleared_z_order == SPRITE_LAYER
            &&& step.redraw.unwrap().placed == *final(position)
            &&& step.redraw.unwrap().sprite_index == render.sprite_index
            &&& step.redraw.unwrap().z_order == render.z_order
            &&& step.redraw.unwrap().chunks.spawn@ == spawn_requests(
                *old(position),
                *final(position),
                *world_props,
            )
            &&& step.redraw.unwrap().chunks.despawn@ == despawn_requests(
                *old(position),
                *final(position),
                *world_props,
            )
        },
        final(player).name == old(player).name,
        final(player).start_pos == old(player).start_pos,
{
    if !game_state.map_loaded() {
        return Step { moved: false, redraw: None };
    }
    let previous_position = *position;
    let moved = try_move_player(
        position,
        direction.delta(),
        world_props.tilemap_width,
        world_props.tilemap_height,
        game_state.collisions(),
    );
    if !moved {
        return Step { moved: false, redraw: None };
    }
    let redraw = move_sprite(previous_position, *position, render, world_props);
    player.add_fatigue();
    Step { moved: true, redraw: Some(redraw) }
}

} // verus!
