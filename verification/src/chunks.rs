//! The chunk window: which chunks must be resident around the player, and
//! what to spawn and despawn when the player crosses into another chunk.

use vstd::prelude::*;
use vstd::arithmetic::div_mod::lemma_fundamental_div_mod_converse;
use crate::components::Position;
use crate::world::WorldProps;

verus! {

/// The coordinate of a chunk: the chunk that holds cell (0, 0) is (0, 0).
#[derive(Clone, Copy, Debug, PartialEq, Eq, Structural, Hash)]
pub struct ChunkCoord {
    pub x: i64,
    pub y: i64,
}

/// What the renderer is asked to do after a move: the chunks to spawn and the
/// chunks to despawn, each in the order of the requests. Asking to spawn a
/// resident chunk, or to despawn one that is not, is meant to be harmless.
pub struct ChunkRequests {
    pub spawn: Vec<ChunkCoord>,
    pub despawn: Vec<ChunkCoord>,
}

/// The index along one axis of the chunk that holds coordinate `x`, for
/// chunks that are `size` cells wide: the quotient rounded towards negative
/// infinity, so that chunk `c` holds the coordinates from `c * size` up to,
/// not including, `(c + 1) * size`.
pub open spec fn chunk_index(x: int, size: int) -> int {
    x / size
}

/// The chunk that holds a cell.
pub open spec fn chunk_at(pos: Position, props: WorldProps) -> ChunkCoord {
    ChunkCoord {
        x: chunk_index(pos.x as int, props.chunk_width as int) as i64,
        y: chunk_index(pos.y as int, props.chunk_height as int) as i64,
    }
}

/// Whether chunk `c` is `center` or one of its eight neighbours.
pub open spec fn in_window(c: ChunkCoord, center: ChunkCoord) -> bool {
    &&& center.x - 1 <= c.x <= center.x + 1
    &&& center.y - 1 <= c.y <= center.y + 1
}

/// The window around a chunk: the chunk and its eight neighbours, column by
/// column from the left, upwards within a column.
pub open spec fn window_of(center: ChunkCoord) -> Seq<ChunkCoord> {
    Seq::new(
        9,
        |i: int| ChunkCoord { x: (center.x + i / 3 - 1) as i64, y: (center.y + i % 3 - 1) as i64 },
    )
}

/// The chunks of the window around `from` that are not in the window around
/// `to`, in the order of the window.
pub open spec fn left_behind(from: ChunkCoord, to: ChunkCoord) -> Seq<ChunkCoord> {
    window_of(from).filter(|c: ChunkCoord| !in_window(c, to))
}

/// The chunks to spawn after a move from `previous` to `current`: none within
/// one chunk, the whole new window across a chunk boundary.
pub open spec fn spawn_requests(previous: Position, current: Position, props: WorldProps) -> Seq<
    ChunkCoord,
> {
    if chunk_at(current, props) == chunk_at(previous, props) {
        Seq::empty()
    } else {
        window_of(chunk_at(current, props))
    }
}

/// The chunks to despawn after a move from `previous` to `current`: none
/// within one chunk, what the new window leaves behind across a boundary.
pub open spec fn despawn_requests(previous: Position, current: Position, props: WorldProps) -> Seq<
    ChunkCoord,
> {
    if chunk_at(current, props) == chunk_at(previous, props) {
        Seq::empty()
    } else {
        left_behind(chunk_at(previous, props), chunk_at(current, props))
    }
}

/// The chunk index is the floor of the quotient: chunk `c` spans the
/// coordinates `c * size .. (c + 1) * size`, for negative coordinates too,
/// and it fits the 32 bits of the coordinate.
pub proof fn lemma_chunk_index_is_floor(x: int, size: int)
    requires
        size > 0,
    ensures
        chunk_index(x, size) * size <= x < (chunk_index(x, size) + 1) * size,
        x >= 0 ==> 0 <= chunk_index(x, size) <= x,
        x < 0 ==> x <= chunk_index(x, size) < 0,
{
    vstd::arithmetic::div_mod::lemma_fundamental_div_mod(x, size);
    vstd::arithmetic::div_mod::lemma_mod_bound(x, size);
    let q = x / size;
    let r = x % size;
    assert(q * size == size * q) by (nonlinear_arith);
    assert((q + 1) * size == q * size + size) by (nonlinear_arith);
    if x >= 0 {
        assert(0 <= q <= x) by (nonlinear_arith)
            requires
                x == size * q + r,
                0 <= r < size,
                x >= 0,
        ;
    } else {
        assert(x <= q < 0) by (nonlinear_arith)
            requires
                x == size * q + r,
                0 <= r < size,
                x < 0,
        ;
    }
}

/// The window around a chunk has exactly nine members, no two of them equal,
/// and they are the chunk and its eight neighbours.
pub proof fn lemma_window_is_the_neighbourhood(center: ChunkCoord)
    requires
        i64::MIN < center.x < i64::MAX,
        i64::MIN < center.y < i64::MAX,
    ensures
        window_of(center).len() == 9,
        window_of(center).no_duplicates(),
        forall|c: ChunkCoord| window_of(center).contains(c) <==> in_window(c, center),
{
    let w = window_of(center);
    assert forall|c: ChunkCoord| in_window(c, center) implies w.contains(c) by {
        let i = (c.x - center.x + 1) * 3 + (c.y - center.y + 1);
        assert(w[i] == c);
    }
}

/// The window changes only when the player changes chunk: a move within one
/// chunk keeps the window and asks nothing of the renderer.
pub proof fn lemma_window_kept_within_chunk(previous: Position, current: Position, props: WorldProps)
    requires
        props.wf(),
        chunk_at(current, props) == chunk_at(previous, props),
    ensures
        window_of(chunk_at(current, props)) == window_of(chunk_at(previous, props)),
        spawn_requests(previous, current, props) == Seq::<ChunkCoord>::empty(),
        despawn_requests(previous, current, props) == Seq::<ChunkCoord>::empty(),
{
}

/// What is left behind are exactly the chunks of the old window that the new
/// window lacks, so that after the requests the resident chunks are those of
/// the new window.
pub proof fn lemma_left_behind(from: ChunkCoord, to: ChunkCoord, c: ChunkCoord)
    requires
        i64::MIN < from.x < i64::MAX,
        i64::MIN < from.y < i64::MAX,
    ensures
        left_behind(from, to).contains(c) <==> in_window(c, from) && !in_window(c, to),
{
    lemma_window_is_the_neighbourhood(from);
    let keep = |c: ChunkCoord| !in_window(c, to);
    let w = window_of(from);
    if w.filter(keep).contains(c) {
        w.lemma_filter_contains_rev(keep, c);
        w.lemma_filter_pred(keep, w.filter(keep).index_of(c));
    }
    if in_window(c, from) && !in_window(c, to) {
        let i = w.index_of(c);
        w.lemma_filter_contains(keep, i);
    }
}

/// The chunks that are resident once the requests of a move are carried out:
/// those that were, with those spawned, without those despawned.
pub open spec fn resident_after(
    resident: Set<ChunkCoord>,
    spawn: Seq<ChunkCoord>,
    despawn: Seq<ChunkCoord>,
) -> Set<ChunkCoord> {
    resident.union(spawn.to_set()).difference(despawn.to_set())
}

/// The resident chunks are always the window around the player: if they are
/// the nine chunks around the player's chunk before a move, and the requests
/// of the move are carried out, they are the nine chunks around the player's
/// chunk after it.
pub proof fn lemma_resident_chunks_follow_the_player(
    resident: Set<ChunkCoord>,
    previous: Position,
    current: Position,
    props: WorldProps,
)
    requires
        props.wf(),
        resident == window_of(chunk_at(previous, props)).to_set(),
    ensures
        resident_after(
            resident,
            spawn_requests(previous, current, props),
            despawn_requests(previous, current, props),
        ) == window_of(chunk_at(current, props)).to_set(),
        window_of(chunk_at(current, props)).to_set().len() == 9,
{
    let from = chunk_at(previous, props);
    let to = chunk_at(current, props);
    lemma_chunk_index_is_floor(previous.x as int, props.chunk_width as int);
    lemma_chunk_index_is_floor(previous.y as int, props.chunk_height as int);
    lemma_chunk_index_is_floor(current.x as int, props.chunk_width as int);
    lemma_chunk_index_is_floor(current.y as int, props.chunk_height as int);
    lemma_window_is_the_neighbourhood(from);
    lemma_window_is_the_neighbourhood(to);
    window_of(to).unique_seq_to_set();
    let after = resident_after(
        resident,
        spawn_requests(previous, current, props),
        despawn_requests(previous, current, props),
    );
    assert forall|c: ChunkCoord| after.contains(c) <==> window_of(to).to_set().contains(c) by {
        lemma_left_behind(from, to, c);
    }
}

/// The index of the chunk that holds coordinate `x`.
fn chunk_index_of(x: i32, size: i32) -> (c: i64)
    requires
        size > 0,
    ensures
        c == chunk_index(x as int, size as int),
        i32::MIN <= c <= i32::MAX,
{
    proof {
        lemma_chunk_index_is_floor(x as int, size as int);
    }
    if x >= 0 {
        (x / size) as i64
    } else {
        let below: i32 = -1 - x;
        let q: i32 = below / size;
        proof {
            vstd::arithmetic::div_mod::lemma_fundamental_div_mod(below as int, size as int);
            vstd::arithmetic::div_mod::lemma_mod_bound(below as int, size as int);
            let r = (below as int) % (size as int);
            assert(x as int == (-1 - q) * size + (size - 1 - r)) by (nonlinear_arith)
                requires
                    below == size * q + r,
                    below == -1 - x,
            ;
            lemma_fundamental_div_mod_converse(x as int, size as int, -1 - q, size - 1 - r);
        }
        -1 - (q as i64)
    }
}

/// The chunk that holds a cell.
pub fn chunk_of(pos: Position, props: &WorldProps) -> (chunk: ChunkCoord)
    requires
        props.wf(),
    ensures
        chunk == chunk_at(pos, *props),
        i32::MIN <= chunk.x <= i32::MAX,
        i32::MIN <= chunk.y <= i32::MAX,
{
    ChunkCoord {
        x: chunk_index_of(pos.x, props.chunk_width),
        y: chunk_index_of(pos.y, props.chunk_height),
    }
}

/// Whether chunk `c` is `center` or one of its eight neighbours.
fn is_in_window(c: ChunkCoord, center: ChunkCoord) -> (inside: bool)
    requires
        i64::MIN < center.x < i64::MAX,
        i64::MIN < center.y < i64::MAX,
    ensures
        inside == in_window(c, center),
{
    center.x - 1 <= c.x && c.x <= center.x + 1 && center.y - 1 <= c.y && c.y <= center.y + 1
}

/// The nine chunks that must be resident when the player is in `center`.
pub fn required_window(center: ChunkCoord) -> (window: Vec<ChunkCoord>)
    requires
        i64::MIN < center.x < i64::MAX,
        i64::MIN < center.y < i64::MAX,
    ensures
        window@ == window_of(center),
{
    let mut window: Vec<ChunkCoord> = Vec::new();
    let mut dx: i64 = -1;
    while dx <= 1
        invariant
            -1 <= dx <= 2,
            i64::MIN < center.x < i64::MAX,
            i64::MIN < center.y < i64::MAX,
            window@.len() == 3 * (dx + 1),
            forall|i: int| 0 <= i < window@.len() ==> window@[i] == window_of(center)[i],
        decreases 2 - dx,
    {
        let mut dy: i64 = -1;
        while dy <= 1
            invariant
                -1 <= dx <= 1,
                -1 <= dy <= 2,
                i64::MIN < center.x < i64::MAX,
                i64::MIN < center.y < i64::MAX,
                window@.len() == 3 * (dx + 1) + (dy + 1),
                forall|i: int| 0 <= i < window@.len() ==> window@[i] == window_of(center)[i],
            decreases 2 - dy,
        {
            window.push(ChunkCoord { x: center.x + dx, y: center.y + dy });
            dy += 1;
        }
        dx += 1;
    }
    window
}

/// Decides what to ask of the renderer when the player has moved from
/// `previous` to `current`. Within one chunk nothing is asked. Across a chunk
/// boundary every chunk of the new window is to be spawned, and every chunk of
/// the old window that the new one lacks is to be despawned.
pub fn on_position_changed(previous: Position, current: Position, props: &WorldProps) -> (requests:
    ChunkRequests)
    requires
        props.wf(),
    ensures
        requests.spawn@ == spawn_requests(previous, current, *props),
        requests.despawn@ == despawn_requests(previous, current, *props),
{
    let before = chunk_of(previous, props);
    let after = chunk_of(current, props);
    if before == after {
        return ChunkRequests { spawn: Vec::new(), despawn: Vec::new() };
    }
    let spawn = required_window(after);
    let old_window = required_window(before);
    let mut despawn: Vec<ChunkCoord> = Vec::new();
    let ghost keep = |c: ChunkCoord| !in_window(c, after);
    let mut i: usize = 0;
    proof {
        reveal(Seq::filter);
    }
    while i < old_window.len()
        invariant
            i <= old_window@.len(),
            i32::MIN <= after.x <= i32::MAX,
            i32::MIN <= after.y <= i32::MAX,
            keep == |c: ChunkCoord| !in_window(c, after),
            despawn@ == old_window@.take(i as int).filter(keep),
        decreases old_window@.len() - i,
    {
        let c = old_window[i];
        proof {
            reveal(Seq::filter);
            assert(old_window@.take(i + 1).drop_last() =~= old_window@.take(i as int));
        }
        if !is_in_window(c, after) {
            despawn.push(c);
        }
        i += 1;
    }
    assert(old_window@.take(i as int) =~= old_window@);
    ChunkRequests { spawn, despawn }
}

} // verus!
