//! What holds of the simulation whatever the level and the input.

use crate::collision::{Body, Collider};
use crate::level::{following_state, LevelIndex, LevelState, LEVEL_COUNT};
use crate::player::{hits, Input, Player};
use vstd::prelude::*;

verus! {

/// The velocity of `player` leads to a place that `i64` coordinates hold,
/// so that no coordinate saturates during a tick.
pub open spec fn moves_in_range(player: Player) -> bool {
    &&& i64::MIN <= player.position.x + player.velocity.x <= i64::MAX
    &&& i64::MIN <= player.position.y + player.velocity.y <= i64::MAX
}

/// `body` stops `player` where it stands in the way of `player`'s
/// provisional box.
pub open spec fn stands_in_way(player: Player, body: Body) -> bool {
    player.collider.blocked_by(body.collider) && player.provisional_box().overlaps(body.bounds())
}

/// The vertical pass finds a collision exactly when some body that
/// blocks the player meets both the provisional box and the box moved
/// vertically; the horizontal pass likewise. The order of the bodies
/// plays no part.
pub proof fn lemma_passes(player: Player, bodies: Seq<Body>)
    ensures
        player.lands(bodies) <==> exists|i: int|
            0 <= i < bodies.len() && stands_in_way(player, #[trigger] bodies[i]) && player.vertical_box().overlaps(
                bodies[i].bounds(),
            ),
        player.bumps(bodies) <==> exists|i: int|
            0 <= i < bodies.len() && stands_in_way(player, #[trigger] bodies[i])
                && player.horizontal_box().overlaps(bodies[i].bounds()),
{
    broadcast use {
        Seq::lemma_filter_pred,
        Seq::lemma_filter_contains,
        Seq::lemma_filter_contains_rev,
    };

    let close = bodies.filter(player.candidate());
    if player.lands(bodies) {
        let j = choose|j: int| 0 <= j < close.len() && player.vertical_box().overlaps(#[trigger] close[j].bounds());
        assert(close.contains(close[j]));
        let i = choose|i: int| 0 <= i < bodies.len() && bodies[i] == close[j];
        assert(stands_in_way(player, bodies[i]));
    }
    if player.bumps(bodies) {
        let j = choose|j: int| 0 <= j < close.len() && player.horizontal_box().overlaps(#[trigger] close[j].bounds());
        assert(close.contains(close[j]));
        let i = choose|i: int| 0 <= i < bodies.len() && bodies[i] == close[j];
        assert(stands_in_way(player, bodies[i]));
    }
    assert forall|i: int|
        0 <= i < bodies.len() && stands_in_way(player, #[trigger] bodies[i]) implies close.contains(bodies[i]) by {
        assert((player.candidate())(bodies[i]));
    }
    if exists|i: int|
        0 <= i < bodies.len() && stands_in_way(player, #[trigger] bodies[i]) && player.vertical_box().overlaps(
            bodies[i].bounds(),
        ) {
        let i = choose|i: int|
            0 <= i < bodies.len() && stands_in_way(player, #[trigger] bodies[i]) && player.vertical_box().overlaps(
                bodies[i].bounds(),
            );
        let j = choose|j: int| 0 <= j < close.len() && close[j] == bodies[i];
        assert(player.vertical_box().overlaps(close[j].bounds()));
    }
    if exists|i: int|
        0 <= i < bodies.len() && stands_in_way(player, #[trigger] bodies[i]) && player.horizontal_box().overlaps(
            bodies[i].bounds(),
        ) {
        let i = choose|i: int|
            0 <= i < bodies.len() && stands_in_way(player, #[trigger] bodies[i])
                && player.horizontal_box().overlaps(bodies[i].bounds());
        let j = choose|j: int| 0 <= j < close.len() && close[j] == bodies[i];
        assert(player.horizontal_box().overlaps(close[j].bounds()));
    }
}

/// No tunneling, vertically. Take a body that blocks the player and
/// whose columns the player's box shares, where it stands and where its
/// velocity leads. If the player's box lies wholly above the body, or
/// wholly below it, and the vertical speed is no more than the extents of
/// the two together, then after the tick the box lies wholly on the same
/// side still.
pub proof fn lemma_no_vertical_tunneling(player: Player, bodies: Seq<Body>, i: int)
    requires
        0 <= i < bodies.len(),
        moves_in_range(player),
        player.collider.blocked_by(bodies[i].collider),
        player.bounds().min_x <= bodies[i].bounds().max_x,
        player.bounds().max_x >= bodies[i].bounds().min_x,
        player.provisional_box().min_x <= bodies[i].bounds().max_x,
        player.provisional_box().max_x >= bodies[i].bounds().min_x,
        -(player.collider.height + bodies[i].collider.height) <= player.velocity.y <= player.collider.height
            + bodies[i].collider.height,
    ensures
        player.bounds().min_y > bodies[i].bounds().max_y ==> player.moved(bodies).bounds().min_y
            > bodies[i].bounds().max_y,
        player.bounds().max_y < bodies[i].bounds().min_y ==> player.moved(bodies).bounds().max_y
            < bodies[i].bounds().min_y,
{
    lemma_passes(player, bodies);
    let body = bodies[i];
    if player.vertical_box().overlaps(body.bounds()) {
        assert(stands_in_way(player, body));
        assert(player.lands(bodies));
    }
}

/// No tunneling, horizontally: as [`lemma_no_vertical_tunneling`], with
/// rows for columns and left and right for above and below.
pub proof fn lemma_no_horizontal_tunneling(player: Player, bodies: Seq<Body>, i: int)
    requires
        0 <= i < bodies.len(),
        moves_in_range(player),
        player.collider.blocked_by(bodies[i].collider),
        player.bounds().min_y <= bodies[i].bounds().max_y,
        player.bounds().max_y >= bodies[i].bounds().min_y,
        player.provisional_box().min_y <= bodies[i].bounds().max_y,
        player.provisional_box().max_y >= bodies[i].bounds().min_y,
        -(player.collider.width + bodies[i].collider.width) <= player.velocity.x <= player.collider.width
            + bodies[i].collider.width,
    ensures
        player.bounds().min_x > bodies[i].bounds().max_x ==> player.moved(bodies).bounds().min_x
            > bodies[i].bounds().max_x,
        player.bounds().max_x < bodies[i].bounds().min_x ==> player.moved(bodies).bounds().max_x
            < bodies[i].bounds().min_x,
{
    lemma_passes(player, bodies);
    let body = bodies[i];
    if player.horizontal_box().overlaps(body.bounds()) {
        assert(stands_in_way(player, body));
        assert(player.bumps(bodies));
    }
}

/// Bit `k` of `mask` is set.
pub open spec fn has_layer(mask: u8, k: u8) -> bool {
    mask & (1u8 << k) != 0
}

/// Two colliders share a layer exactly when some bit is set in both
/// masks, and whether they do does not depend on which of them asks.
pub proof fn lemma_layers_symmetric(a: Collider, b: Collider)
    ensures
        a.shares_layer(b) == b.shares_layer(a),
        a.shares_layer(b) <==> exists|k: u8| k < 8 && has_layer(a.layer_mask, k) && has_layer(b.layer_mask, k),
{
    let x = a.layer_mask;
    let y = b.layer_mask;
    assert(x & y == y & x) by (bit_vector);
    if x & y != 0 {
        assert(x & y != 0 ==> ((x & (1u8 << 0u8) != 0 && y & (1u8 << 0u8) != 0) || (x & (1u8 << 1u8) != 0 && y & (1u8
            << 1u8) != 0) || (x & (1u8 << 2u8) != 0 && y & (1u8 << 2u8) != 0) || (x & (1u8 << 3u8) != 0 && y & (1u8
            << 3u8) != 0) || (x & (1u8 << 4u8) != 0 && y & (1u8 << 4u8) != 0) || (x & (1u8 << 5u8) != 0 && y & (1u8
            << 5u8) != 0) || (x & (1u8 << 6u8) != 0 && y & (1u8 << 6u8) != 0) || (x & (1u8 << 7u8) != 0 && y & (1u8
            << 7u8) != 0))) by (bit_vector);
        assert(has_layer(x, 0) && has_layer(y, 0) || has_layer(x, 1) && has_layer(y, 1) || has_layer(x, 2)
            && has_layer(y, 2) || has_layer(x, 3) && has_layer(y, 3) || has_layer(x, 4) && has_layer(y, 4)
            || has_layer(x, 5) && has_layer(y, 5) || has_layer(x, 6) && has_layer(y, 6) || has_layer(x, 7)
            && has_layer(y, 7));
    }
    assert forall|k: u8| k < 8 && has_layer(x, k) && has_layer(y, k) implies x & y != 0 by {
        assert(k < 8 && x & (1u8 << k) != 0 && y & (1u8 << k) != 0 ==> x & y != 0) by (bit_vector);
    }
}

/// Jump gating. After a tick, the player may jump exactly when the
/// vertical pass of that tick found a collision. In the tick that
/// follows, a jump is carried out only with that permission; without it,
/// pressing jump changes nothing.
pub proof fn lemma_jump_gating(player: Player, input: Input, bodies: Seq<Body>, next_input: Input)
    ensures
        ({
            let steered = player.after_input(input);
            let after = steered.moved(bodies);
            &&& after.can_jump == steered.lands(bodies)
            &&& after.jumps(next_input) == (steered.lands(bodies) && next_input.jump)
            &&& !after.can_jump ==> after.after_input(next_input) == after.after_input(
                Input { jump: false, ..next_input },
            )
            &&& !after.after_input(next_input).jumps(next_input)
        }),
{
}

/// Level cycling. After `n` completed levels, counted from the first
/// level, the current level is `n` modulo the number of levels. The mark
/// that a level has been completed is set by the first completion and
/// stays set.
pub proof fn lemma_level_cycling(start: LevelIndex, n: nat)
    ensures
        start.0 == 0 ==> start.advanced(n).0 == n % (LEVEL_COUNT as nat),
        n >= 1 ==> start.advanced(n).1,
        start.1 ==> start.advanced(n).1,
    decreases n,
{
    if n > 0 {
        lemma_level_cycling(start, (n - 1) as nat);
    }
}

/// The life cycle has no last state: every state has a successor other
/// than itself, and the third successor of a state is the state again.
pub proof fn lemma_states_cycle(state: LevelState)
    ensures
        following_state(state) != state,
        following_state(following_state(following_state(state))) == state,
{
}

/// Trigger exclusion. Among bodies that are all triggers the player
/// keeps its velocity and gains no permission to jump, whatever their
/// layers are.
pub proof fn lemma_triggers_never_block(player: Player, bodies: Seq<Body>)
    requires
        forall|i: int| 0 <= i < bodies.len() ==> (#[trigger] bodies[i]).collider.is_trigger,
    ensures
        player.moved(bodies).velocity == player.velocity,
        !player.moved(bodies).can_jump,
{
    lemma_passes(player, bodies);
}

/// Trigger exclusion, in general. A velocity component that a tick
/// drops was stopped by a body that is no trigger.
pub proof fn lemma_only_solids_block(player: Player, bodies: Seq<Body>)
    ensures
        player.moved(bodies).velocity != player.velocity ==> exists|i: int|
            0 <= i < bodies.len() && !(#[trigger] bodies[i]).collider.is_trigger && player.collider.shares_layer(
                bodies[i].collider,
            ),
{
    lemma_passes(player, bodies);
}

/// Goals are found whatever their layers: a goal that the player's box
/// meets is a hit for the goal check, trigger or not.
pub proof fn lemma_goal_found(player: Player, goals: Seq<Body>, i: int)
    requires
        0 <= i < goals.len(),
        player.bounds().overlaps(goals[i].bounds()),
    ensures
        hits(player.bounds(), goals),
{
}

} // verus!
