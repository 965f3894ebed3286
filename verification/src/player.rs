//! The player: how input turns into velocity, how velocity is checked
//! against the level's colliders one axis at a time, and what the player
//! looks like afterwards.

use crate::collision::{clamp, saturating_sum, Aabb, Body, Collider, Vector2};
use crate::level::{LevelIndex, LevelState};
use crate::timer::tick_repeating_timer;
use vstd::prelude::*;

verus! {

/// Horizontal speed while a direction is held, in sub-units per tick.
pub const WALK_SPEED: i64 = 10;

/// Downward speed gained every tick.
pub const GRAVITY: i64 = 1;

/// Upward speed that a jump sets.
pub const JUMP_IMPULSE: i64 = 25;

/// Extent of the player's collider along both axes.
pub const PLAYER_COLLIDER_SIZE: u32 = 140;

/// Time between two animation frames, in milliseconds.
pub const PLAYER_ANIMATION_MS: u32 = 200;

/// What the player is shown doing. Derived from the motion, never read by it.
#[derive(Clone, Copy, Debug, PartialEq, Eq, Structural)]
pub enum PlayerAnimationState {
    Idle,
    Air,
    Walk,
}

/// The player's skin, which decides the layers it collides with.
#[derive(Clone, Copy, Debug, PartialEq, Eq, Structural)]
pub enum PlayerType {
    Blue,
    Yellow,
}

impl PlayerType {
    /// The other skin.
    pub open spec fn other(self) -> PlayerType {
        match self {
            PlayerType::Blue => PlayerType::Yellow,
            PlayerType::Yellow => PlayerType::Blue,
        }
    }

    /// Layers of the skin: the neutral layer and the layer of the tiles
    /// of its own colour. Tiles of the other colour are passed through.
    pub open spec fn mask(self) -> u8 {
        match self {
            PlayerType::Blue => 0b011,
            PlayerType::Yellow => 0b101,
        }
    }

    /// First frame of the skin in the sprite sheet.
    pub open spec fn first_frame(self) -> usize {
        match self {
            PlayerType::Blue => 0,
            PlayerType::Yellow => 2,
        }
    }

    pub fn toggled(self) -> (t: PlayerType)
        ensures
            t == self.other(),
    {
        match self {
            PlayerType::Blue => PlayerType::Yellow,
            PlayerType::Yellow => PlayerType::Blue,
        }
    }

    pub fn layer_mask(self) -> (m: u8)
        ensures
            m == self.mask(),
    {
        match self {
            PlayerType::Blue => 0b011,
            PlayerType::Yellow => 0b101,
        }
    }

    pub fn atlas_offset(self) -> (frame: usize)
        ensures
            frame == self.first_frame(),
    {
        match self {
            PlayerType::Blue => 0,
            PlayerType::Yellow => 2,
        }
    }
}

/// The single player of a session.
#[derive(Clone, Copy, Debug, PartialEq, Eq, Structural)]
pub struct Player {
    /// Centre of the player.
    pub position: Vector2,
    /// Displacement per tick.
    pub velocity: Vector2,
    /// Whether the vertical pass of the latest tick found a collision.
    pub can_jump: bool,
    pub animation_state: PlayerAnimationState,
    pub player_type: PlayerType,
    pub collider: Collider,
    /// Whether the sprite is mirrored, which it is while facing right.
    pub flip_x: bool,
}

/// The keys as they stand in one tick.
#[derive(Clone, Copy, Debug, PartialEq, Eq, Structural)]
pub struct Input {
    /// Move-left is held.
    pub left: bool,
    /// Move-right is held.
    pub right: bool,
    /// Jump went down in this tick.
    pub jump: bool,
    /// Restart went down in this tick.
    pub restart: bool,
    /// Switch-type went down in this tick.
    pub switch_type: bool,
}

/// What the input of one tick set off.
#[derive(Clone, Copy, Debug, PartialEq, Eq, Structural)]
pub struct InputEvents {
    pub jumped: bool,
    pub switched: bool,
    pub restart: bool,
}

impl Input {
    /// Horizontal velocity that the held directions ask for.
    pub open spec fn walk(self) -> int {
        (if self.right { WALK_SPEED as int } else { 0 }) - (if self.left { WALK_SPEED as int } else { 0 })
    }

    pub fn none() -> (input: Input)
        ensures
            input == (Input { left: false, right: false, jump: false, restart: false, switch_type: false }),
    {
        Input { left: false, right: false, jump: false, restart: false, switch_type: false }
    }
}

impl Player {
    /// The player as a session starts: at rest at the origin, blue.
    pub open spec fn initial() -> Player {
        Player {
            position: Vector2 { x: 0, y: 0 },
            velocity: Vector2 { x: 0, y: 0 },
            can_jump: false,
            animation_state: PlayerAnimationState::Idle,
            player_type: PlayerType::Blue,
            collider: Collider {
                width: PLAYER_COLLIDER_SIZE,
                height: PLAYER_COLLIDER_SIZE,
                layer_mask: 0b011,
                is_trigger: false,
            },
            flip_x: false,
        }
    }

    /// The box that the player covers.
    pub open spec fn bounds(self) -> Aabb {
        self.collider.aabb(self.position)
    }

    /// The jump of this tick is carried out.
    pub open spec fn jumps(self, input: Input) -> bool {
        self.can_jump && input.jump
    }

    /// The player after the input of one tick: the held directions set
    /// the horizontal velocity, gravity pulls once, a jump that is due
    /// replaces the vertical velocity and uses up the permission to jump,
    /// and a switch changes the skin and with it the collider's layers.
    pub open spec fn after_input(self, input: Input) -> Player {
        let player_type = if input.switch_type { self.player_type.other() } else { self.player_type };
        Player {
            velocity: Vector2 {
                x: input.walk() as i64,
                y: if self.jumps(input) { JUMP_IMPULSE } else { clamp(self.velocity.y - GRAVITY) },
            },
            can_jump: self.can_jump && !input.jump,
            player_type,
            collider: Collider {
                layer_mask: if input.switch_type { player_type.mask() } else { self.collider.layer_mask },
                ..self.collider
            },
            ..self
        }
    }

    /// The box at the place that the whole velocity leads to.
    pub open spec fn provisional_box(self) -> Aabb {
        self.collider.aabb(self.position.offset(self.velocity))
    }

    /// The box after the vertical velocity alone.
    pub open spec fn vertical_box(self) -> Aabb {
        self.collider.aabb(self.position.offset(Vector2 { x: 0, y: self.velocity.y }))
    }

    /// The box after the horizontal velocity alone.
    pub open spec fn horizontal_box(self) -> Aabb {
        self.collider.aabb(self.position.offset(Vector2 { x: self.velocity.x, y: 0 }))
    }

    /// `body` takes part in this tick's resolution: it blocks the player
    /// and meets the provisional box.
    pub open spec fn is_candidate(self, body: Body) -> bool {
        self.collider.blocked_by(body.collider) && self.provisional_box().overlaps(body.bounds())
    }

    /// [`Player::is_candidate`] as a predicate on bodies.
    pub open spec fn candidate(self) -> spec_fn(Body) -> bool {
        |body: Body| self.is_candidate(body)
    }

    /// The player after resolution against `close`: each velocity
    /// component is kept unless its own box meets one of `close`.
    pub open spec fn resolved(self, close: Seq<Body>) -> Player {
        Player {
            velocity: Vector2 {
                x: if hits(self.horizontal_box(), close) { 0 } else { self.velocity.x },
                y: if hits(self.vertical_box(), close) { 0 } else { self.velocity.y },
            },
            ..self
        }
    }

    /// The vertical pass of a tick among `bodies` finds a collision.
    pub open spec fn lands(self, bodies: Seq<Body>) -> bool {
        hits(self.vertical_box(), bodies.filter(self.candidate()))
    }

    /// The horizontal pass of a tick among `bodies` finds a collision.
    pub open spec fn bumps(self, bodies: Seq<Body>) -> bool {
        hits(self.horizontal_box(), bodies.filter(self.candidate()))
    }

    /// The player after one tick of motion among `bodies`: what the two
    /// passes leave of the velocity moves the player, faces it, and
    /// decides how it is shown; the vertical pass decides whether it may
    /// jump.
    pub open spec fn moved(self, bodies: Seq<Body>) -> Player {
        let landed = self.lands(bodies);
        let velocity = Vector2 {
            x: if self.bumps(bodies) { 0 } else { self.velocity.x },
            y: if landed { 0 } else { self.velocity.y },
        };
        Player {
            position: self.position.offset(velocity),
            velocity,
            can_jump: landed,
            animation_state: if !landed {
                PlayerAnimationState::Air
            } else if velocity.x != 0 {
                PlayerAnimationState::Walk
            } else {
                PlayerAnimationState::Idle
            },
            flip_x: if velocity.x > 0 { true } else if velocity.x < 0 { false } else { self.flip_x },
            ..self
        }
    }

    /// Frame of the sprite sheet that follows frame `shown`.
    pub open spec fn frame_after(self, shown: usize) -> int {
        self.player_type.first_frame() + match self.animation_state {
            PlayerAnimationState::Idle => 0int,
            PlayerAnimationState::Air => 1int,
            PlayerAnimationState::Walk => (shown % 2 + 1) % 2,
        }
    }

    pub fn new() -> (player: Player)
        ensures
            player == Player::initial(),
            player.collider.wf(),
    {
        Player {
            position: Vector2 { x: 0, y: 0 },
            velocity: Vector2 { x: 0, y: 0 },
            can_jump: false,
            animation_state: PlayerAnimationState::Idle,
            player_type: PlayerType::Blue,
            collider: Collider {
                width: PLAYER_COLLIDER_SIZE,
                height: PLAYER_COLLIDER_SIZE,
                layer_mask: 0b011,
                is_trigger: false,
            },
            flip_x: false,
        }
    }

    pub fn bounding_box(&self) -> (bounds: Aabb)
        ensures
            bounds == self.bounds(),
    {
        self.collider.get_aabb2d(self.position)
    }
}

/// `volume` meets the box of at least one of `bodies`.
pub open spec fn hits(volume: Aabb, bodies: Seq<Body>) -> bool {
    exists|i: int| 0 <= i < bodies.len() && volume.overlaps(#[trigger] bodies[i].bounds())
}

/// Tells whether `volume` meets one of `bodies`, looking at them in order
/// and no further than the first that it meets.
pub fn hits_any(volume: &Aabb, bodies: &Vec<Body>) -> (hit: bool)
    ensures
        hit == hits(*volume, bodies@),
{
    let mut i: usize = 0;
    while i < bodies.len()
        invariant
            i <= bodies.len(),
            forall|j: int| 0 <= j < i ==> !volume.overlaps(#[trigger] bodies@[j].bounds()),
        decreases bodies.len() - i,
    {
        let other = bodies[i].bounding_box();
        if volume.intersects(&other) {
            return true;
        }
        i += 1;
    }
    false
}

/// Turns the input of one tick into velocity, skin and events.
pub fn handle_player_input(player: &mut Player, input: &Input) -> (events: InputEvents)
    ensures
        *final(player) == old(player).after_input(*input),
        events == (InputEvents {
            jumped: old(player).jumps(*input),
            switched: input.switch_type,
            restart: input.restart,
        }),
{
    let mut direction: i64 = 0;
    if input.left {
        direction -= WALK_SPEED;
    }
    if input.right {
        direction += WALK_SPEED;
    }
    player.velocity.x = direction;
    player.velocity.y = saturating_sum(player.velocity.y, -GRAVITY);

    let jumped = player.can_jump && input.jump;
    if jumped {
        player.velocity.y = JUMP_IMPULSE;
        player.can_jump = false;
    }
    if input.switch_type {
        player.player_type = player.player_type.toggled();
        player.collider.layer_mask = player.player_type.layer_mask();
    }
    InputEvents { jumped, switched: input.switch_type, restart: input.restart }
}

/// The colliders that take part in this tick's resolution, in the order
/// in which `colliders` holds them.
pub fn close_colliders(player: &Player, colliders: &Vec<Body>) -> (close: Vec<Body>)
    ensures
        close@ == colliders@.filter(player.candidate()),
{
    let next_position = player.position.moved_by(player.velocity);
    let next_box = player.collider.get_aabb2d(next_position);
    let mut close: Vec<Body> = Vec::new();
    let mut i: usize = 0;
    proof {
        reveal(Seq::filter);
        assert(colliders@.take(0).filter(player.candidate()) =~= Seq::<Body>::empty());
    }
    while i < colliders.len()
        invariant
            i <= colliders.len(),
            next_box == player.provisional_box(),
            close@ == colliders@.take(i as int).filter(player.candidate()),
        decreases colliders.len() - i,
    {
        let body = colliders[i];
        let other = body.bounding_box();
        proof {
            reveal(Seq::filter);
            assert(colliders@.take(i + 1).drop_last() =~= colliders@.take(i as int));
            assert(colliders@.take(i + 1).last() == body);
        }
        if player.collider.is_blocked_by(&body.collider) && next_box.intersects(&other) {
            close.push(body);
        }
        i += 1;
    }
    assert(colliders@.take(i as int) =~= colliders@);
    close
}

/// Resolves the player's velocity against `close`, one axis at a time and
/// both from the place where the player stands: the vertical velocity is
/// dropped where the box moved by it alone meets one of `close`, and so
/// is the horizontal velocity. Tells whether the vertical one was.
pub fn check_player_collision(player: &mut Player, close: &Vec<Body>) -> (y_collision: bool)
    ensures
        *final(player) == old(player).resolved(close@),
        y_collision == hits(old(player).vertical_box(), close@),
{
    let next_y = Vector2 { x: player.position.x, y: saturating_sum(player.position.y, player.velocity.y) };
    let next_x = Vector2 { x: saturating_sum(player.position.x, player.velocity.x), y: player.position.y };
    let y_box = player.collider.get_aabb2d(next_y);
    let x_box = player.collider.get_aabb2d(next_x);

    let y_collision = hits_any(&y_box, close);
    if y_collision {
        player.velocity.y = 0;
    }
    if hits_any(&x_box, close) {
        player.velocity.x = 0;
    }
    y_collision
}

/// One tick of motion: picks the colliders that block the player near the
/// place its velocity leads to, resolves the velocity against them, faces
/// and animates the player by what is left of it, and moves the player.
pub fn move_player(player: &mut Player, colliders: &Vec<Body>)
    ensures
        *final(player) == old(player).moved(colliders@),
{
    let close = close_colliders(player, colliders);
    player.can_jump = check_player_collision(player, &close);

    if player.velocity.x > 0 {
        player.flip_x = true;
    } else if player.velocity.x < 0 {
        player.flip_x = false;
    }
    player.animation_state = if !player.can_jump {
        PlayerAnimationState::Air
    } else if player.velocity.x != 0 {
        PlayerAnimationState::Walk
    } else {
        PlayerAnimationState::Idle
    };
    player.position = player.position.moved_by(player.velocity);
}

/// While playing, looks for a goal that the player's box meets. On the
/// first one the level index moves on and the level ends. Layers play no
/// part in this.
pub fn check_goal_reached(
    player: &Player,
    goals: &Vec<Body>,
    state: &mut LevelState,
    level_index: &mut LevelIndex,
) -> (reached: bool)
    ensures
        reached == (*old(state) == LevelState::Play && hits(player.bounds(), goals@)),
        *final(state) == (if reached { LevelState::End } else { *old(state) }),
        *final(level_index) == (if reached { old(level_index).next() } else { *old(level_index) }),
{
    if *state != LevelState::Play {
        return false;
    }
    let bounds = player.bounding_box();
    let reached = hits_any(&bounds, goals);
    if reached {
        level_index.to_next_level();
        *state = LevelState::End;
    }
    reached
}

/// The camera keeps the player in its centre.
pub fn camera_follow(player: &Player) -> (camera: Vector2)
    ensures
        camera == player.position,
{
    player.position
}

/// The timer that paces the player's animation frames.
#[derive(Clone, Copy, Debug, PartialEq, Eq, Structural)]
pub struct AnimationTimer {
    pub elapsed_ms: u32,
}

/// Lets `delta_ms` pass on the animation timer and gives the frame to
/// show: the one after `shown` where the timer ran out, else `shown`.
pub fn animate_player(player: &Player, timer: &mut AnimationTimer, delta_ms: u32, shown: usize) -> (frame: usize)
    ensures
        final(timer).elapsed_ms == (old(timer).elapsed_ms + delta_ms) % (PLAYER_ANIMATION_MS as int),
        frame == (if old(timer).elapsed_ms + delta_ms >= PLAYER_ANIMATION_MS {
            player.frame_after(shown)
        } else {
            shown as int
        }),
{
    let after = tick_repeating_timer(PLAYER_ANIMATION_MS, timer.elapsed_ms, delta_ms);
    timer.elapsed_ms = after.0;
    if after.1 {
        player.player_type.atlas_offset() + match player.animation_state {
            PlayerAnimationState::Idle => 0,
            PlayerAnimationState::Air => 1,
            PlayerAnimationState::Walk => (shown % 2 + 1) % 2,
        }
    } else {
        shown
    }
}

} // verus!
