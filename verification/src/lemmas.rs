use vstd::prelude::*;

use crate::collision::{batch_clears_jump, clears_jump};
use crate::physics::{CollisionEvent, Entity, Position, Sprite, Velocity};
use crate::player::{
    input_step, movement_step, Action, Direction, InputState, Player, WALK_STEP,
};

verus! {

/// The jump-latch invariant: whenever the action is `Jumping`, the latch is
/// set.
pub open spec fn latch_inv(p: Player) -> bool {
    p.action == Action::Jumping ==> p.jumping
}

/// Input mapping followed by movement integration: the two per-frame steps of
/// the player controller, in the order they run within a frame.
pub open spec fn control_step(
    p: Player,
    pos: Position,
    vel: Velocity,
    sprite: Sprite,
    input: InputState,
) -> (Player, Position, Velocity, Sprite) {
    movement_step(input_step(p, input), pos, vel, sprite)
}

/// A whole frame of the player controller: input mapping, movement
/// integration, then consuming the frame's collision events, which can only
/// clear the latch.
pub open spec fn frame_step(
    p: Player,
    pos: Position,
    vel: Velocity,
    sprite: Sprite,
    input: InputState,
    events: Seq<CollisionEvent>,
    ground: Entity,
    player_entity: Entity,
) -> (Player, Position, Velocity, Sprite) {
    let moved = control_step(p, pos, vel, sprite, input);
    let grounded = Player {
        jumping: moved.0.jumping && !batch_clears_jump(events, ground, player_entity),
        ..moved.0
    };
    (grounded, moved.1, moved.2, moved.3)
}

/// Input mapping establishes the latch invariant outright, whatever the
/// player looked like before — a fresh jump press sets the latch together
/// with the `Jumping` action, and without one the action maps to `Walking` or
/// `Idle`, never to `Jumping`.
pub proof fn lemma_input_establishes_latch_inv(p: Player, input: InputState)
    ensures
        latch_inv(input_step(p, input)),
{
}

/// Movement integration preserves the latch invariant.
pub proof fn lemma_movement_preserves_latch_inv(
    p: Player,
    pos: Position,
    vel: Velocity,
    sprite: Sprite,
)
    requires
        latch_inv(p),
    ensures
        latch_inv(movement_step(p, pos, vel, sprite).0),
{
}

/// Input mapping never clears the latch; only landing does.
pub proof fn lemma_input_never_clears_latch(p: Player, input: InputState)
    ensures
        p.jumping ==> input_step(p, input).jumping,
{
}

/// Movement integration clears the latch only on the landing check —
/// a neutral direction while the action is `Jumping` and the vertical
/// velocity is exactly zero — and never sets it.
pub proof fn lemma_movement_clears_latch_only_on_landing(
    p: Player,
    pos: Position,
    vel: Velocity,
    sprite: Sprite,
)
    ensures
        movement_step(p, pos, vel, sprite).0.jumping != p.jumping ==> (
            p.direction == Direction::Neutral
            && p.action == Action::Jumping
            && vel.y == 0
            && !movement_step(p, pos, vel, sprite).0.jumping
        ),
{
}

/// Across a whole frame the latch invariant holds, provided a ground
/// contact does not start on the very frame the jump key freshly fires (on
/// that one frame the contact clears the latch while the action is still
/// `Jumping`).
pub proof fn lemma_frame_preserves_latch_inv(
    p: Player,
    pos: Position,
    vel: Velocity,
    sprite: Sprite,
    input: InputState,
    events: Seq<CollisionEvent>,
    ground: Entity,
    player_entity: Entity,
)
    requires
        batch_clears_jump(events, ground, player_entity)
            ==> !(input.jump_just_pressed && !p.jumping),
    ensures
        latch_inv(frame_step(p, pos, vel, sprite, input, events, ground, player_entity).0),
{
}

/// Across a whole frame, a set latch is cleared only by a ground-
/// collision start naming the player. Input mapping never clears it, and the
/// landing check cannot fire on a state input mapping just produced: a
/// neutral direction always arrives with the `Idle` action.
pub proof fn lemma_frame_clears_latch_only_by_ground_contact(
    p: Player,
    pos: Position,
    vel: Velocity,
    sprite: Sprite,
    input: InputState,
    events: Seq<CollisionEvent>,
    ground: Entity,
    player_entity: Entity,
)
    ensures
        p.jumping && !frame_step(p, pos, vel, sprite, input, events, ground, player_entity).0.jumping
            ==> batch_clears_jump(events, ground, player_entity),
{
}

/// A jump press while the latch is already set has no effect — input
/// mapping yields exactly the state it would yield had the jump key not been
/// pressed at all.
pub proof fn lemma_jump_press_while_latched_is_noop(p: Player, input: InputState)
    requires
        p.jumping,
    ensures
        input_step(p, input) == input_step(
            p,
            InputState { jump_just_pressed: false, ..input },
        ),
{
}

/// One frame with the left key held (and no fresh jump) moves the player
/// exactly one walk step to the left, faces the sprite left, and leaves the
/// velocity on both axes untouched.
pub proof fn lemma_left_frame(
    p: Player,
    pos: Position,
    vel: Velocity,
    sprite: Sprite,
    input: InputState,
)
    requires
        input.left_held,
        input.jump_just_pressed ==> p.jumping,
        pos.x - WALK_STEP >= i64::MIN,
    ensures
        control_step(p, pos, vel, sprite, input).0
            == (Player { direction: Direction::Left, action: Action::Walking, ..p }),
        control_step(p, pos, vel, sprite, input).1
            == (Position { x: (pos.x - WALK_STEP) as i64, y: pos.y }),
        control_step(p, pos, vel, sprite, input).2 == vel,
        control_step(p, pos, vel, sprite, input).3 == (Sprite { flip_x: true }),
{
}

/// The controller state after `n` frames, every frame fed the same input.
pub open spec fn run_control(
    p: Player,
    pos: Position,
    vel: Velocity,
    sprite: Sprite,
    input: InputState,
    n: nat,
) -> (Player, Position, Velocity, Sprite)
    decreases n,
{
    if n == 0 {
        (p, pos, vel, sprite)
    } else {
        let s = control_step(p, pos, vel, sprite, input);
        run_control(s.0, s.1, s.2, s.3, input, (n - 1) as nat)
    }
}

/// Holding the left key for `n` frames moves the player exactly `n` walk
/// steps to the left — so the horizontal position decreases monotonically,
/// one fixed step per frame — and never touches the velocity.
pub proof fn lemma_hold_left_monotonic(
    p: Player,
    pos: Position,
    vel: Velocity,
    sprite: Sprite,
    input: InputState,
    n: nat,
)
    requires
        input.left_held,
        !input.jump_just_pressed,
        pos.x - WALK_STEP * n >= i64::MIN,
    ensures
        run_control(p, pos, vel, sprite, input, n).1.x == pos.x - WALK_STEP * n,
        run_control(p, pos, vel, sprite, input, n).1.y == pos.y,
        run_control(p, pos, vel, sprite, input, n).2 == vel,
    decreases n,
{
    if n > 0 {
        lemma_left_frame(p, pos, vel, sprite, input);
        let s = control_step(p, pos, vel, sprite, input);
        lemma_hold_left_monotonic(s.0, s.1, s.2, s.3, input, (n - 1) as nat);
    }
}

/// The axes are handled independently. A walking frame (left or right
/// held, no fresh jump) never touches the velocity, and a fresh-jump frame
/// with no movement key held never touches the position: it only drives the
/// vertical velocity to the jump force.
pub proof fn lemma_axes_independent(
    p: Player,
    pos: Position,
    vel: Velocity,
    sprite: Sprite,
    input: InputState,
)
    ensures
        (input.left_held || input.right_held) && (input.jump_just_pressed ==> p.jumping)
            ==> control_step(p, pos, vel, sprite, input).2 == vel,
        !input.left_held && !input.right_held && input.jump_just_pressed && !p.jumping
            ==> control_step(p, pos, vel, sprite, input).1 == pos
                && control_step(p, pos, vel, sprite, input).2
                    == (Velocity { x: vel.x, y: p.jump_force }),
{
}

/// A collision start pairing the ground with the player, in either
/// order, grounds the player's whole event batch.
pub proof fn lemma_ground_contact_clears_jump(
    events: Seq<CollisionEvent>,
    ground: Entity,
    player_entity: Entity,
    i: int,
)
    requires
        0 <= i < events.len(),
        events[i] == CollisionEvent::Started(ground, player_entity)
            || events[i] == CollisionEvent::Started(player_entity, ground),
    ensures
        batch_clears_jump(events, ground, player_entity),
{
    assert(clears_jump(events[i], ground, player_entity));
}

/// A frame whose event batch holds a collision start between the ground
/// and the player always ends with the latch clear, whatever the prior state
/// or velocity.
pub proof fn lemma_frame_ground_contact_grounds(
    p: Player,
    pos: Position,
    vel: Velocity,
    sprite: Sprite,
    input: InputState,
    events: Seq<CollisionEvent>,
    ground: Entity,
    player_entity: Entity,
    i: int,
)
    requires
        0 <= i < events.len(),
        events[i] == CollisionEvent::Started(ground, player_entity)
            || events[i] == CollisionEvent::Started(player_entity, ground),
    ensures
        !frame_step(p, pos, vel, sprite, input, events, ground, player_entity).0.jumping,
{
    lemma_ground_contact_clears_jump(events, ground, player_entity, i);
}

} // verus!
