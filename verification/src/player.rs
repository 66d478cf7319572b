use vstd::prelude::*;

use crate::physics::{Position, Sprite, Velocity};

verus! {

/// How far one frame of walking moves the player horizontally.
pub const WALK_STEP: i64 = 6;

/// Vertical velocity given to a newly created player's jump.
pub const DEFAULT_JUMP_FORCE: i64 = 1000;

/// Hit points a newly created player starts with.
pub const DEFAULT_LIFE: u32 = 100;

/// The direction the input mapper chose for the current frame.
#[derive(Clone, Copy, PartialEq, Eq, Structural, Debug)]
pub enum Direction {
    Neutral,
    Left,
    Right,
    Up,
}

/// What the player is doing this frame.
#[derive(Clone, Copy, PartialEq, Eq, Structural, Debug)]
pub enum Action {
    Idle,
    Walking,
    Jumping,
}

/// The player character's control state. `jumping` is the jump latch: set
/// when a jump starts and cleared only when the player is grounded again, it
/// keeps a held or repeated jump key from starting a second jump mid-air.
#[derive(Clone, Copy, PartialEq, Eq, Structural, Debug)]
pub struct Player {
    pub direction: Direction,
    pub action: Action,
    pub jump_force: i64,
    pub life: u32,
    pub jumping: bool,
}

impl Default for Player {
    /// A freshly spawned player: idle, grounded, full life.
    fn default() -> (p: Player)
        ensures
            p == (Player {
                direction: Direction::Neutral,
                action: Action::Idle,
                jump_force: DEFAULT_JUMP_FORCE,
                life: DEFAULT_LIFE,
                jumping: false,
            }),
    {
        Player {
            direction: Direction::Neutral,
            action: Action::Idle,
            jump_force: DEFAULT_JUMP_FORCE,
            life: DEFAULT_LIFE,
            jumping: false,
        }
    }
}

/// One frame's worth of raw input: whether the left and right movement keys
/// are held, and whether the jump key was pressed this very frame
/// (edge-triggered, so holding the key does not repeat it).
#[derive(Clone, Copy, PartialEq, Eq, Structural, Debug)]
pub struct InputState {
    pub left_held: bool,
    pub right_held: bool,
    pub jump_just_pressed: bool,
}

/// The player state after mapping one frame of input. Held keys choose the
/// direction and action, left taking priority over right; a fresh jump press
/// overrides both and sets the jump latch, but only while the latch is clear.
pub open spec fn input_step(p: Player, input: InputState) -> Player {
    let moved = if input.left_held {
        Player { direction: Direction::Left, action: Action::Walking, ..p }
    } else if input.right_held {
        Player { direction: Direction::Right, action: Action::Walking, ..p }
    } else {
        Player { direction: Direction::Neutral, action: Action::Idle, ..p }
    };
    if input.jump_just_pressed && !moved.jumping {
        Player { direction: Direction::Up, action: Action::Jumping, jumping: true, ..moved }
    } else {
        moved
    }
}

/// Map one frame of raw input onto the player's direction, action and jump
/// latch, as `input_step` describes.
pub fn player_input(player: &mut Player, input: InputState)
    ensures
        *final(player) == input_step(*old(player), input),
{
    if input.left_held {
        player.direction = Direction::Left;
        player.action = Action::Walking;
    } else if input.right_held {
        player.direction = Direction::Right;
        player.action = Action::Walking;
    } else {
        player.direction = Direction::Neutral;
        player.action = Action::Idle;
    }

    if input.jump_just_pressed && !player.jumping {
        player.direction = Direction::Up;
        player.action = Action::Jumping;
        player.jumping = true;
    }
}

/// The player, position, velocity and sprite after one frame of movement
/// integration:
/// - `Left` / `Right`: shift the position one walk step, mirror the sprite to
///   face the way walked, and force the action to `Walking`;
/// - `Up`: while the action is `Jumping`, drive the vertical velocity to the
///   jump force;
/// - `Neutral`: if the action is `Jumping` and the vertical velocity is
///   exactly zero, the player has landed, so clear the jump latch; either way
///   the action falls back to `Idle`.
/// Afterwards, whenever the action is still `Jumping`, the jump force is
/// re-asserted on the vertical velocity.
pub open spec fn movement_step(
    p: Player,
    pos: Position,
    vel: Velocity,
    sprite: Sprite,
) -> (Player, Position, Velocity, Sprite) {
    let handled = match p.direction {
        Direction::Left => (
            Player { action: Action::Walking, ..p },
            Position { x: (pos.x - WALK_STEP) as i64, ..pos },
            vel,
            Sprite { flip_x: true },
        ),
        Direction::Right => (
            Player { action: Action::Walking, ..p },
            Position { x: (pos.x + WALK_STEP) as i64, ..pos },
            vel,
            Sprite { flip_x: false },
        ),
        Direction::Up => {
            if p.action == Action::Jumping {
                (p, pos, Velocity { y: p.jump_force, ..vel }, sprite)
            } else {
                (p, pos, vel, sprite)
            }
        },
        Direction::Neutral => {
            let landed = if p.action == Action::Jumping && vel.y == 0 {
                Player { jumping: false, ..p }
            } else {
                p
            };
            (Player { action: Action::Idle, ..landed }, pos, vel, sprite)
        },
    };
    if handled.0.action == Action::Jumping {
        (handled.0, handled.1, Velocity { y: handled.0.jump_force, ..handled.2 }, handled.3)
    } else {
        handled
    }
}

/// Integrate one frame of player movement onto the position, velocity, sprite
/// and player state, as `movement_step` describes.
pub fn player_moviment(
    transform: &mut Position,
    velocity: &mut Velocity,
    player: &mut Player,
    sprite: &mut Sprite,
)
    requires
        old(player).direction == Direction::Left ==> old(transform).x - WALK_STEP >= i64::MIN,
        old(player).direction == Direction::Right ==> old(transform).x + WALK_STEP <= i64::MAX,
    ensures
        (*final(player), *final(transform), *final(velocity), *final(sprite))
            == movement_step(*old(player), *old(transform), *old(velocity), *old(sprite)),
{
    match player.direction {
        Direction::Left => {
            transform.x = transform.x - WALK_STEP;
            sprite.flip_x = true;
            player.action = Action::Walking;
        },
        Direction::Right => {
            transform.x = transform.x + WALK_STEP;
            sprite.flip_x = false;
            player.action = Action::Walking;
        },
        Direction::Up => {
            if player.action == Action::Jumping {
                velocity.y = player.jump_force;
            }
        },
        Direction::Neutral => {
            if player.action == Action::Jumping && velocity.y == 0 {
                player.jumping = false;
            }
            player.action = Action::Idle;
        },
    }

    // Keep the ascent going while the action is still a jump, so that a jump
    // started while walking is not lost.
    if player.action == Action::Jumping {
        velocity.y = player.jump_force;
    }
}

} // verus!
