use vstd::prelude::*;

use crate::physics::Velocity;
use crate::timer::RepeatTimer;

verus! {

/// Horizontal velocity the enemy patrols with once its interval timer fires:
/// a fixed leftward speed, never reversed.
pub const ENEMY_PATROL_SPEED: i64 = -200;

/// Hit points a freshly spawned enemy starts with.
pub const DEFAULT_ENEMY_LIFE: i32 = 100;

/// Damage a freshly spawned enemy deals on contact.
pub const DEFAULT_ENEMY_DMG: i32 = 20;

/// The patrolling slime: its hit points and the damage it deals.
#[derive(Clone, Copy, PartialEq, Eq, Structural, Debug)]
pub struct Enemy {
    life: i32,
    dmg: i32,
}

impl Enemy {
    /// The enemy's hit points.
    pub closed spec fn spec_life(self) -> i32 {
        self.life
    }

    /// The damage the enemy deals on contact.
    pub closed spec fn spec_dmg(self) -> i32 {
        self.dmg
    }

    /// The damage the enemy deals on contact.
    pub fn get_dmg(&self) -> (dmg: i32)
        ensures
            dmg == self.spec_dmg(),
    {
        self.dmg
    }
}

impl Default for Enemy {
    /// A freshly spawned enemy: full life, default contact damage.
    fn default() -> (e: Enemy)
        ensures
            e.spec_life() == DEFAULT_ENEMY_LIFE,
            e.spec_dmg() == DEFAULT_ENEMY_DMG,
    {
        Enemy { life: DEFAULT_ENEMY_LIFE, dmg: DEFAULT_ENEMY_DMG }
    }
}

/// The repeating interval on which the enemy's patrol speed is re-applied.
#[derive(Clone, Copy, PartialEq, Eq, Structural, Debug)]
pub struct EnemyMoviment(pub RepeatTimer);

/// Advance the patrol timer by `delta` time units; each time the interval
/// completes, set the horizontal velocity to the fixed leftward patrol speed.
/// Between completions the velocity is left exactly as it was, and the
/// vertical axis is never touched.
pub fn enemy_moviment(velocity: &mut Velocity, moviment: &mut EnemyMoviment, delta: u64)
    requires
        old(moviment).0.wf(),
        old(moviment).0.elapsed + delta <= u64::MAX,
    ensures
        final(moviment).0 == old(moviment).0.spec_tick(delta),
        final(moviment).0.wf(),
        final(velocity).x == if final(moviment).0.finished_this_tick {
            ENEMY_PATROL_SPEED
        } else {
            old(velocity).x
        },
        final(velocity).y == old(velocity).y,
{
    moviment.0.tick(delta);

    if moviment.0.just_finished() {
        velocity.x = ENEMY_PATROL_SPEED;
    }
}

} // verus!
