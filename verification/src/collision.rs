use vstd::prelude::*;

use crate::physics::{CollisionEvent, Entity};
use crate::player::Player;

verus! {

/// Whether a single collision notification grounds the player: a `Started`
/// event pairing the ground entity with the entity carrying the player.
/// `Stopped` events and pairs not naming the ground are ignored; a pair
/// naming the ground but not the player (the ground and the enemy, say) is
/// ignored too.
pub open spec fn clears_jump(event: CollisionEvent, ground: Entity, player_entity: Entity) -> bool {
    match event {
        CollisionEvent::Started(a, b) => {
            if a == ground {
                b == player_entity
            } else if b == ground {
                a == player_entity
            } else {
                false
            }
        },
        CollisionEvent::Stopped(_, _) => false,
    }
}

/// Whether any event of one frame's batch grounds the player.
pub open spec fn batch_clears_jump(
    events: Seq<CollisionEvent>,
    ground: Entity,
    player_entity: Entity,
) -> bool {
    exists|i: int| 0 <= i < events.len() && clears_jump(events[i], ground, player_entity)
}

/// Consume one frame's collision events: a collision start between the ground
/// and the player clears the jump latch, whatever the player was doing.
/// Nothing but the latch changes, and nothing sets it.
pub fn collision_event(
    events: &Vec<CollisionEvent>,
    ground: Entity,
    player_entity: Entity,
    player: &mut Player,
)
    ensures
        final(player).jumping
            == (old(player).jumping && !batch_clears_jump(events@, ground, player_entity)),
        final(player).direction == old(player).direction,
        final(player).action == old(player).action,
        final(player).jump_force == old(player).jump_force,
        final(player).life == old(player).life,
{
    let ghost all = events@;
    let mut i: usize = 0;
    while i < events.len()
        invariant
            0 <= i <= all.len(),
            events@ == all,
            player.direction == old(player).direction,
            player.action == old(player).action,
            player.jump_force == old(player).jump_force,
            player.life == old(player).life,
            player.jumping
                == (old(player).jumping && !batch_clears_jump(all.take(i as int), ground, player_entity)),
        decreases all.len() - i,
    {
        let event = events[i];
        match event {
            CollisionEvent::Started(a, b) => {
                if a == ground {
                    if b == player_entity {
                        player.jumping = false;
                    }
                } else if b == ground {
                    if a == player_entity {
                        player.jumping = false;
                    }
                }
            },
            CollisionEvent::Stopped(_, _) => {},
        }
        proof {
            assert(all.take(i + 1 as int).drop_last() =~= all.take(i as int));
            assert(all.take(i + 1 as int).last() == all[i as int]);
            if clears_jump(all[i as int], ground, player_entity) {
                assert(batch_clears_jump(all.take(i + 1 as int), ground, player_entity));
            } else {
                assert(batch_clears_jump(all.take(i + 1 as int), ground, player_entity)
                    == batch_clears_jump(all.take(i as int), ground, player_entity)) by {
                    if batch_clears_jump(all.take(i + 1 as int), ground, player_entity) {
                        let w = choose|w: int| 0 <= w < all.take(i + 1 as int).len()
                            && #[trigger] clears_jump(all.take(i + 1 as int)[w], ground, player_entity);
                        if w < i {
                            assert(clears_jump(all.take(i as int)[w], ground, player_entity));
                        }
                    }
                }
            }
        }
        i = i + 1;
    }
    proof {
        assert(all.take(all.len() as int) =~= all);
    }
}

} // verus!
