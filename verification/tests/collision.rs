use platformer::collision::collision_event;
use platformer::physics::{CollisionEvent, Entity, Position, Sprite, Velocity};
use platformer::player::{player_input, player_moviment, Action, Direction, InputState, Player};

const GROUND: Entity = Entity { id: 1 };
const PLAYER: Entity = Entity { id: 2 };
const ENEMY: Entity = Entity { id: 3 };

fn airborne_player() -> Player {
    let mut p = Player::default();
    p.direction = Direction::Up;
    p.action = Action::Jumping;
    p.jumping = true;
    p
}

#[test]
fn ground_contact_clears_latch() {
    let mut p = airborne_player();
    let events = vec![CollisionEvent::Started(GROUND, PLAYER)];
    collision_event(&events, GROUND, PLAYER, &mut p);
    assert!(!p.jumping);
}

#[test]
fn ground_contact_clears_latch_either_order() {
    let mut p = airborne_player();
    let events = vec![CollisionEvent::Started(PLAYER, GROUND)];
    collision_event(&events, GROUND, PLAYER, &mut p);
    assert!(!p.jumping);
}

#[test]
fn stopped_event_is_ignored() {
    let mut p = airborne_player();
    let events = vec![CollisionEvent::Stopped(GROUND, PLAYER)];
    collision_event(&events, GROUND, PLAYER, &mut p);
    assert!(p.jumping);
}

#[test]
fn pair_not_naming_the_player_is_ignored() {
    let mut p = airborne_player();
    let events = vec![CollisionEvent::Started(GROUND, ENEMY)];
    collision_event(&events, GROUND, PLAYER, &mut p);
    assert!(p.jumping);
}

#[test]
fn pair_not_naming_the_ground_is_ignored() {
    let mut p = airborne_player();
    let events = vec![CollisionEvent::Started(PLAYER, ENEMY)];
    collision_event(&events, GROUND, PLAYER, &mut p);
    assert!(p.jumping);
}

#[test]
fn empty_batch_keeps_latch() {
    let mut p = airborne_player();
    let events: Vec<CollisionEvent> = Vec::new();
    collision_event(&events, GROUND, PLAYER, &mut p);
    assert!(p.jumping);
}

#[test]
fn mixed_batch_finds_the_contact() {
    let mut p = airborne_player();
    let events = vec![
        CollisionEvent::Stopped(GROUND, ENEMY),
        CollisionEvent::Started(GROUND, ENEMY),
        CollisionEvent::Started(PLAYER, GROUND),
        CollisionEvent::Stopped(GROUND, PLAYER),
    ];
    collision_event(&events, GROUND, PLAYER, &mut p);
    assert!(!p.jumping);
}

#[test]
fn collision_only_touches_the_latch() {
    let mut p = airborne_player();
    let before = p;
    let events = vec![CollisionEvent::Started(GROUND, PLAYER)];
    collision_event(&events, GROUND, PLAYER, &mut p);
    assert_eq!(p.direction, before.direction);
    assert_eq!(p.action, before.action);
    assert_eq!(p.jump_force, before.jump_force);
    assert_eq!(p.life, before.life);
    assert!(!p.jumping);
}

#[test]
fn jump_land_and_jump_again() {
    // A whole little session: jump, float while rising, land through a ground
    // contact, and only then is a second jump accepted.
    let mut p = Player::default();
    let mut pos = Position { x: -50, y: 0 };
    let mut vel = Velocity { x: 0, y: 0 };
    let mut sprite = Sprite { flip_x: false };
    let no_events: Vec<CollisionEvent> = Vec::new();

    // Frame 1: fresh jump press.
    player_input(&mut p, InputState { left_held: false, right_held: false, jump_just_pressed: true });
    player_moviment(&mut pos, &mut vel, &mut p, &mut sprite);
    collision_event(&no_events, GROUND, PLAYER, &mut p);
    assert!(p.jumping);
    assert_eq!(vel.y, 1000);

    // Frame 2: airborne, jump key pressed again — the latch blocks it.
    player_input(&mut p, InputState { left_held: false, right_held: false, jump_just_pressed: true });
    player_moviment(&mut pos, &mut vel, &mut p, &mut sprite);
    collision_event(&no_events, GROUND, PLAYER, &mut p);
    assert!(p.jumping);
    assert_eq!(p.action, Action::Idle);

    // Frame 3: the engine reports the landing; the latch clears.
    let landing = vec![CollisionEvent::Started(GROUND, PLAYER)];
    player_input(&mut p, InputState { left_held: false, right_held: false, jump_just_pressed: false });
    player_moviment(&mut pos, &mut vel, &mut p, &mut sprite);
    collision_event(&landing, GROUND, PLAYER, &mut p);
    assert!(!p.jumping);

    // Frame 4: a new jump is accepted again.
    player_input(&mut p, InputState { left_held: false, right_held: false, jump_just_pressed: true });
    assert!(p.jumping);
    assert_eq!(p.action, Action::Jumping);
}
