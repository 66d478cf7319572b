use platformer::animator::{animate_sprite, AnimationIndices, AnimationTimer};
use platformer::timer::RepeatTimer;

#[test]
fn timer_starts_empty() {
    let t = RepeatTimer::new(400);
    assert_eq!(t.duration, 400);
    assert_eq!(t.elapsed, 0);
    assert!(!t.finished_this_tick);
}

#[test]
fn timer_completes_on_the_interval() {
    let mut t = RepeatTimer::new(100);
    t.tick(99);
    assert!(!t.finished_this_tick);
    assert_eq!(t.elapsed, 99);
    t.tick(1);
    assert!(t.finished_this_tick);
    assert_eq!(t.elapsed, 0);
}

#[test]
fn timer_keeps_the_overshoot() {
    let mut t = RepeatTimer::new(100);
    t.tick(250);
    assert!(t.finished_this_tick);
    assert_eq!(t.elapsed, 50);
    t.tick(30);
    assert!(!t.finished_this_tick);
    assert_eq!(t.elapsed, 80);
}

#[test]
fn animation_cycles_first_to_last_to_first() {
    let indices = AnimationIndices { first: 1, last: 3 };
    let mut timer = AnimationTimer(RepeatTimer::new(400));
    let mut index: usize = 1;

    let mut seen = Vec::new();
    for _ in 0..6 {
        animate_sprite(&indices, &mut timer, &mut index, 400);
        seen.push(index);
    }
    assert_eq!(seen, vec![2, 3, 1, 2, 3, 1]);
}

#[test]
fn animation_waits_for_the_countdown() {
    let indices = AnimationIndices { first: 1, last: 3 };
    let mut timer = AnimationTimer(RepeatTimer::new(400));
    let mut index: usize = 2;

    animate_sprite(&indices, &mut timer, &mut index, 150);
    assert_eq!(index, 2);
    animate_sprite(&indices, &mut timer, &mut index, 150);
    assert_eq!(index, 2);
    animate_sprite(&indices, &mut timer, &mut index, 150);
    assert_eq!(index, 3);
}

#[test]
fn animation_stays_in_range_for_odd_deltas() {
    let indices = AnimationIndices { first: 1, last: 3 };
    let mut timer = AnimationTimer(RepeatTimer::new(400));
    let mut index: usize = 1;

    let deltas: Vec<u64> = vec![0, 7, 399, 400, 801, 123, 1000, 5, 395, 4000];
    for d in deltas {
        animate_sprite(&indices, &mut timer, &mut index, d);
        assert!(indices.first <= index && index <= indices.last);
    }
}

#[test]
fn single_frame_animation_stays_put() {
    let indices = AnimationIndices { first: 2, last: 2 };
    let mut timer = AnimationTimer(RepeatTimer::new(100));
    let mut index: usize = 2;
    animate_sprite(&indices, &mut timer, &mut index, 100);
    assert_eq!(index, 2);
}
