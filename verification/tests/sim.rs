use froggergame::actor::Actor;
use froggergame::arena::Arena;
use froggergame::frog::Frog;
use froggergame::game::BounceGame;
use froggergame::geom::{pt, Pt};
use froggergame::input::{Direction, InputKeys};
use froggergame::lanes::{Crocodile, Raft, Turtle, Vehicle, Water};
use froggergame::rng::Rng;

fn keys(up: bool, down: bool, left: bool, right: bool) -> InputKeys {
    InputKeys { up, down, left, right }
}

fn frog_at(arena: &Arena, i: usize) -> Frog {
    match &arena.actors()[i] {
        Actor::Frog(f) => *f,
        _ => panic!("actor {} is not the player", i),
    }
}

#[test]
fn single_up_press_quantized() {
    let mut arena = Arena::new(pt(640, 448));
    arena.spawn(Actor::Frog(Frog::new(pt(320, 416))));
    arena.tick(keys(true, false, false, false));
    let f = frog_at(&arena, 0);
    assert_eq!(f.pos, pt(320, 400));
    assert_eq!(f.count_steps(), 16);
    arena.tick(InputKeys::none());
    let f = frog_at(&arena, 0);
    assert_eq!(f.pos, pt(320, 384));
    assert_eq!(f.count_steps(), 0);
}

#[test]
fn lock_blocks_new_input_until_step_done() {
    let mut arena = Arena::new(pt(640, 448));
    arena.spawn(Actor::Frog(Frog::new(pt(320, 416))));
    arena.tick(keys(true, false, false, false));
    // The lock is still armed: a new direction is ignored this tick.
    arena.tick(keys(false, false, false, true));
    let f = frog_at(&arena, 0);
    assert_eq!(f.pos, pt(320, 384));
    assert_eq!(f.direction(), Direction::Up);
    assert_eq!(f.count_steps(), 0);
    // The lock is clear: the new direction is accepted.
    arena.tick(keys(false, false, false, true));
    let f = frog_at(&arena, 0);
    assert_eq!(f.pos, pt(336, 384));
    assert_eq!(f.direction(), Direction::Right);
}

#[test]
fn up_beats_down_in_priority() {
    let mut arena = Arena::new(pt(640, 448));
    arena.spawn(Actor::Frog(Frog::new(pt(320, 416))));
    arena.tick(keys(true, true, true, true));
    let f = frog_at(&arena, 0);
    assert_eq!(f.direction(), Direction::Up);
    assert_eq!(f.pos, pt(320, 400));
}

#[test]
fn carrier_drag_moves_player() {
    let mut arena = Arena::new(pt(640, 448));
    arena.spawn(Actor::Raft(Raft::new(pt(300, 416), 2)));
    arena.spawn(Actor::Frog(Frog::new(pt(320, 416))));
    arena.tick(InputKeys::none());
    let f = frog_at(&arena, 1);
    assert!(f.on_raft());
    assert_eq!(f.pos.x, 322);
    assert_eq!(f.pos.y, 416);
    assert_eq!(f.lives(), 5);
}

#[test]
fn crocodile_carries_like_raft() {
    let mut arena = Arena::new(pt(640, 448));
    arena.spawn(Actor::Crocodile(Crocodile::new(pt(300, 416), 3)));
    arena.spawn(Actor::Frog(Frog::new(pt(320, 416))));
    arena.tick(InputKeys::none());
    let f = frog_at(&arena, 1);
    assert!(f.on_raft());
    assert_eq!(f.pos.x, 323);
}

#[test]
fn water_without_carrier_drowns() {
    let mut arena = Arena::new(pt(640, 448));
    arena.spawn(Actor::Water(Water::new(pt(0, 32))));
    arena.spawn(Actor::Frog(Frog::new(pt(320, 100))));
    arena.tick(InputKeys::none());
    let f = frog_at(&arena, 1);
    assert_eq!(f.lives(), 4);
    assert_eq!(f.pos, pt(320, 416));
    assert_eq!(f.direction(), Direction::Up);
    assert_eq!(f.count_steps(), 0);
}

#[test]
fn surfaced_turtle_keeps_player_afloat() {
    let mut arena = Arena::new(pt(640, 448));
    arena.spawn(Actor::Water(Water::new(pt(0, 32))));
    // Offset 1: after its first advance the counter sits in the first
    // surface window, so the turtle supports the player.
    arena.spawn(Actor::Turtle(Turtle::new(pt(300, 100), -1, false, 1)));
    arena.spawn(Actor::Frog(Frog::new(pt(320, 100))));
    arena.tick(InputKeys::none());
    let f = frog_at(&arena, 2);
    assert_eq!(f.lives(), 5);
    assert!(f.on_raft());
    assert_eq!(f.pos.x, 319);
}

#[test]
fn submerged_turtle_gives_no_support() {
    let mut arena = Arena::new(pt(640, 448));
    arena.spawn(Actor::Water(Water::new(pt(0, 32))));
    // Offset 5: after one advance the counter is still below the offset,
    // the cue is "none", and the player drowns.
    arena.spawn(Actor::Turtle(Turtle::new(pt(300, 100), -1, true, 5)));
    arena.spawn(Actor::Frog(Frog::new(pt(320, 100))));
    arena.tick(InputKeys::none());
    let f = frog_at(&arena, 2);
    assert_eq!(f.lives(), 4);
    assert_eq!(f.pos, pt(320, 416));
}

#[test]
fn vehicle_collision_kills_and_respawns() {
    let mut arena = Arena::new(pt(640, 448));
    let mut rng = Rng::new(1);
    arena.spawn(Actor::Vehicle(Vehicle::new(pt(300, 416), true, 1, &mut rng)));
    arena.spawn(Actor::Frog(Frog::new(pt(320, 416))));
    arena.tick(InputKeys::none());
    let f = frog_at(&arena, 1);
    assert_eq!(f.lives(), 4);
    assert_eq!(f.pos, pt(320, 416));
    assert_eq!(f.direction(), Direction::Up);
}

#[test]
fn offtrack_drift_kills_and_respawns() {
    let mut arena = Arena::new(pt(640, 448));
    arena.spawn(Actor::Water(Water::new(pt(0, 32))));
    arena.spawn(Actor::Raft(Raft::new(pt(600, 100), 30)));
    arena.spawn(Actor::Frog(Frog::new(pt(620, 100))));
    arena.tick(InputKeys::none());
    let f = frog_at(&arena, 2);
    assert_eq!(f.lives(), 4);
    assert_eq!(f.pos, pt(320, 416));
}

#[test]
fn lane_actor_wraps_left_edge() {
    let mut arena = Arena::new(pt(640, 448));
    arena.spawn(Actor::Raft(Raft::new(pt(-301, 100), 3)));
    arena.tick(InputKeys::none());
    match &arena.actors()[0] {
        Actor::Raft(r) => assert_eq!(r.pos, pt(943, 100)),
        _ => panic!("expected the raft"),
    }
}

#[test]
fn lane_actor_wraps_right_edge() {
    let mut arena = Arena::new(pt(640, 448));
    let mut rng = Rng::new(9);
    arena.spawn(Actor::Vehicle(Vehicle::new(pt(941, 384), true, -4, &mut rng)));
    arena.tick(InputKeys::none());
    match &arena.actors()[0] {
        Actor::Vehicle(v) => assert_eq!(v.pos, pt(-304, 384)),
        _ => panic!("expected the vehicle"),
    }
}

#[test]
fn lane_actor_stays_in_wrap_band() {
    let mut arena = Arena::new(pt(640, 448));
    arena.spawn(Actor::Raft(Raft::new(pt(0, 100), 7)));
    for _ in 0..500 {
        arena.tick(InputKeys::none());
        match &arena.actors()[0] {
            Actor::Raft(r) => {
                assert!(-300 - 7 <= r.pos.x && r.pos.x <= 640 + 300 + 7);
            },
            _ => panic!("expected the raft"),
        }
    }
}

fn turtle_cue(arena: &Arena) -> Option<Pt> {
    match &arena.actors()[0] {
        Actor::Turtle(t) => t.sprite(),
        _ => panic!("expected the turtle"),
    }
}

#[test]
fn turtle_surface_cycle_has_period_sixty() {
    // Submersion disabled, offset 2, frame duration 20: the visual-cue
    // sequence repeats every 3 * 20 ticks.
    let mut arena = Arena::new(pt(640, 448));
    arena.spawn(Actor::Turtle(Turtle::new(pt(0, 100), -1, false, 2)));
    let mut cues = Vec::new();
    for _ in 0..180 {
        arena.tick(InputKeys::none());
        cues.push(turtle_cue(&arena));
    }
    // The first tick is transient (the counter starts below the offset);
    // from then on the sequence is periodic.
    for t in 61..180 {
        assert_eq!(cues[t], cues[t - 60]);
    }
    // Three distinct surface poses show up; the creature never submerges
    // once past its initial offset.
    assert_eq!(cues[2], Some(pt(256, 128)));
    assert_eq!(cues[22], Some(pt(224, 128)));
    assert_eq!(cues[42], Some(pt(192, 128)));
    assert_eq!(cues[61], Some(pt(256, 128)));
}

#[test]
fn turtle_submerging_cycle_shows_all_windows() {
    // Submersion enabled, offset 1: five surface poses, then a window
    // with no cue, repeating with period 6 * 20 + 1.
    let mut arena = Arena::new(pt(640, 448));
    arena.spawn(Actor::Turtle(Turtle::new(pt(0, 100), -1, true, 1)));
    let mut cues = Vec::new();
    for _ in 0..300 {
        arena.tick(InputKeys::none());
        cues.push(turtle_cue(&arena));
    }
    assert_eq!(cues[0], Some(pt(256, 128)));
    assert_eq!(cues[20], Some(pt(224, 128)));
    assert_eq!(cues[40], Some(pt(192, 128)));
    assert_eq!(cues[60], Some(pt(192, 160)));
    assert_eq!(cues[80], Some(pt(224, 160)));
    assert_eq!(cues[100], None);
    assert_eq!(cues[120], None);
    for t in 121..300 {
        assert_eq!(cues[t], cues[t - 121]);
    }
}

#[test]
fn vehicle_cues_follow_type_and_direction() {
    let mut rng = Rng::new(3);
    let car = Vehicle::new(pt(0, 384), true, 2, &mut rng);
    let y = if car.car_type == 8 { 32 } else { 0 };
    assert_eq!(car.sprite(), Some(pt(car.car_type * 32, y)));
    let truck_right = Vehicle::new(pt(0, 384), false, 2, &mut rng);
    assert_eq!(truck_right.sprite(), Some(pt(256, 64)));
    let truck_left = Vehicle::new(pt(0, 384), false, -2, &mut rng);
    assert_eq!(truck_left.sprite(), Some(pt(192, 64)));
}

#[test]
fn player_cue_uses_positional_parity() {
    let f = Frog::new(pt(320, 416));
    // Facing up at y = 416: parity 416 % 3 == 2 picks the third frame.
    assert_eq!(f.sprite(), Some(pt(64, 0)));
    let mut g = Frog::new(pt(321, 416));
    g.direction = Direction::Left;
    // Facing left with no drag at x = 321: parity 0 picks x offset 96.
    assert_eq!(g.sprite(), Some(pt(96, 0)));
    g.drag = 2;
    // With drag armed the single riding pose is used.
    assert_eq!(g.sprite(), Some(pt(96, 0)));
    g.drag = 0;
    g.pos = pt(322, 416);
    // Parity 322 % 3 == 1 picks the second frame.
    assert_eq!(g.sprite(), Some(pt(96 + 32, 0)));
}

#[test]
fn rng_draws_stay_in_range_and_repeat_by_seed() {
    let mut a = Rng::new(12345);
    let mut b = Rng::new(12345);
    for _ in 0..200 {
        let x = a.randint(-7, 9);
        let y = b.randint(-7, 9);
        assert!(-7 <= x && x <= 9);
        assert_eq!(x, y);
    }
    let mut c = Rng::new(1);
    let mut seen_different = false;
    for _ in 0..50 {
        if c.randint(0, 99) != a.randint(0, 99) {
            seen_different = true;
        }
    }
    assert!(seen_different);
}
