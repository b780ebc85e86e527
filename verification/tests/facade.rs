use froggergame::actor::Actor;
use froggergame::arena::Arena;
use froggergame::frog::Frog;
use froggergame::game::BounceGame;
use froggergame::geom::pt;
use froggergame::input::InputKeys;

fn press_up() -> InputKeys {
    InputKeys { up: true, down: false, left: false, right: false }
}

#[test]
fn generator_populates_level() {
    let game = BounceGame::new(pt(640, 448), 2, 5, 5, 42);
    assert_eq!(game.size(), pt(640, 448));
    let actors = game.actors();
    match &actors[0] {
        Actor::Water(w) => assert_eq!(w.pos, pt(0, 32)),
        _ => panic!("the water zone must come first"),
    }
    let mut frogs = 0;
    let mut vehicles = 0;
    let mut rafts_crocs = 0;
    let mut turtles = 0;
    let mut waters = 0;
    for a in actors {
        match a {
            Actor::Frog(f) => {
                frogs += 1;
                assert_eq!(f.pos, pt(320, 416));
                assert_eq!(f.lives(), 5);
            },
            Actor::Vehicle(v) => {
                vehicles += 1;
                let s = v.speed;
                assert!((1 <= s && s <= 5) || (-5 <= s && s <= -1));
            },
            Actor::Raft(r) => {
                rafts_crocs += 1;
                assert!(1 <= r.speed && r.speed <= 3);
            },
            Actor::Crocodile(c) => {
                rafts_crocs += 1;
                assert!(1 <= c.speed && c.speed <= 3);
            },
            Actor::Turtle(t) => {
                turtles += 1;
                assert!(-3 <= t.speed && t.speed <= -1);
                assert!(1 <= t.sprite_tick && t.sprite_tick <= 10);
            },
            Actor::Water(_) => {
                waters += 1;
            },
        }
    }
    assert_eq!(frogs, 6);
    assert_eq!(waters, 1);
    assert_eq!(vehicles, 5 * 2);
    assert_eq!(rafts_crocs, 3 * 5);
    assert!(6 * 5 <= turtles && turtles <= 9 * 5);
    assert_eq!(game.remaining_lives(), 5);
    assert!(!game.game_over());
    assert!(!game.game_won());
}

#[test]
fn generator_with_zero_densities() {
    let game = BounceGame::new(pt(640, 448), 0, 0, 0, 7);
    // Only the water zone and the six players remain.
    assert_eq!(game.actors().len(), 7);
    assert_eq!(game.remaining_lives(), 5);
}

#[test]
fn lives_never_increase_over_ticks() {
    let mut game = BounceGame::new(pt(640, 448), 3, 4, 4, 99);
    let mut last = game.remaining_lives();
    for t in 0..120 {
        let k = InputKeys {
            up: t % 3 == 0,
            down: t % 5 == 0,
            left: t % 7 == 0,
            right: t % 2 == 0,
        };
        game.tick(k);
        let now = game.remaining_lives();
        assert!(now <= last);
        last = now;
    }
}

#[test]
fn win_iff_player_reaches_top_row() {
    let mut arena = Arena::new(pt(640, 448));
    arena.spawn(Actor::Frog(Frog::new(pt(320, 32))));
    let mut game = BounceGame { arena };
    assert!(!game.game_won());
    game.tick(press_up());
    assert!(!game.game_won());
    game.tick(InputKeys::none());
    assert!(game.game_won());
}

#[test]
fn last_player_decides_win_first_decides_lives() {
    let mut arena = Arena::new(pt(640, 448));
    let mut first = Frog::new(pt(320, 0));
    first.lives = 3;
    arena.spawn(Actor::Frog(first));
    arena.spawn(Actor::Frog(Frog::new(pt(320, 416))));
    let game = BounceGame { arena };
    // The win scan keeps the last player; the lives scan stops at the
    // first.
    assert!(!game.game_won());
    assert_eq!(game.remaining_lives(), 3);
}

#[test]
fn game_over_iff_lives_exhausted() {
    let mut arena = Arena::new(pt(640, 448));
    let mut f = Frog::new(pt(320, 416));
    f.lives = 0;
    arena.spawn(Actor::Frog(f));
    let game = BounceGame { arena };
    assert!(game.game_over());
    assert_eq!(game.remaining_lives(), 0);
}
