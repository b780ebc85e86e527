use vstd::prelude::*;
use crate::geom::{Pt, SIZE_LIMIT};
use crate::input::InputKeys;
use crate::rng::Rng;
use crate::actor::{Actor, Kind};
use crate::arena::Arena;
use crate::lanes::{Raft, Crocodile, Turtle, Vehicle, Water};
use crate::frog::{Frog, spawn_pos};

verus! {

/// `n` when nonnegative, else zero: the number of iterations a spawn
/// loop bounded by `n` performs.
pub open spec fn pos_or_zero(n: i32) -> int {
    if n >= 0 {
        n as int
    } else {
        0
    }
}

/// Number of actors of kind `k` in the sequence.
pub open spec fn count_kind(s: Seq<Actor>, k: Kind) -> int
    decreases s.len(),
{
    if s.len() == 0 {
        0
    } else {
        count_kind(s.drop_last(), k) + if s.last().kind() == k {
            1int
        } else {
            0int
        }
    }
}

/// Appending one actor raises exactly its own kind's count by one.
pub proof fn lemma_count_push(s: Seq<Actor>, a: Actor)
    ensures
        forall|k: Kind| #[trigger] count_kind(s.push(a), k) == count_kind(s, k) + if a.kind() == k {
            1int
        } else {
            0int
        },
{
    assert(s.push(a).drop_last() =~= s);
}

/// A positive count yields a witness of that kind.
pub proof fn lemma_count_pos_exists(s: Seq<Actor>, k: Kind)
    requires
        count_kind(s, k) > 0,
    ensures
        exists|j: int| 0 <= j < s.len() && (#[trigger] s[j]).kind() == k,
    decreases s.len(),
{
    if s.last().kind() == k {
        assert(s[s.len() - 1].kind() == k);
    } else {
        lemma_count_pos_exists(s.drop_last(), k);
        let j = choose|j: int| 0 <= j < s.drop_last().len() && (#[trigger] s.drop_last()[j]).kind() == k;
        assert(s[j].kind() == k);
    }
}

/// Lives of the first player at or after index `i` in spawn order, or
/// zero when there is none.
pub open spec fn lives_from(s: Seq<Actor>, i: int) -> i32
    decreases s.len() - i,
{
    if i < 0 || i >= s.len() {
        0
    } else {
        match s[i] {
            Actor::Frog(f) => f.lives,
            _ => lives_from(s, i + 1),
        }
    }
}

/// Lives of the first player in spawn order, or zero with no player.
pub open spec fn spec_remaining_lives(s: Seq<Actor>) -> i32 {
    lives_from(s, 0)
}

/// When every player holds `l` lives and there is at least one at or
/// after `i`, the first-match scan returns `l`.
pub proof fn lemma_lives_from_uniform(s: Seq<Actor>, i: int, l: i32)
    requires
        0 <= i <= s.len(),
        forall|j: int| 0 <= j < s.len() && (#[trigger] s[j]) is Frog ==> s[j]->Frog_0.lives == l,
        exists|j: int| i <= j < s.len() && (#[trigger] s[j]) is Frog,
    ensures
        lives_from(s, i) == l,
    decreases s.len() - i,
{
    let w = choose|j: int| i <= j < s.len() && (#[trigger] s[j]) is Frog;
    if s[i] is Frog {
    } else {
        assert(w >= i + 1);
        lemma_lives_from_uniform(s, i + 1, l);
    }
}

/// Vertical coordinate held after scanning the first `n` actors for a
/// player, keeping the latest match; zero when none was seen.
pub open spec fn frog_y_upto(s: Seq<Actor>, n: int) -> i32
    decreases n,
{
    if n <= 0 {
        0
    } else {
        match s[n - 1] {
            Actor::Frog(f) => f.pos.y,
            _ => frog_y_upto(s, n - 1),
        }
    }
}

/// Vertical coordinate of the last player in spawn order, or zero with
/// no player.
pub open spec fn spec_frog_y(s: Seq<Actor>) -> i32 {
    frog_y_upto(s, s.len() as int)
}

/// When every player stands at vertical coordinate `y` and there is at
/// least one among the first `n` actors, the latest-match scan returns
/// `y`.
pub proof fn lemma_frog_y_uniform(s: Seq<Actor>, n: int, y: i32)
    requires
        0 <= n <= s.len(),
        forall|j: int| 0 <= j < s.len() && (#[trigger] s[j]) is Frog ==> s[j]->Frog_0.pos.y == y,
        exists|j: int| 0 <= j < n && (#[trigger] s[j]) is Frog,
    ensures
        frog_y_upto(s, n) == y,
    decreases n,
{
    let w = choose|j: int| 0 <= j < n && (#[trigger] s[j]) is Frog;
    if s[n - 1] is Frog {
    } else {
        assert(w <= n - 2);
        lemma_frog_y_uniform(s, n - 1, y);
    }
}

/// What the level generator guarantees of every actor it places.
pub open spec fn generated_ok(a: Actor, size: Pt) -> bool {
    match a {
        Actor::Water(w) => w.pos == (Pt { x: 0, y: 32 }),
        Actor::Vehicle(v) => {
            &&& (1 <= v.speed <= 5 || -5 <= v.speed <= -1)
            &&& 256 <= v.pos.y <= 384
            &&& 0 <= v.pos.x <= 300_000
        },
        Actor::Turtle(t) => {
            &&& -3 <= t.speed <= -1
            &&& 1 <= t.sprite_tick <= 10
            &&& t.under_water == (t.sprite_tick % 2 == 0)
            &&& t.new_sprite == 0
            &&& 32 <= t.pos.y <= 192
            &&& 0 <= t.pos.x <= 300_100
        },
        Actor::Raft(r) => {
            &&& 1 <= r.speed <= 3
            &&& 32 <= r.pos.y <= 192
            &&& 0 <= r.pos.x <= 300_000
        },
        Actor::Crocodile(c) => {
            &&& 1 <= c.speed <= 3
            &&& 32 <= c.pos.y <= 192
            &&& 0 <= c.pos.x <= 300_000
        },
        Actor::Frog(f) => f == Frog::spec_new(spawn_pos(size)),
    }
}

/// The generator guarantee carries over a spawn.
proof fn lemma_generated_push(s: Seq<Actor>, a: Actor, size: Pt)
    requires
        forall|i: int| 0 <= i < s.len() ==> generated_ok(#[trigger] s[i], size),
        generated_ok(a, size),
    ensures
        forall|i: int| 0 <= i < s.push(a).len() ==> generated_ok(#[trigger] s.push(a)[i], size),
{
    assert forall|i: int| 0 <= i < s.push(a).len() implies generated_ok(s.push(a)[i], size) by {
        if i < s.len() {
            assert(s.push(a)[i] == s[i]);
        } else {
            assert(s.push(a)[i] == a);
        }
    }
}

/// Advancing an actor never changes its variant.
proof fn lemma_advance1_kind(a: Actor, others: Seq<Actor>, asize: Pt, keys: InputKeys)
    ensures
        a.advance1(others, asize, keys).kind() == a.kind(),
{
}

/// How one tick relates each index to the starting sequence: actors at
/// or past `n` are untouched, and each actor before `n` was advanced
/// exactly once, against the collision set computed at its own turn.
proof fn lemma_run_steps_frame(s: Seq<Actor>, asize: Pt, keys: InputKeys, n: int)
    requires
        0 <= n <= s.len(),
    ensures
        Arena::run_steps(s, asize, keys, n).len() == s.len(),
        forall|idx: int|
            n <= idx < s.len() ==> #[trigger] Arena::run_steps(s, asize, keys, n)[idx] == s[idx],
        forall|idx: int|
            0 <= idx < n ==> #[trigger] Arena::run_steps(s, asize, keys, n)[idx] == s[idx].advance1(
                crate::arena::collisions_of(Arena::run_steps(s, asize, keys, idx), idx),
                asize,
                keys,
            ),
    decreases n,
{
    if n > 0 {
        lemma_run_steps_frame(s, asize, keys, n - 1);
    }
}

/// A first-player-lives scan over a kind-for-kind equal sequence whose
/// players each hold no more lives cannot report more lives.
proof fn lemma_lives_from_mono(s: Seq<Actor>, t: Seq<Actor>, i: int)
    requires
        s.len() == t.len(),
        0 <= i <= s.len(),
        forall|idx: int| 0 <= idx < s.len() ==> (#[trigger] t[idx]).kind() == s[idx].kind(),
        forall|idx: int|
            0 <= idx < s.len() && (#[trigger] s[idx]) is Frog ==> t[idx]->Frog_0.lives
                <= s[idx]->Frog_0.lives,
    ensures
        lives_from(t, i) <= lives_from(s, i),
    decreases s.len() - i,
{
    if i < s.len() {
        if s[i] is Frog {
            assert(t[i].kind() == Kind::Frog);
            assert(t[i] is Frog);
        } else {
            assert(t[i].kind() != Kind::Frog);
            assert(!(t[i] is Frog));
            lemma_lives_from_mono(s, t, i + 1);
        }
    }
}

/// Monotonic lives at the game level: across any tick, the remaining
/// lives reported by the facade never increase, whatever the actors,
/// the collisions and the keys.
pub proof fn lemma_remaining_lives_monotonic(s: Seq<Actor>, asize: Pt, keys: InputKeys)
    ensures
        spec_remaining_lives(Arena::spec_tick(s, asize, keys)) <= spec_remaining_lives(s),
{
    let t = Arena::spec_tick(s, asize, keys);
    lemma_run_steps_frame(s, asize, keys, s.len() as int);
    assert forall|idx: int| 0 <= idx < s.len() implies (#[trigger] t[idx]).kind() == s[idx].kind() by {
        lemma_advance1_kind(
            s[idx],
            crate::arena::collisions_of(Arena::run_steps(s, asize, keys, idx), idx),
            asize,
            keys,
        );
    }
    assert forall|idx: int|
        0 <= idx < s.len() && (#[trigger] s[idx]) is Frog implies t[idx]->Frog_0.lives
        <= s[idx]->Frog_0.lives by {
        let cs = crate::arena::collisions_of(Arena::run_steps(s, asize, keys, idx), idx);
        crate::frog::lemma_lives_monotonic(s[idx]->Frog_0, cs, asize, keys);
    }
    lemma_lives_from_mono(s, t, 0);
}

/// The facade: builds an arena from difficulty parameters and a seed for
/// the random source, exposes the tick entry point and the win/loss
/// queries.
pub struct BounceGame {
    pub arena: Arena,
}

/// Invariant of the level generator: a well-formed arena whose first
/// actor is the water zone and whose every actor meets the generator's
/// per-kind guarantee.
pub open spec fn gen_inv(arena: Arena, size: Pt) -> bool {
    &&& arena.wf()
    &&& arena.size == size
    &&& arena.actors@.len() >= 1
    &&& arena.actors@[0] == Actor::Water(Water { pos: Pt { x: 0, y: 32 } })
    &&& forall|m: int| 0 <= m < arena.actors@.len() ==> generated_ok(#[trigger] arena.actors@[m], size)
    &&& count_kind(arena.actors@, Kind::Water) == 1
}

impl BounceGame {
    pub open spec fn wf(self) -> bool {
        self.arena.wf()
    }

    /// Builds a level: the water zone, five vehicle lanes with
    /// alternating direction, and six river lanes — turtle groups on the
    /// even lanes, rafts and crocodiles on the odd ones — spawning a
    /// player after each river lane.  All randomized choices are drawn
    /// from the seeded random source, so construction is deterministic
    /// modulo the seed.
    #[verifier::loop_isolation(false)]
    #[verifier::rlimit(100)]
    pub fn new(size: Pt, nvehicles: i32, nrafts: i32, nturtles: i32, seed: u64) -> (r: BounceGame)
        requires
            0 <= size.x <= SIZE_LIMIT,
            0 <= size.y <= SIZE_LIMIT,
            nvehicles <= 1000,
            nrafts <= 1000,
            nturtles <= 1000,
        ensures
            r.wf(),
            r.arena.size == size,
            gen_inv(r.arena, size),
            count_kind(r.arena.actors@, Kind::Frog) == 6,
            count_kind(r.arena.actors@, Kind::Vehicle) == 5 * pos_or_zero(nvehicles),
            count_kind(r.arena.actors@, Kind::Raft) + count_kind(r.arena.actors@, Kind::Crocodile)
                == 3 * pos_or_zero(nrafts),
            6 * pos_or_zero(nturtles) <= count_kind(r.arena.actors@, Kind::Turtle) <= 9 * pos_or_zero(
                nturtles,
            ),
            spec_remaining_lives(r.arena.actors@) == 5,
            spec_frog_y(r.arena.actors@) == ((size.y - 32) as i32),
    {
        let mut rng = Rng::new(seed);
        let mut arena = Arena::new(size);
        let ghost s_empty = arena.actors@;
        let w0 = Water::new(Pt { x: 0, y: 32 });
        arena.spawn(Actor::Water(w0));
        proof {
            lemma_count_push(s_empty, Actor::Water(w0));
            lemma_generated_push(s_empty, Actor::Water(w0), size);
        }
        let mut i: i32 = 0;
        while i < 5
            invariant
                0 <= i <= 5,
                rng.wf(),
                gen_inv(arena, size),
                count_kind(arena.actors@, Kind::Frog) == 0,
                count_kind(arena.actors@, Kind::Raft) == 0,
                count_kind(arena.actors@, Kind::Crocodile) == 0,
                count_kind(arena.actors@, Kind::Turtle) == 0,
                count_kind(arena.actors@, Kind::Vehicle) == i * pos_or_zero(nvehicles),
            decreases 5 - i,
        {
            let mut position: i32 = 0;
            let mut speed = rng.randint(1, 5);
            if i % 2 != 0 {
                speed = -speed;
            }
            let mut j: i32 = 0;
            while j < nvehicles
                invariant
                    0 <= j <= pos_or_zero(nvehicles),
                    0 <= i < 5,
                    rng.wf(),
                    gen_inv(arena, size),
                    1 <= speed <= 5 || -5 <= speed <= -1,
                    0 <= position <= 250 * j,
                    count_kind(arena.actors@, Kind::Frog) == 0,
                    count_kind(arena.actors@, Kind::Raft) == 0,
                    count_kind(arena.actors@, Kind::Crocodile) == 0,
                    count_kind(arena.actors@, Kind::Turtle) == 0,
                    count_kind(arena.actors@, Kind::Vehicle) == i * pos_or_zero(nvehicles) + j,
                decreases nvehicles - j,
            {
                let car = rng.randint(0, 1);
                let ghost s0 = arena.actors@;
                let v = Vehicle::new(Pt { x: position, y: 384 - 32 * i }, car == 1, speed, &mut rng);
                arena.spawn(Actor::Vehicle(v));
                proof {
                    lemma_count_push(s0, Actor::Vehicle(v));
                    lemma_generated_push(s0, Actor::Vehicle(v), size);
                }
                position = position + rng.randint(70, 250);
                j = j + 1;
            }
            proof {
                assert((i + 1) * pos_or_zero(nvehicles) == i * pos_or_zero(nvehicles) + pos_or_zero(
                    nvehicles,
                )) by (nonlinear_arith);
            }
            i = i + 1;
        }
        let mut i: i32 = 0;
        proof {
            assert(2 * ((i + 1) / 2) * pos_or_zero(nturtles) == 0 && 3 * ((i + 1) / 2) * pos_or_zero(
                nturtles,
            ) == 0) by (nonlinear_arith)
                requires
                    i == 0,
            ;
        }
        while i < 6
            invariant
                0 <= i <= 6,
                rng.wf(),
                gen_inv(arena, size),
                count_kind(arena.actors@, Kind::Frog) == i,
                count_kind(arena.actors@, Kind::Vehicle) == 5 * pos_or_zero(nvehicles),
                count_kind(arena.actors@, Kind::Raft) + count_kind(arena.actors@, Kind::Crocodile)
                    == (i / 2) * pos_or_zero(nrafts),
                2 * ((i + 1) / 2) * pos_or_zero(nturtles) <= count_kind(arena.actors@, Kind::Turtle)
                    <= 3 * ((i + 1) / 2) * pos_or_zero(nturtles),
            decreases 6 - i,
        {
            let mut position: i32 = 0;
            let speed = rng.randint(1, 3);
            let ghost t_lane = count_kind(arena.actors@, Kind::Turtle);
            let ghost rc_lane = count_kind(arena.actors@, Kind::Raft) + count_kind(
                arena.actors@,
                Kind::Crocodile,
            );
            if i % 2 == 0 {
                let mut j: i32 = 0;
                while j < nturtles
                    invariant
                        0 <= j <= pos_or_zero(nturtles),
                        0 <= i < 6,
                        rng.wf(),
                        gen_inv(arena, size),
                        1 <= speed <= 3,
                        0 <= position <= 250 * j,
                        count_kind(arena.actors@, Kind::Frog) == i,
                        count_kind(arena.actors@, Kind::Vehicle) == 5 * pos_or_zero(nvehicles),
                        count_kind(arena.actors@, Kind::Raft) + count_kind(arena.actors@, Kind::Crocodile)
                            == rc_lane,
                        t_lane + 2 * j <= count_kind(arena.actors@, Kind::Turtle) <= t_lane + 3 * j,
                    decreases nturtles - j,
                {
                    let sprite_tick = rng.randint(1, 10);
                    let under_water = sprite_tick % 2 == 0;
                    let group = rng.randint(2, 3);
                    let ghost t_group = count_kind(arena.actors@, Kind::Turtle);
                    let mut n: i32 = 0;
                    while n < group
                        invariant
                            0 <= n <= group,
                            2 <= group <= 3,
                            0 <= i < 6,
                            0 <= j < pos_or_zero(nturtles),
                            rng.wf(),
                            gen_inv(arena, size),
                            1 <= speed <= 3,
                            1 <= sprite_tick <= 10,
                            under_water == (sprite_tick % 2 == 0),
                            0 <= position <= 250 * j,
                            count_kind(arena.actors@, Kind::Frog) == i,
                            count_kind(arena.actors@, Kind::Vehicle) == 5 * pos_or_zero(nvehicles),
                            count_kind(arena.actors@, Kind::Raft) + count_kind(
                                arena.actors@,
                                Kind::Crocodile,
                            ) == rc_lane,
                            count_kind(arena.actors@, Kind::Turtle) == t_group + n,
                            t_lane + 2 * j <= t_group <= t_lane + 3 * j,
                        decreases group - n,
                    {
                        let ghost s0 = arena.actors@;
                        let t = Turtle::new(
                            Pt { x: position + 32 * n, y: 192 - 32 * i },
                            -speed,
                            under_water,
                            sprite_tick,
                        );
                        arena.spawn(Actor::Turtle(t));
                        proof {
                            lemma_count_push(s0, Actor::Turtle(t));
                            lemma_generated_push(s0, Actor::Turtle(t), size);
                        }
                        n = n + 1;
                    }
                    position = position + rng.randint(100, 250);
                    j = j + 1;
                }
            } else {
                let mut j: i32 = 0;
                while j < nrafts
                    invariant
                        0 <= j <= pos_or_zero(nrafts),
                        0 <= i < 6,
                        rng.wf(),
                        gen_inv(arena, size),
                        1 <= speed <= 3,
                        0 <= position <= 250 * j,
                        count_kind(arena.actors@, Kind::Frog) == i,
                        count_kind(arena.actors@, Kind::Vehicle) == 5 * pos_or_zero(nvehicles),
                        count_kind(arena.actors@, Kind::Turtle) == t_lane,
                        count_kind(arena.actors@, Kind::Raft) + count_kind(arena.actors@, Kind::Crocodile)
                            == rc_lane + j,
                    decreases nrafts - j,
                {
                    let choice = rng.randint(0, 1);
                    let ghost s0 = arena.actors@;
                    if choice == 0 {
                        let c = Crocodile::new(Pt { x: position, y: 192 - 32 * i }, speed);
                        arena.spawn(Actor::Crocodile(c));
                        proof {
                            lemma_count_push(s0, Actor::Crocodile(c));
                            lemma_generated_push(s0, Actor::Crocodile(c), size);
                        }
                    } else {
                        let rf = Raft::new(Pt { x: position, y: 192 - 32 * i }, speed);
                        arena.spawn(Actor::Raft(rf));
                        proof {
                            lemma_count_push(s0, Actor::Raft(rf));
                            lemma_generated_push(s0, Actor::Raft(rf), size);
                        }
                    }
                    position = position + rng.randint(100, 250);
                    j = j + 1;
                }
            }
            let ghost s0 = arena.actors@;
            let f = Frog::new(Pt { x: size.x / 2, y: size.y - 32 });
            arena.spawn(Actor::Frog(f));
            proof {
                lemma_count_push(s0, Actor::Frog(f));
                lemma_generated_push(s0, Actor::Frog(f), size);
                if i % 2 == 0 {
                    assert(2 * ((i + 2) / 2) * pos_or_zero(nturtles) <= count_kind(
                        arena.actors@,
                        Kind::Turtle,
                    ) <= 3 * ((i + 2) / 2) * pos_or_zero(nturtles)) by (nonlinear_arith)
                        requires
                            t_lane + 2 * pos_or_zero(nturtles) <= count_kind(arena.actors@, Kind::Turtle)
                                <= t_lane + 3 * pos_or_zero(nturtles),
                            2 * ((i + 1) / 2) * pos_or_zero(nturtles) <= t_lane <= 3 * ((i + 1) / 2)
                                * pos_or_zero(nturtles),
                            i % 2 == 0,
                            0 <= i < 6,
                    ;
                } else {
                    assert(((i + 1) / 2) * pos_or_zero(nrafts) == (i / 2) * pos_or_zero(nrafts)
                        + pos_or_zero(nrafts)) by (nonlinear_arith)
                        requires
                            i % 2 == 1,
                            0 <= i < 6,
                    ;
                }
            }
            i = i + 1;
        }
        proof {
            lemma_count_pos_exists(arena.actors@, Kind::Frog);
            let wi = choose|j: int|
                0 <= j < arena.actors@.len() && (#[trigger] arena.actors@[j]).kind() == Kind::Frog;
            assert(arena.actors@[wi] is Frog);
            assert forall|j: int|
                0 <= j < arena.actors@.len() && (#[trigger] arena.actors@[j]) is Frog implies arena.actors@[j]->Frog_0.lives
                == 5 by {
                assert(generated_ok(arena.actors@[j], size));
            }
            lemma_lives_from_uniform(arena.actors@, 0, 5);
            lemma_frog_y_uniform(arena.actors@, arena.actors@.len() as int, (size.y - 32) as i32);
        }
        BounceGame { arena }
    }

    pub fn game_over(&self) -> (r: bool)
        ensures
            r == (spec_remaining_lives(self.arena.actors@) == 0),
    {
        self.remaining_lives() == 0
    }

    pub fn game_won(&self) -> (r: bool)
        ensures
            r == (spec_frog_y(self.arena.actors@) == 0),
    {
        let mut position: i32 = 0;
        let actors = self.arena.actors();
        let n = actors.len();
        let mut i: usize = 0;
        while i < n
            invariant
                i <= n,
                n == actors@.len(),
                actors@ == self.arena.actors@,
                position == frog_y_upto(actors@, i as int),
            decreases n - i,
        {
            match actors[i] {
                Actor::Frog(f) => {
                    position = f.pos.y;
                },
                _ => {},
            }
            i = i + 1;
        }
        position == 0
    }

    pub fn remaining_lives(&self) -> (r: i32)
        ensures
            r == spec_remaining_lives(self.arena.actors@),
    {
        let actors = self.arena.actors();
        let n = actors.len();
        let mut i: usize = 0;
        while i < n
            invariant
                i <= n,
                n == actors@.len(),
                actors@ == self.arena.actors@,
                lives_from(actors@, 0) == lives_from(actors@, i as int),
            decreases n - i,
        {
            match actors[i] {
                Actor::Frog(f) => {
                    return f.lives;
                },
                _ => {},
            }
            i = i + 1;
        }
        0
    }

    /// Advances the simulation by one frame.
    pub fn tick(&mut self, keys: InputKeys)
        requires
            old(self).wf(),
        ensures
            final(self).wf(),
            final(self).arena.size == old(self).arena.size,
            final(self).arena.actors@ == Arena::spec_tick(
                old(self).arena.actors@,
                old(self).arena.size,
                keys,
            ),
    {
        self.arena.tick(keys);
    }

    pub fn size(&self) -> (r: Pt)
        ensures
            r == self.arena.size,
    {
        self.arena.size()
    }

    pub fn actors(&self) -> (r: &Vec<Actor>)
        ensures
            r@ == self.arena.actors@,
    {
        self.arena.actors()
    }
}

} // verus!
