use vstd::prelude::*;
use crate::geom::{Pt, POS_LIMIT, PLAYER_POS_LIMIT, SPEED_LIMIT, SIZE_LIMIT};
use crate::input::{Direction, InputKeys};
use crate::actor::Actor;

verus! {

/// Full length of one player step, in pixels.
pub const STEP_MAGNITUDE: i32 = 32;

/// Per-tick decrement of the movement lock; a full step takes
/// `STEP_MAGNITUDE / STEP_DECREMENT` ticks, moving `STEP_DECREMENT`
/// pixels on each of them.
pub const STEP_DECREMENT: i32 = 16;

/// Where the player (re)spawns: bottom centre of the arena.
pub open spec fn spawn_pos(asize: Pt) -> Pt {
    Pt { x: (asize.x as int / 2) as i32, y: (asize.y - 32) as i32 }
}

/// One life lost.  The counter may pass zero (the host stops driving
/// ticks at game over) and bottoms out only at the machine limit.
pub open spec fn dec_lives(l: i32) -> i32 {
    if l == i32::MIN {
        l
    } else {
        (l - 1) as i32
    }
}

/// Clamp of `v` into `[lo, hi]`, taking the lower bound first, exactly as
/// the boundary policy applies it.
pub open spec fn clamp_i(v: int, lo: int, hi: int) -> int {
    let m = if v >= lo {
        v
    } else {
        lo
    };
    if m <= hi {
        m
    } else {
        hi
    }
}

/// Truncating remainder by 3, mirroring machine division on possibly
/// negative coordinates.
pub open spec fn parity3(v: int) -> int {
    if v >= 0 {
        v % 3
    } else {
        -((-v) % 3)
    }
}

/// The player: position, a movement lock quantizing steps, a lives
/// counter, a one-shot horizontal drag applied by carriers, and two
/// per-tick flags recomputed from scratch on every tick.
#[derive(Clone, Copy, PartialEq, Eq, Structural, Debug)]
pub struct Frog {
    pub pos: Pt,
    pub step: Pt,
    pub speed: i32,
    pub lives: i32,
    pub count_steps: i32,
    pub drag: i32,
    pub on_raft: bool,
    pub on_water: bool,
    pub direction: Direction,
}

impl Frog {
    pub open spec fn wf(self) -> bool {
        &&& self.speed == STEP_MAGNITUDE
        &&& 0 <= self.count_steps <= STEP_MAGNITUDE
        &&& self.count_steps % STEP_DECREMENT == 0
        &&& -STEP_DECREMENT <= self.step.x <= STEP_DECREMENT
        &&& -STEP_DECREMENT <= self.step.y <= STEP_DECREMENT
        &&& -SPEED_LIMIT <= self.drag <= SPEED_LIMIT
        &&& -PLAYER_POS_LIMIT <= self.pos.x <= PLAYER_POS_LIMIT
        &&& -PLAYER_POS_LIMIT <= self.pos.y <= PLAYER_POS_LIMIT
    }

    /// A freshly spawned player at `pos`: five lives, facing up, free to
    /// accept input.
    pub open spec fn spec_new(pos: Pt) -> Frog {
        Frog {
            pos,
            step: Pt { x: 0, y: 0 },
            speed: STEP_MAGNITUDE,
            lives: 5,
            count_steps: 0,
            drag: 0,
            on_raft: false,
            on_water: false,
            direction: Direction::Up,
        }
    }

    pub fn new(pos: Pt) -> (r: Frog)
        requires
            -POS_LIMIT <= pos.x <= POS_LIMIT,
            -POS_LIMIT <= pos.y <= POS_LIMIT,
        ensures
            r == Frog::spec_new(pos),
            r.wf(),
    {
        Frog {
            pos,
            step: Pt { x: 0, y: 0 },
            speed: STEP_MAGNITUDE,
            lives: 5,
            count_steps: 0,
            drag: 0,
            on_raft: false,
            on_water: false,
            direction: Direction::Up,
        }
    }

    pub fn lives(&self) -> (r: i32)
        ensures
            r == self.lives,
    {
        self.lives
    }

    pub fn count_steps(&self) -> (r: i32)
        ensures
            r == self.count_steps,
    {
        self.count_steps
    }

    pub fn on_raft(&self) -> (r: bool)
        ensures
            r == self.on_raft,
    {
        self.on_raft
    }

    pub fn on_water(&self) -> (r: bool)
        ensures
            r == self.on_water,
    {
        self.on_water
    }

    pub fn direction(&self) -> (r: Direction)
        ensures
            r == self.direction,
    {
        self.direction
    }

    /// Both per-tick flags cleared, as at the start of every tick.
    pub open spec fn reset_flags(self) -> Frog {
        Frog { on_raft: false, on_water: false, ..self }
    }

    /// The death/respawn sequence shared by every death event: one life
    /// lost, position reset to the bottom centre, facing up, movement
    /// lock cleared.
    pub open spec fn death_reset(self, asize: Pt) -> Frog {
        Frog {
            lives: dec_lives(self.lives),
            pos: spawn_pos(asize),
            direction: Direction::Up,
            count_steps: 0,
            ..self
        }
    }

    /// Standing on a carrier: the riding flag is set, and while no step
    /// is in progress the carrier's speed is captured as drag.
    pub open spec fn ride(self, speed: i32) -> Frog {
        Frog {
            on_raft: true,
            drag: if self.count_steps == 0 {
                speed
            } else {
                self.drag
            },
            ..self
        }
    }

    /// Classification of a single collision-set entry by its variant.
    pub open spec fn classify_one(self, other: Actor, asize: Pt) -> Frog {
        match other {
            Actor::Vehicle(_) => self.death_reset(asize),
            Actor::Raft(r) => self.ride(r.speed),
            Actor::Crocodile(c) => self.ride(c.speed),
            Actor::Turtle(t) => if t.spec_cue() is Some {
                self.ride(t.speed)
            } else {
                self
            },
            Actor::Water(_) => Frog { on_water: true, ..self },
            Actor::Frog(_) => self,
        }
    }

    /// Classification of the whole collision set, in order.
    pub open spec fn classify(self, others: Seq<Actor>, asize: Pt) -> Frog
        decreases others.len(),
    {
        if others.len() == 0 {
            self
        } else {
            self.classify_one(others[0], asize).classify(others.drop_first(), asize)
        }
    }

    /// Drowning condition after classification: in the hazard zone with
    /// no carrier underneath.
    pub open spec fn drowned(self) -> bool {
        self.on_water && !self.on_raft
    }

    /// Input resolution: only while the movement lock is clear, the first
    /// pressed key in the priority order up, down, left, right starts a
    /// step, arming the lock and the per-tick step vector.
    pub open spec fn resolve_input(self, keys: InputKeys) -> Frog {
        if self.count_steps != 0 {
            self
        } else if keys.up {
            Frog { count_steps: STEP_MAGNITUDE, step: Pt { x: 0, y: (-STEP_DECREMENT) as i32 }, direction: Direction::Up, ..self }
        } else if keys.down {
            Frog { count_steps: STEP_MAGNITUDE, step: Pt { x: 0, y: STEP_DECREMENT }, direction: Direction::Down, ..self }
        } else if keys.left {
            Frog { count_steps: STEP_MAGNITUDE, step: Pt { x: (-STEP_DECREMENT) as i32, y: 0 }, direction: Direction::Left, ..self }
        } else if keys.right {
            Frog { count_steps: STEP_MAGNITUDE, step: Pt { x: STEP_DECREMENT, y: 0 }, direction: Direction::Right, ..self }
        } else {
            Frog { step: Pt { x: 0, y: 0 }, ..self }
        }
    }

    /// Step application: while the lock is armed, the pending step vector
    /// moves the player once and the lock counts down.
    pub open spec fn apply_step(self) -> Frog {
        if self.count_steps > 0 {
            Frog {
                pos: Pt { x: (self.pos.x + self.step.x) as i32, y: (self.pos.y + self.step.y) as i32 },
                count_steps: (self.count_steps - STEP_DECREMENT) as i32,
                ..self
            }
        } else {
            self
        }
    }

    /// Drag application: the one-shot horizontal drag moves the player
    /// and disarms itself.
    pub open spec fn apply_drag(self) -> Frog {
        Frog { pos: Pt { x: (self.pos.x + self.drag) as i32, y: self.pos.y }, drag: 0, ..self }
    }

    /// Boundary policy: outside the hazard zone the position is clamped
    /// into the arena; in the hazard zone the player may drift past it.
    pub open spec fn clamped(self, asize: Pt) -> Frog {
        if self.on_water {
            self
        } else {
            Frog {
                pos: Pt {
                    x: clamp_i(self.pos.x as int, 0, asize.x - 32) as i32,
                    y: clamp_i(self.pos.y as int, 0, asize.y - 32) as i32,
                },
                ..self
            }
        }
    }

    /// The tick up to, but not including, the final off-track check.
    pub open spec fn pre_offtrack(self, others: Seq<Actor>, asize: Pt, keys: InputKeys) -> Frog {
        let f1 = self.reset_flags().classify(others, asize);
        let f2 = if f1.drowned() {
            f1.death_reset(asize)
        } else {
            f1
        };
        f2.resolve_input(keys).apply_step().apply_drag().clamped(asize)
    }

    /// One whole player tick: flag reset, classification, drowning rule,
    /// input resolution, step, drag, boundary policy, and the absolute
    /// off-track death bound on the horizontal coordinate.
    pub open spec fn stepped(self, others: Seq<Actor>, asize: Pt, keys: InputKeys) -> Frog {
        let f = self.pre_offtrack(others, asize, keys);
        if f.pos.x > 640 || f.pos.x < -32 {
            f.death_reset(asize)
        } else {
            f
        }
    }

    /// The death/respawn sequence as executed.
    fn die(&mut self, asize: Pt)
        requires
            0 <= asize.x <= SIZE_LIMIT,
            0 <= asize.y <= SIZE_LIMIT,
        ensures
            *final(self) == old(self).death_reset(asize),
    {
        if self.lives != i32::MIN {
            self.lives = self.lives - 1;
        }
        self.pos = Pt { x: asize.x / 2, y: asize.y - 32 };
        self.direction = Direction::Up;
        self.count_steps = 0;
    }

    /// One player tick against the collision set `others`, the arena
    /// dimensions and the keys pressed this tick.  The arena guarantees
    /// that every entry of the collision set is well formed and overlaps
    /// the player's rectangle.
    #[verifier::loop_isolation(false)]
    #[verifier::rlimit(60)]
    pub fn act(&mut self, others: &Vec<Actor>, asize: Pt, keys: InputKeys)
        requires
            old(self).wf(),
            0 <= asize.x <= SIZE_LIMIT,
            0 <= asize.y <= SIZE_LIMIT,
            forall|i: int| 0 <= i < others@.len() ==> (#[trigger] others@[i]).wf(),
            forall|i: int|
                0 <= i < others@.len() && others@[i] is Water ==> crate::geom::rects_overlap(
                    (#[trigger] others@[i]).spec_pos(),
                    others@[i].spec_size(),
                    old(self).pos,
                    Pt { x: 32, y: 32 },
                ),
        ensures
            *final(self) == old(self).stepped(others@, asize, keys),
            final(self).wf(),
    {
        self.on_raft = false;
        self.on_water = false;
        let ghost f0 = *self;
        proof {
            assert(others@.skip(0) =~= others@);
        }
        let mut i: usize = 0;
        while i < others.len()
            invariant
                i <= others.len(),
                f0.classify(others@, asize) == self.classify(others@.skip(i as int), asize),
                self.wf(),
                self.pos == old(self).pos || self.pos == spawn_pos(asize),
                self.step == old(self).step,
                self.on_water ==> -POS_LIMIT - 32 <= old(self).pos.y <= POS_LIMIT + 192,
            decreases others.len() - i,
        {
            let ghost pre = *self;
            let other = others[i];
            match other {
                Actor::Vehicle(_) => {
                    self.die(asize);
                },
                Actor::Raft(r) => {
                    self.on_raft = true;
                    if self.count_steps == 0 {
                        self.drag = r.speed;
                    }
                },
                Actor::Crocodile(c) => {
                    self.on_raft = true;
                    if self.count_steps == 0 {
                        self.drag = c.speed;
                    }
                },
                Actor::Turtle(t) => {
                    if t.sprite().is_some() {
                        self.on_raft = true;
                        if self.count_steps == 0 {
                            self.drag = t.speed;
                        }
                    }
                },
                Actor::Water(_) => {
                    self.on_water = true;
                },
                Actor::Frog(_) => {},
            }
            proof {
                assert(*self == pre.classify_one(others@[i as int], asize));
                assert(others@.skip(i as int).drop_first() =~= others@.skip(i as int + 1));
                assert(others@.skip(i as int)[0] == others@[i as int]);
            }
            i = i + 1;
        }
        proof {
            assert(others@.skip(others@.len() as int) =~= Seq::<Actor>::empty());
            assert(f0.classify(others@, asize) == *self);
        }
        if self.on_water && !self.on_raft {
            self.die(asize);
        }
        let ghost f2 = *self;
        if self.count_steps == 0 {
            if keys.up {
                self.count_steps = STEP_MAGNITUDE;
                self.step = Pt { x: 0, y: (-STEP_DECREMENT) as i32 };
                self.direction = Direction::Up;
            } else if keys.down {
                self.count_steps = STEP_MAGNITUDE;
                self.step = Pt { x: 0, y: STEP_DECREMENT };
                self.direction = Direction::Down;
            } else if keys.left {
                self.count_steps = STEP_MAGNITUDE;
                self.step = Pt { x: (-STEP_DECREMENT) as i32, y: 0 };
                self.direction = Direction::Left;
            } else if keys.right {
                self.count_steps = STEP_MAGNITUDE;
                self.step = Pt { x: STEP_DECREMENT, y: 0 };
                self.direction = Direction::Right;
            } else {
                self.step = Pt { x: 0, y: 0 };
            }
        }
        proof {
            assert(*self == f2.resolve_input(keys));
        }
        if self.count_steps > 0 {
            self.pos = Pt { x: self.pos.x + self.step.x, y: self.pos.y + self.step.y };
            self.count_steps = self.count_steps - STEP_DECREMENT;
        }
        proof {
            assert(*self == f2.resolve_input(keys).apply_step());
        }
        self.pos = Pt { x: self.pos.x + self.drag, y: self.pos.y };
        self.drag = 0;
        if !self.on_water {
            let sx = asize.x - 32;
            let sy = asize.y - 32;
            if self.pos.x < 0 {
                self.pos = Pt { x: 0, y: self.pos.y };
            }
            if self.pos.x > sx {
                self.pos = Pt { x: sx, y: self.pos.y };
            }
            if self.pos.y < 0 {
                self.pos = Pt { x: self.pos.x, y: 0 };
            }
            if self.pos.y > sy {
                self.pos = Pt { x: self.pos.x, y: sy };
            }
        }
        proof {
            assert(*self == old(self).pre_offtrack(others@, asize, keys));
        }
        if self.pos.x > 640 || self.pos.x < -32 {
            self.die(asize);
        }
    }

    /// The player's lives after losing `n` of them, bottoming out only at
    /// the machine limit.
    pub open spec fn lives_minus(l: i32, n: int) -> i32 {
        if l - n >= i32::MIN {
            (l - n) as i32
        } else {
            i32::MIN
        }
    }

    /// Number of death events in one tick: one per vehicle in the
    /// collision set, one for drowning, one for the off-track bound.
    pub open spec fn death_count(self, others: Seq<Actor>, asize: Pt, keys: InputKeys) -> int {
        let f1 = self.reset_flags().classify(others, asize);
        let f6 = self.pre_offtrack(others, asize, keys);
        count_vehicles(others) + (if f1.drowned() {
            1int
        } else {
            0int
        }) + (if f6.pos.x > 640 || f6.pos.x < -32 {
            1int
        } else {
            0int
        })
    }

    /// Visual cue: a walking frame picked by facing direction and a
    /// positional parity index, or a single riding pose while drag is
    /// armed and the player faces sideways.
    pub open spec fn spec_cue(self) -> Option<Pt> {
        match self.direction {
            Direction::Up => Some(Pt { x: (32 * parity3(self.pos.y as int)) as i32, y: 0 }),
            Direction::Down => Some(Pt { x: (160 - 32 * parity3(self.pos.y as int)) as i32, y: 32 }),
            Direction::Left => if self.drag == 0 {
                Some(Pt { x: (96 + 32 * parity3(self.pos.x as int)) as i32, y: 0 })
            } else {
                Some(Pt { x: 96, y: 0 })
            },
            Direction::Right => if self.drag == 0 {
                Some(Pt { x: (64 - 32 * parity3(self.pos.x as int)) as i32, y: 32 })
            } else {
                Some(Pt { x: 64, y: 32 })
            },
        }
    }

    pub fn pos(&self) -> (r: Pt)
        ensures
            r == self.pos,
    {
        self.pos
    }

    pub fn size(&self) -> (r: Pt)
        ensures
            r == (Pt { x: 32, y: 32 }),
    {
        Pt { x: 32, y: 32 }
    }

    pub fn sprite(&self) -> (r: Option<Pt>)
        requires
            self.wf(),
        ensures
            r == self.spec_cue(),
    {
        let py: i32 = if self.pos.y >= 0 {
            self.pos.y % 3
        } else {
            -((-self.pos.y) % 3)
        };
        let px: i32 = if self.pos.x >= 0 {
            self.pos.x % 3
        } else {
            -((-self.pos.x) % 3)
        };
        match self.direction {
            Direction::Up => Some(Pt { x: 32 * py, y: 0 }),
            Direction::Down => Some(Pt { x: 160 - 32 * py, y: 32 }),
            Direction::Left => if self.drag == 0 {
                Some(Pt { x: 96 + 32 * px, y: 0 })
            } else {
                Some(Pt { x: 96, y: 0 })
            },
            Direction::Right => if self.drag == 0 {
                Some(Pt { x: 64 - 32 * px, y: 32 })
            } else {
                Some(Pt { x: 64, y: 32 })
            },
        }
    }

    pub fn alive(&self) -> (r: bool)
        ensures
            r == (self.lives > 0),
    {
        self.lives > 0
    }
}

/// Number of vehicles in a collision set.
pub open spec fn count_vehicles(s: Seq<Actor>) -> int
    decreases s.len(),
{
    if s.len() == 0 {
        0
    } else {
        (if s[0] is Vehicle {
            1int
        } else {
            0int
        }) + count_vehicles(s.drop_first())
    }
}

proof fn lemma_count_vehicles_nonneg(s: Seq<Actor>)
    ensures
        count_vehicles(s) >= 0,
    decreases s.len(),
{
    if s.len() > 0 {
        lemma_count_vehicles_nonneg(s.drop_first());
    }
}

/// Classification loses exactly one life per vehicle in the collision
/// set and touches lives in no other way.
proof fn lemma_classify_lives(f: Frog, others: Seq<Actor>, asize: Pt)
    ensures
        f.classify(others, asize).lives == Frog::lives_minus(f.lives, count_vehicles(others)),
    decreases others.len(),
{
    lemma_count_vehicles_nonneg(others);
    if others.len() > 0 {
        lemma_classify_lives(f.classify_one(others[0], asize), others.drop_first(), asize);
        lemma_count_vehicles_nonneg(others.drop_first());
    }
}

/// Monotonic lives: one player tick never increases the lives counter,
/// and decreases it by exactly one per qualifying death event — a
/// vehicle collision, a drowning, or crossing the absolute off-track
/// bound — bottoming out only at the machine limit of the counter.
pub proof fn lemma_lives_monotonic(f: Frog, others: Seq<Actor>, asize: Pt, keys: InputKeys)
    ensures
        f.stepped(others, asize, keys).lives == Frog::lives_minus(
            f.lives,
            f.death_count(others, asize, keys),
        ),
        f.death_count(others, asize, keys) >= 0,
        f.stepped(others, asize, keys).lives <= f.lives,
{
    lemma_count_vehicles_nonneg(others);
    lemma_classify_lives(f.reset_flags(), others, asize);
}

/// Respawn contract: every death event passes through `death_reset`, and
/// immediately after it the player stands at the bottom centre of the
/// arena, faces up, holds one life fewer and a cleared movement lock,
/// with nothing else of its state touched.
pub proof fn lemma_respawn_contract(f: Frog, asize: Pt)
    ensures
        f.death_reset(asize).pos == spawn_pos(asize),
        f.death_reset(asize).pos == (Pt { x: (asize.x as int / 2) as i32, y: (asize.y - 32) as i32 }),
        f.death_reset(asize).direction == Direction::Up,
        f.death_reset(asize).count_steps == 0,
        f.death_reset(asize).lives == dec_lives(f.lives),
        f.death_reset(asize).step == f.step,
        f.death_reset(asize).drag == f.drag,
{
}

/// The key set holding the single directional key for `d`.
pub open spec fn only_key(d: Direction) -> InputKeys {
    match d {
        Direction::Up => InputKeys { up: true, down: false, left: false, right: false },
        Direction::Down => InputKeys { up: false, down: true, left: false, right: false },
        Direction::Left => InputKeys { up: false, down: false, left: true, right: false },
        Direction::Right => InputKeys { up: false, down: false, left: false, right: true },
    }
}

/// The per-tick displacement of a step in direction `d`.
pub open spec fn step_delta(d: Direction) -> Pt {
    match d {
        Direction::Up => Pt { x: 0, y: (-16) as i32 },
        Direction::Down => Pt { x: 0, y: 16 },
        Direction::Left => Pt { x: (-16) as i32, y: 0 },
        Direction::Right => Pt { x: 16, y: 0 },
    }
}

/// Step quantization: from a free player (movement lock clear, no drag,
/// no contacts, standing clear of the arena edges and the off-track
/// bound), a single directional key press yields exactly
/// `STEP_MAGNITUDE / STEP_DECREMENT` ticks of partial movement of
/// `STEP_DECREMENT` pixels each — during which further input is ignored —
/// for a total displacement of exactly `STEP_MAGNITUDE` in the pressed
/// direction, after which the lock is clear again.
pub proof fn lemma_step_quantization(f: Frog, asize: Pt, d: Direction, later_keys: InputKeys)
    requires
        f.wf(),
        f.count_steps == 0,
        f.drag == 0,
        32 <= f.pos.x,
        f.pos.x <= 608,
        f.pos.x + 64 <= asize.x,
        32 <= f.pos.y,
        f.pos.y + 64 <= asize.y,
        0 <= asize.x <= SIZE_LIMIT,
        0 <= asize.y <= SIZE_LIMIT,
    ensures
        ({
            let f1 = f.stepped(Seq::empty(), asize, only_key(d));
            let f2 = f1.stepped(Seq::empty(), asize, later_keys);
            &&& f1.count_steps == STEP_DECREMENT
            &&& f1.direction == d
            &&& f1.pos.x == f.pos.x + step_delta(d).x
            &&& f1.pos.y == f.pos.y + step_delta(d).y
            &&& f1.lives == f.lives
            &&& f2.count_steps == 0
            &&& f2.direction == d
            &&& f2.pos.x == f.pos.x + 2 * step_delta(d).x
            &&& f2.pos.y == f.pos.y + 2 * step_delta(d).y
            &&& f2.lives == f.lives
        }),
{
    let f1 = f.stepped(Seq::empty(), asize, only_key(d));
    let f2 = f1.stepped(Seq::empty(), asize, later_keys);
    assert(f.reset_flags().classify(Seq::empty(), asize) == f.reset_flags());
    assert(f1.reset_flags().classify(Seq::empty(), asize) == f1.reset_flags());
}

} // verus!

