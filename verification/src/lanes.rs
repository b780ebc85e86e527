use vstd::prelude::*;
use crate::geom::{Pt, POS_LIMIT, SPEED_LIMIT, SIZE_LIMIT};

verus! {

/// Bound on a turtle's configured phase offset.
pub const PHASE_LIMIT: i32 = 1_000_000;

/// Absolute value of an integer.
pub open spec fn abs(i: int) -> int {
    if i < 0 {
        -i
    } else {
        i
    }
}

/// Edge wrap shared by every lane actor: crossing 300 pixels past either
/// screen edge snaps to 300 pixels past the opposite edge.
pub open spec fn wrap_x(x: int, w: int) -> int {
    if x < -300 {
        w + 300
    } else if x > w + 300 {
        -300
    } else {
        x
    }
}

/// One tick of lane motion: wrap, then advance by the constant speed.
pub open spec fn lane_step_x(x: int, speed: int, w: int) -> int {
    wrap_x(x, w) + speed
}

/// `n` ticks of lane motion.
pub open spec fn lane_iter_x(x: int, speed: int, w: int, n: nat) -> int
    decreases n,
{
    if n == 0 {
        x
    } else {
        lane_step_x(lane_iter_x(x, speed, w, (n - 1) as nat), speed, w)
    }
}

/// Wrap invariant: a lane actor with speed `s` that starts no further than
/// `|s|` pixels past the wrap band `[-300, w + 300]` stays within that
/// slack band forever, however many ticks pass.  (The actor leaves the
/// band proper by at most one tick of motion before the wrap pulls it
/// back, so the band widened by `|s|` is the exact inductive invariant.)
pub proof fn lemma_lane_wrap_invariant(x: int, speed: int, w: int, n: nat)
    requires
        w >= 0,
        -300 - abs(speed) <= x <= w + 300 + abs(speed),
    ensures
        -300 - abs(speed) <= lane_iter_x(x, speed, w, n) <= w + 300 + abs(speed),
    decreases n,
{
    if n > 0 {
        lemma_lane_wrap_invariant(x, speed, w, (n - 1) as nat);
    }
}

/// A carrier the player can stand on; floats with constant speed and wraps
/// at the screen edges.
#[derive(Clone, Copy, PartialEq, Eq, Structural, Debug)]
pub struct Raft {
    pub pos: Pt,
    pub speed: i32,
}

impl Raft {
    pub open spec fn wf(self) -> bool {
        &&& -POS_LIMIT <= self.pos.x <= POS_LIMIT
        &&& -POS_LIMIT <= self.pos.y <= POS_LIMIT
        &&& -SPEED_LIMIT <= self.speed <= SPEED_LIMIT
    }

    /// The raft after one tick against an arena of width `w`.
    pub open spec fn stepped(self, w: int) -> Raft {
        Raft { pos: Pt { x: lane_step_x(self.pos.x as int, self.speed as int, w) as i32, y: self.pos.y }, ..self }
    }

    pub fn new(pos: Pt, speed: i32) -> (r: Raft)
        requires
            -POS_LIMIT <= pos.x <= POS_LIMIT,
            -POS_LIMIT <= pos.y <= POS_LIMIT,
            -SPEED_LIMIT <= speed <= SPEED_LIMIT,
        ensures
            r == (Raft { pos, speed }),
            r.wf(),
    {
        Raft { pos, speed }
    }

    pub fn get_speed(&self) -> (r: i32)
        ensures
            r == self.speed,
    {
        self.speed
    }

    pub fn act(&mut self, asize: Pt)
        requires
            old(self).wf(),
            0 <= asize.x <= SIZE_LIMIT,
        ensures
            *final(self) == old(self).stepped(asize.x as int),
            final(self).wf(),
    {
        if self.pos.x < -300 {
            self.pos.x = asize.x + 300;
        }
        if self.pos.x > asize.x + 300 {
            self.pos.x = -300;
        }
        self.pos.x = self.pos.x + self.speed;
    }

    pub fn pos(&self) -> (r: Pt)
        ensures
            r == self.pos,
    {
        self.pos
    }

    pub fn size(&self) -> (r: Pt)
        ensures
            r == (Pt { x: 96, y: 32 }),
    {
        Pt { x: 96, y: 32 }
    }

    pub fn sprite(&self) -> (r: Option<Pt>)
        ensures
            r == Some(Pt { x: 192, y: 96 }),
    {
        Some(Pt { x: 192, y: 96 })
    }

    pub fn alive(&self) -> (r: bool)
        ensures
            r,
    {
        true
    }
}

/// A carrier with the same motion as a raft, drawn with its own sprite.
#[derive(Clone, Copy, PartialEq, Eq, Structural, Debug)]
pub struct Crocodile {
    pub pos: Pt,
    pub speed: i32,
}

impl Crocodile {
    pub open spec fn wf(self) -> bool {
        &&& -POS_LIMIT <= self.pos.x <= POS_LIMIT
        &&& -POS_LIMIT <= self.pos.y <= POS_LIMIT
        &&& -SPEED_LIMIT <= self.speed <= SPEED_LIMIT
    }

    /// The crocodile after one tick against an arena of width `w`.
    pub open spec fn stepped(self, w: int) -> Crocodile {
        Crocodile { pos: Pt { x: lane_step_x(self.pos.x as int, self.speed as int, w) as i32, y: self.pos.y }, ..self }
    }

    pub fn new(pos: Pt, speed: i32) -> (r: Crocodile)
        requires
            -POS_LIMIT <= pos.x <= POS_LIMIT,
            -POS_LIMIT <= pos.y <= POS_LIMIT,
            -SPEED_LIMIT <= speed <= SPEED_LIMIT,
        ensures
            r == (Crocodile { pos, speed }),
            r.wf(),
    {
        Crocodile { pos, speed }
    }

    pub fn get_speed(&self) -> (r: i32)
        ensures
            r == self.speed,
    {
        self.speed
    }

    pub fn act(&mut self, asize: Pt)
        requires
            old(self).wf(),
            0 <= asize.x <= SIZE_LIMIT,
        ensures
            *final(self) == old(self).stepped(asize.x as int),
            final(self).wf(),
    {
        if self.pos.x < -300 {
            self.pos.x = asize.x + 300;
        }
        if self.pos.x > asize.x + 300 {
            self.pos.x = -300;
        }
        self.pos.x = self.pos.x + self.speed;
    }

    pub fn pos(&self) -> (r: Pt)
        ensures
            r == self.pos,
    {
        self.pos
    }

    pub fn size(&self) -> (r: Pt)
        ensures
            r == (Pt { x: 96, y: 32 }),
    {
        Pt { x: 96, y: 32 }
    }

    pub fn sprite(&self) -> (r: Option<Pt>)
        ensures
            r == Some(Pt { x: 192, y: 224 }),
    {
        Some(Pt { x: 192, y: 224 })
    }

    pub fn alive(&self) -> (r: bool)
        ensures
            r,
    {
        true
    }
}

/// One tick of a turtle's phase counter: increment, then reset to the
/// configured offset `k` once the counter leaves its cycle.  With
/// submersion enabled the cycle covers the five surface windows and the
/// submerged window; disabled, only the first three surface windows.
pub open spec fn turtle_counter_step(c: int, k: int, fps: int, under_water: bool) -> int {
    let c1 = c + 1;
    if under_water && c1 > k + fps * 6 {
        k
    } else if !under_water && c1 >= k + fps * 3 {
        k
    } else {
        c1
    }
}

/// `n` ticks of the phase counter.
pub open spec fn turtle_counter_iter(c: int, k: int, fps: int, under_water: bool, n: nat) -> int
    decreases n,
{
    if n == 0 {
        c
    } else {
        turtle_counter_step(turtle_counter_iter(c, k, fps, under_water, (n - 1) as nat), k, fps, under_water)
    }
}

/// The turtle's visual cue as a function of counter `c`, offset `k` and
/// frame duration `fps`: one of five surface poses inside the five
/// windows of `fps` ticks starting at `k`, and no cue (submerged) outside
/// them.
pub open spec fn turtle_cue_of(c: int, k: int, fps: int) -> Option<Pt> {
    if k <= c < k + fps {
        Some(Pt { x: 256, y: 128 })
    } else if k + fps <= c < k + fps * 2 {
        Some(Pt { x: 224, y: 128 })
    } else if k + fps * 2 <= c < k + fps * 3 {
        Some(Pt { x: 192, y: 128 })
    } else if k + fps * 3 <= c < k + fps * 4 {
        Some(Pt { x: 192, y: 160 })
    } else if k + fps * 4 <= c < k + fps * 5 {
        Some(Pt { x: 224, y: 160 })
    } else {
        None
    }
}

proof fn lemma_turtle_counter_compose(c: int, k: int, fps: int, under_water: bool, m: nat, n: nat)
    ensures
        turtle_counter_iter(c, k, fps, under_water, m + n) == turtle_counter_iter(
            turtle_counter_iter(c, k, fps, under_water, m),
            k,
            fps,
            under_water,
            n,
        ),
    decreases n,
{
    if n > 0 {
        lemma_turtle_counter_compose(c, k, fps, under_water, m, (n - 1) as nat);
    }
}

/// Counting up from the offset: `j` ticks from `k` land on `k + j`, for
/// any `j` that stays inside the cycle.
proof fn lemma_turtle_counter_ascent(k: int, fps: int, under_water: bool, j: nat)
    requires
        fps >= 1,
        under_water ==> j <= fps * 6,
        !under_water ==> j < fps * 3,
    ensures
        turtle_counter_iter(k, k, fps, under_water, j) == k + j,
    decreases j,
{
    if j > 0 {
        lemma_turtle_counter_ascent(k, fps, under_water, (j - 1) as nat);
    }
}

/// From any counter inside the cycle, the counter climbs to the top of
/// the cycle and then resets to the offset `k`.
proof fn lemma_turtle_counter_reset(c: int, k: int, fps: int, under_water: bool, n: nat)
    requires
        fps >= 1,
        under_water ==> k <= c <= k + fps * 6 && n == k + fps * 6 + 1 - c,
        !under_water ==> k <= c < k + fps * 3 && n == k + fps * 3 - c,
    ensures
        turtle_counter_iter(c, k, fps, under_water, n) == k,
    decreases n,
{
    if n > 0 {
        assert(turtle_counter_iter(c, k, fps, under_water, n) == turtle_counter_step(
            turtle_counter_iter(c, k, fps, under_water, (n - 1) as nat),
            k,
            fps,
            under_water,
        ));
        if n == 1 {
        } else {
            lemma_ascent_from(c, k, fps, under_water, (n - 1) as nat);
        }
    }
}

/// Climbing without hitting the reset: from `c` inside the cycle, `j`
/// ticks land on `c + j` as long as `c + j` is still inside the cycle.
proof fn lemma_ascent_from(c: int, k: int, fps: int, under_water: bool, j: nat)
    requires
        fps >= 1,
        under_water ==> k <= c && c + j <= k + fps * 6,
        !under_water ==> k <= c && c + j < k + fps * 3,
    ensures
        turtle_counter_iter(c, k, fps, under_water, j) == c + j,
    decreases j,
{
    if j > 0 {
        lemma_ascent_from(c, k, fps, under_water, (j - 1) as nat);
    }
}

/// Turtle cycle periodicity, submersion disabled: from any counter inside
/// the surface-only cycle `[k, k + 3 fps)`, the phase counter — and with
/// it the visual-cue sequence — repeats with period `3 * fps`, resetting
/// deterministically to the offset `k` when it tops out.
pub proof fn lemma_turtle_cycle_surface(c: int, k: int, fps: int, n: nat)
    requires
        fps >= 1,
        k <= c < k + fps * 3,
    ensures
        turtle_counter_iter(c, k, fps, false, (fps * 3) as nat) == c,
        turtle_counter_iter(c, k, fps, false, (n + fps * 3) as nat) == turtle_counter_iter(c, k, fps, false, n),
        turtle_counter_iter(c, k, fps, false, (k + fps * 3 - c) as nat) == k,
        turtle_cue_of(turtle_counter_iter(c, k, fps, false, (n + fps * 3) as nat), k, fps) == turtle_cue_of(
            turtle_counter_iter(c, k, fps, false, n),
            k,
            fps,
        ),
    decreases n,
{
    let p = (fps * 3) as nat;
    lemma_turtle_counter_reset(c, k, fps, false, (k + fps * 3 - c) as nat);
    lemma_turtle_counter_compose(c, k, fps, false, (k + fps * 3 - c) as nat, (c - k) as nat);
    lemma_turtle_counter_ascent(k, fps, false, (c - k) as nat);
    assert(turtle_counter_iter(c, k, fps, false, p) == c);
    if n > 0 {
        lemma_turtle_cycle_surface(c, k, fps, (n - 1) as nat);
    } else {
        lemma_turtle_counter_compose(c, k, fps, false, p, 0);
    }
}

/// Turtle cycle periodicity, submersion enabled: from any counter inside
/// the cycle `[k, k + 6 fps]`, the phase counter — and the visual-cue
/// sequence — repeats with period `6 * fps + 1` (five surface windows,
/// then a submerged window one tick longer than the frame duration),
/// resetting deterministically to the offset `k` when it tops out.
pub proof fn lemma_turtle_cycle_submerging(c: int, k: int, fps: int, n: nat)
    requires
        fps >= 1,
        k <= c <= k + fps * 6,
    ensures
        turtle_counter_iter(c, k, fps, true, (fps * 6 + 1) as nat) == c,
        turtle_counter_iter(c, k, fps, true, (n + fps * 6 + 1) as nat) == turtle_counter_iter(c, k, fps, true, n),
        turtle_counter_iter(c, k, fps, true, (k + fps * 6 + 1 - c) as nat) == k,
        turtle_cue_of(turtle_counter_iter(c, k, fps, true, (n + fps * 6 + 1) as nat), k, fps) == turtle_cue_of(
            turtle_counter_iter(c, k, fps, true, n),
            k,
            fps,
        ),
    decreases n,
{
    let p = (fps * 6 + 1) as nat;
    lemma_turtle_counter_reset(c, k, fps, true, (k + fps * 6 + 1 - c) as nat);
    lemma_turtle_counter_compose(c, k, fps, true, (k + fps * 6 + 1 - c) as nat, (c - k) as nat);
    lemma_turtle_counter_ascent(k, fps, true, (c - k) as nat);
    assert(turtle_counter_iter(c, k, fps, true, p) == c);
    if n > 0 {
        lemma_turtle_cycle_submerging(c, k, fps, (n - 1) as nat);
    } else {
        lemma_turtle_counter_compose(c, k, fps, true, p, 0);
    }
}

/// A carrier that periodically submerges: a phase counter advances once
/// per tick through five surface windows and, when submersion is enabled,
/// a submerged window during which it gives the player no support.
#[derive(Clone, Copy, PartialEq, Eq, Structural, Debug)]
pub struct Turtle {
    pub pos: Pt,
    pub speed: i32,
    pub under_water: bool,
    pub new_sprite: i32,
    pub sprite_fps: i32,
    pub sprite_tick: i32,
}

impl Turtle {
    pub open spec fn wf(self) -> bool {
        &&& -POS_LIMIT <= self.pos.x <= POS_LIMIT
        &&& -POS_LIMIT <= self.pos.y <= POS_LIMIT
        &&& -SPEED_LIMIT <= self.speed <= SPEED_LIMIT
        &&& self.sprite_fps == 20
        &&& -PHASE_LIMIT <= self.sprite_tick <= PHASE_LIMIT
        &&& -PHASE_LIMIT <= self.new_sprite <= PHASE_LIMIT + 200
    }

    /// The turtle after one tick against an arena of width `w`: the phase
    /// counter advances, then the lane motion applies.
    pub open spec fn stepped(self, w: int) -> Turtle {
        Turtle {
            new_sprite: turtle_counter_step(
                self.new_sprite as int,
                self.sprite_tick as int,
                self.sprite_fps as int,
                self.under_water,
            ) as i32,
            pos: Pt { x: lane_step_x(self.pos.x as int, self.speed as int, w) as i32, y: self.pos.y },
            ..self
        }
    }

    pub open spec fn spec_cue(self) -> Option<Pt> {
        turtle_cue_of(self.new_sprite as int, self.sprite_tick as int, self.sprite_fps as int)
    }

    pub fn new(pos: Pt, speed: i32, under_water: bool, sprite_tick: i32) -> (r: Turtle)
        requires
            -POS_LIMIT <= pos.x <= POS_LIMIT,
            -POS_LIMIT <= pos.y <= POS_LIMIT,
            -SPEED_LIMIT <= speed <= SPEED_LIMIT,
            -PHASE_LIMIT <= sprite_tick <= PHASE_LIMIT,
        ensures
            r == (Turtle { pos, speed, under_water, new_sprite: 0, sprite_fps: 20, sprite_tick }),
            r.wf(),
    {
        Turtle { pos, speed, under_water, new_sprite: 0, sprite_fps: 20, sprite_tick }
    }

    pub fn get_speed(&self) -> (r: i32)
        ensures
            r == self.speed,
    {
        self.speed
    }

    pub fn act(&mut self, asize: Pt)
        requires
            old(self).wf(),
            0 <= asize.x <= SIZE_LIMIT,
        ensures
            *final(self) == old(self).stepped(asize.x as int),
            final(self).wf(),
    {
        self.new_sprite = self.new_sprite + 1;
        if self.under_water && self.new_sprite > self.sprite_tick + self.sprite_fps * 6 {
            self.new_sprite = self.sprite_tick;
        } else if !self.under_water && self.new_sprite >= self.sprite_tick + self.sprite_fps * 3 {
            self.new_sprite = self.sprite_tick;
        }
        if self.pos.x < -300 {
            self.pos.x = asize.x + 300;
        }
        if self.pos.x > asize.x + 300 {
            self.pos.x = -300;
        }
        self.pos.x = self.pos.x + self.speed;
    }

    pub fn pos(&self) -> (r: Pt)
        ensures
            r == self.pos,
    {
        self.pos
    }

    pub fn size(&self) -> (r: Pt)
        ensures
            r == (Pt { x: 32, y: 32 }),
    {
        Pt { x: 32, y: 32 }
    }

    pub fn sprite(&self) -> (r: Option<Pt>)
        requires
            self.wf(),
        ensures
            r == self.spec_cue(),
    {
        let c = self.new_sprite;
        let k = self.sprite_tick;
        let fps = self.sprite_fps;
        if c >= k && c < fps + k {
            Some(Pt { x: 256, y: 128 })
        } else if c >= fps + k && c < fps * 2 + k {
            Some(Pt { x: 224, y: 128 })
        } else if c >= fps * 2 + k && c < fps * 3 + k {
            Some(Pt { x: 192, y: 128 })
        } else if c >= fps * 3 + k && c < fps * 4 + k {
            Some(Pt { x: 192, y: 160 })
        } else if c >= fps * 4 + k && c < fps * 5 + k {
            Some(Pt { x: 224, y: 160 })
        } else {
            None
        }
    }

    pub fn alive(&self) -> (r: bool)
        ensures
            r,
    {
        true
    }
}

/// A vehicle hazard: compact (32 wide) or long (64 wide), lane motion as
/// the carriers, lethal to the player on contact.
#[derive(Clone, Copy, PartialEq, Eq, Structural, Debug)]
pub struct Vehicle {
    pub pos: Pt,
    pub speed: i32,
    pub car: bool,
    pub car_type: i32,
}

impl Vehicle {
    pub open spec fn wf(self) -> bool {
        &&& -POS_LIMIT <= self.pos.x <= POS_LIMIT
        &&& -POS_LIMIT <= self.pos.y <= POS_LIMIT
        &&& -SPEED_LIMIT <= self.speed <= SPEED_LIMIT
        &&& 6 <= self.car_type <= 9
    }

    /// The vehicle after one tick against an arena of width `w`.
    pub open spec fn stepped(self, w: int) -> Vehicle {
        Vehicle { pos: Pt { x: lane_step_x(self.pos.x as int, self.speed as int, w) as i32, y: self.pos.y }, ..self }
    }

    pub open spec fn spec_size(self) -> Pt {
        if self.car {
            Pt { x: 32, y: 32 }
        } else {
            Pt { x: 64, y: 32 }
        }
    }

    /// Atlas offset: the compact profile comes from the randomized type
    /// index and the travel direction, the long profile from the travel
    /// direction alone.
    pub open spec fn spec_cue(self) -> Option<Pt> {
        if self.car {
            Some(
                Pt {
                    x: (self.car_type * 32) as i32,
                    y: if self.speed > 0 && self.car_type == 8 {
                        32
                    } else if self.speed < 0 && self.car_type == 8 {
                        0
                    } else if self.speed > 0 {
                        0
                    } else {
                        32
                    },
                },
            )
        } else {
            Some(Pt { x: if self.speed >= 0 { 256 } else { 192 }, y: 64 })
        }
    }

    /// The randomized type index is drawn from the game's random source.
    pub fn new(pos: Pt, car: bool, speed: i32, rng: &mut crate::rng::Rng) -> (r: Vehicle)
        requires
            -POS_LIMIT <= pos.x <= POS_LIMIT,
            -POS_LIMIT <= pos.y <= POS_LIMIT,
            -SPEED_LIMIT <= speed <= SPEED_LIMIT,
            old(rng).wf(),
        ensures
            final(rng).wf(),
            r.pos == pos,
            r.speed == speed,
            r.car == car,
            6 <= r.car_type <= 9,
            r.wf(),
    {
        let car_type = rng.randint(6, 9);
        Vehicle { pos, speed, car, car_type }
    }

    pub fn act(&mut self, asize: Pt)
        requires
            old(self).wf(),
            0 <= asize.x <= SIZE_LIMIT,
        ensures
            *final(self) == old(self).stepped(asize.x as int),
            final(self).wf(),
    {
        if self.pos.x < -300 {
            self.pos.x = asize.x + 300;
        }
        if self.pos.x > asize.x + 300 {
            self.pos.x = -300;
        }
        self.pos.x = self.pos.x + self.speed;
    }

    pub fn pos(&self) -> (r: Pt)
        ensures
            r == self.pos,
    {
        self.pos
    }

    pub fn size(&self) -> (r: Pt)
        ensures
            r == self.spec_size(),
    {
        if self.car {
            Pt { x: 32, y: 32 }
        } else {
            Pt { x: 64, y: 32 }
        }
    }

    pub fn sprite(&self) -> (r: Option<Pt>)
        requires
            self.wf(),
        ensures
            r == self.spec_cue(),
    {
        if self.car {
            let y: i32 = if self.speed > 0 && self.car_type == 8 {
                32
            } else if self.speed < 0 && self.car_type == 8 {
                0
            } else if self.speed > 0 {
                0
            } else {
                32
            };
            Some(Pt { x: self.car_type * 32, y })
        } else {
            Some(Pt { x: if self.speed >= 0 { 256 } else { 192 }, y: 64 })
        }
    }

    pub fn alive(&self) -> (r: bool)
        ensures
            r,
    {
        true
    }
}

/// The static water zone: a region lethal to the player unless riding a
/// carrier.  It never moves and is drawn as a solid fill.
#[derive(Clone, Copy, PartialEq, Eq, Structural, Debug)]
pub struct Water {
    pub pos: Pt,
}

impl Water {
    pub open spec fn wf(self) -> bool {
        &&& -POS_LIMIT <= self.pos.x <= POS_LIMIT
        &&& -POS_LIMIT <= self.pos.y <= POS_LIMIT
    }

    pub fn new(pos: Pt) -> (r: Water)
        requires
            -POS_LIMIT <= pos.x <= POS_LIMIT,
            -POS_LIMIT <= pos.y <= POS_LIMIT,
        ensures
            r == (Water { pos }),
            r.wf(),
    {
        Water { pos }
    }

    pub fn act(&mut self)
        ensures
            *final(self) == *old(self),
    {
    }

    pub fn pos(&self) -> (r: Pt)
        ensures
            r == self.pos,
    {
        self.pos
    }

    pub fn size(&self) -> (r: Pt)
        ensures
            r == (Pt { x: 640, y: 192 }),
    {
        Pt { x: 640, y: 192 }
    }

    pub fn sprite(&self) -> (r: Option<Pt>)
        ensures
            r is None,
    {
        None
    }

    pub fn alive(&self) -> (r: bool)
        ensures
            r,
    {
        true
    }
}

} // verus!
