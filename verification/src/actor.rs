use vstd::prelude::*;
use crate::geom::{Pt, SIZE_LIMIT};
use crate::input::InputKeys;
use crate::lanes::{Raft, Crocodile, Turtle, Vehicle, Water};
use crate::frog::Frog;

verus! {

/// Stable discriminant of an actor variant, used to classify collision
/// partners.
#[derive(Clone, Copy, PartialEq, Eq, Structural, Debug)]
pub enum Kind {
    Raft,
    Crocodile,
    Turtle,
    Vehicle,
    Water,
    Frog,
}

/// The closed set of simulated entities.  Every actor has a position, a
/// size, a per-tick advance, an optional visual cue and a liveness flag.
#[derive(Clone, Copy, PartialEq, Eq, Structural, Debug)]
pub enum Actor {
    Raft(Raft),
    Crocodile(Crocodile),
    Turtle(Turtle),
    Vehicle(Vehicle),
    Water(Water),
    Frog(Frog),
}

impl Actor {
    pub open spec fn wf(self) -> bool {
        match self {
            Actor::Raft(r) => r.wf(),
            Actor::Crocodile(c) => c.wf(),
            Actor::Turtle(t) => t.wf(),
            Actor::Vehicle(v) => v.wf(),
            Actor::Water(w) => w.wf(),
            Actor::Frog(f) => f.wf(),
        }
    }

    pub open spec fn kind(self) -> Kind {
        match self {
            Actor::Raft(_) => Kind::Raft,
            Actor::Crocodile(_) => Kind::Crocodile,
            Actor::Turtle(_) => Kind::Turtle,
            Actor::Vehicle(_) => Kind::Vehicle,
            Actor::Water(_) => Kind::Water,
            Actor::Frog(_) => Kind::Frog,
        }
    }

    pub open spec fn spec_pos(self) -> Pt {
        match self {
            Actor::Raft(r) => r.pos,
            Actor::Crocodile(c) => c.pos,
            Actor::Turtle(t) => t.pos,
            Actor::Vehicle(v) => v.pos,
            Actor::Water(w) => w.pos,
            Actor::Frog(f) => f.pos,
        }
    }

    pub open spec fn spec_size(self) -> Pt {
        match self {
            Actor::Raft(_) => Pt { x: 96, y: 32 },
            Actor::Crocodile(_) => Pt { x: 96, y: 32 },
            Actor::Turtle(_) => Pt { x: 32, y: 32 },
            Actor::Vehicle(v) => v.spec_size(),
            Actor::Water(_) => Pt { x: 640, y: 192 },
            Actor::Frog(_) => Pt { x: 32, y: 32 },
        }
    }

    pub open spec fn spec_cue(self) -> Option<Pt> {
        match self {
            Actor::Raft(_) => Some(Pt { x: 192, y: 96 }),
            Actor::Crocodile(_) => Some(Pt { x: 192, y: 224 }),
            Actor::Turtle(t) => t.spec_cue(),
            Actor::Vehicle(v) => v.spec_cue(),
            Actor::Water(_) => None,
            Actor::Frog(f) => f.spec_cue(),
        }
    }

    pub open spec fn spec_alive(self) -> bool {
        match self {
            Actor::Frog(f) => f.lives > 0,
            _ => true,
        }
    }

    /// One tick of this actor against its collision set, the arena
    /// dimensions and the keys pressed this tick.  Only the player reads
    /// the collision set and the keys; the lane actors move and wrap, and
    /// the water zone is inert.
    pub open spec fn advance1(self, others: Seq<Actor>, asize: Pt, keys: InputKeys) -> Actor {
        match self {
            Actor::Raft(r) => Actor::Raft(r.stepped(asize.x as int)),
            Actor::Crocodile(c) => Actor::Crocodile(c.stepped(asize.x as int)),
            Actor::Turtle(t) => Actor::Turtle(t.stepped(asize.x as int)),
            Actor::Vehicle(v) => Actor::Vehicle(v.stepped(asize.x as int)),
            Actor::Water(w) => Actor::Water(w),
            Actor::Frog(f) => Actor::Frog(f.stepped(others, asize, keys)),
        }
    }

    pub fn advance(&mut self, others: &Vec<Actor>, asize: Pt, keys: InputKeys)
        requires
            old(self).wf(),
            0 <= asize.x <= SIZE_LIMIT,
            0 <= asize.y <= SIZE_LIMIT,
            forall|i: int| 0 <= i < others@.len() ==> (#[trigger] others@[i]).wf(),
            forall|i: int|
                0 <= i < others@.len() && others@[i] is Water ==> crate::geom::rects_overlap(
                    (#[trigger] others@[i]).spec_pos(),
                    others@[i].spec_size(),
                    old(self).spec_pos(),
                    old(self).spec_size(),
                ),
        ensures
            *final(self) == old(self).advance1(others@, asize, keys),
            final(self).wf(),
    {
        match *self {
            Actor::Raft(mut r) => {
                r.act(asize);
                *self = Actor::Raft(r);
            },
            Actor::Crocodile(mut c) => {
                c.act(asize);
                *self = Actor::Crocodile(c);
            },
            Actor::Turtle(mut t) => {
                t.act(asize);
                *self = Actor::Turtle(t);
            },
            Actor::Vehicle(mut v) => {
                v.act(asize);
                *self = Actor::Vehicle(v);
            },
            Actor::Water(_) => {},
            Actor::Frog(mut f) => {
                f.act(others, asize, keys);
                *self = Actor::Frog(f);
            },
        }
    }

    pub fn pos(&self) -> (r: Pt)
        ensures
            r == self.spec_pos(),
    {
        match self {
            Actor::Raft(r) => r.pos(),
            Actor::Crocodile(c) => c.pos(),
            Actor::Turtle(t) => t.pos(),
            Actor::Vehicle(v) => v.pos(),
            Actor::Water(w) => w.pos(),
            Actor::Frog(f) => f.pos(),
        }
    }

    pub fn size(&self) -> (r: Pt)
        ensures
            r == self.spec_size(),
    {
        match self {
            Actor::Raft(r) => r.size(),
            Actor::Crocodile(c) => c.size(),
            Actor::Turtle(t) => t.size(),
            Actor::Vehicle(v) => v.size(),
            Actor::Water(w) => w.size(),
            Actor::Frog(f) => f.size(),
        }
    }

    /// Atlas offset of the frame to draw, or nothing for a solid fill.
    pub fn sprite(&self) -> (r: Option<Pt>)
        requires
            self.wf(),
        ensures
            r == self.spec_cue(),
    {
        match self {
            Actor::Raft(r) => r.sprite(),
            Actor::Crocodile(c) => c.sprite(),
            Actor::Turtle(t) => t.sprite(),
            Actor::Vehicle(v) => v.sprite(),
            Actor::Water(w) => w.sprite(),
            Actor::Frog(f) => f.sprite(),
        }
    }

    pub fn alive(&self) -> (r: bool)
        ensures
            r == self.spec_alive(),
    {
        match self {
            Actor::Raft(r) => r.alive(),
            Actor::Crocodile(c) => c.alive(),
            Actor::Turtle(t) => t.alive(),
            Actor::Vehicle(v) => v.alive(),
            Actor::Water(w) => w.alive(),
            Actor::Frog(f) => f.alive(),
        }
    }
}

} // verus!
