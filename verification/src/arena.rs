use vstd::prelude::*;
use crate::geom::{Pt, SIZE_LIMIT, rects_overlap};
use crate::input::InputKeys;
use crate::actor::Actor;

verus! {

/// Overlap of two actors' rectangles, both axes half-open.
pub open spec fn actors_overlap(a: Actor, b: Actor) -> bool {
    rects_overlap(a.spec_pos(), a.spec_size(), b.spec_pos(), b.spec_size())
}

/// Collision set of the actor at index `i`, restricted to the first `j`
/// actors: every other actor whose rectangle overlaps its own, in spawn
/// order.
pub open spec fn collisions_upto(s: Seq<Actor>, i: int, j: int) -> Seq<Actor>
    decreases j,
{
    if j <= 0 {
        Seq::empty()
    } else {
        let rest = collisions_upto(s, i, j - 1);
        if j - 1 != i && actors_overlap(s[j - 1], s[i]) {
            rest.push(s[j - 1])
        } else {
            rest
        }
    }
}

/// Collision set of the actor at index `i` among all actors.
pub open spec fn collisions_of(s: Seq<Actor>, i: int) -> Seq<Actor> {
    collisions_upto(s, i, s.len() as int)
}

/// Every entry of a collision set is well formed (given that the actors
/// are) and overlaps the rectangle of the actor it was computed for.
proof fn lemma_collisions_props(s: Seq<Actor>, i: int, j: int)
    requires
        0 <= i < s.len(),
        j <= s.len(),
        forall|m: int| 0 <= m < s.len() ==> (#[trigger] s[m]).wf(),
    ensures
        forall|k: int|
            0 <= k < collisions_upto(s, i, j).len() ==> (#[trigger] collisions_upto(s, i, j)[k]).wf()
                && actors_overlap(collisions_upto(s, i, j)[k], s[i]),
    decreases j,
{
    if j > 0 {
        lemma_collisions_props(s, i, j - 1);
        let rest = collisions_upto(s, i, j - 1);
        let cu = collisions_upto(s, i, j);
        assert forall|k: int| 0 <= k < cu.len() implies (#[trigger] cu[k]).wf() && actors_overlap(cu[k], s[i]) by {
            if j - 1 != i && actors_overlap(s[j - 1], s[i]) {
                assert(cu == rest.push(s[j - 1]));
                if k < rest.len() {
                    assert(cu[k] == rest[k]);
                } else {
                    assert(cu[k] == s[j - 1]);
                }
            } else {
                assert(cu == rest);
            }
        }
    }
}

/// Overlap test between the rectangles of `b` and `a`.
fn overlaps(b: &Actor, a: &Actor) -> (r: bool)
    requires
        a.wf(),
        b.wf(),
    ensures
        r == actors_overlap(*b, *a),
{
    let bp = b.pos();
    let bs = b.size();
    let ap = a.pos();
    let asz = a.size();
    bp.x < ap.x + asz.x && ap.x < bp.x + bs.x && bp.y < ap.y + asz.y && ap.y < bp.y + bs.y
}

/// The collision set of actor `i`, computed from the positions the
/// actors hold at this moment of the pass.
#[verifier::loop_isolation(false)]
fn collisions(actors: &Vec<Actor>, i: usize) -> (cs: Vec<Actor>)
    requires
        i < actors@.len(),
        forall|m: int| 0 <= m < actors@.len() ==> (#[trigger] actors@[m]).wf(),
    ensures
        cs@ == collisions_of(actors@, i as int),
{
    let mut cs: Vec<Actor> = Vec::new();
    let a = actors[i];
    let n = actors.len();
    let mut j: usize = 0;
    while j < n
        invariant
            j <= n,
            cs@ == collisions_upto(actors@, i as int, j as int),
        decreases n - j,
    {
        if j != i {
            let b = actors[j];
            if overlaps(&b, &a) {
                cs.push(b);
            }
        }
        j = j + 1;
    }
    cs
}

/// Owner of the ordered actor collection; drives one synchronous advance
/// pass per tick, handing each actor its collision set at the moment of
/// its own advance (so a set may mix already-advanced and not-yet-advanced
/// peers, in spawn order).
pub struct Arena {
    pub size: Pt,
    pub actors: Vec<Actor>,
}

impl Arena {
    pub open spec fn wf(self) -> bool {
        &&& 0 <= self.size.x <= SIZE_LIMIT
        &&& 0 <= self.size.y <= SIZE_LIMIT
        &&& forall|i: int| 0 <= i < self.actors@.len() ==> (#[trigger] self.actors@[i]).wf()
    }

    pub fn new(size: Pt) -> (r: Arena)
        requires
            0 <= size.x <= SIZE_LIMIT,
            0 <= size.y <= SIZE_LIMIT,
        ensures
            r.size == size,
            r.actors@ == Seq::<Actor>::empty(),
            r.wf(),
    {
        let r = Arena { size, actors: Vec::new() };
        proof {
            assert(r.actors@ =~= Seq::<Actor>::empty());
        }
        r
    }

    /// Appends one actor; spawn order is draw order and advance order.
    pub fn spawn(&mut self, a: Actor)
        requires
            old(self).wf(),
            a.wf(),
        ensures
            final(self).size == old(self).size,
            final(self).actors@ == old(self).actors@.push(a),
            final(self).wf(),
    {
        self.actors.push(a);
    }

    pub fn size(&self) -> (r: Pt)
        ensures
            r == self.size,
    {
        self.size
    }

    pub fn actors(&self) -> (r: &Vec<Actor>)
        ensures
            r@ == self.actors@,
    {
        &self.actors
    }

    /// The actor sequence after the actor at index `i` advances against
    /// its collision set, computed there and then.
    pub open spec fn step_at(s: Seq<Actor>, asize: Pt, keys: InputKeys, i: int) -> Seq<Actor> {
        s.update(i, s[i].advance1(collisions_of(s, i), asize, keys))
    }

    /// The first `n` actors advanced, one after the other, in spawn order.
    pub open spec fn run_steps(s: Seq<Actor>, asize: Pt, keys: InputKeys, n: int) -> Seq<Actor>
        decreases n,
    {
        if n <= 0 {
            s
        } else {
            Self::step_at(Self::run_steps(s, asize, keys, n - 1), asize, keys, n - 1)
        }
    }

    /// One whole tick: every actor advanced once, in spawn order.
    pub open spec fn spec_tick(s: Seq<Actor>, asize: Pt, keys: InputKeys) -> Seq<Actor> {
        Self::run_steps(s, asize, keys, s.len() as int)
    }

    /// Advances the simulation by one frame under the keys pressed this
    /// tick.  No actor is added or removed during a tick.
    #[verifier::loop_isolation(false)]
    pub fn tick(&mut self, keys: InputKeys)
        requires
            old(self).wf(),
        ensures
            final(self).size == old(self).size,
            final(self).actors@ == Self::spec_tick(old(self).actors@, old(self).size, keys),
            final(self).wf(),
    {
        let n = self.actors.len();
        let mut i: usize = 0;
        while i < n
            invariant
                i <= n,
                n == self.actors@.len(),
                self.size == old(self).size,
                self.actors@ == Self::run_steps(old(self).actors@, self.size, keys, i as int),
                forall|j: int| 0 <= j < n ==> (#[trigger] self.actors@[j]).wf(),
            decreases n - i,
        {
            let cs = collisions(&self.actors, i);
            proof {
                lemma_collisions_props(self.actors@, i as int, self.actors@.len() as int);
            }
            let mut a = self.actors[i];
            a.advance(&cs, self.size, keys);
            self.actors.set(i, a);
            i = i + 1;
        }
    }
}

} // verus!
