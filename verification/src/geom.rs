use vstd::prelude::*;

verus! {

/// Two-dimensional integer vector, used for positions, sizes, step deltas
/// and the arena dimensions.  All motion in the game is integer-pixel.
#[derive(Clone, Copy, PartialEq, Eq, Structural, Debug)]
pub struct Pt {
    pub x: i32,
    pub y: i32,
}

/// Builds a vector from its two components.
pub fn pt(x: i32, y: i32) -> (p: Pt)
    ensures
        p == (Pt { x, y }),
{
    Pt { x, y }
}

/// Bound on actor coordinates kept by every actor's well-formedness
/// predicate; wide enough for any reachable game state, narrow enough that
/// all position arithmetic stays inside `i32`.
pub const POS_LIMIT: i32 = 2_000_000;

/// The player may drift a little past `POS_LIMIT` while carried on water.
pub const PLAYER_POS_LIMIT: i32 = 2_000_400;

/// Bound on the magnitude of a lane actor's horizontal speed.
pub const SPEED_LIMIT: i32 = 1_000;

/// Bound on the arena dimensions.
pub const SIZE_LIMIT: i32 = 100_000;

/// Half-open interval overlap on one axis: `[a, a + wa)` meets `[b, b + wb)`.
pub open spec fn spans_overlap(a: int, wa: int, b: int, wb: int) -> bool {
    a < b + wb && b < a + wa
}

/// Axis-aligned rectangle overlap with half-open extents on both axes.
pub open spec fn rects_overlap(pa: Pt, sa: Pt, pb: Pt, sb: Pt) -> bool {
    spans_overlap(pa.x as int, sa.x as int, pb.x as int, sb.x as int)
        && spans_overlap(pa.y as int, sa.y as int, pb.y as int, sb.y as int)
}

} // verus!
