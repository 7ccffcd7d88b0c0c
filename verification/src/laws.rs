//! The library's standing guarantees, written out and proved rather than
//! left implicit in the per-function contracts.

use vstd::prelude::*;

verus! {

use crate::geom::clamp1;
use crate::cat::{Cat, CatBox, decayed, next_state, spec_collides, ANNOYANCE_THRESHOLD, CAT_SIZE};
use crate::geom::spec_rects_overlap;
use crate::dog::Dog;
use crate::world::count_in_pen;

/// The annoyance accumulator after a whole sequence of decaying ticks.
pub open spec fn decayed_over(total: int, rate: int, dts: Seq<int>) -> int
    decreases dts.len(),
{
    if dts.len() == 0 {
        total
    } else {
        decayed_over(decayed(total, rate, dts[0]), rate, dts.drop_first())
    }
}

/// Annoyance decay never goes negative: from any nonnegative level, any
/// sequence of idle or penned ticks (each of which decays the accumulator
/// by `rate * dt / 1000`, floored at zero) leaves it nonnegative. The
/// `idle` and `in_pen` steps each ensure their tick is exactly `decayed`.
pub proof fn lemma_annoyance_never_negative(total: int, rate: int, dts: Seq<int>)
    requires
        total >= 0,
    ensures
        decayed_over(total, rate, dts) >= 0,
    decreases dts.len(),
{
    if dts.len() > 0 {
        lemma_annoyance_never_negative(decayed(total, rate, dts[0]), rate, dts.drop_first());
    }
}

/// Threshold escalation: a fleeing agent whose accumulated annoyance has
/// reached the threshold moves to `Jittering` on the next transition.
pub proof fn lemma_threshold_escalation(c: Cat, d: Dog, b: CatBox)
    requires
        c.state is Flee,
        c.annoyance_total >= ANNOYANCE_THRESHOLD,
    ensures
        next_state(c, d, b) is Jittering,
{
}

/// A fleeing agent never skips the jitter: whatever the pursuer and pen,
/// its next state is not `Cannonballing`.
pub proof fn lemma_flee_never_skips_to_dash(c: Cat, d: Dog, b: CatBox)
    requires
        c.state is Flee,
    ensures
        !(next_state(c, d, b) is Cannonballing),
{
}

/// Jitter-to-dash handoff: once the jitter countdown has run out, the next
/// transition starts the dash. (The `jitter` step's own contract pins the
/// rest of the handoff: on expiry it aims `dog_target` at the pursuer from
/// the shake-end position and arms the dash timer.)
pub proof fn lemma_jitter_to_dash(c: Cat, d: Dog, b: CatBox)
    requires
        c.state is Jittering,
        c.targeting_time <= 0,
    ensures
        next_state(c, d, b) is Cannonballing,
{
}

/// Dash collision gating: a blinking pursuer cannot be hit, and a chasing
/// pursuer in overlap must be. The `cannonball` step returns exactly
/// `spec_collides`, so it reports a hit exactly once per qualifying tick.
pub proof fn lemma_dash_collision_gating(c: Cat, d: Dog)
    ensures
        d.dog_state is Blinking ==> !spec_collides(c, d),
        (d.dog_state is Chasing && spec_rects_overlap(c.pos, c.size, d.pos, d.size))
            ==> spec_collides(c, d),
{
}

/// The movement clamp asymmetry: after any move, the strict clamp confines
/// an agent's center to `[half, bound - half]` on an axis, while the loose
/// clamp lets the pursuer's center reach the full `[0, bound]`.
pub proof fn lemma_clamp_asymmetry(p: int, change: int, bound: int)
    requires
        CAT_SIZE <= bound,
    ensures
        CAT_SIZE / 2 <= clamp1(p + change, CAT_SIZE / 2, bound - CAT_SIZE / 2) <= bound - CAT_SIZE
            / 2,
        0 <= clamp1(p + change, 0, bound) <= bound,
{
}

/// The penned count reaches the total exactly when every agent's state is
/// `InPen`: the meaning of `CatStats::all_penned` over the agents it was
/// computed from.
pub proof fn lemma_count_in_pen_full(s: Seq<Cat>)
    ensures
        count_in_pen(s) == s.len() <==> (forall|i: int|
            0 <= i < s.len() ==> (#[trigger] s[i]).state is InPen),
    decreases s.len(),
{
    crate::world::lemma_count_in_pen_le_len(s);
    if s.len() > 0 {
        lemma_count_in_pen_full(s.drop_last());
        crate::world::lemma_count_in_pen_le_len(s.drop_last());
        assert(forall|i: int| 0 <= i < s.len() - 1 ==> s.drop_last()[i] == s[i]);
        if count_in_pen(s) == s.len() {
            assert(forall|i: int|
                0 <= i < s.len() ==> (#[trigger] s[i]).state is InPen) by {
                assert(count_in_pen(s.drop_last()) == s.drop_last().len());
                assert(s.last().state is InPen);
                assert(forall|i: int|
                    0 <= i < s.len() - 1 ==> (#[trigger] s[i]).state is InPen);
                assert(s[s.len() - 1] == s.last());
            }
        }
    }
}

} // verus!
