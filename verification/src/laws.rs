//! Properties of the accumulator over whole runs of intents.

use vstd::prelude::*;
use crate::geometry::Point;
use crate::input::Intent;
use crate::state::step;

verus! {

/// The accumulator pair `(stroke, drawing)` after applying `intents`
/// in order, starting from `(stroke, drawing)`.
pub open spec fn run(stroke: Seq<Point>, drawing: bool, intents: Seq<Intent>) -> (
    Seq<Point>,
    bool,
)
    decreases intents.len(),
{
    if intents.len() == 0 {
        (stroke, drawing)
    } else {
        let next = step(stroke, drawing, intents[0]);
        run(next.0, next.1, intents.subrange(1, intents.len() as int))
    }
}

/// Every position handed to a start or extend intent, in call order.
pub open spec fn recorded_positions(intents: Seq<Intent>) -> Seq<Point>
    decreases intents.len(),
{
    if intents.len() == 0 {
        Seq::empty()
    } else {
        (match intents[0] {
            Intent::Start(p) => seq![p],
            Intent::Extend(p) => seq![p],
            _ => Seq::empty(),
        }) + recorded_positions(intents.subrange(1, intents.len() as int))
    }
}

/// Law: over any run of start, extend and end intents in which each
/// extend arrives while a stroke is active, the final stroke is the
/// initial stroke followed by every position handed to a start or
/// extend intent, in call order — end intents never remove points.
/// (An extend that arrives while idle is ignored and records nothing,
/// so such runs are left out by the second premise.)
pub proof fn lemma_stroke_accumulation(stroke: Seq<Point>, drawing: bool, intents: Seq<Intent>)
    requires
        forall|i: int|
            0 <= i < intents.len() ==> (intents[i] is Start || intents[i] is Extend
                || intents[i] is End),
        forall|i: int|
            0 <= i < intents.len() && intents[i] is Extend ==> run(
                stroke,
                drawing,
                intents.subrange(0, i),
            ).1,
    ensures
        run(stroke, drawing, intents).0 == stroke + recorded_positions(intents),
    decreases intents.len(),
{
    if intents.len() == 0 {
        assert(run(stroke, drawing, intents).0 =~= stroke + recorded_positions(intents));
    } else {
        let first = intents[0];
        let rest = intents.subrange(1, intents.len() as int);
        let next = step(stroke, drawing, first);
        if first is Extend {
            // the first extend arrives while drawing
            assert(intents.subrange(0, 0) =~= Seq::<Intent>::empty());
            assert(run(stroke, drawing, intents.subrange(0, 0)).1);
            assert(drawing);
        }
        // each extend in the tail still arrives while drawing
        assert forall|i: int| 0 <= i < rest.len() && rest[i] is Extend implies run(
            next.0,
            next.1,
            rest.subrange(0, i),
        ).1 by {
            let pre = intents.subrange(0, i + 1);
            assert(intents[i + 1] is Extend);
            assert(run(stroke, drawing, pre).1);
            assert(pre[0] == first);
            assert(pre.subrange(1, pre.len() as int) =~= rest.subrange(0, i));
        }
        lemma_stroke_accumulation(next.0, next.1, rest);
        assert(run(stroke, drawing, intents).0 =~= stroke + recorded_positions(intents));
    }
}

/// Law: clearing is idempotent — one clear empties the stroke and
/// deactivates drawing, and a second clear right after leaves both
/// exactly so.
pub proof fn lemma_clear_idempotent(stroke: Seq<Point>, drawing: bool)
    ensures
        step(stroke, drawing, Intent::Clear) == (Seq::<Point>::empty(), false),
        step(
            step(stroke, drawing, Intent::Clear).0,
            step(stroke, drawing, Intent::Clear).1,
            Intent::Clear,
        ) == (Seq::<Point>::empty(), false),
{
}

} // verus!
