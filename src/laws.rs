//! Properties that hold across several calls of the controller.
use vstd::prelude::*;

use crate::category::{converted, emitted, fetched, TickInput, TickOutcome};
use crate::controller::{AstraController, Category};
use crate::stream::StreamHandle;

verus! {

/// The controller and outcomes after `update(cat, ..)` is called once for
/// each element of `inputs`, in order.
pub open spec fn run_updates(c: AstraController, cat: Category, inputs: Seq<TickInput>) -> (AstraController, Seq<TickOutcome>)
    decreases inputs.len(),
{
    if inputs.len() == 0 {
        (c, Seq::empty())
    } else {
        let t = c.state_of(cat).tick(inputs[0]);
        let rest = run_updates(c.with_state(cat, t.0), cat, inputs.drop_first());
        (rest.0, seq![t.1] + rest.1)
    }
}

/// A category whose rate is 0 never fetches, converts or emits, however
/// many times it is updated and whatever the sensor would have produced;
/// the controller stays as it was.
pub proof fn lemma_zero_rate_is_inert(c: AstraController, cat: Category, inputs: Seq<TickInput>)
    requires
        c.state_of(cat).target_rate == 0,
    ensures
        run_updates(c, cat, inputs).0 == c,
        run_updates(c, cat, inputs).1.len() == inputs.len(),
        forall|j: int| 0 <= j < inputs.len() ==> {
            let o = #[trigger] run_updates(c, cat, inputs).1[j];
            o == TickOutcome::Idle && !fetched(o) && !converted(o) && !emitted(o)
        },
    decreases inputs.len(),
{
    if inputs.len() > 0 {
        assert(c.with_state(cat, c.state_of(cat)) == c);
        lemma_zero_rate_is_inert(c, cat, inputs.drop_first());
        let outs = run_updates(c, cat, inputs).1;
        let rest = run_updates(c, cat, inputs.drop_first()).1;
        assert forall|j: int| 0 <= j < inputs.len() implies outs[j] == TickOutcome::Idle by {
            if j > 0 {
                assert(outs[j] == rest[j - 1]);
            }
        }
    }
}

/// Two consecutive body updates that poll frames with the same sequence
/// index emit at most one event between them.
pub proof fn lemma_same_body_frame_emits_once(c: AstraController, first: TickInput, second: TickInput, index: i32)
    requires
        c.body.tracks_index,
        first.frame == Some(index),
        second.frame == Some(index),
    ensures
        ({
            let t1 = c.state_of(Category::Body).tick(first);
            let c1 = c.with_state(Category::Body, t1.0);
            let t2 = c1.state_of(Category::Body).tick(second);
            !(emitted(t1.1) && emitted(t2.1))
        }),
{
}

/// Tearing down leaves no stream active, so a second teardown hands back
/// no handle and changes nothing. A controller on which no stream was ever
/// started has nothing to release either.
pub proof fn lemma_teardown_twice(c: AstraController)
    ensures
        c.torn_down().active_handles() == Seq::<StreamHandle>::empty(),
        c.torn_down().torn_down() == c.torn_down(),
        !c.body.stream.is_active_spec() && !c.color.stream.is_active_spec()
            && !c.masked_color.stream.is_active_spec() ==> c.active_handles().len() == 0
            && c.torn_down() == c,
{
    assert(c.torn_down().active_handles() =~= Seq::<StreamHandle>::empty());
}

} // verus!
