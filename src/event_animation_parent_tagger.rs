//! Marking new animation parents that hold event-emitting tweens, so that
//! they can be destroyed once only events are left in them.
use vstd::prelude::*;
use core::marker::PhantomData;
use crate::entity::{EntityId, contains_any};
use crate::animation_parent_destroyer::TimeRunnerChildren;

verus! {

/// Registers the tagging of animation parents on the schedule `schedule`, for
/// the time runners of the time step `TimeStep`.
#[derive(Debug)]
pub struct EventAnimationParentTaggerOnSchedulePlugin<TimeStep, S> {
    pub schedule: S,
    pub time_step_marker: PhantomData<TimeStep>,
}

impl<TimeStep, S> EventAnimationParentTaggerOnSchedulePlugin<TimeStep, S> {
    pub fn on_schedule(schedule: S) -> (r: Self)
        ensures
            r.schedule == schedule,
    {
        Self { schedule, time_step_marker: PhantomData }
    }
}

/// Whether some child of `children` is an event-emitting tween.
pub open spec fn has_event_tween(children: Seq<EntityId>, event_tweens: Seq<EntityId>) -> bool {
    exists|i: int| 0 <= i < children.len() && event_tweens.contains(#[trigger] children[i])
}

/// The time runners of `runners` with an event-emitting child, in their order.
pub open spec fn parents_with_event_tweens(
    runners: Seq<TimeRunnerChildren>,
    event_tweens: Seq<EntityId>,
) -> Seq<EntityId>
    decreases runners.len(),
{
    if runners.len() == 0 {
        Seq::empty()
    } else if has_event_tween(runners.last().children@, event_tweens) {
        parents_with_event_tweens(runners.drop_last(), event_tweens).push(runners.last().time_runner)
    } else {
        parents_with_event_tweens(runners.drop_last(), event_tweens)
    }
}

/// The new time runners to mark for destruction once only events are left:
/// those with at least one child among the event-emitting tweens `event_tweens`.
pub fn tag_animation_parents_with_destruction_marker(
    new_time_runners: &Vec<TimeRunnerChildren>,
    event_tweens: &Vec<EntityId>,
) -> (tagged: Vec<EntityId>)
    ensures
        tagged@ == parents_with_event_tweens(new_time_runners@, event_tweens@),
{
    let mut tagged: Vec<EntityId> = Vec::new();
    let mut i: usize = 0;
    while i < new_time_runners.len()
        invariant
            i <= new_time_runners@.len(),
            tagged@ == parents_with_event_tweens(new_time_runners@.take(i as int), event_tweens@),
        decreases new_time_runners@.len() - i,
    {
        let runner = &new_time_runners[i];
        if contains_any(&runner.children, event_tweens) {
            tagged.push(runner.time_runner);
        }
        proof {
            let next = new_time_runners@.take(i + 1);
            assert(next.drop_last() =~= new_time_runners@.take(i as int));
            assert(next.last() == *runner);
        }
        i = i + 1;
    }
    assert(new_time_runners@.take(new_time_runners@.len() as int) =~= new_time_runners@);
    tagged
}

} // verus!
