//! Despawning animation parents (time runners) that are done, or that have
//! no tween left.
use vstd::prelude::*;
use crate::entity::{EntityId, all_equal_to};

verus! {

/// A time runner, the parent of an animation, with its children.
#[derive(Clone, Debug)]
pub struct TimeRunnerChildren {
    pub time_runner: EntityId,
    pub children: Vec<EntityId>,
}

/// The report that a time runner has ended a run.
#[derive(Clone, Copy, Debug, PartialEq, Eq, Structural)]
pub struct TimeRunnerEnd {
    pub time_runner: EntityId,
    /// Whether the runner will not tick again: every repeat it had is exhausted.
    pub completed: bool,
}

/// The time runners of `ends` whose run is complete, in their order.
pub open spec fn completed_time_runners(ends: Seq<TimeRunnerEnd>) -> Seq<EntityId>
    decreases ends.len(),
{
    if ends.len() == 0 {
        Seq::empty()
    } else if ends.last().completed {
        completed_time_runners(ends.drop_last()).push(ends.last().time_runner)
    } else {
        completed_time_runners(ends.drop_last())
    }
}

/// The time runners to despawn on the reports `time_runner_ends`: those that
/// completed.
pub fn despawn_done_time_runners(time_runner_ends: &Vec<TimeRunnerEnd>) -> (despawn: Vec<
    EntityId,
>)
    ensures
        despawn@ == completed_time_runners(time_runner_ends@),
{
    let mut despawn: Vec<EntityId> = Vec::new();
    let mut i: usize = 0;
    while i < time_runner_ends.len()
        invariant
            i <= time_runner_ends@.len(),
            despawn@ == completed_time_runners(time_runner_ends@.take(i as int)),
        decreases time_runner_ends@.len() - i,
    {
        let end = time_runner_ends[i];
        if end.completed {
            despawn.push(end.time_runner);
        }
        proof {
            let next = time_runner_ends@.take(i + 1);
            assert(next.drop_last() =~= time_runner_ends@.take(i as int));
            assert(next.last() == end);
        }
        i = i + 1;
    }
    assert(time_runner_ends@.take(time_runner_ends@.len() as int) =~= time_runner_ends@);
    despawn
}

/// Whether a time runner with children `children` is left without a tween
/// once `removed_tween` goes: each of its children is that tween.
pub open spec fn only_child(children: Seq<EntityId>, removed_tween: EntityId) -> bool {
    forall|i: int| 0 <= i < children.len() ==> #[trigger] children[i] == removed_tween
}

/// The time runners of `runners` that are left without a tween once
/// `removed_tween` goes, in their order.
pub open spec fn runners_left_empty(runners: Seq<TimeRunnerChildren>, removed_tween: EntityId) -> Seq<
    EntityId,
>
    decreases runners.len(),
{
    if runners.len() == 0 {
        Seq::empty()
    } else if only_child(runners.last().children@, removed_tween) {
        runners_left_empty(runners.drop_last(), removed_tween).push(runners.last().time_runner)
    } else {
        runners_left_empty(runners.drop_last(), removed_tween)
    }
}

/// The time runners to despawn as the tween `removed_tween` is removed: those
/// of which it was the only child.
pub fn despawn_time_runners_with_no_children(
    removed_tween: EntityId,
    time_runners: &Vec<TimeRunnerChildren>,
) -> (despawn: Vec<EntityId>)
    ensures
        despawn@ == runners_left_empty(time_runners@, removed_tween),
{
    let mut despawn: Vec<EntityId> = Vec::new();
    let mut i: usize = 0;
    while i < time_runners.len()
        invariant
            i <= time_runners@.len(),
            despawn@ == runners_left_empty(time_runners@.take(i as int), removed_tween),
        decreases time_runners@.len() - i,
    {
        let runner = &time_runners[i];
        if all_equal_to(&runner.children, removed_tween) {
            despawn.push(runner.time_runner);
        }
        proof {
            let next = time_runners@.take(i + 1);
            assert(next.drop_last() =~= time_runners@.take(i as int));
            assert(next.last() == *runner);
        }
        i = i + 1;
    }
    assert(time_runners@.take(time_runners@.len() as int) =~= time_runners@);
    despawn
}

} // verus!
