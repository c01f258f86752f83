//! Removing targets from tweens, and deciding which tweens are left with
//! nothing to animate.
use vstd::prelude::*;
use core::marker::PhantomData;
use crate::entity::{EntityId, contains_entity};
use crate::target_extractor::TweenTarget;

verus! {

/// Marks an entity as the target of the tween that it holds.
#[derive(Clone, Copy, Debug, PartialEq, Eq, Structural)]
pub struct TweenTargetOf(pub EntityId);

/// Registers the handling of target removal requests for tweens of the type
/// `T` and the time step `TimeStep` on the schedule `schedule`.
#[derive(Debug)]
pub struct TweenTargetRemoverOnSchedule<T, TimeStep, S> {
    pub schedule: S,
    pub tween_type_marker: PhantomData<T>,
    pub time_step_marker: PhantomData<TimeStep>,
}

impl<T, TimeStep, S> TweenTargetRemoverOnSchedule<T, TimeStep, S> {
    pub fn on_schedule(schedule: S) -> (r: Self)
        ensures
            r.schedule == schedule,
    {
        Self { schedule, tween_type_marker: PhantomData, time_step_marker: PhantomData }
    }
}

/// The targets of `targets` that `removed` does not name, in their order.
pub open spec fn remaining_targets(targets: Seq<EntityId>, removed: Seq<EntityId>) -> Seq<EntityId> {
    targets.filter(|e: EntityId| !removed.contains(e))
}

/// How removing the entities `removed` takes a tween's target from `before`
/// to `after`, and whether the tween is then despawned:
/// - a marker target is left alone;
/// - a single target is left as it is, and the tween is despawned when
///   `removed` names that target;
/// - a list of targets loses every entity that `removed` names, and the tween
///   is despawned when none is left.
pub open spec fn removes_targets(
    before: TweenTarget,
    removed: Seq<EntityId>,
    after: TweenTarget,
    despawn: bool,
) -> bool {
    match before {
        TweenTarget::Marker => after is Marker && !despawn,
        TweenTarget::Entity(e) => after == TweenTarget::Entity(e) && despawn == removed.contains(e),
        TweenTarget::Entities(v) => {
            &&& after is Entities
            &&& after.targets() == remaining_targets(v@, removed)
            &&& despawn == (remaining_targets(v@, removed).len() == 0)
        },
    }
}

/// Removing entities from a tween leaves it despawned or targeting none of
/// them, and it never gains a target.
pub proof fn lemma_removal_leaves_no_removed_target(
    before: TweenTarget,
    removed: Seq<EntityId>,
    after: TweenTarget,
    despawn: bool,
)
    requires
        removes_targets(before, removed, after, despawn),
    ensures
        despawn || forall|i: int|
            0 <= i < after.targets().len() ==> !removed.contains(#[trigger] after.targets()[i]),
        forall|i: int|
            0 <= i < after.targets().len() ==> before.targets().contains(#[trigger] after.targets()[i]),
{
    match before {
        TweenTarget::Marker => {},
        TweenTarget::Entity(e) => {
            assert(before.targets()[0] == e);
        },
        TweenTarget::Entities(v) => {
            let pred = |e: EntityId| !removed.contains(e);
            assert(remaining_targets(v@, removed) == v@.filter(pred));
            assert forall|i: int| 0 <= i < after.targets().len() implies !removed.contains(
                #[trigger] after.targets()[i],
            ) && before.targets().contains(after.targets()[i]) by {
                v@.lemma_filter_pred(pred, i);
                assert(v@.filter(pred).contains(v@.filter(pred)[i]));
                v@.lemma_filter_contains_rev(pred, v@.filter(pred)[i]);
            }
        },
    }
}

/// The targets of `targets` that `removed` does not name, in their order.
fn unmatched_targets(targets: &Vec<EntityId>, removed: &Vec<EntityId>) -> (r: Vec<EntityId>)
    ensures
        r@ == remaining_targets(targets@, removed@),
{
    let mut kept: Vec<EntityId> = Vec::new();
    let mut i: usize = 0;
    while i < targets.len()
        invariant
            i <= targets@.len(),
            kept@ == remaining_targets(targets@.take(i as int), removed@),
        decreases targets@.len() - i,
    {
        let target = targets[i];
        if !contains_entity(removed, target) {
            kept.push(target);
        }
        proof {
            reveal(Seq::filter);
            assert(targets@.take(i + 1).drop_last() =~= targets@.take(i as int));
        }
        i = i + 1;
    }
    assert(targets@.take(targets@.len() as int) =~= targets@);
    kept
}

/// Removes the entities `targets_to_match` from one tween's target and says
/// whether the tween is to be despawned (see `removes_targets`).
pub fn remove_target_and_destroy_if_has_none(
    targets_to_match: &Vec<EntityId>,
    tween: &mut TweenTarget,
) -> (despawn: bool)
    ensures
        removes_targets(*old(tween), targets_to_match@, *final(tween), despawn),
{
    match tween {
        TweenTarget::Marker => false,
        TweenTarget::Entity(target) => contains_entity(targets_to_match, *target),
        TweenTarget::Entities(targets) => {
            let kept = unmatched_targets(targets, targets_to_match);
            let despawn = kept.len() == 0;
            *targets = kept;
            despawn
        },
    }
}

/// Removes the entities `targets` from every tween in `tweens`, and says for
/// each tween whether it is to be despawned. An empty `targets` is no request
/// at all: no tween changes and none is despawned, not even one that already
/// has an empty list of targets.
pub fn remove_targets_from_all_tweens(
    targets: &Vec<EntityId>,
    tweens: &mut Vec<TweenTarget>,
) -> (despawn: Vec<bool>)
    ensures
        final(tweens)@.len() == old(tweens)@.len(),
        despawn@.len() == old(tweens)@.len(),
        targets@.len() == 0 ==> final(tweens)@ == old(tweens)@ && forall|i: int|
            0 <= i < despawn@.len() ==> !despawn@[i],
        targets@.len() > 0 ==> forall|i: int|
            0 <= i < despawn@.len() ==> removes_targets(
                old(tweens)@[i],
                targets@,
                final(tweens)@[i],
                despawn@[i],
            ),
{
    let mut despawn: Vec<bool> = Vec::new();
    let n = tweens.len();
    if targets.len() == 0 {
        let mut i: usize = 0;
        while i < n
            invariant
                i <= n,
                despawn@.len() == i,
                forall|j: int| 0 <= j < i ==> !despawn@[j],
            decreases n - i,
        {
            despawn.push(false);
            i = i + 1;
        }
        return despawn;
    }
    let mut i: usize = 0;
    while i < n
        invariant
            n == old(tweens)@.len(),
            tweens@.len() == n,
            i <= n,
            despawn@.len() == i,
            targets@.len() > 0,
            forall|j: int| 0 <= j < i ==> removes_targets(
                old(tweens)@[j],
                targets@,
                tweens@[j],
                despawn@[j],
            ),
            forall|j: int| i <= j < n ==> tweens@[j] == old(tweens)@[j],
        decreases n - i,
    {
        let d = remove_target_and_destroy_if_has_none(targets, &mut tweens[i]);
        despawn.push(d);
        i = i + 1;
    }
    despawn
}

} // verus!
