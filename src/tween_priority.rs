//! Priority between conflicting tweens of one type.
//!
//! When a tween with a priority is spawned, it is compared with every other
//! tween of its type that has a priority and does not share its parent. Of
//! each such pair, the tween with the lower priority loses the targets of the
//! other; on a tie the newborn tween wins. A tween's own priority overrides
//! that of its parent animation, and a tween with neither takes no part.
use vstd::prelude::*;
use crate::entity::EntityId;
use crate::target_extractor::{TweenTarget, get_tween_targets};
use crate::tween_request::{TweenRequest, TweenRequestView, RemoveTweenTargets, requests_view};

verus! {

/// The priority of a tween, or of an animation parent for all of its tweens.
#[derive(Clone, Copy, Debug, PartialEq, Eq, Structural)]
pub struct TweenPriorityToOthersOfType(pub u32);

/// One tween of a type, as the priority rules read it.
#[derive(Clone, Debug)]
pub struct TweenOfType {
    pub entity: EntityId,
    /// The animation parent that the tween is a child of.
    pub parent: EntityId,
    /// The tween's own priority.
    pub priority: Option<TweenPriorityToOthersOfType>,
    /// The priority of the tween's animation parent.
    pub parent_priority: Option<TweenPriorityToOthersOfType>,
    pub target: TweenTarget,
}

/// The priority that holds for a tween: its own, else its parent's.
pub open spec fn priority_of(
    own: Option<TweenPriorityToOthersOfType>,
    parent: Option<TweenPriorityToOthersOfType>,
) -> Option<u32> {
    match own {
        Some(p) => Some(p.0),
        None => match parent {
            Some(p) => Some(p.0),
            None => None,
        },
    }
}

/// The priority level that holds for a tween: its own, else its parent's.
pub fn try_get_other_tween_priority(
    maybe_other_tween_priority: Option<TweenPriorityToOthersOfType>,
    other_tween_parent_priority: Option<TweenPriorityToOthersOfType>,
) -> (r: Option<u32>)
    ensures
        r == priority_of(maybe_other_tween_priority, other_tween_parent_priority),
{
    match maybe_other_tween_priority {
        Some(TweenPriorityToOthersOfType(level)) => Some(level),
        None => match other_tween_parent_priority {
            Some(TweenPriorityToOthersOfType(parent_level)) => Some(parent_level),
            None => None,
        },
    }
}

/// The requests that take the targets `dominant_targets` away from the tween
/// `weaker`: one request, or none when there is nothing to take.
pub open spec fn removal_requests(dominant_targets: Seq<EntityId>, weaker: EntityId) -> Seq<
    TweenRequestView,
> {
    if dominant_targets.len() == 0 {
        Seq::empty()
    } else {
        seq![
            TweenRequestView::RemoveEntity {
                tween_entity: weaker,
                targets_to_remove: dominant_targets,
            },
        ]
    }
}

/// Asks that the targets of the dominant tween be removed from the weaker one.
pub fn remove_intersecting_targets_for_weaker_tween(
    tween_request_writer: &mut Vec<TweenRequest>,
    dominant_tween: &TweenTarget,
    weaker_tween_entity: EntityId,
)
    ensures
        requests_view(final(tween_request_writer)@) == requests_view(old(tween_request_writer)@)
            + removal_requests(dominant_tween.targets(), weaker_tween_entity),
{
    let dominant_tween_targets = get_tween_targets(dominant_tween);
    if dominant_tween_targets.len() > 0 {
        let request = TweenRequest::RemoveEntity(
            RemoveTweenTargets {
                tween_entity: weaker_tween_entity,
                targets_to_remove: dominant_tween_targets,
            },
        );
        tween_request_writer.push(request);
        assert(requests_view(tween_request_writer@) =~= requests_view(old(tween_request_writer)@)
            + removal_requests(dominant_tween.targets(), weaker_tween_entity));
    } else {
        assert(requests_view(tween_request_writer@) =~= requests_view(old(tween_request_writer)@)
            + removal_requests(dominant_tween.targets(), weaker_tween_entity));
    }
}

/// What the newborn tween with priority level `priority` asks of one other
/// tween of its type.
pub open spec fn conflict_requests(priority: u32, newborn: TweenOfType, other: TweenOfType) -> Seq<
    TweenRequestView,
> {
    if other.entity != newborn.entity && other.parent != newborn.parent {
        match priority_of(other.priority, other.parent_priority) {
            Some(other_level) => if other_level <= priority {
                removal_requests(newborn.target.targets(), other.entity)
            } else {
                removal_requests(other.target.targets(), newborn.entity)
            },
            None => Seq::empty(),
        }
    } else {
        Seq::empty()
    }
}

/// What the newborn tween with priority level `priority` asks of the tweens
/// `others`, in their order.
pub open spec fn priority_requests(priority: u32, newborn: TweenOfType, others: Seq<TweenOfType>) -> Seq<
    TweenRequestView,
>
    decreases others.len(),
{
    if others.len() == 0 {
        Seq::empty()
    } else {
        priority_requests(priority, newborn, others.drop_last()) + conflict_requests(
            priority,
            newborn,
            others.last(),
        )
    }
}

/// Compares a newborn tween, of priority `tween_priority`, with every tween
/// of its type and asks for the targets of the winner of each conflict to be
/// removed from the loser.
pub fn handle_tween_priority_to_others_of_type(
    tween_request_writer: &mut Vec<TweenRequest>,
    tween_priority: &TweenPriorityToOthersOfType,
    newborn_tween: &TweenOfType,
    all_tweens_of_type: &Vec<TweenOfType>,
)
    ensures
        requests_view(final(tween_request_writer)@) == requests_view(old(tween_request_writer)@)
            + priority_requests(tween_priority.0, *newborn_tween, all_tweens_of_type@),
{
    let mut i: usize = 0;
    while i < all_tweens_of_type.len()
        invariant
            i <= all_tweens_of_type@.len(),
            requests_view(tween_request_writer@) == requests_view(old(tween_request_writer)@)
                + priority_requests(
                tween_priority.0,
                *newborn_tween,
                all_tweens_of_type@.take(i as int),
            ),
        decreases all_tweens_of_type@.len() - i,
    {
        let other = &all_tweens_of_type[i];
        let ghost before = requests_view(tween_request_writer@);
        let sibling_tweens = newborn_tween.parent == other.parent;
        if other.entity != newborn_tween.entity && !sibling_tweens {
            let other_level = try_get_other_tween_priority(other.priority, other.parent_priority);
            match other_level {
                Some(level) => {
                    if level <= tween_priority.0 {
                        remove_intersecting_targets_for_weaker_tween(
                            tween_request_writer,
                            &newborn_tween.target,
                            other.entity,
                        );
                    } else {
                        remove_intersecting_targets_for_weaker_tween(
                            tween_request_writer,
                            &other.target,
                            newborn_tween.entity,
                        );
                    }
                },
                None => {},
            }
        }
        proof {
            let prefix = all_tweens_of_type@.take(i as int);
            let next = all_tweens_of_type@.take(i + 1);
            assert(next.drop_last() =~= prefix);
            assert(next.last() == *other);
            assert(requests_view(tween_request_writer@) =~= before + conflict_requests(
                tween_priority.0,
                *newborn_tween,
                *other,
            ));
            assert(requests_view(tween_request_writer@) =~= requests_view(
                old(tween_request_writer)@,
            ) + priority_requests(tween_priority.0, *newborn_tween, next));
        }
        i = i + 1;
    }
    assert(all_tweens_of_type@.take(all_tweens_of_type@.len() as int) =~= all_tweens_of_type@);
}

/// What the newborn tweens `newborns` ask of the tweens `all`, in the order
/// of the newborns: each newborn that has a priority is compared with all.
pub open spec fn spawn_requests(newborns: Seq<TweenOfType>, all: Seq<TweenOfType>) -> Seq<
    TweenRequestView,
>
    decreases newborns.len(),
{
    if newborns.len() == 0 {
        Seq::empty()
    } else {
        let newborn = newborns.last();
        spawn_requests(newborns.drop_last(), all) + match priority_of(
            newborn.priority,
            newborn.parent_priority,
        ) {
            Some(level) => priority_requests(level, newborn, all),
            None => Seq::empty(),
        }
    }
}

/// The requests that the tweens spawned since the last run make against all
/// the tweens of their type (the newborns among them). A newborn without a
/// priority of its own or of its parent makes none.
pub fn handle_tween_priority_on_spawn(
    newborn_tweens: &Vec<TweenOfType>,
    all_tweens_of_type: &Vec<TweenOfType>,
) -> (requests: Vec<TweenRequest>)
    ensures
        requests_view(requests@) == spawn_requests(newborn_tweens@, all_tweens_of_type@),
{
    let mut requests: Vec<TweenRequest> = Vec::new();
    let mut i: usize = 0;
    assert(requests_view(requests@) =~= spawn_requests(newborn_tweens@.take(0), all_tweens_of_type@));
    while i < newborn_tweens.len()
        invariant
            i <= newborn_tweens@.len(),
            requests_view(requests@) == spawn_requests(
                newborn_tweens@.take(i as int),
                all_tweens_of_type@,
            ),
        decreases newborn_tweens@.len() - i,
    {
        let newborn = &newborn_tweens[i];
        let ghost before = requests_view(requests@);
        let maybe_priority = try_get_other_tween_priority(newborn.priority, newborn.parent_priority);
        match maybe_priority {
            Some(level) => {
                handle_tween_priority_to_others_of_type(
                    &mut requests,
                    &TweenPriorityToOthersOfType(level),
                    newborn,
                    all_tweens_of_type,
                );
            },
            None => {
                assert(requests_view(requests@) =~= before + Seq::empty());
            },
        }
        proof {
            let next = newborn_tweens@.take(i + 1);
            assert(next.drop_last() =~= newborn_tweens@.take(i as int));
            assert(next.last() == *newborn);
        }
        i = i + 1;
    }
    assert(newborn_tweens@.take(newborn_tweens@.len() as int) =~= newborn_tweens@);
    requests
}

} // verus!
