//! Requests to remove targets from tweens.
use vstd::prelude::*;
use core::marker::PhantomData;
use crate::entity::EntityId;

verus! {

/// A request to change the targets of tweens.
#[derive(Clone, Debug)]
pub enum TweenRequest {
    /// Remove some targets from one tween.
    RemoveEntity(RemoveTweenTargets),
    /// Remove these entities from every tween that targets them.
    RemoveTargetsFromAllTweensTargetingThem(Vec<EntityId>),
}

/// Which targets to remove from which tween.
#[derive(Clone, Debug)]
pub struct RemoveTweenTargets {
    pub tween_entity: EntityId,
    pub targets_to_remove: Vec<EntityId>,
}

/// A request, seen as plain values.
pub ghost enum TweenRequestView {
    RemoveEntity { tween_entity: EntityId, targets_to_remove: Seq<EntityId> },
    RemoveTargetsFromAllTweensTargetingThem(Seq<EntityId>),
}

impl View for TweenRequest {
    type V = TweenRequestView;

    open spec fn view(&self) -> TweenRequestView {
        match self {
            TweenRequest::RemoveEntity(r) => TweenRequestView::RemoveEntity {
                tween_entity: r.tween_entity,
                targets_to_remove: r.targets_to_remove@,
            },
            TweenRequest::RemoveTargetsFromAllTweensTargetingThem(v) => {
                TweenRequestView::RemoveTargetsFromAllTweensTargetingThem(v@)
            },
        }
    }
}

/// The views of a list of requests.
pub open spec fn requests_view(requests: Seq<TweenRequest>) -> Seq<TweenRequestView> {
    requests.map_values(|r: TweenRequest| r@)
}

impl TweenRequest {
    /// The removal from one tween that this request asks for, if it asks for one.
    pub fn as_remove_entity(&self) -> (r: Option<&RemoveTweenTargets>)
        ensures
            match self {
                TweenRequest::RemoveEntity(t) => r == Some(t),
                _ => r is None,
            },
    {
        match self {
            TweenRequest::RemoveEntity(t) => Some(t),
            _ => None,
        }
    }
}

/// A request to remove these targets from every tween of the type `T`.
#[derive(Debug)]
pub struct RemoveTargetsFromAllTweensOfType<T> {
    pub targets: Vec<EntityId>,
    /// Marks the tween type that the request is for.
    pub tween_type: PhantomData<T>,
}

impl<T> RemoveTargetsFromAllTweensOfType<T> {
    pub fn new(targets: Vec<EntityId>) -> (r: Self)
        ensures
            r.targets@ == targets@,
    {
        Self { targets, tween_type: PhantomData }
    }
}

} // verus!
