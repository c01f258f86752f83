//! What a tween animates: the model of a tween's target.
use vstd::prelude::*;
use crate::entity::EntityId;

verus! {

/// The target of a tween.
#[derive(Clone, Debug)]
pub enum TweenTarget {
    /// The tween finds its target by walking up to a marked ancestor.
    Marker,
    /// The tween animates this entity.
    Entity(EntityId),
    /// The tween animates these entities.
    Entities(Vec<EntityId>),
}

impl TweenTarget {
    /// The entities that a tween names as its targets; a marker target names none.
    pub open spec fn targets(self) -> Seq<EntityId> {
        match self {
            TweenTarget::Marker => Seq::empty(),
            TweenTarget::Entity(e) => seq![e],
            TweenTarget::Entities(v) => v@,
        }
    }
}

/// The targets of a tween as a list.
pub fn get_tween_targets(tween: &TweenTarget) -> (r: Vec<EntityId>)
    ensures
        r@ == tween.targets(),
{
    match tween {
        TweenTarget::Marker => Vec::new(),
        TweenTarget::Entity(target) => vec![*target],
        TweenTarget::Entities(targets) => targets.clone(),
    }
}

} // verus!
