//! Entity ids and searches over lists of them.
use vstd::prelude::*;

verus! {

/// The id of an entity of the world, as the bits that identify it.
#[derive(Clone, Copy, Debug, PartialEq, Eq, Structural, Hash)]
pub struct EntityId(pub u64);

/// Whether `entities` holds `entity`.
pub fn contains_entity(entities: &Vec<EntityId>, entity: EntityId) -> (r: bool)
    ensures
        r == entities@.contains(entity),
{
    let mut i: usize = 0;
    while i < entities.len()
        invariant
            i <= entities@.len(),
            forall|j: int| 0 <= j < i ==> entities@[j] != entity,
        decreases entities@.len() - i,
    {
        if entities[i] == entity {
            return true;
        }
        i = i + 1;
    }
    false
}

/// Whether some entity of `entities` is in `set`.
pub fn contains_any(entities: &Vec<EntityId>, set: &Vec<EntityId>) -> (r: bool)
    ensures
        r == exists|i: int| 0 <= i < entities@.len() && set@.contains(#[trigger] entities@[i]),
{
    let mut i: usize = 0;
    while i < entities.len()
        invariant
            i <= entities@.len(),
            forall|j: int| 0 <= j < i ==> !set@.contains(#[trigger] entities@[j]),
        decreases entities@.len() - i,
    {
        if contains_entity(set, entities[i]) {
            return true;
        }
        i = i + 1;
    }
    false
}

/// Whether every entity of `entities` is `entity` (so also when there is none).
pub fn all_equal_to(entities: &Vec<EntityId>, entity: EntityId) -> (r: bool)
    ensures
        r == forall|i: int| 0 <= i < entities@.len() ==> #[trigger] entities@[i] == entity,
{
    let mut i: usize = 0;
    while i < entities.len()
        invariant
            i <= entities@.len(),
            forall|j: int| 0 <= j < i ==> #[trigger] entities@[j] == entity,
        decreases entities@.len() - i,
    {
        if entities[i] != entity {
            return false;
        }
        i = i + 1;
    }
    true
}

} // verus!
