use bevy_tween_helpers::entity::EntityId;
use bevy_tween_helpers::target_extractor::TweenTarget;
use bevy_tween_helpers::tween_priority::{
    handle_tween_priority_on_spawn, handle_tween_priority_to_others_of_type,
    remove_intersecting_targets_for_weaker_tween, try_get_other_tween_priority, TweenOfType,
    TweenPriorityToOthersOfType,
};
use bevy_tween_helpers::tween_request::TweenRequest;
use bevy_tween_helpers::tween_target_remover::remove_target_and_destroy_if_has_none;

const TARGET: EntityId = EntityId(1);
const PARENT_A: EntityId = EntityId(100);
const PARENT_B: EntityId = EntityId(200);
const TWEEN_A: EntityId = EntityId(101);
const TWEEN_B: EntityId = EntityId(201);

fn tween(
    entity: EntityId,
    parent: EntityId,
    priority: Option<u32>,
    parent_priority: Option<u32>,
    target: TweenTarget,
) -> TweenOfType {
    TweenOfType {
        entity,
        parent,
        priority: priority.map(TweenPriorityToOthersOfType),
        parent_priority: parent_priority.map(TweenPriorityToOthersOfType),
        target,
    }
}

/// Runs the priority rules on tweens that were all spawned in one frame, then
/// the removal requests that they make; returns the tweens left alive.
fn surviving_tweens(tweens: Vec<TweenOfType>) -> Vec<EntityId> {
    let requests = handle_tween_priority_on_spawn(&tweens, &tweens);
    let mut targets: Vec<(EntityId, TweenTarget, bool)> =
        tweens.iter().map(|t| (t.entity, t.target.clone(), false)).collect();
    for request in &requests {
        if let Some(removal) = request.as_remove_entity() {
            for (entity, target, despawned) in targets.iter_mut() {
                if *entity == removal.tween_entity
                    && remove_target_and_destroy_if_has_none(&removal.targets_to_remove, target)
                {
                    *despawned = true;
                }
            }
        }
    }
    targets.into_iter().filter(|t| !t.2).map(|t| t.0).collect()
}

#[test]
fn test_two_tween_with_priorities() {
    let survivors = surviving_tweens(vec![
        tween(TWEEN_A, PARENT_A, Some(10), None, TweenTarget::Entity(TARGET)),
        tween(TWEEN_B, PARENT_B, Some(9), None, TweenTarget::Entity(TARGET)),
    ]);
    assert_eq!(survivors, vec![TWEEN_A]);
}

#[test]
fn test_tween_with_priority_and_one_without() {
    let survivors = surviving_tweens(vec![
        tween(TWEEN_A, PARENT_A, Some(10), None, TweenTarget::Entity(TARGET)),
        tween(TWEEN_B, PARENT_B, None, None, TweenTarget::Entity(TARGET)),
    ]);
    assert_eq!(survivors, vec![TWEEN_A, TWEEN_B]);
}

#[test]
fn test_tween_priority_through_parent() {
    let survivors = surviving_tweens(vec![
        tween(TWEEN_A, PARENT_A, Some(10), None, TweenTarget::Entity(TARGET)),
        tween(TWEEN_B, PARENT_B, None, Some(9), TweenTarget::Entity(TARGET)),
    ]);
    assert_eq!(survivors, vec![TWEEN_A]);
}

#[test]
fn equal_priorities_spawned_together_destroy_both() {
    let survivors = surviving_tweens(vec![
        tween(TWEEN_A, PARENT_A, Some(5), None, TweenTarget::Entity(TARGET)),
        tween(TWEEN_B, PARENT_B, Some(5), None, TweenTarget::Entity(TARGET)),
    ]);
    assert_eq!(survivors, Vec::<EntityId>::new());
}

#[test]
fn own_priority_overrides_parent_priority() {
    assert_eq!(
        try_get_other_tween_priority(
            Some(TweenPriorityToOthersOfType(3)),
            Some(TweenPriorityToOthersOfType(8))
        ),
        Some(3)
    );
    assert_eq!(try_get_other_tween_priority(None, Some(TweenPriorityToOthersOfType(8))), Some(8));
    assert_eq!(try_get_other_tween_priority(None, None), None);
}

#[test]
fn sibling_tweens_do_not_fight() {
    let survivors = surviving_tweens(vec![
        tween(TWEEN_A, PARENT_A, Some(10), None, TweenTarget::Entity(TARGET)),
        tween(TWEEN_B, PARENT_A, Some(9), None, TweenTarget::Entity(TARGET)),
    ]);
    assert_eq!(survivors, vec![TWEEN_A, TWEEN_B]);
}

#[test]
fn weaker_newborn_loses_targets_of_older_tween() {
    let older = tween(
        TWEEN_A,
        PARENT_A,
        Some(10),
        None,
        TweenTarget::Entities(vec![EntityId(1), EntityId(2)]),
    );
    let newborn = tween(
        TWEEN_B,
        PARENT_B,
        Some(4),
        None,
        TweenTarget::Entities(vec![EntityId(2), EntityId(3)]),
    );
    let mut requests = Vec::new();
    let all = vec![older, newborn.clone()];
    handle_tween_priority_to_others_of_type(
        &mut requests,
        &TweenPriorityToOthersOfType(4),
        &newborn,
        &all,
    );
    assert_eq!(requests.len(), 1);
    let removal = requests[0].as_remove_entity().unwrap();
    assert_eq!(removal.tween_entity, TWEEN_B);
    assert_eq!(removal.targets_to_remove, vec![EntityId(1), EntityId(2)]);

    let mut target = newborn.target.clone();
    assert!(!remove_target_and_destroy_if_has_none(&removal.targets_to_remove, &mut target));
    assert_eq!(bevy_tween_helpers::target_extractor::get_tween_targets(&target), vec![EntityId(3)]);
}

#[test]
fn stronger_newborn_takes_targets_from_older_tween() {
    let older = tween(TWEEN_A, PARENT_A, None, Some(2), TweenTarget::Entity(EntityId(5)));
    let newborn = tween(TWEEN_B, PARENT_B, Some(2), None, TweenTarget::Entity(EntityId(6)));
    let mut requests = Vec::new();
    handle_tween_priority_to_others_of_type(
        &mut requests,
        &TweenPriorityToOthersOfType(2),
        &newborn,
        &vec![older],
    );
    assert_eq!(requests.len(), 1);
    let removal = requests[0].as_remove_entity().unwrap();
    assert_eq!(removal.tween_entity, TWEEN_A);
    assert_eq!(removal.targets_to_remove, vec![EntityId(6)]);
}

#[test]
fn dominant_tween_without_targets_asks_nothing() {
    let mut requests: Vec<TweenRequest> = Vec::new();
    remove_intersecting_targets_for_weaker_tween(&mut requests, &TweenTarget::Marker, TWEEN_B);
    assert!(requests.is_empty());
    remove_intersecting_targets_for_weaker_tween(
        &mut requests,
        &TweenTarget::Entities(vec![]),
        TWEEN_B,
    );
    assert!(requests.is_empty());
    remove_intersecting_targets_for_weaker_tween(
        &mut requests,
        &TweenTarget::Entity(TARGET),
        TWEEN_B,
    );
    assert_eq!(requests.len(), 1);
}
