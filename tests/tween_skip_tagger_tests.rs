use bevy_tween_helpers::entity::EntityId;
use bevy_tween_helpers::tween_skip_tagger::{
    tag_or_untag_to_skip_by_request_type, SkipTagCommand, TweenSkipTagRequest,
    TweenSkipTagRequestType, TweenSkipTagTweenRequest,
};

#[test]
fn test_skip_tagging_and_untagging() {
    let animation_parent = EntityId(1);
    let mover_tween = EntityId(2);
    let children = vec![mover_tween];
    let tweens = vec![mover_tween];

    let insert = TweenSkipTagRequest {
        animation_parent,
        request_type: TweenSkipTagRequestType::Insert,
    };
    let after_insert =
        tag_or_untag_to_skip_by_request_type(Some(&children), insert.request_type, &tweens);
    let remove = TweenSkipTagRequest {
        animation_parent,
        request_type: TweenSkipTagRequestType::Remove,
    };
    let after_remove =
        tag_or_untag_to_skip_by_request_type(Some(&children), remove.request_type, &tweens);

    assert_eq!(after_insert, vec![SkipTagCommand::InsertSkip(mover_tween)]);
    assert_eq!(after_remove, vec![SkipTagCommand::RemoveSkip(mover_tween)]);
}

#[test]
fn only_tween_children_are_tagged() {
    let children = vec![EntityId(5), EntityId(6), EntityId(7)];
    let tweens = vec![EntityId(7), EntityId(5)];
    let commands = tag_or_untag_to_skip_by_request_type(
        Some(&children),
        TweenSkipTagRequestType::Insert,
        &tweens,
    );
    assert_eq!(
        commands,
        vec![SkipTagCommand::InsertSkip(EntityId(5)), SkipTagCommand::InsertSkip(EntityId(7))]
    );
}

#[test]
fn entity_that_is_no_animation_parent_gives_no_command() {
    let commands =
        tag_or_untag_to_skip_by_request_type(None, TweenSkipTagRequestType::Remove, &vec![EntityId(1)]);
    assert!(commands.is_empty());
}

#[test]
fn tween_request_without_parent_is_ignored() {
    let request = TweenSkipTagTweenRequest::default();
    assert_eq!(request.request_type, TweenSkipTagRequestType::Insert);
    assert_eq!(request.as_tag_request(), None);
    let request = TweenSkipTagTweenRequest {
        animation_parent: Some(EntityId(4)),
        request_type: TweenSkipTagRequestType::Remove,
    };
    assert_eq!(
        request.as_tag_request(),
        Some(TweenSkipTagRequest {
            animation_parent: EntityId(4),
            request_type: TweenSkipTagRequestType::Remove
        })
    );
}
