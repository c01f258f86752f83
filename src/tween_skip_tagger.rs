//! Tagging the tweens of an animation parent to be skipped, and untagging them.
use vstd::prelude::*;
use crate::entity::{EntityId, contains_entity};

verus! {

/// Whether to tag or to untag.
#[derive(Clone, Copy, Debug, PartialEq, Eq, Structural)]
pub enum TweenSkipTagRequestType {
    Insert,
    Remove,
}

impl Default for TweenSkipTagRequestType {
    fn default() -> (r: Self)
        ensures
            r == TweenSkipTagRequestType::Insert,
    {
        TweenSkipTagRequestType::Insert
    }
}

/// A request to tag or untag the tweens of an animation parent.
#[derive(Clone, Copy, Debug, PartialEq, Eq, Structural)]
pub struct TweenSkipTagRequest {
    pub animation_parent: EntityId,
    pub request_type: TweenSkipTagRequestType,
}

/// The same request, as sent by a tween, where the parent may be missing.
#[derive(Clone, Copy, Debug, PartialEq, Eq, Structural)]
pub struct TweenSkipTagTweenRequest {
    pub animation_parent: Option<EntityId>,
    pub request_type: TweenSkipTagRequestType,
}

impl Default for TweenSkipTagTweenRequest {
    fn default() -> (r: Self)
        ensures
            r.animation_parent is None,
            r.request_type == TweenSkipTagRequestType::Insert,
    {
        TweenSkipTagTweenRequest {
            animation_parent: None,
            request_type: TweenSkipTagRequestType::Insert,
        }
    }
}

impl TweenSkipTagTweenRequest {
    /// The request to act on: none when the parent is missing.
    pub fn as_tag_request(&self) -> (r: Option<TweenSkipTagRequest>)
        ensures
            match self.animation_parent {
                Some(parent) => r == Some(
                    TweenSkipTagRequest { animation_parent: parent, request_type: self.request_type },
                ),
                None => r is None,
            },
    {
        match self.animation_parent {
            Some(animation_parent) => Some(
                TweenSkipTagRequest { animation_parent, request_type: self.request_type },
            ),
            None => None,
        }
    }
}

/// A change to make to one tween.
#[derive(Clone, Copy, Debug, PartialEq, Eq, Structural)]
pub enum SkipTagCommand {
    /// Tag the tween to be skipped.
    InsertSkip(EntityId),
    /// Remove that tag from the tween.
    RemoveSkip(EntityId),
}

/// The command that `request_type` gives for the tween `tween`.
pub open spec fn skip_command(request_type: TweenSkipTagRequestType, tween: EntityId) -> SkipTagCommand {
    match request_type {
        TweenSkipTagRequestType::Insert => SkipTagCommand::InsertSkip(tween),
        TweenSkipTagRequestType::Remove => SkipTagCommand::RemoveSkip(tween),
    }
}

/// The commands for the children of `children` that are tweens, in their order.
pub open spec fn skip_commands(
    children: Seq<EntityId>,
    request_type: TweenSkipTagRequestType,
    tweens: Seq<EntityId>,
) -> Seq<SkipTagCommand>
    decreases children.len(),
{
    if children.len() == 0 {
        Seq::empty()
    } else if tweens.contains(children.last()) {
        skip_commands(children.drop_last(), request_type, tweens).push(
            skip_command(request_type, children.last()),
        )
    } else {
        skip_commands(children.drop_last(), request_type, tweens)
    }
}

/// The commands that a request of type `request_type` gives for an animation
/// parent: one for each of its children that is among the tweens `tweens`.
/// `animation_parent_children` holds the children of the parent, or nothing
/// when the entity is not an animation parent, which then gives no command.
pub fn tag_or_untag_to_skip_by_request_type(
    animation_parent_children: Option<&Vec<EntityId>>,
    request_type: TweenSkipTagRequestType,
    tweens: &Vec<EntityId>,
) -> (commands: Vec<SkipTagCommand>)
    ensures
        match animation_parent_children {
            Some(children) => commands@ == skip_commands(children@, request_type, tweens@),
            None => commands@.len() == 0,
        },
{
    let mut commands: Vec<SkipTagCommand> = Vec::new();
    match animation_parent_children {
        Some(children) => {
            let mut i: usize = 0;
            while i < children.len()
                invariant
                    i <= children@.len(),
                    commands@ == skip_commands(children@.take(i as int), request_type, tweens@),
                decreases children@.len() - i,
            {
                let child = children[i];
                if contains_entity(tweens, child) {
                    let command = match request_type {
                        TweenSkipTagRequestType::Insert => SkipTagCommand::InsertSkip(child),
                        TweenSkipTagRequestType::Remove => SkipTagCommand::RemoveSkip(child),
                    };
                    commands.push(command);
                }
                proof {
                    let next = children@.take(i + 1);
                    assert(next.drop_last() =~= children@.take(i as int));
                    assert(next.last() == child);
                }
                i = i + 1;
            }
            assert(children@.take(children@.len() as int) =~= children@);
        },
        None => {},
    }
    commands
}

} // verus!
