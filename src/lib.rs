//! Lifecycle policies for tween animations in an entity-component world:
//! removing targets from tweens, despawning tweens that are left with no
//! target, despawning animation parents that are left with no tween,
//! arbitrating between conflicting tweens by priority, and tagging tweens to
//! be skipped.
//!
//! The world itself is not held here. Each decision is a function from the
//! plain values that the world holds (entity ids, target lists, priorities)
//! to the plain values that say what to change.

pub mod entity;
pub mod target_extractor;
pub mod tween_target_remover;
pub mod tween_request;
pub mod tween_priority;
pub mod animation_parent_destroyer;
pub mod event_animation_parent_tagger;
pub mod tween_skip_tagger;
pub mod system_sets;
