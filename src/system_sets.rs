//! The phases in which the tween helpers run.
use vstd::prelude::*;

verus! {

/// The phases of the tween helpers' work in a schedule: the phase before
/// target removal runs first, then target removal.
#[derive(Clone, Copy, Debug, Hash, PartialEq, Eq, Structural)]
pub enum TweenHelpersSystemSet {
    PreTargetRemoval,
    TargetRemoval,
}

} // verus!
