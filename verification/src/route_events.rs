//! The signals exchanged with the surrounding application.

use vstd::prelude::*;
use crate::endings::GameEnding;

verus! {

/// Inbound: the player has entered the trigger zone of a route.
#[derive(Debug, Clone, Copy, PartialEq, Eq, Structural)]
pub struct StartRoute {
    pub route_id: usize,
}

/// Outbound: a timeline has run to its end and its ending is to be registered.
#[derive(Debug, Clone, Copy, PartialEq, Eq, Structural)]
pub struct EndingCompleted {
    pub ending: GameEnding,
}

/// Outbound: the Final Bell has just become unlocked.
#[derive(Debug, Clone, Copy, PartialEq, Eq, Structural)]
pub struct FinalBellUnlocked;

} // verus!
