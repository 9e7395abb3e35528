//! Branching-narrative playback and completion tracking.
//!
//! A route trigger names a story branch. The branch's timeline is validated,
//! played beat by beat at the pace the timeline declares, and on completion
//! registers an ending in a progress record. Once every primary ending has
//! been reached the record unlocks the Final Bell, exactly once.

pub mod director;
pub mod director_laws;
pub mod endings;
pub mod route_events;
pub mod items;
pub mod messages;
pub mod narrative;
pub mod playback;
pub mod playback_laws;
pub mod progression;
pub mod progression_laws;
pub mod route_mapping;
pub mod timecode;
