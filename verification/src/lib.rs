//! Relay orchestration core: the decisions taken while a live broadcast is
//! mirrored from a source platform onto a destination room.

pub mod destination;
pub mod json;
pub mod markup;
pub mod pattern;
pub mod preview;
pub mod reconcile;
pub mod relay;
pub mod retry;
pub mod source;
pub mod status;
pub mod text;
