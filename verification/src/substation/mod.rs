//! SubStation Alpha subtitles, in their two versions.

/// Advanced SubStation Alpha v4+ (.ass) implementations
pub mod ass;
/// What the two SubStation versions share
pub mod common;
/// SubStation Alpha v4 (.ssa) implementations
pub mod ssa;

pub use common::data::{SubStationEventKind, SubStationFont, SubStationGraphic};
