//! Error taxonomy of the canvas core.

use vstd::prelude::*;

use crate::gpu::BackendError;

verus! {

/// What can go wrong in this core.  Every fallible operation returns one of
/// these; nothing is swallowed.
#[derive(Clone, Copy, Debug, PartialEq, Eq)]
pub enum GameError {
    /// A requested dimension is zero or exceeds the backend's texture-size
    /// limit.  The caller may retry with smaller dimensions.
    UnsupportedSize,
    /// The backend rejected texture creation; the cause is passed through
    /// unchanged and no partial resource is retained.
    BackendFailure(BackendError),
}

/// Result type of the fallible operations of this core.
pub type GameResult<T> = Result<T, GameError>;

} // verus!
