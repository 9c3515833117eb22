//! The two ways in which the core refuses to work.

use vstd::prelude::*;

verus! {

/// A mesh description that cannot be turned into geometry.
#[derive(Clone, Copy, Debug, PartialEq, Eq, Structural)]
pub enum ConfigError {
    /// Every triangle edge must be cut into at least one step.
    ZeroSubdivisions,
    /// The vertices are numbered with 16 bits, so there can be at most
    /// 65536 of them.
    TooManyVertices,
}

/// The device could not take an upload.
#[derive(Clone, Copy, Debug, PartialEq, Eq, Structural)]
pub enum DeviceError {
    /// The device-side buffer is unallocated or was lost with its context.
    InvalidHandle,
}

} // verus!
