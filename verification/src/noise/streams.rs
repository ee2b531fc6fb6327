//! Errors of noise streams.

use vstd::prelude::*;

verus! {

/// Indicates something went wrong with a noise stream.
#[derive(Debug, Clone, PartialEq, Eq)]
pub enum NoiseStreamError {
    /// The noise stream's generator failed (with a description).
    Generator(String),
}

} // verus!
