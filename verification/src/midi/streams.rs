//! Errors of streams of MIDI packets.

use vstd::prelude::*;

verus! {

/// Indicates something went wrong with a stream of MIDI packets.
#[derive(Debug, Clone, Copy, PartialEq, Eq)]
pub enum MidiStreamError {
    /// The MIDI port failed.
    PortError,
}

} // verus!
