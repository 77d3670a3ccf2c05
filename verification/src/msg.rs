//! The application-level message set carried over the wire.

use vstd::prelude::*;

verus! {

/// One decoded telemetry message.
///
/// The message set is a closed enum of kinds, versioned by the wire tag.
/// The only data-carrying kind in scope is a duration measurement (a loop
/// time, in milliseconds). Any other tag decodes to `Unknown`, which every
/// receiver treats as a no-op so that future kinds do not break old consumers.
#[derive(Clone, Copy, PartialEq, Eq, Structural, Debug)]
pub enum Msg {
    /// A duration measurement, in milliseconds.
    LoopTime(u64),
    /// A message of a kind this version does not interpret; holds the wire tag.
    Unknown(u8),
}

} // verus!
