use vstd::prelude::*;

verus! {

/// Every recoverable condition the registry reports instead of failing.
#[derive(Clone, Copy, PartialEq, Eq, Structural, Debug)]
pub enum BulbError {
    /// A service reply named a port or service other than the sender's.
    ServiceMismatch,
    /// A zone report named indices beyond the zones it reported.
    ZoneIndexOutOfRange,
    /// A datagram carried the all-zero identity: the sender does not name
    /// itself yet, so no record can be kept for it.
    ZeroIdentity,
    /// Color or zone data was read before any reply supplied it.
    NotYetAvailable,
}

} // verus!
