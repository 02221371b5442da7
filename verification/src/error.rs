use vstd::prelude::*;

verus! {

/// The stage of a snapshot in which a transport-level failure arose.
#[derive(Debug, Clone, Copy, PartialEq, Eq, Structural)]
pub enum SnapshotPhase {
    /// The wired link dump over the general routing family.
    WiredLinks,
    /// The wireless radio-interface enumeration.
    WirelessInterfaces,
    /// The per-interface station dumps.
    WirelessStations,
}

/// The closed taxonomy of failures a snapshot call can surface. Decode
/// anomalies, unknown attribute codes and reconciliation misses are never
/// errors: they are absorbed by catch-all variants and defaulted fields.
#[derive(Debug, Clone, Copy, PartialEq, Eq, Structural)]
pub enum ErrorKind {
    /// A netlink transport could not be opened; fatal to the whole call.
    TransportOpen(SnapshotPhase),
    /// A netlink transport failed mid-stream; fatal to the call, since a
    /// partial snapshot would be misleading.
    TransportIo(SnapshotPhase),
    /// The wireless subsystem is absent on this host; callers may keep the
    /// wired-only snapshot.
    WirelessUnavailable,
}

/// The single error type returned from a snapshot call.
#[derive(Debug, Clone)]
pub struct NisporError {
    pub kind: ErrorKind,
    pub msg: String,
}

impl NisporError {
    pub fn new(kind: ErrorKind, msg: String) -> (r: Self)
        ensures
            r.kind == kind,
            r.msg@ == msg@,
    {
        NisporError { kind, msg }
    }
}

} // verus!
