//! A read-only network-state reporting library: decoders that turn the
//! kernel's loosely-typed netlink attribute lists into typed per-interface
//! payloads, a registry of interface records, a reconciliation pass that
//! resolves numeric cross-references into names, and the decision logic of
//! the two-phase wireless query.
//!
//! Transport I/O (opening netlink sockets, driving asynchronous response
//! streams) is left to the callers; the functions here consume
//! already-deserialized attribute values and are verified.

pub mod error;
pub mod iface;
pub mod ipvlan;
pub mod reconcile;
pub mod text;
pub mod vxlan;
pub mod wifi;

pub use error::ErrorKind;
pub use error::NisporError;
pub use error::SnapshotPhase;
pub use iface::Iface;
pub use iface::IfaceState;
pub use iface::IfaceType;
pub use ipvlan::IpVlanFlag;
pub use ipvlan::IpVlanInfo;
pub use ipvlan::IpVlanMode;
pub use vxlan::VxlanInfo;
pub use wifi::WifiInfo;
