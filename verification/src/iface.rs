use vstd::prelude::*;
use crate::ipvlan::{IpVlanInfo, IpVlanInfoV};
use crate::vxlan::{VxlanInfo, VxlanInfoV};
use crate::wifi::{apply_station_attrs, spec_apply_station, StationAttr, WifiInfo, WifiInfoV};

verus! {

/// Operational state of a network interface.
#[derive(Debug, Clone, Copy, PartialEq, Eq, Structural)]
pub enum IfaceState {
    Up,
    Down,
    Unknown,
}

impl Default for IfaceState {
    fn default() -> (r: Self)
        ensures
            r == IfaceState::Unknown,
    {
        IfaceState::Unknown
    }
}

/// Interface kind tag. The set is closed but extensible: a link kind outside
/// the known vocabulary is preserved in `Other`, never rejected.
#[derive(Debug, Clone, PartialEq, Eq)]
pub enum IfaceType {
    Bond,
    Bridge,
    IpVlan,
    Veth,
    Vlan,
    Vxlan,
    Wifi,
    Unknown,
    Other(String),
}

/// Spec-level image of `IfaceType`.
pub enum IfaceTypeV {
    Bond,
    Bridge,
    IpVlan,
    Veth,
    Vlan,
    Vxlan,
    Wifi,
    Unknown,
    Other(Seq<char>),
}

impl View for IfaceType {
    type V = IfaceTypeV;

    open spec fn view(&self) -> IfaceTypeV {
        match self {
            IfaceType::Bond => IfaceTypeV::Bond,
            IfaceType::Bridge => IfaceTypeV::Bridge,
            IfaceType::IpVlan => IfaceTypeV::IpVlan,
            IfaceType::Veth => IfaceTypeV::Veth,
            IfaceType::Vlan => IfaceTypeV::Vlan,
            IfaceType::Vxlan => IfaceTypeV::Vxlan,
            IfaceType::Wifi => IfaceTypeV::Wifi,
            IfaceType::Unknown => IfaceTypeV::Unknown,
            IfaceType::Other(s) => IfaceTypeV::Other(s@),
        }
    }
}

/// One interface record, keyed by name within a snapshot. The kernel index
/// is used only as a pre-reconciliation cross-reference key. At most one
/// type-specific payload is populated, the one selected by `iface_type`.
#[derive(Debug, Clone)]
pub struct Iface {
    pub name: String,
    pub index: u32,
    pub iface_type: IfaceType,
    pub state: IfaceState,
    pub ip_vlan: Option<IpVlanInfo>,
    pub vxlan: Option<VxlanInfo>,
    pub wifi: Option<WifiInfo>,
}

/// Spec-level image of `Iface`.
#[verifier::ext_equal]
pub struct IfaceV {
    pub name: Seq<char>,
    pub index: u32,
    pub iface_type: IfaceTypeV,
    pub state: IfaceState,
    pub ip_vlan: Option<IpVlanInfoV>,
    pub vxlan: Option<VxlanInfoV>,
    pub wifi: Option<WifiInfoV>,
}

impl View for Iface {
    type V = IfaceV;

    open spec fn view(&self) -> IfaceV {
        IfaceV {
            name: self.name@,
            index: self.index,
            iface_type: self.iface_type@,
            state: self.state,
            ip_vlan: match self.ip_vlan {
                Some(p) => Some(p@),
                None => None,
            },
            vxlan: match self.vxlan {
                Some(p) => Some(p@),
                None => None,
            },
            wifi: match self.wifi {
                Some(p) => Some(p@),
                None => None,
            },
        }
    }
}

/// Payload exclusivity for one record: a populated payload field always
/// matches the type tag, so at most one payload is populated.
pub open spec fn payload_consistent(f: IfaceV) -> bool {
    &&& f.ip_vlan is Some <==> f.iface_type is IpVlan
    &&& f.vxlan is Some <==> f.iface_type is Vxlan
    &&& f.wifi is Some <==> f.iface_type is Wifi
}

/// The registry as its callers see it: a sequence of records with
/// snapshot-unique names, each payload-consistent.
pub open spec fn registry_wf(s: Seq<IfaceV>) -> bool {
    &&& forall|i: int, j: int|
        0 <= i < s.len() && 0 <= j < s.len() && i != j ==> #[trigger] s[i].name != #[trigger] s[j].name
    &&& forall|i: int| 0 <= i < s.len() ==> payload_consistent(#[trigger] s[i])
}

/// The record after phase 1 of the wireless query attaches its payload: the
/// wireless payload is set, the type tag marked, and the other payloads
/// cleared, so payload exclusivity holds of the new record outright.
pub open spec fn spec_set_wifi_phase1(f: IfaceV, w: WifiInfoV) -> IfaceV {
    IfaceV { iface_type: IfaceTypeV::Wifi, wifi: Some(w), ip_vlan: None, vxlan: None, ..f }
}

/// Phase-1 merge step: attaches a wireless payload to one record and marks
/// it as wireless. Sets the payload and the type tag together, so the
/// record leaves this step payload-consistent whatever it held before.
pub fn set_wifi_phase1(iface: &mut Iface, info: WifiInfo)
    ensures
        final(iface)@ == spec_set_wifi_phase1(old(iface)@, info@),
        payload_consistent(final(iface)@),
{
    let ghost pre = iface@;
    let ghost w = info@;
    iface.wifi = Some(info);
    iface.iface_type = IfaceType::Wifi;
    iface.ip_vlan = None;
    iface.vxlan = None;
    proof {
        assert(iface@ =~~= spec_set_wifi_phase1(pre, w));
    }
}

/// The record after the phase-2 splice: station statistics are folded into
/// the wireless payload where phase 1 attached one; a record without a
/// wireless payload is left untouched (a dispatch miss, never an error).
pub open spec fn spec_merge_station(f: IfaceV, attrs: Seq<StationAttr>) -> IfaceV {
    match f.wifi {
        Some(w) => (IfaceV { wifi: Some(spec_apply_station(w, attrs)), ..f }),
        None => f,
    }
}

/// Phase-2 merge step: splices one station message into the record's
/// wireless payload, only where phase 1 already attached one.
pub fn merge_station_stats(iface: &mut Iface, attrs: &Vec<StationAttr>)
    ensures
        final(iface)@ == spec_merge_station(old(iface)@, attrs@),
        payload_consistent(old(iface)@) ==> payload_consistent(final(iface)@),
{
    let ghost pre = iface@;
    match iface.wifi.take() {
        Some(w) => {
            iface.wifi = Some(apply_station_attrs(w, attrs));
        },
        None => {},
    }
    proof {
        assert(iface@ =~~= spec_merge_station(pre, attrs@));
    }
}

/// Wireless two-phase dependency: the phase-2 splice changes a record only
/// where phase 1 already attached a wireless payload, and under payload
/// exclusivity such a record is already tagged as wireless — no record
/// acquires station statistics without its phase-1 result.
pub proof fn lemma_station_stats_require_phase1(f: IfaceV, attrs: Seq<StationAttr>)
    requires
        payload_consistent(f),
    ensures
        spec_merge_station(f, attrs) != f ==> f.wifi is Some && f.iface_type is Wifi,
{
}

/// Payload exclusivity: in a well-formed registry, every record populates at
/// most one type-specific payload, exactly the one its type tag selects.
pub proof fn lemma_payload_exclusivity(s: Seq<IfaceV>, i: int)
    requires
        registry_wf(s),
        0 <= i < s.len(),
    ensures
        s[i].ip_vlan is Some <==> s[i].iface_type is IpVlan,
        s[i].vxlan is Some <==> s[i].iface_type is Vxlan,
        s[i].wifi is Some <==> s[i].iface_type is Wifi,
        !(s[i].ip_vlan is Some && s[i].vxlan is Some),
        !(s[i].ip_vlan is Some && s[i].wifi is Some),
        !(s[i].vxlan is Some && s[i].wifi is Some),
{
    assert(payload_consistent(s[i]));
}

} // verus!
