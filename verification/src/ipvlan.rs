use vstd::prelude::*;
use netlink_packet_route::link::InfoData;

verus! {

// Wire codes of the IPVLAN operating mode.
pub const IPVLAN_MODE_L2: u16 = 0;
pub const IPVLAN_MODE_L3: u16 = 1;
pub const IPVLAN_MODE_L3S: u16 = 2;

// Wire bits of the IPVLAN flag set.
pub const IPVLAN_F_PRIVATE: u16 = 0x01;
pub const IPVLAN_F_VEPA: u16 = 0x02;

/// IPVLAN operating mode. The decode from wire codes is total: codes outside
/// the known set are preserved in `Other`, never rejected.
#[derive(Debug, PartialEq, Eq, Clone, Copy, Structural)]
#[non_exhaustive]
pub enum IpVlanMode {
    L2,
    L3,
    L3S,
    Other(u16),
}

impl Default for IpVlanMode {
    /// The kernel's default IPVLAN operating mode.
    fn default() -> (r: Self)
        ensures
            r == IpVlanMode::L3,
    {
        IpVlanMode::L3
    }
}

/// Total decode of an IPVLAN mode code.
pub open spec fn spec_ip_vlan_mode(d: u16) -> IpVlanMode {
    if d == IPVLAN_MODE_L2 {
        IpVlanMode::L2
    } else if d == IPVLAN_MODE_L3 {
        IpVlanMode::L3
    } else if d == IPVLAN_MODE_L3S {
        IpVlanMode::L3S
    } else {
        IpVlanMode::Other(d)
    }
}

impl From<u16> for IpVlanMode {
    fn from(d: u16) -> (r: Self) {
        if d == IPVLAN_MODE_L2 {
            IpVlanMode::L2
        } else if d == IPVLAN_MODE_L3 {
            IpVlanMode::L3
        } else if d == IPVLAN_MODE_L3S {
            IpVlanMode::L3S
        } else {
            IpVlanMode::Other(d)
        }
    }
}

impl vstd::std_specs::convert::FromSpecImpl<u16> for IpVlanMode {
    open spec fn obeys_from_spec() -> bool {
        true
    }

    open spec fn from_spec(d: u16) -> Self {
        spec_ip_vlan_mode(d)
    }
}

/// Totality of the mode mapping: every representable code decodes to a value,
/// and codes outside the known set decode to the catch-all variant carrying
/// the original code unchanged.
pub proof fn lemma_mode_mapping_total(d: u16)
    ensures
        d == IPVLAN_MODE_L2 ==> spec_ip_vlan_mode(d) == IpVlanMode::L2,
        d == IPVLAN_MODE_L3 ==> spec_ip_vlan_mode(d) == IpVlanMode::L3,
        d == IPVLAN_MODE_L3S ==> spec_ip_vlan_mode(d) == IpVlanMode::L3S,
        d != IPVLAN_MODE_L2 && d != IPVLAN_MODE_L3 && d != IPVLAN_MODE_L3S
            ==> spec_ip_vlan_mode(d) == IpVlanMode::Other(d),
{
}

/// One named IPVLAN flag. Unknown bits are carried by `Other`.
#[derive(Debug, PartialEq, Eq, Clone, Copy, Structural)]
#[non_exhaustive]
pub enum IpVlanFlag {
    Private,
    Vepa,
    Other(u16),
}

/// The flag set named by a wire bitmask: each known bit is tested
/// independently, in a fixed order; unknown bits are dropped.
pub open spec fn spec_ip_vlan_flags(mask: u16) -> Seq<IpVlanFlag> {
    let s = Seq::<IpVlanFlag>::empty();
    let s = if (IPVLAN_F_PRIVATE & mask) == IPVLAN_F_PRIVATE {
        s.push(IpVlanFlag::Private)
    } else {
        s
    };
    if (IPVLAN_F_VEPA & mask) == IPVLAN_F_VEPA {
        s.push(IpVlanFlag::Vepa)
    } else {
        s
    }
}

/// Flag decode: total over all bitmasks, never an error.
pub fn ipvlan_flag_to_enum(flags: u16) -> (r: Vec<IpVlanFlag>)
    ensures
        r@ == spec_ip_vlan_flags(flags),
{
    let mut flags_vec: Vec<IpVlanFlag> = Vec::new();

    if (IPVLAN_F_PRIVATE & flags) == IPVLAN_F_PRIVATE {
        flags_vec.push(IpVlanFlag::Private);
    }
    if (IPVLAN_F_VEPA & flags) == IPVLAN_F_VEPA {
        flags_vec.push(IpVlanFlag::Vepa);
    }

    proof {
        assert(flags_vec@ =~= spec_ip_vlan_flags(flags));
    }
    flags_vec
}

/// The wire bit one flag stands for.
pub open spec fn spec_flag_bit(f: IpVlanFlag) -> u16 {
    match f {
        IpVlanFlag::Private => IPVLAN_F_PRIVATE,
        IpVlanFlag::Vepa => IPVLAN_F_VEPA,
        IpVlanFlag::Other(b) => b,
    }
}

/// Re-encoding of a flag set into a bitmask, as the wire collaborator
/// performs it: the union of the flags' bits.
pub open spec fn spec_encode_flags(fs: Seq<IpVlanFlag>) -> u16
    decreases fs.len(),
{
    if fs.len() == 0 {
        0u16
    } else {
        spec_flag_bit(fs[0]) | spec_encode_flags(fs.drop_first())
    }
}

/// Flag round-trip: a bitmask containing only known bits survives a decode
/// followed by a re-encode unchanged.
pub proof fn lemma_flag_round_trip(mask: u16)
    requires
        mask & 0xfffc == 0,
    ensures
        spec_encode_flags(spec_ip_vlan_flags(mask)) == mask,
{
    assert(spec_encode_flags(Seq::<IpVlanFlag>::empty()) == 0u16);
    let p = (IPVLAN_F_PRIVATE & mask) == IPVLAN_F_PRIVATE;
    let v = (IPVLAN_F_VEPA & mask) == IPVLAN_F_VEPA;
    if p && v {
        let s = spec_ip_vlan_flags(mask);
        assert(s =~= seq![IpVlanFlag::Private, IpVlanFlag::Vepa]);
        assert(s.drop_first() =~= seq![IpVlanFlag::Vepa]);
        assert(s.drop_first().drop_first() =~= Seq::<IpVlanFlag>::empty());
        assert(s[0] == IpVlanFlag::Private && s.drop_first()[0] == IpVlanFlag::Vepa);
        assert(spec_encode_flags(s.drop_first().drop_first()) == 0u16);
        assert(spec_encode_flags(s.drop_first()) == (2u16 | 0u16));
        assert(spec_encode_flags(s) == (1u16 | (2u16 | 0u16)));
        assert((1u16 & mask) == 1u16 && (2u16 & mask) == 2u16 && mask & 0xfffc == 0 ==> mask
            == (1u16 | (2u16 | 0u16))) by (bit_vector);
    } else if p {
        let s = spec_ip_vlan_flags(mask);
        assert(s =~= seq![IpVlanFlag::Private]);
        assert(s.drop_first() =~= Seq::<IpVlanFlag>::empty());
        assert(s[0] == IpVlanFlag::Private);
        assert(spec_encode_flags(s.drop_first()) == 0u16);
        assert(spec_encode_flags(s) == (1u16 | 0u16));
        assert((1u16 & mask) == 1u16 && (2u16 & mask) != 2u16 && mask & 0xfffc == 0 ==> mask
            == (1u16 | 0u16)) by (bit_vector);
    } else if v {
        let s = spec_ip_vlan_flags(mask);
        assert(s =~= seq![IpVlanFlag::Vepa]);
        assert(s.drop_first() =~= Seq::<IpVlanFlag>::empty());
        assert(s[0] == IpVlanFlag::Vepa);
        assert(spec_encode_flags(s.drop_first()) == 0u16);
        assert(spec_encode_flags(s) == (2u16 | 0u16));
        assert((1u16 & mask) != 1u16 && (2u16 & mask) == 2u16 && mask & 0xfffc == 0 ==> mask
            == (2u16 | 0u16)) by (bit_vector);
    } else {
        assert(spec_ip_vlan_flags(mask) =~= Seq::<IpVlanFlag>::empty());
        assert((1u16 & mask) != 1u16 && (2u16 & mask) != 2u16 && mask & 0xfffc == 0 ==> mask
            == 0u16) by (bit_vector);
    }
}

/// The drop of unknown bits is deterministic: decoding any bitmask gives the
/// same flag set as decoding the mask restricted to the known bits.
pub proof fn lemma_flag_decode_stable(mask: u16)
    ensures
        spec_ip_vlan_flags(mask) == spec_ip_vlan_flags(mask & (IPVLAN_F_PRIVATE | IPVLAN_F_VEPA)),
{
    let m = mask & (IPVLAN_F_PRIVATE | IPVLAN_F_VEPA);
    assert(((1u16 & (mask & (1u16 | 2u16))) == 1u16) == ((1u16 & mask) == 1u16)) by (bit_vector);
    assert(((2u16 & (mask & (1u16 | 2u16))) == 2u16) == ((2u16 & mask) == 2u16)) by (bit_vector);
    assert(spec_ip_vlan_flags(mask) =~= spec_ip_vlan_flags(m));
}

/// IPVLAN payload of an interface record. `base_iface` starts as the base
/// interface's kernel index in decimal and is rewritten to that interface's
/// name by the reconciliation pass.
#[derive(Debug, PartialEq, Eq, Clone)]
#[non_exhaustive]
pub struct IpVlanInfo {
    pub base_iface: String,
    pub mode: IpVlanMode,
    pub flags: Vec<IpVlanFlag>,
}

/// Spec-level image of `IpVlanInfo`.
#[verifier::ext_equal]
pub struct IpVlanInfoV {
    pub base_iface: Seq<char>,
    pub mode: IpVlanMode,
    pub flags: Seq<IpVlanFlag>,
}

impl View for IpVlanInfo {
    type V = IpVlanInfoV;

    open spec fn view(&self) -> IpVlanInfoV {
        IpVlanInfoV { base_iface: self.base_iface@, mode: self.mode, flags: self.flags@ }
    }
}

/// The defaulted payload: empty base reference, default mode, no flags.
pub open spec fn spec_ip_vlan_default() -> IpVlanInfoV {
    IpVlanInfoV { base_iface: Seq::empty(), mode: IpVlanMode::L3, flags: Seq::empty() }
}

impl Default for IpVlanInfo {
    fn default() -> (r: Self)
        ensures
            r@ == spec_ip_vlan_default(),
    {
        let r = IpVlanInfo { base_iface: String::new(), mode: IpVlanMode::L3, flags: Vec::new() };
        proof {
            assert(r@ =~= spec_ip_vlan_default());
        }
        r
    }
}

/// One already-deserialized IPVLAN link-info attribute, as plain values.
/// Attributes outside the decoder's vocabulary arrive as `Unknown` and are
/// skipped, never treated as fatal.
#[derive(Debug, PartialEq, Eq, Clone, Copy, Structural)]
pub enum IpVlanAttr {
    Mode(u16),
    Flags(u16),
    Unknown,
}

/// Effect of one attribute on the payload: each known attribute sets exactly
/// one field, so a duplicated attribute is last-write-wins.
pub open spec fn spec_apply_ip_vlan_attr(info: IpVlanInfoV, attr: IpVlanAttr) -> IpVlanInfoV {
    match attr {
        IpVlanAttr::Mode(d) => (IpVlanInfoV { mode: spec_ip_vlan_mode(d), ..info }),
        IpVlanAttr::Flags(d) => (IpVlanInfoV { flags: spec_ip_vlan_flags(d), ..info }),
        IpVlanAttr::Unknown => info,
    }
}

/// Decode of a whole attribute list, in arrival order, starting from the
/// defaulted payload.
pub open spec fn spec_decode_ip_vlan(attrs: Seq<IpVlanAttr>, info: IpVlanInfoV) -> IpVlanInfoV
    decreases attrs.len(),
{
    if attrs.len() == 0 {
        info
    } else {
        spec_decode_ip_vlan(attrs.drop_first(), spec_apply_ip_vlan_attr(info, attrs[0]))
    }
}

/// Decodes one IPVLAN attribute list into a payload. Total: unknown
/// attributes are skipped and unknown codes preserved.
pub fn decode_ip_vlan_attrs(attrs: &Vec<IpVlanAttr>) -> (info: IpVlanInfo)
    ensures
        info@ == spec_decode_ip_vlan(attrs@, spec_ip_vlan_default()),
{
    let mut info = IpVlanInfo::default();
    let ghost total = spec_decode_ip_vlan(attrs@, spec_ip_vlan_default());
    proof {
        assert(attrs@.skip(0) =~= attrs@);
    }
    let mut i: usize = 0;
    while i < attrs.len()
        invariant
            i <= attrs.len(),
            spec_decode_ip_vlan(attrs@.skip(i as int), info@) == total,
        decreases attrs.len() - i,
    {
        let ghost pre = info@;
        proof {
            assert(attrs@.skip(i as int).drop_first() =~= attrs@.skip(i as int + 1));
            assert(attrs@.skip(i as int)[0] == attrs@[i as int]);
        }
        match attrs[i] {
            IpVlanAttr::Mode(d) => {
                info.mode = IpVlanMode::from(d);
            },
            IpVlanAttr::Flags(d) => {
                info.flags = ipvlan_flag_to_enum(d);
            },
            IpVlanAttr::Unknown => {},
        }
        proof {
            assert(info@ =~= spec_apply_ip_vlan_attr(pre, attrs@[i as int]));
        }
        i = i + 1;
    }
    proof {
        assert(attrs@.skip(attrs@.len() as int) =~= Seq::<IpVlanAttr>::empty());
    }
    info
}

#[verifier::external_type_specification]
#[verifier::external_body]
pub struct ExInfoData(InfoData);

/// Whether a link-info payload is the IPVLAN variant: the dispatch
/// discriminant that `ip_vlan_attr_list` tests. A function of the value
/// alone.
pub uninterp spec fn spec_is_ip_vlan(data: InfoData) -> bool;

/// The IPVLAN attribute list a link-info payload holds, as this library's
/// plain values, in arrival order. Meaningful where `spec_is_ip_vlan` holds;
/// a function of the value alone.
pub uninterp spec fn spec_ip_vlan_attrs(data: InfoData) -> Seq<IpVlanAttr>;

/// Relies on netlink_packet_route's `InfoData`: its `IpVlan` variant carries
/// one interface's IPVLAN attribute list. Each attribute is handed over with
/// its payload unchanged: the mode code through `u16::from`, the flag bits
/// through `.bits()`; attributes of any other kind become `Unknown`.
#[verifier::external_body]
fn ip_vlan_attr_list(data: &InfoData) -> (r: Option<Vec<IpVlanAttr>>)
    ensures
        r is Some <==> spec_is_ip_vlan(*data),
        r matches Some(v) ==> v@ == spec_ip_vlan_attrs(*data),
{
    let infos = match data {
        InfoData::IpVlan(infos) => infos,
        _ => return None,
    };
    let mut out = Vec::new();
    for info in infos {
        out.push(match info {
            netlink_packet_route::link::InfoIpVlan::Mode(m) => IpVlanAttr::Mode(u16::from(*m)),
            netlink_packet_route::link::InfoIpVlan::Flags(f) => IpVlanAttr::Flags(f.bits()),
            _ => IpVlanAttr::Unknown,
        });
    }
    Some(out)
}

/// Per-type payload decoder for IPVLAN. Returns a payload exactly when the
/// attribute list's discriminant names the IPVLAN kind (a dispatch miss gives
/// `None`); individual attributes never make it fail.
pub fn get_ip_vlan_info(data: &InfoData) -> (r: Option<IpVlanInfo>)
    ensures
        r is Some <==> spec_is_ip_vlan(*data),
        r matches Some(info) ==> info@ == spec_decode_ip_vlan(
            spec_ip_vlan_attrs(*data),
            spec_ip_vlan_default(),
        ),
{
    match ip_vlan_attr_list(data) {
        Some(attrs) => {
            let info = decode_ip_vlan_attrs(&attrs);
            proof {
                assert(info@ == spec_decode_ip_vlan(attrs@, spec_ip_vlan_default()));
            }
            Some(info)
        },
        None => None,
    }
}

} // verus!
