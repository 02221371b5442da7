use vstd::prelude::*;

verus! {

/// VXLAN payload of an interface record: a flat record of independently
/// optional scalar fields. An attribute absent from the kernel response
/// means "use the type default", never an error. `base_iface` starts as the
/// base interface's kernel index in decimal.
#[derive(Debug, PartialEq, Eq, Clone)]
#[non_exhaustive]
pub struct VxlanInfo {
    pub remote: Option<String>,
    pub vxlan_id: u32,
    pub base_iface: String,
    pub local: Option<String>,
    pub ttl: u8,
    pub tos: u8,
    pub learning: bool,
    pub ageing: u32,
    pub max_address: u32,
    pub src_port_min: u16,
    pub src_port_max: u16,
    pub proxy: bool,
    pub rsc: bool,
    pub l2miss: bool,
    pub l3miss: bool,
    pub dst_port: u16,
    pub udp_check_sum: bool,
    pub udp6_zero_check_sum_tx: bool,
    pub udp6_zero_check_sum_rx: bool,
    pub remote_check_sum_tx: bool,
    pub remote_check_sum_rx: bool,
    pub gbp: bool,
    pub remote_check_sum_no_partial: bool,
    pub collect_metadata: bool,
    pub label: u32,
    pub gpe: bool,
    pub ttl_inherit: bool,
    pub df: u8,
}

/// Spec-level image of `VxlanInfo`.
#[verifier::ext_equal]
pub struct VxlanInfoV {
    pub remote: Option<Seq<char>>,
    pub vxlan_id: u32,
    pub base_iface: Seq<char>,
    pub local: Option<Seq<char>>,
    pub ttl: u8,
    pub tos: u8,
    pub learning: bool,
    pub ageing: u32,
    pub max_address: u32,
    pub src_port_min: u16,
    pub src_port_max: u16,
    pub proxy: bool,
    pub rsc: bool,
    pub l2miss: bool,
    pub l3miss: bool,
    pub dst_port: u16,
    pub udp_check_sum: bool,
    pub udp6_zero_check_sum_tx: bool,
    pub udp6_zero_check_sum_rx: bool,
    pub remote_check_sum_tx: bool,
    pub remote_check_sum_rx: bool,
    pub gbp: bool,
    pub remote_check_sum_no_partial: bool,
    pub collect_metadata: bool,
    pub label: u32,
    pub gpe: bool,
    pub ttl_inherit: bool,
    pub df: u8,
}

impl View for VxlanInfo {
    type V = VxlanInfoV;

    open spec fn view(&self) -> VxlanInfoV {
        VxlanInfoV {
            remote: match self.remote {
                Some(s) => Some(s@),
                None => None,
            },
            vxlan_id: self.vxlan_id,
            base_iface: self.base_iface@,
            local: match self.local {
                Some(s) => Some(s@),
                None => None,
            },
            ttl: self.ttl,
            tos: self.tos,
            learning: self.learning,
            ageing: self.ageing,
            max_address: self.max_address,
            src_port_min: self.src_port_min,
            src_port_max: self.src_port_max,
            proxy: self.proxy,
            rsc: self.rsc,
            l2miss: self.l2miss,
            l3miss: self.l3miss,
            dst_port: self.dst_port,
            udp_check_sum: self.udp_check_sum,
            udp6_zero_check_sum_tx: self.udp6_zero_check_sum_tx,
            udp6_zero_check_sum_rx: self.udp6_zero_check_sum_rx,
            remote_check_sum_tx: self.remote_check_sum_tx,
            remote_check_sum_rx: self.remote_check_sum_rx,
            gbp: self.gbp,
            remote_check_sum_no_partial: self.remote_check_sum_no_partial,
            collect_metadata: self.collect_metadata,
            label: self.label,
            gpe: self.gpe,
            ttl_inherit: self.ttl_inherit,
            df: self.df,
        }
    }
}

/// The documented defaults that fill the gaps the wire leaves: UDP checksums
/// on transmit are on, learning is on, the destination port is the assigned
/// VXLAN port, ageing is the kernel's default; every other toggle is off and
/// every other scalar is zero or absent.
pub open spec fn spec_vxlan_default() -> VxlanInfoV {
    VxlanInfoV {
        remote: None,
        vxlan_id: 0,
        base_iface: Seq::empty(),
        local: None,
        ttl: 0,
        tos: 0,
        learning: true,
        ageing: 300,
        max_address: 0,
        src_port_min: 0,
        src_port_max: 0,
        proxy: false,
        rsc: false,
        l2miss: false,
        l3miss: false,
        dst_port: 4789,
        udp_check_sum: true,
        udp6_zero_check_sum_tx: false,
        udp6_zero_check_sum_rx: false,
        remote_check_sum_tx: false,
        remote_check_sum_rx: false,
        gbp: false,
        remote_check_sum_no_partial: false,
        collect_metadata: false,
        label: 0,
        gpe: false,
        ttl_inherit: false,
        df: 0,
    }
}

impl Default for VxlanInfo {
    fn default() -> (r: Self)
        ensures
            r@ == spec_vxlan_default(),
    {
        let r = VxlanInfo {
            remote: None,
            vxlan_id: 0,
            base_iface: String::new(),
            local: None,
            ttl: 0,
            tos: 0,
            learning: true,
            ageing: 300,
            max_address: 0,
            src_port_min: 0,
            src_port_max: 0,
            proxy: false,
            rsc: false,
            l2miss: false,
            l3miss: false,
            dst_port: 4789,
            udp_check_sum: true,
            udp6_zero_check_sum_tx: false,
            udp6_zero_check_sum_rx: false,
            remote_check_sum_tx: false,
            remote_check_sum_rx: false,
            gbp: false,
            remote_check_sum_no_partial: false,
            collect_metadata: false,
            label: 0,
            gpe: false,
            ttl_inherit: false,
            df: 0,
        };
        proof {
            assert(r@ =~= spec_vxlan_default());
        }
        r
    }
}

/// One already-deserialized VXLAN link-info attribute, as plain values.
/// Addresses arrive already rendered as text. Attributes outside this
/// vocabulary arrive as `Unknown` and are skipped, leaving their fields at
/// the documented defaults; they are never fatal. The base reference is set
/// by the caller that assembles the record, not by an attribute of this
/// list.
#[derive(Debug, PartialEq, Eq, Clone)]
pub enum VxlanAttr {
    Id(u32),
    Remote(String),
    Local(String),
    Port(u16),
    UdpCheckSum(bool),
    Proxy(bool),
    Unknown,
}

/// Effect of one attribute on the payload: each known attribute sets exactly
/// one field, so a duplicate is last-write-wins. The base interface index is
/// stored in decimal, for the reconciliation pass to rewrite.
pub open spec fn spec_apply_vxlan_attr(info: VxlanInfoV, attr: VxlanAttr) -> VxlanInfoV {
    match attr {
        VxlanAttr::Id(d) => (VxlanInfoV { vxlan_id: d, ..info }),
        VxlanAttr::Remote(s) => (VxlanInfoV { remote: Some(s@), ..info }),
        VxlanAttr::Local(s) => (VxlanInfoV { local: Some(s@), ..info }),
        VxlanAttr::Port(d) => (VxlanInfoV { dst_port: d, ..info }),
        VxlanAttr::UdpCheckSum(d) => (VxlanInfoV { udp_check_sum: d, ..info }),
        VxlanAttr::Proxy(d) => (VxlanInfoV { proxy: d, ..info }),
        VxlanAttr::Unknown => info,
    }
}

/// Decode of a whole attribute list, in arrival order, starting from the
/// defaulted payload.
pub open spec fn spec_decode_vxlan(attrs: Seq<VxlanAttr>, info: VxlanInfoV) -> VxlanInfoV
    decreases attrs.len(),
{
    if attrs.len() == 0 {
        info
    } else {
        spec_decode_vxlan(attrs.drop_first(), spec_apply_vxlan_attr(info, attrs[0]))
    }
}

/// Applies one attribute to a payload under construction.
#[verifier::rlimit(100)]
fn apply_vxlan_attr(info: VxlanInfo, attr: &VxlanAttr) -> (r: VxlanInfo)
    ensures
        r@ == spec_apply_vxlan_attr(info@, *attr),
{
    let mut info = info;
    let ghost pre = info@;
    match attr {
        VxlanAttr::Id(d) => {
            info.vxlan_id = *d;
        },
        VxlanAttr::Remote(s) => {
            info.remote = Some(s.clone());
        },
        VxlanAttr::Local(s) => {
            info.local = Some(s.clone());
        },
        VxlanAttr::Port(d) => {
            info.dst_port = *d;
        },
        VxlanAttr::UdpCheckSum(d) => {
            info.udp_check_sum = *d;
        },
        VxlanAttr::Proxy(d) => {
            info.proxy = *d;
        },
        VxlanAttr::Unknown => {},
    }
    proof {
        assert(info@ =~= spec_apply_vxlan_attr(pre, *attr));
    }
    info
}

/// Per-type payload decoder for VXLAN. Total: unknown attributes are skipped,
/// absent attributes leave the documented defaults in place.
pub fn decode_vxlan_attrs(attrs: &Vec<VxlanAttr>) -> (info: VxlanInfo)
    ensures
        info@ == spec_decode_vxlan(attrs@, spec_vxlan_default()),
{
    let mut info = VxlanInfo::default();
    let ghost total = spec_decode_vxlan(attrs@, spec_vxlan_default());
    proof {
        assert(attrs@.skip(0) =~= attrs@);
    }
    let mut i: usize = 0;
    while i < attrs.len()
        invariant
            i <= attrs.len(),
            spec_decode_vxlan(attrs@.skip(i as int), info@) == total,
        decreases attrs.len() - i,
    {
        proof {
            assert(attrs@.skip(i as int).drop_first() =~= attrs@.skip(i as int + 1));
            assert(attrs@.skip(i as int)[0] == attrs@[i as int]);
        }
        info = apply_vxlan_attr(info, &attrs[i]);
        i = i + 1;
    }
    proof {
        assert(attrs@.skip(attrs@.len() as int) =~= Seq::<VxlanAttr>::empty());
    }
    info
}

} // verus!
