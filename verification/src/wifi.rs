use vstd::prelude::*;

verus! {

/// Wireless payload of an interface record. `ssid` and `frequency` come from
/// the radio-interface enumeration (phase 1); `signal`, the bitrate, width
/// and `generation` fields come only from the later station dump (phase 2)
/// and are legitimately absent while that pass has not run or the radio has
/// no active station. `generation` is derived, not wire-native: it is
/// inferred from which rate-info variant the station report carries.
#[derive(Debug, PartialEq, Eq, Clone)]
#[non_exhaustive]
pub struct WifiInfo {
    pub ssid: Option<String>,
    /// Frequency in MHz.
    pub frequency: Option<u32>,
    /// Wireless generation, e.g. 6 for the sixth generation.
    pub generation: Option<u32>,
    /// Signal in dBm.
    pub signal: Option<i8>,
    /// Receive bitrate in 100 kb/s.
    pub rx_bitrate: Option<u32>,
    /// Receive channel width in MHz.
    pub rx_width: Option<u32>,
    /// Transmit bitrate in 100 kb/s.
    pub tx_bitrate: Option<u32>,
    /// Transmit channel width in MHz.
    pub tx_width: Option<u32>,
}

/// Spec-level image of `WifiInfo`.
#[verifier::ext_equal]
pub struct WifiInfoV {
    pub ssid: Option<Seq<char>>,
    pub frequency: Option<u32>,
    pub generation: Option<u32>,
    pub signal: Option<i8>,
    pub rx_bitrate: Option<u32>,
    pub rx_width: Option<u32>,
    pub tx_bitrate: Option<u32>,
    pub tx_width: Option<u32>,
}

impl View for WifiInfo {
    type V = WifiInfoV;

    open spec fn view(&self) -> WifiInfoV {
        WifiInfoV {
            ssid: match self.ssid {
                Some(s) => Some(s@),
                None => None,
            },
            frequency: self.frequency,
            generation: self.generation,
            signal: self.signal,
            rx_bitrate: self.rx_bitrate,
            rx_width: self.rx_width,
            tx_bitrate: self.tx_bitrate,
            tx_width: self.tx_width,
        }
    }
}

/// The empty payload: every field absent. A missing SSID or frequency is not
/// an error.
pub open spec fn spec_wifi_default() -> WifiInfoV {
    WifiInfoV {
        ssid: None,
        frequency: None,
        generation: None,
        signal: None,
        rx_bitrate: None,
        rx_width: None,
        tx_bitrate: None,
        tx_width: None,
    }
}

impl Default for WifiInfo {
    fn default() -> (r: Self)
        ensures
            r@ == spec_wifi_default(),
    {
        let r = WifiInfo {
            ssid: None,
            frequency: None,
            generation: None,
            signal: None,
            rx_bitrate: None,
            rx_width: None,
            tx_bitrate: None,
            tx_width: None,
        };
        proof {
            assert(r@ =~= spec_wifi_default());
        }
        r
    }
}

/// One already-deserialized attribute of a phase-1 radio-interface message,
/// as plain values. Attributes outside this vocabulary arrive as `Unknown`
/// and are skipped.
#[derive(Debug, PartialEq, Eq, Clone)]
pub enum WifiAttr {
    IfName(String),
    Frequency(u32),
    Ssid(String),
    Unknown,
}

/// One rate-info attribute of a station report.
#[derive(Debug, PartialEq, Eq, Clone, Copy, Structural)]
pub enum RateAttr {
    /// Total bitrate in 100 kb/s.
    Bitrate(u32),
    /// Channel width in MHz.
    Width(u32),
    /// A fourth-generation rate report.
    Mcs,
    /// A fifth-generation rate report.
    VhtMcs,
    /// A sixth-generation rate report.
    HeMcs,
    /// A seventh-generation rate report.
    EhtMcs,
    Unknown,
}

/// One station-info attribute of a phase-2 station message.
#[derive(Debug, PartialEq, Eq, Clone)]
pub enum StationAttr {
    Signal(i8),
    TxBitrate(Vec<RateAttr>),
    RxBitrate(Vec<RateAttr>),
    Unknown,
}

/// Effect of one phase-1 attribute: frequency and SSID each set one field;
/// duplicates are last-write-wins; the interface name is not part of the
/// payload.
pub open spec fn spec_apply_wifi_attr(w: WifiInfoV, attr: WifiAttr) -> WifiInfoV {
    match attr {
        WifiAttr::Frequency(f) => (WifiInfoV { frequency: Some(f), ..w }),
        WifiAttr::Ssid(s) => (WifiInfoV { ssid: Some(s@), ..w }),
        WifiAttr::IfName(_) => w,
        WifiAttr::Unknown => w,
    }
}

/// Phase-1 decode of a whole attribute list, from the empty payload.
pub open spec fn spec_parse_wifi(attrs: Seq<WifiAttr>, w: WifiInfoV) -> WifiInfoV
    decreases attrs.len(),
{
    if attrs.len() == 0 {
        w
    } else {
        spec_parse_wifi(attrs.drop_first(), spec_apply_wifi_attr(w, attrs[0]))
    }
}

/// Builds the phase-1 wireless payload of one radio-interface message. A
/// missing SSID or frequency leaves the field absent, never an error.
pub fn parse_wifi_phase1(attrs: &Vec<WifiAttr>) -> (w: WifiInfo)
    ensures
        w@ == spec_parse_wifi(attrs@, spec_wifi_default()),
{
    let mut w = WifiInfo::default();
    let ghost total = spec_parse_wifi(attrs@, spec_wifi_default());
    proof {
        assert(attrs@.skip(0) =~= attrs@);
    }
    let mut i: usize = 0;
    while i < attrs.len()
        invariant
            i <= attrs.len(),
            spec_parse_wifi(attrs@.skip(i as int), w@) == total,
        decreases attrs.len() - i,
    {
        let ghost pre = w@;
        proof {
            assert(attrs@.skip(i as int).drop_first() =~= attrs@.skip(i as int + 1));
            assert(attrs@.skip(i as int)[0] == attrs@[i as int]);
        }
        match &attrs[i] {
            WifiAttr::Frequency(f) => {
                w.frequency = Some(*f);
            },
            WifiAttr::Ssid(s) => {
                w.ssid = Some(s.clone());
            },
            WifiAttr::IfName(_) => {},
            WifiAttr::Unknown => {},
        }
        proof {
            assert(w@ =~= spec_apply_wifi_attr(pre, attrs@[i as int]));
        }
        i = i + 1;
    }
    proof {
        assert(attrs@.skip(attrs@.len() as int) =~= Seq::<WifiAttr>::empty());
    }
    w
}

/// The first interface name carried by a phase-1 message, if any. A message
/// without one is skipped by the orchestrator, never an error.
pub open spec fn spec_first_ifname(attrs: Seq<WifiAttr>) -> Option<Seq<char>>
    decreases attrs.len(),
{
    if attrs.len() == 0 {
        None
    } else {
        match attrs[0] {
            WifiAttr::IfName(n) => Some(n@),
            _ => spec_first_ifname(attrs.drop_first()),
        }
    }
}

/// Extracts the interface name a phase-1 message speaks of.
pub fn wifi_iface_name(attrs: &Vec<WifiAttr>) -> (r: Option<String>)
    ensures
        match r {
            Some(n) => spec_first_ifname(attrs@) == Some(n@),
            None => spec_first_ifname(attrs@) is None,
        },
{
    proof {
        assert(attrs@.skip(0) =~= attrs@);
    }
    let mut i: usize = 0;
    while i < attrs.len()
        invariant
            i <= attrs.len(),
            spec_first_ifname(attrs@.skip(i as int)) == spec_first_ifname(attrs@),
        decreases attrs.len() - i,
    {
        proof {
            assert(attrs@.skip(i as int).drop_first() =~= attrs@.skip(i as int + 1));
            assert(attrs@.skip(i as int)[0] == attrs@[i as int]);
        }
        match &attrs[i] {
            WifiAttr::IfName(n) => {
                return Some(n.clone());
            },
            _ => {},
        }
        i = i + 1;
    }
    proof {
        assert(attrs@.skip(attrs@.len() as int) =~= Seq::<WifiAttr>::empty());
    }
    None
}

/// Effect of one transmit rate-info attribute: bitrate and width each set
/// their field; generation markers are ignored on the transmit side.
pub open spec fn spec_apply_tx_rate(w: WifiInfoV, r: RateAttr) -> WifiInfoV {
    match r {
        RateAttr::Bitrate(d) => (WifiInfoV { tx_bitrate: Some(d), ..w }),
        RateAttr::Width(d) => (WifiInfoV { tx_width: Some(d), ..w }),
        _ => w,
    }
}

/// Effect of one receive rate-info attribute: bitrate and width each set
/// their field, and the rate-report variant present fixes the derived
/// wireless generation.
pub open spec fn spec_apply_rx_rate(w: WifiInfoV, r: RateAttr) -> WifiInfoV {
    match r {
        RateAttr::Bitrate(d) => (WifiInfoV { rx_bitrate: Some(d), ..w }),
        RateAttr::Width(d) => (WifiInfoV { rx_width: Some(d), ..w }),
        RateAttr::Mcs => (WifiInfoV { generation: Some(4), ..w }),
        RateAttr::VhtMcs => (WifiInfoV { generation: Some(5), ..w }),
        RateAttr::HeMcs => (WifiInfoV { generation: Some(6), ..w }),
        RateAttr::EhtMcs => (WifiInfoV { generation: Some(7), ..w }),
        RateAttr::Unknown => w,
    }
}

/// Fold of a transmit rate-info block.
pub open spec fn spec_apply_tx_rates(w: WifiInfoV, rs: Seq<RateAttr>) -> WifiInfoV
    decreases rs.len(),
{
    if rs.len() == 0 {
        w
    } else {
        spec_apply_tx_rates(spec_apply_tx_rate(w, rs[0]), rs.drop_first())
    }
}

/// Fold of a receive rate-info block.
pub open spec fn spec_apply_rx_rates(w: WifiInfoV, rs: Seq<RateAttr>) -> WifiInfoV
    decreases rs.len(),
{
    if rs.len() == 0 {
        w
    } else {
        spec_apply_rx_rates(spec_apply_rx_rate(w, rs[0]), rs.drop_first())
    }
}

/// Effect of one station-info attribute on a wireless payload.
pub open spec fn spec_apply_station_attr(w: WifiInfoV, attr: StationAttr) -> WifiInfoV {
    match attr {
        StationAttr::Signal(s) => (WifiInfoV { signal: Some(s), ..w }),
        StationAttr::TxBitrate(rs) => spec_apply_tx_rates(w, rs@),
        StationAttr::RxBitrate(rs) => spec_apply_rx_rates(w, rs@),
        StationAttr::Unknown => w,
    }
}

/// Fold of a whole phase-2 station message over a wireless payload.
pub open spec fn spec_apply_station(w: WifiInfoV, attrs: Seq<StationAttr>) -> WifiInfoV
    decreases attrs.len(),
{
    if attrs.len() == 0 {
        w
    } else {
        spec_apply_station(spec_apply_station_attr(w, attrs[0]), attrs.drop_first())
    }
}

fn apply_tx_rates(w: WifiInfo, rates: &Vec<RateAttr>) -> (r: WifiInfo)
    ensures
        r@ == spec_apply_tx_rates(w@, rates@),
{
    let mut w = w;
    let ghost start = w@;
    proof {
        assert(rates@.skip(0) =~= rates@);
    }
    let mut i: usize = 0;
    while i < rates.len()
        invariant
            i <= rates.len(),
            spec_apply_tx_rates(w@, rates@.skip(i as int)) == spec_apply_tx_rates(start, rates@),
        decreases rates.len() - i,
    {
        let ghost pre = w@;
        proof {
            assert(rates@.skip(i as int).drop_first() =~= rates@.skip(i as int + 1));
            assert(rates@.skip(i as int)[0] == rates@[i as int]);
        }
        match rates[i] {
            RateAttr::Bitrate(d) => {
                w.tx_bitrate = Some(d);
            },
            RateAttr::Width(d) => {
                w.tx_width = Some(d);
            },
            _ => {},
        }
        proof {
            assert(w@ =~= spec_apply_tx_rate(pre, rates@[i as int]));
        }
        i = i + 1;
    }
    proof {
        assert(rates@.skip(rates@.len() as int) =~= Seq::<RateAttr>::empty());
    }
    w
}

fn apply_rx_rates(w: WifiInfo, rates: &Vec<RateAttr>) -> (r: WifiInfo)
    ensures
        r@ == spec_apply_rx_rates(w@, rates@),
{
    let mut w = w;
    let ghost start = w@;
    proof {
        assert(rates@.skip(0) =~= rates@);
    }
    let mut i: usize = 0;
    while i < rates.len()
        invariant
            i <= rates.len(),
            spec_apply_rx_rates(w@, rates@.skip(i as int)) == spec_apply_rx_rates(start, rates@),
        decreases rates.len() - i,
    {
        let ghost pre = w@;
        proof {
            assert(rates@.skip(i as int).drop_first() =~= rates@.skip(i as int + 1));
            assert(rates@.skip(i as int)[0] == rates@[i as int]);
        }
        match rates[i] {
            RateAttr::Bitrate(d) => {
                w.rx_bitrate = Some(d);
            },
            RateAttr::Width(d) => {
                w.rx_width = Some(d);
            },
            RateAttr::Mcs => {
                w.generation = Some(4);
            },
            RateAttr::VhtMcs => {
                w.generation = Some(5);
            },
            RateAttr::HeMcs => {
                w.generation = Some(6);
            },
            RateAttr::EhtMcs => {
                w.generation = Some(7);
            },
            RateAttr::Unknown => {},
        }
        proof {
            assert(w@ =~= spec_apply_rx_rate(pre, rates@[i as int]));
        }
        i = i + 1;
    }
    proof {
        assert(rates@.skip(rates@.len() as int) =~= Seq::<RateAttr>::empty());
    }
    w
}

/// Splices one phase-2 station message into a wireless payload created by
/// phase 1: signal, transmit and receive rate blocks are decoded
/// independently, and the receive rate-report variant fixes the derived
/// generation.
pub fn apply_station_attrs(w: WifiInfo, attrs: &Vec<StationAttr>) -> (r: WifiInfo)
    ensures
        r@ == spec_apply_station(w@, attrs@),
{
    let mut w = w;
    let ghost start = w@;
    proof {
        assert(attrs@.skip(0) =~= attrs@);
    }
    let mut i: usize = 0;
    while i < attrs.len()
        invariant
            i <= attrs.len(),
            spec_apply_station(w@, attrs@.skip(i as int)) == spec_apply_station(start, attrs@),
        decreases attrs.len() - i,
    {
        let ghost pre = w@;
        proof {
            assert(attrs@.skip(i as int).drop_first() =~= attrs@.skip(i as int + 1));
            assert(attrs@.skip(i as int)[0] == attrs@[i as int]);
        }
        match &attrs[i] {
            StationAttr::Signal(s) => {
                w.signal = Some(*s);
                proof {
                    assert(w@ =~= spec_apply_station_attr(pre, attrs@[i as int]));
                }
            },
            StationAttr::TxBitrate(rates) => {
                w = apply_tx_rates(w, rates);
            },
            StationAttr::RxBitrate(rates) => {
                w = apply_rx_rates(w, rates);
            },
            StationAttr::Unknown => {},
        }
        i = i + 1;
    }
    proof {
        assert(attrs@.skip(attrs@.len() as int) =~= Seq::<StationAttr>::empty());
    }
    w
}

} // verus!
