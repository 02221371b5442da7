use nispor::reconcile::{convert_base_iface_index_to_name, ip_vlan_iface_tidy_up};
use nispor::wifi::{apply_station_attrs, parse_wifi_phase1, wifi_iface_name, RateAttr, StationAttr, WifiAttr};
use nispor::{ErrorKind, Iface, IfaceState, IfaceType, IpVlanInfo, NisporError, SnapshotPhase, WifiInfo};

fn plain_iface(name: &str, index: u32) -> Iface {
    Iface {
        name: name.to_string(),
        index,
        iface_type: IfaceType::Unknown,
        state: IfaceState::Up,
        ip_vlan: None,
        vxlan: None,
        wifi: None,
    }
}

fn ip_vlan_iface(name: &str, index: u32, base: &str) -> Iface {
    let mut info = IpVlanInfo::default();
    info.base_iface = base.to_string();
    let mut iface = plain_iface(name, index);
    iface.iface_type = IfaceType::IpVlan;
    iface.ip_vlan = Some(info);
    iface
}

#[test]
fn reconciliation_resolves_index_to_name() {
    let mut registry = vec![plain_iface("eth1", 7), ip_vlan_iface("ipvlan0", 8, "7")];
    ip_vlan_iface_tidy_up(&mut registry);
    assert_eq!(
        registry[1].ip_vlan.as_ref().unwrap().base_iface,
        "eth1".to_string()
    );
    assert_eq!(registry[0].name, "eth1");
    assert_eq!(registry[1].iface_type, IfaceType::IpVlan);
}

#[test]
fn reconciliation_leaves_unresolved_references_alone() {
    let mut registry = vec![plain_iface("eth1", 7), ip_vlan_iface("ipvlan0", 8, "99")];
    convert_base_iface_index_to_name(&mut registry);
    assert_eq!(registry[1].ip_vlan.as_ref().unwrap().base_iface, "99");
}

#[test]
fn reconciliation_twice_equals_once() {
    let mut once = vec![plain_iface("eth1", 7), ip_vlan_iface("ipvlan0", 8, "7")];
    convert_base_iface_index_to_name(&mut once);
    let mut twice = once.clone();
    convert_base_iface_index_to_name(&mut twice);
    assert_eq!(
        once[1].ip_vlan.as_ref().unwrap().base_iface,
        twice[1].ip_vlan.as_ref().unwrap().base_iface
    );
    assert_eq!(once.len(), twice.len());
}

#[test]
fn wifi_phase1_missing_ssid_is_not_an_error() {
    let attrs = vec![
        WifiAttr::IfName("wlan0".to_string()),
        WifiAttr::Frequency(2437),
    ];
    assert_eq!(wifi_iface_name(&attrs), Some("wlan0".to_string()));
    let info = parse_wifi_phase1(&attrs);
    assert_eq!(info.ssid, None);
    assert_eq!(info.frequency, Some(2437));
    assert_eq!(info.generation, None);
}

#[test]
fn wifi_phase1_reads_ssid_when_present() {
    let attrs = vec![
        WifiAttr::Ssid("lab".to_string()),
        WifiAttr::Frequency(5180),
        WifiAttr::Unknown,
    ];
    let info = parse_wifi_phase1(&attrs);
    assert_eq!(info.ssid.as_deref(), Some("lab"));
}

#[test]
fn he_rate_in_rx_block_means_sixth_generation() {
    let attrs = vec![StationAttr::RxBitrate(vec![
        RateAttr::HeMcs,
        RateAttr::Bitrate(1200),
        RateAttr::Width(80),
    ])];
    let info = apply_station_attrs(WifiInfo::default(), &attrs);
    assert_eq!(info.generation, Some(6));
    assert_eq!(info.rx_bitrate, Some(1200));
    assert_eq!(info.rx_width, Some(80));
    assert_eq!(info.tx_bitrate, None);
}

#[test]
fn tx_block_sets_only_transmit_fields() {
    let attrs = vec![
        StationAttr::Signal(-55),
        StationAttr::TxBitrate(vec![RateAttr::Bitrate(866), RateAttr::Mcs]),
    ];
    let info = apply_station_attrs(WifiInfo::default(), &attrs);
    assert_eq!(info.signal, Some(-55));
    assert_eq!(info.tx_bitrate, Some(866));
    assert_eq!(info.generation, None);
    assert_eq!(info.rx_bitrate, None);
}

#[test]
fn rate_generations_map_per_variant() {
    for (attr, generation) in [
        (RateAttr::Mcs, 4),
        (RateAttr::VhtMcs, 5),
        (RateAttr::HeMcs, 6),
        (RateAttr::EhtMcs, 7),
    ] {
        let attrs = vec![StationAttr::RxBitrate(vec![attr])];
        let info = apply_station_attrs(WifiInfo::default(), &attrs);
        assert_eq!(info.generation, Some(generation));
    }
}

#[test]
fn error_constructor_keeps_kind_and_message() {
    let e = NisporError::new(
        ErrorKind::TransportOpen(SnapshotPhase::WirelessInterfaces),
        "no wireless transport".to_string(),
    );
    assert_eq!(e.kind, ErrorKind::TransportOpen(SnapshotPhase::WirelessInterfaces));
    assert_eq!(e.msg, "no wireless transport");
}

#[test]
fn phase1_merge_marks_wifi_and_clears_other_payloads() {
    let mut iface = ip_vlan_iface("wlan0", 3, "7");
    let attrs = vec![WifiAttr::Ssid("lab".to_string()), WifiAttr::Frequency(5180)];
    nispor::iface::set_wifi_phase1(&mut iface, parse_wifi_phase1(&attrs));
    assert_eq!(iface.iface_type, IfaceType::Wifi);
    assert!(iface.ip_vlan.is_none());
    assert!(iface.vxlan.is_none());
    assert_eq!(iface.wifi.as_ref().unwrap().ssid.as_deref(), Some("lab"));
}

#[test]
fn station_stats_skip_records_without_phase1_payload() {
    let mut untouched = plain_iface("eth0", 2);
    let attrs = vec![StationAttr::Signal(-40)];
    nispor::iface::merge_station_stats(&mut untouched, &attrs);
    assert_eq!(untouched.iface_type, IfaceType::Unknown);
    assert!(untouched.wifi.is_none());

    let mut wifi_iface = plain_iface("wlan0", 3);
    nispor::iface::set_wifi_phase1(&mut wifi_iface, WifiInfo::default());
    nispor::iface::merge_station_stats(&mut wifi_iface, &attrs);
    assert_eq!(wifi_iface.wifi.as_ref().unwrap().signal, Some(-40));
}
