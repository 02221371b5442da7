use nispor::ipvlan::{decode_ip_vlan_attrs, get_ip_vlan_info, ipvlan_flag_to_enum, IpVlanAttr};
use nispor::vxlan::{decode_vxlan_attrs, VxlanAttr};
use nispor::{IpVlanFlag, IpVlanMode};
use netlink_packet_route::link::{InfoData, InfoIpVlan};

#[test]
fn mode_codes_decode_totally() {
    assert_eq!(IpVlanMode::from(0u16), IpVlanMode::L2);
    assert_eq!(IpVlanMode::from(1u16), IpVlanMode::L3);
    assert_eq!(IpVlanMode::from(2u16), IpVlanMode::L3S);
    assert_eq!(IpVlanMode::from(7u16), IpVlanMode::Other(7));
    assert_eq!(IpVlanMode::from(u16::MAX), IpVlanMode::Other(u16::MAX));
    assert_eq!(IpVlanMode::default(), IpVlanMode::L3);
}

#[test]
fn flag_bits_decode_independently() {
    assert_eq!(ipvlan_flag_to_enum(0), vec![]);
    assert_eq!(ipvlan_flag_to_enum(0x01), vec![IpVlanFlag::Private]);
    assert_eq!(ipvlan_flag_to_enum(0x02), vec![IpVlanFlag::Vepa]);
    assert_eq!(
        ipvlan_flag_to_enum(0x03),
        vec![IpVlanFlag::Private, IpVlanFlag::Vepa]
    );
}

#[test]
fn unknown_flag_bits_drop_deterministically() {
    assert_eq!(ipvlan_flag_to_enum(0x8003), ipvlan_flag_to_enum(0x03));
    assert_eq!(ipvlan_flag_to_enum(0x8000), ipvlan_flag_to_enum(0));
}

#[test]
fn ip_vlan_attr_list_decodes_mode_and_flags() {
    let attrs = vec![IpVlanAttr::Mode(0), IpVlanAttr::Flags(0)];
    let info = decode_ip_vlan_attrs(&attrs);
    assert_eq!(info.mode, IpVlanMode::L2);
    assert_eq!(info.flags, vec![]);
    assert_eq!(info.base_iface, "");
}

#[test]
fn ip_vlan_duplicate_attr_is_last_write_wins() {
    let attrs = vec![IpVlanAttr::Mode(0), IpVlanAttr::Mode(2), IpVlanAttr::Unknown];
    let info = decode_ip_vlan_attrs(&attrs);
    assert_eq!(info.mode, IpVlanMode::L3S);
}

#[test]
fn ip_vlan_defaults_apply_when_wire_is_silent() {
    let info = decode_ip_vlan_attrs(&vec![]);
    assert_eq!(info.mode, IpVlanMode::L3);
    assert_eq!(info.flags, vec![]);
}

#[test]
fn info_data_dispatch_hit_and_miss() {
    let data = InfoData::IpVlan(vec![
        InfoIpVlan::Mode(netlink_packet_route::link::IpVlanMode::L2),
        InfoIpVlan::Flags(netlink_packet_route::link::IpVlanFlags::empty()),
    ]);
    let info = get_ip_vlan_info(&data).expect("matching discriminant must decode");
    assert_eq!(info.mode, IpVlanMode::L2);
    assert_eq!(info.flags, vec![]);

    let other = InfoData::Bond(vec![]);
    assert!(get_ip_vlan_info(&other).is_none());
}

#[test]
fn vxlan_decode_sets_fields_and_keeps_defaults() {
    let attrs = vec![
        VxlanAttr::Remote("8.8.8.8".to_string()),
        VxlanAttr::Local("1.1.1.1".to_string()),
        VxlanAttr::Id(101),
    ];
    let info = decode_vxlan_attrs(&attrs);
    assert_eq!(info.remote.as_deref(), Some("8.8.8.8"));
    assert_eq!(info.local.as_deref(), Some("1.1.1.1"));
    assert_eq!(info.vxlan_id, 101);
    assert!(info.udp_check_sum);
    assert!(!info.proxy);
    assert!(info.learning);
    assert_eq!(info.dst_port, 4789);
    assert_eq!(info.ageing, 300);
    assert_eq!(info.ttl, 0);
    assert!(!info.gbp);
    assert!(!info.gpe);
}

#[test]
fn vxlan_toggles_come_from_the_wire_when_present() {
    let attrs = vec![
        VxlanAttr::UdpCheckSum(false),
        VxlanAttr::Proxy(true),
        VxlanAttr::Port(8472),
        VxlanAttr::Unknown,
    ];
    let info = decode_vxlan_attrs(&attrs);
    assert!(!info.udp_check_sum);
    assert!(info.proxy);
    assert_eq!(info.dst_port, 8472);
}
