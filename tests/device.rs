use rdma::ah::GlobalRoute;
use rdma::device::{Device, DeviceList, Gid, GidEntry, GidType, Guid, LinkLayer, Mtu, PortAttr, PortState};
use rdma::utils::require_send_sync;
use rdma::wr::Sge;

fn hex_bytes<const N: usize>(s: &str) -> [u8; N] {
    let mut out = [0u8; N];
    for i in 0..N {
        out[i] = u8::from_str_radix(&s[2 * i..2 * i + 2], 16).unwrap();
    }
    out
}

#[test]
fn device_guid_fmt() {
    let guid = Guid::from_bytes([0x26, 0x41, 0x8c, 0xff, 0xfe, 0x02, 0x1d, 0xf9]);
    let debug = guid.debug_string();
    let lower_hex = guid.lower_hex();
    let upper_hex = guid.upper_hex();

    assert_eq!(debug, "Guid(26418cfffe021df9)");
    assert_eq!(lower_hex, "26418cfffe021df9");
    assert_eq!(upper_hex, "26418CFFFE021DF9");
}

#[test]
fn guid_guid_fmt() {
    const GUID_HEX: &str = "26418cfffe021df9";
    let guid = Guid::from_bytes(hex_bytes::<8>(GUID_HEX));

    assert_eq!(guid.debug_string(), format!("Guid({GUID_HEX})"));
    assert_eq!(guid.lower_hex(), GUID_HEX);
    assert_eq!(guid.upper_hex(), GUID_HEX.to_ascii_uppercase());
}

#[test]
fn gid_gid_fmt() {
    const GID_HEX: &str = "fe800000000000009acd3cec6916fc65";
    let gid = Gid::from_bytes(hex_bytes::<16>(GID_HEX));

    assert_eq!(gid.debug_string(), format!("Gid({GID_HEX})"));
    assert_eq!(gid.lower_hex(), GID_HEX);
    assert_eq!(gid.upper_hex(), GID_HEX.to_ascii_uppercase());
}

#[test]
fn device_marker() {
    require_send_sync::<Device>();
    require_send_sync::<DeviceList>();
    require_send_sync::<Guid>();
}

#[test]
fn gid_marker() {
    require_send_sync::<GidEntry>();
    require_send_sync::<Gid>();
}

#[test]
fn guid_marker() {
    require_send_sync::<Guid>();
}

#[test]
fn sge_layout() {
    // the hardware's scatter/gather entry: a u64 address, then a u32 length and key
    assert_eq!(std::mem::size_of::<Sge>(), 16);
    assert_eq!(std::mem::align_of::<Sge>(), 8);
}

#[test]
fn global_route_holds_its_fields() {
    let gid = Gid::from_bytes([1; 16]);
    let grh = GlobalRoute { dest_gid: gid, flow_label: 3, sgid_index: 2, hop_limit: 1, traffic_class: 0 };
    assert_eq!(grh.dest_gid, gid);
    assert_eq!(grh.sgid_index, 2);
}

#[test]
fn guid_bytes_round_trip() {
    let bytes = [1, 2, 3, 4, 5, 6, 7, 8];
    assert_eq!(*Guid::from_bytes(bytes).as_bytes(), bytes);
    let gbytes = [9u8; 16];
    assert_eq!(*Gid::from_bytes(gbytes).as_bytes(), gbytes);
}

#[test]
fn hex_is_not_the_raw_bytes() {
    let guid = Guid::from_bytes([0, 0, 0, 0, 0, 0, 0, 0xab]);
    assert_eq!(guid.lower_hex(), "00000000000000ab");
    assert_eq!(guid.upper_hex(), "00000000000000AB");
}

#[test]
fn gid_interface_half() {
    let mut raw = [0u8; 16];
    raw[0] = 0xfe;
    assert!(Gid::from_bytes(raw).interface_id_is_zero());
    raw[15] = 1;
    assert!(!Gid::from_bytes(raw).interface_id_is_zero());
}

#[test]
fn gid_entry_decodes_type() {
    let entry = GidEntry { gid: Gid::from_bytes([0; 16]), gid_index: 0, port_num: 1, gid_type: 2, ndev_ifindex: 0 };
    assert_eq!(entry.gid_type(), GidType::RoceV2);
    assert_eq!(GidType::from_c_uint(0), GidType::IB);
    assert_eq!(GidType::from_c_uint(1), GidType::RoceV1);
}

#[test]
fn mtu_sizes() {
    assert_eq!(Mtu::Mtu256.size(), 256);
    assert_eq!(Mtu::Mtu1024.size(), 1024);
    assert_eq!(Mtu::Mtu4096.size(), 4096);
    assert_eq!(Mtu::from_c_uint(3), Mtu::Mtu1024);
    assert_eq!(Mtu::Mtu2048.to_c_uint(), 4);
}

#[test]
fn port_attr_decodes() {
    let port = PortAttr { state: 4, gid_tbl_len: 16, link_layer: 2, lid: 7, active_mtu: 5 };
    assert_eq!(port.state(), PortState::Active);
    assert_eq!(port.link_layer(), LinkLayer::Ethernet);
    assert_eq!(port.gid_table_len(), 16);
    assert_eq!(port.lid(), 7);
    assert_eq!(port.active_mtu(), Mtu::Mtu4096);
}

#[test]
fn device_list_holds_devices() {
    let guid = Guid::from_bytes([0x26, 0x41, 0x8c, 0xff, 0xfe, 0x02, 0x1d, 0xf9]);
    let list = DeviceList::new(vec![Device::new("mlx5_0".to_string(), guid)]);
    assert_eq!(list.len(), 1);
    assert!(!list.is_empty());
    assert_eq!(list.as_slice()[0].name(), "mlx5_0");
    assert_eq!(list.as_slice()[0].guid(), guid);
    assert!(DeviceList::new(Vec::new()).is_empty());
}

#[test]
fn indent_saturates() {
    let mut indent = rdma::utils::Indent { width: 4, level: 0 };
    indent.push();
    indent.push();
    assert_eq!(indent.level, 8);
    indent.pop();
    indent.pop();
    indent.pop();
    assert_eq!(indent.level, 0);
    let mut top = rdma::utils::Indent { width: 4, level: usize::MAX - 1 };
    top.push();
    assert_eq!(top.level, usize::MAX);
}
