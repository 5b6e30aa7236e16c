use vm_launcher::addr::Ipv4Address;
use vm_launcher::addr::Ipv4Net;
use vm_launcher::addr::MacAddr;
use vm_launcher::network::BridgePlan;
use vm_launcher::network::generate_mac;
use vm_launcher::network::network_setup;
use vm_launcher::network::reconcile_bridge;
use vm_launcher::network::common::CommonError;
use vm_launcher::network::common::check_interface_name;
use vm_launcher::network::common::has_net_admin_capability;
use vm_launcher::network::userbridge::UserBridgeError;
use vm_launcher::network::userbridge::bridge_up_flags;
use vm_launcher::network::userbridge::clear_up_flag;
use vm_launcher::network::userbridge::is_up_flags;
use vm_launcher::network::usertap::tap_mode_flags;
use vm_launcher::network::userbridge::classify_caps;

#[test]
fn network_setup_covers_the_guest_range() {
    let net = Ipv4Net::new(Ipv4Address::from_octets(10, 0, 0, 0), 24);
    let mut nc = network_setup(net);
    assert_eq!(nc.bridge_name, "tbr0");
    assert_eq!(nc.host_ip(), Ipv4Address::from_octets(10, 0, 0, 1));

    let first = nc.get_tap().unwrap();
    assert_eq!(first.ip(), &Ipv4Address::from_octets(10, 0, 0, 2));
    assert_eq!(first.device(), "tap0");
    let second = nc.get_tap().unwrap();
    assert_eq!(second.ip(), &Ipv4Address::from_octets(10, 0, 0, 3));
    assert_eq!(second.device(), "tap1");

    nc.release_tap(first);
    let third = nc.get_tap().unwrap();
    assert_eq!(third.ip(), &Ipv4Address::from_octets(10, 0, 0, 2));
    assert_eq!(third.device(), "tap0");
}

#[test]
fn small_network_exhausts_to_none() {
    let net = Ipv4Net::new(Ipv4Address::from_octets(192, 168, 7, 0), 30);
    let mut nc = network_setup(net);
    let only = nc.get_tap().unwrap();
    assert_eq!(only.ip(), &Ipv4Address::from_octets(192, 168, 7, 2));
    assert!(nc.get_tap().is_none());
}

#[test]
fn cidr_math_places_network_broadcast_and_host() {
    let net = Ipv4Net::new(Ipv4Address::from_octets(10, 1, 2, 3), 24);
    assert_eq!(net.network(), Ipv4Address::from_octets(10, 1, 2, 0));
    assert_eq!(net.broadcast(), Ipv4Address::from_octets(10, 1, 2, 255));
    assert_eq!(net.host_address(), Ipv4Address::from_octets(10, 1, 2, 1));
}

#[test]
fn bridge_reconciliation_is_idempotent_for_identical_networks() {
    let net = Ipv4Net::new(Ipv4Address::from_octets(10, 0, 0, 0), 24);
    let other = Ipv4Net::new(Ipv4Address::from_octets(10, 0, 1, 0), 24);
    assert_eq!(reconcile_bridge(None, net), BridgePlan::Create);
    assert_eq!(reconcile_bridge(Some(net), net), BridgePlan::Reuse);
    assert_eq!(reconcile_bridge(Some(other), net), BridgePlan::Recreate);
}

#[test]
fn generated_macs_carry_the_fixed_prefix() {
    let mac = generate_mac();
    assert_eq!(&mac.bytes[..3], &[0x00, 0x60, 0x2f]);
    let text = mac.to_hex_string();
    assert!(text.starts_with("00:60:2f:"));
    assert_eq!(text.len(), 17);
}

#[test]
fn mac_derivation_takes_the_low_bytes_of_the_word() {
    let mac = vm_launcher::network::mac_from_word(0x0000_0000_0012_3456);
    assert_eq!(mac.bytes, [0x00, 0x60, 0x2f, 0x56, 0x34, 0x12]);
}

#[test]
fn mac_renders_lowercase_hex_pairs() {
    let mac = MacAddr::from_bytes([0x00, 0x60, 0x2f, 0xab, 0x00, 0xff]);
    assert_eq!(mac.to_hex_string(), "00:60:2f:ab:00:ff");
}

#[test]
fn interface_names_longer_than_the_kernel_buffer_are_rejected() {
    assert!(check_interface_name("tap0").is_ok());
    assert!(check_interface_name("fifteen-chars-x").is_ok());
    assert!(matches!(
        check_interface_name("sixteen-chars-xy"),
        Err(CommonError::NameToLong)
    ));
}

#[test]
fn flag_words_follow_the_kernel_bits() {
    assert_eq!(bridge_up_flags(), 0x1043);
    assert!(is_up_flags(bridge_up_flags()));
    let down = clear_up_flag(bridge_up_flags());
    assert!(!is_up_flags(down));
    assert_eq!(down, 0x1042);
    assert_eq!(tap_mode_flags(), 0x0002);
}

#[test]
fn capability_probe_outcomes_map_to_distinct_errors() {
    assert!(classify_caps(Ok(true)).is_ok());
    match classify_caps(Ok(false)) {
        Err(UserBridgeError::MissingCap(s)) => assert_eq!(s, "CAP_NET_ADMIN"),
        _ => panic!("expected the missing-capability error"),
    }
    let probe_err = caps::errors::CapsError::from("no capability api");
    assert!(matches!(classify_caps(Err(probe_err)), Err(UserBridgeError::Caps)));
    let live = has_net_admin_capability();
    assert!(live.is_ok());
}

#[test]
fn addresses_render_and_convert() {
    let a = Ipv4Address::from_octets(10, 0, 0, 1);
    assert_eq!(a.to_dec_string(), "10.0.0.1");
    assert_eq!(a.octets(), [10, 0, 0, 1]);
    assert_eq!(a.value_little_endian(), 0x0100000a);
    assert_eq!(Ipv4Address::from_value(0xff000001).to_dec_string(), "255.0.0.1");
}
