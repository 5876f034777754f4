use pnetlink::link::{
    IfFlags, IfType, OperState, IFF_LOOPBACK, IFF_RUNNING, IFF_UP, IFLA_IFNAME, IFLA_MTU,
    RTM_DELLINK, RTM_GETLINK, RTM_NEWLINK, RTM_SETLINK,
};

#[test]
fn route_message_kinds() {
    assert_eq!(RTM_NEWLINK, 16);
    assert_eq!(RTM_DELLINK, 17);
    assert_eq!(RTM_GETLINK, 18);
    assert_eq!(RTM_SETLINK, 19);
    assert_eq!(IFLA_IFNAME, 3);
    assert_eq!(IFLA_MTU, 4);
}

#[test]
fn if_type_maps_raw_values_exhaustively() {
    assert_eq!(IfType::new(0), IfType::Generic);
    assert_eq!(IfType::new(1), IfType::Ether);
    assert_eq!(IfType::new(772), IfType::Loopback);
    // out-of-range values fall back instead of being reinterpreted
    assert_eq!(IfType::new(9999), IfType::Generic);
    assert_eq!(IfType::new(771), IfType::Generic);
    assert_eq!(IfType::Loopback.value(), 772);
    assert_eq!(IfType::Ether.value(), 1);
}

#[test]
fn oper_state_maps_raw_bytes_exhaustively() {
    assert_eq!(OperState::new(0), OperState::Unknown);
    assert_eq!(OperState::new(1), OperState::NotPresent);
    assert_eq!(OperState::new(2), OperState::Down);
    assert_eq!(OperState::new(3), OperState::LowerLayerDown);
    assert_eq!(OperState::new(4), OperState::Testing);
    assert_eq!(OperState::new(5), OperState::Dormant);
    assert_eq!(OperState::new(6), OperState::Up);
    // out-of-range bytes fall back instead of being reinterpreted
    assert_eq!(OperState::new(7), OperState::Unknown);
    assert_eq!(OperState::new(200), OperState::Unknown);
}

#[test]
fn if_flags_keep_only_known_bits() {
    let f = IfFlags::new(IFF_UP | IFF_RUNNING);
    assert_eq!(f.bits, 0x41);
    assert!(f.contains(IFF_UP));
    assert!(f.contains(IFF_RUNNING));
    assert!(!f.contains(IFF_LOOPBACK));
    // unknown high bits are dropped
    assert_eq!(IfFlags::new(0xfff8_0001).bits, IFF_UP);
}
