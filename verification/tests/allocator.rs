use vm_launcher::addr::Ipv4Address;
use vm_launcher::network::IpAddressAllocator;
use vm_launcher::network::Ipv4AddrRange;

fn addr(a: u8, b: u8, c: u8, d: u8) -> Ipv4Address {
    Ipv4Address::from_octets(a, b, c, d)
}

#[test]
fn ip_allocation() {
    let mut allocator = IpAddressAllocator::new(Ipv4AddrRange::new(
        addr(10, 0, 0, 2),
        addr(10, 0, 0, 6),
    ));

    assert_eq!(allocator.allocate(), Some(addr(10, 0, 0, 2)));
    assert_eq!(allocator.allocate(), Some(addr(10, 0, 0, 3)));
    assert_eq!(allocator.allocate(), Some(addr(10, 0, 0, 4)));
    assert_eq!(allocator.allocate(), Some(addr(10, 0, 0, 5)));
    assert_eq!(allocator.allocate(), Some(addr(10, 0, 0, 6)));
    assert_eq!(allocator.allocate(), None);

    allocator.free(addr(10, 0, 0, 4));
    assert_eq!(allocator.allocate(), Some(addr(10, 0, 0, 4)));

    allocator.free(addr(10, 0, 0, 3));
    allocator.free(addr(10, 0, 0, 5));

    assert_eq!(allocator.allocate(), Some(addr(10, 0, 0, 3)));
    assert_eq!(allocator.allocate(), Some(addr(10, 0, 0, 5)));

    allocator.free(addr(10, 0, 0, 3));
    allocator.free(addr(10, 0, 0, 4));
    allocator.free(addr(10, 0, 0, 5));

    assert_eq!(allocator.allocate(), Some(addr(10, 0, 0, 3)));
    assert_eq!(allocator.allocate(), Some(addr(10, 0, 0, 4)));
    allocator.free(addr(10, 0, 0, 6));
    assert_eq!(allocator.allocate(), Some(addr(10, 0, 0, 5)));
    assert_eq!(allocator.allocate(), Some(addr(10, 0, 0, 6)));
}

#[test]
fn allocation_in_order_then_reuse() {
    let mut allocator = IpAddressAllocator::new(Ipv4AddrRange::new(
        Ipv4Address::from_value(1),
        Ipv4Address::from_value(5),
    ));
    assert_eq!(allocator.allocate(), Some(Ipv4Address::from_value(1)));
    assert_eq!(allocator.allocate(), Some(Ipv4Address::from_value(2)));
    assert_eq!(allocator.allocate(), Some(Ipv4Address::from_value(3)));
    assert_eq!(allocator.allocate(), Some(Ipv4Address::from_value(4)));
    assert_eq!(allocator.allocate(), Some(Ipv4Address::from_value(5)));
    assert_eq!(allocator.allocate(), None);

    allocator.free(Ipv4Address::from_value(3));
    assert_eq!(allocator.allocate(), Some(Ipv4Address::from_value(3)));
}

#[test]
fn out_of_order_frees_come_back_lowest_first() {
    let mut allocator = IpAddressAllocator::new(Ipv4AddrRange::new(
        Ipv4Address::from_value(0),
        Ipv4Address::from_value(4),
    ));
    for _ in 0..5 {
        assert!(allocator.allocate().is_some());
    }
    allocator.free(Ipv4Address::from_value(2));
    allocator.free(Ipv4Address::from_value(4));
    assert_eq!(allocator.allocate(), Some(Ipv4Address::from_value(2)));
    assert_eq!(allocator.allocate(), Some(Ipv4Address::from_value(4)));
    assert_eq!(allocator.allocate(), None);
}

#[test]
fn adjacent_frees_coalesce_into_one_interval() {
    let mut allocator = IpAddressAllocator::new(Ipv4AddrRange::new(
        Ipv4Address::from_value(0),
        Ipv4Address::from_value(4),
    ));
    for _ in 0..5 {
        assert!(allocator.allocate().is_some());
    }
    allocator.free(Ipv4Address::from_value(2));
    allocator.free(Ipv4Address::from_value(3));
    allocator.free(Ipv4Address::from_value(4));
    assert_eq!(allocator.free_intervals(), vec![(2, 4)]);
    assert_eq!(allocator.allocate(), Some(Ipv4Address::from_value(2)));
    assert_eq!(allocator.allocate(), Some(Ipv4Address::from_value(3)));
    assert_eq!(allocator.allocate(), Some(Ipv4Address::from_value(4)));
    assert_eq!(allocator.allocate(), None);
}

#[test]
fn freeing_a_free_address_changes_nothing() {
    let mut allocator = IpAddressAllocator::new(Ipv4AddrRange::new(
        Ipv4Address::from_value(0),
        Ipv4Address::from_value(3),
    ));
    assert_eq!(allocator.allocate(), Some(Ipv4Address::from_value(0)));
    allocator.free(Ipv4Address::from_value(2));
    assert_eq!(allocator.free_intervals(), vec![(1, 3)]);
    assert_eq!(allocator.allocate(), Some(Ipv4Address::from_value(1)));
    assert_eq!(allocator.allocate(), Some(Ipv4Address::from_value(2)));
    assert_eq!(allocator.allocate(), Some(Ipv4Address::from_value(3)));
    assert_eq!(allocator.allocate(), None);
}

#[test]
fn range_helpers_translate_offsets() {
    let range = Ipv4AddrRange::new(addr(10, 0, 0, 2), addr(10, 0, 0, 6));
    assert_eq!(IpAddressAllocator::max(range), 5);
    let allocator = IpAddressAllocator::new(range);
    assert_eq!(allocator.to_id(addr(10, 0, 0, 4)), 2);
    assert_eq!(allocator.to_ip(2), addr(10, 0, 0, 4));
}
