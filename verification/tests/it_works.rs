use betrusted_ec::com::INT_WLAN_CONNECT_EVENT;

#[test]
fn it_works() {
    assert_eq!(2 + 2, 4);
}

#[test]
fn lib_it_works() {
    assert_eq!(2 + 2, 4);
}

#[test]
fn interrupt_bits_are_distinct_single_bits() {
    assert_eq!(INT_WLAN_CONNECT_EVENT.count_ones(), 1);
}
