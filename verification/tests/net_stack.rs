use betrusted_ec::hal_time::TimeMs;
use betrusted_ec::net::dhcp_options::parse_options;
use betrusted_ec::net::dhcp::{DhcpClient, DhcpEvent, PacketNeeded, RequestType, State};
use betrusted_ec::net::filter::{FilterBin, FilterStats};
use betrusted_ec::net::hostname::Hostname;
use betrusted_ec::net::prng::NetPrng;
use betrusted_ec::net::{handle_frame, ipv4_checksum, ipv4_udp_checksum, NetState};

const OUR_MAC: [u8; 6] = [0x02, 0x11, 0x22, 0x33, 0x44, 0x55];
const GW_MAC: [u8; 6] = [0xaa, 0xbb, 0xcc, 0xdd, 0xee, 0xff];
const XID: u32 = 0x1234_5678;
const OFFERED_IP: [u8; 4] = [192, 168, 1, 50];

fn now_ms(ms: u32) -> TimeMs {
    TimeMs::from_words(ms, 0)
}

/// One's complement sum of big-endian words, computed independently of the library.
fn oc_sum(bytes: &[u8], acc: u32) -> u32 {
    let mut sum = acc;
    let mut i = 0;
    while i + 1 < bytes.len() {
        sum += ((bytes[i] as u32) << 8) | bytes[i + 1] as u32;
        i += 2;
    }
    if i < bytes.len() {
        sum += (bytes[i] as u32) << 8;
    }
    while sum > 0xffff {
        sum = (sum & 0xffff) + (sum >> 16);
    }
    sum
}

fn fix_checksums(f: &mut Vec<u8>) {
    f[24] = 0;
    f[25] = 0;
    let ip = !(oc_sum(&f[14..34], 0) as u16);
    f[24] = (ip >> 8) as u8;
    f[25] = ip as u8;
    if f[23] == 17 {
        f[40] = 0;
        f[41] = 0;
        let udp_len = (f.len() - 34) as u32;
        let mut pseudo = Vec::new();
        pseudo.extend_from_slice(&f[26..34]);
        pseudo.extend_from_slice(&[0, 17, (udp_len >> 8) as u8, udp_len as u8]);
        let s = oc_sum(&f[34..], oc_sum(&pseudo, 0));
        let u = !(s as u16);
        f[40] = (u >> 8) as u8;
        f[41] = u as u8;
    }
}

/// An IPv4 frame from the gateway to us with the given protocol and payload after the
/// 20 byte IP header.
fn ipv4_frame(proto: u8, payload: &[u8]) -> Vec<u8> {
    let mut f = Vec::new();
    f.extend_from_slice(&OUR_MAC);
    f.extend_from_slice(&GW_MAC);
    f.extend_from_slice(&[0x08, 0x00]);
    let total = (20 + payload.len()) as u16;
    f.extend_from_slice(&[0x45, 0x00, (total >> 8) as u8, total as u8, 0x00, 0x01, 0x40, 0x00, 64, proto, 0, 0]);
    f.extend_from_slice(&[192, 168, 1, 1]);
    f.extend_from_slice(&OFFERED_IP);
    f.extend_from_slice(payload);
    fix_checksums(&mut f);
    f
}

fn udp_frame(src_port: u16, dst_port: u16, body: &[u8]) -> Vec<u8> {
    let len = (8 + body.len()) as u16;
    let mut p = vec![(src_port >> 8) as u8, src_port as u8, (dst_port >> 8) as u8, dst_port as u8];
    p.extend_from_slice(&[(len >> 8) as u8, len as u8, 0, 0]);
    p.extend_from_slice(body);
    ipv4_frame(17, &p)
}

/// A BOOTP reply from the server with the given DHCP options (after the magic cookie).
fn dhcp_reply(xid: u32, yiaddr: [u8; 4], options: &[u8]) -> Vec<u8> {
    let mut b = vec![2u8, 1, 6, 0];
    b.extend_from_slice(&xid.to_be_bytes());
    b.extend_from_slice(&[0, 0, 0, 0]);
    b.extend_from_slice(&[0, 0, 0, 0]);
    b.extend_from_slice(&yiaddr);
    b.extend_from_slice(&[0u8; 8]);
    b.extend_from_slice(&OUR_MAC);
    b.extend_from_slice(&[0u8; 10]);
    b.extend_from_slice(&[0u8; 192]);
    b.extend_from_slice(&[0x63, 0x82, 0x53, 0x63]);
    b.extend_from_slice(options);
    udp_frame(67, 68, &b)
}

fn offer_options() -> Vec<u8> {
    vec![
        53, 1, 2, 54, 4, 192, 168, 1, 1, 51, 4, 0, 0, 0x0e, 0x10, 1, 4, 255, 255, 255, 0, 3, 4, 192, 168,
        1, 1, 6, 4, 8, 8, 8, 8, 255,
    ]
}

fn ack_options() -> Vec<u8> {
    vec![53, 1, 5, 54, 4, 192, 168, 1, 1, 51, 4, 0, 0, 0x0e, 0x10, 255]
}

fn nak_options() -> Vec<u8> {
    vec![53, 1, 6, 255]
}

fn started_net_state() -> NetState {
    let mut ns = NetState::new();
    ns.set_mac(&OUR_MAC);
    ns.dhcp.begin_at_init([1, 2, 0x0403_0201, 0x0807_0605, XID]);
    ns
}

#[test]
fn prng_outputs_match_xoshiro128pp_after_warmup() {
    let mut p = NetPrng::new_from(&[1, 2, 3, 4, 5, 6, 7, 8]);
    assert_eq!(p.next(), 0x7fd4_a652);
    assert_eq!(p.next(), 0x08c8_13ed);
    assert_eq!(p.next(), 0xdc0c_e63d);
}

#[test]
fn prng_all_zero_seed_stays_zero() {
    let mut p = NetPrng::new_from(&[0; 8]);
    assert_eq!(p.next(), 0);
    assert_eq!(p.next(), 0);
}

#[test]
fn prng_reseed_restarts_sequence() {
    let mut p = NetPrng::new_from(&[9; 8]);
    let _ = p.next();
    p.reseed(&[1, 2, 3, 4, 5, 6, 7, 8]);
    assert_eq!(p.next(), 0x7fd4_a652);
}

#[test]
fn hostname_randomize_examples() {
    let mut h = Hostname::new_blank();
    assert_eq!(h.len(), 1);
    h.randomize(0x0403_0201, 0x0807_0605);
    assert_eq!(h.as_str(), "C234567");
    h.randomize(0, 0);
    assert_eq!(h.as_str(), "B0000000");
    h.randomize(0xffff_ffff, 0xffff_ffff);
    assert_eq!(h.as_str(), "ZZZZZ");
    assert_eq!(h.len(), 5);
    h.randomize(0x7fd4_a652, 0x08c8_13ed);
    assert_eq!(h.as_bytes(), b"K6MZDL");
}

#[test]
fn hostname_randomize_if_unset_keeps_existing_name() {
    let mut h = Hostname::new_blank();
    h.randomize_if_unset(0, 0);
    assert_eq!(h.as_str(), "B0000000");
    h.randomize_if_unset(0xffff_ffff, 0xffff_ffff);
    assert_eq!(h.as_str(), "B0000000");
}

#[test]
fn ipv4_header_checksum_known_value() {
    let mut f = vec![0u8; 14];
    f.extend_from_slice(&[
        0x45, 0x00, 0x00, 0x73, 0x00, 0x00, 0x40, 0x00, 0x40, 0x11, 0xb8, 0x61, 0xc0, 0xa8, 0x00, 0x01,
        0xc0, 0xa8, 0x00, 0xc7,
    ]);
    assert_eq!(ipv4_checksum(&f), 0xb861);
}

#[test]
fn udp_checksum_matches_independent_computation() {
    let f = udp_frame(5000, 6000, &[1, 2, 3, 4, 5]);
    let expected = ((f[40] as u16) << 8) | f[41] as u16;
    assert_eq!(ipv4_udp_checksum(&f), expected);
    let g = udp_frame(5000, 6000, &[1, 2, 3, 4]);
    let expected_g = ((g[40] as u16) << 8) | g[41] as u16;
    assert_eq!(ipv4_udp_checksum(&g), expected_g);
}

#[test]
fn filter_drops_short_mdns_and_unknown_ethertype() {
    let mut ns = NetState::new();
    assert_eq!(handle_frame(&mut ns, &[0u8; 10], now_ms(0)), FilterBin::DropNoise);
    let mut mdns = vec![0x01, 0x00, 0x5e, 0x00, 0x00, 0xfb];
    mdns.extend_from_slice(&[0u8; 40]);
    assert_eq!(handle_frame(&mut ns, &mdns, now_ms(0)), FilterBin::DropMulti);
    let mut v6 = vec![0u8; 12];
    v6.extend_from_slice(&[0x86, 0xdd]);
    v6.extend_from_slice(&[0u8; 40]);
    assert_eq!(handle_frame(&mut ns, &v6, now_ms(0)), FilterBin::DropEType);
    assert_eq!(ns.filter_stats.drop_noise, 1);
    assert_eq!(ns.filter_stats.drop_multi, 1);
    assert_eq!(ns.filter_stats.drop_etype, 1);
    assert_eq!(ns.filter_stats.com_fwd, 0);
}

#[test]
fn filter_ipv4_cases() {
    let mut ns = NetState::new();
    let tcp = ipv4_frame(6, &[0u8; 20]);
    assert_eq!(handle_frame(&mut ns, &tcp, now_ms(0)), FilterBin::ComFwd);
    let icmp = ipv4_frame(1, &[8, 0, 0, 0, 0, 0, 0, 0]);
    assert_eq!(handle_frame(&mut ns, &icmp, now_ms(0)), FilterBin::ComFwd);
    let other = ipv4_frame(50, &[0u8; 8]);
    assert_eq!(handle_frame(&mut ns, &other, now_ms(0)), FilterBin::DropProto);
    let mut bad_ck = ipv4_frame(6, &[0u8; 20]);
    bad_ck[25] ^= 0xff;
    assert_eq!(handle_frame(&mut ns, &bad_ck, now_ms(0)), FilterBin::DropIpCk);
    let mut frag = ipv4_frame(6, &[0u8; 20]);
    frag[20] = 0x20;
    fix_checksums(&mut frag);
    assert_eq!(handle_frame(&mut ns, &frag, now_ms(0)), FilterBin::DropFrag);
    let mut opts = ipv4_frame(6, &[0u8; 20]);
    opts[14] = 0x46;
    assert_eq!(handle_frame(&mut ns, &opts, now_ms(0)), FilterBin::DropNoise);
    let udp_other = udp_frame(5000, 6000, &[1, 2, 3]);
    assert_eq!(handle_frame(&mut ns, &udp_other, now_ms(0)), FilterBin::ComFwd);
    let mut udp_bad = udp_frame(67, 68, &[0u8; 300]);
    udp_bad[41] ^= 0x01;
    assert_eq!(handle_frame(&mut ns, &udp_bad, now_ms(0)), FilterBin::DropUdpCk);
    assert_eq!(ns.filter_stats.com_fwd, 3);
    assert_eq!(ns.filter_stats.drop_udpck, 1);
}

#[test]
fn dhcp_reply_while_halted_is_dropped() {
    let mut ns = NetState::new();
    let offer = dhcp_reply(XID, OFFERED_IP, &offer_options());
    assert_eq!(handle_frame(&mut ns, &offer, now_ms(0)), FilterBin::DropDhcp);
    assert_eq!(ns.dhcp.get_state(), State::Halted);
}

#[test]
fn dhcp_discover_frame_layout() {
    let mut ns = started_net_state();
    assert_eq!(ns.dhcp.get_state(), State::Init);
    assert_eq!(ns.dhcp.hostname.as_str(), "C234567");
    assert_eq!(ns.dhcp.cycle_clock(now_ms(1000)), PacketNeeded::Discover);
    assert_eq!(ns.dhcp.get_state(), State::Selecting);
    let mut pbuf = [0xeeu8; 400];
    let r = ns.dhcp.build_discover_frame(&mut pbuf, &OUR_MAC, 0x0102, now_ms(1000));
    assert_eq!(r, Ok(342));
    // Ethernet header: broadcast from our MAC
    assert_eq!(&pbuf[0..6], &[255u8; 6]);
    assert_eq!(&pbuf[6..12], &OUR_MAC);
    assert_eq!(&pbuf[12..14], &[8, 0]);
    // IP header
    assert_eq!(&pbuf[14..20], &[0x45, 0x00, 0x01, 0x48, 0x01, 0x02]);
    assert_eq!(&pbuf[22..24], &[255, 17]);
    assert_eq!(&pbuf[26..34], &[0, 0, 0, 0, 255, 255, 255, 255]);
    // UDP ports 68 -> 67, length 0x134
    assert_eq!(&pbuf[34..40], &[0, 68, 0, 67, 0x01, 0x34]);
    // BOOTP request with our xid and zero seconds
    assert_eq!(&pbuf[42..46], &[1, 1, 6, 0]);
    assert_eq!(&pbuf[46..50], &XID.to_be_bytes());
    assert_eq!(&pbuf[50..52], &[0, 0]);
    assert_eq!(&pbuf[70..76], &OUR_MAC);
    // options
    let opts = &pbuf[278..];
    assert_eq!(&opts[0..4], &[0x63, 0x82, 0x53, 0x63]);
    assert_eq!(&opts[4..7], &[53, 1, 1]);
    assert_eq!(&opts[20..23], &[61, 7, 1]);
    assert_eq!(&opts[23..29], &OUR_MAC);
    assert_eq!(&opts[29..37], &[51, 4, 0x00, 0x76, 0xa7, 0x00, 12, 7]);
    assert_eq!(&opts[37..44], b"C234567");
    assert_eq!(opts[44], 255);
    assert!(pbuf[278 + 45..342].iter().all(|b| *b == 0));
    // bytes past the frame are untouched
    assert!(pbuf[342..].iter().all(|b| *b == 0xee));
    // checksums are those of the frame
    let mut check = pbuf[..342].to_vec();
    fix_checksums(&mut check);
    assert_eq!(&check[..], &pbuf[..342]);
}

#[test]
fn dhcp_build_errors() {
    let mut ns = started_net_state();
    let mut small = [0u8; 100];
    assert_eq!(ns.dhcp.build_discover_frame(&mut small, &OUR_MAC, 1, now_ms(0)), Err(0x08));
    assert_eq!(
        ns.dhcp.build_request_frame(&mut small, &OUR_MAC, RequestType::Discover, 1, now_ms(0)),
        Err(0x09)
    );
    let mut pbuf = [0u8; 400];
    // the seconds stopwatch has not started before the first cycle
    assert_eq!(ns.dhcp.build_discover_frame(&mut pbuf, &OUR_MAC, 1, now_ms(0)), Err(0x07));
    // no offer yet: nothing to request
    assert_eq!(
        ns.dhcp.build_request_frame(&mut pbuf, &OUR_MAC, RequestType::Discover, 1, now_ms(0)),
        Err(0x0A)
    );
    let mut fresh = DhcpClient::new();
    assert_eq!(fresh.build_discover_frame(&mut pbuf, &OUR_MAC, 1, now_ms(0)), Err(0x04));
    assert_eq!(fresh.get_state_tag(), "dhcpHalt");
}

#[test]
fn dhcp_offer_request_ack_reaches_bound() {
    let mut ns = started_net_state();
    assert_eq!(ns.dhcp.cycle_clock(now_ms(1000)), PacketNeeded::Discover);
    // a reply with another transaction id is ignored
    let stray = dhcp_reply(XID + 1, OFFERED_IP, &offer_options());
    assert_eq!(handle_frame(&mut ns, &stray, now_ms(1100)), FilterBin::DropDhcp);
    let offer = dhcp_reply(XID, OFFERED_IP, &offer_options());
    assert_eq!(handle_frame(&mut ns, &offer, now_ms(1200)), FilterBin::Dhcp);
    assert_eq!(ns.dhcp.ip, Some(0xc0a8_0132));
    assert_eq!(ns.dhcp.sid, Some(0xc0a8_0101));
    assert_eq!(ns.dhcp.gateway, Some(0xc0a8_0101));
    assert_eq!(ns.dhcp.subnet, Some(0xffff_ff00));
    assert_eq!(ns.dhcp.dns, Some(0x0808_0808));
    assert_eq!(ns.dhcp.lease_sec, Some(3600));
    assert_eq!(ns.dhcp.gateway_mac, Some(GW_MAC));
    assert_eq!(ns.filter_stats.dhcp, 1);
    assert_eq!(ns.dhcp.cycle_clock(now_ms(1300)), PacketNeeded::Request);
    assert_eq!(ns.dhcp.get_state(), State::Requesting);
    let mut pbuf = [0u8; 342];
    assert_eq!(
        ns.dhcp.build_request_frame(&mut pbuf, &OUR_MAC, RequestType::Discover, 7, now_ms(3000)),
        Ok(342)
    );
    let opts = &pbuf[278..];
    assert_eq!(&opts[4..7], &[53, 1, 3]);
    assert_eq!(&opts[29..35], &[50, 4, 192, 168, 1, 50]);
    assert_eq!(&opts[35..41], &[54, 4, 192, 168, 1, 1]);
    assert_eq!(&opts[41..43], &[12, 7]);
    assert_eq!(&opts[43..50], b"C234567");
    assert_eq!(opts[50], 255);
    // two seconds since the first discover
    assert_eq!(&pbuf[50..52], &[0, 2]);
    let ack = dhcp_reply(XID, OFFERED_IP, &ack_options());
    assert_eq!(handle_frame(&mut ns, &ack, now_ms(4000)), FilterBin::Dhcp);
    assert_eq!(ns.dhcp.get_state(), State::Bound);
    assert_eq!(ns.dhcp.get_state_tag(), "dhcpBound");
    assert_eq!(ns.dhcp.pop_and_ack_change_event(), Some(DhcpEvent::ChangedToBound));
    assert_eq!(ns.dhcp.pop_and_ack_change_event(), None);
    // T1 is half the lease
    assert_eq!(ns.dhcp.cycle_clock(now_ms(4000 + 1_799_000)), PacketNeeded::NoPacket);
    assert_eq!(ns.dhcp.cycle_clock(now_ms(4000 + 1_800_000)), PacketNeeded::Renew);
    assert_eq!(ns.dhcp.get_state(), State::Renewing);
    let mut rbuf = [0u8; 342];
    assert_eq!(
        ns.dhcp.build_request_frame(&mut rbuf, &OUR_MAC, RequestType::Renew, 8, now_ms(1_804_000)),
        Ok(342)
    );
    // a renew is unicast to the gateway from our address
    assert_eq!(&rbuf[0..6], &GW_MAC);
    assert_eq!(&rbuf[26..30], &OFFERED_IP);
    assert_eq!(&rbuf[30..34], &[192, 168, 1, 1]);
    assert_eq!(&rbuf[54..58], &OFFERED_IP);
    assert_eq!(rbuf[278 + 29], 12);
}

#[test]
fn dhcp_nak_while_requesting_restarts_and_while_renewing_halts() {
    let mut ns = started_net_state();
    ns.dhcp.cycle_clock(now_ms(0));
    let offer = dhcp_reply(XID, OFFERED_IP, &offer_options());
    handle_frame(&mut ns, &offer, now_ms(10));
    ns.dhcp.cycle_clock(now_ms(20));
    let nak = dhcp_reply(XID, [0; 4], &nak_options());
    assert_eq!(handle_frame(&mut ns, &nak, now_ms(30)), FilterBin::Dhcp);
    assert_eq!(ns.dhcp.get_state(), State::Init);
    assert_eq!(ns.dhcp.ip, None);

    let mut dc = DhcpClient::new();
    dc.begin_at_init([0, 0, 0, 0, 5]);
    dc.cycle_clock(now_ms(0));
    dc.handle_offer(1, 2, 3, &GW_MAC, 100, 5, 6);
    dc.cycle_clock(now_ms(1));
    dc.handle_ack(100, now_ms(2));
    assert_eq!(dc.get_state(), State::Bound);
    assert_eq!(dc.cycle_clock(now_ms(2 + 50_000)), PacketNeeded::Renew);
    dc.handle_nak();
    assert_eq!(dc.get_state(), State::Halted);
    assert_eq!(dc.pop_and_ack_change_event(), Some(DhcpEvent::ChangedToHalted));
}

#[test]
fn dhcp_offer_outside_selecting_is_ignored() {
    let mut dc = DhcpClient::new();
    dc.handle_offer(1, 2, 3, &GW_MAC, 100, 5, 6);
    assert_eq!(dc.ip, None);
    dc.handle_ack(100, now_ms(0));
    assert_eq!(dc.get_state(), State::Halted);
}

#[test]
fn dhcp_link_drop_halts_and_clears_bindings() {
    let mut dc = DhcpClient::new();
    dc.begin_at_init([0, 0, 0, 0, 5]);
    dc.cycle_clock(now_ms(0));
    dc.handle_offer(1, 2, 3, &GW_MAC, 100, 5, 6);
    dc.handle_link_drop();
    assert_eq!(dc.get_state(), State::Halted);
    assert_eq!(dc.ip, None);
    assert_eq!(dc.sid, None);
    assert_eq!(dc.pop_and_ack_change_event(), Some(DhcpEvent::ChangedToHalted));
}

#[test]
fn arp_request_for_bound_address_is_ours() {
    let mut ns = started_net_state();
    ns.dhcp.cycle_clock(now_ms(0));
    handle_frame(&mut ns, &dhcp_reply(XID, OFFERED_IP, &offer_options()), now_ms(1));
    ns.dhcp.cycle_clock(now_ms(2));
    handle_frame(&mut ns, &dhcp_reply(XID, OFFERED_IP, &ack_options()), now_ms(3));
    assert_eq!(ns.dhcp.get_state(), State::Bound);
    let mut arp = vec![255u8; 6];
    arp.extend_from_slice(&GW_MAC);
    arp.extend_from_slice(&[0x08, 0x06, 0, 1, 8, 0, 6, 4, 0, 1]);
    arp.extend_from_slice(&GW_MAC);
    arp.extend_from_slice(&[192, 168, 1, 1]);
    arp.extend_from_slice(&[0u8; 6]);
    arp.extend_from_slice(&OFFERED_IP);
    assert_eq!(handle_frame(&mut ns, &arp, now_ms(4)), FilterBin::Arp);
    let mut other = arp.clone();
    other[41] = 99;
    assert_eq!(handle_frame(&mut ns, &other, now_ms(4)), FilterBin::DropNoise);
    let mut reply = arp.clone();
    reply[21] = 2;
    assert_eq!(handle_frame(&mut ns, &reply, now_ms(4)), FilterBin::ComFwd);
    assert_eq!(ns.filter_stats.arp, 1);
}

#[test]
fn filter_stats_saturate_and_reset() {
    let mut s = FilterStats::new_all_zero();
    s.udp = u16::MAX;
    s.inc_count_for(FilterBin::Udp);
    assert_eq!(s.udp, u16::MAX);
    s.inc_count_for(FilterBin::Icmp);
    assert_eq!(s.icmp, 1);
    s.reset();
    assert_eq!(s.udp, 0);
    assert_eq!(s.icmp, 0);
}

#[test]
fn net_state_defaults() {
    let mut ns = NetState::new();
    assert_eq!(ns.mac, [0u8; 6]);
    assert!(ns.com_net_bridge_enable);
    ns.set_com_net_bridge_enable(false);
    assert!(!ns.com_net_bridge_enable);
    assert_eq!(ns.dhcp.get_state(), State::Halted);
}

#[test]
fn dhcp_options_with_trailing_pad_parse() {
    let d = parse_options(&[50, 1, 7, 0]).unwrap();
    assert_eq!(d.msg_type, None);
    assert_eq!(d.server_id, None);
    assert_eq!(d.ip_lease_time, None);
    assert_eq!(d.subnet, None);
    assert_eq!(d.gateway, None);
    assert_eq!(d.dns, None);
    assert_eq!(parse_options(&[53, 1, 6, 0, 0]).unwrap().msg_type, Some(6));
    assert_eq!(parse_options(&[53, 1]), Err(0x02));
    assert_eq!(parse_options(&[53]), Err(0x01));
    assert_eq!(parse_options(&[53, 2, 6, 6]), Err(0x11));
    // a NAK whose options end in a pad instead of an end option is still a NAK
    let mut ns = started_net_state();
    ns.dhcp.cycle_clock(now_ms(0));
    let offer = dhcp_reply(XID, OFFERED_IP, &offer_options());
    handle_frame(&mut ns, &offer, now_ms(10));
    ns.dhcp.cycle_clock(now_ms(20));
    let nak = dhcp_reply(XID, [0; 4], &[53, 1, 6, 0]);
    assert_eq!(handle_frame(&mut ns, &nak, now_ms(30)), FilterBin::Dhcp);
    assert_eq!(ns.dhcp.get_state(), State::Init);
}
