//! This module provides a minimalist IP stack with packet filtering: Ethernet II
//! frame dispatch, IPv4/UDP checksums, ARP, and a DHCP client.
pub mod dhcp;
pub mod dhcp_options;
pub mod filter;
pub mod hostname;
pub mod prng;
pub mod timers;

use crate::bits::lemma_word_bytes;
use crate::hal_time::TimeMs;
use dhcp::{DhcpClient, State};
use filter::{saturating_inc, FilterBin, FilterStats};
use prng::NetPrng;
use vstd::prelude::*;

verus! {

/// Expected Ethernet frame header sizes
pub const MAC_HEADER_LEN: usize = 14;
pub const ARP_FRAME_LEN: usize = 42;
pub const IPV4_MIN_HEADER_LEN: usize = 20;
pub const IPV4_MIN_FRAME_LEN: usize = 34;
pub const UDP_HEADER_LEN: usize = 8;
pub const MIN_UDP_FRAME_LEN: usize = 42;

/// Zero byte and UDP protocol number of the IP pseudo-header, as one word
pub const ZERO_PAD_PROTO_UDP: u16 = 0x0011;

/// The big-endian 16-bit word at byte offset `i`.
pub open spec fn be16_at(d: Seq<u8>, i: int) -> int {
    d[i] * 256 + d[i + 1]
}

/// The big-endian 32-bit word at byte offset `i`.
pub open spec fn be32_at(d: Seq<u8>, i: int) -> int {
    be16_at(d, i) * 0x1_0000 + be16_at(d, i + 2)
}

/// Big-endian bytes of a 16-bit value.
pub open spec fn be16_bytes(x: u16) -> Seq<u8> {
    seq![(x / 256) as u8, (x % 256) as u8]
}

/// Big-endian bytes of a 32-bit value.
pub open spec fn be32_bytes(x: u32) -> Seq<u8> {
    seq![
        (x / 0x100_0000) as u8,
        ((x / 0x1_0000) % 256) as u8,
        ((x / 0x100) % 256) as u8,
        (x % 256) as u8,
    ]
}

/// `n` zero bytes.
pub open spec fn zeros(n: nat) -> Seq<u8> {
    Seq::new(n, |i: int| 0u8)
}

/// `d` with the 16-bit value `x` written big-endian at byte offset `i`.
pub open spec fn put_be16(d: Seq<u8>, i: int, x: u16) -> Seq<u8> {
    d.update(i, (x / 256) as u8).update(i + 1, (x % 256) as u8)
}

/// Read the big-endian 16-bit word at byte offset `i`.
pub fn read_be16(d: &[u8], i: usize) -> (r: u16)
    requires
        i + 2 <= d@.len(),
    ensures
        r == be16_at(d@, i as int),
{
    (d[i] as u16) * 256 + d[i + 1] as u16
}

/// Read the big-endian 32-bit word at byte offset `i`.
pub fn read_be32(d: &[u8], i: usize) -> (r: u32)
    requires
        i + 4 <= d@.len(),
    ensures
        r == be32_at(d@, i as int),
{
    let n = d.len();
    let j = i + 2;
    (read_be16(d, i) as u32) * 0x1_0000 + read_be16(d, j) as u32
}

/// Append the bytes of `s` to `v`.
pub fn push_bytes(v: &mut Vec<u8>, s: &[u8])
    ensures
        final(v)@ == old(v)@ + s@,
{
    let mut i: usize = 0;
    let ghost v0 = v@;
    while i < s.len()
        invariant
            i <= s@.len(),
            v@ == v0 + s@.take(i as int),
        decreases s@.len() - i,
    {
        v.push(s[i]);
        i = i + 1;
        assert(v@ =~= v0 + s@.take(i as int));
    }
    assert(s@.take(s@.len() as int) =~= s@);
}

/// Append the big-endian bytes of a 16-bit value to `v`.
pub fn push_be16(v: &mut Vec<u8>, x: u16)
    ensures
        final(v)@ == old(v)@ + be16_bytes(x),
{
    let ghost v0 = v@;
    v.push((x / 256) as u8);
    v.push((x % 256) as u8);
    assert(v@ =~= v0 + be16_bytes(x));
}

/// Append the big-endian bytes of a 32-bit value to `v`.
pub fn push_be32(v: &mut Vec<u8>, x: u32)
    ensures
        final(v)@ == old(v)@ + be32_bytes(x),
{
    let ghost v0 = v@;
    v.push((x / 0x100_0000) as u8);
    v.push(((x / 0x1_0000) % 256) as u8);
    v.push(((x / 0x100) % 256) as u8);
    v.push((x % 256) as u8);
    assert(v@ =~= v0 + be32_bytes(x));
}

/// Append `n` zero bytes to `v`.
pub fn push_zeros(v: &mut Vec<u8>, n: usize)
    ensures
        final(v)@ == old(v)@ + zeros(n as nat),
{
    let ghost v0 = v@;
    let mut i: usize = 0;
    while i < n
        invariant
            i <= n,
            v@ == v0 + zeros(i as nat),
        decreases n - i,
    {
        v.push(0);
        i = i + 1;
        assert(v@ =~= v0 + zeros(i as nat));
    }
}

/// Copy `src` over the front of `dst`, leaving the rest of `dst` alone.
pub fn copy_into(dst: &mut [u8], src: &[u8])
    requires
        src@.len() <= old(dst)@.len(),
    ensures
        final(dst)@ == src@ + old(dst)@.skip(src@.len() as int),
{
    let ghost d0 = dst@;
    let mut i: usize = 0;
    while i < src.len()
        invariant
            i <= src@.len(),
            src@.len() <= d0.len(),
            dst@.len() == d0.len(),
            forall|j: int| 0 <= j < i ==> dst@[j] == src@[j],
            forall|j: int| i <= j < d0.len() ==> dst@[j] == d0[j],
        decreases src@.len() - i,
    {
        dst[i] = src[i];
        i = i + 1;
    }
    assert(dst@ =~= src@ + d0.skip(src@.len() as int));
}

/// One's complement 16-bit addition (add with end-around carry).
pub open spec fn oc_add(a: u16, b: u16) -> u16 {
    if a + b > 0xffff {
        (a + b - 0xffff) as u16
    } else {
        (a + b) as u16
    }
}

/// One's complement sum, started from `acc`, of the `n` big-endian words at byte
/// offsets start, start + 2, ...
pub open spec fn oc_fold(d: Seq<u8>, start: int, n: nat, acc: u16) -> u16
    decreases n,
{
    if n == 0 {
        acc
    } else {
        oc_fold(d, start + 2, (n - 1) as nat, oc_add(acc, be16_at(d, start) as u16))
    }
}

/// IPv4 header checksum (RFC 1071, RFC 791) of the 20 byte header that follows the
/// 14 byte MAC header, skipping the checksum field itself.
pub open spec fn ipv4_checksum_spec(d: Seq<u8>) -> u16 {
    let s = oc_fold(d, 26, 4, oc_fold(d, 14, 5, 0));
    (0xffff - s) as u16
}

/// UDP checksum (RFC 1071, RFC 768): the IP pseudo-header {src, dst, zero, protocol,
/// UDP length} and the whole UDP datagram, skipping the checksum field, with an odd
/// final byte padded by a zero byte.
pub open spec fn udp_checksum_spec(d: Seq<u8>) -> u16 {
    let s1 = oc_fold(d, 26, 4, 0x0011);
    let s2 = oc_fold(d, 38, 1, s1);
    let s3 = oc_fold(d, 34, 3, s2);
    let body = d.len() - 42;
    let s4 = oc_fold(d, 42, (body / 2) as nat, s3);
    let tail: u16 = if body % 2 == 1 { (d[d.len() - 1] * 256) as u16 } else { 0 };
    (0xffff - oc_add(s4, tail)) as u16
}

fn oc_add_exec(a: u16, b: u16) -> (r: u16)
    ensures
        r == oc_add(a, b),
{
    let s: u32 = a as u32 + b as u32;
    if s > 0xffff {
        (s - 0xffff) as u16
    } else {
        s as u16
    }
}

/// One's complement sum of `n` words at `start`, continuing from `acc`.
fn oc_fold_exec(d: &[u8], start: usize, n: usize, acc: u16) -> (r: u16)
    requires
        start + 2 * n <= d@.len(),
    ensures
        r == oc_fold(d@, start as int, n as nat, acc),
{
    let mut sum = acc;
    let mut k: usize = 0;
    let len = d.len();
    while k < n
        invariant
            k <= n,
            len == d@.len(),
            start + 2 * n <= d@.len(),
            oc_fold(d@, start as int, n as nat, acc) == oc_fold(
                d@,
                start + 2 * k,
                (n - k) as nat,
                sum,
            ),
        decreases n - k,
    {
        let i = start + 2 * k;
        let x: u16 = (d[i] as u16) * 256 + d[i + 1] as u16;
        sum = oc_add_exec(sum, x);
        k = k + 1;
    }
    sum
}

/// Calculate one's complement IPv4 header checksum according to RFC 1071 & RFC 791
pub fn ipv4_checksum(data: &[u8]) -> (r: u16)
    requires
        data@.len() >= IPV4_MIN_FRAME_LEN,
    ensures
        r == ipv4_checksum_spec(data@),
{
    let pre = oc_fold_exec(data, 14, 5, 0);
    let sum = oc_fold_exec(data, 26, 4, pre);
    proof {
        lemma_word_bytes(sum);
    }
    !sum
}

/// Calculate one's complement UDP checksum according to RFC 1071 & RFC 768
/// UDP checksum includes IP pseudo-header {src,dst,zero,protocol,UDP_len} and the whole UDP datagram
pub fn ipv4_udp_checksum(data: &[u8]) -> (r: u16)
    requires
        data@.len() >= MIN_UDP_FRAME_LEN,
    ensures
        r == udp_checksum_spec(data@),
{
    let s1 = oc_fold_exec(data, 26, 4, ZERO_PAD_PROTO_UDP);
    let s2 = oc_fold_exec(data, 38, 1, s1);
    let s3 = oc_fold_exec(data, 34, 3, s2);
    let body = data.len() - 42;
    let s4 = oc_fold_exec(data, 42, body / 2, s3);
    // If the UDP datagram length was not an integer multiple of 16-bits, pad it
    let tail: u16 = if body % 2 == 1 {
        (data[data.len() - 1] as u16) * 256
    } else {
        0
    };
    let sum = oc_add_exec(s4, tail);
    proof {
        lemma_word_bytes(sum);
    }
    !sum
}


/// Ethertype of IPv4 (0x0800) and of ARP (0x0806)
pub const ETHERTYPE_IPV4: [u8; 2] = [0x08, 0x00];
pub const ETHERTYPE_ARP: [u8; 2] = [0x08, 0x06];

/// IP protocol numbers the filter knows
pub const PROTO_UDP: u8 = 0x11;
pub const PROTO_TCP: u8 = 0x06;
pub const PROTO_ICMP: u8 = 0x01;

/// UDP port of a DHCP client
pub const DHCP_CLIENT_PORT: u16 = 68;

/// Version 4 with the minimum header length of 5 words
pub const VER4_LEN5: u8 = 0x45;

/// Flags and fragment offset bits that mark a fragment (all but Don't Fragment)
pub const IGNORE_DF_MASK: u8 = 0b101_11111;

/// Is the destination MAC the mDNS multicast address 01:00:5E:00:00:FB?
pub open spec fn dest_is_mdns(d: Seq<u8>) -> bool {
    d[0] == 0x01 && d[1] == 0x00 && d[2] == 0x5e && d[3] == 0x00 && d[4] == 0x00 && d[5] == 0xfb
}

/// Filter bin of a UDP frame, or None when it goes to the DHCP client.
/// Only datagrams for the DHCP client port have their checksum checked; the others are
/// forwarded up the COM bus net bridge.
pub open spec fn udp_bin(d: Seq<u8>) -> Option<FilterBin> {
    if d.len() < MIN_UDP_FRAME_LEN {
        Some(FilterBin::DropNoise)
    } else if be16_at(d, 36) != DHCP_CLIENT_PORT {
        Some(FilterBin::ComFwd)
    } else if be16_at(d, 40) != udp_checksum_spec(d) {
        Some(FilterBin::DropUdpCk)
    } else {
        None
    }
}

/// Filter bin of an IPv4 frame, or None when it goes to the DHCP client.
/// Frames with IP options, fragments, and bad header checksums are dropped.
pub open spec fn ipv4_bin(d: Seq<u8>) -> Option<FilterBin> {
    if d.len() < IPV4_MIN_FRAME_LEN {
        Some(FilterBin::DropNoise)
    } else if d[14] != VER4_LEN5 {
        Some(FilterBin::DropNoise)
    } else if (d[20] & IGNORE_DF_MASK) != 0 || d[21] != 0 {
        Some(FilterBin::DropFrag)
    } else if ipv4_checksum_spec(d) != be16_at(d, 24) {
        Some(FilterBin::DropIpCk)
    } else if d[23] == PROTO_UDP {
        udp_bin(d)
    } else if d[23] == PROTO_ICMP || d[23] == PROTO_TCP {
        Some(FilterBin::ComFwd)
    } else {
        Some(FilterBin::DropProto)
    }
}

/// Filter bin of an ARP frame: requests for our bound IP are for us, replies are
/// forwarded up the COM bus net bridge, everything else is noise.
pub open spec fn arp_bin(dhcp: DhcpClient, d: Seq<u8>) -> FilterBin {
    if d.len() < ARP_FRAME_LEN {
        FilterBin::DropNoise
    } else if dhcp.state != State::Bound {
        FilterBin::DropNoise
    } else {
        match dhcp.ip {
            None => FilterBin::DropNoise,
            Some(my_ip4) => if !(d[14] == 0 && d[15] == 1 && d[16] == 8 && d[17] == 0 && d[18] == 6
                && d[19] == 4) {
                FilterBin::DropNoise
            } else if be16_at(d, 20) == 1 && be32_at(d, 38) == my_ip4 {
                FilterBin::Arp
            } else if be16_at(d, 20) == 2 {
                FilterBin::ComFwd
            } else {
                FilterBin::DropNoise
            },
        }
    }
}

/// Filter bin of an Ethernet II frame, or None when it goes to the DHCP client.
pub open spec fn eth_bin(dhcp: DhcpClient, d: Seq<u8>) -> Option<FilterBin> {
    if d.len() < MAC_HEADER_LEN {
        Some(FilterBin::DropNoise)
    } else if dest_is_mdns(d) {
        Some(FilterBin::DropMulti)
    } else if d[12] == 0x08 && d[13] == 0x00 {
        ipv4_bin(d)
    } else if d[12] == 0x08 && d[13] == 0x06 {
        Some(arp_bin(dhcp, d))
    } else {
        Some(FilterBin::DropEType)
    }
}

/// Holds network stack state such as DHCP client state, addresses, and diagnostic stats
pub struct NetState {
    pub mac: [u8; 6],
    pub filter_stats: FilterStats,
    pub prng: NetPrng,
    pub dhcp: DhcpClient,
    pub com_net_bridge_enable: bool,
}

impl NetState {
    /// Initialize a new NetState struct
    pub fn new() -> (r: NetState)
        ensures
            r.mac@ == seq![0u8, 0, 0, 0, 0, 0],
            r.filter_stats.all_zero(),
            r.prng.count == 0,
            r.prng.s@ == prng::seed_state(Seq::new(8, |i: int| 0x55u16)),
            r.dhcp.state == State::Halted,
            r.dhcp.hostname.length == 1,
            r.dhcp.ip is None,
            r.com_net_bridge_enable,
    {
        let r = NetState {
            mac: [0u8; 6],
            filter_stats: FilterStats::new_all_zero(),
            prng: NetPrng::new_from(&[0x55u16; 8]),
            dhcp: DhcpClient::new(),
            com_net_bridge_enable: true,
        };
        assert(r.mac@ =~= seq![0u8, 0, 0, 0, 0, 0]);
        r
    }

    /// Set the source MAC address to use for building outbound Ethernet frames
    pub fn set_mac(&mut self, mac: &[u8; 6])
        ensures
            final(self).mac == *mac,
            final(self).filter_stats == old(self).filter_stats,
            final(self).prng == old(self).prng,
            final(self).dhcp == old(self).dhcp,
            final(self).com_net_bridge_enable == old(self).com_net_bridge_enable,
    {
        self.mac = *mac;
    }

    /// Enable or disable forwarding of frames up the COM bus net bridge
    pub fn set_com_net_bridge_enable(&mut self, enable: bool)
        ensures
            final(self).com_net_bridge_enable == enable,
            final(self).mac == old(self).mac,
            final(self).filter_stats == old(self).filter_stats,
            final(self).prng == old(self).prng,
            final(self).dhcp == old(self).dhcp,
    {
        self.com_net_bridge_enable = enable;
    }
}

/// How `handle_frame` at time `now` turns the state `old` into `new` on receiving
/// `data`, reporting the filter bin `bin`: frames for the DHCP client go through its
/// state machine, every other frame leaves it alone; the bin's counter goes up by one,
/// saturating, and nothing else changes.
pub open spec fn frame_handled(old: NetState, new: NetState, data: Seq<u8>, now: TimeMs, bin: FilterBin) -> bool {
    &&& match eth_bin(old.dhcp, data) {
        Some(b) => bin == b && new.dhcp == old.dhcp,
        None => DhcpClient::frame_outcome(old.dhcp, new.dhcp, data, now, bin),
    }
    &&& new.filter_stats.count_for(bin) == saturating_inc(old.filter_stats.count_for(bin))
    &&& forall|b: FilterBin| b != bin ==> #[trigger] new.filter_stats.count_for(b) == old.filter_stats.count_for(b)
    &&& new.mac == old.mac
    &&& new.prng == old.prng
    &&& new.com_net_bridge_enable == old.com_net_bridge_enable
}

/// Handle an inbound Ethernet II frame, returning the bin it was filtered into and
/// counting it in the filter stats.
///
/// This expects the 14-byte "Ethernet II frame header" format of the WF200:
/// {6-byte dest MAC, 6-byte src MAC, 2-byte ethertype}, with no preamble nor trailing
/// checksum. As a defensive precaution, frames with EtherType values indicating a long
/// 802.3 style MAC header containing tags are dropped.
pub fn handle_frame(net_state: &mut NetState, data: &[u8], now: TimeMs) -> (r: FilterBin)
    ensures
        frame_handled(*old(net_state), *final(net_state), data@, now, r),
{
    if data.len() < MAC_HEADER_LEN {
        // Drop frames that are too short to contain an Ethernet MAC header
        let bin = FilterBin::DropNoise;
        net_state.filter_stats.inc_count_for(bin);
        return bin;
    }
    if data[0] == 0x01 && data[1] == 0x00 && data[2] == 0x5e && data[3] == 0x00 && data[4] == 0x00
        && data[5] == 0xfb {
        // Drop mDNS
        let bin = FilterBin::DropMulti;
        net_state.filter_stats.inc_count_for(bin);
        return bin;
    }
    // ipv4=0x0800, ipv6=0x86DD, arp=0x0806, vlan=0x8100
    let filter_bin = if data[12] == ETHERTYPE_IPV4[0] && data[13] == ETHERTYPE_IPV4[1] {
        handle_ipv4_frame(net_state, data, now)
    } else if data[12] == ETHERTYPE_ARP[0] && data[13] == ETHERTYPE_ARP[1] {
        handle_arp_frame(net_state, data)
    } else {
        FilterBin::DropEType
    };
    net_state.filter_stats.inc_count_for(filter_bin);
    filter_bin
}

/// Handle an IPv4 frame (see `ipv4_bin`)
fn handle_ipv4_frame(net_state: &mut NetState, data: &[u8], now: TimeMs) -> (r: FilterBin)
    requires
        data@.len() >= MAC_HEADER_LEN,
    ensures
        match ipv4_bin(data@) {
            Some(b) => r == b && *final(net_state) == *old(net_state),
            None => DhcpClient::frame_outcome(
                old(net_state).dhcp,
                final(net_state).dhcp,
                data@,
                now,
                r,
            ) && final(net_state).filter_stats == old(net_state).filter_stats
                && final(net_state).mac == old(net_state).mac && final(net_state).prng == old(
                net_state,
            ).prng && final(net_state).com_net_bridge_enable == old(
                net_state,
            ).com_net_bridge_enable,
        },
{
    if data.len() < IPV4_MIN_FRAME_LEN {
        // Drop frames that are too short to hold an IPV4 header
        return FilterBin::DropNoise;
    }
    if data[14] != VER4_LEN5 {
        // Drop frames with IP version field not 4 or IP header length longer than
        // minimum (5*32-bits=20 bytes), i.e. frames with IP header options
        return FilterBin::DropNoise;
    }
    if (data[20] & IGNORE_DF_MASK != 0) || (data[21] != 0) {
        // Drop frames that are part of a fragmented IP packet
        return FilterBin::DropFrag;
    }
    let csum = ipv4_checksum(data);
    if csum != read_be16(data, 24) {
        return FilterBin::DropIpCk;
    }
    let proto = data[23];
    if proto == PROTO_UDP {
        handle_udp_frame(net_state, data, now)
    } else if proto == PROTO_ICMP {
        handle_icmp_frame(data)
    } else if proto == PROTO_TCP {
        FilterBin::ComFwd
    } else {
        FilterBin::DropProto
    }
}

/// Handle an ICMP frame: well formed ones are forwarded up the COM bus
pub fn handle_icmp_frame(data: &[u8]) -> (r: FilterBin)
    ensures
        data@.len() < IPV4_MIN_FRAME_LEN ==> r == FilterBin::DropNoise,
        data@.len() >= IPV4_MIN_FRAME_LEN ==> r == FilterBin::ComFwd,
{
    if data.len() < IPV4_MIN_FRAME_LEN {
        return FilterBin::DropNoise;
    }
    // Forward ICMP up the COM bus
    FilterBin::ComFwd
}

/// Handle a UDP frame (see `udp_bin`)
fn handle_udp_frame(net_state: &mut NetState, data: &[u8], now: TimeMs) -> (r: FilterBin)
    ensures
        match udp_bin(data@) {
            Some(b) => r == b && *final(net_state) == *old(net_state),
            None => DhcpClient::frame_outcome(
                old(net_state).dhcp,
                final(net_state).dhcp,
                data@,
                now,
                r,
            ) && final(net_state).filter_stats == old(net_state).filter_stats
                && final(net_state).mac == old(net_state).mac && final(net_state).prng == old(
                net_state,
            ).prng && final(net_state).com_net_bridge_enable == old(
                net_state,
            ).com_net_bridge_enable,
        },
{
    if data.len() < MIN_UDP_FRAME_LEN {
        // Drop if frame is too short for a minimal well formed UDP datagram
        return FilterBin::DropNoise;
    }
    let dst_port: u16 = (data[36] as u16) * 256 + data[37] as u16;
    if dst_port != DHCP_CLIENT_PORT {
        // Return early for non-DHCP UDP to skip the checksum check on packets
        // that will get forwarded up the COM bus net bridge
        return FilterBin::ComFwd;
    }
    // If we make it here, packet is for the DHCP client, so check the checksum
    let checksum: u16 = (data[40] as u16) * 256 + data[41] as u16;
    if checksum != ipv4_udp_checksum(data) {
        return FilterBin::DropUdpCk;
    }
    net_state.dhcp.handle_frame(data, now)
}

/// Handle received Ethernet frame of type ARP (0x0806) (see `arp_bin`)
fn handle_arp_frame(net_state: &NetState, data: &[u8]) -> (r: FilterBin)
    requires
        data@.len() >= MAC_HEADER_LEN,
    ensures
        r == arp_bin(net_state.dhcp, data@),
{
    if data.len() < ARP_FRAME_LEN {
        // Drop malformed (too short) ARP packet
        return FilterBin::DropNoise;
    }
    // Determine whether an IP address is bound to our network interface (if not, this ARP is not for us)
    if net_state.dhcp.get_state() != State::Bound {
        return FilterBin::DropNoise;
    }
    let my_ip4: u32 = match net_state.dhcp.ip {
        Some(ip4) => ip4,
        _ => return FilterBin::DropNoise,
    };
    // ARP header for Ethernet + IPv4:
    //  {htype=0x0001 (Ethernet), ptype=0x0800 (IPv4), hlen=0x06 (6 bytes), plen=0x04 (4 bytes)}
    if !(data[14] == 0 && data[15] == 1 && data[16] == 8 && data[17] == 0 && data[18] == 6 && data[19]
        == 4) {
        // Drop ARP packets that do not match the format for IPv4 over Ethernet
        return FilterBin::DropNoise;
    }
    // Handle replies, and requests that are addressed to us
    let oper: u16 = (data[20] as u16) * 256 + data[21] as u16;
    let tpa: u32 = ((data[38] as u32) * 256 + data[39] as u32) * 0x1_0000 + (data[40] as u32) * 256
        + data[41] as u32;
    if (oper == 1) && (tpa == my_ip4) {
        // ARP Request
        return FilterBin::Arp;
    } else if oper == 2 {
        // ARP Reply: these should be passed up the COM bus net bridge
        return FilterBin::ComFwd;
    }
    FilterBin::DropNoise
}


/// The one's complement sum of a run of words depends only on the bytes of that run.
proof fn lemma_oc_fold_agree(d1: Seq<u8>, d2: Seq<u8>, start: int, n: nat, acc: u16)
    requires
        0 <= start,
        start + 2 * n <= d1.len(),
        start + 2 * n <= d2.len(),
        forall|i: int| start <= i < start + 2 * n ==> d1[i] == d2[i],
    ensures
        oc_fold(d1, start, n, acc) == oc_fold(d2, start, n, acc),
    decreases n,
{
    if n > 0 {
        assert(d1[start] == d2[start] && d1[start + 1] == d2[start + 1]);
        lemma_oc_fold_agree(d1, d2, start + 2, (n - 1) as nat, oc_add(acc, be16_at(d1, start) as u16));
    }
}

/// Writing a 16-bit value big-endian and reading it back gives the value.
proof fn lemma_put_be16_read(d: Seq<u8>, i: int, x: u16)
    requires
        0 <= i,
        i + 2 <= d.len(),
    ensures
        be16_at(put_be16(d, i, x), i) == x,
        put_be16(d, i, x).len() == d.len(),
        forall|j: int| 0 <= j < d.len() && j != i && j != i + 1 ==> #[trigger] put_be16(d, i, x)[j] == d[j],
{
}

/// The IP header checksum does not read bytes outside the header nor its own field.
proof fn lemma_ipv4_checksum_agree(d1: Seq<u8>, d2: Seq<u8>)
    requires
        d1.len() >= IPV4_MIN_FRAME_LEN,
        d2.len() >= IPV4_MIN_FRAME_LEN,
        forall|i: int| 14 <= i < 24 ==> d1[i] == d2[i],
        forall|i: int| 26 <= i < 34 ==> d1[i] == d2[i],
    ensures
        ipv4_checksum_spec(d1) == ipv4_checksum_spec(d2),
{
    lemma_oc_fold_agree(d1, d2, 14, 5, 0);
    lemma_oc_fold_agree(d1, d2, 26, 4, oc_fold(d1, 14, 5, 0));
}

/// The UDP checksum reads the pseudo-header and datagram, but not its own field.
proof fn lemma_udp_checksum_agree(d1: Seq<u8>, d2: Seq<u8>)
    requires
        d1.len() >= MIN_UDP_FRAME_LEN,
        d2.len() == d1.len(),
        forall|i: int| 26 <= i < 40 ==> d1[i] == d2[i],
        forall|i: int| 42 <= i < d1.len() ==> d1[i] == d2[i],
    ensures
        udp_checksum_spec(d1) == udp_checksum_spec(d2),
{
    let s1 = oc_fold(d1, 26, 4, 0x0011);
    lemma_oc_fold_agree(d1, d2, 26, 4, 0x0011);
    let s2 = oc_fold(d1, 38, 1, s1);
    lemma_oc_fold_agree(d1, d2, 38, 1, s1);
    let s3 = oc_fold(d1, 34, 3, s2);
    lemma_oc_fold_agree(d1, d2, 34, 3, s2);
    let body = d1.len() - 42;
    lemma_oc_fold_agree(d1, d2, 42, (body / 2) as nat, s3);
}

/// Frames that the DHCP client builds carry a correct IPv4 header checksum and a
/// correct UDP checksum: the filter's own checks accept them.
pub proof fn lemma_built_frame_checksums_valid(t: Seq<u8>)
    ensures
        ({
            let f = dhcp::finish_frame(t);
            &&& f.len() == dhcp::DHCP_FRAME_LEN
            &&& ipv4_checksum_spec(f) == be16_at(f, 24)
            &&& udp_checksum_spec(f) == be16_at(f, 40)
        }),
{
    let f = (t + zeros(dhcp::DHCP_FRAME_LEN as nat)).take(dhcp::DHCP_FRAME_LEN as int);
    assert(f.len() == 342);
    let c = ipv4_checksum_spec(f);
    let f2 = put_be16(f, 24, c);
    lemma_put_be16_read(f, 24, c);
    lemma_ipv4_checksum_agree(f, f2);
    let u = udp_checksum_spec(f2);
    let f3 = put_be16(f2, 40, u);
    lemma_put_be16_read(f2, 40, u);
    lemma_ipv4_checksum_agree(f2, f3);
    lemma_udp_checksum_agree(f2, f3);
    assert(be16_at(f3, 24) == be16_at(f2, 24));
}

/// Fragments are never forwarded nor handed to the DHCP client: an IPv4 frame (long
/// enough, version 4 with a 20 byte header, not multicast DNS) whose more-fragments bit
/// is set or whose fragment offset is nonzero is binned DropFrag, counted there, and
/// leaves the DHCP client as it was.
pub proof fn lemma_fragments_dropped(old: NetState, new: NetState, data: Seq<u8>, now: TimeMs, bin: FilterBin)
    requires
        frame_handled(old, new, data, now, bin),
        data.len() >= IPV4_MIN_FRAME_LEN,
        !dest_is_mdns(data),
        data[12] == 0x08 && data[13] == 0x00,
        data[14] == 0x45,
        (data[20] & 0x20) != 0 || (data[20] & 0x1F) != 0 || data[21] != 0,
    ensures
        bin == FilterBin::DropFrag,
        new.dhcp == old.dhcp,
        new.filter_stats.count_for(FilterBin::DropFrag) == saturating_inc(old.filter_stats.count_for(FilterBin::DropFrag)),
{
    let x = data[20];
    assert((x & 0x20) != 0 || (x & 0x1F) != 0 ==> (x & 0b101_11111u8) != 0) by (bit_vector);
}
/// Only whole, intact frames go up the COM bus net bridge: a frame binned ComFwd is
/// either an IPv4 frame with a 20 byte header, no fragmentation and a correct header
/// checksum, carrying TCP, ICMP or UDP, or an ARP frame. Such a frame leaves the DHCP
/// client as it was.
pub proof fn lemma_forwarded_frames_are_whole(old: NetState, new: NetState, data: Seq<u8>, now: TimeMs)
    requires
        frame_handled(old, new, data, now, FilterBin::ComFwd),
    ensures
        data.len() >= MAC_HEADER_LEN,
        (data[12] == 0x08 && data[13] == 0x00 && data.len() >= IPV4_MIN_FRAME_LEN && data[14] == 0x45
            && (data[20] & 0x20) == 0 && (data[20] & 0x1F) == 0 && data[21] == 0
            && be16_at(data, 24) == ipv4_checksum_spec(data) && (data[23] == PROTO_TCP || data[23] == PROTO_ICMP
            || data[23] == PROTO_UDP)) || (data[12] == 0x08 && data[13] == 0x06),
        new.dhcp == old.dhcp,
{
    if data.len() >= IPV4_MIN_FRAME_LEN {
        let x = data[20];
        assert((x & 0b101_11111u8) == 0 ==> (x & 0x20) == 0 && (x & 0x1F) == 0) by (bit_vector);
    }
    match eth_bin(old.dhcp, data) {
        Some(b) => {},
        None => {
            assert(DhcpClient::frame_outcome(old.dhcp, new.dhcp, data, now, FilterBin::ComFwd));
        },
    }
}
} // verus!
