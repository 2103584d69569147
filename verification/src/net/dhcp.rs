//! This module implements a DHCP client.
//!
//! The code here provides a state machine and functions to build and parse Ethernet
//! frames for a simple DHCP client to obtain an IPv4 address, netmask, gateway, and DNS
//! server.
//!
//! The Ethernet frame building and parsing functions use header field offsets based on
//! a fixed size 14-byte Ethernet II MAC frame header.
//!
//! The current time is read from the hardware timer by the caller and passed in as
//! `now` to the functions whose behavior depends on it.
use super::dhcp_options::{parse_options, parse_options_spec, DhcpOption};
use super::filter::FilterBin;
use super::hostname::Hostname;
use super::timers::{
    elapsed_ms_spec,
    new_random_spec,
    round_ms_to_s,
    schedule_next_spec,
    Countdown,
    CountdownStatus,
    Retry,
    RetryStatus,
    RetryTimer,
    Stopwatch,
    StopwatchErr,
};
use super::{
    be16_bytes,
    be16_at,
    be32_at,
    be32_bytes,
    copy_into,
    ipv4_checksum,
    ipv4_checksum_spec,
    ipv4_udp_checksum,
    push_be16,
    push_be32,
    push_bytes,
    push_zeros,
    put_be16,
    udp_checksum_spec,
    zeros,
    MIN_UDP_FRAME_LEN,
};
use crate::hal_time::TimeMs;
use vstd::prelude::*;

verus! {

/// op field through one byte past the options magic cookie
pub const DHCP_HEADER_LEN: usize = 241;

/// Shortest frame that can hold a DHCP reply
pub const MIN_DHCP_FRAME_LEN: usize = 283;

/// Length of the DHCP frames the client sends
pub const DHCP_FRAME_LEN: usize = 342;

/// BOOTP op code of a server reply
pub const BOOTREPLY: u8 = 2;

/// BOOTP hardware type for Ethernet
pub const HTYPE_ETHERNET: u8 = 1;

/// Length of an Ethernet MAC address
pub const ETHERNET_MAC_LEN: u8 = 6;

/// Length of the MAC, IP, UDP and fixed BOOTP headers of an outgoing frame
pub const DHCP_HEADERS_LEN: usize = 278;

/// DHCP Client States
///
/// InitReboot and Rebooting were intentionally omitted. Halted is for power-up or
/// receiving a DHCPNAK while in Renewing or Rebinding.
#[derive(Copy, Clone, PartialEq, Eq, Structural, Debug)]
pub enum State {
    Halted,
    Init,
    Selecting,
    Requesting,
    Bound,
    Renewing,
    Rebinding,
}

/// Packet types that may need to be sent for a state transition or timer event
#[derive(Copy, Clone, PartialEq, Eq, Structural, Debug)]
pub enum PacketNeeded {
    Discover,
    Request,
    Renew,
    Rebind,
    NoPacket,
}

/// State transition notification latch for polling by event loop
#[derive(Copy, Clone, PartialEq, Eq, Structural, Debug)]
pub enum DhcpEvent {
    ChangedToBound,
    ChangedToHalted,
}

/// The three types of DHCP request packets that require slightly different MAC or DHCP options
#[derive(Copy, Clone, PartialEq, Eq, Structural, Debug)]
pub enum RequestType {
    Discover,
    Renew,
    Rebind,
}

/// What a received DHCP frame amounts to for the client.
#[derive(Copy, Clone, PartialEq, Eq, Structural, Debug)]
pub enum DhcpReply {
    /// Not for this client, malformed, or missing options
    Drop,
    /// DHCPOFFER with server id, offered address, gateway, lease, subnet and DNS
    Offer { sid: u32, ip: u32, gw: u32, lease: u32, subnet: u32, dns: u32 },
    /// DHCPACK with lease time
    Ack { lease: u32 },
    /// DHCPNAK
    Nak,
}

/// DHCP options part 1 of a DISCOVER or REQUEST: magic cookie, 53_type, 55_paramRequestList,
/// 57_maxMsgSize, and the start of 61_clientId (which the source MAC finishes).
pub open spec fn options_prefix(msg_type: u8) -> Seq<u8> {
    seq![
        0x63u8, 0x82, 0x53, 0x63, 53, 1, msg_type, 55, 7, 1, 121, 3, 6, 15, 119, 252, 57, 2, 0x05, 0xdc,
        61, 7, 1,
    ]
}

/// The MAC, IP, UDP and fixed BOOTP headers of an outgoing DHCP frame.
pub open spec fn dhcp_headers_spec(
    src_mac: Seq<u8>,
    dst_mac: Seq<u8>,
    ciaddr: u32,
    ip_id: u16,
    ip_src: u32,
    ip_dst: u32,
    xid: u32,
    secs: u16,
) -> Seq<u8> {
    // Ethernet MAC header
    dst_mac + src_mac + seq![8u8, 0]
    // IP header (checksum left zero)
     + seq![0x45u8, 0x00, 0x01, 0x48] + be16_bytes(ip_id) + seq![0u8, 0] + seq![255u8, 17, 0, 0]
        + be32_bytes(ip_src) + be32_bytes(ip_dst)
    // UDP header: ports 68 -> 67, length 0x134, checksum left zero
     + seq![0u8, 68, 0, 67, 0x01, 0x34, 0, 0]
    // BOOTP: op, htype, hlen, hops, xid, secs, flags, ciaddr, yiaddr/siaddr/giaddr, chaddr, sname, file
     + seq![1u8, 1, 6, 0] + be32_bytes(xid) + be16_bytes(secs) + seq![0u8, 0] + be32_bytes(ciaddr)
        + zeros(12) + src_mac + zeros(10) + zeros(192)
}

/// A frame of `DHCP_FRAME_LEN` bytes: the bytes of `t`, zero padded or cut to length,
/// with the IP header checksum and then the UDP checksum filled in.
pub open spec fn finish_frame(t: Seq<u8>) -> Seq<u8> {
    let f = (t + zeros(DHCP_FRAME_LEN as nat)).take(DHCP_FRAME_LEN as int);
    let f2 = put_be16(f, 24, ipv4_checksum_spec(f));
    put_be16(f2, 40, udp_checksum_spec(f2))
}

/// The options of a DHCPDISCOVER: 51_IpLeaseTime, 12_hostname, 255_end.
pub open spec fn discover_options_spec(src_mac: Seq<u8>, hostname: Seq<u8>) -> Seq<u8> {
    options_prefix(1) + src_mac + seq![51u8, 4, 0x00, 0x76, 0xa7, 0x00, 12, hostname.len() as u8]
        + hostname + seq![255u8]
}

/// The options of a DHCPREQUEST. Requests in the Renewing or Rebinding state leave out
/// the requested IP and server ID options.
pub open spec fn request_options_spec(
    src_mac: Seq<u8>,
    hostname: Seq<u8>,
    request_type: RequestType,
    ip: u32,
    sid: u32,
) -> Seq<u8> {
    let part3 = match request_type {
        RequestType::Discover => seq![50u8, 4] + be32_bytes(ip) + seq![54u8, 4] + be32_bytes(sid),
        _ => Seq::<u8>::empty(),
    };
    options_prefix(3) + src_mac + part3 + seq![12u8, hostname.len() as u8] + hostname + seq![255u8]
}

/// The client's stored values of an offer from a DHCP server.
pub open spec fn offer_applied(
    old: DhcpClient,
    new: DhcpClient,
    sid: u32,
    ip: u32,
    gw: u32,
    gwm: Seq<u8>,
    ls: u32,
    sn: u32,
    dns: u32,
) -> bool {
    if old.state == State::Selecting {
        &&& new.sid == Some(sid)
        &&& new.ip == Some(ip)
        &&& new.gateway == Some(gw)
        &&& new.gateway_mac matches Some(m) && m@ == gwm
        &&& new.lease_sec == Some(ls)
        &&& new.subnet == Some(sn)
        &&& new.dns == Some(dns)
        &&& new == (DhcpClient {
            sid: new.sid,
            ip: new.ip,
            gateway: new.gateway,
            gateway_mac: new.gateway_mac,
            lease_sec: new.lease_sec,
            subnet: new.subnet,
            dns: new.dns,
            ..old
        })
    } else {
        new == old
    }
}

/// The headers `build_dhcp_headers` writes, or its error code: 0x04 when the client has
/// no transaction id, 0x05/0x06/0x07 when the elapsed seconds overflow, underflow, or
/// the exchange stopwatch is not running.
pub open spec fn headers_result(
    c: DhcpClient,
    src_mac: Seq<u8>,
    dst_mac: Seq<u8>,
    ciaddr: u32,
    ip_id: u16,
    ip_src: u32,
    ip_dst: u32,
    now: TimeMs,
) -> Result<Seq<u8>, u8> {
    match c.xid {
        None => Err(0x04),
        Some(xid) => match elapsed_ms_spec(c.secs.start_time, now) {
            Err(StopwatchErr::Overflow) => Err(0x05),
            Err(StopwatchErr::Underflow) => Err(0x06),
            Err(StopwatchErr::NotStarted) => Err(0x07),
            Ok(ms) => Ok(
                dhcp_headers_spec(
                    src_mac,
                    dst_mac,
                    ciaddr,
                    ip_id,
                    ip_src,
                    ip_dst,
                    xid,
                    (round_ms_to_s(ms) % 65536) as u16,
                ),
            ),
        },
    }
}

/// The broadcast MAC address
pub open spec fn broadcast_mac() -> Seq<u8> {
    seq![255u8, 255, 255, 255, 255, 255]
}

/// The frame `build_discover_frame` writes, or its error code.
pub open spec fn discover_frame_result(
    c: DhcpClient,
    src_mac: Seq<u8>,
    ip_id: u16,
    now: TimeMs,
) -> Result<Seq<u8>, u8> {
    match headers_result(c, src_mac, broadcast_mac(), 0, ip_id, 0, 0xffff_ffff, now) {
        Err(e) => Err(e),
        Ok(h) => Ok(finish_frame(h + discover_options_spec(src_mac, c.hostname.bytes()))),
    }
}

/// The frame `build_request_frame` writes, or its error code (0x0A when the client has
/// no offer bound: gateway MAC, IP and server ID). A renewing request is unicast to the
/// server; a rebinding request is broadcast; both carry the bound IP as ciaddr.
pub open spec fn request_frame_result(
    c: DhcpClient,
    src_mac: Seq<u8>,
    request_type: RequestType,
    ip_id: u16,
    now: TimeMs,
) -> Result<Seq<u8>, u8> {
    match (c.gateway_mac, c.ip, c.sid) {
        (Some(gwm), Some(ip), Some(sid)) => {
            let (dst_mac, ciaddr, ip_src, ip_dst) = match request_type {
                RequestType::Renew => (gwm@, ip, ip, sid),
                RequestType::Rebind => (broadcast_mac(), ip, 0u32, 0xffff_ffffu32),
                RequestType::Discover => (broadcast_mac(), 0u32, 0u32, 0xffff_ffffu32),
            };
            match headers_result(c, src_mac, dst_mac, ciaddr, ip_id, ip_src, ip_dst, now) {
                Err(e) => Err(e),
                Ok(h) => Ok(
                    finish_frame(
                        h + request_options_spec(src_mac, c.hostname.bytes(), request_type, ip, sid),
                    ),
                ),
            }
        },
        _ => Err(0x0A),
    }
}

/// State Machine for DHCP client
pub struct DhcpClient {
    pub entropy: [u32; 2],
    pub state_change_event_latch: Option<DhcpEvent>,
    pub timer_t1: Countdown,
    pub timer_t2: Countdown,
    pub timer_lease: Countdown,
    pub hostname: Hostname,
    pub state: State,
    pub secs: Stopwatch,
    pub retry: RetryTimer,
    pub xid: Option<u32>,
    pub sid: Option<u32>,
    pub ip: Option<u32>,
    pub subnet: Option<u32>,
    pub gateway: Option<u32>,
    pub gateway_mac: Option<[u8; 6]>,
    pub lease_sec: Option<u32>,
    pub dns: Option<u32>,
}

impl DhcpClient {
    /// The client with all bindings from an offer cleared and its lease timers stopped.
    pub open spec fn reset_bindings_spec(self) -> Self {
        DhcpClient {
            sid: None,
            ip: None,
            subnet: None,
            gateway: None,
            lease_sec: None,
            dns: None,
            timer_t1: Countdown { done_time: None },
            timer_t2: Countdown { done_time: None },
            timer_lease: Countdown { done_time: None },
            ..self
        }
    }

    /// The client after a transition to Halted (something went wrong).
    pub open spec fn halt_and_reset_spec(self) -> Self {
        DhcpClient {
            state: State::Halted,
            state_change_event_latch: Some(DhcpEvent::ChangedToHalted),
            secs: Stopwatch { start_time: None },
            ..self.reset_bindings_spec()
        }
    }

    /// The client after a DHCPACK with lease time `lease_sec` at time `now`.
    /// T1 = lease/2, T2 = lease*7/8, lease timer = lease*15/16 (margin for a slow clock).
    pub open spec fn ack_spec(self, lease_sec: u32, now: TimeMs) -> Self {
        match self.state {
            State::Requesting | State::Renewing | State::Rebinding => DhcpClient {
                lease_sec: Some(lease_sec),
                timer_t1: Countdown { done_time: Some(now.add_s_spec((lease_sec / 2) as u32)) },
                timer_t2: Countdown { done_time: Some(now.add_s_spec((lease_sec * 7 / 8) as u32)) },
                timer_lease: Countdown {
                    done_time: Some(now.add_s_spec((lease_sec * 15 / 16) as u32)),
                },
                state: State::Bound,
                state_change_event_latch: Some(DhcpEvent::ChangedToBound),
                ..self
            },
            _ => self,
        }
    }

    /// The client after a DHCPNAK.
    pub open spec fn nak_spec(self) -> Self {
        match self.state {
            State::Requesting => DhcpClient { state: State::Init, ..self.reset_bindings_spec() },
            State::Renewing | State::Rebinding => DhcpClient {
                state: State::Halted,
                state_change_event_latch: Some(DhcpEvent::ChangedToHalted),
                ..self.reset_bindings_spec()
            },
            _ => self,
        }
    }

    /// Next state and packet to send when the state machine is clocked at time `now`
    /// (the client state transition diagram of RFC 2131 § 4.4 without InitReboot and
    /// Rebooting).
    pub open spec fn cycle_clock_spec(self, now: TimeMs) -> (Self, PacketNeeded) {
        let e0 = self.entropy@[0];
        let e1 = self.entropy@[1];
        match self.state {
            State::Halted => (self, PacketNeeded::NoPacket),
            State::Init => (
                DhcpClient {
                    secs: Stopwatch { start_time: Some(now) },
                    retry: new_random_spec(Retry::R2s, 1000, e0, now),
                    state: State::Selecting,
                    ..self
                },
                PacketNeeded::Discover,
            ),
            State::Selecting => match self.ip {
                // A valid DHCPOFFER has been received
                Some(_) => (
                    DhcpClient {
                        state: State::Requesting,
                        retry: new_random_spec(Retry::R2s, 1000, e1, now),
                        ..self
                    },
                    PacketNeeded::Request,
                ),
                None => match self.retry.status_at(now) {
                    RetryStatus::Halted => (self.halt_and_reset_spec(), PacketNeeded::NoPacket),
                    RetryStatus::TimerRunning => (self, PacketNeeded::NoPacket),
                    RetryStatus::TimerExpired => (
                        DhcpClient { retry: schedule_next_spec(self.retry, e0, now), ..self },
                        PacketNeeded::Discover,
                    ),
                },
            },
            State::Requesting => match self.retry.status_at(now) {
                RetryStatus::Halted => (self.halt_and_reset_spec(), PacketNeeded::NoPacket),
                RetryStatus::TimerRunning => (self, PacketNeeded::NoPacket),
                RetryStatus::TimerExpired => (
                    DhcpClient { retry: schedule_next_spec(self.retry, e1, now), ..self },
                    PacketNeeded::Request,
                ),
            },
            State::Bound => match self.timer_t1.status_at(now) {
                CountdownStatus::Done => (
                    DhcpClient {
                        timer_t1: Countdown { done_time: None },
                        state: State::Renewing,
                        retry: new_random_spec(Retry::RRenew, 60000, e1, now),
                        secs: Stopwatch { start_time: Some(now) },
                        ..self
                    },
                    PacketNeeded::Renew,
                ),
                _ => (self, PacketNeeded::NoPacket),
            },
            State::Renewing => match self.timer_t2.status_at(now) {
                CountdownStatus::Done => (
                    DhcpClient {
                        timer_t2: Countdown { done_time: None },
                        state: State::Rebinding,
                        retry: new_random_spec(Retry::RRenew, 60000, e1, now),
                        secs: Stopwatch { start_time: Some(now) },
                        ..self
                    },
                    PacketNeeded::Rebind,
                ),
                _ => match self.retry.status_at(now) {
                    RetryStatus::TimerExpired => (
                        DhcpClient {
                            retry: new_random_spec(Retry::RRenew, 60000, e1, now),
                            ..self
                        },
                        PacketNeeded::Renew,
                    ),
                    _ => (self, PacketNeeded::NoPacket),
                },
            },
            State::Rebinding => match self.timer_lease.status_at(now) {
                // Lease is up and a new one could not be had
                CountdownStatus::Done => (
                    DhcpClient {
                        state: State::Halted,
                        state_change_event_latch: Some(DhcpEvent::ChangedToHalted),
                        ..self.reset_bindings_spec()
                    },
                    PacketNeeded::NoPacket,
                ),
                _ => match self.retry.status_at(now) {
                    RetryStatus::TimerExpired => (
                        DhcpClient {
                            retry: new_random_spec(Retry::RRenew, 60000, e1, now),
                            ..self
                        },
                        PacketNeeded::Rebind,
                    ),
                    _ => (self, PacketNeeded::NoPacket),
                },
            },
        }
    }

    /// Does the client get as far as parsing the options of this frame?
    pub open spec fn reaches_options(self, data: Seq<u8>) -> bool {
        let dhcp = data.skip(MIN_UDP_FRAME_LEN as int);
        &&& data.len() >= MIN_DHCP_FRAME_LEN
        &&& (self.state == State::Selecting || self.state == State::Requesting || self.state
            == State::Renewing || self.state == State::Rebinding)
        &&& dhcp[0] == 2 && dhcp[1] == 1 && dhcp[2] == 6
        &&& self.xid == Some(be32_at(dhcp, 4) as u32)
        &&& dhcp[236] == 0x63 && dhcp[237] == 0x82 && dhcp[238] == 0x53 && dhcp[239] == 0x63
    }

    /// What a received frame amounts to for the client (see `handle_frame`).
    pub open spec fn classify_reply(self, data: Seq<u8>) -> DhcpReply {
        if !self.reaches_options(data) {
            DhcpReply::Drop
        } else {
            let dhcp = data.skip(MIN_UDP_FRAME_LEN as int);
            let yiaddr = be32_at(dhcp, 16) as u32;
            match parse_options_spec(dhcp.skip(240)) {
                Ok(opts) => match (
                    opts.msg_type,
                    opts.server_id,
                    opts.gateway,
                    opts.ip_lease_time,
                    opts.subnet,
                    opts.dns,
                ) {
                    (Some(2), Some(sid), Some(gw), Some(ilt), Some(sn), Some(dns)) => DhcpReply::Offer {
                        sid,
                        ip: yiaddr,
                        gw,
                        lease: ilt,
                        subnet: sn,
                        dns,
                    },
                    (Some(5), _, _, Some(ilt), _, _) => DhcpReply::Ack { lease: ilt },
                    (Some(6), _, _, _, _, _) => DhcpReply::Nak,
                    _ => DhcpReply::Drop,
                },
                _ => DhcpReply::Drop,
            }
        }
    }

    /// The client after handling `data` at time `now`, and the filter bin it reports.
    pub open spec fn frame_outcome(
        old: Self,
        new: Self,
        data: Seq<u8>,
        now: TimeMs,
        bin: FilterBin,
    ) -> bool {
        match old.classify_reply(data) {
            DhcpReply::Drop => new == old && bin == FilterBin::DropDhcp,
            DhcpReply::Offer { sid, ip, gw, lease, subnet, dns } => offer_applied(
                old,
                new,
                sid,
                ip,
                gw,
                data.subrange(6, 12),
                lease,
                subnet,
                dns,
            ) && bin == FilterBin::Dhcp,
            DhcpReply::Ack { lease } => new == old.ack_spec(lease, now) && bin == FilterBin::Dhcp,
            DhcpReply::Nak => new == old.nak_spec() && bin == FilterBin::Dhcp,
        }
    }

    pub fn new() -> (r: Self)
        ensures
            r.state == State::Halted,
            r.state_change_event_latch is None,
            r.entropy@ == seq![0u32, 0],
            r.timer_t1.done_time is None,
            r.timer_t2.done_time is None,
            r.timer_lease.done_time is None,
            r.hostname.length == 1,
            r.hostname.buffer@ == Seq::new(63, |i: int| 0u8),
            r.secs.start_time is None,
            r.retry.retry == Retry::Halted,
            r.retry.time is None,
            r.xid is None,
            r.sid is None,
            r.ip is None,
            r.subnet is None,
            r.gateway is None,
            r.gateway_mac is None,
            r.lease_sec is None,
            r.dns is None,
    {
        let r = Self {
            entropy: [0; 2],
            state_change_event_latch: None,
            timer_t1: Countdown::new(),
            timer_t2: Countdown::new(),
            timer_lease: Countdown::new(),
            hostname: Hostname::new_blank(),
            state: State::Halted,
            secs: Stopwatch::new(),
            retry: RetryTimer::new_halted(),
            xid: None,
            sid: None,
            ip: None,
            subnet: None,
            gateway: None,
            gateway_mac: None,
            lease_sec: None,
            dns: None,
        };
        assert(r.entropy@ =~= seq![0u32, 0]);
        r
    }

    /// Return current state machine state
    pub fn get_state(&self) -> (r: State)
        ensures
            r == self.state,
    {
        self.state
    }

    /// Check for notification of Bind/Halt state change event with implicit ACK
    pub fn pop_and_ack_change_event(&mut self) -> (r: Option<DhcpEvent>)
        ensures
            r == old(self).state_change_event_latch,
            *final(self) == (DhcpClient { state_change_event_latch: None, ..*old(self) }),
    {
        match self.state_change_event_latch {
            Some(e) => {
                self.state_change_event_latch = None;
                Some(e)
            },
            None => None,
        }
    }

    /// Return string tag describing current state machine state
    pub fn get_state_tag(&self) -> (r: &str)
        ensures
            self.state == State::Halted ==> r@ == "dhcpHalt"@,
            self.state == State::Init ==> r@ == "dhcpInit"@,
            self.state == State::Selecting ==> r@ == "dhcpSelect"@,
            self.state == State::Requesting ==> r@ == "dhcpRequest"@,
            self.state == State::Bound ==> r@ == "dhcpBound"@,
            self.state == State::Renewing ==> r@ == "dhcpRenew"@,
            self.state == State::Rebinding ==> r@ == "dhcpRebind"@,
    {
        match self.state {
            State::Halted => "dhcpHalt",
            State::Init => "dhcpInit",
            State::Selecting => "dhcpSelect",
            State::Requesting => "dhcpRequest",
            State::Bound => "dhcpBound",
            State::Renewing => "dhcpRenew",
            State::Rebinding => "dhcpRebind",
        }
    }

    /// Clear all bindings that get populated from a DHCPOFFER
    fn reset_bindings(&mut self)
        ensures
            *final(self) == old(self).reset_bindings_spec(),
    {
        self.sid = None;
        self.ip = None;
        self.subnet = None;
        self.gateway = None;
        self.lease_sec = None;
        self.dns = None;
        self.timer_t1.clear();
        self.timer_t2.clear();
        self.timer_lease.clear();
    }

    /// Reset to reflect a state transition to halted (this means something went wrong)
    fn halt_and_reset(&mut self)
        ensures
            *final(self) == old(self).halt_and_reset_spec(),
    {
        self.state = State::Halted;
        self.state_change_event_latch = Some(DhcpEvent::ChangedToHalted);
        self.secs.reset();
        self.reset_bindings();
    }

    /// Handle network link drop
    pub fn handle_link_drop(&mut self)
        ensures
            *final(self) == old(self).halt_and_reset_spec(),
    {
        self.halt_and_reset();
    }

    /// `new` is `old` restarted at INIT with `entropy`: a random hostname from entropy
    /// words 2 and 3 if it had none, a transaction id from word 4, words 0 and 1 saved
    /// for retry delays, bindings and lease timers cleared.
    pub open spec fn began_at_init(old: Self, new: Self, entropy: Seq<u32>) -> bool {
        &&& new.entropy@ == seq![entropy[0], entropy[1]]
        &&& old.hostname.buffer@[0] == 0 ==> new.hostname.length == 8 - entropy[2] % 4
            && new.hostname.buffer@ == Hostname::randomized(old.hostname.buffer@, entropy[2], entropy[3])
        &&& old.hostname.buffer@[0] != 0 ==> new.hostname == old.hostname
        &&& new.state == State::Init
        &&& new.secs.start_time is None
        &&& new.retry == (RetryTimer { retry: Retry::Halted, time: None })
        &&& new.xid == Some(entropy[4])
        &&& new.sid is None
        &&& new.ip is None
        &&& new.subnet is None
        &&& new.gateway is None
        &&& new.lease_sec is None
        &&& new.dns is None
        &&& new.timer_t1.done_time is None
        &&& new.timer_t2.done_time is None
        &&& new.timer_lease.done_time is None
        &&& new.gateway_mac == old.gateway_mac
        &&& new.state_change_event_latch == old.state_change_event_latch
    }

    /// Feed the state machine some entropy so it can start at INIT with new random hostname and xid.
    /// Also, save some entropy for generating randomized exponential backoff delays for retries.
    pub fn begin_at_init(&mut self, entropy: [u32; 5])
        ensures
            Self::began_at_init(*old(self), *final(self), entropy@),
    {
        self.entropy = [entropy[0], entropy[1]];
        assert(self.entropy@ =~= seq![entropy@[0], entropy@[1]]);
        self.hostname.randomize_if_unset(entropy[2], entropy[3]);
        self.state = State::Init;
        self.secs.reset();
        self.retry = RetryTimer::new_halted();
        self.xid = Some(entropy[4]);
        self.reset_bindings();
    }

    /// Update the state machine and return what packet type, if any, needs to be sent.
    ///
    /// The caller then builds the frame for that packet type (`build_discover_frame` or
    /// `build_request_frame`) and sends it.
    pub fn cycle_clock(&mut self, now: TimeMs) -> (r: PacketNeeded)
        ensures
            (*final(self), r) == old(self).cycle_clock_spec(now),
    {
        match self.state {
            State::Halted => PacketNeeded::NoPacket,
            State::Init => {
                self.secs.start(now);
                self.retry = RetryTimer::new_first_random(self.entropy[0], now);
                self.state = State::Selecting;
                PacketNeeded::Discover
            },
            State::Selecting => {
                match self.ip {
                    // Matching Some(_) means we've received a valid DHCPOFFER
                    Some(_) => {
                        self.state = State::Requesting;
                        self.retry = RetryTimer::new_first_random(self.entropy[1], now);
                        PacketNeeded::Request
                    },
                    _ => {
                        match self.retry.status(now) {
                            RetryStatus::Halted => {
                                self.halt_and_reset();
                                PacketNeeded::NoPacket
                            },
                            RetryStatus::TimerRunning => PacketNeeded::NoPacket,
                            RetryStatus::TimerExpired => {
                                self.retry.schedule_next(self.entropy[0], now);
                                PacketNeeded::Discover
                            },
                        }
                    },
                }
            },
            State::Requesting => match self.retry.status(now) {
                RetryStatus::Halted => {
                    self.halt_and_reset();
                    PacketNeeded::NoPacket
                },
                RetryStatus::TimerRunning => PacketNeeded::NoPacket,
                RetryStatus::TimerExpired => {
                    self.retry.schedule_next(self.entropy[1], now);
                    PacketNeeded::Request
                },
            },
            State::Bound => match self.timer_t1.status(now) {
                CountdownStatus::Done => {
                    self.timer_t1.clear();
                    self.state = State::Renewing;
                    self.retry = RetryTimer::new_first_random_renew(self.entropy[1], now);
                    self.secs.start(now);
                    PacketNeeded::Renew
                },
                CountdownStatus::NotDone => PacketNeeded::NoPacket,
                CountdownStatus::NotStarted => PacketNeeded::NoPacket,
            },
            State::Renewing => match self.timer_t2.status(now) {
                CountdownStatus::Done => {
                    self.timer_t2.clear();
                    self.state = State::Rebinding;
                    self.retry = RetryTimer::new_first_random_renew(self.entropy[1], now);
                    self.secs.start(now);
                    PacketNeeded::Rebind
                },
                _ => match self.retry.status(now) {
                    RetryStatus::Halted | RetryStatus::TimerRunning => PacketNeeded::NoPacket,
                    RetryStatus::TimerExpired => {
                        self.retry.schedule_next_renew(self.entropy[1], now);
                        PacketNeeded::Renew
                    },
                },
            },
            State::Rebinding => {
                match self.timer_lease.status(now) {
                    CountdownStatus::Done => {
                        // This is bad. Lease is up. Unable to get a new one.
                        self.reset_bindings();
                        self.state = State::Halted;
                        self.state_change_event_latch = Some(DhcpEvent::ChangedToHalted);
                        PacketNeeded::NoPacket
                    },
                    _ => match self.retry.status(now) {
                        RetryStatus::Halted | RetryStatus::TimerRunning => PacketNeeded::NoPacket,
                        RetryStatus::TimerExpired => {
                            self.retry.schedule_next_renew(self.entropy[1], now);
                            PacketNeeded::Rebind
                        },
                    },
                }
            },
        }
    }

    /// Handle DHCPOFFER event: server ID, IP, gateway IP and MAC, lease, subnet mask, DNS server.
    /// Only an offer received while Selecting is stored.
    pub fn handle_offer(
        &mut self,
        sid: u32,
        ip: u32,
        gw: u32,
        gwm: &[u8; 6],
        ls: u32,
        sn: u32,
        dns: u32,
    )
        ensures
            offer_applied(*old(self), *final(self), sid, ip, gw, gwm@, ls, sn, dns),
    {
        match self.state {
            State::Selecting => {
                self.sid = Some(sid);
                self.ip = Some(ip);
                self.gateway = Some(gw);
                self.gateway_mac = Some(*gwm);
                self.lease_sec = Some(ls);
                self.subnet = Some(sn);
                self.dns = Some(dns);
            },
            _ => (),
        }
    }

    /// Handle DHCPACK event with the lease time from the server
    pub fn handle_ack(&mut self, lease_sec: u32, now: TimeMs)
        ensures
            *final(self) == old(self).ack_spec(lease_sec, now),
    {
        match self.state {
            State::Requesting | State::Renewing | State::Rebinding => {
                // See RFC 2131 § 4.4.5 "Reacquisition and expiration" for rules on
                // calculating T1 and T2 timers. TL;DR: T1=0.5*lease, T2=0.875*lease.
                self.lease_sec = Some(lease_sec);
                let t1 = lease_sec >> 1;
                proof {
                    assert(lease_sec >> 1 == lease_sec / 2) by (bit_vector);
                }
                self.timer_t1.start_s(now, t1);
                let t2: u32 = ((lease_sec as u64 * 7) / 8) as u32;
                self.timer_t2.start_s(now, t2);
                // Lease timer at 0.937 of the full lease interval (margin for a slow clock)
                let lease: u32 = ((lease_sec as u64 * 15) / 16) as u32;
                self.timer_lease.start_s(now, lease);
                self.state = State::Bound;
                self.state_change_event_latch = Some(DhcpEvent::ChangedToBound);
            },
            _ => (),
        }
    }

    /// Handle DHCPNAK event
    pub fn handle_nak(&mut self)
        ensures
            *final(self) == old(self).nak_spec(),
    {
        match self.state {
            State::Requesting => {
                self.reset_bindings();
                self.state = State::Init;
            },
            State::Renewing | State::Rebinding => {
                // DHCP servers have probably assigned all their available leases.
                self.reset_bindings();
                self.state = State::Halted;
                self.state_change_event_latch = Some(DhcpEvent::ChangedToHalted);
            },
            _ => (),
        }
    }

    /// The MAC, IP, UDP and BOOTP headers for an outgoing frame, or the error code.
    fn dhcp_headers(
        &self,
        src_mac: &[u8; 6],
        dst_mac: &[u8; 6],
        ciaddr: u32,
        ip_id: u16,
        ip_src: u32,
        ip_dst: u32,
        now: TimeMs,
    ) -> (r: Result<Vec<u8>, u8>)
        ensures
            match headers_result(*self, src_mac@, dst_mac@, ciaddr, ip_id, ip_src, ip_dst, now) {
                Ok(h) => r matches Ok(v) && v@ == h,
                Err(e) => r == Err::<Vec<u8>, u8>(e),
            },
    {
        let xid = match self.xid {
            Some(x) => x,
            None => return Err(0x04),  // This means state machine was not initialized properly
        };
        let secs: u16 = match self.secs.elapsed_s(now) {
            Ok(s) => (s % 65536) as u16,
            Err(StopwatchErr::Overflow) => return Err(0x05),
            Err(StopwatchErr::Underflow) => return Err(0x06),
            Err(StopwatchErr::NotStarted) => return Err(0x07),
        };
        let mut v: Vec<u8> = Vec::new();
        // Ethernet MAC header
        push_bytes(&mut v, dst_mac.as_slice());
        push_bytes(&mut v, src_mac.as_slice());
        push_bytes(&mut v, &[8u8, 0]);
        // IP header (checksum starts 0x0000 and gets updated later)
        push_bytes(&mut v, &[0x45u8, 0x00, 0x01, 0x48]);
        push_be16(&mut v, ip_id);
        push_bytes(&mut v, &[0u8, 0]);
        push_bytes(&mut v, &[255u8, 17, 0, 0]);
        push_be32(&mut v, ip_src);
        push_be32(&mut v, ip_dst);
        // UDP header
        push_bytes(&mut v, &[0u8, 68, 0, 67, 0x01, 0x34, 0, 0]);
        // DHCP
        push_bytes(&mut v, &[1u8, 1, 6, 0]);
        push_be32(&mut v, xid);
        push_be16(&mut v, secs);
        push_bytes(&mut v, &[0u8, 0]);
        push_be32(&mut v, ciaddr);
        push_zeros(&mut v, 12);
        push_bytes(&mut v, src_mac.as_slice());
        push_zeros(&mut v, 10);
        push_zeros(&mut v, 64 + 128);
        assert(v@ =~= dhcp_headers_spec(src_mac@, dst_mac@, ciaddr, ip_id, ip_src, ip_dst, xid, secs));
        Ok(v)
    }

    /// Fill in the DHCP packet headers for MAC, IP, UDP, and BOOTP at the front of `pbuf`,
    /// returning the number of header bytes written.
    pub fn build_dhcp_headers(
        &mut self,
        pbuf: &mut [u8],
        src_mac: &[u8; 6],
        dst_mac: &[u8; 6],
        ciaddr: u32,
        ip_id: u16,
        ip_src: u32,
        ip_dst: u32,
        now: TimeMs,
    ) -> (r: Result<usize, u8>)
        ensures
            *final(self) == *old(self),
            old(pbuf)@.len() < DHCP_FRAME_LEN ==> r == Err::<usize, u8>(0x03) && final(pbuf)@ == old(
                pbuf,
            )@,
            old(pbuf)@.len() >= DHCP_FRAME_LEN ==> match headers_result(
                *old(self),
                src_mac@,
                dst_mac@,
                ciaddr,
                ip_id,
                ip_src,
                ip_dst,
                now,
            ) {
                Ok(h) => r == Ok::<usize, u8>(DHCP_HEADERS_LEN) && final(pbuf)@ == h + old(pbuf)@.skip(
                    DHCP_HEADERS_LEN as int,
                ),
                Err(e) => r == Err::<usize, u8>(e) && final(pbuf)@ == old(pbuf)@,
            },
    {
        if pbuf.len() < DHCP_FRAME_LEN {
            return Err(0x03);
        }
        let h = self.dhcp_headers(src_mac, dst_mac, ciaddr, ip_id, ip_src, ip_dst, now)?;
        copy_into(pbuf, h.as_slice());
        Ok(h.len())
    }

    /// Pad or cut a frame to `DHCP_FRAME_LEN` bytes and fill in its IP and UDP checksums.
    fn finish(f: &mut Vec<u8>)
        ensures
            final(f)@ == finish_frame(old(f)@),
    {
        let ghost t = f@;
        f.resize(DHCP_FRAME_LEN, 0);
        assert(f@ =~= (t + zeros(DHCP_FRAME_LEN as nat)).take(DHCP_FRAME_LEN as int));
        let ghost f1 = f@;
        // Do the checksum fixup. These checksum offsets are for the minimum MAC and IP header size.
        let ip_csum: u16 = ipv4_checksum(f.as_slice());
        f.set(24, (ip_csum / 256) as u8);
        f.set(25, (ip_csum % 256) as u8);
        let ghost f2 = f@;
        assert(f2 == put_be16(f1, 24, ip_csum));
        let udp_csum: u16 = ipv4_udp_checksum(f.as_slice());
        f.set(40, (udp_csum / 256) as u8);
        f.set(41, (udp_csum % 256) as u8);
        assert(f@ == put_be16(f2, 40, udp_csum));
    }

    /// Build a DHCP discover packet by filling in a template of byte arrays.
    /// Returns Ok(data_length), where data_length is the number of bytes of pbuf.len()
    /// that were used to hold the packet data
    pub fn build_discover_frame(
        &mut self,
        pbuf: &mut [u8],
        src_mac: &[u8; 6],
        ip_id: u16,
        now: TimeMs,
    ) -> (r: Result<u32, u8>)
        requires
            old(self).hostname.length <= 63,
        ensures
            *final(self) == *old(self),
            old(pbuf)@.len() < DHCP_FRAME_LEN ==> r == Err::<u32, u8>(0x08) && final(pbuf)@ == old(
                pbuf,
            )@,
            old(pbuf)@.len() >= DHCP_FRAME_LEN ==> match discover_frame_result(
                *old(self),
                src_mac@,
                ip_id,
                now,
            ) {
                Ok(f) => r == Ok::<u32, u8>(DHCP_FRAME_LEN as u32) && final(pbuf)@ == f + old(
                    pbuf,
                )@.skip(DHCP_FRAME_LEN as int),
                Err(e) => r == Err::<u32, u8>(e) && final(pbuf)@ == old(pbuf)@,
            },
    {
        if pbuf.len() < DHCP_FRAME_LEN {
            return Err(0x08);
        }
        // Fill in the MAC, IP, UDP, and BOOTP headers for a DHCP packet
        let dst_mac: [u8; 6] = [255u8, 255, 255, 255, 255, 255];
        assert(dst_mac@ =~= broadcast_mac());
        let mut f = self.dhcp_headers(src_mac, &dst_mac, 0, ip_id, 0, 0xffff_ffff, now)?;
        let ghost h = f@;
        // DHCP options part 1: magic cookie, 53_type, 55_paramRequestList, 57_maxMsgSize, 61_clientId
        push_bytes(
            &mut f,
            &[
                0x63u8, 0x82, 0x53, 0x63, 53, 1, 1, 55, 7, 1, 121, 3, 6, 15, 119, 252, 57, 2, 0x05,
                0xdc, 61, 7, 1,
            ],
        );
        // Part 2: source MAC as Client ID to finish option 61
        push_bytes(&mut f, src_mac.as_slice());
        // Part 3: 51_IpLeaseTime, 12_hostname
        let hlen: u8 = self.hostname.len() as u8;
        push_bytes(&mut f, &[51u8, 4, 0x00, 0x76, 0xa7, 0x00, 12, hlen]);
        // Part 4: hostname to finish option 12
        push_bytes(&mut f, self.hostname.as_bytes());
        // Part 5: 255_end
        push_bytes(&mut f, &[255u8]);
        assert(f@ =~= h + discover_options_spec(src_mac@, self.hostname.bytes()));
        Self::finish(&mut f);
        copy_into(pbuf, f.as_slice());
        Ok(DHCP_FRAME_LEN as u32)
    }

    /// Build a DHCP request packet by filling in a template of byte arrays.
    /// Returns Ok(data_length), where data_length is the number of bytes of pbuf.len()
    /// that were used to hold the packet data
    #[verifier::rlimit(30)]
    pub fn build_request_frame(
        &mut self,
        pbuf: &mut [u8],
        src_mac: &[u8; 6],
        request_type: RequestType,
        ip_id: u16,
        now: TimeMs,
    ) -> (r: Result<u32, u8>)
        requires
            old(self).hostname.length <= 63,
        ensures
            *final(self) == *old(self),
            old(pbuf)@.len() < DHCP_FRAME_LEN ==> r == Err::<u32, u8>(0x09) && final(pbuf)@ == old(
                pbuf,
            )@,
            old(pbuf)@.len() >= DHCP_FRAME_LEN ==> match request_frame_result(
                *old(self),
                src_mac@,
                request_type,
                ip_id,
                now,
            ) {
                Ok(f) => r == Ok::<u32, u8>(DHCP_FRAME_LEN as u32) && final(pbuf)@ == f + old(
                    pbuf,
                )@.skip(DHCP_FRAME_LEN as int),
                Err(e) => r == Err::<u32, u8>(e) && final(pbuf)@ == old(pbuf)@,
            },
    {
        if pbuf.len() < DHCP_FRAME_LEN {
            return Err(0x09);
        }
        let mut dst_mac: [u8; 6] = [255; 6];
        let mut ciaddr: u32 = 0;
        let mut ip_src: u32 = 0;
        let mut ip_dst: u32 = 0xffffffff;
        let (gateway_mac, ip, sid) = match (self.gateway_mac, self.ip, self.sid) {
            (Some(gateway_mac), Some(ip), Some(sid)) => (gateway_mac, ip, sid),
            _ => return Err(0x0A),
        };
        match request_type {
            RequestType::Renew => {
                // A Request packet for Renewing must be unicast
                dst_mac = gateway_mac;
                ip_src = ip;
                ip_dst = sid;
                ciaddr = ip;
            },
            RequestType::Rebind => {
                // A Request packet for Rebinding must be broadcast
                ciaddr = ip;
            },
            _ => (),
        }
        assert(request_type != RequestType::Renew ==> dst_mac@ =~= broadcast_mac());
        let mut f = self.dhcp_headers(src_mac, &dst_mac, ciaddr, ip_id, ip_src, ip_dst, now)?;
        let ghost h = f@;
        // DHCP options part 1: magic cookie, 53_type, 55_paramRequestList, 57_maxMsgSize, 61_clientId
        push_bytes(
            &mut f,
            &[
                0x63u8, 0x82, 0x53, 0x63, 53, 1, 3, 55, 7, 1, 121, 3, 6, 15, 119, 252, 57, 2, 0x05,
                0xdc, 61, 7, 1,
            ],
        );
        // Part 2: source MAC as Client ID to finish option 61
        push_bytes(&mut f, src_mac.as_slice());
        let ghost before3 = f@;
        // Part 3: 50_RequestedIp, 54_ServerID; requests while Renewing or Rebinding
        // must not fill in the requested IP or server ID options
        match request_type {
            RequestType::Discover => {
                push_bytes(&mut f, &[50u8, 4]);
                push_be32(&mut f, ip);
                push_bytes(&mut f, &[54u8, 4]);
                push_be32(&mut f, sid);
            },
            _ => (),
        }
        let ghost after3 = f@;
        // Part 4: 12_hostname
        let hlen: u8 = self.hostname.len() as u8;
        push_bytes(&mut f, &[12u8, hlen]);
        // Part 5: hostname to finish option 12
        push_bytes(&mut f, self.hostname.as_bytes());
        // Part 6: 255_end
        push_bytes(&mut f, &[255u8]);
        assert(f@ =~= h + request_options_spec(
            src_mac@,
            self.hostname.bytes(),
            request_type,
            ip,
            sid,
        ));
        Self::finish(&mut f);
        copy_into(pbuf, f.as_slice());
        Ok(DHCP_FRAME_LEN as u32)
    }

    /// Parse a DHCP reply and update the DHCP client state machine
    ///
    /// DHCP fields from RFC 2131 (start offset in UDP payload; size in bytes):
    ///  op (0; 1), htype (1; 1), hlen (2; 1), hops (3; 1), xid (4; 4), secs (8; 2),
    ///  flags (10; 2), ciaddr (12; 4), yiaddr (16; 4), siaddr (20; 4), giaddr (24; 4),
    ///  chaddr (28; 16), sname (44; 64), file (108; 128), options (236; ...) starting
    ///  with a 4-byte magic cookie.
    pub fn handle_frame(&mut self, data: &[u8], now: TimeMs) -> (r: FilterBin)
        ensures
            Self::frame_outcome(*old(self), *final(self), data@, now, r),
    {
        if data.len() < MIN_DHCP_FRAME_LEN {
            return FilterBin::DropDhcp;
        }
        match self.state {
            State::Selecting | State::Requesting | State::Renewing | State::Rebinding => (),
            // No need to parse frame if state machine is not in state that expects a server response
            _ => return FilterBin::DropDhcp,
        };
        let dhcp = vstd::slice::slice_subrange(data, MIN_UDP_FRAME_LEN, data.len());
        assert(dhcp@ =~= data@.skip(MIN_UDP_FRAME_LEN as int));
        if !(dhcp[0] == BOOTREPLY && dhcp[1] == HTYPE_ETHERNET && dhcp[2] == ETHERNET_MAC_LEN) {
            // Drop frames that are not replies configured for Ethernet
            return FilterBin::DropDhcp;
        }
        let xid: u32 = ((dhcp[4] as u32) * 256 + dhcp[5] as u32) * 0x1_0000 + (dhcp[6] as u32)
            * 256 + dhcp[7] as u32;
        match self.xid {
            Some(expected_xid) => {
                if xid != expected_xid {
                    return FilterBin::DropDhcp;
                }
            },
            _ => return FilterBin::DropDhcp,
        };
        let yiaddr: u32 = ((dhcp[16] as u32) * 256 + dhcp[17] as u32) * 0x1_0000 + (dhcp[18] as u32)
            * 256 + dhcp[19] as u32;
        if !(dhcp[236] == 0x63 && dhcp[237] == 0x82 && dhcp[238] == 0x53 && dhcp[239] == 0x63) {
            // Drop frames that don't have the correct options magic cookie
            return FilterBin::DropDhcp;
        }
        // Slice the options block and parse it
        let options = vstd::slice::slice_subrange(dhcp, 240, dhcp.len());
        assert(options@ =~= data@.skip(MIN_UDP_FRAME_LEN as int + 240));
        assert(options@ =~= dhcp@.skip(240));
        match parse_options(options) {
            Ok(opts) => {
                match (
                    opts.msg_type,
                    opts.server_id,
                    opts.gateway,
                    opts.ip_lease_time,
                    opts.subnet,
                    opts.dns,
                ) {
                    (Some(2), Some(sid), Some(gw), Some(ilt), Some(sn), Some(dns)) => {
                        let gateway_mac: [u8; 6] = [data[6], data[7], data[8], data[9], data[10], data[11]];
                        assert(gateway_mac@ =~= data@.subrange(6, 12));
                        self.handle_offer(sid, yiaddr, gw, &gateway_mac, ilt, sn, dns);
                        FilterBin::Dhcp
                    },
                    (Some(5), _, _, Some(ilt), _, _) => {
                        self.handle_ack(ilt, now);
                        FilterBin::Dhcp
                    },
                    (Some(6), _, _, _, _, _) => {
                        self.handle_nak();
                        FilterBin::Dhcp
                    },
                    // Responses missing any of the required options will match here and get dropped
                    _ => FilterBin::DropDhcp,
                }
            },
            Err(_) => FilterBin::DropDhcp,
        }
    }
}


/// Once an offer is stored while Selecting, the next clock cycle sends a DHCPREQUEST
/// and moves to Requesting.
pub proof fn lemma_offer_leads_to_request(c: DhcpClient, now: TimeMs)
    requires
        c.state == State::Selecting,
        c.ip is Some,
    ensures
        c.cycle_clock_spec(now).0.state == State::Requesting,
        c.cycle_clock_spec(now).1 == PacketNeeded::Request,
{
}

/// An accepted DHCPACK binds the client and latches a ChangedToBound event, with the
/// renewal timer T1 (half the lease) no later than the rebinding timer T2 (7/8 of the
/// lease), itself no later than the lease timer (15/16 of the lease).
pub proof fn lemma_ack_binds(c: DhcpClient, lease_sec: u32, now: TimeMs)
    requires
        c.state == State::Requesting || c.state == State::Renewing || c.state == State::Rebinding,
    ensures
        c.ack_spec(lease_sec, now).state == State::Bound,
        c.ack_spec(lease_sec, now).state_change_event_latch == Some(DhcpEvent::ChangedToBound),
        c.ack_spec(lease_sec, now).lease_sec == Some(lease_sec),
        lease_sec / 2 <= lease_sec * 7 / 8 <= lease_sec * 15 / 16 <= lease_sec,
{
}

/// The client only acts on replies in a state that awaits one, carrying its own
/// transaction id; every other frame is dropped and leaves it unchanged.
pub proof fn lemma_reply_needs_matching_xid(c: DhcpClient, data: Seq<u8>)
    requires
        c.classify_reply(data) != DhcpReply::Drop,
    ensures
        data.len() >= MIN_DHCP_FRAME_LEN,
        c.state == State::Selecting || c.state == State::Requesting || c.state == State::Renewing
            || c.state == State::Rebinding,
        c.xid == Some(be32_at(data.skip(MIN_UDP_FRAME_LEN as int), 4) as u32),
{
}

/// A finished frame keeps the bytes of `t` everywhere but in the two checksum fields.
proof fn lemma_finish_keeps(t: Seq<u8>, i: int)
    requires
        0 <= i < t.len(),
        i < DHCP_FRAME_LEN,
        i != 24 && i != 25 && i != 40 && i != 41,
    ensures
        finish_frame(t)[i] == t[i],
{
    let f = (t + zeros(DHCP_FRAME_LEN as nat)).take(DHCP_FRAME_LEN as int);
    assert(f[i] == t[i]);
}

/// Where the fields of the headers lie in an outgoing DHCP frame.
proof fn lemma_headers_layout(
    src_mac: Seq<u8>,
    dst_mac: Seq<u8>,
    ciaddr: u32,
    ip_id: u16,
    ip_src: u32,
    ip_dst: u32,
    xid: u32,
    secs: u16,
)
    requires
        src_mac.len() == 6,
        dst_mac.len() == 6,
    ensures
        ({
            let h = dhcp_headers_spec(src_mac, dst_mac, ciaddr, ip_id, ip_src, ip_dst, xid, secs);
            &&& h.len() == 278
            &&& h.subrange(0, 6) == dst_mac
            &&& h.subrange(6, 12) == src_mac
            &&& h.subrange(12, 14) == seq![8u8, 0]
            &&& h.subrange(26, 30) == be32_bytes(ip_src)
            &&& h.subrange(30, 34) == be32_bytes(ip_dst)
            &&& h.subrange(46, 50) == be32_bytes(xid)
            &&& h.subrange(54, 58) == be32_bytes(ciaddr)
        }),
{
    let a = dst_mac + src_mac + seq![8u8, 0];
    let b = a + seq![0x45u8, 0x00, 0x01, 0x48] + be16_bytes(ip_id) + seq![0u8, 0] + seq![255u8, 17, 0, 0];
    let c = b + be32_bytes(ip_src);
    let d = c + be32_bytes(ip_dst);
    let e = d + seq![0u8, 68, 0, 67, 0x01, 0x34, 0, 0] + seq![1u8, 1, 6, 0];
    let g = e + be32_bytes(xid);
    let k = g + be16_bytes(secs) + seq![0u8, 0];
    let l = k + be32_bytes(ciaddr);
    let h = l + zeros(12) + src_mac + zeros(10) + zeros(192);
    assert(h == dhcp_headers_spec(src_mac, dst_mac, ciaddr, ip_id, ip_src, ip_dst, xid, secs));
    assert(a.len() == 14 && b.len() == 26 && c.len() == 30 && d.len() == 34 && e.len() == 46);
    assert(g.len() == 50 && k.len() == 54 && l.len() == 58);
    assert(h.subrange(0, 58) =~= l);
    assert(l.subrange(0, 54) =~= k);
    assert(k.subrange(0, 50) =~= g);
    assert(g.subrange(0, 46) =~= e);
    assert(e.subrange(0, 34) =~= d);
    assert(d.subrange(0, 30) =~= c);
    assert(c.subrange(0, 26) =~= b);
    assert(b.subrange(0, 14) =~= a);
    assert(h.subrange(0, 6) =~= a.subrange(0, 6));
    assert(a.subrange(0, 6) =~= dst_mac);
    assert(h.subrange(6, 12) =~= a.subrange(6, 12));
    assert(a.subrange(6, 12) =~= src_mac);
    assert(h.subrange(12, 14) =~= a.subrange(12, 14));
    assert(a.subrange(12, 14) =~= seq![8u8, 0]);
    assert(h.subrange(26, 30) =~= c.subrange(26, 30));
    assert(c.subrange(26, 30) =~= be32_bytes(ip_src));
    assert(h.subrange(30, 34) =~= d.subrange(30, 34));
    assert(d.subrange(30, 34) =~= be32_bytes(ip_dst));
    assert(h.subrange(46, 50) =~= g.subrange(46, 50));
    assert(g.subrange(46, 50) =~= be32_bytes(xid));
    assert(h.subrange(54, 58) =~= l.subrange(54, 58));
    assert(l.subrange(54, 58) =~= be32_bytes(ciaddr));
}

/// The fields of a finished frame built from headers and options: the frame is
/// `DHCP_FRAME_LEN` bytes long and keeps the header fields where the headers put them.
proof fn lemma_frame_fields(
    src_mac: Seq<u8>,
    dst_mac: Seq<u8>,
    ciaddr: u32,
    ip_id: u16,
    ip_src: u32,
    ip_dst: u32,
    xid: u32,
    secs: u16,
    opts: Seq<u8>,
)
    requires
        src_mac.len() == 6,
        dst_mac.len() == 6,
    ensures
        ({
            let f = finish_frame(dhcp_headers_spec(src_mac, dst_mac, ciaddr, ip_id, ip_src, ip_dst, xid, secs) + opts);
            &&& f.len() == DHCP_FRAME_LEN
            &&& f.subrange(0, 6) == dst_mac
            &&& f.subrange(6, 12) == src_mac
            &&& f.subrange(12, 14) == seq![8u8, 0]
            &&& f.subrange(26, 30) == be32_bytes(ip_src)
            &&& f.subrange(30, 34) == be32_bytes(ip_dst)
            &&& f.subrange(46, 50) == be32_bytes(xid)
            &&& f.subrange(54, 58) == be32_bytes(ciaddr)
        }),
{
    let h = dhcp_headers_spec(src_mac, dst_mac, ciaddr, ip_id, ip_src, ip_dst, xid, secs);
    lemma_headers_layout(src_mac, dst_mac, ciaddr, ip_id, ip_src, ip_dst, xid, secs);
    let t = h + opts;
    let f = finish_frame(t);
    assert forall|i: int| 0 <= i < 58 && i != 24 && i != 25 && i != 40 && i != 41 implies #[trigger] f[i]
        == h[i] by {
        lemma_finish_keeps(t, i);
    }
    assert(f.subrange(0, 6) =~= h.subrange(0, 6));
    assert(f.subrange(6, 12) =~= h.subrange(6, 12));
    assert(f.subrange(12, 14) =~= h.subrange(12, 14));
    assert(f.subrange(26, 30) =~= h.subrange(26, 30));
    assert(f.subrange(30, 34) =~= h.subrange(30, 34));
    assert(f.subrange(46, 50) =~= h.subrange(46, 50));
    assert(f.subrange(54, 58) =~= h.subrange(54, 58));
}

/// Where the fields of a built DHCPREQUEST lie: a renewing request goes to the gateway's
/// MAC from the bound IP to the server; a rebinding one is broadcast from 0.0.0.0 to
/// 255.255.255.255; both carry the bound IP as ciaddr. The frame is `DHCP_FRAME_LEN`
/// bytes long, from `src_mac`, with the IPv4 EtherType and the transaction id.
pub proof fn lemma_request_frame_fields(
    c: DhcpClient,
    src_mac: Seq<u8>,
    request_type: RequestType,
    ip_id: u16,
    now: TimeMs,
)
    requires
        src_mac.len() == 6,
    ensures
        request_frame_result(c, src_mac, request_type, ip_id, now) matches Ok(f) ==> {
            &&& f.len() == DHCP_FRAME_LEN
            &&& f.subrange(6, 12) == src_mac
            &&& f.subrange(12, 14) == seq![8u8, 0]
            &&& f.subrange(46, 50) == be32_bytes(c.xid->Some_0)
            &&& request_type == RequestType::Renew ==> {
                &&& f.subrange(0, 6) == c.gateway_mac->Some_0@
                &&& f.subrange(26, 30) == be32_bytes(c.ip->Some_0)
                &&& f.subrange(30, 34) == be32_bytes(c.sid->Some_0)
                &&& f.subrange(54, 58) == be32_bytes(c.ip->Some_0)
            }
            &&& request_type == RequestType::Rebind ==> {
                &&& f.subrange(0, 6) == broadcast_mac()
                &&& f.subrange(26, 30) == be32_bytes(0)
                &&& f.subrange(30, 34) == be32_bytes(0xffff_ffff)
                &&& f.subrange(54, 58) == be32_bytes(c.ip->Some_0)
            }
        },
{
    if let (Some(gwm), Some(ip), Some(sid)) = (c.gateway_mac, c.ip, c.sid) {
        if let (Some(xid), Ok(ms)) = (c.xid, elapsed_ms_spec(c.secs.start_time, now)) {
            let secs = (round_ms_to_s(ms) % 65536) as u16;
            let opts = request_options_spec(src_mac, c.hostname.bytes(), request_type, ip, sid);
            match request_type {
                RequestType::Renew => lemma_frame_fields(src_mac, gwm@, ip, ip_id, ip, sid, xid, secs, opts),
                RequestType::Rebind => lemma_frame_fields(
                    src_mac,
                    broadcast_mac(),
                    ip,
                    ip_id,
                    0,
                    0xffff_ffff,
                    xid,
                    secs,
                    opts,
                ),
                RequestType::Discover => lemma_frame_fields(
                    src_mac,
                    broadcast_mac(),
                    0,
                    ip_id,
                    0,
                    0xffff_ffff,
                    xid,
                    secs,
                    opts,
                ),
            }
        }
    }
}

/// Where the fields of a built DHCPDISCOVER lie: broadcast to the all-ones MAC, from
/// `src_mac`, with the IPv4 EtherType and the transaction id; the frame is
/// `DHCP_FRAME_LEN` bytes long.
pub proof fn lemma_discover_frame_fields(c: DhcpClient, src_mac: Seq<u8>, ip_id: u16, now: TimeMs)
    requires
        src_mac.len() == 6,
    ensures
        discover_frame_result(c, src_mac, ip_id, now) matches Ok(f) ==> {
            &&& f.len() == DHCP_FRAME_LEN
            &&& f.subrange(0, 6) == broadcast_mac()
            &&& f.subrange(6, 12) == src_mac
            &&& f.subrange(12, 14) == seq![8u8, 0]
            &&& f.subrange(46, 50) == be32_bytes(c.xid->Some_0)
        },
{
    if let (Some(xid), Ok(ms)) = (c.xid, elapsed_ms_spec(c.secs.start_time, now)) {
        let secs = (round_ms_to_s(ms) % 65536) as u16;
        let opts = discover_options_spec(src_mac, c.hostname.bytes());
        lemma_frame_fields(src_mac, broadcast_mac(), 0, ip_id, 0, 0xffff_ffff, xid, secs, opts);
    }
}

/// When the lease runs out while Rebinding: if the lease timer set by the last DHCPACK
/// has expired at `now` (with no server answer in the meantime), clocking the client
/// leaves it Halted with no binding left (IP, server, subnet, gateway, DNS and lease all
/// cleared, lease timers stopped), latches a ChangedToHalted event, and sends nothing.
pub proof fn lemma_rebinding_lease_expiry(c: DhcpClient, now: TimeMs)
    requires
        c.state == State::Rebinding,
        c.timer_lease.done_time matches Some(d) && now.ms() >= d.ms(),
    ensures
        ({
            let (n, p) = c.cycle_clock_spec(now);
            &&& n.state == State::Halted
            &&& n.ip is None
            &&& n.sid is None
            &&& n.subnet is None
            &&& n.gateway is None
            &&& n.dns is None
            &&& n.lease_sec is None
            &&& n.timer_lease.done_time is None
            &&& n.state_change_event_latch == Some(DhcpEvent::ChangedToHalted)
            &&& p == PacketNeeded::NoPacket
        }),
{
}

/// The lease expiry is reached after an ACK: an ACK of a `lease` second lease at `t0`
/// arms the lease timer at 15/16 of the lease; once the client is Rebinding at a time
/// `now` at or past that point, the next clock cycle halts it and drops the binding.
pub proof fn lemma_ack_then_lease_expiry(c: DhcpClient, lease: u32, t0: TimeMs, later: DhcpClient, now: TimeMs)
    requires
        c.state == State::Requesting || c.state == State::Renewing || c.state == State::Rebinding,
        later.state == State::Rebinding,
        later.timer_lease == c.ack_spec(lease, t0).timer_lease,
        now.ms() >= t0.add_s_spec((lease * 15 / 16) as u32).ms(),
    ensures
        later.cycle_clock_spec(now).0.state == State::Halted,
        later.cycle_clock_spec(now).0.ip is None,
        later.cycle_clock_spec(now).0.state_change_event_latch == Some(DhcpEvent::ChangedToHalted),
{
    lemma_rebinding_lease_expiry(later, now);
}

/// The lease timers of a bound client: once T1 has expired, the next clock cycle starts
/// renewing (a DHCPREQUEST to the server, state Renewing); once T2 has expired while
/// renewing, it starts rebinding (a broadcast DHCPREQUEST, state Rebinding). Before
/// T1 expires a bound client stays bound and sends nothing. The binding is kept.
pub proof fn lemma_renew_and_rebind(c: DhcpClient, now: TimeMs)
    ensures
        c.state == State::Bound && (c.timer_t1.done_time matches Some(d) && now.ms() >= d.ms()) ==> {
            let (n, p) = c.cycle_clock_spec(now);
            &&& n.state == State::Renewing
            &&& p == PacketNeeded::Renew
            &&& n.ip == c.ip && n.sid == c.sid && n.lease_sec == c.lease_sec
        },
        c.state == State::Bound && (c.timer_t1.done_time matches Some(d) && now.ms() < d.ms()) ==> c.cycle_clock_spec(
            now,
        ) == (c, PacketNeeded::NoPacket),
        c.state == State::Renewing && (c.timer_t2.done_time matches Some(d) && now.ms() >= d.ms()) ==> {
            let (n, p) = c.cycle_clock_spec(now);
            &&& n.state == State::Rebinding
            &&& p == PacketNeeded::Rebind
            &&& n.ip == c.ip && n.sid == c.sid && n.lease_sec == c.lease_sec
            &&& n.timer_lease == c.timer_lease
        },
{
}

} // verus!
