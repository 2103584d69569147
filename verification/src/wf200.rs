//! Host side state of the WF200 WLAN interface: link status, join results, SSID scan
//! results, the received packet queue for the COM bus, the driver's small buffer
//! allocator and the event dispatch of the WFX full MAC driver.
//!
//! The C driver and the SPI bus stay with the caller; this module holds every decision
//! that the host glue takes on their behalf.
use vstd::prelude::*;
use vstd::utf8::valid_utf8;
use crate::com::{
    ConnectResult, Ipv4Conf, LinkState, INT_WLAN_CONNECT_EVENT, INT_WLAN_DISCONNECT, INT_WLAN_RX_ERROR,
    INT_WLAN_RX_READY, INT_WLAN_SSID_FINISHED, INT_WLAN_SSID_UPDATE,
};
use crate::com_bus::ComInterrupts;
use crate::hal_time::TimeMs;
use crate::net::dhcp::{
    discover_frame_result, request_frame_result, DhcpClient, DhcpEvent, PacketNeeded, RequestType,
    State, DHCP_FRAME_LEN,
};
use crate::net::filter::FilterBin;
use crate::net::{self, be32_bytes, NetState};
use crate::pkt_buf::{PktBuf, PktPtr, PKT_BUF_LEN};
use crate::text::str_from_utf8;

verus! {

/// Number of entries of the SSID scan result table
pub const SSID_ARRAY_SIZE: usize = 8;

/// Bytes per SSID table entry: [dbm as u8] [len as u8] [ssid as storage in [u8; 32]]
pub const SSID_ENTRY_LEN: usize = 34;

/// Largest Ethernet payload
pub const WIFI_MTU: usize = 1500;

/// Number of buffers of the driver's allocator
pub const WFX_MAX_PTRS: usize = 4;

/// Bytes of RAM reserved for the driver's buffers
pub const WFX_RAM_LENGTH: usize = 0x2000;

/// First address of the driver's buffer RAM
pub const WFX_RAM_OFFSET: usize = 0x1001_8000;

/// Size of each of the driver's buffers
pub const WFX_ALLOC_MAXLEN: usize = 0x800;

/// Location of the WF200 firmware in the SPI flash, SPI top minus 400kiB
pub const WFX_FIRMWARE_OFFSET: usize = 0x2009_C000;

/// Size of the WF200 firmware image (version C0, as burned to ROM v3.12.1)
pub const WFX_FIRMWARE_SIZE: usize = 305232;

/// Largest PDS (platform data set) line accepted by `send_pds_checked`
pub const PDS_MAX_LEN: u16 = 256;

/// Size of the driver's event payload buffer
pub const EVENT_PAYLOAD_LEN: u16 = 512;

/// Status code of a successful WFX driver call
pub const SL_STATUS_OK: u32 = 0;

/// Most frames drained from the WF200's queue before a scan starts
pub const SCAN_DRAIN_LIMIT: usize = 32;

/// Whether a WFX driver call succeeded (initialization, sending a PDS line)
pub fn status_ok(status: u32) -> (r: bool)
    ensures
        r == (status == SL_STATUS_OK),
{
    status == SL_STATUS_OK
}

/// Whether draining the WF200's event queue goes on after `drained` frames were handled,
/// the last one with status `last`: at most `limit` frames, and only while the driver
/// keeps reporting success. Scanning works better when the queue is drained first.
pub fn drain_continues(drained: usize, limit: usize, last: Option<u32>) -> (r: bool)
    ensures
        r == (drained < limit && match last {
            Some(st) => st == SL_STATUS_OK,
            None => true,
        }),
{
    drained < limit && match last {
        Some(st) => st == SL_STATUS_OK,
        None => true,
    }
}

/// Whether a PDS line of `length` bytes is sent to the WF200 (the PDS buffer holds 256
/// bytes), and whether sending it succeeded given the driver's status (None: not sent)
pub fn pds_sent(length: u16, status: Option<u32>) -> (r: bool)
    ensures
        r == (length < PDS_MAX_LEN && status == Some(SL_STATUS_OK)),
{
    length < PDS_MAX_LEN && match status {
        Some(st) => st == SL_STATUS_OK,
        None => false,
    }
}

/// Status of the WF200 that the host reports with a connect indication
#[derive(Copy, Clone, PartialEq, Eq, Structural, Debug)]
pub enum FmacStatus {
    Success,
    NoMatchingAp,
    ConnectionAborted,
    ConnectionTimeout,
    ConnectionRejectedByAp,
    ConnectionAuthFailure,
    Other(u32),
}

/// Result of a host hook that may fail
#[derive(Copy, Clone, PartialEq, Eq, Structural, Debug)]
pub enum HostStatus {
    Success,
    AllocationFailed,
}

/// A non-official structure that's baked into the sl_wfx_host.c file, and is used to
/// pass data between various functions within the driver
#[allow(non_camel_case_types)]
#[derive(Copy, Clone, PartialEq, Eq, Structural, Debug)]
pub struct host_context {
    pub sl_wfx_firmware_download_progress: u32,
    pub waited_event_id: u8,
    pub posted_event_id: u8,
}

/// A message that the WFX driver posts to the host, decoded
pub enum WfxEvent {
    /// Result of a join attempt
    Connect { status: FmacStatus },
    /// The link went down
    Disconnect { reason: u16 },
    /// A frame arrived; `frame` holds its bytes without the padding
    Received { frame_type: u8, frame: Vec<u8> },
    /// One access point seen by a scan
    ScanResult { ssid: [u8; 32], ssid_length: u32, rcpi: u16 },
    /// The scan ended
    ScanComplete { result: u32 },
    /// A generic indication (statistics or a string)
    Generic { indication_type: u32 },
    /// The firmware raised an exception
    Exception { code: u32 },
    /// The firmware reported an error
    Error { error: u32 },
    /// The firmware started
    Startup,
    /// A confirmation or request that the host only takes note of
    Confirmation { id: u8 },
    /// No event was pending
    NoEvent,
    /// A message that the host does not handle
    Unhandled { id: u8 },
}

/// What the caller does to the driver's context after an event was posted
#[derive(Copy, Clone, PartialEq, Eq, Structural, Debug)]
pub struct PostEventEffects {
    /// The message was copied into the event payload buffer and marked posted
    pub store_payload: bool,
    /// Set (Some(true)) or clear (Some(false)) the station-connected bit of the driver state
    pub sta_connected: Option<bool>,
    /// The packet filter's bin for a received frame
    pub filter_bin: Option<FilterBin>,
}

/// dBm (positive) of a scan result from its RCPI: 0 means -110 dBm, 220 means 0 dBm,
/// in steps of 0.5 dBm. The subtraction wraps around 16 bits, which maps the usual
/// range 0..220 to 110..0 and anything at or above 220 to values of 32768 and less.
pub open spec fn scan_dbm(rcpi: u16) -> u16 {
    (32768 - (((rcpi as int - 220) + 0x1_0000) % 0x1_0000) / 2) as u16
}

/// The RSSI table byte for a scan result: its dBm, capped at 255
pub open spec fn dbm_byte(dbm: u16) -> u8 {
    if dbm < 256 { dbm as u8 } else { 255 }
}

/// Strongest RSSI (smallest dBm) seen so far, after seeing one of `dbm`
pub open spec fn best_rssi_after(best: Option<u8>, dbm: u16) -> Option<u8> {
    let d = (dbm % 256) as u8;
    match best {
        Some(b) => if d < b { Some(d) } else { Some(b) },
        None => Some(d),
    }
}

/// SSID table entry after recording a scan result: byte 0 the capped dBm, byte 1 the
/// SSID length (modulo 256), then the SSID bytes, the rest of the entry unchanged
pub open spec fn ssid_entry_after(entry: Seq<u8>, dbm: u16, ssid: Seq<u8>, ssid_length: u32) -> Seq<u8> {
    Seq::new(
        SSID_ENTRY_LEN as nat,
        |k: int|
            if k == 0 {
                dbm_byte(dbm)
            } else if k == 1 {
                (ssid_length % 256) as u8
            } else if k - 2 < ssid.len() {
                ssid[k - 2]
            } else {
                entry[k]
            },
    )
}

/// The bytes of an advertised SSID that are recorded: all of them when they are valid
/// UTF-8, none otherwise
pub open spec fn recorded_ssid(raw: Seq<u8>) -> Seq<u8> {
    if valid_utf8(raw) { raw } else { Seq::empty() }
}

/// The table slot that the next scan result goes to
pub open spec fn slot_of(index: usize) -> int {
    if index >= SSID_ARRAY_SIZE { 0 } else { index as int }
}

/// Write `data` over `mem` from byte `start` on
fn copy_to_window(mem: &mut Vec<u8>, start: usize, data: &[u8])
    requires
        start + data@.len() <= old(mem)@.len(),
    ensures
        final(mem)@ == write_window(old(mem)@, start as int, data@),
{
    let mut i: usize = 0;
    while i < data.len()
        invariant
            i <= data@.len(),
            start + data@.len() <= mem.len(),
            mem@.len() == old(mem)@.len(),
            forall|j: int| 0 <= j < start ==> #[trigger] mem@[j] == old(mem)@[j],
            forall|j: int| start + data@.len() <= j < mem@.len() ==> #[trigger] mem@[j] == old(mem)@[j],
            forall|j: int| 0 <= j < i ==> #[trigger] mem@[start + j] == data@[j],
            forall|j: int| start + i <= j < start + data@.len() ==> #[trigger] mem@[j] == old(mem)@[j],
        decreases data@.len() - i,
    {
        mem.set(start + i, data[i]);
        i = i + 1;
    }
    assert forall|j: int| 0 <= j < mem@.len() implies #[trigger] mem@[j] == write_window(
        old(mem)@,
        start as int,
        data@,
    )[j] by {
        if start <= j < start + data@.len() {
            assert(mem@[start + (j - start)] == data@[j - start]);
        }
    }
    assert(mem@ =~= write_window(old(mem)@, start as int, data@));
}

/// Set the first byte of every entry to zero
fn clear_first_bytes(a: &mut Vec<[u8; 34]>)
    ensures
        final(a)@.len() == old(a)@.len(),
        forall|j: int| 0 <= j < old(a)@.len() ==> #[trigger] final(a)@[j]@ == old(a)@[j]@.update(0, 0u8),
{
    let mut i: usize = 0;
    while i < a.len()
        invariant
            i <= a.len(),
            a.len() == old(a).len(),
            forall|j: int| 0 <= j < i ==> #[trigger] a@[j]@ == old(a)@[j]@.update(0, 0u8),
            forall|j: int| i <= j < a.len() ==> #[trigger] a@[j] == old(a)@[j],
        decreases a.len() - i,
    {
        let mut e = a[i];
        e[0] = 0;
        a.set(i, e);
        i = i + 1;
    }
}

/// Set every byte of every entry to zero
fn zero_entries(a: &mut Vec<[u8; 34]>)
    ensures
        final(a)@.len() == old(a)@.len(),
        forall|j: int| 0 <= j < old(a)@.len() ==> #[trigger] final(a)@[j]@ == Seq::new(34, |k: int| 0u8),
{
    let mut i: usize = 0;
    while i < a.len()
        invariant
            i <= a.len(),
            a.len() == old(a).len(),
            forall|j: int| 0 <= j < i ==> #[trigger] a@[j]@ == Seq::new(34, |k: int| 0u8),
        decreases a.len() - i,
    {
        let e = [0u8; 34];
        assert(e@ =~= Seq::new(34, |k: int| 0u8));
        a.set(i, e);
        i = i + 1;
    }
}

/// Set every byte of `v` to zero
fn zero_bytes(v: &mut Vec<u8>)
    ensures
        final(v)@ == Seq::new(old(v)@.len(), |i: int| 0u8),
{
    let mut i: usize = 0;
    while i < v.len()
        invariant
            i <= v.len(),
            v.len() == old(v).len(),
            forall|j: int| 0 <= j < i ==> #[trigger] v@[j] == 0u8,
        decreases v.len() - i,
    {
        v.set(i, 0u8);
        i = i + 1;
    }
    assert(v@ =~= Seq::new(old(v)@.len(), |i: int| 0u8));
}

/// `mem` with `data` written over it from byte `start` on
pub open spec fn write_window(mem: Seq<u8>, start: int, data: Seq<u8>) -> Seq<u8> {
    mem.subrange(0, start) + data + mem.subrange(start + data.len(), mem.len() as int)
}

/// The join result that the host reports for a connect indication's status
pub open spec fn connect_result_of(status: FmacStatus) -> ConnectResult {
    match status {
        FmacStatus::Success => ConnectResult::Success,
        FmacStatus::NoMatchingAp => ConnectResult::NoMatchingAp,
        FmacStatus::ConnectionAborted => ConnectResult::Aborted,
        FmacStatus::ConnectionTimeout => ConnectResult::Timeout,
        FmacStatus::ConnectionRejectedByAp => ConnectResult::Reject,
        FmacStatus::ConnectionAuthFailure => ConnectResult::AuthFail,
        FmacStatus::Other(_) => ConnectResult::Error,
    }
}

/// The parts of the host state that only scans touch are unchanged
pub open spec fn same_scan(old: WfxHost, new: WfxHost) -> bool {
    &&& new.ssid_array == old.ssid_array
    &&& new.ssid_index == old.ssid_index
    &&& new.ssid_best_rssi == old.ssid_best_rssi
    &&& new.ssid_scan_update == old.ssid_scan_update
    &&& new.ssid_scan_finished == old.ssid_scan_finished
}

/// The allocator and the driver context are unchanged
pub open spec fn same_driver(old: WfxHost, new: WfxHost) -> bool {
    &&& new.ram_alloc == old.ram_alloc
    &&& new.ptr_list == old.ptr_list
    &&& new.oversize_count == old.oversize_count
    &&& new.alloc_fails == old.alloc_fails
    &&& new.host_context == old.host_context
    &&& new.event_payload == old.event_payload
}

/// The received packet queue and its counters are unchanged
pub open spec fn same_packets(old: WfxHost, new: WfxHost) -> bool {
    &&& new.packet_buf == old.packet_buf
    &&& new.pkt_mem == old.pkt_mem
    &&& new.packets_dropped == old.packets_dropped
    &&& new.dropped_updated == old.dropped_updated
}

/// The link and join status flags are unchanged
pub open spec fn same_link(old: WfxHost, new: WfxHost) -> bool {
    &&& new.current_status == old.current_status
    &&& new.disconnect_pending == old.disconnect_pending
    &&& new.connect_result == old.connect_result
    &&& new.wfx_err_pending == old.wfx_err_pending
}

/// Receiving `data` at time `now` turns `old` into `new`, with filter bin `bin`: the
/// network stack handles the frame first; a frame for the COM net bridge is then
/// queued for the host when the bridge is on and an address is bound, or counted as
/// dropped when the queue has no room for it.
pub open spec fn frame_received(old: WfxHost, new: WfxHost, data: Seq<u8>, now: TimeMs, bin: FilterBin) -> bool {
    &&& net::frame_handled(old.net_state, new.net_state, data, now, bin)
    &&& same_scan(old, new)
    &&& same_driver(old, new)
    &&& same_link(old, new)
    &&& if bin == FilterBin::ComFwd && old.net_state.com_net_bridge_enable && new.net_state.dhcp.ip is Some {
        &&& !new.packet_buf.was_polled
        &&& new.packet_buf.was_init == old.packet_buf.was_init
        &&& match crate::pkt_buf::enqueue_window(old.packet_buf.pkts(), data.len() as usize) {
            Some(w) => {
                &&& new.packet_buf.pkts() == old.packet_buf.pkts().push(w)
                &&& new.pkt_mem@ == write_window(old.pkt_mem@, w.0 as int, data)
                &&& new.packets_dropped == old.packets_dropped
                &&& new.dropped_updated == old.dropped_updated
            },
            None => {
                &&& new.packet_buf.pkts() == old.packet_buf.pkts()
                &&& new.pkt_mem == old.pkt_mem
                &&& new.packets_dropped == old.packets_dropped.wrapping_add(1)
                &&& new.dropped_updated
            },
        }
    } else {
        same_packets(old, new)
    }
}

/// Recording the scan result of an access point with SSID bytes `ssid` (of which
/// `ssid_length` count), seen with `rcpi`, turns `old` into `new`
pub open spec fn scan_recorded(old: WfxHost, new: WfxHost, ssid: Seq<u8>, ssid_length: u32, rcpi: u16) -> bool {
    let n: int = if ssid_length < 32 { ssid_length as int } else { 32 };
    let raw = ssid.subrange(0, n);
    let slot = slot_of(old.ssid_index);
    let dbm = scan_dbm(rcpi);
    &&& new == (WfxHost {
        ssid_array: new.ssid_array,
        ssid_index: new.ssid_index,
        ssid_best_rssi: new.ssid_best_rssi,
        ssid_scan_update: new.ssid_scan_update,
        ..old
    })
    &&& if ssid_length == 0 || ssid[0] == 0 {
        new == old
    } else {
        &&& new.ssid_table() == old.ssid_table().update(
            slot,
            ssid_entry_after(old.ssid_table()[slot], dbm, recorded_ssid(raw), ssid_length),
        )
        &&& new.ssid_array.len() == old.ssid_array.len()
        &&& new.ssid_index == (if slot + 1 >= SSID_ARRAY_SIZE { 0 } else { slot + 1 })
        &&& new.ssid_best_rssi == best_rssi_after(old.ssid_best_rssi, dbm)
        &&& new.ssid_scan_update
    }
}

/// A connect indication with `status` turns `old` into `new`: the join result is
/// recorded; on success the link is up and the filter statistics restart from zero,
/// otherwise the link is down.
pub open spec fn connect_applied(old: WfxHost, new: WfxHost, status: FmacStatus) -> bool {
    &&& new.connect_result == connect_result_of(status)
    &&& new.current_status == (if status == FmacStatus::Success {
        LinkState::Connected
    } else {
        LinkState::Disconnected
    })
    &&& if status == FmacStatus::Success {
        &&& new.net_state.filter_stats.all_zero()
        &&& new.net_state == (NetState { filter_stats: new.net_state.filter_stats, ..old.net_state })
    } else {
        new.net_state == old.net_state
    }
    &&& new == (WfxHost {
        connect_result: new.connect_result,
        current_status: new.current_status,
        net_state: new.net_state,
        ..old
    })
}

/// A disconnect indication turns `old` into `new`: the link is down, the host is told,
/// the DHCP client halts and drops its bindings, and the packet buffer is initialized
/// (which only zeroes the packet memory the first time).
pub open spec fn disconnect_applied(old: WfxHost, new: WfxHost) -> bool {
    &&& new.current_status == LinkState::Disconnected
    &&& new.disconnect_pending
    &&& new.net_state == (NetState { dhcp: old.net_state.dhcp.halt_and_reset_spec(), ..old.net_state })
    &&& new.packet_buf.was_init
    &&& new.packet_buf.pkts() == old.packet_buf.pkts()
    &&& new.packet_buf.was_polled == old.packet_buf.was_polled
    &&& (!old.packet_buf.was_init ==> new.pkt_mem@ == Seq::new(PKT_BUF_LEN as nat, |i: int| 0u8))
    &&& (old.packet_buf.was_init ==> new.pkt_mem == old.pkt_mem)
    &&& new == (WfxHost {
        current_status: new.current_status,
        disconnect_pending: new.disconnect_pending,
        net_state: new.net_state,
        packet_buf: new.packet_buf,
        pkt_mem: new.pkt_mem,
        ..old
    })
}

/// The event `ev`, posted at time `now`, turns `old` into `new` with effects `fx` for
/// the driver context (the event payload decision aside)
pub open spec fn event_applied(old: WfxHost, new: WfxHost, ev: WfxEvent, now: TimeMs, fx: PostEventEffects) -> bool {
    match ev {
        WfxEvent::Connect { status } => {
            &&& connect_applied(old, new, status)
            &&& fx.sta_connected == (if status == FmacStatus::Success { Some(true) } else { None })
            &&& fx.filter_bin is None
        },
        WfxEvent::Disconnect { .. } => {
            &&& disconnect_applied(old, new)
            &&& fx.sta_connected == Some(false)
            &&& fx.filter_bin is None
        },
        WfxEvent::Received { frame_type, frame } => {
            &&& fx.sta_connected is None
            &&& if frame_type == 0 {
                fx.filter_bin matches Some(b) && frame_received(old, new, frame@, now, b)
            } else {
                new == old && fx.filter_bin is None
            }
        },
        WfxEvent::ScanResult { ssid, ssid_length, rcpi } => {
            &&& scan_recorded(old, new, ssid@, ssid_length, rcpi)
            &&& fx.sta_connected is None
            &&& fx.filter_bin is None
        },
        WfxEvent::ScanComplete { .. } => {
            &&& new == (WfxHost { ssid_scan_finished: true, ..old })
            &&& fx.sta_connected is None
            &&& fx.filter_bin is None
        },
        WfxEvent::Error { .. } => {
            &&& new == (WfxHost {
                current_status: LinkState::WFXError,
                connect_result: ConnectResult::Error,
                wfx_err_pending: true,
                ..old
            })
            &&& fx.sta_connected is None
            &&& fx.filter_bin is None
        },
        WfxEvent::Startup => {
            &&& new == (WfxHost { current_status: LinkState::Disconnected, ..old })
            &&& fx.sta_connected is None
            &&& fx.filter_bin is None
        },
        _ => {
            &&& new == old
            &&& fx.sta_connected is None
            &&& fx.filter_bin is None
        },
    }
}

/// Big-endian bytes of an optional address, zeros when there is none
pub open spec fn addr_bytes(a: Option<u32>) -> Seq<u8> {
    match a {
        Some(x) => be32_bytes(x),
        None => seq![0u8, 0, 0, 0],
    }
}

/// What becomes of the packet the DHCP client asks for: no packet, or the frame that
/// `build_discover_frame` / `build_request_frame` writes at the start of the buffer
/// (`before`, then `after`), or their error code.
pub open spec fn dhcp_frame_built(
    d: DhcpClient,
    mac: Seq<u8>,
    need: PacketNeeded,
    ip_id: u16,
    now: TimeMs,
    before: Seq<u8>,
    after: Seq<u8>,
    r: Result<Option<u32>, u8>,
) -> bool {
    match need {
        PacketNeeded::NoPacket => r == Ok::<Option<u32>, u8>(None) && after == before,
        PacketNeeded::Discover => if before.len() < DHCP_FRAME_LEN {
            r == Err::<Option<u32>, u8>(0x08) && after == before
        } else {
            match discover_frame_result(d, mac, ip_id, now) {
                Ok(f) => r == Ok::<Option<u32>, u8>(Some(DHCP_FRAME_LEN as u32)) && after == f
                    + before.skip(DHCP_FRAME_LEN as int),
                Err(e) => r == Err::<Option<u32>, u8>(e) && after == before,
            }
        },
        _ => {
            let rt = match need {
                PacketNeeded::Request => RequestType::Discover,
                PacketNeeded::Renew => RequestType::Renew,
                _ => RequestType::Rebind,
            };
            if before.len() < DHCP_FRAME_LEN {
                r == Err::<Option<u32>, u8>(0x09) && after == before
            } else {
                match request_frame_result(d, mac, rt, ip_id, now) {
                    Ok(f) => r == Ok::<Option<u32>, u8>(Some(DHCP_FRAME_LEN as u32)) && after == f
                        + before.skip(DHCP_FRAME_LEN as int),
                    Err(e) => r == Err::<Option<u32>, u8>(e) && after == before,
                }
            }
        },
    }
}

/// Big-endian bytes of a 32-bit value
pub fn u32_be_bytes(x: u32) -> (r: [u8; 4])
    ensures
        r@ == be32_bytes(x),
{
    let r = [(x / 0x100_0000) as u8, ((x / 0x1_0000) % 256) as u8, ((x / 0x100) % 256) as u8, (x % 256) as u8];
    assert(r@ =~= be32_bytes(x));
    r
}

/// Big-endian bytes of an optional address, zeros when there is none
fn addr_be_bytes(a: Option<u32>) -> (r: [u8; 4])
    ensures
        r@ == addr_bytes(a),
{
    match a {
        Some(x) => u32_be_bytes(x),
        None => {
            let r = [0u8; 4];
            assert(r@ =~= seq![0u8, 0, 0, 0]);
            r
        },
    }
}

/// Received signal strength in dBm (positive) from the driver's RCPI: 0 means -110 dBm,
/// 220 means 0 dBm, in steps of 0.5 dBm
pub fn rssi_dbm(rcpi: u32) -> (r: u32)
    ensures
        r == rcpi / 2,
{
    assert(rcpi >> 1 == rcpi / 2) by (bit_vector);
    rcpi >> 1
}

/// Whether a PDS line of `length` bytes may be sent: the PDS spec says the max PDS size
/// is 256 bytes, so the buffer is pinned at that
pub fn pds_length_ok(length: u16) -> (r: bool)
    ensures
        r == (length < PDS_MAX_LEN),
{
    length < PDS_MAX_LEN
}

/// `s` without its leading "0x" prefixes (all of them, however many)
pub open spec fn strip_0x(s: Seq<u8>) -> Seq<u8>
    decreases s.len(),
{
    if s.len() >= 2 && s[0] == 0x30 && s[1] == 0x78 {
        strip_0x(s.subrange(2, s.len() as int))
    } else {
        s
    }
}

/// Whether `c` is an ASCII hex digit
pub open spec fn is_hex_digit(c: u8) -> bool {
    (0x30 <= c <= 0x39) || (0x41 <= c <= 0x46) || (0x61 <= c <= 0x66)
}

/// Value of the ASCII hex digit `c`
pub open spec fn hex_digit_value(c: u8) -> int {
    if 0x30 <= c <= 0x39 {
        c - 0x30
    } else if 0x41 <= c <= 0x46 {
        c - 0x41 + 10
    } else {
        c - 0x61 + 10
    }
}

/// Value of the hex digits `d`, most significant first
pub open spec fn hex_value(d: Seq<u8>) -> int
    decreases d.len(),
{
    if d.len() == 0 {
        0
    } else {
        hex_value(d.drop_last()) * 16 + hex_digit_value(d.last())
    }
}

/// The number that `s` spells in hex after its "0x" prefixes and an optional '+', if
/// there is at least one digit, every other byte is a hex digit and it fits in a usize
pub open spec fn parse_hex_spec(s: Seq<u8>) -> Option<usize> {
    let d = hex_digits_of(s);
    if d.len() > 0 && all_hex(d) && hex_value(d) <= usize::MAX {
        Some(hex_value(d) as usize)
    } else {
        None
    }
}

/// The bytes of `s` that should be hex digits: after the "0x" prefixes and an optional '+'
pub open spec fn hex_digits_of(s: Seq<u8>) -> Seq<u8> {
    let t = strip_0x(s);
    if t.len() > 0 && t[0] == 0x2b { t.drop_first() } else { t }
}

/// Whether every byte of `d` is a hex digit
pub open spec fn all_hex(d: Seq<u8>) -> bool {
    forall|i: int| 0 <= i < d.len() ==> #[trigger] is_hex_digit(d[i])
}

/// Appending a digit multiplies the value by 16 and adds the digit
proof fn lemma_hex_value_push(d: Seq<u8>, k: int)
    requires
        0 <= k < d.len(),
    ensures
        hex_value(d.subrange(0, k + 1)) == hex_value(d.subrange(0, k)) * 16 + hex_digit_value(d[k]),
{
    assert(d.subrange(0, k + 1).drop_last() =~= d.subrange(0, k));
}

/// With hex digits only, a longer prefix is worth at least as much
proof fn lemma_hex_value_prefix(d: Seq<u8>, k: int)
    requires
        0 <= k <= d.len(),
        forall|i: int| 0 <= i < d.len() ==> #[trigger] is_hex_digit(d[i]),
    ensures
        hex_value(d.subrange(0, k)) <= hex_value(d),
        hex_value(d.subrange(0, k)) >= 0,
    decreases d.len() - k,
{
    let p = d.subrange(0, k);
    assert forall|i: int| 0 <= i < p.len() implies #[trigger] is_hex_digit(p[i]) by {
        assert(p[i] == d[i]);
    }
    lemma_hex_value_nonneg(p);
    if k < d.len() {
        lemma_hex_value_push(d, k);
        assert(is_hex_digit(d[k]));
        lemma_hex_value_prefix(d, k + 1);
    } else {
        assert(p =~= d);
    }
}

/// Hex digits are never worth less than zero
proof fn lemma_hex_value_nonneg(d: Seq<u8>)
    requires
        forall|i: int| 0 <= i < d.len() ==> #[trigger] is_hex_digit(d[i]),
    ensures
        hex_value(d) >= 0,
    decreases d.len(),
{
    if d.len() > 0 {
        assert(is_hex_digit(d[d.len() - 1]));
        lemma_hex_value_nonneg(d.drop_last());
    }
}

/// Parse the hex number of a C string (without its terminating NUL) the way the WFX
/// driver's `strtoul(s, NULL, 16)` call needs it: leading "0x" prefixes are skipped, an
/// optional '+' may follow, then hex digits. None where the string is not such a
/// number or does not fit in a usize.
pub fn parse_hex(s: &[u8]) -> (r: Option<usize>)
    ensures
        r == parse_hex_spec(s@),
{
    let mut start: usize = 0;
    assert(s@.subrange(0, s@.len() as int) =~= s@);
    while start < s.len() && s.len() - start >= 2 && s[start] == 0x30 && s[start + 1] == 0x78
        invariant
            start <= s.len(),
            strip_0x(s@) == strip_0x(s@.subrange(start as int, s@.len() as int)),
        decreases s.len() - start,
    {
        proof {
            let t = s@.subrange(start as int, s@.len() as int);
            assert(t.subrange(2, t.len() as int) =~= s@.subrange(start + 2, s@.len() as int));
        }
        start = start + 2;
    }
    let ghost t = s@.subrange(start as int, s@.len() as int);
    assert(strip_0x(t) == t);
    if start < s.len() && s[start] == 0x2b {
        start = start + 1;
    }
    let ghost d = s@.subrange(start as int, s@.len() as int);
    assert(d =~= (if t.len() > 0 && t[0] == 0x2b { t.drop_first() } else { t }));
    if start == s.len() {
        return None;
    }
    let mut acc: usize = 0;
    let mut i: usize = start;
    while i < s.len()
        invariant
            start <= i <= s.len(),
            start < s.len(),
            d == s@.subrange(start as int, s@.len() as int),
            d == hex_digits_of(s@),
            forall|j: int| 0 <= j < i - start ==> #[trigger] is_hex_digit(d[j]),
            acc == hex_value(d.subrange(0, i - start)),
        decreases s.len() - i,
    {
        let c = s[i];
        let v: usize = if 0x30 <= c && c <= 0x39 {
            (c - 0x30) as usize
        } else if 0x41 <= c && c <= 0x46 {
            (c - 0x41 + 10) as usize
        } else if 0x61 <= c && c <= 0x66 {
            (c - 0x61 + 10) as usize
        } else {
            proof {
                let k: int = i - start;
                assert(d[k] == c);
                assert(!is_hex_digit(d[k]));
                assert(!all_hex(d));
            }
            return None;
        };
        proof {
            lemma_hex_value_push(d, i - start);
        }
        let m = acc.checked_mul(16);
        let next = match m {
            Some(m) => m.checked_add(v),
            None => None,
        };
        match next {
            Some(n) => {
                acc = n;
            },
            None => {
                proof {
                    let k: int = i - start;
                    assert(d[k] == c);
                    assert(v == hex_digit_value(d[k]));
                    if all_hex(d) {
                        lemma_hex_value_prefix(d, k + 1);
                        lemma_hex_value_prefix(d, k);
                        assert(hex_value(d.subrange(0, k + 1)) > usize::MAX);
                    }
                }
                return None;
            },
        }
        i = i + 1;
    }
    assert(d.subrange(0, d.len() as int) =~= d);
    Some(acc)
}

/// Length of a C string held in `s`: the index of its terminating NUL
pub fn strlen(s: &[u8]) -> (r: usize)
    requires
        exists|i: int| 0 <= i < s@.len() && s@[i] == 0,
    ensures
        r < s@.len(),
        s@[r as int] == 0,
        forall|i: int| 0 <= i < r ==> s@[i] != 0,
{
    let mut len: usize = 0;
    while s[len] != 0
        invariant
            len < s@.len(),
            exists|i: int| len <= i < s@.len() && s@[i] == 0,
            forall|i: int| 0 <= i < len ==> s@[i] != 0,
        decreases s@.len() - len,
    {
        len = len + 1;
    }
    len
}

/// COM interrupt state as (pending bits, Rx length word, retrigger request)
pub type IntState = (u16, u16, bool);

/// Raising `bit` with the retrigger rule: an event that is already pending asks for a
/// new edge
pub open spec fn raise_retrigger(st: IntState, bit: u16) -> IntState {
    (st.0 | bit, st.1, st.2 || st.0 & bit != 0)
}

/// The COM interrupt state after the host side events are forwarded: a packet ready for
/// the host (its length goes in the Rx word unless a connect result is pending), a
/// dropped packet, a link drop, new and finished scans, and a join result.
pub open spec fn forwarded_ints(st: IntState, avail: Option<u16>, dropped: bool, disconnected: bool, scan_updated: bool, scan_finished: bool, connect: ConnectResult) -> IntState {
    let s1 = match avail {
        Some(len) => {
            let r = raise_retrigger(st, INT_WLAN_RX_READY);
            (r.0, if st.0 & INT_WLAN_CONNECT_EVENT == 0 { len } else { st.1 }, r.2)
        },
        None => st,
    };
    let s2 = if dropped { (s1.0 | INT_WLAN_RX_ERROR, s1.1, s1.2) } else { s1 };
    let s3 = if disconnected { raise_retrigger(s2, INT_WLAN_DISCONNECT) } else { s2 };
    let s4 = if scan_updated { (s3.0 | INT_WLAN_SSID_UPDATE, s3.1, s3.2) } else { s3 };
    let s5 = if scan_finished { (s4.0 | INT_WLAN_SSID_FINISHED, s4.1, s4.2) } else { s4 };
    if connect != ConnectResult::Pending {
        let r = raise_retrigger(s5, INT_WLAN_CONNECT_EVENT);
        (r.0, connect.code_spec(), r.2)
    } else {
        s5
    }
}

/// Host side state of the WF200 interface
pub struct WfxHost {
    /// Current link layer connection state
    pub current_status: LinkState,
    pub disconnect_pending: bool,
    pub connect_result: ConnectResult,
    pub wfx_err_pending: bool,
    /// SSID scan state
    pub ssid_scan_update: bool,
    pub ssid_scan_finished: bool,
    pub ssid_array: Vec<[u8; 34]>,
    pub ssid_index: usize,
    pub ssid_best_rssi: Option<u8>,
    /// Received packets waiting for the COM bus
    pub packet_buf: PktBuf,
    pub pkt_mem: Vec<u8>,
    pub packets_dropped: u32,
    pub dropped_updated: bool,
    /// Internet layer connection state
    pub net_state: NetState,
    /// The driver's buffer allocator: the address held by each slot, 0 for a free slot
    pub ram_alloc: usize,
    pub ptr_list: [usize; 4],
    pub oversize_count: usize,
    pub alloc_fails: usize,
    pub host_context: host_context,
    /// The driver's event payload buffer: the message the driver waits for is copied here
    pub event_payload: Vec<u8>,
}

impl WfxHost {
    /// The bookkeeping is consistent
    pub open spec fn wf(&self) -> bool {
        &&& self.ssid_array.len() == SSID_ARRAY_SIZE
        &&& self.packet_buf.wf()
        &&& self.pkt_mem.len() == PKT_BUF_LEN
        &&& self.net_state.dhcp.hostname.length <= 63
        &&& self.event_payload.len() == EVENT_PAYLOAD_LEN
    }

    /// The SSID table as byte sequences
    pub open spec fn ssid_table(&self) -> Seq<Seq<u8>> {
        self.ssid_array@.map_values(|e: [u8; 34]| e@)
    }

    /// Everything at rest: no link, no results, empty queues
    pub fn new() -> (r: Self)
        ensures
            r.wf(),
            r.current_status == LinkState::Unknown,
            !r.disconnect_pending,
            r.connect_result == ConnectResult::Pending,
            !r.wfx_err_pending,
            !r.ssid_scan_update,
            !r.ssid_scan_finished,
            r.ssid_index == 0,
            r.ssid_best_rssi is None,
            forall|i: int| 0 <= i < SSID_ARRAY_SIZE ==> #[trigger] r.ssid_array@[i]@ == Seq::new(
                34,
                |k: int| 0u8,
            ),
            r.packet_buf.pkts().len() == 0,
            !r.packet_buf.was_init,
            r.packets_dropped == 0,
            !r.dropped_updated,
            r.net_state.dhcp.state == crate::net::dhcp::State::Halted,
            r.ram_alloc == WFX_RAM_OFFSET,
            r.ptr_list@ == seq![0usize, 0, 0, 0],
            r.host_context == (host_context {
                sl_wfx_firmware_download_progress: 0,
                waited_event_id: 0,
                posted_event_id: 0,
            }),
            r.event_payload@ == Seq::new(EVENT_PAYLOAD_LEN as nat, |k: int| 0u8),
    {
        let mut ssid_array: Vec<[u8; 34]> = Vec::new();
        let mut i: usize = 0;
        while i < SSID_ARRAY_SIZE
            invariant
                i <= SSID_ARRAY_SIZE,
                ssid_array.len() == i,
                forall|j: int| 0 <= j < i ==> #[trigger] ssid_array@[j]@ == Seq::new(34, |k: int| 0u8),
            decreases SSID_ARRAY_SIZE - i,
        {
            let e = [0u8; 34];
            assert(e@ =~= Seq::new(34, |k: int| 0u8));
            ssid_array.push(e);
            i = i + 1;
        }
        let pkt_mem = vec![0u8; PKT_BUF_LEN];
        let r = WfxHost {
            current_status: LinkState::Unknown,
            disconnect_pending: false,
            connect_result: ConnectResult::Pending,
            wfx_err_pending: false,
            ssid_scan_update: false,
            ssid_scan_finished: false,
            ssid_array,
            ssid_index: 0,
            ssid_best_rssi: None,
            packet_buf: PktBuf::new(),
            pkt_mem,
            packets_dropped: 0,
            dropped_updated: false,
            net_state: NetState::new(),
            ram_alloc: WFX_RAM_OFFSET,
            ptr_list: [0usize; 4],
            oversize_count: 0,
            alloc_fails: 0,
            host_context: host_context {
                sl_wfx_firmware_download_progress: 0,
                waited_event_id: 0,
                posted_event_id: 0,
            },
            event_payload: vec![0u8; EVENT_PAYLOAD_LEN as usize],
        };
        assert(r.ptr_list@ =~= seq![0usize, 0, 0, 0]);
        assert(r.event_payload@ =~= Seq::new(EVENT_PAYLOAD_LEN as nat, |k: int| 0u8));
        r
    }

    /// Zero the packet memory the first time only, as the packet buffer asks
    pub fn init_pkt_buf(&mut self)
        requires
            old(self).wf(),
        ensures
            final(self).wf(),
            final(self).packet_buf.was_init,
            final(self).packet_buf.pkts() == old(self).packet_buf.pkts(),
            final(self).packet_buf.was_polled == old(self).packet_buf.was_polled,
            !old(self).packet_buf.was_init ==> final(self).pkt_mem@ == Seq::new(
                PKT_BUF_LEN as nat,
                |i: int| 0u8,
            ),
            old(self).packet_buf.was_init ==> final(self).pkt_mem == old(self).pkt_mem,
            *final(self) == (WfxHost { packet_buf: final(self).packet_buf, pkt_mem: final(self).pkt_mem, ..*old(self) }),
    {
        if self.packet_buf.init() {
            zero_bytes(&mut self.pkt_mem);
        }
    }

    /// Count a received packet that had to be dropped because the COM bus is congested
    pub fn drop_packet(&mut self)
        ensures
            *final(self) == (WfxHost {
                packets_dropped: old(self).packets_dropped.wrapping_add(1),
                dropped_updated: true,
                ..*old(self)
            }),
    {
        self.packets_dropped = self.packets_dropped.wrapping_add(1);
        self.dropped_updated = true;
    }

    /// Number of dropped packets; clears the change flag
    pub fn get_packets_dropped(&mut self) -> (r: u32)
        ensures
            r == old(self).packets_dropped,
            *final(self) == (WfxHost { dropped_updated: false, ..*old(self) }),
    {
        self.dropped_updated = false;
        self.packets_dropped
    }

    /// Whether the drop count changed since the last poll; clears the flag
    pub fn poll_new_dropped(&mut self) -> (r: bool)
        ensures
            r == old(self).dropped_updated,
            *final(self) == (WfxHost { dropped_updated: false, ..*old(self) }),
    {
        let r = self.dropped_updated;
        self.dropped_updated = false;
        r
    }

    /// Whether the link dropped since the last poll; clears the flag
    pub fn poll_disconnect_pending(&mut self) -> (r: bool)
        ensures
            r == old(self).disconnect_pending,
            *final(self) == (WfxHost { disconnect_pending: false, ..*old(self) }),
    {
        let r = self.disconnect_pending;
        self.disconnect_pending = false;
        r
    }

    /// Result of the last join attempt; Pending afterwards until the next result
    pub fn poll_connect_result(&mut self) -> (r: ConnectResult)
        ensures
            r == old(self).connect_result,
            *final(self) == (WfxHost { connect_result: ConnectResult::Pending, ..*old(self) }),
    {
        let r = self.connect_result;
        self.connect_result = ConnectResult::Pending;
        r
    }

    /// Whether the firmware reported an error since the last poll; clears the flag
    pub fn poll_wfx_err_pending(&mut self) -> (r: bool)
        ensures
            r == old(self).wfx_err_pending,
            *final(self) == (WfxHost { wfx_err_pending: false, ..*old(self) }),
    {
        let r = self.wfx_err_pending;
        self.wfx_err_pending = false;
        r
    }

    /// Whether new scan results came in since the last poll; clears the flag
    pub fn poll_scan_updated(&mut self) -> (r: bool)
        ensures
            r == old(self).ssid_scan_update,
            *final(self) == (WfxHost { ssid_scan_update: false, ..*old(self) }),
    {
        let r = self.ssid_scan_update;
        self.ssid_scan_update = false;
        r
    }

    /// Whether a scan finished since the last poll; clears the flag
    pub fn poll_scan_finished(&mut self) -> (r: bool)
        ensures
            r == old(self).ssid_scan_finished,
            *final(self) == (WfxHost { ssid_scan_finished: false, ..*old(self) }),
    {
        let r = self.ssid_scan_finished;
        self.ssid_scan_finished = false;
        r
    }

    /// Current link layer state
    pub fn interface_status(&self) -> (r: LinkState)
        ensures
            r == self.current_status,
    {
        self.current_status
    }

    /// Return string tag describing status of WF200
    pub fn interface_status_tag(&self) -> (r: &'static str)
        ensures
            r@ == match self.current_status {
                LinkState::Unknown => "E1"@,
                LinkState::ResetHold => "off"@,
                LinkState::Uninitialized => "busy1"@,
                LinkState::Initializing => "busy2"@,
                LinkState::Disconnected => "down"@,
                LinkState::Connecting => "busy3"@,
                LinkState::Connected => "up"@,
                LinkState::WFXError => "E2"@,
            },
    {
        match self.current_status {
            LinkState::Unknown => "E1",
            LinkState::ResetHold => "off",
            LinkState::Uninitialized => "busy1",
            LinkState::Initializing => "busy2",
            LinkState::Disconnected => "down",
            LinkState::Connecting => "busy3",
            LinkState::Connected => "up",
            LinkState::WFXError => "E2",
        }
    }

    /// Number of free buffers of the driver's allocator
    pub fn alloc_free_count(&self) -> (r: usize)
        ensures
            r == self.ptr_list@.filter(|p: usize| p == 0).len(),
    {
        let mut count: usize = 0;
        let mut i: usize = 0;
        while i < WFX_MAX_PTRS
            invariant
                i <= WFX_MAX_PTRS,
                count == self.ptr_list@.subrange(0, i as int).filter(|p: usize| p == 0).len(),
                count <= i,
            decreases WFX_MAX_PTRS - i,
        {
            proof {
                let s = self.ptr_list@.subrange(0, i as int + 1);
                assert(s.drop_last() =~= self.ptr_list@.subrange(0, i as int));
                reveal(Seq::filter);
            }
            if self.ptr_list[i] == 0 {
                count = count + 1;
            }
            i = i + 1;
        }
        assert(self.ptr_list@.subrange(0, 4) =~= self.ptr_list@);
        count
    }

    /// Number of allocations refused for being larger than a buffer
    pub fn alloc_oversize_count(&self) -> (r: usize)
        ensures
            r == self.oversize_count,
    {
        self.oversize_count
    }

    /// Number of allocations refused because every buffer was taken
    pub fn alloc_fail_count(&self) -> (r: usize)
        ensures
            r == self.alloc_fails,
    {
        self.alloc_fails
    }

    /// The driver asks for a buffer of `buffer_size` bytes: take the first free slot and
    /// return the address of its buffer. Refused when the size exceeds a buffer or when
    /// every slot is taken; each refusal is counted.
    pub fn allocate_buffer(&mut self, buffer_size: u32) -> (r: Result<usize, HostStatus>)
        requires
            old(self).ram_alloc + (WFX_MAX_PTRS - 1) * WFX_ALLOC_MAXLEN <= usize::MAX,
        ensures
            final(self).ram_alloc == old(self).ram_alloc,
            buffer_size > WFX_ALLOC_MAXLEN ==> r == Err::<usize, HostStatus>(
                HostStatus::AllocationFailed,
            ) && final(self).oversize_count == old(self).oversize_count.wrapping_add(1)
                && final(self).ptr_list == old(self).ptr_list && final(self).alloc_fails == old(
                self,
            ).alloc_fails,
            buffer_size <= WFX_ALLOC_MAXLEN ==> final(self).oversize_count == old(self).oversize_count,
            buffer_size <= WFX_ALLOC_MAXLEN && (forall|i: int|
                0 <= i < WFX_MAX_PTRS ==> #[trigger] old(self).ptr_list@[i] != 0) ==> r == Err::<
                usize,
                HostStatus,
            >(HostStatus::AllocationFailed) && final(self).alloc_fails == old(
                self,
            ).alloc_fails.wrapping_add(1) && final(self).ptr_list == old(self).ptr_list,
            buffer_size <= WFX_ALLOC_MAXLEN && (exists|i: int|
                0 <= i < WFX_MAX_PTRS && #[trigger] old(self).ptr_list@[i] == 0) ==> exists|i: int|
                {
                    &&& 0 <= i < WFX_MAX_PTRS
                    &&& old(self).ptr_list@[i] == 0
                    &&& forall|j: int| 0 <= j < i ==> #[trigger] old(self).ptr_list@[j] != 0
                    &&& r == Ok::<usize, HostStatus>((old(self).ram_alloc + i * WFX_ALLOC_MAXLEN) as usize)
                    &&& final(self).ptr_list@ == old(self).ptr_list@.update(
                        i,
                        (old(self).ram_alloc + i * WFX_ALLOC_MAXLEN) as usize,
                    )
                    &&& final(self).alloc_fails == old(self).alloc_fails
                },
            final(self).host_context == old(self).host_context,
            *final(self) == (WfxHost { ptr_list: final(self).ptr_list, oversize_count: final(self).oversize_count, alloc_fails: final(self).alloc_fails, ..*old(self) }),
    {
        if buffer_size as usize > WFX_ALLOC_MAXLEN {
            self.oversize_count = self.oversize_count.wrapping_add(1);
            return Err(HostStatus::AllocationFailed);
        }
        // find the first "0" entry in the pointer list
        let mut i: usize = 0;
        while i < WFX_MAX_PTRS && self.ptr_list[i] != 0
            invariant
                i <= WFX_MAX_PTRS,
                forall|j: int| 0 <= j < i ==> #[trigger] self.ptr_list@[j] != 0,
            decreases WFX_MAX_PTRS - i,
        {
            i = i + 1;
        }
        if i == WFX_MAX_PTRS {
            self.alloc_fails = self.alloc_fails.wrapping_add(1);
            return Err(HostStatus::AllocationFailed);
        }
        let addr = self.ram_alloc + i * WFX_ALLOC_MAXLEN;
        self.ptr_list[i] = addr;
        Ok(addr)
    }

    /// The driver returns the buffer at `addr`: free the first slot that holds it;
    /// refused when no slot does.
    pub fn free_buffer(&mut self, addr: usize) -> (r: HostStatus)
        ensures
            (forall|i: int| 0 <= i < WFX_MAX_PTRS ==> #[trigger] old(self).ptr_list@[i] != addr) ==> r
                == HostStatus::AllocationFailed && final(self).ptr_list == old(self).ptr_list,
            (exists|i: int| 0 <= i < WFX_MAX_PTRS && #[trigger] old(self).ptr_list@[i] == addr)
                ==> r == HostStatus::Success && exists|i: int|
                {
                    &&& 0 <= i < WFX_MAX_PTRS
                    &&& old(self).ptr_list@[i] == addr
                    &&& forall|j: int| 0 <= j < i ==> #[trigger] old(self).ptr_list@[j] != addr
                    &&& final(self).ptr_list@ == old(self).ptr_list@.update(i, 0usize)
                },
            final(self).ram_alloc == old(self).ram_alloc,
            final(self).oversize_count == old(self).oversize_count,
            final(self).alloc_fails == old(self).alloc_fails,
            final(self).host_context == old(self).host_context,
            *final(self) == (WfxHost { ptr_list: final(self).ptr_list, ..*old(self) }),
    {
        let mut i: usize = 0;
        while i < WFX_MAX_PTRS && self.ptr_list[i] != addr
            invariant
                i <= WFX_MAX_PTRS,
                forall|j: int| 0 <= j < i ==> #[trigger] self.ptr_list@[j] != addr,
            decreases WFX_MAX_PTRS - i,
        {
            i = i + 1;
        }
        if i == WFX_MAX_PTRS {
            return HostStatus::AllocationFailed;
        }
        self.ptr_list[i] = 0;
        HostStatus::Success
    }

    /// The driver (re)initializes: all buffers free, download progress and posted event
    /// cleared; the waited event id is kept.
    pub fn host_init(&mut self)
        ensures
            final(self).ram_alloc == WFX_RAM_OFFSET,
            final(self).ptr_list@ == seq![0usize, 0, 0, 0],
            final(self).host_context == (host_context {
                sl_wfx_firmware_download_progress: 0,
                waited_event_id: old(self).host_context.waited_event_id,
                posted_event_id: 0,
            }),
            *final(self) == (WfxHost { ram_alloc: final(self).ram_alloc, ptr_list: final(self).ptr_list, host_context: final(self).host_context, ..*old(self) }),
    {
        self.ram_alloc = WFX_RAM_OFFSET;
        self.ptr_list = [0usize; 4];
        self.host_context.sl_wfx_firmware_download_progress = 0;
        self.host_context.posted_event_id = 0;
        assert(self.ptr_list@ =~= seq![0usize, 0, 0, 0]);
    }

    /// The driver shuts down: all buffers free
    pub fn host_deinit(&mut self)
        ensures
            final(self).ram_alloc == WFX_RAM_OFFSET,
            final(self).ptr_list@ == seq![0usize, 0, 0, 0],
            final(self).host_context == old(self).host_context,
            *final(self) == (WfxHost { ram_alloc: final(self).ram_alloc, ptr_list: final(self).ptr_list, ..*old(self) }),
    {
        self.ram_alloc = WFX_RAM_OFFSET;
        self.ptr_list = [0usize; 4];
        assert(self.ptr_list@ =~= seq![0usize, 0, 0, 0]);
    }

    /// The driver asks for the next `data_size` bytes of the firmware: return the flash
    /// address where they start, and advance the download progress.
    pub fn get_firmware_data(&mut self, data_size: u32) -> (r: usize)
        ensures
            r == WFX_FIRMWARE_OFFSET.wrapping_add(
                old(self).host_context.sl_wfx_firmware_download_progress as usize,
            ),
            final(self).host_context == (host_context {
                sl_wfx_firmware_download_progress: old(
                    self,
                ).host_context.sl_wfx_firmware_download_progress.wrapping_add(data_size),
                ..old(self).host_context
            }),
            *final(self) == (WfxHost { host_context: final(self).host_context, ..*old(self) }),
    {
        let r = WFX_FIRMWARE_OFFSET.wrapping_add(
            self.host_context.sl_wfx_firmware_download_progress as usize,
        );
        self.host_context.sl_wfx_firmware_download_progress =
            self.host_context.sl_wfx_firmware_download_progress.wrapping_add(data_size);
        r
    }

    /// Set up the next event that the driver will wait for
    pub fn setup_waited_event(&mut self, event_id: u8)
        ensures
            final(self).host_context == (host_context {
                waited_event_id: event_id,
                ..old(self).host_context
            }),
            *final(self) == (WfxHost { host_context: final(self).host_context, ..*old(self) }),
    {
        self.host_context.waited_event_id = event_id;
    }

    /// While the driver waits for a confirmation: true, and the posted event consumed,
    /// once the awaited confirmation has been posted.
    pub fn take_confirmation(&mut self, confirmation_id: u8) -> (r: bool)
        ensures
            r == (confirmation_id == old(self).host_context.posted_event_id),
            r ==> final(self).host_context == (host_context {
                posted_event_id: 0,
                ..old(self).host_context
            }),
            !r ==> final(self).host_context == old(self).host_context,
            *final(self) == (WfxHost { host_context: final(self).host_context, ..*old(self) }),
    {
        if confirmation_id == self.host_context.posted_event_id {
            self.host_context.posted_event_id = 0;
            true
        } else {
            false
        }
    }

    /// Before a new scan is sent: restart the SSID table at its first entry, and zero
    /// the first byte of every entry.
    pub fn begin_scan(&mut self)
        requires
            old(self).wf(),
        ensures
            final(self).wf(),
            final(self).ssid_index == 0,
            forall|i: int|
                0 <= i < SSID_ARRAY_SIZE ==> #[trigger] final(self).ssid_table()[i] == old(
                    self,
                ).ssid_table()[i].update(0, 0u8),
            final(self).ssid_best_rssi == old(self).ssid_best_rssi,
            final(self).ssid_scan_update == old(self).ssid_scan_update,
            final(self).ssid_scan_finished == old(self).ssid_scan_finished,
            final(self).packet_buf == old(self).packet_buf,
            final(self).net_state == old(self).net_state,
            final(self).current_status == old(self).current_status,
            *final(self) == (WfxHost { ssid_array: final(self).ssid_array, ssid_index: final(self).ssid_index, ..*old(self) }),
    {
        self.ssid_index = 0;
        clear_first_bytes(&mut self.ssid_array);
        assert forall|i: int| 0 <= i < SSID_ARRAY_SIZE implies #[trigger] self.ssid_table()[i] == old(
            self,
        ).ssid_table()[i].update(0, 0u8) by {
            assert(self.ssid_array@[i]@ == old(self).ssid_array@[i]@.update(0, 0u8));
        }
    }

    /// Record one access point found by a scan, unless its SSID is hidden (empty, or
    /// starting with a zero byte): its dBm and SSID go to the next slot of the table,
    /// which wraps around, and the strongest RSSI seen is updated. Only the first 32
    /// bytes of an SSID are looked at.
    #[verifier::rlimit(40)]
    pub fn scan_result(&mut self, ssid: &[u8; 32], ssid_length: u32, rcpi: u16)
        requires
            old(self).wf(),
        ensures
            final(self).wf(),
            scan_recorded(*old(self), *final(self), ssid@, ssid_length, rcpi),
    {
        if ssid_length == 0 || ssid[0] == 0 {
            // Silently ignore scan results for hidden SSIDs since they're of no use to us
            return;
        }
        let n: usize = if ssid_length < 32 { ssid_length as usize } else { 32 };
        let raw = vstd::slice::slice_subrange(ssid.as_slice(), 0, n);
        let valid = match str_from_utf8(raw) {
            Ok(_) => true,
            Err(_) => false,
        };
        let dbm: u16 = 32768 - rcpi.wrapping_sub(220) / 2;
        assert(dbm == scan_dbm(rcpi)) by {
            assert(rcpi.wrapping_sub(220) == ((rcpi as int - 220) + 0x1_0000) % 0x1_0000);
        }
        if self.ssid_index >= SSID_ARRAY_SIZE {
            self.ssid_index = 0;
        }
        let idx = self.ssid_index;
        let d8: u8 = #[verifier::truncate] (dbm as u8);
        assert(d8 == (dbm % 256) as u8) by (bit_vector)
            requires
                d8 == dbm as u8,
        ;
        self.ssid_best_rssi = match self.ssid_best_rssi {
            Some(best) => if d8 < best { Some(d8) } else { Some(best) },
            None => Some(d8),
        };
        let mut e = self.ssid_array[idx];
        let ghost e0 = e@;
        let ghost rec = recorded_ssid(raw@);
        if valid {
            let mut k: usize = 0;
            while k < n
                invariant
                    k <= n <= 32,
                    raw@.len() == n,
                    e@.len() == 34,
                    e0.len() == 34,
                    forall|j: int| 0 <= j < k ==> #[trigger] e@[j + 2] == raw@[j],
                    forall|j: int| 0 <= j < 34 && (j < 2 || j >= k + 2) ==> #[trigger] e@[j] == e0[j],
                decreases n - k,
            {
                e[k + 2] = raw[k];
                k = k + 1;
            }
        }
        let len8: u8 = #[verifier::truncate] (ssid_length as u8);
        assert(len8 == (ssid_length % 256) as u8) by (bit_vector)
            requires
                len8 == ssid_length as u8,
        ;
        e[1] = len8;
        e[0] = if dbm < 256 { dbm as u8 } else { 255 };
        proof {
            assert(raw@ == ssid@.subrange(0, n as int));
            assert(valid == valid_utf8(raw@));
            let want = ssid_entry_after(e0, dbm, rec, ssid_length);
            assert forall|k: int| 0 <= k < 34 implies #[trigger] e@[k] == want[k] by {
                if k >= 2 {
                    if valid {
                        assert(rec == raw@);
                        if k - 2 < rec.len() {
                            assert(e@[(k - 2) + 2] == raw@[k - 2]);
                        }
                    } else {
                        assert(rec.len() == 0);
                    }
                }
            }
            assert(e@ =~= want);
        }
        self.ssid_array.set(idx, e);
        // This is like `n = (n+1) % m`, but % is slow on the EC's minimal RV32I core
        self.ssid_index = idx + 1;
        if self.ssid_index >= SSID_ARRAY_SIZE {
            self.ssid_index = 0;
        }
        self.ssid_scan_update = true;
        proof {
            assert(self.ssid_table() =~= old(self).ssid_table().update(
                idx as int,
                ssid_entry_after(old(self).ssid_table()[idx as int], dbm, rec, ssid_length),
            ));
        }
    }

    /// The scan ended
    pub fn scan_complete(&mut self)
        ensures
            *final(self) == (WfxHost { ssid_scan_finished: true, ..*old(self) }),
    {
        self.ssid_scan_finished = true;
    }

    /// Hand out the SSID table and clear it, so that we don't end up in limit cycles if
    /// we happen to have exactly 6 or 7 APs in range.
    pub fn ssid_get_list(&mut self) -> (r: [[u8; 34]; 8])
        requires
            old(self).wf(),
        ensures
            final(self).wf(),
            forall|i: int| 0 <= i < SSID_ARRAY_SIZE ==> #[trigger] r@[i]@ == old(self).ssid_table()[i],
            forall|i: int| 0 <= i < SSID_ARRAY_SIZE ==> #[trigger] final(self).ssid_table()[i] == Seq::new(
                34,
                |k: int| 0u8,
            ),
            final(self).ssid_index == 0,
            final(self).ssid_best_rssi == old(self).ssid_best_rssi,
            final(self).packet_buf == old(self).packet_buf,
            final(self).net_state == old(self).net_state,
            *final(self) == (WfxHost { ssid_array: final(self).ssid_array, ssid_index: final(self).ssid_index, ..*old(self) }),
    {
        let r = [
            self.ssid_array[0],
            self.ssid_array[1],
            self.ssid_array[2],
            self.ssid_array[3],
            self.ssid_array[4],
            self.ssid_array[5],
            self.ssid_array[6],
            self.ssid_array[7],
        ];
        zero_entries(&mut self.ssid_array);
        self.ssid_index = 0;
        r
    }

    /// A frame arrived (see `frame_received`); returns the bin the packet filter put it in
    pub fn received_frame(&mut self, data: &[u8], now: TimeMs) -> (bin: FilterBin)
        requires
            old(self).wf(),
        ensures
            final(self).wf(),
            frame_received(*old(self), *final(self), data@, now, bin),
    {
        // This will give the EC's DHCP client and packet filter first dibs on the packet
        let filter_bin = net::handle_frame(&mut self.net_state, data, now);
        // If the filter bin came back as ComFwd, that means the EC wants the packet to be
        // forwarded up the COM bus net bridge
        if filter_bin == FilterBin::ComFwd && self.net_state.com_net_bridge_enable {
            if self.net_state.dhcp.ip.is_some() {
                let maybe_pkt = self.packet_buf.get_enqueue_slice(data.len());
                match maybe_pkt {
                    Some(pkt) => {
                        proof {
                            crate::pkt_buf::lemma_alloc_window_in_region(
                                old(self).packet_buf.pkts(),
                                data.len(),
                            );
                            assert forall|i: int| 0 <= i < old(self).packet_buf.pkts().len() implies #[trigger] old(self).packet_buf.pkts()[i].0 <= old(self).packet_buf.pkts()[i].1 <= PKT_BUF_LEN by {
                                old(self).packet_buf.lemma_windows_in_region(i);
                            }
                        }
                        copy_to_window(&mut self.pkt_mem, pkt.start, data);
                    },
                    None => {
                        // Drop RX packet because COM bus congested
                        self.drop_packet();
                    },
                }
            }
        }
        filter_bin
    }

    /// Connect indication: record the join result and bring the link up or down.
    /// Returns how the station-connected bit of the driver state changes.
    pub fn connect_callback(&mut self, status: FmacStatus) -> (sta: Option<bool>)
        ensures
            connect_applied(*old(self), *final(self), status),
            sta == (if status == FmacStatus::Success { Some(true) } else { None }),
    {
        let mut new_status = LinkState::Disconnected;
        let mut sta: Option<bool> = None;
        match status {
            FmacStatus::Success => {
                self.connect_result = ConnectResult::Success;
                new_status = LinkState::Connected;
                self.net_state.filter_stats.reset();
                sta = Some(true);
            },
            FmacStatus::NoMatchingAp => {
                self.connect_result = ConnectResult::NoMatchingAp;
            },
            FmacStatus::ConnectionAborted => {
                self.connect_result = ConnectResult::Aborted;
            },
            FmacStatus::ConnectionTimeout => {
                self.connect_result = ConnectResult::Timeout;
            },
            FmacStatus::ConnectionRejectedByAp => {
                self.connect_result = ConnectResult::Reject;
            },
            FmacStatus::ConnectionAuthFailure => {
                self.connect_result = ConnectResult::AuthFail;
            },
            FmacStatus::Other(_) => {
                self.connect_result = ConnectResult::Error;
            },
        }
        self.current_status = new_status;
        sta
    }

    /// Disconnect indication: the link is down, the host gets told, and the DHCP client
    /// and packet buffer restart.
    pub fn disconnect_callback(&mut self)
        requires
            old(self).wf(),
        ensures
            final(self).wf(),
            disconnect_applied(*old(self), *final(self)),
    {
        self.current_status = LinkState::Disconnected;
        self.disconnect_pending = true;
        self.net_state.dhcp.handle_link_drop();
        // reset the packet buffer to a known state
        self.init_pkt_buf();
    }

    /// The driver posts a message (`msg`, its bytes from the header on, decoded as
    /// `ev`): dispatch it, and if it is the one the driver waits for and fits the event
    /// payload buffer, copy its first `header_length` bytes into that buffer and mark it
    /// posted.
    #[verifier::rlimit(40)]
    pub fn post_event(&mut self, ev: WfxEvent, header_id: u8, header_length: u16, msg: &[u8], now: TimeMs) -> (fx: PostEventEffects)
        requires
            old(self).wf(),
            old(self).host_context.waited_event_id == header_id && header_length < EVENT_PAYLOAD_LEN
                ==> header_length <= msg@.len(),
        ensures
            final(self).wf(),
            event_applied(
                *old(self),
                WfxHost {
                    host_context: old(self).host_context,
                    event_payload: old(self).event_payload,
                    ..*final(self)
                },
                ev,
                now,
                fx,
            ),
            fx.store_payload == (old(self).host_context.waited_event_id == header_id && header_length
                < EVENT_PAYLOAD_LEN),
            final(self).host_context == (if fx.store_payload {
                host_context { posted_event_id: header_id, ..old(self).host_context }
            } else {
                old(self).host_context
            }),
            fx.store_payload ==> final(self).event_payload@ == write_window(
                old(self).event_payload@,
                0,
                msg@.subrange(0, header_length as int),
            ),
            !fx.store_payload ==> final(self).event_payload@ == old(self).event_payload@,
    {
        let ghost ev0 = ev;
        let mut sta_connected: Option<bool> = None;
        let mut filter_bin: Option<FilterBin> = None;
        match ev {
            WfxEvent::Connect { status } => {
                sta_connected = self.connect_callback(status);
            },
            WfxEvent::Disconnect { .. } => {
                self.disconnect_callback();
                sta_connected = Some(false);
            },
            WfxEvent::Received { frame_type, frame } => {
                if frame_type == 0 {
                    filter_bin = Some(self.received_frame(frame.as_slice(), now));
                }
            },
            WfxEvent::ScanResult { ssid, ssid_length, rcpi } => {
                self.scan_result(&ssid, ssid_length, rcpi);
            },
            WfxEvent::ScanComplete { .. } => {
                self.scan_complete();
            },
            WfxEvent::Error { .. } => {
                self.current_status = LinkState::WFXError;
                // this will also trip an interrupt to inform the host that there's an error
                self.connect_result = ConnectResult::Error;
                self.wfx_err_pending = true;
            },
            WfxEvent::Startup => {
                self.current_status = LinkState::Disconnected;
            },
            _ => {},
        }
        let ghost mid = *self;
        let store_payload = self.host_context.waited_event_id == header_id && header_length
            < EVENT_PAYLOAD_LEN;
        if store_payload {
            let len = header_length as usize;
            copy_to_window(&mut self.event_payload, 0, vstd::slice::slice_subrange(msg, 0, len));
            self.host_context.posted_event_id = header_id;
        }
        proof {
            assert(WfxHost { host_context: old(self).host_context, event_payload: old(self).event_payload, ..*self } == mid);
        }
        PostEventEffects { store_payload, sta_connected, filter_bin }
    }

    /// The driver is about to initialize the chip
    pub fn start_init(&mut self)
        ensures
            *final(self) == (WfxHost { current_status: LinkState::Initializing, ..*old(self) }),
    {
        self.current_status = LinkState::Initializing;
    }

    /// The driver initialized the chip: the network stack takes the station MAC address
    pub fn finish_init(&mut self, mac: &[u8; 6])
        requires
            old(self).wf(),
        ensures
            final(self).wf(),
            *final(self) == (WfxHost {
                net_state: NetState { mac: *mac, ..old(self).net_state },
                ..*old(self)
            }),
    {
        self.net_state.set_mac(mac);
    }

    /// The bus to the chip was shut down
    pub fn deinit_bus(&mut self)
        ensures
            *final(self) == (WfxHost { current_status: LinkState::Uninitialized, ..*old(self) }),
    {
        self.current_status = LinkState::Uninitialized;
    }

    /// The chip is held in reset: no scan can be running
    pub fn hold_in_reset(&mut self)
        ensures
            *final(self) == (WfxHost {
                current_status: LinkState::ResetHold,
                ssid_scan_update: false,
                ssid_scan_finished: false,
                ..*old(self)
            }),
    {
        self.current_status = LinkState::ResetHold;
        self.ssid_scan_update = false;
        self.ssid_scan_finished = false;
    }

    /// The chip was reset: everything that depends on it starts over. The SSID table
    /// and the strongest RSSI are kept, since the radio environment is external to the
    /// driver.
    pub fn reset_chip(&mut self)
        requires
            old(self).wf(),
        ensures
            final(self).wf(),
            !final(self).wfx_err_pending,
            final(self).ptr_list@ == seq![0usize, 0, 0, 0],
            final(self).current_status == LinkState::Uninitialized,
            !final(self).disconnect_pending,
            !final(self).dropped_updated,
            final(self).packets_dropped == old(self).packets_dropped,
            final(self).net_state.mac@ == seq![0u8, 0, 0, 0, 0, 0],
            final(self).net_state.filter_stats.all_zero(),
            final(self).net_state.dhcp.state == State::Halted,
            final(self).net_state.com_net_bridge_enable,
            final(self).connect_result == ConnectResult::Pending,
            !final(self).ssid_scan_update,
            !final(self).ssid_scan_finished,
            final(self).ssid_array == old(self).ssid_array,
            final(self).ssid_index == old(self).ssid_index,
            final(self).ssid_best_rssi == old(self).ssid_best_rssi,
            final(self).packet_buf.was_init,
            final(self).packet_buf.pkts() == old(self).packet_buf.pkts(),
            !old(self).packet_buf.was_init ==> final(self).pkt_mem@ == Seq::new(
                PKT_BUF_LEN as nat,
                |i: int| 0u8,
            ),
            old(self).packet_buf.was_init ==> final(self).pkt_mem == old(self).pkt_mem,
            final(self).host_context == (host_context {
                sl_wfx_firmware_download_progress: 0,
                waited_event_id: 0,
                posted_event_id: 0,
            }),
            final(self).ram_alloc == old(self).ram_alloc,
    {
        self.wfx_err_pending = false;
        // clear "mallocs"
        self.ptr_list = [0usize; 4];
        assert(self.ptr_list@ =~= seq![0usize, 0, 0, 0]);
        // reset dhcp state and net state
        self.net_state.dhcp.handle_link_drop();
        self.current_status = LinkState::Uninitialized;
        self.disconnect_pending = false;
        self.dropped_updated = false;
        self.net_state = NetState::new();
        self.connect_result = ConnectResult::Pending;
        // clear ssid scan state
        self.ssid_scan_update = false;
        self.ssid_scan_finished = false;
        // clear the packet buf
        self.init_pkt_buf();
        self.host_context = host_context {
            sl_wfx_firmware_download_progress: 0,
            waited_event_id: 0,
            posted_event_id: 0,
        };
    }

    /// Window of the oldest packet queued for the host, if any
    pub fn peek_get_packet(&self) -> (r: Option<PktPtr>)
        requires
            self.wf(),
        ensures
            self.packet_buf.pkts().len() == 0 ==> r is None,
            self.packet_buf.pkts().len() > 0 ==> (r matches Some(p) && p.start == self.packet_buf.pkts()[0].0
                && p.end == self.packet_buf.pkts()[0].1),
    {
        self.packet_buf.peek_dequeue_slice()
    }

    /// Release the oldest packet queued for the host
    pub fn dequeue_packet(&mut self)
        requires
            old(self).wf(),
        ensures
            final(self).wf(),
            old(self).packet_buf.pkts().len() > 0 ==> final(self).packet_buf.pkts() == old(
                self,
            ).packet_buf.pkts().drop_first(),
            old(self).packet_buf.pkts().len() == 0 ==> final(self).packet_buf.pkts() == old(
                self,
            ).packet_buf.pkts(),
            !final(self).packet_buf.was_polled,
            *final(self) == (WfxHost { packet_buf: final(self).packet_buf, ..*old(self) }),
    {
        let _ = self.packet_buf.dequeue();
    }

    /// Length of the oldest queued packet, reported once until the queue changes
    pub fn poll_new_avail(&mut self) -> (r: Option<u16>)
        requires
            old(self).wf(),
        ensures
            final(self).wf(),
            final(self).packet_buf.pkts() == old(self).packet_buf.pkts(),
            !old(self).packet_buf.was_polled && old(self).packet_buf.pkts().len() > 0 ==> r == Some(
                ((old(self).packet_buf.pkts()[0].1 - old(self).packet_buf.pkts()[0].0) as u16),
            ) && final(self).packet_buf.was_polled,
            old(self).packet_buf.was_polled || old(self).packet_buf.pkts().len() == 0 ==> r is None
                && final(self).packet_buf.was_polled == old(self).packet_buf.was_polled,
            *final(self) == (WfxHost { packet_buf: final(self).packet_buf, ..*old(self) }),
    {
        self.packet_buf.poll_new_avail()
    }

    /// Reseed the network stack's PRNG
    pub fn reseed_net_prng(&mut self, seed: &[u16; 8])
        requires
            old(self).wf(),
        ensures
            final(self).wf(),
            final(self).net_state.prng.count == 0,
            final(self).net_state.prng.s@ == net::prng::seed_state(seed@),
            *final(self) == (WfxHost {
                net_state: NetState { prng: final(self).net_state.prng, ..old(self).net_state },
                ..*old(self)
            }),
    {
        self.net_state.prng.reseed(seed);
    }

    /// A value from the network stack's PRNG (which gets a TRNG seed from Xous at boot)
    pub fn net_prng_rand(&mut self) -> (r: u32)
        requires
            old(self).wf(),
        ensures
            final(self).wf(),
            r == old(self).net_state.prng.next_output(),
            old(self).net_state.prng.advanced_to(final(self).net_state.prng),
            *final(self) == (WfxHost {
                net_state: NetState { prng: final(self).net_state.prng, ..old(self).net_state },
                ..*old(self)
            }),
    {
        self.net_state.prng.next()
    }

    /// Connect or disconnect the COM bus net bridge
    pub fn set_com_net_bridge_enable(&mut self, enable: bool)
        requires
            old(self).wf(),
        ensures
            final(self).wf(),
            *final(self) == (WfxHost {
                net_state: NetState { com_net_bridge_enable: enable, ..old(self).net_state },
                ..*old(self)
            }),
    {
        self.net_state.set_com_net_bridge_enable(enable);
    }

    /// Current state of the DHCP state machine
    pub fn dhcp_get_state(&self) -> (r: State)
        ensures
            r == self.net_state.dhcp.state,
    {
        self.net_state.dhcp.get_state()
    }

    /// Inform the DHCP state machine that the network link dropped
    pub fn dhcp_handle_link_drop(&mut self)
        requires
            old(self).wf(),
        ensures
            final(self).wf(),
            *final(self) == (WfxHost {
                net_state: NetState {
                    dhcp: old(self).net_state.dhcp.halt_and_reset_spec(),
                    ..old(self).net_state
                },
                ..*old(self)
            }),
    {
        self.net_state.dhcp.handle_link_drop();
    }

    /// Check for notification of DHCP state changes to Bound or Halted
    pub fn dhcp_pop_and_ack_change_event(&mut self) -> (r: Option<DhcpEvent>)
        requires
            old(self).wf(),
        ensures
            final(self).wf(),
            r == old(self).net_state.dhcp.state_change_event_latch,
            *final(self) == (WfxHost {
                net_state: NetState {
                    dhcp: DhcpClient { state_change_event_latch: None, ..old(self).net_state.dhcp },
                    ..old(self).net_state
                },
                ..*old(self)
            }),
    {
        self.net_state.dhcp.pop_and_ack_change_event()
    }

    /// Reset the DHCP client to start at INIT with a new random hostname, drawing five
    /// values from the PRNG for it (see `DhcpClient::began_at_init`).
    pub fn dhcp_reset(&mut self) -> (r: Result<(), u8>)
        requires
            old(self).wf(),
        ensures
            final(self).wf(),
            r is Ok,
            ({
                let p = old(self).net_state.prng;
                &&& DhcpClient::began_at_init(
                    old(self).net_state.dhcp,
                    final(self).net_state.dhcp,
                    net::prng::outputs_from(p.s@, p.count as int, 5),
                )
                &&& final(self).net_state.prng.s@ == net::prng::words_after(p.s@, p.count as int, 5)
                &&& final(self).net_state.prng.count == net::prng::count_after(p.count as int, 5)
            }),
            *final(self) == (WfxHost {
                net_state: NetState {
                    prng: final(self).net_state.prng,
                    dhcp: final(self).net_state.dhcp,
                    ..old(self).net_state
                },
                ..*old(self)
            }),
    {
        let ghost p0 = self.net_state.prng;
        proof {
            lemma_outputs_len(p0.s@, p0.count as int, 5);
        }
        let mut entropy = [0u32; 5];
        let mut i: usize = 0;
        while i < 5
            invariant
                i <= 5,
                self.wf(),
                net::prng::outputs_from(p0.s@, p0.count as int, 5).len() == 5,
                entropy@.len() == 5,
                *self == (WfxHost {
                    net_state: NetState { prng: self.net_state.prng, ..old(self).net_state },
                    ..*old(self)
                }),
                p0 == old(self).net_state.prng,
                forall|j: int|
                    0 <= j < i ==> #[trigger] entropy@[j] == net::prng::outputs_from(
                        p0.s@,
                        p0.count as int,
                        5,
                    )[j],
                self.net_state.prng.s@ == net::prng::words_after(p0.s@, p0.count as int, i as nat),
                self.net_state.prng.count == net::prng::count_after(p0.count as int, i as nat),
                net::prng::outputs_from(p0.s@, p0.count as int, 5).subrange(i as int, 5)
                    == net::prng::outputs_from(
                    self.net_state.prng.s@,
                    self.net_state.prng.count as int,
                    (5 - i) as nat,
                ),
            decreases 5 - i,
        {
            let ghost w = self.net_state.prng.s@;
            let ghost c = self.net_state.prng.count as int;
            entropy[i] = self.net_state.prng.next();
            proof {
                let all = net::prng::outputs_from(p0.s@, p0.count as int, 5);
                let rest = net::prng::outputs_from(w, c, (5 - i) as nat);
                lemma_outputs_len(w, c, (5 - i) as nat);
                assert(rest[0] == net::prng::step_output(w, c));
                assert(all.subrange(i as int, 5)[0] == all[i as int]);
                assert(rest.drop_first() =~= net::prng::outputs_from(
                    net::prng::step_words(w, c),
                    net::prng::step_count(c),
                    (5 - i - 1) as nat,
                ));
                assert(all.subrange(i as int + 1, 5) =~= all.subrange(i as int, 5).drop_first());
                lemma_after_succ(p0.s@, p0.count as int, i as nat);
            }
            i = i + 1;
        }
        self.net_state.dhcp.begin_at_init(entropy);
        proof {
            assert(entropy@ =~= net::prng::outputs_from(p0.s@, p0.count as int, 5));
        }
        Ok(())
    }

    /// Clock the DHCP state machine and, if it asks for a packet, build the frame into
    /// `pbuf` and return its length, for the caller to send. Refused with 0x20 unless
    /// the link is up; the frame builders' error codes pass through.
    pub fn dhcp_do_next(&mut self, pbuf: &mut [u8], now: TimeMs) -> (r: Result<Option<u32>, u8>)
        requires
            old(self).wf(),
        ensures
            final(self).wf(),
            old(self).current_status != LinkState::Connected ==> r == Err::<Option<u32>, u8>(0x20)
                && *final(self) == *old(self) && final(pbuf)@ == old(pbuf)@,
            old(self).current_status == LinkState::Connected ==> {
                let p = old(self).net_state.prng;
                let ip_id = (p.next_output() % 0x1_0000) as u16;
                let (d2, need) = old(self).net_state.dhcp.cycle_clock_spec(now);
                &&& p.advanced_to(final(self).net_state.prng)
                &&& final(self).net_state == (NetState {
                    prng: final(self).net_state.prng,
                    dhcp: d2,
                    ..old(self).net_state
                })
                &&& *final(self) == (WfxHost { net_state: final(self).net_state, ..*old(self) })
                &&& dhcp_frame_built(d2, old(self).net_state.mac@, need, ip_id, now, old(pbuf)@, final(pbuf)@, r)
            },
    {
        // Make sure the link is active before we try to use it
        if self.current_status != LinkState::Connected {
            return Err(0x20);
        }
        let src_mac: [u8; 6] = self.net_state.mac;
        let x = self.net_state.prng.next();
        let ip_id: u16 = #[verifier::truncate] (x as u16);
        assert(ip_id == (x % 0x1_0000) as u16) by (bit_vector)
            requires
                ip_id == x as u16,
        ;
        // Clock the DHCP state machine and, depending on what it returns, maybe build a packet
        let need = self.net_state.dhcp.cycle_clock(now);
        let built = match need {
            PacketNeeded::Discover => self.net_state.dhcp.build_discover_frame(pbuf, &src_mac, ip_id, now),
            PacketNeeded::Request => self.net_state.dhcp.build_request_frame(
                pbuf,
                &src_mac,
                RequestType::Discover,
                ip_id,
                now,
            ),
            PacketNeeded::Renew => self.net_state.dhcp.build_request_frame(
                pbuf,
                &src_mac,
                RequestType::Renew,
                ip_id,
                now,
            ),
            PacketNeeded::Rebind => self.net_state.dhcp.build_request_frame(
                pbuf,
                &src_mac,
                RequestType::Rebind,
                ip_id,
                now,
            ),
            PacketNeeded::NoPacket => {
                return Ok(None);
            },
        };
        match built {
            Ok(len) => Ok(Some(len)),
            Err(e) => Err(e),
        }
    }

    /// Net state for COM reporting: DHCP state, MAC and the bound addresses, each in
    /// network byte order (zeros when not bound)
    pub fn com_ipv4_config(&self) -> (r: Ipv4Conf)
        ensures
            r.dhcp == self.net_state.dhcp.state,
            r.mac == self.net_state.mac,
            r.addr@ == addr_bytes(self.net_state.dhcp.ip),
            r.gtwy@ == addr_bytes(self.net_state.dhcp.gateway),
            r.mask@ == addr_bytes(self.net_state.dhcp.subnet),
            r.dns1@ == addr_bytes(self.net_state.dhcp.dns),
            r.dns2@ == seq![0u8, 0, 0, 0],
    {
        let dns2 = [0u8; 4];
        assert(dns2@ =~= seq![0u8, 0, 0, 0]);
        Ipv4Conf {
            dhcp: self.net_state.dhcp.get_state(),
            mac: self.net_state.mac,
            addr: addr_be_bytes(self.net_state.dhcp.ip),
            gtwy: addr_be_bytes(self.net_state.dhcp.gateway),
            mask: addr_be_bytes(self.net_state.dhcp.subnet),
            dns1: addr_be_bytes(self.net_state.dhcp.dns),
            dns2,
        }
    }

    /// RSSI of the last packet received, in dBm (positive). `reading` is the driver's
    /// RCPI, None when the driver failed; it is only asked for while the link is up.
    /// Err(0x20) when the link is down, Err(0x01) when the driver failed.
    pub fn get_rssi(&self, reading: Option<u32>) -> (r: Result<u32, u8>)
        ensures
            self.current_status != LinkState::Connected ==> r == Err::<u32, u8>(0x20),
            self.current_status == LinkState::Connected ==> r == match reading {
                Some(rcpi) => Ok::<u32, u8>(rcpi / 2),
                None => Err::<u32, u8>(0x01),
            },
    {
        if self.current_status != LinkState::Connected {
            return Err(0x20);
        }
        match reading {
            Some(rcpi) => Ok(rssi_dbm(rcpi)),
            None => Err(0x01),
        }
    }

    /// Forward the host side events to the COM interrupt manager, polling (and so
    /// clearing) each event flag: see `forwarded_ints`. Returns the join result that was
    /// pending, if any (Pending otherwise), so that the caller can start DHCP.
    pub fn forward_events(&mut self, ints: &mut ComInterrupts) -> (r: ConnectResult)
        requires
            old(self).wf(),
        ensures
            final(self).wf(),
            r == old(self).connect_result,
            ({
                let avail = if !old(self).packet_buf.was_polled && old(self).packet_buf.pkts().len() > 0 {
                    Some(((old(self).packet_buf.pkts()[0].1 - old(self).packet_buf.pkts()[0].0) as u16))
                } else {
                    None
                };
                (final(ints).pending(), final(ints).rx_len(), final(ints).retrigger_pending()) == forwarded_ints(
                    (old(ints).pending(), old(ints).rx_len(), old(ints).retrigger_pending()),
                    avail,
                    old(self).dropped_updated,
                    old(self).disconnect_pending,
                    old(self).ssid_scan_update,
                    old(self).ssid_scan_finished,
                    old(self).connect_result,
                )
            }),
            final(ints).irq_mask() == old(ints).irq_mask(),
            !final(self).dropped_updated,
            !final(self).disconnect_pending,
            !final(self).ssid_scan_update,
            !final(self).ssid_scan_finished,
            final(self).connect_result == ConnectResult::Pending,
            final(self).packet_buf.pkts() == old(self).packet_buf.pkts(),
            final(self).net_state == old(self).net_state,
    {
        if let Some(len) = self.poll_new_avail() {
            ints.set_rx_ready(len);
        }
        if self.poll_new_dropped() {
            ints.set_rx_error();
        }
        if self.poll_disconnect_pending() {
            ints.set_disconnect();
        }
        if self.poll_scan_updated() {
            ints.set_ssid_update();
        }
        if self.poll_scan_finished() {
            ints.set_ssid_finished();
        }
        let connect_result = self.poll_connect_result();
        if connect_result != ConnectResult::Pending {
            ints.set_connect_result(connect_result);
        }
        connect_result
    }

    /// Return dBm (positive) of strongest RSSI seen during all previous SSID scans
    pub fn get_best_ssid_scan_rssi(&self) -> (r: Option<u8>)
        ensures
            r == self.ssid_best_rssi,
    {
        self.ssid_best_rssi
    }
}

/// Handing out one more value continues the words and counts of the generator
proof fn lemma_after_succ(w: Seq<u32>, c: int, n: nat)
    ensures
        net::prng::words_after(w, c, n + 1) == net::prng::step_words(
            net::prng::words_after(w, c, n),
            net::prng::count_after(c, n),
        ),
        net::prng::count_after(c, n + 1) == net::prng::step_count(net::prng::count_after(c, n)),
    decreases n,
{
    reveal_with_fuel(net::prng::words_after, 2);
    reveal_with_fuel(net::prng::count_after, 2);
    if n > 0 {
        lemma_after_succ(net::prng::step_words(w, c), net::prng::step_count(c), (n - 1) as nat);
        assert(net::prng::words_after(w, c, n + 1) == net::prng::words_after(
            net::prng::step_words(w, c),
            net::prng::step_count(c),
            n,
        ));
        assert(net::prng::count_after(c, n + 1) == net::prng::count_after(net::prng::step_count(c), n));
    }
}

/// `outputs_from` hands out as many values as asked for
proof fn lemma_outputs_len(w: Seq<u32>, c: int, n: nat)
    ensures
        net::prng::outputs_from(w, c, n).len() == n,
    decreases n,
{
    if n > 0 {
        lemma_outputs_len(net::prng::step_words(w, c), net::prng::step_count(c), (n - 1) as nat);
    }
}

/// What the host is told after a join attempt: the join is reported as successful,
/// and the link as connected, exactly when the connect status is Success; a join to an
/// SSID that is not in range is reported as NoMatchingAp (code 1); and two different
/// named statuses are never reported alike.
pub proof fn lemma_connect_result_reported(
    old1: WfxHost,
    new1: WfxHost,
    s1: FmacStatus,
    old2: WfxHost,
    new2: WfxHost,
    s2: FmacStatus,
)
    requires
        connect_applied(old1, new1, s1),
        connect_applied(old2, new2, s2),
    ensures
        (new1.connect_result == ConnectResult::Success) <==> (s1 == FmacStatus::Success),
        (new1.current_status == LinkState::Connected) <==> (s1 == FmacStatus::Success),
        s1 == FmacStatus::NoMatchingAp ==> new1.connect_result == ConnectResult::NoMatchingAp
            && new1.connect_result.code_spec() == 1,
        s1 !is Other && s2 !is Other && new1.connect_result == new2.connect_result ==> s1 == s2,
{
}
} // verus!
