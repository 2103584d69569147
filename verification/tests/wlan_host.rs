use betrusted_ec::com::{
    ConnectResult, LinkState, INT_WLAN_CONNECT_EVENT, INT_WLAN_DISCONNECT, INT_WLAN_RX_ERROR,
    INT_WLAN_RX_READY, INT_WLAN_SSID_FINISHED, INT_WLAN_SSID_UPDATE,
};
use betrusted_ec::com_bus::ComInterrupts;
use betrusted_ec::hal_time::TimeMs;
use betrusted_ec::net::dhcp::{DhcpEvent, State};
use betrusted_ec::net::filter::FilterBin;
use betrusted_ec::wf200::{
    parse_hex, pds_length_ok, rssi_dbm, strlen, u32_be_bytes, FmacStatus, HostStatus, WfxEvent, WfxHost,
    WFX_ALLOC_MAXLEN, WFX_FIRMWARE_OFFSET, WFX_RAM_OFFSET,
};
use betrusted_ec::wfx_bus::{sl_wfx_host_spi_transfer_no_cs_assert, WfxBusOp};

fn now_ms(ms: u32) -> TimeMs {
    TimeMs::from_words(ms, 0)
}

fn ssid32(name: &[u8]) -> [u8; 32] {
    let mut s = [0u8; 32];
    s[..name.len()].copy_from_slice(name);
    s
}

#[test]
fn parse_hex_accepts_prefixes_and_sign() {
    assert_eq!(parse_hex(b"0x1A"), Some(26));
    assert_eq!(parse_hex(b"ff"), Some(255));
    assert_eq!(parse_hex(b"+ff"), Some(255));
    assert_eq!(parse_hex(b"0x0x10"), Some(16));
    assert_eq!(parse_hex(b"0xdeadBEEF"), Some(0xdead_beef));
}

#[test]
fn parse_hex_rejects_malformed_and_too_large() {
    assert_eq!(parse_hex(b""), None);
    assert_eq!(parse_hex(b"0x"), None);
    assert_eq!(parse_hex(b"12g4"), None);
    assert_eq!(parse_hex(b"-1"), None);
    assert_eq!(parse_hex(b"1ffffffffffffffffffff"), None);
}

#[test]
fn small_helpers() {
    assert_eq!(u32_be_bytes(0x0102_0304), [1, 2, 3, 4]);
    assert_eq!(rssi_dbm(121), 60);
    assert!(pds_length_ok(255));
    assert!(!pds_length_ok(256));
}

#[test]
fn allocator_hands_out_first_free_buffer() {
    let mut h = WfxHost::new();
    assert_eq!(h.alloc_free_count(), 4);
    assert_eq!(h.allocate_buffer(100), Ok(WFX_RAM_OFFSET));
    assert_eq!(h.allocate_buffer(WFX_ALLOC_MAXLEN as u32), Ok(WFX_RAM_OFFSET + WFX_ALLOC_MAXLEN));
    assert_eq!(h.allocate_buffer(WFX_ALLOC_MAXLEN as u32 + 1), Err(HostStatus::AllocationFailed));
    assert_eq!(h.alloc_oversize_count(), 1);
    assert_eq!(h.alloc_free_count(), 2);
    assert_eq!(h.free_buffer(WFX_RAM_OFFSET), HostStatus::Success);
    assert_eq!(h.free_buffer(WFX_RAM_OFFSET), HostStatus::AllocationFailed);
    assert_eq!(h.allocate_buffer(1), Ok(WFX_RAM_OFFSET));
    assert_eq!(h.allocate_buffer(1), Ok(WFX_RAM_OFFSET + 2 * WFX_ALLOC_MAXLEN));
    assert_eq!(h.allocate_buffer(1), Ok(WFX_RAM_OFFSET + 3 * WFX_ALLOC_MAXLEN));
    assert_eq!(h.alloc_free_count(), 0);
    assert_eq!(h.allocate_buffer(1), Err(HostStatus::AllocationFailed));
    assert_eq!(h.alloc_fail_count(), 1);
    h.host_deinit();
    assert_eq!(h.alloc_free_count(), 4);
}

#[test]
fn firmware_download_advances() {
    let mut h = WfxHost::new();
    assert_eq!(h.get_firmware_data(1024), WFX_FIRMWARE_OFFSET);
    assert_eq!(h.get_firmware_data(512), WFX_FIRMWARE_OFFSET + 1024);
    h.host_init();
    assert_eq!(h.get_firmware_data(8), WFX_FIRMWARE_OFFSET);
}

#[test]
fn confirmations_are_consumed_once() {
    let mut h = WfxHost::new();
    h.setup_waited_event(0x43);
    let msg: Vec<u8> = (1..=20).collect();
    let fx = h.post_event(WfxEvent::Confirmation { id: 0x43 }, 0x43, 16, &msg, now_ms(0));
    assert!(fx.store_payload);
    // the first 16 bytes of the message went into the payload buffer
    assert_eq!(&h.event_payload[..16], &msg[..16]);
    assert_eq!(h.event_payload[16], 0);
    assert_eq!(h.event_payload.len(), 512);
    assert!(!h.take_confirmation(0x44));
    assert!(h.take_confirmation(0x43));
    assert!(!h.take_confirmation(0x43));
    // a payload too big for the buffer is not stored
    let big = vec![0xaau8; 512];
    let fx = h.post_event(WfxEvent::Confirmation { id: 0x43 }, 0x43, 512, &big, now_ms(0));
    assert!(!fx.store_payload);
    assert_eq!(&h.event_payload[..16], &msg[..16]);
    // a message the driver does not wait for is not stored either
    let fx = h.post_event(WfxEvent::Confirmation { id: 0x44 }, 0x44, 16, &big, now_ms(0));
    assert!(!fx.store_payload);
    assert_eq!(&h.event_payload[..16], &msg[..16]);
    assert!(!h.take_confirmation(0x43));
}

#[test]
fn scan_results_fill_the_table_and_track_the_best_rssi() {
    let mut h = WfxHost::new();
    h.begin_scan();
    h.scan_result(&ssid32(b"home"), 4, 100);
    h.scan_result(&ssid32(b"cafe"), 4, 160);
    // hidden networks are skipped
    h.scan_result(&ssid32(b""), 0, 200);
    assert!(h.poll_scan_updated());
    assert!(!h.poll_scan_updated());
    assert_eq!(h.get_best_ssid_scan_rssi(), Some(30));
    h.scan_complete();
    assert!(h.poll_scan_finished());
    let list = h.ssid_get_list();
    assert_eq!(list[0][0], 60);
    assert_eq!(list[0][1], 4);
    assert_eq!(&list[0][2..6], b"home");
    assert_eq!(list[1][0], 30);
    assert_eq!(&list[1][2..6], b"cafe");
    assert_eq!(list[2], [0u8; 34]);
    // the table is cleared once handed out
    let again = h.ssid_get_list();
    assert_eq!(again[0], [0u8; 34]);
}

#[test]
fn scan_table_wraps_after_eight_entries() {
    let mut h = WfxHost::new();
    for i in 0..9u8 {
        h.scan_result(&ssid32(&[b'a' + i]), 1, 0);
    }
    let list = h.ssid_get_list();
    assert_eq!(list[0][2], b'i');
    assert_eq!(list[1][2], b'b');
    assert_eq!(list[0][0], 110);
}

#[test]
fn scan_result_with_invalid_utf8_keeps_only_signal_and_length() {
    let mut h = WfxHost::new();
    h.scan_result(&ssid32(&[0xff, 0xfe]), 2, 20);
    let list = h.ssid_get_list();
    assert_eq!(list[0][0], 100);
    assert_eq!(list[0][1], 2);
    assert_eq!(&list[0][2..4], &[0, 0]);
}

#[test]
fn connect_events_update_link_and_result() {
    let mut h = WfxHost::new();
    let fx = h.post_event(WfxEvent::Startup, 0, 0, &[], now_ms(0));
    assert_eq!(fx.sta_connected, None);
    assert_eq!(h.interface_status(), LinkState::Disconnected);
    assert_eq!(h.interface_status_tag(), "down");
    let fx = h.post_event(WfxEvent::Connect { status: FmacStatus::ConnectionAuthFailure }, 0, 0, &[], now_ms(0));
    assert_eq!(fx.sta_connected, None);
    assert_eq!(h.poll_connect_result(), ConnectResult::AuthFail);
    assert_eq!(h.poll_connect_result(), ConnectResult::Pending);
    let fx = h.post_event(WfxEvent::Connect { status: FmacStatus::Success }, 0, 0, &[], now_ms(0));
    assert_eq!(fx.sta_connected, Some(true));
    assert_eq!(h.interface_status(), LinkState::Connected);
    assert_eq!(h.interface_status_tag(), "up");
    let fx = h.post_event(WfxEvent::Disconnect { reason: 1 }, 0, 0, &[], now_ms(0));
    assert_eq!(fx.sta_connected, Some(false));
    assert_eq!(h.interface_status(), LinkState::Disconnected);
    assert!(h.poll_disconnect_pending());
    assert!(!h.poll_disconnect_pending());
    assert_eq!(h.connect_callback(FmacStatus::Other(9)), None);
    assert_eq!(h.poll_connect_result(), ConnectResult::Error);
}

#[test]
fn error_event_flags_the_host() {
    let mut h = WfxHost::new();
    h.post_event(WfxEvent::Error { error: 3 }, 0, 0, &[], now_ms(0));
    assert_eq!(h.interface_status(), LinkState::WFXError);
    assert!(h.poll_wfx_err_pending());
    assert!(!h.poll_wfx_err_pending());
    assert_eq!(h.poll_connect_result(), ConnectResult::Error);
}

#[test]
fn link_state_changes() {
    let mut h = WfxHost::new();
    assert_eq!(h.interface_status_tag(), "E1");
    h.hold_in_reset();
    assert_eq!(h.interface_status_tag(), "off");
    h.deinit_bus();
    assert_eq!(h.interface_status_tag(), "busy1");
    h.start_init();
    assert_eq!(h.interface_status_tag(), "busy2");
    h.finish_init(&[1, 2, 3, 4, 5, 6]);
    assert_eq!(h.net_state.mac, [1, 2, 3, 4, 5, 6]);
    h.reset_chip();
    assert_eq!(h.interface_status(), LinkState::Uninitialized);
    assert_eq!(h.net_state.mac, [0u8; 6]);
}

#[test]
fn dhcp_needs_a_link() {
    let mut h = WfxHost::new();
    let mut pbuf = [0u8; 400];
    assert_eq!(h.dhcp_do_next(&mut pbuf, now_ms(0)), Err(0x20));
    assert_eq!(h.get_rssi(Some(100)), Err(0x20));
    h.connect_callback(FmacStatus::Success);
    assert_eq!(h.get_rssi(Some(100)), Ok(50));
    assert_eq!(h.get_rssi(None), Err(0x01));
    // the client is halted until it is reset
    assert_eq!(h.dhcp_do_next(&mut pbuf, now_ms(0)), Ok(None));
    assert_eq!(h.dhcp_reset(), Ok(()));
    assert_eq!(h.dhcp_get_state(), State::Init);
    assert_eq!(h.dhcp_do_next(&mut pbuf, now_ms(10)), Ok(Some(342)));
    assert_eq!(h.dhcp_get_state(), State::Selecting);
    assert_eq!(&pbuf[0..6], &[255u8; 6]);
    h.dhcp_handle_link_drop();
    assert_eq!(h.dhcp_get_state(), State::Halted);
    assert_eq!(h.dhcp_pop_and_ack_change_event(), Some(DhcpEvent::ChangedToHalted));
    assert_eq!(h.dhcp_pop_and_ack_change_event(), None);
}

#[test]
fn prng_passthrough() {
    let mut h = WfxHost::new();
    h.reseed_net_prng(&[1, 2, 3, 4, 5, 6, 7, 8]);
    assert_eq!(h.net_prng_rand(), 0x7fd4_a652);
}

#[test]
fn received_frames_queue_only_when_bound_and_bridged() {
    let mut h = WfxHost::new();
    h.init_pkt_buf();
    let mut tcp = vec![0u8; 12];
    tcp.extend_from_slice(&[0x08, 0x00]);
    let mut ip = vec![0x45, 0, 0, 40, 0, 1, 0x40, 0, 64, 6, 0, 0, 10, 0, 0, 1, 10, 0, 0, 2];
    let mut sum: u32 = 0;
    for i in (0..20).step_by(2) {
        sum += ((ip[i] as u32) << 8) | ip[i + 1] as u32;
    }
    while sum > 0xffff {
        sum = (sum & 0xffff) + (sum >> 16);
    }
    let ck = !(sum as u16);
    ip[10] = (ck >> 8) as u8;
    ip[11] = ck as u8;
    tcp.extend_from_slice(&ip);
    tcp.extend_from_slice(&[0u8; 20]);
    // not bound: the frame is classified but not queued
    assert_eq!(h.received_frame(&tcp, now_ms(0)), FilterBin::ComFwd);
    assert_eq!(h.peek_get_packet(), None);
    h.net_state.dhcp.ip = Some(0x0a00_0002);
    let fx = h.post_event(WfxEvent::Received { frame_type: 0, frame: tcp.clone() }, 1, 100, &[], now_ms(0));
    assert_eq!(fx.filter_bin, Some(FilterBin::ComFwd));
    let p = h.peek_get_packet().unwrap();
    assert_eq!((p.start(), p.end()), (0, tcp.len()));
    assert_eq!(&h.pkt_mem[0..tcp.len()], &tcp[..]);
    assert_eq!(h.poll_new_avail(), Some(tcp.len() as u16));
    h.dequeue_packet();
    assert_eq!(h.peek_get_packet(), None);
    h.set_com_net_bridge_enable(false);
    assert_eq!(h.received_frame(&tcp, now_ms(0)), FilterBin::ComFwd);
    assert_eq!(h.peek_get_packet(), None);
    // frames of another type are not filtered
    let fx = h.post_event(WfxEvent::Received { frame_type: 1, frame: tcp.clone() }, 1, 100, &[], now_ms(0));
    assert_eq!(fx.filter_bin, None);
}

#[test]
fn dropped_packets_are_counted() {
    let mut h = WfxHost::new();
    assert!(!h.poll_new_dropped());
    h.drop_packet();
    h.drop_packet();
    assert!(h.poll_new_dropped());
    assert!(!h.poll_new_dropped());
    h.drop_packet();
    assert_eq!(h.get_packets_dropped(), 3);
    assert!(!h.poll_new_dropped());
}

#[test]
fn forward_events_raises_each_pending_interrupt() {
    let mut h = WfxHost::new();
    let mut ints = ComInterrupts::new();
    ints.set_mask(0xffff);
    h.packet_buf.get_enqueue_slice(60).unwrap();
    h.drop_packet();
    h.disconnect_pending = true;
    h.scan_result(&ssid32(b"x"), 1, 0);
    h.scan_complete();
    h.connect_callback(FmacStatus::ConnectionTimeout);
    let r = h.forward_events(&mut ints);
    assert_eq!(r, ConnectResult::Timeout);
    let st = ints.get_state();
    assert_eq!(
        st[0],
        INT_WLAN_RX_READY
            | INT_WLAN_RX_ERROR
            | INT_WLAN_DISCONNECT
            | INT_WLAN_SSID_UPDATE
            | INT_WLAN_SSID_FINISHED
            | INT_WLAN_CONNECT_EVENT
    );
    // the join result code takes the Rx length word
    assert_eq!(st[1], 2);
    // every flag was consumed
    let mut ints2 = ComInterrupts::new();
    ints2.set_mask(0xffff);
    assert_eq!(h.forward_events(&mut ints2), ConnectResult::Pending);
    assert_eq!(ints2.get_state(), [0, 0]);
}

#[test]
fn ipv4_config_report() {
    let mut h = WfxHost::new();
    h.finish_init(&[9, 8, 7, 6, 5, 4]);
    let c = h.com_ipv4_config();
    assert_eq!(c.dhcp, State::Halted);
    assert_eq!(c.mac, [9, 8, 7, 6, 5, 4]);
    assert_eq!(c.addr, [0; 4]);
    h.net_state.dhcp.ip = Some(0xc0a8_0105);
    h.net_state.dhcp.subnet = Some(0xffff_ff00);
    h.net_state.dhcp.gateway = Some(0xc0a8_0101);
    h.net_state.dhcp.dns = Some(0x0101_0101);
    let c = h.com_ipv4_config();
    assert_eq!(c.addr, [192, 168, 1, 5]);
    assert_eq!(c.mask, [255, 255, 255, 0]);
    assert_eq!(c.gtwy, [192, 168, 1, 1]);
    assert_eq!(c.dns1, [1, 1, 1, 1]);
    assert_eq!(c.dns2, [0; 4]);
}

#[test]
fn spi_bus_transfer_plans() {
    let w = sl_wfx_host_spi_transfer_no_cs_assert(false, &[0x0190, 0x0004], &[0xbeef]);
    assert_eq!(w, vec![WfxBusOp::Send(0x0190), WfxBusOp::Send(0x0004), WfxBusOp::Send(0xbeef)]);
    let r = sl_wfx_host_spi_transfer_no_cs_assert(true, &[0x0190], &[0, 0, 0]);
    assert_eq!(
        r,
        vec![WfxBusOp::Send(0x0190), WfxBusOp::Receive(0), WfxBusOp::Receive(1), WfxBusOp::Receive(2)]
    );
}

#[test]
fn c_string_length() {
    assert_eq!(strlen(b"0x1A\0junk"), 4);
    assert_eq!(strlen(b"\0"), 0);
    assert_eq!(strlen(b"ab\0\0"), 2);
}

#[test]
fn wf200_glue_decisions() {
    assert!(betrusted_ec::wf200::status_ok(0));
    assert!(!betrusted_ec::wf200::status_ok(1));
    assert!(betrusted_ec::wf200::drain_continues(0, 32, None));
    assert!(betrusted_ec::wf200::drain_continues(31, 32, Some(0)));
    assert!(!betrusted_ec::wf200::drain_continues(32, 32, Some(0)));
    assert!(!betrusted_ec::wf200::drain_continues(3, 32, Some(0x21)));
    assert!(betrusted_ec::wf200::pds_sent(255, Some(0)));
    assert!(!betrusted_ec::wf200::pds_sent(256, None));
    assert!(!betrusted_ec::wf200::pds_sent(10, Some(5)));
    let mut s = betrusted_ec::com_dispatch::EcComState::new(0);
    s.use_wifi = false;
    s.wifi_reset_done(false);
    assert!(s.use_wifi && !s.wifi_ready);
    assert!(!s.wifi_events_enabled());
    s.wifi_reset_done(true);
    assert!(s.wifi_events_enabled());
}
