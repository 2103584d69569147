use betrusted_ec::com::{
    ConnectResult, INT_BATTERY_CRITICAL, INT_WLAN_CONNECT_EVENT, INT_WLAN_DISCONNECT,
    INT_WLAN_IPCONF_UPDATE, INT_WLAN_RX_ERROR, INT_WLAN_RX_READY, INT_WLAN_SSID_FINISHED,
    INT_WLAN_SSID_UPDATE, INT_WLAN_TX_ERROR,
};
use betrusted_ec::com_bus::ComInterrupts;
use betrusted_ec::pkt_buf::{PktBuf, MAX_PKTS, PKT_BUF_LEN};
use betrusted_ec::str_buf::{StrBuf, StrBufFull};
use betrusted_ec::uart::{rx_byte, RxState};
use betrusted_ec::uart::{tx_after_wait, tx_flow, TxFlow};

#[test]
fn pkt_buf_fifo_order_and_windows() {
    let mut pb = PktBuf::new();
    assert!(pb.init());
    assert!(!pb.init());
    assert_eq!(pb.peek_dequeue_slice(), None);
    let a = pb.get_enqueue_slice(100).unwrap();
    assert_eq!((a.start(), a.end()), (0, 100));
    let b = pb.get_enqueue_slice(50).unwrap();
    assert_eq!((b.start(), b.end()), (100, 150));
    let head = pb.peek_dequeue_slice().unwrap();
    assert_eq!((head.start(), head.end()), (0, 100));
    assert!(pb.dequeue());
    let head = pb.peek_dequeue_slice().unwrap();
    assert_eq!((head.start(), head.end()), (100, 150));
    assert!(pb.dequeue());
    assert!(!pb.dequeue());
    assert_eq!(pb.peek_dequeue_slice(), None);
}

#[test]
fn pkt_buf_wraps_to_front_when_back_is_full() {
    let mut pb = PktBuf::new();
    let a = pb.get_enqueue_slice(1000).unwrap();
    assert_eq!(a.start(), 0);
    let b = pb.get_enqueue_slice(PKT_BUF_LEN - 1000 - 10).unwrap();
    assert_eq!((b.start(), b.end()), (1000, PKT_BUF_LEN - 10));
    // no room at the back, and the oldest packet still sits at the front
    assert_eq!(pb.get_enqueue_slice(500), None);
    assert!(pb.dequeue());
    // now the front is free up to the oldest packet, at 1000
    let c = pb.get_enqueue_slice(500).unwrap();
    assert_eq!((c.start(), c.end()), (0, 500));
}

#[test]
fn pkt_buf_wrapped_queue_never_overwrites_the_oldest_packet() {
    let mut pb = PktBuf::new();
    pb.get_enqueue_slice(100).unwrap();
    pb.get_enqueue_slice(24376).unwrap();
    assert!(pb.dequeue());
    let a = pb.get_enqueue_slice(50).unwrap();
    assert_eq!((a.start(), a.end()), (24476, 24526));
    let b = pb.get_enqueue_slice(80).unwrap();
    assert_eq!((b.start(), b.end()), (0, 80));
    // after the wrap only 20 bytes remain before the oldest packet at 100
    assert_eq!(pb.get_enqueue_slice(30), None);
    let c = pb.get_enqueue_slice(19).unwrap();
    assert_eq!((c.start(), c.end()), (80, 99));
    let head = pb.peek_dequeue_slice().unwrap();
    assert_eq!((head.start(), head.end()), (100, 24476));
}

#[test]
fn pkt_buf_slot_limit() {
    let mut pb = PktBuf::new();
    for i in 0..MAX_PKTS {
        let p = pb.get_enqueue_slice(10).unwrap();
        assert_eq!(p.start(), 10 * i);
    }
    assert_eq!(pb.get_enqueue_slice(10), None);
    assert!(pb.dequeue());
    assert!(pb.get_enqueue_slice(10).is_some());
}

#[test]
fn pkt_buf_poll_reports_once_until_queue_changes() {
    let mut pb = PktBuf::new();
    assert_eq!(pb.poll_new_avail(), None);
    pb.get_enqueue_slice(64).unwrap();
    pb.get_enqueue_slice(32).unwrap();
    assert_eq!(pb.poll_new_avail(), Some(64));
    assert_eq!(pb.poll_new_avail(), None);
    assert!(pb.dequeue());
    assert_eq!(pb.poll_new_avail(), Some(32));
    assert_eq!(pb.poll_new_avail(), None);
    pb.get_enqueue_slice(8).unwrap();
    assert_eq!(pb.poll_new_avail(), Some(32));
}

#[test]
fn com_interrupts_status_shows_enabled_pending_events() {
    let mut ci = ComInterrupts::new();
    assert_eq!(ci.get_state(), [0, 0]);
    ci.set_rx_ready(123);
    // nothing enabled yet
    assert_eq!(ci.get_state(), [0, 123]);
    assert!(!ci.update_irq_pin());
    ci.set_mask(INT_WLAN_RX_READY | INT_WLAN_DISCONNECT);
    assert_eq!(ci.get_mask(), INT_WLAN_RX_READY | INT_WLAN_DISCONNECT);
    assert_eq!(ci.get_state(), [INT_WLAN_RX_READY, 123]);
    // a new mask makes the line drop once so that the host sees a fresh edge
    assert!(!ci.update_irq_pin());
    assert!(ci.update_irq_pin());
    ci.ack(INT_WLAN_RX_READY);
    assert_eq!(ci.get_state(), [0, 123]);
    assert!(!ci.update_irq_pin());
}

#[test]
fn com_interrupts_second_packet_retriggers() {
    let mut ci = ComInterrupts::new();
    ci.set_mask(INT_WLAN_RX_READY);
    ci.update_irq_pin();
    ci.set_rx_ready(10);
    assert!(ci.update_irq_pin());
    ci.set_rx_ready(20);
    assert_eq!(ci.get_state(), [INT_WLAN_RX_READY, 20]);
    assert!(!ci.update_irq_pin());
    assert!(ci.update_irq_pin());
    ci.ack_rx_ready();
    assert_eq!(ci.get_state(), [0, 0]);
}

#[test]
fn com_interrupts_connect_result_keeps_its_code() {
    let mut ci = ComInterrupts::new();
    ci.set_mask(0xffff);
    ci.set_connect_result(ConnectResult::AuthFail);
    assert_eq!(ci.get_state(), [INT_WLAN_CONNECT_EVENT, 4]);
    // a packet arriving before the host read the result does not overwrite the code
    ci.set_rx_ready(77);
    assert_eq!(ci.get_state(), [INT_WLAN_CONNECT_EVENT | INT_WLAN_RX_READY, 4]);
    ci.ack_rx_ready();
    assert_eq!(ci.get_state(), [INT_WLAN_CONNECT_EVENT, 4]);
    ci.ack_connect_result();
    assert_eq!(ci.get_state()[0], 0);
}

#[test]
fn com_interrupts_each_event_sets_and_clears_its_bit() {
    let mut ci = ComInterrupts::new();
    ci.set_mask(0xffff);
    ci.set_disconnect();
    ci.set_ipconf_update();
    ci.set_ssid_update();
    ci.set_ssid_finished();
    ci.set_battery_critical();
    ci.set_tx_error();
    ci.set_rx_error();
    let all = INT_WLAN_DISCONNECT
        | INT_WLAN_IPCONF_UPDATE
        | INT_WLAN_SSID_UPDATE
        | INT_WLAN_SSID_FINISHED
        | INT_BATTERY_CRITICAL
        | INT_WLAN_TX_ERROR
        | INT_WLAN_RX_ERROR;
    assert_eq!(ci.get_state()[0], all);
    ci.ack_disconnect();
    ci.ack_ipconf_update();
    ci.ack_ssid_update();
    assert_eq!(ci.get_state()[0], INT_WLAN_SSID_FINISHED | INT_BATTERY_CRITICAL | INT_WLAN_TX_ERROR | INT_WLAN_RX_ERROR);
    ci.ack_ssid_finished();
    ci.ack_battery_critical();
    ci.ack_tx_error();
    ci.ack_rx_error();
    assert_eq!(ci.get_state()[0], 0);
}

#[test]
fn connect_result_codes() {
    assert_eq!(ConnectResult::Success.code(), 0);
    assert_eq!(ConnectResult::NoMatchingAp.code(), 1);
    assert_eq!(ConnectResult::Timeout.code(), 2);
    assert_eq!(ConnectResult::Pending.code(), 7);
}

fn feed(state: &mut RxState, bytes: &[u8]) -> Vec<u8> {
    bytes.iter().filter_map(|b| rx_byte(state, *b)).collect()
}

#[test]
fn uart_wake_sequences() {
    for seq in [&b"AT\r\nxy"[..], &b"AT\rxy"[..], &b"AT\nxy"[..]] {
        let mut s = RxState::BypassOnAwaitA;
        let out = feed(&mut s, seq);
        assert_eq!(s, RxState::BypassOff);
        // the line end byte that completes the sequence is consumed; every later byte passes
        assert_eq!(out.len(), seq.len() - 3);
    }
    let mut s = RxState::BypassOnAwaitA;
    assert_eq!(feed(&mut s, b"AT\r\nhello"), b"\nhello".to_vec());
}

#[test]
fn uart_wake_tolerates_repeated_a_and_rejects_lowercase() {
    let mut s = RxState::BypassOnAwaitA;
    assert!(feed(&mut s, b"AAT").is_empty());
    assert_eq!(s, RxState::ExpectCROrLF);
    let mut t = RxState::BypassOnAwaitA;
    assert!(feed(&mut t, b"at\r\nzzz").is_empty());
    assert_eq!(t, RxState::BypassOnAwaitA);
    let mut u = RxState::BypassOff;
    assert_eq!(rx_byte(&mut u, b'q'), Some(b'q'));
}

#[test]
fn str_buf_appends_until_full() {
    let mut sb: StrBuf<8> = StrBuf::new();
    assert_eq!(sb.len(), 0);
    assert_eq!(sb.write_str("abc"), Ok(()));
    assert_eq!(sb.write_str("defg"), Ok(()));
    assert_eq!(sb.as_str().unwrap(), "abcdefg");
    assert_eq!(sb.write_str("hi"), Err(StrBufFull));
    assert_eq!(sb.bytes(), b"abcdefg");
    assert_eq!(sb.write_str("h"), Ok(()));
    assert_eq!(sb.len(), 8);
    assert_eq!(sb.as_str().unwrap(), "abcdefgh");
}

#[test]
fn str_buf_multibyte_text() {
    let mut sb: StrBuf<4> = StrBuf::new();
    assert_eq!(sb.write_str("é"), Ok(()));
    assert_eq!(sb.len(), 2);
    assert_eq!(sb.as_str().unwrap(), "é");
    assert_eq!(sb.write_str("€"), Err(StrBufFull));
}

#[test]
fn uart_tx_flow_control_mutes_until_buffer_empties() {
    let mut muted = false;
    assert_eq!(tx_flow(&mut muted, false, false), TxFlow::Send);
    assert_eq!(tx_flow(&mut muted, false, true), TxFlow::AwaitDrain);
    assert!(!tx_after_wait(&mut muted, true));
    assert!(muted);
    assert_eq!(tx_flow(&mut muted, false, true), TxFlow::Drop);
    assert_eq!(tx_flow(&mut muted, false, false), TxFlow::Drop);
    assert_eq!(tx_flow(&mut muted, true, false), TxFlow::Send);
    assert!(!muted);
    assert!(tx_after_wait(&mut muted, false));
    assert!(!muted);
}

#[test]
fn str_buf_reads_back_the_concatenation_of_writes() {
    let mut b: StrBuf<16> = StrBuf::new();
    assert_eq!(b.as_str().unwrap(), "");
    assert!(b.write_str("ab").is_ok());
    assert!(b.write_str("é").is_ok());
    assert!(b.write_str("cd").is_ok());
    assert_eq!(b.as_str().unwrap(), "abécd");
    assert_eq!(b.len(), 6);
    assert_eq!(b.bytes(), "abécd".as_bytes());
}
