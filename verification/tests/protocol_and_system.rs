use betrusted_ec::com_proto::{
    backlight_levels, flash_verify_address, le_bytes_of_words, le_words, len_prefixed_words,
    loop_test_reply, net_frame_fetch_words, net_frame_from_words, rssi_word, sane_capacity,
    u32_from_words, uptime_words, words_of_bytes,
};
use betrusted_ec::comstates::ComState;
use betrusted_ec::hal_time::{TimeMs, TimeMsErr};
use betrusted_ec::image::{
    ec_flash_image, ec_update_image, image_tail, seal_image, update_image, wf200_update_image,
    HEADER_LEN,
};
use betrusted_ec::net::timers::{
    Countdown, CountdownStatus, RetryStatus, RetryTimer, Stopwatch, StopwatchErr,
};
use betrusted_ec::pac::{Peripherals, I2C, RGB, TICKTIMER};
use betrusted_ec::xous::{IrqTable, XousError};
use betrusted_ec::hal_time::{delay_ms_capped, delay_ticks_done, msleep_target};
use betrusted_ec::uart::RxState;
use betrusted_ec::com_dispatch::{
    arg_words, com_step, console_step, dhcp_event_effect, tap_phase_next, tap_read_needed, ComAction, ComCommand,
    ConsoleAction, EcComState,
};
use betrusted_ec::net::dhcp::DhcpEvent;

fn hex(s: &str) -> Vec<u8> {
    (0..s.len()).step_by(2).map(|i| u8::from_str_radix(&s[i..i + 2], 16).unwrap()).collect()
}

#[test]
fn com_word_helpers() {
    assert_eq!(words_of_bytes(0), 0);
    assert_eq!(words_of_bytes(5), 3);
    assert_eq!(words_of_bytes(6), 3);
    assert_eq!(backlight_levels(0b11_01010_10101), (0b10101, 0b01010));
    assert_eq!(sane_capacity(1100), 1100);
    assert_eq!(sane_capacity(600), 1100);
    assert_eq!(sane_capacity(601), 601);
    assert_eq!(sane_capacity(1899), 1899);
    assert_eq!(sane_capacity(1900), 1100);
    assert_eq!(loop_test_reply(0x4012, 0xab34), 0x3412);
    assert_eq!(rssi_word(Ok(0x1_0055)), 0x55);
    assert_eq!(rssi_word(Err(0x20)), 0x2000);
    assert_eq!(uptime_words(0x0001_0002_0003_0004), [4, 3, 2, 1]);
    assert_eq!(u32_from_words(0x1234, 0x5678), 0x1234_5678);
}

#[test]
fn flash_verify_address_clamps_and_aligns() {
    assert_eq!(flash_verify_address(0x2000_1003), 0x2000_1000);
    assert_eq!(flash_verify_address(0x1000_0007), 0x1000_0004);
    assert_eq!(flash_verify_address(0x0000_0100), 0x2000_0000);
    assert_eq!(flash_verify_address(0x1002_0000), 0x2000_0000);
    assert_eq!(flash_verify_address(0x2100_0000), 0x2000_0000);
    assert_eq!(flash_verify_address(0xe000_7fff), 0xe000_7ffc);
    assert_eq!(flash_verify_address(0xe000_8000), 0x2000_0000);
}

#[test]
fn com_frame_words_round_trip() {
    let packet = [1u8, 2, 3, 4, 5];
    let words = net_frame_fetch_words(&packet);
    assert_eq!(words, vec![0x0102, 0x0304, 0x0500]);
    let back = net_frame_from_words(5, &words).unwrap();
    assert_eq!(back, packet.to_vec());
    let too_long = vec![0u16; 751];
    assert_eq!(net_frame_from_words(1501, &too_long), None);
    let max = vec![0x4142u16; 750];
    assert_eq!(net_frame_from_words(1500, &max).unwrap().len(), 1500);
}

#[test]
fn com_little_endian_words() {
    assert_eq!(le_words(&[0x34, 0x12, 0x78, 0x56]), vec![0x1234, 0x5678]);
    assert_eq!(le_bytes_of_words(&[0x1234, 0x5678]), vec![0x34, 0x12, 0x78, 0x56]);
    assert_eq!(len_prefixed_words(b"abc", 4), vec![3, 0x6261, 0x63, 0]);
    assert_eq!(len_prefixed_words(b"abcdef", 2), vec![6, 0x6261]);
}

#[test]
fn com_state_verbs() {
    let s = ComState::ssid_fetch();
    assert_eq!((s.verb, s.w_words, s.r_words, s.response), (0x2100, 0, 96, false));
    assert_eq!(ComState::ssid_check().verb, 0x2000);
    assert_eq!(ComState::flash_waitack().verb, 0x3000);
    assert_eq!(ComState::error().verb, 0xdead);
    assert!(ComState::error().response);
}

#[test]
fn update_images_are_hashed_with_sha512_256() {
    let img = wf200_update_image(b"abc");
    assert_eq!(img.len(), HEADER_LEN + 3);
    assert_eq!(&img[..32], &hex("f200ab619dafdc545ce9aed2f56610c0597160e3d69c247312b1655dd442ebe5")[..]);
    assert_eq!(&img[32..36], b"wf20");
    assert_eq!(&img[36..40], &[1, 0, 0, 0]);
    assert_eq!(&img[40..44], &[3, 0, 0, 0]);
    assert!(img[44..HEADER_LEN].iter().all(|b| *b == 0xff));
    assert_eq!(&img[HEADER_LEN..], b"abc");
    let ec = ec_update_image(&[1, 1, 1], &[2, 2], &[3]);
    assert_eq!(&ec[..32], &hex("43b8f9e0d624e9971757d639f080e3bb702670fb473e5b97c9a117923500d947")[..]);
    assert_eq!(&ec[32..36], b"prec");
    assert_eq!(&ec[HEADER_LEN..], &[1, 1, 1, 2, 2, 3]);
    // the digest is not a copy of its input
    let u = update_image(*b"wf20", b"abc");
    assert_eq!(u, img);
    assert_ne!(&u[..32], &u[32..64]);
}

#[test]
fn image_parts() {
    assert_eq!(ec_flash_image(&[1], &[2, 3], &[]), vec![1, 2, 3]);
    let t = image_tail(*b"abcd", &[9]);
    assert_eq!(t.len(), HEADER_LEN - 32 + 1);
    let s = seal_image([7u8; 32], &t);
    assert_eq!(&s[..32], &[7u8; 32]);
    assert_eq!(&s[32..], &t[..]);
}

#[test]
fn xous_interrupt_claim_free_and_dispatch() {
    let mut t: IrqTable<u8> = IrqTable::new();
    assert_eq!(t.sys_interrupt_claim(32, 1), Err(XousError::InterruptNotFound));
    assert_eq!(t.sys_interrupt_claim(3, 10), Ok(()));
    assert_eq!(t.sys_interrupt_claim(3, 11), Err(XousError::InterruptInUse));
    assert_eq!(t.sys_interrupt_claim(5, 12), Ok(()));
    assert_eq!(t.mask, 0b10_1000);
    let calls = t.handle(0b10_1010);
    assert_eq!(calls, vec![(3, 10), (5, 12)]);
    // line 1 was pending without a handler: it gets masked
    assert_eq!(t.mask, 0b10_1000);
    assert_eq!(t.sys_interrupt_free(3), Ok(()));
    assert_eq!(t.mask, 0b10_0000);
    assert_eq!(t.sys_interrupt_free(40), Err(XousError::InterruptNotFound));
    // an interrupt nobody claimed (any more) is not assigned: freeing it is an error
    assert_eq!(t.sys_interrupt_free(3), Err(XousError::InterruptNotFound));
    assert_eq!(t.sys_interrupt_free(0), Err(XousError::InterruptNotFound));
    assert_eq!(t.mask, 0b10_0000);
    assert_eq!(t.sys_interrupt_claim(3, 13), Ok(()));
    assert_eq!(t.sys_interrupt_free(3), Ok(()));
    assert_eq!(t.handle(0b1000), Vec::<(usize, u8)>::new());
}

#[test]
fn peripherals_are_taken_once() {
    let mut taken = false;
    assert!(Peripherals::take(&mut taken).is_some());
    assert!(taken);
    assert!(Peripherals::take(&mut taken).is_none());
    let _p = Peripherals::steal(&mut taken);
    assert_eq!(RGB::ptr(), 0x8000_6800);
    assert!(I2C::ptr() >= 0x8000_0000);
    assert!(TICKTIMER::ptr() >= 0x8000_0000);
}

#[test]
fn timestamps_add_compare_and_subtract() {
    let t = TimeMs::from_words(0xffff_ff00, 0);
    let u = t.add_ms(0x200);
    assert_eq!((u.ms_high_word(), u.ms_low_word()), (1, 0x100));
    assert!(u.is_after(&t));
    assert!(u.is_at_or_after(&u));
    assert!(!t.is_after(&u));
    assert_eq!(u.sub_u32(&t), Ok(0x200));
    assert_eq!(t.sub_u32(&u), Err(TimeMsErr::Underflow));
    let far = TimeMs::from_words(0, 2);
    assert_eq!(far.sub_u32(&TimeMs::from_words(0, 0)), Err(TimeMsErr::Overflow));
    let s = TimeMs::from_words(1000, 0).add_s(3);
    assert_eq!(s.ms_low_word(), 4000);
}

#[test]
fn countdown_and_stopwatch() {
    let mut c = Countdown::new();
    let t0 = TimeMs::from_words(100, 0);
    assert_eq!(c.status(t0), CountdownStatus::NotStarted);
    c.start(t0, 50);
    assert_eq!(c.status(TimeMs::from_words(149, 0)), CountdownStatus::NotDone);
    assert_eq!(c.status(TimeMs::from_words(150, 0)), CountdownStatus::Done);
    c.clear();
    assert_eq!(c.status(t0), CountdownStatus::NotStarted);
    let mut sw = Stopwatch::new();
    assert_eq!(sw.elapsed_ms(t0), Err(StopwatchErr::NotStarted));
    sw.start(t0);
    assert_eq!(sw.elapsed_ms(TimeMs::from_words(1600, 0)), Ok(1500));
    assert_eq!(sw.elapsed_s(TimeMs::from_words(1600, 0)), Ok(2));
    assert_eq!(sw.elapsed_s(TimeMs::from_words(1599, 0)), Ok(1));
    assert_eq!(sw.elapsed_ms(TimeMs::from_words(50, 0)), Err(StopwatchErr::Underflow));
    sw.reset();
    assert_eq!(sw.elapsed_s(t0), Err(StopwatchErr::NotStarted));
}

#[test]
fn retry_timer_backs_off_then_halts() {
    let t0 = TimeMs::from_words(0, 0);
    let mut r = RetryTimer::new_first_random(0, t0);
    assert_eq!(r.status(TimeMs::from_words(1000, 0)), RetryStatus::TimerRunning);
    assert_eq!(r.status(TimeMs::from_words(1001, 0)), RetryStatus::TimerExpired);
    r.schedule_next(0, TimeMs::from_words(1001, 0));
    assert_eq!(r.status(TimeMs::from_words(4001, 0)), RetryStatus::TimerRunning);
    assert_eq!(r.status(TimeMs::from_words(4002, 0)), RetryStatus::TimerExpired);
    r.schedule_next(0x0000_0080, TimeMs::from_words(5000, 0));
    // 7000 ms plus the offset drawn from bits 14.. of the entropy (zero here)
    assert_eq!(r.status(TimeMs::from_words(12000, 0)), RetryStatus::TimerRunning);
    assert_eq!(r.status(TimeMs::from_words(12001, 0)), RetryStatus::TimerExpired);
    r.schedule_next(0, TimeMs::from_words(0, 0));
    r.schedule_next(0, TimeMs::from_words(0, 0));
    assert_eq!(r.status(TimeMs::from_words(0, 0)), RetryStatus::Halted);
    let h = RetryTimer::new_halted();
    assert_eq!(h.status(t0), RetryStatus::Halted);
}

#[test]
fn busy_wait_helpers() {
    assert_eq!(delay_ms_capped(10), 10);
    assert_eq!(delay_ms_capped(238), 238);
    assert_eq!(delay_ms_capped(5000), 238);
    assert_eq!(msleep_target(0x1_ffff_fff0, 0x20), (2, 0x10));
    assert_eq!(msleep_target(100, 50), (0, 150));
    assert!(!delay_ticks_done(100, 150, 50));
    assert!(delay_ticks_done(100, 151, 50));
    // the counter has not moved yet: treated as a roll-over
    assert!(delay_ticks_done(100, 100, 50));
    assert!(delay_ticks_done(0xffff_fff0, 0x40, 0x40));
    assert!(!delay_ticks_done(0xffff_fff0, 0x10, 0x40));
}

#[test]
fn com_dispatch_commands() {
    let mut s = EcComState::new(0);
    // loop test: low byte of the verb, sentinel above, sentinel counts
    match com_step(&mut s, ComCommand::LoopTest { rx: 0x4000 }, &[]) {
        ComAction::Reply(w) => assert_eq!(w, vec![0x0000]),
        _ => panic!("loop test must reply"),
    }
    match com_step(&mut s, ComCommand::LoopTest { rx: 0x4012 }, &[]) {
        ComAction::Reply(w) => assert_eq!(w, vec![0x0112]),
        _ => panic!("loop test must reply"),
    }
    assert_eq!(s.com_sentinel, 2);
    // ping
    match com_step(&mut s, ComCommand::LinkPing, &[Some(0x1234)]) {
        ComAction::Reply(w) => assert_eq!(w, vec![!0x1234u16, 0x600d]),
        _ => panic!(),
    }
    match com_step(&mut s, ComCommand::LinkPing, &[None]) {
        ComAction::Reply(w) => assert_eq!(w, vec![0xEEEE, 0xFFFF]),
        _ => panic!(),
    }
    // design capacity is sanitized; a missing word is an error reply
    assert!(matches!(com_step(&mut s, ComCommand::GgFactoryCapacity, &[Some(2000)]), ComAction::SetDesignCapacity(1100)));
    assert!(matches!(com_step(&mut s, ComCommand::GgFactoryCapacity, &[Some(1200)]), ComAction::SetDesignCapacity(1200)));
    match com_step(&mut s, ComCommand::GgFactoryCapacity, &[None]) {
        ComAction::Reply(w) => assert_eq!(w, vec![0xDEAD]),
        _ => panic!(),
    }
    // flash erase: big-endian address and length
    assert_eq!(arg_words(ComCommand::FlashErase), 4);
    assert_eq!(betrusted_ec::com_dispatch::arg_timeout_ms(ComCommand::FlashErase), 100);
    assert_eq!(betrusted_ec::com_dispatch::arg_timeout_ms(ComCommand::NetFrameSend { rx: 5 }), 200);
    assert_eq!(betrusted_ec::com_dispatch::arg_timeout_ms(ComCommand::Wf200Reset), 250);
    assert_eq!(betrusted_ec::com_dispatch::arg_timeout_ms(ComCommand::LinkPing), 500);
    match com_step(&mut s, ComCommand::FlashErase, &[Some(0x2000), Some(0x1000), Some(0), Some(0x8000)]) {
        ComAction::EraseFlash { address, len } => assert_eq!((address, len), (0x2000_1000, 0x8000)),
        _ => panic!(),
    }
    assert!(matches!(
        com_step(&mut s, ComCommand::FlashErase, &[Some(0x2000), None, Some(0), Some(0x8000)]),
        ComAction::Nothing
    ));
    // page program: data words little-endian
    let mut pp = vec![Some(0x2000u16), Some(0x0100)];
    for i in 0..128u16 {
        pp.push(Some(0x0100 * (i % 256) + 7));
    }
    match com_step(&mut s, ComCommand::FlashPp, &pp) {
        ComAction::ProgramPage { address, page } => {
            assert_eq!(address, 0x2000_0100);
            assert_eq!(page.len(), 256);
            assert_eq!(&page[0..4], &[7, 0, 7, 1]);
        }
        _ => panic!(),
    }
    // verify read address is bounded and aligned
    assert!(matches!(
        com_step(&mut s, ComCommand::FlashVerify, &[Some(0x1000), Some(0x0007)]),
        ComAction::ReadMemory { address: 0x1000_0004 }
    ));
    assert!(matches!(com_step(&mut s, ComCommand::FlashVerify, &[None, None]), ComAction::ReadMemory { address: 0x2000_0000 }));
    // flash lock protocol
    assert!(s.periodic_tasks_enabled());
    assert!(matches!(com_step(&mut s, ComCommand::FlashLock, &[]), ComAction::Wf200Irq(false)));
    assert!(s.flash_update_lock);
    assert!(!s.periodic_tasks_enabled());
    assert!(s.com_gate(false, 5));
    match com_step(&mut s, ComCommand::FlashWaitack, &[]) {
        ComAction::Reply(w) => assert_eq!(w, vec![0x3CC3]),
        _ => panic!(),
    }
    assert!(matches!(com_step(&mut s, ComCommand::FlashUnlock, &[]), ComAction::Wf200Irq(true)));
    assert!(!s.flash_update_lock);
    // backlight levels from the verb
    assert!(matches!(
        com_step(&mut s, ComCommand::Backlight { rx: 0x6800 | (3 << 5) | 17 }, &[]),
        ComAction::SetBacklight { main: 17, sec: 3 }
    ));
    // WF200 reset: 0 or missing is a momentary reset, anything else holds it
    assert!(matches!(com_step(&mut s, ComCommand::Wf200Reset, &[Some(0)]), ComAction::Wf200ResetAndInit));
    assert!(matches!(com_step(&mut s, ComCommand::Wf200Reset, &[None]), ComAction::Wf200ResetAndInit));
    assert!(matches!(com_step(&mut s, ComCommand::WlanOn, &[]), ComAction::Wf200ResetAndInit));
    assert!(matches!(com_step(&mut s, ComCommand::Wf200Reset, &[Some(1)]), ComAction::Wf200Hold));
    assert!(!s.use_wifi && !s.wifi_ready);
    // PDS line: length must be below 256
    let mut pds = vec![Some(255u16)];
    pds.extend(std::iter::repeat(Some(0x0201u16)).take(128));
    match com_step(&mut s, ComCommand::WfxPdsLineSet, &pds) {
        ComAction::PdsLine(Some((data, len))) => {
            assert_eq!(len, 255);
            assert_eq!(&data[0..2], &[1, 2]);
        }
        _ => panic!(),
    }
    pds[0] = Some(256);
    assert!(matches!(com_step(&mut s, ComCommand::WfxPdsLineSet, &pds), ComAction::PdsLine(None)));
    // frames from the host: big-endian words, sent only with the bridge on
    assert_eq!(arg_words(ComCommand::NetFrameSend { rx: 3 }), 2);
    match com_step(&mut s, ComCommand::NetFrameSend { rx: 3 }, &[Some(0x0102), Some(0x0300)]) {
        ComAction::SendFrame(f) => assert_eq!(f, vec![1, 2, 3]),
        _ => panic!(),
    }
    s.com_net_bridge_enable = false;
    assert!(matches!(com_step(&mut s, ComCommand::NetFrameSend { rx: 3 }, &[Some(0x0102), Some(0x0300)]), ComAction::Nothing));
    assert!(matches!(com_step(&mut s, ComCommand::NetFrameFetch { rx: 0x7 }, &[]), ComAction::FetchFrame { expected_words: 4 }));
    // queries go to the hardware, unknown verbs get the error word
    assert!(matches!(com_step(&mut s, ComCommand::GasGauge, &[]), ComAction::Serve(ComCommand::GasGauge)));
    match com_step(&mut s, ComCommand::Unknown, &[]) {
        ComAction::Reply(w) => assert_eq!(w, vec![0xDEAD]),
        _ => panic!(),
    }
}

#[test]
fn com_gate_and_console() {
    let mut s = EcComState::new(0);
    assert!(!s.com_gate(false, 1000));
    assert_eq!(s.soc_off_delay_timer, 1000);
    assert!(!s.com_gate(true, 1099));
    assert!(s.com_gate(true, 1100));
    let mut u = RxState::Waking;
    assert_eq!(console_step(&mut u, None, &mut s), ConsoleAction::Help);
    assert_eq!(u, RxState::BypassOff);
    assert_eq!(console_step(&mut u, Some(b'7'), &mut s), ConsoleAction::BridgeToggled(false));
    assert!(!s.com_net_bridge_enable);
    assert_eq!(console_step(&mut u, Some(b'3'), &mut s), ConsoleAction::UptimeMs);
    assert_eq!(console_step(&mut u, Some(0x1B), &mut s), ConsoleAction::Nothing);
    assert_eq!(u, RxState::BypassOnAwaitA);
}

#[test]
fn main_loop_tap_and_dhcp_decisions() {
    assert!(tap_read_needed(0) && tap_read_needed(1) && !tap_read_needed(2));
    assert_eq!(tap_phase_next(0, true), 1000);
    assert_eq!(tap_phase_next(0, false), 0);
    assert_eq!(tap_phase_next(1, true), 0);
    assert_eq!(tap_phase_next(500, false), 499);
    assert_eq!(dhcp_event_effect(Some(DhcpEvent::ChangedToBound)), Some(true));
    assert_eq!(dhcp_event_effect(Some(DhcpEvent::ChangedToHalted)), Some(false));
    assert_eq!(dhcp_event_effect(None), None);
}

#[test]
fn wlan_error_codes() {
    assert_eq!(betrusted_ec::com::WlanError::Assert.code(), 1);
    assert_eq!(betrusted_ec::com::WlanError::Timeout.code(), 2);
    assert_eq!(betrusted_ec::com::WlanError::StrLen.code(), 3);
    assert_eq!(betrusted_ec::com::WlanError::Utf8.code(), 4);
}
