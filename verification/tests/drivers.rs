use betrusted_ec::backlight::BtBacklight;
use betrusted_ec::bq25618::BtCharger;
use betrusted_ec::charger;
use betrusted_ec::gasgauge::{
    compute_checksum, design_capacity_of, gg_cfgupdate_ready, gg_set_byte_txbuf, gg_set_hibernate,
    gg_set_txbuf, gg_start, gg_voltage, gg_word, update_design_capacity,
};
use betrusted_ec::hardi2c::{
    i2c_controller, prescale, timed_out, I2cStep, CMD_READ_LAST, CMD_START_WRITE, CMD_STOP,
    CMD_WRITE, STATUS_BUSY, STATUS_SRW, STATUS_TIP, STATUS_TRRDY, CMD_RD,
};
use betrusted_ec::gyro::BtGyro;
use betrusted_ec::imu::{Imu, ImuWrite, CTRL2_G, MD1_CFG};
use betrusted_ec::power::{
    charger_round, shipmode_allowed, ChargerPhase, CurrentSample, PanicStep, PowerState,
    VoltageAction,
};
use betrusted_ec::spi::{
    assemble_msb_first, assemble_nibbles, bits_msb_first, cmd_4pp, cmd_4read, cmd_rdid, cmd_rdsr,
    cmd_se, cmd_wren, erase_or_program_failed, erase_plan, nibbles, spi_cmd, write_enabled,
    write_in_progress, EraseKind, SpiStep,
};
use betrusted_ec::usb_cc::BtUsbCc;
use betrusted_ec::hardi2c::{i2c_controller_read_ffi, i2c_controller_write_ffi};
use betrusted_ec::litex_i2c::{i2c_init, i2c_master, tip_timed_out, Hardi2c, LitexI2cStep};
use betrusted_ec::charger::{chg_is_charging, chg_status_read};
use betrusted_ec::gasgauge::{design_capacity_commit, design_capacity_unlock, GgStep};
use betrusted_ec::spi::{cmd_wrdi, flash_write_step, FlashBus, FlashWriteState};

#[test]
fn gas_gauge_commands_and_words() {
    assert_eq!(gg_set_txbuf(0x00, 0x1234), [0x00, 0x34, 0x12]);
    assert_eq!(gg_set_byte_txbuf(0x3e, 0x52), [0x3e, 0x52]);
    assert_eq!(gg_start(), [0x00, 0x12, 0x00]);
    assert_eq!(gg_set_hibernate(), [0x00, 0x11, 0x00]);
    assert_eq!(gg_word([0x10, 0x0e]), 3600);
    assert_eq!(gg_word([0xff, 0xff]), -1);
    assert_eq!(gg_word([0x00, 0x80]), -32768);
    assert_eq!(gg_voltage([0xac, 0x0d]), 3500);
    assert!(gg_cfgupdate_ready(0x10));
    assert!(!gg_cfgupdate_ready(0x0f));
    assert_eq!(design_capacity_of(0x04, 0x4c), 1100);
}

#[test]
fn gas_gauge_block_checksum() {
    let mut block = [0u8; 33];
    assert_eq!(compute_checksum(&block), 255);
    block[0] = 1;
    block[1] = 2;
    assert_eq!(compute_checksum(&block), 252);
    let mut all = [0xffu8; 33];
    // 32 * 255 = 8160, 8160 % 256 = 224
    assert_eq!(compute_checksum(&all), 31);
    block[10] = 0x05;
    block[11] = 0xdc;
    let old = update_design_capacity(&mut block, 1100);
    assert_eq!(old, 1500);
    assert_eq!(block[10], 0x04);
    assert_eq!(block[11], 0x4c);
    let sum: u32 = block.iter().map(|b| *b as u32).sum();
    assert_eq!(sum % 256, 255);
    let old2 = update_design_capacity(&mut all, 0x0102);
    assert_eq!(old2, 0xffff);
    let sum2: u32 = all.iter().map(|b| *b as u32).sum();
    assert_eq!(sum2 % 256, 255);
}

#[test]
fn bq24157_charger_writes() {
    assert!(charger::chg_is_charging(0x10));
    assert!(!charger::chg_is_charging(0x20));
    assert!(!charger::chg_is_charging(0x00));
    assert!(charger::chg_is_charging(0xd5));
    assert_eq!(charger::chg_keepalive_ping(), [0, 0xc0]);
    assert_eq!(charger::chg_set_safety(), [6, 0xb0]);
    assert_eq!(charger::chg_set_autoparams(), [[2, 0x8e], [5, 0x03], [4, 0x63]]);
    assert_eq!(charger::chg_start(), [1, 0xf8]);
}

#[test]
fn bq25618_charger_registers() {
    let mut c = BtCharger::new();
    assert_eq!(c.set_shipmode(), [0x07, 0x2c]);
    let tx = c.chg_set_autoparams();
    assert_eq!(tx, [0x00, 0x4e, 0x58, 0x19, 0x12, 0x44, 0x9a, 0xe6, 0x4b]);
    assert_eq!(c.registers[0..8], tx[1..9]);
    assert_eq!(c.chg_start(), [0x00, 0x4e, 0x58, 0x19]);
    assert_eq!(c.chg_boost(), [[0x07, 0x4b], [0x01, 0x66], [0x06, 0xf6]]);
    assert_eq!(c.registers[1], 0x66);
    assert_eq!(c.chg_boost_off(), [0x01, 0x58]);
    assert_eq!(c.chg_keepalive_ping(0x10), [0x01, 0x50]);
    // status register 0: charging bits 4:3
    assert!(c.chg_is_charging(Some(0b0000_1000)));
    assert!(c.chg_is_charging(Some(0b0001_0000)));
    assert!(!c.chg_is_charging(Some(0b0001_1000)));
    assert!(!c.chg_is_charging(Some(0)));
    let mut regs = [0u8; 12];
    regs[8] = 0b0001_0000;
    c.update_regs(&regs);
    assert!(c.chg_is_charging(None));
    c.chg_set_safety();
}

#[test]
fn backlight_register_writes() {
    let mut bl = BtBacklight::new();
    assert_eq!(BtBacklight::max_brightness(), 31);
    assert_eq!(bl.set_brightness(10, 40), [[0x10, 0xdb], [0xa0, 0xea], [0xb0, 0xff]]);
    assert_eq!(bl.set_brightness(0, 0), [[0xa0, 0xe0], [0xb0, 0xe0], [0x10, 0xd8]]);
    bl.set_rate_of_change(9);
    assert_eq!(bl.set_brightness(0, 1)[0], [0x10, 0xdb]);
    bl.set_rate_of_change(1);
    assert_eq!(bl.set_brightness(0, 1)[0], [0x10, 0xcb]);
    assert_eq!(bl.set_brightness(0, 0)[2], [0x10, 0xc8]);
}

#[test]
fn imu_sequence_and_readings() {
    let w = Imu::init_writes();
    assert_eq!(w.len(), 11);
    assert_eq!(w[0], ImuWrite { reg: CTRL2_G, val: 0x00, err_tag: 1, delay_ms: 0 });
    assert_eq!(w[2].delay_ms, 16);
    assert_eq!(w[10], ImuWrite { reg: MD1_CFG, val: 0x40, err_tag: 0xb, delay_ms: 0 });
    assert_eq!(Imu::access_result(&[None, Some(7), Some(9)], 3), Ok(7));
    assert_eq!(Imu::access_result(&[None, None, None], 3), Err(3));
    assert_eq!(Imu::accel_value(0x34, 0x12), 0x1234);
    assert!(Imu::single_tap(0x60));
    assert!(!Imu::single_tap(0x40));
    assert!(!Imu::single_tap(0x20));
}

#[test]
fn usb_cc_identification_and_status() {
    let mut cc = BtUsbCc::new();
    assert!(cc.check_id(&[0x30, 0x32, 0x33, 0x42, 0x53, 0x55, 0x54, 0x00]));
    assert!(!cc.check_id(&[0x30, 0x32, 0x33, 0x42, 0x53, 0x55, 0x54, 0x01]));
    assert!(BtUsbCc::check_revision(2));
    assert!(!BtUsbCc::check_revision(3));
    assert_eq!(BtUsbCc::init_writes(), [[0x09, 0x01], [0x0a, 0x12]]);
    cc.set_status(&[0, 0x80, 0]);
    assert!(cc.attached_snk());
    assert_eq!(cc.regchange_ack(), [0x09, 0x90]);
    cc.set_status(&[0, 0x40, 0]);
    assert!(!cc.attached_snk());
}

#[test]
fn power_voltage_filter_and_actions() {
    let mut p = PowerState::new(true);
    p.battery_update_voltage(3400);
    assert_eq!(p.voltage, 3400);
    p.battery_update_voltage(-5);
    assert_eq!(p.voltage, 3400);
    assert!(p.take_voltage_glitch());
    assert!(!p.take_voltage_glitch());
    assert_eq!(p.voltage_action(), VoltageAction::Panic);
    assert_eq!(p.low_voltage_panic_step(10), PanicStep::Nothing);
    assert_eq!(p.low_voltage_panic_step(4), PanicStep::Armed);
    assert_eq!(p.low_voltage_panic_step(4), PanicStep::CheckShipMode);
    p.battery_update_voltage(3550);
    assert_eq!(p.voltage_action(), VoltageAction::Low);
    assert!(p.battery_panic);
    p.battery_update_voltage(3900);
    assert_eq!(p.voltage_action(), VoltageAction::Normal);
    assert!(!p.battery_panic);
}

#[test]
fn power_current_sampling_and_ship_mode() {
    let mut p = PowerState::new(true);
    assert_eq!(p.current_sample(true), Some(CurrentSample::Active));
    // the SoC just went off: skip one round
    assert_eq!(p.current_sample(false), None);
    assert_eq!(p.current_sample(false), Some(CurrentSample::Standby));
    p.usb_cc_event = true;
    assert!(p.take_usb_cc_event());
    assert!(!p.take_usb_cc_event());
    assert!(shipmode_allowed(9000, false, 3400));
    assert!(!shipmode_allowed(8000, false, 3400));
    assert!(!shipmode_allowed(9000, true, 3400));
    assert!(!shipmode_allowed(9000, false, 3500));
}

#[test]
fn charger_rounds_alternate_once_a_second() {
    let mut last: u32 = 0;
    let mut count: u32 = 0;
    assert_eq!(charger_round(500, &mut last, &mut count), None);
    assert_eq!(charger_round(1001, &mut last, &mut count), Some(ChargerPhase::BatteryVoltage));
    assert_eq!((last, count), (1001, 1));
    assert_eq!(charger_round(2001, &mut last, &mut count), None);
    assert_eq!(charger_round(2002, &mut last, &mut count), Some(ChargerPhase::CablePing));
    // the tick counter wrapped around
    let mut last2: u32 = 0xffff_ff00;
    let mut count2: u32 = u32::MAX;
    assert_eq!(charger_round(0x0000_0400, &mut last2, &mut count2), Some(ChargerPhase::CablePing));
    assert_eq!(count2, 0);
}

#[test]
fn i2c_timeouts_and_prescaler() {
    assert!(!timed_out(100, 150, 50));
    assert!(timed_out(100, 151, 50));
    assert!(timed_out(0xffff_fff0, 0x40, 0x40));
    assert!(!timed_out(0xffff_fff0, 0x10, 0x40));
    assert_eq!(prescale(18_000_000), (45, 0));
    assert_eq!(prescale(100_000_000), (250, 0));
    assert_eq!(prescale(200_000_000), (244, 1));
}

#[test]
fn i2c_write_then_read_plan() {
    let steps = i2c_controller(0x36, Some(&[0x10, 0x20]), Some(2));
    let expected = vec![
        I2cStep::WriteTxd(0x6c),
        I2cStep::WaitClear(STATUS_TRRDY),
        I2cStep::Command(CMD_START_WRITE),
        I2cStep::WaitSet(STATUS_TRRDY),
        I2cStep::WaitClear(STATUS_TIP),
        I2cStep::WriteTxd(0x10),
        I2cStep::Command(CMD_WRITE),
        I2cStep::WaitSet(STATUS_TRRDY),
        I2cStep::WaitClear(STATUS_TIP),
        I2cStep::WriteTxd(0x20),
        I2cStep::Command(CMD_WRITE),
        I2cStep::WaitSet(STATUS_TRRDY),
        I2cStep::Command(CMD_STOP),
        I2cStep::WaitClear(STATUS_BUSY),
        I2cStep::WaitClear(STATUS_BUSY),
        I2cStep::WriteTxd(0x6d),
        I2cStep::WaitClear(STATUS_TRRDY),
        I2cStep::Command(CMD_START_WRITE),
        I2cStep::WaitSet(STATUS_SRW),
        I2cStep::Command(CMD_RD),
        I2cStep::WaitSet(STATUS_TRRDY),
        I2cStep::ReadRxd(0),
        I2cStep::Command(CMD_READ_LAST),
        I2cStep::WaitSet(STATUS_TRRDY),
        I2cStep::ReadRxd(1),
    ];
    assert_eq!(steps, expected);
}

#[test]
fn i2c_single_byte_read_does_a_dummy_read() {
    let steps = i2c_controller(0x55, None, Some(1));
    assert_eq!(steps[0], I2cStep::WaitClear(STATUS_BUSY));
    assert_eq!(steps[1], I2cStep::WriteTxd(0xab));
    assert_eq!(
        steps[6..],
        [
            I2cStep::WaitSet(STATUS_TRRDY),
            I2cStep::ReadRxd(0),
            I2cStep::Command(CMD_READ_LAST),
            I2cStep::WaitSet(STATUS_TRRDY),
            I2cStep::Command(CMD_READ_LAST),
            I2cStep::WaitSet(STATUS_TRRDY),
            I2cStep::ReadRxd(0),
        ]
    );
    assert_eq!(i2c_controller(0x55, None, None), vec![I2cStep::WaitClear(STATUS_BUSY)]);
}

fn prefix(cmd: u8) -> Vec<SpiStep> {
    vec![
        SpiStep::Mode { bitbang: false, csn: true },
        SpiStep::Mode { bitbang: true, csn: true },
        SpiStep::Mode { bitbang: true, csn: false },
        SpiStep::Write1(cmd),
    ]
}

fn exit() -> Vec<SpiStep> {
    vec![SpiStep::Mode { bitbang: true, csn: true }, SpiStep::DriversOff, SpiStep::Mode { bitbang: false, csn: true }]
}

#[test]
fn spi_command_plans() {
    let (steps, ok) = spi_cmd(cmd_wren(), None, None);
    assert!(ok);
    assert_eq!(steps, [prefix(0x06), exit()].concat());
    let buf = [0u8; 3];
    let (steps, ok) = spi_cmd(cmd_rdid(), None, Some(&buf));
    assert!(ok);
    assert_eq!(
        steps,
        [prefix(0x9f), vec![SpiStep::Read1(0), SpiStep::Read1(1), SpiStep::Read1(2)], exit()].concat()
    );
    // a read buffer that is too short fails after the command byte
    let (steps, ok) = spi_cmd(cmd_rdid(), None, Some(&buf[..2]));
    assert!(!ok);
    assert_eq!(steps, [prefix(0x9f), exit()].concat());
    let (steps, ok) = spi_cmd(cmd_se(), Some(0x12_3456), None);
    assert!(ok);
    assert_eq!(
        steps,
        [prefix(0x20), vec![SpiStep::Write1(0x12), SpiStep::Write1(0x34), SpiStep::Write1(0x56)], exit()].concat()
    );
    let (_, ok) = spi_cmd(cmd_se(), None, None);
    assert!(!ok);
    let (steps, ok) = spi_cmd(cmd_4pp(), Some(0x00_0100), Some(&[0xaa, 0xbb]));
    assert!(ok);
    assert_eq!(
        steps,
        [
            prefix(0x38),
            vec![
                SpiStep::WriteQuad(0x00),
                SpiStep::WriteQuad(0x01),
                SpiStep::WriteQuad(0x00),
                SpiStep::WriteQuad(0xaa),
                SpiStep::WriteQuad(0xbb)
            ],
            exit()
        ]
        .concat()
    );
    let rbuf = [0u8; 2];
    let (steps, ok) = spi_cmd(cmd_4read(), Some(0), Some(&rbuf));
    assert!(ok);
    assert_eq!(steps.len(), 4 + 3 + 6 + 2 + 3);
    assert_eq!(steps[13], SpiStep::ReadQuad(0));
    let (_, ok) = spi_cmd(cmd_rdsr(), None, None);
    assert!(!ok);
}

#[test]
fn spi_bits_and_nibbles() {
    assert_eq!(bits_msb_first(0xa5), [1, 0, 1, 0, 0, 1, 0, 1]);
    assert_eq!(assemble_msb_first([1, 0, 1, 0, 0, 1, 0, 1]), 0xa5);
    assert_eq!(nibbles(0x3c), (3, 12));
    assert_eq!(assemble_nibbles(3, 12), 0x3c);
    assert!(write_enabled(0x02));
    assert!(!write_enabled(0x01));
    assert!(write_in_progress(0x01));
    assert!(erase_or_program_failed(0x20));
    assert!(erase_or_program_failed(0x40));
    assert!(!erase_or_program_failed(0x9f));
}

#[test]
fn spi_erase_plan_uses_largest_aligned_blocks() {
    assert_eq!(
        erase_plan(0x1_0000, 0x1_9000),
        vec![(EraseKind::Block64K, 0x1_0000), (EraseKind::Block32K, 0x2_0000), (EraseKind::Sector4K, 0x2_8000)]
    );
    assert_eq!(
        erase_plan(0x1000, 0x1_0000),
        vec![
            (EraseKind::Sector4K, 0x1000),
            (EraseKind::Sector4K, 0x2000),
            (EraseKind::Sector4K, 0x3000),
            (EraseKind::Sector4K, 0x4000),
            (EraseKind::Sector4K, 0x5000),
            (EraseKind::Sector4K, 0x6000),
            (EraseKind::Sector4K, 0x7000),
            (EraseKind::Block32K, 0x8000),
            (EraseKind::Sector4K, 0x1_0000),
        ]
    );
    assert_eq!(erase_plan(0, 1), vec![(EraseKind::Sector4K, 0)]);
    assert!(erase_plan(0, 0).is_empty());
}

#[test]
fn i2c_register_write_and_read_plans() {
    let w = i2c_controller_write_ffi(0x6b, 0x10, &[0x60]);
    assert_eq!(
        w,
        vec![
            I2cStep::WriteTxd(0xd6),
            I2cStep::WaitClear(STATUS_TRRDY),
            I2cStep::Command(CMD_START_WRITE),
            I2cStep::WaitSet(STATUS_TRRDY),
            I2cStep::WaitClear(STATUS_TIP),
            I2cStep::WriteTxd(0x10),
            I2cStep::Command(CMD_WRITE),
            I2cStep::WaitSet(STATUS_TRRDY),
            I2cStep::WaitClear(STATUS_TIP),
            I2cStep::WriteTxd(0x60),
            I2cStep::Command(CMD_WRITE),
            I2cStep::WaitSet(STATUS_TRRDY),
            I2cStep::Command(CMD_STOP),
            I2cStep::WaitClear(STATUS_BUSY),
            I2cStep::WaitClear(STATUS_BUSY),
        ]
    );
    let r1 = i2c_controller_read_ffi(0x6b, 0x0f, 1);
    assert_eq!(r1.len(), 7 + 7 + 4);
    assert_eq!(r1[9], I2cStep::WriteTxd(0xd7));
    assert_eq!(
        r1[14..],
        [
            I2cStep::WaitSet(STATUS_TRRDY),
            I2cStep::ReadRxd(0),
            I2cStep::Command(CMD_READ_LAST),
            I2cStep::WaitSet(STATUS_TRRDY),
        ]
    );
    let r2 = i2c_controller_read_ffi(0x6b, 0x28, 2);
    assert_eq!(
        r2[14..],
        [
            I2cStep::WaitSet(STATUS_TRRDY),
            I2cStep::ReadRxd(0),
            I2cStep::Command(CMD_READ_LAST),
            I2cStep::WaitSet(STATUS_TRRDY),
            I2cStep::ReadRxd(1),
        ]
    );
}

#[test]
fn litex_i2c_plans() {
    let wr = |start, stop| LitexI2cStep::Command { start, stop, read: false, write: true, ack: false };
    let rd = |last| LitexI2cStep::Command { start: false, stop: last, read: true, write: false, ack: last };
    let steps = Hardi2c::i2c_controller(0x36, Some(&[0xa0]), Some(1));
    assert_eq!(
        steps,
        vec![
            LitexI2cStep::WriteTxr(0x6c),
            wr(true, false),
            LitexI2cStep::TipWait,
            LitexI2cStep::CheckRxAck,
            LitexI2cStep::WriteTxr(0xa0),
            wr(false, false),
            LitexI2cStep::TipWait,
            LitexI2cStep::CheckRxAck,
            LitexI2cStep::WriteTxr(0x6d),
            wr(true, false),
            LitexI2cStep::TipWait,
            rd(true),
            LitexI2cStep::TipWait,
            LitexI2cStep::ReadRxr(0),
        ]
    );
    // a write without a read phase stops after its last byte
    let w = i2c_master(0x36, &[1, 2], 0);
    assert_eq!(w[5], wr(false, false));
    assert_eq!(w[9], wr(false, true));
    assert_eq!(w.len(), 3 + 8 + 1);
    assert!(i2c_master(0x36, &[], 0).is_empty());
    let r = i2c_master(0x36, &[], 2);
    assert_eq!(&r[3..], &[rd(false), LitexI2cStep::TipWait, LitexI2cStep::ReadRxr(0), rd(true), LitexI2cStep::TipWait, LitexI2cStep::ReadRxr(1)]);
    assert_eq!(Hardi2c::i2c_init(100_000_000), 199);
    assert_eq!(i2c_init(100), (199, 0));
    assert_eq!(i2c_init(200), (143, 1));
    assert!(!tip_timed_out(10, 20, 10));
    assert!(tip_timed_out(10, 21, 10));
}

#[test]
fn gyro_defaults_and_axes() {
    let mut g = BtGyro::new();
    assert_eq!(g.init(0x69), [[0x12, 0x04], [0x10, 0x10], [0x15, 0x01], [0x18, 0x3c]]);
    assert_eq!(g.id, 0x69);
    assert!(g.update_xyz(&[0x01, 0x02, 0xff, 0x7f, 0x00, 0x80]));
    assert_eq!((g.x, g.y, g.z), (0x0201, 0x7fff, 0x8000));
}

#[test]
fn charger_status_read_writes_the_device_address_byte() {
    assert_eq!(chg_status_read(), i2c_master(0x6a, &[0x6a], 1));
    assert!(chg_is_charging(0x10));
    assert!(!chg_is_charging(0x20));
    assert!(!chg_is_charging(0x30));
    assert!(!chg_is_charging(0x00));
}

#[test]
fn gas_gauge_design_capacity_protocol() {
    let u = design_capacity_unlock();
    assert_eq!(u.len(), 7);
    assert_eq!(u[0], GgStep::Command { cmd: 0x00, code: 0x8000 });
    assert_eq!(u[1], GgStep::Command { cmd: 0x00, code: 0x8000 });
    assert_eq!(u[2], GgStep::Command { cmd: 0x00, code: 0x0013 });
    assert_eq!(u[3], GgStep::WaitCfgUpdate);
    assert_eq!(u[5], GgStep::SetByte { cmd: 0x3E, val: 0x52 });
    let mut block = [0u8; 33];
    block[10] = 0x04;
    block[11] = 0x4c;
    let (old, steps) = design_capacity_commit(&block, 1100);
    assert_eq!(old, 0x044c);
    assert_eq!(steps.len(), 1 + 33 + 4);
    assert_eq!(steps[0], GgStep::DelayMs(2));
    assert_eq!(steps[1 + 10], GgStep::SetByte { cmd: 0x4a, val: 0x04 });
    assert_eq!(steps[1 + 11], GgStep::SetByte { cmd: 0x4b, val: 0x4c });
    // checksum: 255 - (0x04 + 0x4c) = 0xaf
    assert_eq!(steps[1 + 32], GgStep::SetByte { cmd: 0x60, val: 0xaf });
    assert_eq!(steps[34], GgStep::DelayMs(2));
    assert_eq!(steps[35], GgStep::Command { cmd: 0x00, code: 0x0042 });
    assert_eq!(steps[36], GgStep::WaitCfgUpdate);
    assert_eq!(steps[37], GgStep::Command { cmd: 0x00, code: 0x0020 });
}

#[test]
fn flash_write_sequencing() {
    let (s, b) = flash_write_step(FlashWriteState::Start, 0);
    assert_eq!(b, FlashBus::Command(cmd_wren()));
    let (s, b) = flash_write_step(s, 0);
    assert_eq!(b, FlashBus::ReadStatus);
    // latch not set yet: enable again
    let (s, b) = flash_write_step(s, 0x00);
    assert_eq!(b, FlashBus::Command(cmd_wren()));
    let (s, b) = flash_write_step(s, 0);
    assert_eq!(b, FlashBus::ReadStatus);
    let (s, b) = flash_write_step(s, 0x02);
    assert_eq!(b, FlashBus::Operate);
    let (s, b) = flash_write_step(s, 0);
    assert_eq!(b, FlashBus::ReadStatus);
    // still writing
    let (s, b) = flash_write_step(s, 0x03);
    assert_eq!(b, FlashBus::ReadStatus);
    let (s, b) = flash_write_step(s, 0x02);
    assert_eq!(b, FlashBus::ReadSecurity);
    // program fail bit set
    let (s, b) = flash_write_step(s, 0x20);
    assert_eq!(b, FlashBus::Command(cmd_wrdi()));
    assert_eq!(flash_write_step(s, 0).1, FlashBus::Finished(false));
    assert_eq!(flash_write_step(FlashWriteState::ResultRead, 0x00).0, FlashWriteState::Done(true));
}
