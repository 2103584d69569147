//! Battery and power management decisions: filtering the battery voltage reading,
//! pacing the charger housekeeping, the low voltage thresholds, and when to sample the
//! current draw.
use vstd::prelude::*;

verus! {

/// The voltage (mV) below which the device is shut down hard to avoid battery damage
pub const BATTERY_PANIC_VOLTAGE: i16 = 3500;

/// The reserve voltage (mV) below which the SoC should be shut off so that BBRAM keys and
/// the RTC are preserved
pub const BATTERY_LOW_VOLTAGE: i16 = 3575;

/// Milliseconds between two rounds of charger housekeeping
pub const CHARGER_INTERVAL_MS: u32 = 1000;

/// State of charge (%) under which a low voltage is taken seriously
pub const PANIC_SOC_PERCENT: i16 = 5;

/// Ticks since boot before ship mode may be entered, giving the charger a few seconds
/// to recognize charging after a cold boot
pub const SHIPMODE_MIN_TICKS: u64 = 8000;

/// Variables to track the I2C power management subsystem
pub struct PowerState {
    pub voltage: i16,
    pub last_voltage: i16,
    pub current: i16,
    pub stby_current: i16,
    pub soc_was_on: bool,
    pub battery_panic: bool,
    pub voltage_glitch: bool,
    pub usb_cc_event: bool,
}

/// Which half of the charger housekeeping runs in a round; the I2C traffic is split
/// across two phases to even the CPU load
#[derive(Copy, Clone, PartialEq, Eq, Structural, Debug)]
pub enum ChargerPhase {
    /// Ping the charger and check the USB cable
    CablePing,
    /// Update the battery voltage and act on it
    BatteryVoltage,
}

/// What the battery voltage calls for
#[derive(Copy, Clone, PartialEq, Eq, Structural, Debug)]
pub enum VoltageAction {
    /// Below the panic voltage: consider shutting down
    Panic,
    /// Below the low voltage: warn
    Low,
    /// Fine: clear any pending panic
    Normal,
}

/// What to do after the state of charge was read in a voltage panic
#[derive(Copy, Clone, PartialEq, Eq, Structural, Debug)]
pub enum PanicStep {
    /// Second low reading in a row: check whether ship mode may be entered
    CheckShipMode,
    /// First low reading: remember it, act only if it repeats
    Armed,
    /// The state of charge is fine
    Nothing,
}

/// Which current reading to take
#[derive(Copy, Clone, PartialEq, Eq, Structural, Debug)]
pub enum CurrentSample {
    /// The SoC is on: its current draw
    Active,
    /// The SoC was and is off: the standby current
    Standby,
}

impl PowerState {
    /// Everything zero; `soc_on` tells whether the SoC is powered at boot
    pub fn new(soc_on: bool) -> (r: Self)
        ensures
            r.voltage == 0 && r.last_voltage == 0 && r.current == 0 && r.stby_current == 0,
            r.soc_was_on == soc_on,
            !r.battery_panic && !r.voltage_glitch && !r.usb_cc_event,
    {
        PowerState {
            voltage: 0,
            last_voltage: 0,
            current: 0,
            stby_current: 0,
            soc_was_on: soc_on,
            battery_panic: false,
            voltage_glitch: false,
            usb_cc_event: false,
        }
    }

    /// Take a battery voltage reading. There are monitoring glitches during charge mode
    /// transitions: a negative reading is replaced by the previous voltage and flagged.
    pub fn battery_update_voltage(&mut self, reading: i16)
        ensures
            final(self).voltage == (if reading < 0 { old(self).last_voltage } else { reading }),
            final(self).last_voltage == final(self).voltage,
            final(self).voltage_glitch == (reading < 0 || old(self).voltage_glitch),
            final(self).current == old(self).current,
            final(self).stby_current == old(self).stby_current,
            final(self).soc_was_on == old(self).soc_was_on,
            final(self).battery_panic == old(self).battery_panic,
            final(self).usb_cc_event == old(self).usb_cc_event,
    {
        self.voltage = reading;
        if self.voltage < 0 {
            self.voltage = self.last_voltage;
            self.voltage_glitch = true;
        }
        self.last_voltage = self.voltage;
    }

    /// What the current voltage calls for; a normal voltage clears a pending panic
    pub fn voltage_action(&mut self) -> (r: VoltageAction)
        ensures
            r == (if old(self).voltage < BATTERY_PANIC_VOLTAGE {
                VoltageAction::Panic
            } else if old(self).voltage < BATTERY_LOW_VOLTAGE {
                VoltageAction::Low
            } else {
                VoltageAction::Normal
            }),
            final(self).battery_panic == (if r == VoltageAction::Normal { false } else { old(self).battery_panic }),
            final(self).voltage == old(self).voltage,
            final(self).last_voltage == old(self).last_voltage,
            final(self).voltage_glitch == old(self).voltage_glitch,
            final(self).soc_was_on == old(self).soc_was_on,
    {
        if self.voltage < BATTERY_PANIC_VOLTAGE {
            VoltageAction::Panic
        } else if self.voltage < BATTERY_LOW_VOLTAGE {
            VoltageAction::Low
        } else {
            self.battery_panic = false;
            VoltageAction::Normal
        }
    }

    /// In a voltage panic, given the state of charge: a low state of charge must be seen
    /// twice in a row, to rule out temporary glitches in measurement, before ship mode is
    /// considered.
    pub fn low_voltage_panic_step(&mut self, state_of_charge: i16) -> (r: PanicStep)
        ensures
            state_of_charge < PANIC_SOC_PERCENT && old(self).battery_panic ==> r == PanicStep::CheckShipMode
                && final(self).battery_panic,
            state_of_charge < PANIC_SOC_PERCENT && !old(self).battery_panic ==> r == PanicStep::Armed
                && final(self).battery_panic,
            state_of_charge >= PANIC_SOC_PERCENT ==> r == PanicStep::Nothing && final(self).battery_panic
                == old(self).battery_panic,
            final(self).voltage == old(self).voltage,
            final(self).soc_was_on == old(self).soc_was_on,
    {
        if state_of_charge < PANIC_SOC_PERCENT && self.battery_panic {
            PanicStep::CheckShipMode
        } else if state_of_charge < PANIC_SOC_PERCENT {
            self.battery_panic = true;
            PanicStep::Armed
        } else {
            PanicStep::Nothing
        }
    }

    /// Which current reading to take, given whether the SoC is on now; records the SoC
    /// state for the next round. The standby current is only sampled if the SoC was
    /// already off, so that about a second of "power on" current is not averaged in.
    pub fn current_sample(&mut self, soc_on: bool) -> (r: Option<CurrentSample>)
        ensures
            r == (if soc_on {
                Some(CurrentSample::Active)
            } else if !old(self).soc_was_on {
                Some(CurrentSample::Standby)
            } else {
                None
            }),
            final(self).soc_was_on == soc_on,
            final(self).voltage == old(self).voltage,
            final(self).battery_panic == old(self).battery_panic,
    {
        let r = if soc_on {
            Some(CurrentSample::Active)
        } else if !self.soc_was_on {
            Some(CurrentSample::Standby)
        } else {
            None
        };
        self.soc_was_on = soc_on;
        r
    }

    /// The value of the USB cable event flag for the host; the flag is cleared as it has
    /// been checked
    pub fn take_usb_cc_event(&mut self) -> (r: bool)
        ensures
            r == old(self).usb_cc_event,
            !final(self).usb_cc_event,
            final(self).voltage == old(self).voltage,
    {
        let r = self.usb_cc_event;
        self.usb_cc_event = false;
        r
    }

    /// The value of the voltage glitch flag for the host; the flag is cleared
    pub fn take_voltage_glitch(&mut self) -> (r: bool)
        ensures
            r == old(self).voltage_glitch,
            !final(self).voltage_glitch,
            final(self).voltage == old(self).voltage,
    {
        let r = self.voltage_glitch;
        self.voltage_glitch = false;
        r
    }
}

/// Whether ship mode, which disconnects the battery from the system, may be entered:
/// only after the first seconds since boot, when the charger is not trying to charge,
/// and when a fresh voltage reading is still below the panic voltage
pub fn shipmode_allowed(ticks: u64, charging: bool, voltage: i16) -> (r: bool)
    ensures
        r == (ticks > SHIPMODE_MIN_TICKS && !charging && voltage < BATTERY_PANIC_VOLTAGE),
{
    ticks > SHIPMODE_MIN_TICKS && !charging && voltage < BATTERY_PANIC_VOLTAGE
}

/// The charger housekeeping runs lazily, at most once a second: at time `now`, with the
/// last round at `last_run_time` and `loopcounter` rounds done, whether a round is due
/// and which half it runs. The elapsed time is taken modulo 2^32.
pub fn charger_round(now: u32, last_run_time: &mut u32, loopcounter: &mut u32) -> (r: Option<ChargerPhase>)
    ensures
        now.wrapping_sub(*old(last_run_time)) > CHARGER_INTERVAL_MS ==> {
            &&& *final(last_run_time) == now
            &&& *final(loopcounter) == old(loopcounter).wrapping_add(1)
            &&& r == Some(if final(loopcounter) % 2 == 0 {
                ChargerPhase::CablePing
            } else {
                ChargerPhase::BatteryVoltage
            })
        },
        now.wrapping_sub(*old(last_run_time)) <= CHARGER_INTERVAL_MS ==> r is None && *final(last_run_time)
            == *old(last_run_time) && *final(loopcounter) == *old(loopcounter),
{
    if now.wrapping_sub(*last_run_time) > CHARGER_INTERVAL_MS {
        *last_run_time = now;
        *loopcounter = loopcounter.wrapping_add(1);
        if *loopcounter % 2 == 0 {
            Some(ChargerPhase::CablePing)
        } else {
            Some(ChargerPhase::BatteryVoltage)
        }
    } else {
        None
    }
}

/// A voltage reading that is used is never negative once a valid reading was seen:
/// the filter only ever passes on a non-negative reading or the previous voltage.
pub proof fn lemma_filtered_voltage_nonnegative(last_voltage: i16, reading: i16)
    requires
        last_voltage >= 0,
    ensures
        (if reading < 0 { last_voltage } else { reading }) >= 0,
{
}

} // verus!
