//! Peripheral access for the SoC microcontroller: the peripherals of the EC, the base
//! address of each one's register block, and the handing out of all of them, once.
use vstd::prelude::*;

verus! {

/// The RGB peripheral
pub struct RGB {}

impl RGB {
    /// Address of the register block
    pub fn ptr() -> (r: usize)
        ensures
            r == 0x80006800,
    {
        0x80006800
    }
}

/// The PICORVSPI peripheral
pub struct PICORVSPI {}

impl PICORVSPI {
    /// Address of the register block
    pub fn ptr() -> (r: usize)
        ensures
            r == 0x80005000,
    {
        0x80005000
    }
}

/// The I2C peripheral
pub struct I2C {}

impl I2C {
    /// Address of the register block
    pub fn ptr() -> (r: usize)
        ensures
            r == 0x80004800,
    {
        0x80004800
    }
}

/// The REBOOT peripheral
pub struct REBOOT {}

impl REBOOT {
    /// Address of the register block
    pub fn ptr() -> (r: usize)
        ensures
            r == 0x80006000,
    {
        0x80006000
    }
}

/// The TICKTIMER peripheral
pub struct TICKTIMER {}

impl TICKTIMER {
    /// Address of the register block
    pub fn ptr() -> (r: usize)
        ensures
            r == 0x80007800,
    {
        0x80007800
    }
}

/// The CTRL peripheral
pub struct CTRL {}

impl CTRL {
    /// Address of the register block
    pub fn ptr() -> (r: usize)
        ensures
            r == 0x80000000,
    {
        0x80000000
    }
}

/// The MESSIBLE peripheral
pub struct MESSIBLE {}

impl MESSIBLE {
    /// Address of the register block
    pub fn ptr() -> (r: usize)
        ensures
            r == 0x80005800,
    {
        0x80005800
    }
}

/// The TIMER0 peripheral
pub struct TIMER0 {}

impl TIMER0 {
    /// Address of the register block
    pub fn ptr() -> (r: usize)
        ensures
            r == 0x80002800,
    {
        0x80002800
    }
}

/// The VERSION peripheral
pub struct VERSION {}

impl VERSION {
    /// Address of the register block
    pub fn ptr() -> (r: usize)
        ensures
            r == 0x80007000,
    {
        0x80007000
    }
}

/// All the peripherals
#[allow(non_snake_case)]
pub struct Peripherals {
    pub RGB: RGB,
    pub PICORVSPI: PICORVSPI,
    pub I2C: I2C,
    pub REBOOT: REBOOT,
    pub TICKTIMER: TICKTIMER,
    pub CTRL: CTRL,
    pub MESSIBLE: MESSIBLE,
    pub TIMER0: TIMER0,
    pub VERSION: VERSION,
}

impl Peripherals {
    /// Returns all the peripherals *once*: the first call takes them and records that
    /// in `taken`; every later call gets None.
    pub fn take(taken: &mut bool) -> (r: Option<Self>)
        ensures
            r is Some <==> !*old(taken),
            *final(taken),
    {
        if *taken {
            None
        } else {
            Some(Self::steal(taken))
        }
    }

    /// Unchecked version of `Peripherals::take`: records them as taken regardless
    pub fn steal(taken: &mut bool) -> (r: Self)
        ensures
            *final(taken),
    {
        *taken = true;
        Peripherals {
            RGB: RGB {},
            PICORVSPI: PICORVSPI {},
            I2C: I2C {},
            REBOOT: REBOOT {},
            TICKTIMER: TICKTIMER {},
            CTRL: CTRL {},
            MESSIBLE: MESSIBLE {},
            TIMER0: TIMER0 {},
            VERSION: VERSION {},
        }
    }
}

} // verus!
