//! The older LSM6DS3 motion sensor setup: a fixed register configuration and the
//! accelerometer reading of the three axes.
use crate::bits::lemma_byte_pair;
use vstd::prelude::*;

verus! {

/// 7-bit I2C address of the sensor
pub const LSM6DS3_I2C_ADDR: u8 = 0x6B;

/// First accelerometer output register (X low byte); the six axis bytes follow it
pub const LSM6DS3_OUTX_L_XL: u8 = 0x28;

/// State of the motion sensor: its identification and the last acceleration reading
pub struct BtGyro {
    pub id: u8,
    pub x: u16,
    pub y: u16,
    pub z: u16,
}

impl BtGyro {
    /// Nothing read yet
    pub fn new() -> (r: Self)
        ensures
            r.id == 0 && r.x == 0 && r.y == 0 && r.z == 0,
    {
        BtGyro { id: 0, x: 0, y: 0, z: 0 }
    }

    /// Record the device id read at initialization and return the register writes of
    /// the sane defaults, in order: CTRL3 reset to defaults, CTRL1 reset to defaults,
    /// XL_HM_MODE off, accelerometer on
    pub fn init(&mut self, id: u8) -> (r: [[u8; 2]; 4])
        ensures
            final(self).id == id,
            final(self).x == old(self).x && final(self).y == old(self).y && final(self).z == old(self).z,
            r[0]@ == seq![0x12u8, 0x04u8],
            r[1]@ == seq![0x10u8, 0x10u8],
            r[2]@ == seq![0x15u8, 0x01u8],
            r[3]@ == seq![0x18u8, 0x3cu8],
    {
        self.id = id;
        let w0: [u8; 2] = [0x12, 0x4];
        let w1: [u8; 2] = [0x10, 0x10];
        let w2: [u8; 2] = [0x15, 0x01];
        let w3: [u8; 2] = [0x18, 0x3c];
        assert(w0@ =~= seq![0x12u8, 0x04u8]);
        assert(w1@ =~= seq![0x10u8, 0x10u8]);
        assert(w2@ =~= seq![0x15u8, 0x01u8]);
        assert(w3@ =~= seq![0x18u8, 0x3cu8]);
        [w0, w1, w2, w3]
    }

    /// Take the six output bytes read from `LSM6DS3_OUTX_L_XL` on as the X, Y and Z
    /// readings, each little-endian
    pub fn update_xyz(&mut self, data: &[u8; 6]) -> (r: bool)
        ensures
            r,
            final(self).x == data[0] + data[1] * 256,
            final(self).y == data[2] + data[3] * 256,
            final(self).z == data[4] + data[5] * 256,
            final(self).id == old(self).id,
    {
        proof {
            lemma_byte_pair(data[0], data[1]);
            lemma_byte_pair(data[2], data[3]);
            lemma_byte_pair(data[4], data[5]);
        }
        self.x = (data[0] as u16) | ((data[1] as u16) << 8u16);
        self.y = (data[2] as u16) | ((data[3] as u16) << 8u16);
        self.z = (data[4] as u16) | ((data[5] as u16) << 8u16);
        true
    }
}

} // verus!
