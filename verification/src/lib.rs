//! Verified core of the Betrusted embedded controller firmware: the
//! minimal IPv4/UDP/DHCP network stack, packet queueing, COM bus interrupt
//! bookkeeping, and the register-level decisions of the power and sensor
//! drivers.
pub mod backlight;
pub mod bits;
pub mod bq25618;
pub mod charger;
pub mod com;
pub mod com_bus;
pub mod com_dispatch;
pub mod com_proto;
pub mod comstates;
pub mod gasgauge;
pub mod gyro;
pub mod hal_time;
pub mod hardi2c;
pub mod image;
pub mod imu;
pub mod litex_i2c;
pub mod net;
pub mod pac;
pub mod pkt_buf;
pub mod power;
pub mod spi;
pub mod str_buf;
pub mod text;
pub mod uart;
pub mod usb_cc;
pub mod wf200;
pub mod wfx_bus;
pub mod xous;
