//! Shared vocabulary of the COM bus between the SoC and the EC: the interrupt status
//! bits that the EC raises towards the host, the outcome of a WLAN join, the WF200
//! link states and the IPv4 configuration record reported to the host.
use vstd::prelude::*;

verus! {

/// A join attempt has produced a result (the result code is in the Rx length word)
pub const INT_WLAN_CONNECT_EVENT: u16 = 0x0001;

/// The WLAN link went down
pub const INT_WLAN_DISCONNECT: u16 = 0x0002;

/// The IPv4 configuration changed
pub const INT_WLAN_IPCONF_UPDATE: u16 = 0x0004;

/// A received packet is waiting to be read by the host
pub const INT_WLAN_RX_READY: u16 = 0x0008;

/// The battery is about to run out
pub const INT_BATTERY_CRITICAL: u16 = 0x0010;

/// New SSID scan results are available
pub const INT_WLAN_SSID_UPDATE: u16 = 0x0020;

/// An SSID scan has finished
pub const INT_WLAN_SSID_FINISHED: u16 = 0x0040;

/// A frame could not be transmitted
pub const INT_WLAN_TX_ERROR: u16 = 0x0080;

/// A frame was lost on reception
pub const INT_WLAN_RX_ERROR: u16 = 0x0100;

/// Error codes related to the COM bus protocol of the WLAN commands
#[derive(Copy, Clone, PartialEq, Eq, Structural, Debug)]
pub enum WlanError {
    Assert,
    Timeout,
    StrLen,
    Utf8,
}

impl WlanError {
    /// The error's code
    pub fn code(&self) -> (r: u8)
        ensures
            r == match *self {
                WlanError::Assert => 1u8,
                WlanError::Timeout => 2u8,
                WlanError::StrLen => 3u8,
                WlanError::Utf8 => 4u8,
            },
    {
        match self {
            WlanError::Assert => 1,
            WlanError::Timeout => 2,
            WlanError::StrLen => 3,
            WlanError::Utf8 => 4,
        }
    }
}

/// Outcome of the last WLAN join attempt
#[derive(Copy, Clone, PartialEq, Eq, Structural, Debug)]
pub enum ConnectResult {
    Success,
    NoMatchingAp,
    Timeout,
    Reject,
    AuthFail,
    Aborted,
    Error,
    Pending,
}

impl ConnectResult {
    /// Wire code of the result, as reported to the host
    pub open spec fn code_spec(self) -> u16 {
        match self {
            ConnectResult::Success => 0,
            ConnectResult::NoMatchingAp => 1,
            ConnectResult::Timeout => 2,
            ConnectResult::Reject => 3,
            ConnectResult::AuthFail => 4,
            ConnectResult::Aborted => 5,
            ConnectResult::Error => 6,
            ConnectResult::Pending => 7,
        }
    }

    /// Wire code of the result, as reported to the host
    pub fn code(&self) -> (r: u16)
        ensures
            r == self.code_spec(),
    {
        match self {
            ConnectResult::Success => 0,
            ConnectResult::NoMatchingAp => 1,
            ConnectResult::Timeout => 2,
            ConnectResult::Reject => 3,
            ConnectResult::AuthFail => 4,
            ConnectResult::Aborted => 5,
            ConnectResult::Error => 6,
            ConnectResult::Pending => 7,
        }
    }
}

/// Link layer state of the WF200
#[derive(Copy, Clone, PartialEq, Eq, Structural, Debug)]
pub enum LinkState {
    Unknown,
    ResetHold,
    Uninitialized,
    Initializing,
    Disconnected,
    Connecting,
    Connected,
    WFXError,
}

/// IPv4 configuration as reported to the host: each address in network byte order
#[derive(Copy, Clone, Debug)]
pub struct Ipv4Conf {
    pub dhcp: crate::net::dhcp::State,
    pub mac: [u8; 6],
    pub addr: [u8; 4],
    pub gtwy: [u8; 4],
    pub mask: [u8; 4],
    pub dns1: [u8; 4],
    pub dns2: [u8; 4],
}

} // verus!
