//! Interrupt bookkeeping of the COM bus: which events are pending for the host, which
//! of them the host wants to hear about, and the level of the host interrupt line.
use vstd::prelude::*;
use crate::com::{
    ConnectResult, INT_BATTERY_CRITICAL, INT_WLAN_CONNECT_EVENT, INT_WLAN_DISCONNECT,
    INT_WLAN_IPCONF_UPDATE, INT_WLAN_RX_ERROR, INT_WLAN_RX_READY, INT_WLAN_SSID_FINISHED,
    INT_WLAN_SSID_UPDATE, INT_WLAN_TX_ERROR,
};

verus! {

/// Pending interrupt state of the COM bus
pub struct ComInterrupts {
    state: u16,
    rx_len_bytes: u16,
    mask: u16,
    retrigger: bool,
}

impl ComInterrupts {
    /// Bits of the pending events
    pub closed spec fn pending(&self) -> u16 {
        self.state
    }

    /// The word reported along with the status: an Rx length or a connect result code
    pub closed spec fn rx_len(&self) -> u16 {
        self.rx_len_bytes
    }

    /// Bits of the events that the host wants to be interrupted for
    pub closed spec fn irq_mask(&self) -> u16 {
        self.mask
    }

    /// Whether the interrupt line must first drop to make a new edge
    pub closed spec fn retrigger_pending(&self) -> bool {
        self.retrigger
    }

    /// Nothing pending, nothing enabled
    pub fn new() -> (r: Self)
        ensures
            r.pending() == 0,
            r.rx_len() == 0,
            r.irq_mask() == 0,
            !r.retrigger_pending(),
    {
        ComInterrupts { state: 0, rx_len_bytes: 0, mask: 0, retrigger: false }
    }

    /// Level at which to drive the host interrupt line: high while an enabled event is
    /// pending, except for one call after a retrigger request, where it drops to make a
    /// new edge.
    pub fn update_irq_pin(&mut self) -> (r: bool)
        ensures
            r == ((old(self).pending() & old(self).irq_mask()) != 0 && !old(self).retrigger_pending()),
            !final(self).retrigger_pending(),
            final(self).pending() == old(self).pending(),
            final(self).rx_len() == old(self).rx_len(),
            final(self).irq_mask() == old(self).irq_mask(),
    {
        if (self.state & self.mask) != 0 {
            if !self.retrigger {
                true
            } else {
                // drop the IRQ line to create a new edge, in case we have a new interrupt despite the ack
                self.retrigger = false;
                false
            }
        } else {
            self.retrigger = false;
            false
        }
    }

    /// A packet of `len` bytes is ready for the host
    pub fn set_rx_ready(&mut self, len: u16)
        ensures
            final(self).rx_len() == (if old(self).pending() & INT_WLAN_CONNECT_EVENT == 0 {
                len
            } else {
                old(self).rx_len()
            }),
            final(self).pending() == old(self).pending() | INT_WLAN_RX_READY,
            final(self).retrigger_pending() == (old(self).retrigger_pending() || old(self).pending()
                & INT_WLAN_RX_READY != 0),
            final(self).irq_mask() == old(self).irq_mask(),
    {
        // don't overwrite the connect result in case we got an Rx packet right after connecting
        if (self.state & INT_WLAN_CONNECT_EVENT) == 0 {
            self.rx_len_bytes = len;
        }
        if self.state & INT_WLAN_RX_READY != 0 {
            // if we're getting a second packet before the prior one was serviced, fake an ack
            // so that the interrupt edge fires again
            self.retrigger = true;
            proof {
                lemma_raised_again(self.state);
            }
        } else {
            self.state = self.state | INT_WLAN_RX_READY;
        }
    }

    /// The host has taken the ready packet
    pub fn ack_rx_ready(&mut self)
        ensures
            final(self).rx_len() == (if old(self).pending() & INT_WLAN_CONNECT_EVENT == 0 {
                0
            } else {
                old(self).rx_len()
            }),
            final(self).pending() == old(self).pending() & !INT_WLAN_RX_READY,
            final(self).retrigger_pending() == old(self).retrigger_pending(),
            final(self).irq_mask() == old(self).irq_mask(),
    {
        // don't overwrite the connect result in case we had a delayed ack before we got the result read
        if (self.state & INT_WLAN_CONNECT_EVENT) == 0 {
            self.rx_len_bytes = 0;
        }
        self.state = self.state & !INT_WLAN_RX_READY;
    }

    /// The link went down
    pub fn set_disconnect(&mut self)
        ensures
            final(self).pending() == old(self).pending() | INT_WLAN_DISCONNECT,
            final(self).retrigger_pending() == (old(self).retrigger_pending() || old(self).pending()
                & INT_WLAN_DISCONNECT != 0),
            final(self).rx_len() == old(self).rx_len(),
            final(self).irq_mask() == old(self).irq_mask(),
    {
        if self.state & INT_WLAN_DISCONNECT != 0 {
            // fake an ack so that the interrupt edge fires again
            self.retrigger = true;
            proof {
                lemma_raised_again(self.state);
            }
        } else {
            self.state = self.state | INT_WLAN_DISCONNECT;
        }
    }

    /// Clear the pending disconnect
    pub fn ack_disconnect(&mut self)
        ensures
            final(self).pending() == old(self).pending() & !INT_WLAN_DISCONNECT,
            final(self).rx_len() == old(self).rx_len(),
            final(self).retrigger_pending() == old(self).retrigger_pending(),
            final(self).irq_mask() == old(self).irq_mask(),
    {
        self.state = self.state & !INT_WLAN_DISCONNECT;
    }

    /// A join attempt finished with `result`; its code goes in the Rx length word
    pub fn set_connect_result(&mut self, result: ConnectResult)
        ensures
            final(self).pending() == old(self).pending() | INT_WLAN_CONNECT_EVENT,
            final(self).retrigger_pending() == (old(self).retrigger_pending() || old(self).pending()
                & INT_WLAN_CONNECT_EVENT != 0),
            final(self).rx_len() == result.code_spec(),
            final(self).irq_mask() == old(self).irq_mask(),
    {
        if self.state & INT_WLAN_CONNECT_EVENT != 0 {
            self.retrigger = true;
            proof {
                lemma_raised_again(self.state);
            }
        } else {
            self.state = self.state | INT_WLAN_CONNECT_EVENT;
        }
        self.rx_len_bytes = result.code();
    }

    /// Clear the pending connect result
    pub fn ack_connect_result(&mut self)
        ensures
            final(self).pending() == old(self).pending() & !INT_WLAN_CONNECT_EVENT,
            final(self).rx_len() == old(self).rx_len(),
            final(self).retrigger_pending() == old(self).retrigger_pending(),
            final(self).irq_mask() == old(self).irq_mask(),
    {
        self.state = self.state & !INT_WLAN_CONNECT_EVENT;
    }

    /// Raise the bits of `bit` (one of the plain events, without retrigger logic)
    fn raise(&mut self, bit: u16)
        ensures
            final(self).pending() == old(self).pending() | bit,
            final(self).rx_len() == old(self).rx_len(),
            final(self).retrigger_pending() == old(self).retrigger_pending(),
            final(self).irq_mask() == old(self).irq_mask(),
    {
        self.state = self.state | bit;
    }

    /// Clear the bits of `bit`
    fn clear(&mut self, bit: u16)
        ensures
            final(self).pending() == old(self).pending() & !bit,
            final(self).rx_len() == old(self).rx_len(),
            final(self).retrigger_pending() == old(self).retrigger_pending(),
            final(self).irq_mask() == old(self).irq_mask(),
    {
        self.state = self.state & !bit;
    }

    /// The IPv4 configuration changed
    pub fn set_ipconf_update(&mut self)
        ensures
            final(self).pending() == old(self).pending() | INT_WLAN_IPCONF_UPDATE,
            final(self).rx_len() == old(self).rx_len(),
            final(self).retrigger_pending() == old(self).retrigger_pending(),
            final(self).irq_mask() == old(self).irq_mask(),
    {
        self.raise(INT_WLAN_IPCONF_UPDATE);
    }

    /// Clear the pending IPv4 configuration change
    pub fn ack_ipconf_update(&mut self)
        ensures
            final(self).pending() == old(self).pending() & !INT_WLAN_IPCONF_UPDATE,
            final(self).rx_len() == old(self).rx_len(),
            final(self).retrigger_pending() == old(self).retrigger_pending(),
            final(self).irq_mask() == old(self).irq_mask(),
    {
        self.clear(INT_WLAN_IPCONF_UPDATE);
    }

    /// New SSID scan results are available
    pub fn set_ssid_update(&mut self)
        ensures
            final(self).pending() == old(self).pending() | INT_WLAN_SSID_UPDATE,
            final(self).rx_len() == old(self).rx_len(),
            final(self).retrigger_pending() == old(self).retrigger_pending(),
            final(self).irq_mask() == old(self).irq_mask(),
    {
        self.raise(INT_WLAN_SSID_UPDATE);
    }

    /// Clear the pending SSID update
    pub fn ack_ssid_update(&mut self)
        ensures
            final(self).pending() == old(self).pending() & !INT_WLAN_SSID_UPDATE,
            final(self).rx_len() == old(self).rx_len(),
            final(self).retrigger_pending() == old(self).retrigger_pending(),
            final(self).irq_mask() == old(self).irq_mask(),
    {
        self.clear(INT_WLAN_SSID_UPDATE);
    }

    /// The SSID scan finished
    pub fn set_ssid_finished(&mut self)
        ensures
            final(self).pending() == old(self).pending() | INT_WLAN_SSID_FINISHED,
            final(self).rx_len() == old(self).rx_len(),
            final(self).retrigger_pending() == old(self).retrigger_pending(),
            final(self).irq_mask() == old(self).irq_mask(),
    {
        self.raise(INT_WLAN_SSID_FINISHED);
    }

    /// Clear the pending SSID scan end
    pub fn ack_ssid_finished(&mut self)
        ensures
            final(self).pending() == old(self).pending() & !INT_WLAN_SSID_FINISHED,
            final(self).rx_len() == old(self).rx_len(),
            final(self).retrigger_pending() == old(self).retrigger_pending(),
            final(self).irq_mask() == old(self).irq_mask(),
    {
        self.clear(INT_WLAN_SSID_FINISHED);
    }

    /// The battery is critically low
    pub fn set_battery_critical(&mut self)
        ensures
            final(self).pending() == old(self).pending() | INT_BATTERY_CRITICAL,
            final(self).rx_len() == old(self).rx_len(),
            final(self).retrigger_pending() == old(self).retrigger_pending(),
            final(self).irq_mask() == old(self).irq_mask(),
    {
        self.raise(INT_BATTERY_CRITICAL);
    }

    /// Clear the pending battery warning
    pub fn ack_battery_critical(&mut self)
        ensures
            final(self).pending() == old(self).pending() & !INT_BATTERY_CRITICAL,
            final(self).rx_len() == old(self).rx_len(),
            final(self).retrigger_pending() == old(self).retrigger_pending(),
            final(self).irq_mask() == old(self).irq_mask(),
    {
        self.clear(INT_BATTERY_CRITICAL);
    }

    /// A frame could not be sent
    pub fn set_tx_error(&mut self)
        ensures
            final(self).pending() == old(self).pending() | INT_WLAN_TX_ERROR,
            final(self).rx_len() == old(self).rx_len(),
            final(self).retrigger_pending() == old(self).retrigger_pending(),
            final(self).irq_mask() == old(self).irq_mask(),
    {
        self.raise(INT_WLAN_TX_ERROR);
    }

    /// Clear the pending Tx error
    pub fn ack_tx_error(&mut self)
        ensures
            final(self).pending() == old(self).pending() & !INT_WLAN_TX_ERROR,
            final(self).rx_len() == old(self).rx_len(),
            final(self).retrigger_pending() == old(self).retrigger_pending(),
            final(self).irq_mask() == old(self).irq_mask(),
    {
        self.clear(INT_WLAN_TX_ERROR);
    }

    /// A frame was lost on reception
    pub fn set_rx_error(&mut self)
        ensures
            final(self).pending() == old(self).pending() | INT_WLAN_RX_ERROR,
            final(self).rx_len() == old(self).rx_len(),
            final(self).retrigger_pending() == old(self).retrigger_pending(),
            final(self).irq_mask() == old(self).irq_mask(),
    {
        self.raise(INT_WLAN_RX_ERROR);
    }

    /// Clear the pending Rx error
    pub fn ack_rx_error(&mut self)
        ensures
            final(self).pending() == old(self).pending() & !INT_WLAN_RX_ERROR,
            final(self).rx_len() == old(self).rx_len(),
            final(self).retrigger_pending() == old(self).retrigger_pending(),
            final(self).irq_mask() == old(self).irq_mask(),
    {
        self.clear(INT_WLAN_RX_ERROR);
    }

    /// The events that the host wants to be interrupted for
    pub fn get_mask(&self) -> (r: u16)
        ensures
            r == self.irq_mask(),
    {
        self.mask
    }

    /// Replace the interrupt mask; events that are already pending fire anew
    pub fn set_mask(&mut self, new_mask: u16)
        ensures
            final(self).irq_mask() == new_mask,
            final(self).retrigger_pending(),
            final(self).pending() == old(self).pending(),
            final(self).rx_len() == old(self).rx_len(),
    {
        self.retrigger = true;  // the intention is to cause any pre-existing interrupts to fire
        self.mask = new_mask;
    }

    /// Status for the host: the enabled pending events, and the Rx length word
    pub fn get_state(&self) -> (r: [u16; 2])
        ensures
            r@ == seq![self.pending() & self.irq_mask(), self.rx_len()],
    {
        let r = [self.state & self.mask, self.rx_len_bytes];
        assert(r@ =~= seq![self.pending() & self.irq_mask(), self.rx_len()]);
        r
    }

    /// The host acknowledges the events whose bits are set in `acks`
    pub fn ack(&mut self, acks: u16)
        ensures
            final(self).pending() == old(self).pending() & !acks,
            final(self).rx_len() == old(self).rx_len(),
            final(self).retrigger_pending() == old(self).retrigger_pending(),
            final(self).irq_mask() == old(self).irq_mask(),
    {
        self.state = self.state & !acks;
    }
}

/// Raising an event that is already pending leaves the pending set as it was.
proof fn lemma_raised_again(s: u16)
    by (bit_vector)
    ensures
        s & INT_WLAN_RX_READY != 0 ==> s | INT_WLAN_RX_READY == s,
        s & INT_WLAN_DISCONNECT != 0 ==> s | INT_WLAN_DISCONNECT == s,
        s & INT_WLAN_CONNECT_EVENT != 0 ==> s | INT_WLAN_CONNECT_EVENT == s,
{
}

/// An acknowledged event is no longer pending, and acknowledging leaves every other
/// event as it was: raising an event and then acknowledging it gives back the pending
/// set with that event cleared.
pub proof fn lemma_ack_clears_only_acked(pending: u16, bit: u16, acks: u16)
    by (bit_vector)
    ensures
        (pending | bit) & !bit == pending & !bit,
        (pending & !acks) & acks == 0,
        forall|other: u16| other & acks == 0 ==> (#[trigger] ((pending & !acks) & other)) == pending
            & other,
{
}

/// The host sees an event in the status word exactly when it is both pending and
/// enabled in the mask.
pub proof fn lemma_status_shows_enabled_pending(pending: u16, mask: u16, k: u16)
    by (bit_vector)
    requires
        k < 16,
    ensures
        ((pending & mask) & (1u16 << k) != 0) == (pending & (1u16 << k) != 0 && mask & (1u16 << k)
            != 0),
{
}

} // verus!
