//! Debug UART input is protected by a state machine to detect wake sequence: A T Newline
//! The wake sequence state machine is designed to be case sensitive but tolerate
//! different OS-specific styles of line-ending sequences. For example, any of these
//! strings should work to wake from bypass mode: "AT\r\n", "AT\r", "AT\n".
use vstd::prelude::*;

verus! {

/// States of the wake sequence detector
#[derive(Copy, Clone, PartialEq, Eq, Structural, Debug)]
pub enum RxState {
    BypassOnAwaitA,
    ExpectT,
    ExpectCROrLF,
    Waking,
    BypassOff,
}

/// State after receiving byte `b` in state `s`
pub open spec fn rx_next(s: RxState, b: u8) -> RxState {
    match s {
        RxState::BypassOff => RxState::BypassOff,
        RxState::BypassOnAwaitA => if b == 0x41 { RxState::ExpectT } else { RxState::BypassOnAwaitA },
        // Don't get confused by AAT\n
        RxState::ExpectT => if b == 0x41 {
            RxState::ExpectT
        } else if b == 0x54 {
            RxState::ExpectCROrLF
        } else {
            RxState::BypassOnAwaitA
        },
        RxState::ExpectCROrLF => if b == 0x0d || b == 0x0a {
            RxState::Waking
        } else {
            RxState::BypassOnAwaitA
        },
        RxState::Waking => RxState::BypassOff,
    }
}

/// State after receiving every byte of `bs` in order, starting in `s`
pub open spec fn rx_run(s: RxState, bs: Seq<u8>) -> RxState
    decreases bs.len(),
{
    if bs.len() == 0 {
        s
    } else {
        rx_next(rx_run(s, bs.drop_last()), bs.last())
    }
}

/// Feed one received byte through the wake sequence detector. The byte is passed on
/// (Some) only once bypass is off. Going through the Waking -> BypassOff sequence at
/// the end makes sure that the CR or LF char that finished the wake sequence gets
/// consumed (None); the following char will be the first Some(_).
pub fn rx_byte(uart_state: &mut RxState, b: u8) -> (r: Option<u8>)
    ensures
        *final(uart_state) == rx_next(*old(uart_state), b),
        r == (if rx_next(*old(uart_state), b) == RxState::BypassOff {
            Some(b)
        } else {
            None
        }),
{
    let next_state = match *uart_state {
        RxState::BypassOff => RxState::BypassOff,
        RxState::BypassOnAwaitA => if b == 0x41 { RxState::ExpectT } else { RxState::BypassOnAwaitA },
        RxState::ExpectT => if b == 0x41 {
            RxState::ExpectT
        } else if b == 0x54 {
            RxState::ExpectCROrLF
        } else {
            RxState::BypassOnAwaitA
        },
        RxState::ExpectCROrLF => if (b == 0x0d) || (b == 0x0a) {
            RxState::Waking
        } else {
            RxState::BypassOnAwaitA
        },
        RxState::Waking => RxState::BypassOff,
    };
    *uart_state = next_state;
    match *uart_state {
        RxState::BypassOff => Some(b),
        _ => None,
    }
}

/// Each of "AT\r\n", "AT\r" and "AT\n" wakes the port from bypass mode: after it, and
/// whatever byte follows, bypass is off; before the wake sequence is complete, no byte
/// is passed on.
pub proof fn lemma_wake_sequences(next: u8)
    ensures
        rx_run(RxState::BypassOnAwaitA, seq![0x41u8, 0x54u8, 0x0du8, 0x0au8]) == RxState::BypassOff,
        rx_run(RxState::BypassOnAwaitA, seq![0x41u8, 0x54u8, 0x0du8, next]) == RxState::BypassOff,
        rx_run(RxState::BypassOnAwaitA, seq![0x41u8, 0x54u8, 0x0au8, next]) == RxState::BypassOff,
        rx_run(RxState::BypassOnAwaitA, seq![0x41u8, 0x54u8, 0x0au8]) == RxState::Waking,
{
    reveal_with_fuel(rx_run, 5);
    assert(seq![0x41u8, 0x54u8, 0x0du8, 0x0au8].drop_last() =~= seq![0x41u8, 0x54u8, 0x0du8]);
    assert(seq![0x41u8, 0x54u8, 0x0du8, next].drop_last() =~= seq![0x41u8, 0x54u8, 0x0du8]);
    assert(seq![0x41u8, 0x54u8, 0x0au8, next].drop_last() =~= seq![0x41u8, 0x54u8, 0x0au8]);
    assert(seq![0x41u8, 0x54u8, 0x0du8].drop_last() =~= seq![0x41u8, 0x54u8]);
    assert(seq![0x41u8, 0x54u8, 0x0au8].drop_last() =~= seq![0x41u8, 0x54u8]);
    assert(seq![0x41u8, 0x54u8].drop_last() =~= seq![0x41u8]);
    assert(seq![0x41u8].drop_last() =~= Seq::<u8>::empty());
}

/// Once bypass is off it stays off, whatever is received.
pub proof fn lemma_bypass_off_is_final(bs: Seq<u8>)
    ensures
        rx_run(RxState::BypassOff, bs) == RxState::BypassOff,
    decreases bs.len(),
{
    if bs.len() > 0 {
        lemma_bypass_off_is_final(bs.drop_last());
    }
}

/// What the debug UART does with a character, given its transmit buffer. The link to
/// the host (a wishbone bridge) may come and go; while it is down the UART is muted and
/// characters are dropped instead of waiting on a buffer that nobody drains.
#[derive(Copy, Clone, PartialEq, Eq, Structural, Debug)]
pub enum TxFlow {
    /// Drop the character
    Drop,
    /// Send the character
    Send,
    /// The buffer is newly full: wait for it to drain, then decide with `tx_after_wait`
    AwaitDrain,
}

/// Flow control for one character: a muted UART drops it until the transmit buffer is
/// empty again, which unmutes it; an unmuted UART sends it, unless the buffer is full.
pub fn tx_flow(muted: &mut bool, tx_empty: bool, tx_full: bool) -> (r: TxFlow)
    ensures
        *old(muted) && !tx_empty ==> r == TxFlow::Drop && *final(muted),
        tx_empty ==> r == TxFlow::Send && !*final(muted),
        !*old(muted) && !tx_empty && !tx_full ==> r == TxFlow::Send && !*final(muted),
        !*old(muted) && !tx_empty && tx_full ==> r == TxFlow::AwaitDrain && !*final(muted),
{
    if *muted && !tx_empty {
        // Looks like connection is still down... Drop this character.
        TxFlow::Drop
    } else if tx_empty {
        // Yay... looks like the connection is back!
        *muted = false;
        TxFlow::Send
    } else if tx_full {
        // Hmm... TX buffer is newly full... Watch to see if it drains...
        TxFlow::AwaitDrain
    } else {
        TxFlow::Send
    }
}

/// After waiting for a full buffer to drain: still full means the connection dropped,
/// so the UART mutes and drops the character (false); else it sends it (true)
pub fn tx_after_wait(muted: &mut bool, still_full: bool) -> (r: bool)
    ensures
        r == !still_full,
        *final(muted) == (*old(muted) || still_full),
{
    if still_full {
        *muted = true;
        false
    } else {
        true
    }
}

} // verus!
