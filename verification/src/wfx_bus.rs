//! Word transfers on the SPI bus to the WF200: the driver hands over a header and a
//! buffer; the header always goes out, then the buffer is either sent or, for a read,
//! clocked in with dummy words. The caller performs each exchange on the bus block.
use vstd::prelude::*;

verus! {

/// One 16-bit exchange on the bus
#[derive(Copy, Clone, PartialEq, Eq, Structural, Debug)]
pub enum WfxBusOp {
    /// Send the word (the received word is not kept)
    Send(u16),
    /// Send a dummy zero word and store the received word at the given index of the
    /// read buffer
    Receive(usize),
}

/// The exchanges of a transfer of `header` then `buffer` (both as 16-bit words): every
/// header word is sent; for a read, one receive per buffer word follows, else the
/// buffer words are sent.
pub open spec fn transfer_ops(read: bool, header: Seq<u16>, buffer: Seq<u16>) -> Seq<WfxBusOp> {
    Seq::new(header.len(), |i: int| WfxBusOp::Send(header[i])) + if read {
        Seq::new(buffer.len(), |i: int| WfxBusOp::Receive(i as usize))
    } else {
        Seq::new(buffer.len(), |i: int| WfxBusOp::Send(buffer[i]))
    }
}

/// The exchanges of one transfer (see `transfer_ops`). For a read, `buffer` only gives
/// the number of words to receive.
pub fn sl_wfx_host_spi_transfer_no_cs_assert(read: bool, header: &[u16], buffer: &[u16]) -> (r: Vec<WfxBusOp>)
    ensures
        r@ == transfer_ops(read, header@, buffer@),
{
    let mut v: Vec<WfxBusOp> = Vec::new();
    let mut i: usize = 0;
    while i < header.len()
        invariant
            i <= header@.len(),
            v@ == Seq::new(i as nat, |k: int| WfxBusOp::Send(header@[k])),
        decreases header.len() - i,
    {
        v.push(WfxBusOp::Send(header[i]));
        i = i + 1;
    }
    let ghost h = v@;
    let mut j: usize = 0;
    while j < buffer.len()
        invariant
            j <= buffer@.len(),
            h == Seq::new(header@.len(), |k: int| WfxBusOp::Send(header@[k])),
            v@ == h + if read {
                Seq::new(j as nat, |k: int| WfxBusOp::Receive(k as usize))
            } else {
                Seq::new(j as nat, |k: int| WfxBusOp::Send(buffer@[k]))
            },
        decreases buffer.len() - j,
    {
        if read {
            // transmit a dummy word to get the rx data
            v.push(WfxBusOp::Receive(j));
        } else {
            v.push(WfxBusOp::Send(buffer[j]));
        }
        j = j + 1;
    }
    v
}

} // verus!
