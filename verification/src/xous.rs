//! The interrupt table of the no-MMU Xous kernel: claiming and freeing interrupts, and
//! dispatching the pending ones to their handlers. The hardware mask register is
//! inverse logic: a set bit unmasks (enables) its interrupt.
use vstd::prelude::*;

verus! {

/// Number of interrupt lines
pub const IRQ_COUNT: usize = 32;

/// Errors of the kernel calls
#[derive(Copy, Clone, PartialEq, Eq, Structural, Debug)]
pub enum XousError {
    BadAlignment,
    BadAddress,
    OutOfMemory,
    MemoryInUse,
    InterruptNotFound,
    InterruptInUse,
    InvalidString,
    ServerExists,
    ServerNotFound,
    ProcessNotFound,
    ProcessNotChild,
    ProcessTerminated,
    Timeout,
}

/// Saved context of a process
pub struct XousContext {
    pub stack: usize,
    pub pid: u8,
}

/// A message carrying four scalar arguments
pub struct XousScalarMessage {
    pub id: usize,
    pub arg1: usize,
    pub arg2: usize,
    pub arg3: usize,
    pub arg4: usize,
}

/// A message lending memory buffers; the addresses and sizes are never zero when present
pub struct XousMemoryMessage {
    pub id: usize,
    pub in_buf: Option<usize>,
    pub in_buf_size: Option<usize>,
    pub out_buf: Option<usize>,
    pub out_buf_size: Option<usize>,
}

/// A message between processes
pub enum XousMessage {
    Memory(XousMemoryMessage),
    Scalar(XousScalarMessage),
}

/// A message as received, with its sender
pub struct XousMessageReceived {
    pub sender: usize,
    pub message: XousMessage,
}

/// The bit of interrupt line `irq` in the mask register
pub open spec fn irq_bit(irq: int) -> u32 {
    (1u32 << (irq as u32)) as u32
}

/// The interrupt handlers, one optional handler per line, and the mask register
pub struct IrqTable<H> {
    pub handlers: Vec<Option<H>>,
    pub mask: u32,
}

impl<H: Copy> IrqTable<H> {
    /// The table is consistent
    pub open spec fn wf(&self) -> bool {
        self.handlers@.len() == IRQ_COUNT
    }

    /// No handlers, every interrupt masked
    pub fn new() -> (r: Self)
        ensures
            r.wf(),
            forall|i: int| 0 <= i < IRQ_COUNT ==> #[trigger] r.handlers@[i] is None,
            r.mask == 0,
    {
        let mut handlers: Vec<Option<H>> = Vec::new();
        let mut i: usize = 0;
        while i < IRQ_COUNT
            invariant
                i <= IRQ_COUNT,
                handlers@.len() == i,
                forall|j: int| 0 <= j < i ==> #[trigger] handlers@[j] is None,
            decreases IRQ_COUNT - i,
        {
            handlers.push(None);
            i = i + 1;
        }
        IrqTable { handlers, mask: 0 }
    }

    /// Claims an interrupt and unmasks it immediately. Errors: InterruptNotFound when
    /// the interrupt isn't valid on this system, InterruptInUse when it has already been
    /// claimed; the table is then unchanged.
    pub fn sys_interrupt_claim(&mut self, irq: usize, f: H) -> (r: Result<(), XousError>)
        requires
            old(self).wf(),
        ensures
            final(self).wf(),
            irq >= IRQ_COUNT ==> r == Err::<(), XousError>(XousError::InterruptNotFound)
                && *final(self) == *old(self),
            irq < IRQ_COUNT && old(self).handlers@[irq as int] is Some ==> r == Err::<(), XousError>(
                XousError::InterruptInUse,
            ) && *final(self) == *old(self),
            irq < IRQ_COUNT && old(self).handlers@[irq as int] is None ==> r is Ok
                && final(self).handlers@ == old(self).handlers@.update(irq as int, Some(f))
                && final(self).mask == old(self).mask | irq_bit(irq as int),
    {
        if irq >= IRQ_COUNT {
            Err(XousError::InterruptNotFound)
        } else if self.handlers[irq].is_some() {
            Err(XousError::InterruptInUse)
        } else {
            self.handlers.set(irq, Some(f));
            self.mask = self.mask | (1u32 << (irq as u32));
            Ok(())
        }
    }

    /// Returns the interrupt back to the operating system and masks it again. Error:
    /// InterruptNotFound when the interrupt doesn't exist or isn't claimed; the table is
    /// then unchanged.
    pub fn sys_interrupt_free(&mut self, irq: usize) -> (r: Result<(), XousError>)
        requires
            old(self).wf(),
        ensures
            final(self).wf(),
            irq >= IRQ_COUNT ==> r == Err::<(), XousError>(XousError::InterruptNotFound)
                && *final(self) == *old(self),
            irq < IRQ_COUNT && old(self).handlers@[irq as int] is None ==> r == Err::<(), XousError>(
                XousError::InterruptNotFound,
            ) && *final(self) == *old(self),
            irq < IRQ_COUNT && old(self).handlers@[irq as int] is Some ==> r is Ok
                && final(self).handlers@ == old(self).handlers@.update(irq as int, None)
                && final(self).mask == old(self).mask & !irq_bit(irq as int),
    {
        if irq >= IRQ_COUNT || self.handlers[irq].is_none() {
            Err(XousError::InterruptNotFound)
        } else {
            self.handlers.set(irq, None);
            self.mask = self.mask & !(1u32 << (irq as u32));
            Ok(())
        }
    }

    /// Dispatch the pending interrupts: the handlers to call, in line order, each with
    /// its line number. A pending interrupt without a handler is masked, to prevent an
    /// interrupt storm.
    pub fn handle(&mut self, irqs_pending: u32) -> (r: Vec<(usize, H)>)
        requires
            old(self).wf(),
        ensures
            final(self).wf(),
            final(self).handlers == old(self).handlers,
            r@ == dispatched(old(self).handlers@, irqs_pending, IRQ_COUNT as int),
            final(self).mask == masked_after(old(self).handlers@, irqs_pending, old(self).mask, IRQ_COUNT as int),
    {
        let mut calls: Vec<(usize, H)> = Vec::new();
        let mut irq_no: usize = 0;
        while irq_no < IRQ_COUNT
            invariant
                irq_no <= IRQ_COUNT,
                self.wf(),
                self.handlers == old(self).handlers,
                calls@ == dispatched(old(self).handlers@, irqs_pending, irq_no as int),
                self.mask == masked_after(old(self).handlers@, irqs_pending, old(self).mask, irq_no as int),
            decreases IRQ_COUNT - irq_no,
        {
            let bit: u32 = 1u32 << (irq_no as u32);
            if irqs_pending & bit != 0 {
                match self.handlers[irq_no] {
                    Some(f) => {
                        calls.push((irq_no, f));
                    },
                    None => {
                        self.mask = self.mask & !bit;
                    },
                }
            }
            irq_no = irq_no + 1;
        }
        calls
    }
}

/// The handler calls for the pending lines among the first `n`
pub open spec fn dispatched<H>(handlers: Seq<Option<H>>, pending: u32, n: int) -> Seq<(usize, H)>
    decreases n,
{
    if n <= 0 {
        Seq::empty()
    } else {
        let prev = dispatched(handlers, pending, n - 1);
        let i = n - 1;
        if pending & irq_bit(i) != 0 && handlers[i] is Some {
            prev.push((i as usize, handlers[i]->Some_0))
        } else {
            prev
        }
    }
}

/// The mask after masking the pending lines without a handler among the first `n`
pub open spec fn masked_after<H>(handlers: Seq<Option<H>>, pending: u32, mask: u32, n: int) -> u32
    decreases n,
{
    if n <= 0 {
        mask
    } else {
        let prev = masked_after(handlers, pending, mask, n - 1);
        let i = n - 1;
        if pending & irq_bit(i) != 0 && handlers[i] is None {
            prev & !irq_bit(i)
        } else {
            prev
        }
    }
}

/// Claiming a free interrupt unmasks it, and freeing it again masks it: the mask ends up
/// with that line's bit clear and every other bit as before.
pub proof fn lemma_claim_then_free(mask: u32, irq: u32)
    by (bit_vector)
    requires
        irq < 32,
    ensures
        ((mask | (1u32 << irq)) & (1u32 << irq)) != 0,
        ((mask | (1u32 << irq)) & !(1u32 << irq)) == mask & !(1u32 << irq),
{
}

} // verus!
