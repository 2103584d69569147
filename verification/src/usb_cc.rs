//! TUSB320 USB Type-C configuration channel controller: identification, the register
//! writes that configure it as an upstream facing port, and its status registers.
use vstd::prelude::*;

verus! {

/// I2C address of the controller
pub const TUSB320LAI_ADDR: u8 = 0x47;

pub const TUSB320LAI_00_ID: usize = 0x00;
pub const TUSB320LAI_08_CSR0: usize = 0x08;
pub const TUSB320LAI_09_CSR1: usize = 0x09;
pub const TUSB320LAI_0A_CSR2: usize = 0x0A;
pub const TUSB320LAI_45_RDRP: usize = 0x45;
pub const TUSB320LAI_A0_REV: usize = 0xA0;
pub const TUSB320LAI_REVISION_EXPECTED: u8 = 0x02;

// ConfigStatus1
pub const DISABLE_UFP_ACCESSORY: u8 = 0b0000_0001;
pub const DRP_ADVERT_DUTYCYCLE_30PCT: u8 = 0b0000_0000;
pub const REGCHANGE_INTERRUPT: u8 = 0b0001_0000;
pub const ATTACHED_MASK: u8 = 0b1100_0000;
pub const ATTACHED_SNK_UFP: u8 = 0b1000_0000;

// ConfigStatus2
pub const SOURCE_PREF_DRP_TRY_SNK: u8 = 0b0000_0010;
pub const MODE_UFP_UNATTACHED_SNK: u8 = 0b0001_0000;

/// The identification string of the controller ("023BSUT" and a zero byte)
pub open spec fn idstring() -> Seq<u8> {
    seq![0x30u8, 0x32, 0x33, 0x42, 0x53, 0x55, 0x54, 0x00]
}

/// Whether the identification registers hold the controller's identification string
fn id_matches(rx: &[u8; 8]) -> (r: bool)
    ensures
        r == (rx@ == idstring()),
{
    let expected: [u8; 8] = [0x30u8, 0x32, 0x33, 0x42, 0x53, 0x55, 0x54, 0x00];
    assert(expected@ =~= idstring());
    let mut i: usize = 0;
    while i < 8
        invariant
            i <= 8,
            expected@ == idstring(),
            forall|j: int| 0 <= j < i ==> rx@[j] == expected@[j],
        decreases 8 - i,
    {
        if rx[i] != expected[i] {
            return false;
        }
        i = i + 1;
    }
    assert(rx@ =~= idstring());
    true
}

/// State of the USB Type-C controller
pub struct BtUsbCc {
    pub id: [u8; 8],
    pub status: [u8; 3],
}

impl BtUsbCc {
    /// Nothing identified, all status zero
    pub fn new() -> (r: Self)
        ensures
            r.id@ == Seq::new(8, |i: int| 0u8),
            r.status@ == seq![0u8, 0, 0],
    {
        let r = BtUsbCc { id: [0u8; 8], status: [0u8; 3] };
        assert(r.id@ =~= Seq::new(8, |i: int| 0u8));
        assert(r.status@ =~= seq![0u8, 0, 0]);
        r
    }

    /// Record the identification registers read at initialization; true when they hold
    /// the controller's identification string
    pub fn check_id(&mut self, rx: &[u8; 8]) -> (r: bool)
        ensures
            final(self).id == *rx,
            final(self).status == old(self).status,
            r == (rx@ == idstring()),
    {
        self.id = *rx;
        id_matches(rx)
    }

    /// Whether the revision register holds the expected revision
    pub fn check_revision(rev: u8) -> (r: bool)
        ensures
            r == (rev == TUSB320LAI_REVISION_EXPECTED),
    {
        rev == TUSB320LAI_REVISION_EXPECTED
    }

    /// The configuration writes, in order: look like an upstream facing port without
    /// accessory support, advertising 500mA; then unattached sink mode, trying to be a
    /// sink when dual role
    pub fn init_writes() -> (r: [[u8; 2]; 2])
        ensures
            r[0]@ == seq![TUSB320LAI_09_CSR1 as u8, 0x01u8],
            r[1]@ == seq![TUSB320LAI_0A_CSR2 as u8, 0x12u8],
    {
        let w0 = [TUSB320LAI_09_CSR1 as u8, DISABLE_UFP_ACCESSORY | DRP_ADVERT_DUTYCYCLE_30PCT];
        let w1 = [TUSB320LAI_0A_CSR2 as u8, MODE_UFP_UNATTACHED_SNK | SOURCE_PREF_DRP_TRY_SNK];
        assert(DISABLE_UFP_ACCESSORY | DRP_ADVERT_DUTYCYCLE_30PCT == 0x01u8
            && MODE_UFP_UNATTACHED_SNK | SOURCE_PREF_DRP_TRY_SNK == 0x12u8) by (bit_vector);
        assert(w0@ =~= seq![TUSB320LAI_09_CSR1 as u8, 0x01u8]);
        assert(w1@ =~= seq![TUSB320LAI_0A_CSR2 as u8, 0x12u8]);
        [w0, w1]
    }

    /// Record the three status registers
    pub fn set_status(&mut self, regs: &[u8; 3])
        ensures
            final(self).status == *regs,
            final(self).id == old(self).id,
    {
        self.status = *regs;
    }

    /// The write that clears the register change interrupt in the controller
    pub fn regchange_ack(&self) -> (r: [u8; 2])
        ensures
            r@ == seq![TUSB320LAI_09_CSR1 as u8, self.status@[1] | REGCHANGE_INTERRUPT],
    {
        let r = [TUSB320LAI_09_CSR1 as u8, self.status[1] | REGCHANGE_INTERRUPT];
        assert(r@ =~= seq![TUSB320LAI_09_CSR1 as u8, self.status@[1] | REGCHANGE_INTERRUPT]);
        r
    }

    /// Whether the status reports a transition to Attached.SNK
    pub fn attached_snk(&self) -> (r: bool)
        ensures
            r == (self.status@[1] & ATTACHED_MASK == ATTACHED_SNK_UFP),
    {
        self.status[1] & ATTACHED_MASK == ATTACHED_SNK_UFP
    }
}

} // verus!
