//! Command handling of the EC main loop. For each COM bus command from the SoC: the
//! words read after the verb, the reply, the state change and the hardware action.
//! Also the flash update lock, the COM FIFO gate around SoC power changes, and the
//! debug console keys. The FIFO reads and the hardware work happen outside the library.
use crate::com_proto::{
    backlight_levels, le_bytes_of_words, le_unpacked, loop_test_reply, net_frame_from_words, sane_capacity,
    u32_from_words, flash_verify_address, words_for, words_of_bytes, COM_MTU,
};
use crate::comstates::ComState;
use crate::net::dhcp::DhcpEvent;
use crate::uart::RxState;
use vstd::prelude::*;

verus! {

/// Reply word of an unknown command, or of a command whose argument went missing
pub const COM_ERROR_WORD: u16 = 0xDEAD;

/// Reply words of a link ping whose ping word went missing
pub const PING_FAIL_WORDS: [u16; 2] = [0xEEEE, 0xFFFF];

/// Second reply word of an answered link ping
pub const PING_OK_WORD: u16 = 0x600d;

/// Reply words of the legacy SSID fetch (16 entries of 6 words, all zero)
pub const SSID_FETCH_WORDS: usize = 96;

/// Reply words of the unused WFX receive statistics request (376 zero bytes)
pub const WFX_RXSTAT_WORDS: usize = 188;

/// Bytes of one PDS line
pub const PDS_LINE_LEN: usize = 256;

/// Milliseconds the COM FIFO stays in reset after the SoC powers up
pub const SOC_SETTLE_MS: u64 = 100;

/// One command of the COM bus, decoded from its verb. Range verbs keep the verb, whose
/// low bits carry a parameter.
#[derive(Copy, Clone, PartialEq, Eq, Structural, Debug)]
pub enum ComCommand {
    SsidCheck,
    SsidFetch,
    SsidFetchStr,
    LoopTest { rx: u16 },
    LinkPing,
    GasGauge,
    GgFactoryCapacity,
    GgGetCapacity,
    GgSoc,
    GgRemaining,
    GgFullCapacity,
    GgDebug,
    Stat,
    PowerOff,
    PowerShipmode,
    PowerChargerState,
    GyroUpdate,
    GyroRead,
    PollUsbCc,
    ChgStart,
    ChgBoostOn,
    ChgBoostOff,
    Backlight { rx: u16 },
    LinkRead,
    LinkSync,
    FlashErase,
    FlashPp,
    FlashVerify,
    FlashLock,
    FlashUnlock,
    FlashWaitack,
    WfxRxstatGet,
    WfxPdsLineSet,
    WfxFwRevGet,
    EcGitRev,
    EcSwTag,
    Wf200Reset,
    Uptime,
    TrngSeed,
    SsidScanOn,
    SsidScanOff,
    WlanOn,
    WlanOff,
    WlanSetSsid,
    WlanSetPass,
    WlanJoin,
    WlanLeave,
    WlanStatus,
    WlanGetRssi,
    WlanSyncState,
    WlanBinStatus,
    Wf200Debug,
    WlanGetIpv4Conf,
    LinkGetIntmask,
    LinkSetIntmask,
    LinkAckInterrupt,
    LinkGetInterrupt,
    WlanGetErrcounts,
    NetFrameFetch { rx: u16 },
    NetFrameSend { rx: u16 },
    Unknown,
}

/// What the main loop does for a command, after the library has decided it
pub enum ComAction {
    /// Send these words, and do nothing else
    Reply(Vec<u16>),
    /// Read or drive the hardware or the WF200 host as the command asks (a query whose
    /// reply is made of hardware readings, or a driver operation without parameters)
    Serve(ComCommand),
    /// Set the gas gauge design capacity (mAh) and reply with the former one
    SetDesignCapacity(u16),
    /// Erase `len` bytes of flash from `address`
    EraseFlash { address: u32, len: u32 },
    /// Program a 256-byte page of flash at `address`
    ProgramPage { address: u32, page: Vec<u8> },
    /// Reply with the 64 words of memory at `address`, least significant half first
    ReadMemory { address: u32 },
    /// Set the main and secondary backlight levels
    SetBacklight { main: u8, sec: u8 },
    /// Enable (true) or disable (false) the WF200 interrupt
    Wf200Irq(bool),
    /// Send a PDS line (its 256 bytes and its length) when it came through whole, then
    /// reset the COM FIFO either way
    PdsLine(Option<(Vec<u8>, u16)>),
    /// Reseed the network PRNG
    ReseedPrng([u16; 8]),
    /// Reset the WF200 momentarily and initialize it
    Wf200ResetAndInit,
    /// Hold the WF200 in reset
    Wf200Hold,
    /// Stop ARP offloading and hold the WF200 in reset
    WlanOff,
    /// Set the COM interrupt mask
    SetIntMask(u16),
    /// Acknowledge COM interrupts
    AckInterrupt(u16),
    /// Send the oldest received packet (the host expects `expected_words` words), then
    /// acknowledge the receive interrupt
    FetchFrame { expected_words: u16 },
    /// Send this frame on the network
    SendFrame(Vec<u8>),
    /// Nothing to do
    Nothing,
}

/// A `ComAction` with its buffers as sequences
pub enum ComActionView {
    Reply(Seq<u16>),
    Serve(ComCommand),
    SetDesignCapacity(u16),
    EraseFlash { address: u32, len: u32 },
    ProgramPage { address: u32, page: Seq<u8> },
    ReadMemory { address: u32 },
    SetBacklight { main: u8, sec: u8 },
    Wf200Irq(bool),
    PdsLine(Option<(Seq<u8>, u16)>),
    ReseedPrng(Seq<u16>),
    Wf200ResetAndInit,
    Wf200Hold,
    WlanOff,
    SetIntMask(u16),
    AckInterrupt(u16),
    FetchFrame { expected_words: u16 },
    SendFrame(Seq<u8>),
    Nothing,
}

impl View for ComAction {
    type V = ComActionView;

    open spec fn view(&self) -> ComActionView {
        match self {
            ComAction::Reply(w) => ComActionView::Reply(w@),
            ComAction::Serve(c) => ComActionView::Serve(*c),
            ComAction::SetDesignCapacity(c) => ComActionView::SetDesignCapacity(*c),
            ComAction::EraseFlash { address, len } => ComActionView::EraseFlash { address: *address, len: *len },
            ComAction::ProgramPage { address, page } => ComActionView::ProgramPage { address: *address, page: page@ },
            ComAction::ReadMemory { address } => ComActionView::ReadMemory { address: *address },
            ComAction::SetBacklight { main, sec } => ComActionView::SetBacklight { main: *main, sec: *sec },
            ComAction::Wf200Irq(on) => ComActionView::Wf200Irq(*on),
            ComAction::PdsLine(l) => ComActionView::PdsLine(
                match l {
                    Some(p) => Some((p.0@, p.1)),
                    None => None,
                },
            ),
            ComAction::ReseedPrng(s) => ComActionView::ReseedPrng(s@),
            ComAction::Wf200ResetAndInit => ComActionView::Wf200ResetAndInit,
            ComAction::Wf200Hold => ComActionView::Wf200Hold,
            ComAction::WlanOff => ComActionView::WlanOff,
            ComAction::SetIntMask(m) => ComActionView::SetIntMask(*m),
            ComAction::AckInterrupt(m) => ComActionView::AckInterrupt(*m),
            ComAction::FetchFrame { expected_words } => ComActionView::FetchFrame {
                expected_words: *expected_words,
            },
            ComAction::SendFrame(f) => ComActionView::SendFrame(f@),
            ComAction::Nothing => ComActionView::Nothing,
        }
    }
}

/// What the main loop keeps between commands
#[derive(Copy, Clone, PartialEq, Eq, Structural, Debug)]
pub struct EcComState {
    /// A flash update is in progress: only the COM bus is served
    pub flash_update_lock: bool,
    /// Counts loop tests, for link debugging
    pub com_sentinel: u16,
    /// The WF200 is in use
    pub use_wifi: bool,
    /// The WF200 is initialized and running
    pub wifi_ready: bool,
    /// Frames travel between the COM bus and the network
    pub com_net_bridge_enable: bool,
    /// When the SoC was last seen powered off (ms)
    pub soc_off_delay_timer: u32,
}

/// Number of words that the EC reads from the host after the verb of `cmd`
pub open spec fn arg_words_spec(cmd: ComCommand) -> int {
    match cmd {
        ComCommand::LinkPing => 1,
        ComCommand::GgFactoryCapacity => 1,
        ComCommand::FlashErase => 4,
        ComCommand::FlashPp => 130,
        ComCommand::FlashVerify => 2,
        ComCommand::WfxPdsLineSet => 129,
        ComCommand::Wf200Reset => 1,
        ComCommand::TrngSeed => 8,
        ComCommand::LinkSetIntmask => 1,
        ComCommand::LinkAckInterrupt => 1,
        ComCommand::NetFrameSend { rx } => words_for((rx % 0x800) as int),
        _ => 0,
    }
}

/// Whether every argument word arrived
pub open spec fn all_arrived(args: Seq<Option<u16>>) -> bool {
    forall|i: int| 0 <= i < args.len() ==> #[trigger] args[i] is Some
}

/// The argument words, with 0 for a missing one
pub open spec fn arg_values(args: Seq<Option<u16>>) -> Seq<u16> {
    args.map_values(|a: Option<u16>| match a {
        Some(w) => w,
        None => 0u16,
    })
}

/// A frame received from the host as big-endian words, for a frame of `n` bytes: none
/// when it does not fit the MTU
pub open spec fn frame_from_words(n: int, w: Seq<u16>) -> Option<Seq<u8>> {
    if w.len() * 2 > COM_MTU + 1 {
        None
    } else {
        Some(Seq::new(n as nat, |k: int| if k % 2 == 0 { (w[k / 2] / 256) as u8 } else { (w[k / 2] % 256) as u8 }))
    }
}

/// The address of a flash verify read (see `flash_verify_address`)
pub open spec fn verify_address_spec(address: u32) -> u32 {
    let a = if address < 0x1000_0000 || (0x1002_0000 <= address < 0x2000_0000) || (0x2100_0000 <= address
        < 0xe000_0000) || address >= 0xe000_8000 {
        0x2000_0000u32
    } else {
        address
    };
    (a - a % 4) as u32
}

/// A design capacity request made safe (see `sane_capacity`)
pub open spec fn sane_capacity_spec(c: u16) -> u16 {
    if c >= 1900 || c <= 600 { 1100 } else { c }
}

/// A command `cmd` with argument words `args` (None for a word that did not arrive in
/// time) turns the state `s` into the returned state, with the returned action
pub open spec fn com_step_spec(s: EcComState, cmd: ComCommand, args: Seq<Option<u16>>) -> (EcComState, ComActionView) {
    let v = arg_values(args);
    match cmd {
        // kept so that a legacy SoC firmware does not crash; scan updates come by interrupt
        ComCommand::SsidCheck => (s, ComActionView::Reply(seq![0u16])),
        ComCommand::SsidFetch => (s, ComActionView::Reply(Seq::new(SSID_FETCH_WORDS as nat, |i: int| 0u16))),
        ComCommand::LoopTest { rx } => (
            EcComState { com_sentinel: s.com_sentinel.wrapping_add(1), ..s },
            ComActionView::Reply(seq![(rx % 256 + (s.com_sentinel % 256) * 256) as u16]),
        ),
        ComCommand::LinkPing => (
            s,
            if all_arrived(args) {
                ComActionView::Reply(seq![!v[0], PING_OK_WORD])
            } else {
                ComActionView::Reply(seq![0xEEEEu16, 0xFFFFu16])
            },
        ),
        ComCommand::GgFactoryCapacity => (
            s,
            if all_arrived(args) {
                ComActionView::SetDesignCapacity(sane_capacity_spec(v[0]))
            } else {
                ComActionView::Reply(seq![COM_ERROR_WORD])
            },
        ),
        ComCommand::Backlight { rx } => (
            s,
            ComActionView::SetBacklight { main: (rx % 32) as u8, sec: ((rx / 32) % 32) as u8 },
        ),
        ComCommand::FlashErase => (
            s,
            if all_arrived(args) {
                ComActionView::EraseFlash {
                    address: (v[0] * 0x1_0000 + v[1]) as u32,
                    len: (v[2] * 0x1_0000 + v[3]) as u32,
                }
            } else {
                ComActionView::Nothing
            },
        ),
        ComCommand::FlashPp => (
            s,
            if all_arrived(args) {
                ComActionView::ProgramPage {
                    address: (v[0] * 0x1_0000 + v[1]) as u32,
                    page: le_unpacked(v.subrange(2, 130)),
                }
            } else {
                ComActionView::Nothing
            },
        ),
        // a missing address word counts as zero
        ComCommand::FlashVerify => (
            s,
            ComActionView::ReadMemory { address: verify_address_spec((v[0] * 0x1_0000 + v[1]) as u32) },
        ),
        ComCommand::FlashLock => (EcComState { flash_update_lock: true, ..s }, ComActionView::Wf200Irq(false)),
        ComCommand::FlashUnlock => (EcComState { flash_update_lock: false, ..s }, ComActionView::Wf200Irq(true)),
        ComCommand::FlashWaitack => (s, ComActionView::Reply(seq![0x3CC3u16])),
        // unused by the host: a null reply of the former size
        ComCommand::WfxRxstatGet => (s, ComActionView::Reply(Seq::new(WFX_RXSTAT_WORDS as nat, |i: int| 0u16))),
        // the 128 data words are always received, to clear the FIFO
        ComCommand::WfxPdsLineSet => (
            s,
            ComActionView::PdsLine(
                if all_arrived(args) && v[0] < PDS_LINE_LEN {
                    Some((le_unpacked(v.subrange(1, 129)), v[0]))
                } else {
                    None
                },
            ),
        ),
        // a missing word asks for a normal reset
        ComCommand::Wf200Reset => if all_arrived(args) && v[0] != 0 {
            (EcComState { wifi_ready: false, use_wifi: false, ..s }, ComActionView::Wf200Hold)
        } else {
            (s, ComActionView::Wf200ResetAndInit)
        },
        ComCommand::TrngSeed => (
            s,
            if all_arrived(args) {
                ComActionView::ReseedPrng(v)
            } else {
                ComActionView::Nothing
            },
        ),
        // the scan ends on its own
        ComCommand::SsidScanOff => (s, ComActionView::Nothing),
        ComCommand::GyroUpdate => (s, ComActionView::Nothing),
        ComCommand::LinkRead => (s, ComActionView::Nothing),
        ComCommand::WlanOn => (s, if s.wifi_ready { ComActionView::Nothing } else { ComActionView::Wf200ResetAndInit }),
        ComCommand::WlanOff => (EcComState { wifi_ready: false, ..s }, ComActionView::WlanOff),
        ComCommand::LinkSetIntmask => (
            s,
            if all_arrived(args) { ComActionView::SetIntMask(v[0]) } else { ComActionView::Nothing },
        ),
        ComCommand::LinkAckInterrupt => (
            s,
            if all_arrived(args) { ComActionView::AckInterrupt(v[0]) } else { ComActionView::Nothing },
        ),
        ComCommand::NetFrameFetch { rx } => (
            s,
            ComActionView::FetchFrame { expected_words: words_for((rx % 0x800) as int) as u16 },
        ),
        // the words are always received, as the FIFO must be drained; the frame goes out
        // only when it came through whole, fits the MTU and the bridge is on
        ComCommand::NetFrameSend { rx } => (
            s,
            match frame_from_words((rx % 0x800) as int, v) {
                Some(f) => if all_arrived(args) && s.com_net_bridge_enable {
                    ComActionView::SendFrame(f)
                } else {
                    ComActionView::Nothing
                },
                None => ComActionView::Nothing,
            },
        ),
        ComCommand::Unknown => (s, ComActionView::Reply(seq![COM_ERROR_WORD])),
        _ => (s, ComActionView::Serve(cmd)),
    }
}

/// Number of words that the EC reads from the host after the verb of `cmd`
pub fn arg_words(cmd: ComCommand) -> (r: usize)
    ensures
        r == arg_words_spec(cmd),
{
    match cmd {
        ComCommand::LinkPing => 1,
        ComCommand::GgFactoryCapacity => 1,
        ComCommand::FlashErase => 4,
        ComCommand::FlashPp => 130,
        ComCommand::FlashVerify => 2,
        ComCommand::WfxPdsLineSet => 129,
        ComCommand::Wf200Reset => 1,
        ComCommand::TrngSeed => 8,
        ComCommand::LinkSetIntmask => 1,
        ComCommand::LinkAckInterrupt => 1,
        ComCommand::NetFrameSend { rx } => words_of_bytes((rx % 0x800) as usize),
        _ => 0,
    }
}

/// How long the EC waits for each argument word of `cmd` (ms)
pub fn arg_timeout_ms(cmd: ComCommand) -> (r: u32)
    ensures
        r == match cmd {
            ComCommand::FlashErase | ComCommand::FlashVerify => 100u32,
            ComCommand::FlashPp | ComCommand::TrngSeed | ComCommand::NetFrameSend { .. } => 200u32,
            ComCommand::GgFactoryCapacity | ComCommand::Wf200Reset => 250u32,
            _ => 500u32,
        },
{
    match cmd {
        ComCommand::FlashErase | ComCommand::FlashVerify => 100,
        ComCommand::FlashPp | ComCommand::TrngSeed | ComCommand::NetFrameSend { .. } => 200,
        ComCommand::GgFactoryCapacity | ComCommand::Wf200Reset => 250,
        _ => 500,
    }
}

/// Whether every argument word arrived
fn arrived(args: &[Option<u16>]) -> (r: bool)
    ensures
        r == all_arrived(args@),
{
    let mut i: usize = 0;
    while i < args.len()
        invariant
            i <= args@.len(),
            forall|j: int| 0 <= j < i ==> #[trigger] args@[j] is Some,
        decreases args.len() - i,
    {
        if args[i].is_none() {
            return false;
        }
        i = i + 1;
    }
    true
}

/// The argument words, with 0 for a missing one
fn values(args: &[Option<u16>]) -> (r: Vec<u16>)
    ensures
        r@ == arg_values(args@),
{
    let mut v: Vec<u16> = Vec::new();
    let mut i: usize = 0;
    while i < args.len()
        invariant
            i <= args@.len(),
            v@ == arg_values(args@.subrange(0, i as int)),
        decreases args.len() - i,
    {
        let w = match args[i] {
            Some(w) => w,
            None => 0u16,
        };
        v.push(w);
        assert(args@.subrange(0, i + 1) =~= args@.subrange(0, i as int).push(args@[i as int]));
        assert(v@ =~= arg_values(args@.subrange(0, i + 1)));
        i = i + 1;
    }
    assert(args@.subrange(0, args@.len() as int) =~= args@);
    v
}

/// `n` zero words
fn zeros(n: usize) -> (r: Vec<u16>)
    ensures
        r@ == Seq::new(n as nat, |i: int| 0u16),
{
    let mut v: Vec<u16> = Vec::new();
    let mut i: usize = 0;
    while i < n
        invariant
            i <= n,
            v@ == Seq::new(i as nat, |j: int| 0u16),
        decreases n - i,
    {
        v.push(0);
        i = i + 1;
        assert(v@ =~= Seq::new(i as nat, |j: int| 0u16));
    }
    v
}

/// Handle one COM bus command: `args` holds the words read after the verb (as many as
/// `arg_words` says; None for a word that did not arrive in time). Returns what the
/// main loop is to do, and updates the loop's state (see `com_step_spec`).
#[verifier::rlimit(40)]
pub fn com_step(state: &mut EcComState, cmd: ComCommand, args: &[Option<u16>]) -> (r: ComAction)
    requires
        args@.len() == arg_words_spec(cmd),
    ensures
        *final(state) == com_step_spec(*old(state), cmd, args@).0,
        r@ == com_step_spec(*old(state), cmd, args@).1,
{
    let ok = arrived(args);
    let v = values(args);
    match cmd {
        ComCommand::SsidCheck => {
            let w = vec![0u16];
            assert(w@ =~= seq![0u16]);
            ComAction::Reply(w)
        },
        ComCommand::SsidFetch => {
            let w = zeros(SSID_FETCH_WORDS);
            assert(w@ =~= Seq::new(SSID_FETCH_WORDS as nat, |i: int| 0u16));
            ComAction::Reply(w)
        },
        ComCommand::LoopTest { rx } => {
            let w = loop_test_reply(rx, state.com_sentinel);
            state.com_sentinel = state.com_sentinel.wrapping_add(1);
            let r = ComAction::Reply(vec![w]);
            assert(r@ == com_step_spec(*old(state), cmd, args@).1) by {
                if let ComAction::Reply(x) = r {
                    assert(x@ =~= seq![(rx % 256 + (old(state).com_sentinel % 256) * 256) as u16]);
                }
            }
            r
        },
        ComCommand::LinkPing => {
            if ok {
                let r = ComAction::Reply(vec![!v[0], PING_OK_WORD]);
                assert(r@ == com_step_spec(*old(state), cmd, args@).1) by {
                    if let ComAction::Reply(x) = r {
                        assert(x@ =~= seq![!v@[0], PING_OK_WORD]);
                    }
                }
                r
            } else {
                let r = ComAction::Reply(vec![0xEEEEu16, 0xFFFFu16]);
                assert(r@ == com_step_spec(*old(state), cmd, args@).1) by {
                    if let ComAction::Reply(x) = r {
                        assert(x@ =~= seq![0xEEEEu16, 0xFFFFu16]);
                    }
                }
                r
            }
        },
        ComCommand::GgFactoryCapacity => {
            if ok {
                ComAction::SetDesignCapacity(sane_capacity(v[0]))
            } else {
                let r = ComAction::Reply(vec![COM_ERROR_WORD]);
                assert(r@ == com_step_spec(*old(state), cmd, args@).1) by {
                    if let ComAction::Reply(x) = r {
                        assert(x@ =~= seq![COM_ERROR_WORD]);
                    }
                }
                r
            }
        },
        ComCommand::Backlight { rx } => {
            let (main, sec) = backlight_levels(rx);
            ComAction::SetBacklight { main, sec }
        },
        ComCommand::FlashErase => {
            if ok {
                ComAction::EraseFlash { address: u32_from_words(v[0], v[1]), len: u32_from_words(v[2], v[3]) }
            } else {
                ComAction::Nothing
            }
        },
        ComCommand::FlashPp => {
            if ok {
                let words = vstd::slice::slice_subrange(v.as_slice(), 2, 130);
                let page = le_bytes_of_words(words);
                ComAction::ProgramPage { address: u32_from_words(v[0], v[1]), page }
            } else {
                ComAction::Nothing
            }
        },
        ComCommand::FlashVerify => ComAction::ReadMemory { address: flash_verify_address(u32_from_words(v[0], v[1])) },
        ComCommand::FlashLock => {
            state.flash_update_lock = true;
            ComAction::Wf200Irq(false)
        },
        ComCommand::FlashUnlock => {
            state.flash_update_lock = false;
            ComAction::Wf200Irq(true)
        },
        ComCommand::FlashWaitack => {
            let r = ComAction::Reply(vec![ComState::flash_ack().verb]);
            assert(r@ == com_step_spec(*old(state), cmd, args@).1) by {
                if let ComAction::Reply(x) = r {
                    assert(x@ =~= seq![0x3CC3u16]);
                }
            }
            r
        },
        ComCommand::WfxRxstatGet => {
            let w = zeros(WFX_RXSTAT_WORDS);
            assert(w@ =~= Seq::new(WFX_RXSTAT_WORDS as nat, |i: int| 0u16));
            ComAction::Reply(w)
        },
        ComCommand::WfxPdsLineSet => {
            if ok && (v[0] as usize) < PDS_LINE_LEN {
                let words = vstd::slice::slice_subrange(v.as_slice(), 1, 129);
                let data = le_bytes_of_words(words);
                ComAction::PdsLine(Some((data, v[0])))
            } else {
                ComAction::PdsLine(None)
            }
        },
        ComCommand::Wf200Reset => {
            if ok && v[0] != 0 {
                state.wifi_ready = false;
                state.use_wifi = false;
                ComAction::Wf200Hold
            } else {
                ComAction::Wf200ResetAndInit
            }
        },
        ComCommand::TrngSeed => {
            if ok {
                let seed: [u16; 8] = [v[0], v[1], v[2], v[3], v[4], v[5], v[6], v[7]];
                assert(seed@ =~= v@);
                ComAction::ReseedPrng(seed)
            } else {
                ComAction::Nothing
            }
        },
        ComCommand::SsidScanOff => ComAction::Nothing,
        ComCommand::GyroUpdate => ComAction::Nothing,
        ComCommand::LinkRead => ComAction::Nothing,
        ComCommand::WlanOn => {
            if state.wifi_ready {
                ComAction::Nothing
            } else {
                ComAction::Wf200ResetAndInit
            }
        },
        ComCommand::WlanOff => {
            state.wifi_ready = false;
            ComAction::WlanOff
        },
        ComCommand::LinkSetIntmask => {
            if ok {
                ComAction::SetIntMask(v[0])
            } else {
                ComAction::Nothing
            }
        },
        ComCommand::LinkAckInterrupt => {
            if ok {
                ComAction::AckInterrupt(v[0])
            } else {
                ComAction::Nothing
            }
        },
        ComCommand::NetFrameFetch { rx } => {
            let n = words_of_bytes((rx % 0x800) as usize);
            ComAction::FetchFrame { expected_words: n as u16 }
        },
        ComCommand::NetFrameSend { rx } => {
            let num_bytes: u16 = rx % 0x800;
            match net_frame_from_words(num_bytes, v.as_slice()) {
                Some(f) => {
                    if ok && state.com_net_bridge_enable {
                        let ghost fs = frame_from_words((rx % 0x800) as int, v@);
                        assert(f@ =~= fs->Some_0);
                        ComAction::SendFrame(f)
                    } else {
                        ComAction::Nothing
                    }
                },
                None => ComAction::Nothing,
            }
        },
        ComCommand::Unknown => {
            let r = ComAction::Reply(vec![COM_ERROR_WORD]);
            assert(r@ == com_step_spec(*old(state), cmd, args@).1) by {
                if let ComAction::Reply(x) = r {
                    assert(x@ =~= seq![COM_ERROR_WORD]);
                }
            }
            r
        },
        _ => ComAction::Serve(cmd),
    }
}

impl EcComState {
    /// The state at boot: WiFi in use but not yet running, bridge on, no lock
    pub fn new(now: u32) -> (r: Self)
        ensures
            r == (EcComState {
                flash_update_lock: false,
                com_sentinel: 0,
                use_wifi: true,
                wifi_ready: false,
                com_net_bridge_enable: true,
                soc_off_delay_timer: now,
            }),
    {
        EcComState {
            flash_update_lock: false,
            com_sentinel: 0,
            use_wifi: true,
            wifi_ready: false,
            com_net_bridge_enable: true,
            soc_off_delay_timer: now,
        }
    }

    /// After a momentary reset of the WF200 and its initialization, which reported
    /// success or not (`init_ok`): WiFi is in use, and ready exactly when it initialized
    pub fn wifi_reset_done(&mut self, init_ok: bool)
        ensures
            *final(self) == (EcComState { use_wifi: true, wifi_ready: init_ok, ..*old(self) }),
    {
        self.use_wifi = true;
        self.wifi_ready = init_ok;
    }

    /// Whether the WiFi event handling of the main loop runs: when the WF200 is in use
    /// and ready, and no flash update holds the lock
    pub fn wifi_events_enabled(&self) -> (r: bool)
        ensures
            r == (!self.flash_update_lock && self.use_wifi && self.wifi_ready),
    {
        !self.flash_update_lock && self.use_wifi && self.wifi_ready
    }

    /// Whether the periodic work of the main loop (WiFi events, DHCP clock, charger,
    /// IMU tap, debug console, SoC power watch) runs: not while a flash update holds the
    /// lock, so that only the COM bus is served
    pub fn periodic_tasks_enabled(&self) -> (r: bool)
        ensures
            r == !self.flash_update_lock,
    {
        !self.flash_update_lock
    }

    /// Whether the COM bus is served at `now` (ms) with the SoC powered (`soc_on`) or
    /// not: while the SoC is off, and for `SOC_SETTLE_MS` after it came up, the COM FIFO
    /// is held in reset instead (false), to throw away power-on transition noise. During
    /// a flash update the bus is always served.
    pub fn com_gate(&mut self, soc_on: bool, now: u32) -> (r: bool)
        ensures
            old(self).flash_update_lock ==> r && *final(self) == *old(self),
            !old(self).flash_update_lock && !soc_on ==> !r && *final(self) == (EcComState {
                soc_off_delay_timer: now,
                ..*old(self)
            }),
            !old(self).flash_update_lock && soc_on ==> *final(self) == *old(self) && r == (now
                >= old(self).soc_off_delay_timer + SOC_SETTLE_MS),
    {
        if self.flash_update_lock {
            return true;
        }
        if !soc_on {
            self.soc_off_delay_timer = now;
            return false;
        }
        (now as u64) >= (self.soc_off_delay_timer as u64) + SOC_SETTLE_MS
    }
}

/// Ticks of the main loop during which a detected tap is not looked for again
pub const TAP_HOLDOFF: u32 = 1000;

/// Whether the IMU tap source is read this round: to look for a tap when no hold-off is
/// running (phase 0), and in the last round of a hold-off (phase 1), only to clear a tap
/// latched meanwhile
pub fn tap_read_needed(phase: u32) -> (r: bool)
    ensures
        r == (phase <= 1),
{
    phase <= 1
}

/// The tap hold-off phase after this round, given whether a tap was read as detected:
/// a tap seen with no hold-off running starts one (and the network statistics are
/// logged); a running hold-off counts down
pub fn tap_phase_next(phase: u32, tapped: bool) -> (r: u32)
    ensures
        phase == 0 ==> r == (if tapped { TAP_HOLDOFF } else { 0 }),
        phase > 0 ==> r == phase - 1,
{
    if phase == 0 {
        if tapped {
            TAP_HOLDOFF
        } else {
            0
        }
    } else {
        phase - 1
    }
}

/// What a DHCP state change means for the WF200 and the host: on entering Bound, ARP
/// offloading starts (Some(true)); on halting, it stops (Some(false)); either way the
/// host gets an IP configuration update interrupt. No change, nothing to do (None).
pub fn dhcp_event_effect(ev: Option<DhcpEvent>) -> (r: Option<bool>)
    ensures
        r == match ev {
            Some(DhcpEvent::ChangedToBound) => Some(true),
            Some(DhcpEvent::ChangedToHalted) => Some(false),
            None => None::<bool>,
        },
{
    match ev {
        Some(DhcpEvent::ChangedToBound) => Some(true),
        Some(DhcpEvent::ChangedToHalted) => Some(false),
        None => None,
    }
}

/// What the debug console does with a byte from the UART
#[derive(Copy, Clone, PartialEq, Eq, Structural, Debug)]
pub enum ConsoleAction {
    /// Nothing to do
    Nothing,
    /// Show the help text
    Help,
    /// Log the network statistics
    NetStats,
    /// Run the shift speed test
    ShiftSpeedTest,
    /// Log the uptime in ms
    UptimeMs,
    /// Log the uptime in s
    UptimeS,
    /// Log the current time in ms
    NowMs,
    /// Log the peak stack usage
    StackCheck,
    /// Toggle the COM bus net bridge; the new setting is given
    BridgeToggled(bool),
}

/// The console's action for a key `key` (None when no byte came through), given the
/// UART state `uart` after that byte: escape turns bypass back on (so that ANSI escape
/// sequences cannot trigger commands), and waking up turns bypass off and shows the help
pub open spec fn console_spec(uart: RxState, key: Option<u8>, s: EcComState) -> (RxState, EcComState, ConsoleAction) {
    match key {
        Some(b) => if b == 0x1B {
            (RxState::BypassOnAwaitA, s, ConsoleAction::Nothing)
        } else if b == 0x68 || b == 0x48 || b == 0x3F {
            (uart, s, ConsoleAction::Help)
        } else if b == 0x31 {
            (uart, s, ConsoleAction::NetStats)
        } else if b == 0x32 {
            (uart, s, ConsoleAction::ShiftSpeedTest)
        } else if b == 0x33 {
            (uart, s, ConsoleAction::UptimeMs)
        } else if b == 0x34 {
            (uart, s, ConsoleAction::UptimeS)
        } else if b == 0x35 {
            (uart, s, ConsoleAction::NowMs)
        } else if b == 0x36 {
            (uart, s, ConsoleAction::StackCheck)
        } else if b == 0x37 {
            (
                uart,
                EcComState { com_net_bridge_enable: !s.com_net_bridge_enable, ..s },
                ConsoleAction::BridgeToggled(!s.com_net_bridge_enable),
            )
        } else {
            (uart, s, ConsoleAction::Nothing)
        },
        None => if uart == RxState::Waking {
            (RxState::BypassOff, s, ConsoleAction::Help)
        } else {
            (uart, s, ConsoleAction::Nothing)
        },
    }
}

/// Handle what the UART gave the console this round (see `console_spec`)
pub fn console_step(uart: &mut RxState, key: Option<u8>, state: &mut EcComState) -> (r: ConsoleAction)
    ensures
        (*final(uart), *final(state), r) == console_spec(*old(uart), key, *old(state)),
{
    match key {
        Some(b) => {
            if b == 0x1B {
                *uart = RxState::BypassOnAwaitA;
                ConsoleAction::Nothing
            } else if b == 0x68 || b == 0x48 || b == 0x3F {
                ConsoleAction::Help
            } else if b == 0x31 {
                ConsoleAction::NetStats
            } else if b == 0x32 {
                ConsoleAction::ShiftSpeedTest
            } else if b == 0x33 {
                ConsoleAction::UptimeMs
            } else if b == 0x34 {
                ConsoleAction::UptimeS
            } else if b == 0x35 {
                ConsoleAction::NowMs
            } else if b == 0x36 {
                ConsoleAction::StackCheck
            } else if b == 0x37 {
                state.com_net_bridge_enable = !state.com_net_bridge_enable;
                ConsoleAction::BridgeToggled(state.com_net_bridge_enable)
            } else {
                ConsoleAction::Nothing
            }
        },
        None => {
            if *uart == RxState::Waking {
                *uart = RxState::BypassOff;
                ConsoleAction::Help
            } else {
                ConsoleAction::Nothing
            }
        },
    }
}

/// The flash update lock: after a lock command only the COM bus is served, until an
/// unlock command; the WF200 interrupt is off meanwhile. No other command changes it.
pub proof fn lemma_flash_lock_protocol(s: EcComState, cmd: ComCommand, args: Seq<Option<u16>>)
    ensures
        com_step_spec(s, ComCommand::FlashLock, args).0.flash_update_lock,
        com_step_spec(s, ComCommand::FlashLock, args).1 == ComActionView::Wf200Irq(false),
        !com_step_spec(s, ComCommand::FlashUnlock, args).0.flash_update_lock,
        com_step_spec(s, ComCommand::FlashUnlock, args).1 == ComActionView::Wf200Irq(true),
        cmd != ComCommand::FlashLock && cmd != ComCommand::FlashUnlock ==> com_step_spec(s, cmd, args).0.flash_update_lock
            == s.flash_update_lock,
{
}

/// The interrupt commands: an acknowledge whose word `w` arrived acknowledges exactly
/// the bits of `w` and changes no state; a mask command whose word arrived sets the mask
/// to it. Only the acknowledge command acknowledges interrupts, and only the mask command
/// changes the mask.
pub proof fn lemma_interrupt_commands(s: EcComState, w: u16, cmd: ComCommand, args: Seq<Option<u16>>)
    ensures
        com_step_spec(s, ComCommand::LinkAckInterrupt, seq![Some(w)]) == (s, ComActionView::AckInterrupt(w)),
        com_step_spec(s, ComCommand::LinkSetIntmask, seq![Some(w)]) == (s, ComActionView::SetIntMask(w)),
        com_step_spec(s, cmd, args).1 is AckInterrupt ==> cmd == ComCommand::LinkAckInterrupt,
        com_step_spec(s, cmd, args).1 is SetIntMask ==> cmd == ComCommand::LinkSetIntmask,
{
    let a = seq![Some(w)];
    assert(all_arrived(a));
    assert(arg_values(a)[0] == w);
}
/// Flash commands take their arguments big-endian: an erase whose four words arrived
/// erases `len = w2 * 65536 + w3` bytes from `w0 * 65536 + w1`, and a page program
/// whose words arrived writes 256 bytes, least significant byte of each data word first,
/// at `w0 * 65536 + w1`; a word missing makes either do nothing. Neither changes state.
pub proof fn lemma_flash_commands(s: EcComState, args: Seq<Option<u16>>)
    ensures
        args.len() == 4 && all_arrived(args) ==> com_step_spec(s, ComCommand::FlashErase, args) == (
            s,
            ComActionView::EraseFlash {
                address: (args[0]->Some_0 * 0x1_0000 + args[1]->Some_0) as u32,
                len: (args[2]->Some_0 * 0x1_0000 + args[3]->Some_0) as u32,
            },
        ),
        args.len() == 130 && all_arrived(args) ==> (com_step_spec(s, ComCommand::FlashPp, args).1 matches ComActionView::ProgramPage { address, page }
            && address == (args[0]->Some_0 * 0x1_0000 + args[1]->Some_0) as u32 && page.len() == 256
            && forall|k: int| 0 <= k < 256 ==> #[trigger] page[k] == (if k % 2 == 0 {
                (args[2 + k / 2]->Some_0 % 256) as u8
            } else {
                (args[2 + k / 2]->Some_0 / 256) as u8
            })),
        !all_arrived(args) ==> com_step_spec(s, ComCommand::FlashErase, args) == (s, ComActionView::Nothing)
            && com_step_spec(s, ComCommand::FlashPp, args) == (s, ComActionView::Nothing),
{
    let v = arg_values(args);
    if all_arrived(args) && args.len() == 130 {
        let w = v.subrange(2, 130);
        assert forall|k: int| 0 <= k < 256 implies #[trigger] le_unpacked(w)[k] == (if k % 2 == 0 {
            (args[2 + k / 2]->Some_0 % 256) as u8
        } else {
            (args[2 + k / 2]->Some_0 / 256) as u8
        }) by {
            assert(w[k / 2] == v[2 + k / 2]);
        }
    }
}
} // verus!
