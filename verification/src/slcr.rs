//! Zynq SLCR (System-Level Control Registers): register map and the
//! bring-up sequence that makes UART1 usable without BootROM help.
//!
//! SLCR lives at `0xF800_0000`. It gates all PS-level configuration: PLLs,
//! peripheral clocks, MIO pin muxing and tri-state controls. The registers
//! are write-protected after reset; they are unlocked before any
//! configuration write and locked again afterwards.
//!
//! The bring-up sequence ([`init`], driven by [`SlcrInit::step`]):
//!
//! 1. SLCR unlock
//! 2. IO_PLL: bypass, reset, FDIV = 30, release reset, wait for lock, unbypass
//! 3. UART_CLK_CTRL: source IO_PLL, divisor 10, both UART clocks on
//! 4. MIO pins 48/49 routed to UART1 TX/RX
//! 5. MST_TRI: tri-state released on pins 48 and 49
//! 6. SLCR lock

use vstd::prelude::*;
use crate::mmio::Access;

verus! {

pub const SLCR_BASE: usize = 0xF800_0000;

// Lock / unlock.
pub const SLCR_LOCK: usize = 0x0004;
pub const SLCR_UNLOCK: usize = 0x0008;
pub const SLCR_LOCK_KEY: u32 = 0x767B;
pub const SLCR_UNLOCK_KEY: u32 = 0xDF0D;

// IO_PLL_CTRL.
pub const IO_PLL_CTRL: usize = 0x0108;
/// Reset value: FDIV = 26, bypass and reset clear.
pub const IO_PLL_CTRL_RESET: u32 = 0x0001_A008;
/// FDIV occupies bits [18:12].
pub const IO_PLL_FDIV_SHIFT: u32 = 12;
pub const IO_PLL_FDIV_MASK: u32 = 0x0007_F000;
/// PS_CLK 33.333 MHz x 30 = 1000 MHz.
pub const IO_PLL_TARGET_FDIV: u32 = 30;
/// Bit 4: 1 = PLL output bypassed (PS_CLK drives the output directly).
pub const IO_PLL_BYPASS_FORCE: u32 = 0x0000_0010;
/// Bit 0: 1 = PLL held in reset.
pub const IO_PLL_RESET: u32 = 0x0000_0001;
/// Bit 1: 1 = PLL powered down.
pub const IO_PLL_PWRDWN: u32 = 0x0000_0002;

// PLL_STATUS.
pub const PLL_STATUS: usize = 0x010C;
/// Bit 2: IO_PLL locked.
pub const PLL_STATUS_IO_PLL_LOCK: u32 = 0x0000_0004;
/// Bit 5: IO_PLL locked or bypassed (so not a lock indication).
pub const PLL_STATUS_IO_PLL_STABLE: u32 = 0x0000_0020;
/// How many further status polls are made after the first one before the
/// lock wait gives up.
pub const PLL_LOCK_BUDGET: u32 = 50_000;

// UART_CLK_CTRL.
pub const UART_CLK_CTRL: usize = 0x0154;
/// Reset value: DIVISOR = 63, SRCSEL = IO_PLL, both clocks enabled.
pub const UART_CLK_CTRL_RESET: u32 = 0x0000_3F03;
/// DIVISOR occupies bits [13:8].
pub const UART_CLK_DIVISOR_SHIFT: u32 = 8;
pub const UART_CLK_DIVISOR_MASK: u32 = 0x0000_3F00;
/// SRCSEL occupies bits [5:4]; 00 selects IO_PLL.
pub const UART_CLK_SRCSEL_SHIFT: u32 = 4;
pub const UART_CLK_SRCSEL_MASK: u32 = 0x0000_0030;
/// Bit 1: UART1 reference clock enable.
pub const UART_CLK_CLKACT1: u32 = 0x0000_0002;
/// Bit 0: UART0 reference clock enable.
pub const UART_CLK_CLKACT0: u32 = 0x0000_0001;
/// DIVISOR = 10 (1000 MHz / 10 = 100 MHz), SRCSEL = IO_PLL, CLKACT0 and CLKACT1.
pub const UART_CLK_TARGET: u32 = 0x0000_0A03;

// MIO_PIN_xx layout.
pub const MIO_PIN_BASE: usize = 0x0700;
pub const MIO_PIN_TRI_ENABLE: u32 = 0x0000_0001;
pub const MIO_PIN_L0_SEL: u32 = 0x0000_0002;
pub const MIO_PIN_L1_SEL: u32 = 0x0000_0004;
pub const MIO_PIN_L2_SEL_SHIFT: u32 = 3;
/// L3_SEL occupies bits [7:5]: the peripheral select.
pub const MIO_PIN_L3_SEL_SHIFT: u32 = 5;
pub const MIO_PIN_L3_SEL_MASK: u32 = 0x0000_00E0;
/// Bit 8: 1 = fast CMOS edge.
pub const MIO_PIN_SPEED: u32 = 0x0000_0100;
/// IO_Type occupies bits [11:9].
pub const MIO_PIN_IO_TYPE_SHIFT: u32 = 9;
pub const MIO_PIN_IO_TYPE_MASK: u32 = 0x0000_0E00;
pub const MIO_PIN_IO_TYPE_LVCMOS18: u32 = 0x0000_0200;
pub const MIO_PIN_IO_TYPE_LVCMOS33: u32 = 0x0000_0600;
pub const MIO_PIN_IO_TYPE_HSTL: u32 = 0x0000_0800;
/// Bit 12: 1 = pull-up enabled.
pub const MIO_PIN_PULLUP: u32 = 0x0000_1000;
/// Bit 13: 1 = HSTL input buffer disabled.
pub const MIO_PIN_DISABLE_RCVR: u32 = 0x0000_2000;

/// MIO_PIN_48 (UART1 TxD with L3_SEL = 7) at SLCR + 0x700 + 48 * 4.
pub const MIO_PIN_48_OFF: usize = 0x07C0;
/// MIO_PIN_49 (UART1 RxD with L3_SEL = 7) at SLCR + 0x700 + 49 * 4.
pub const MIO_PIN_49_OFF: usize = 0x07C4;
/// LVCMOS18, fast edge, L3_SEL = 7 (UART1 TxD), tri-state enable off.
pub const MIO_PIN_UART1_TX_VAL: u32 = 0x0000_03E0;
/// As the TX value, plus the pull-up so the RX line does not float.
pub const MIO_PIN_UART1_RX_VAL: u32 = 0x0000_13E0;

// MST_TRI: master tri-state control, one bit per pin, 1 = tri-stated.
/// Pins 0-31.
pub const MST_TRI0: usize = 0x080C;
/// Pins 32-53; pin N is bit N - 32.
pub const MST_TRI1: usize = 0x0810;
/// Pin 48: bit 16 of MST_TRI1.
pub const MST_TRI_PIN48_BIT: u32 = 0x0001_0000;
/// Pin 49: bit 17 of MST_TRI1.
pub const MST_TRI_PIN49_BIT: u32 = 0x0002_0000;

// Absolute register addresses used by the bring-up sequence.
pub const SLCR_LOCK_ADDR: usize = SLCR_BASE + SLCR_LOCK;
pub const SLCR_UNLOCK_ADDR: usize = SLCR_BASE + SLCR_UNLOCK;
pub const IO_PLL_CTRL_ADDR: usize = SLCR_BASE + IO_PLL_CTRL;
pub const PLL_STATUS_ADDR: usize = SLCR_BASE + PLL_STATUS;
pub const UART_CLK_CTRL_ADDR: usize = SLCR_BASE + UART_CLK_CTRL;
pub const MIO_PIN_48_ADDR: usize = SLCR_BASE + MIO_PIN_48_OFF;
pub const MIO_PIN_49_ADDR: usize = SLCR_BASE + MIO_PIN_49_OFF;
pub const MST_TRI1_ADDR: usize = SLCR_BASE + MST_TRI1;

// ---------- Register fields ----------

/// The FDIV field of an IO_PLL_CTRL value.
pub open spec fn pll_fdiv(v: u32) -> u32 {
    (v & IO_PLL_FDIV_MASK) >> IO_PLL_FDIV_SHIFT
}

/// Whether every bit of `mask` is set in `v`.
pub open spec fn bits_set(v: u32, mask: u32) -> bool {
    v & mask == mask
}

/// Whether every bit of `mask` is clear in `v`.
pub open spec fn bits_clear(v: u32, mask: u32) -> bool {
    v & mask == 0
}

/// Whether `a` and `b` agree on every bit outside `mask`.
pub open spec fn same_outside(a: u32, b: u32, mask: u32) -> bool {
    a & !mask == b & !mask
}

/// What IO_PLL_CTRL should hold once the PLL has been reconfigured from a
/// register that read `v`: FDIV = 30, reset and bypass clear, every other
/// bit as it was.
pub open spec fn pll_target(v: u32) -> u32 {
    (v & !(IO_PLL_FDIV_MASK | IO_PLL_RESET | IO_PLL_BYPASS_FORCE))
        | (IO_PLL_TARGET_FDIV << IO_PLL_FDIV_SHIFT)
}

/// `v` with the FDIV field replaced by 30.
pub open spec fn with_target_fdiv(v: u32) -> u32 {
    (v & !IO_PLL_FDIV_MASK) | (IO_PLL_TARGET_FDIV << IO_PLL_FDIV_SHIFT)
}

/// UART_CLK_CTRL after selecting IO_PLL / 10 with both UART clocks on, from
/// a register that read `v`; reserved bits are kept.
pub open spec fn uart_clk_value(v: u32) -> u32 {
    (v & !(UART_CLK_DIVISOR_MASK | UART_CLK_SRCSEL_MASK)) | UART_CLK_TARGET
}

/// MST_TRI1 after releasing pins 48 and 49, from a register that read `v`;
/// the tri-state bits of every other pin are kept.
pub open spec fn mst_tri_value(v: u32) -> u32 {
    v & !(MST_TRI_PIN48_BIT | MST_TRI_PIN49_BIT)
}

/// Whether a PLL_STATUS value reports the IO PLL as locked.
pub open spec fn io_pll_locked(status: u32) -> bool {
    status & PLL_STATUS_IO_PLL_LOCK != 0
}

/// Replace the FDIV field of an IO_PLL_CTRL value, keeping every other bit.
pub fn io_pll_set_fdiv(v: u32, fdiv: u32) -> (r: u32)
    requires
        fdiv < 128,
    ensures
        pll_fdiv(r) == fdiv,
        same_outside(r, v, IO_PLL_FDIV_MASK),
        r == (v & !IO_PLL_FDIV_MASK) | (fdiv << IO_PLL_FDIV_SHIFT),
{
    let r = (v & !IO_PLL_FDIV_MASK) | (fdiv << IO_PLL_FDIV_SHIFT);
    assert(((r & 0x0007_F000u32) >> 12u32) == fdiv && r & !0x0007_F000u32 == v & !0x0007_F000u32)
        by (bit_vector)
        requires
            fdiv < 128,
            r == (v & !0x0007_F000u32) | (fdiv << 12u32),
    ;
    r
}


/// [`pll_target`] has FDIV = 30, reset and bypass clear, and the other bits
/// of the value it was computed from.
pub proof fn lemma_pll_target_fields(v: u32)
    ensures
        pll_fdiv(pll_target(v)) == IO_PLL_TARGET_FDIV,
        bits_clear(pll_target(v), IO_PLL_RESET | IO_PLL_BYPASS_FORCE),
        same_outside(pll_target(v), v, IO_PLL_FDIV_MASK | IO_PLL_RESET | IO_PLL_BYPASS_FORCE),
{
    let p = pll_target(v);
    assert(((p & 0x0007_F000u32) >> 12u32) == 30u32 && p & (0x1u32 | 0x10u32) == 0 && p & !(
    0x0007_F000u32 | 0x1u32 | 0x10u32) == v & !(0x0007_F000u32 | 0x1u32 | 0x10u32))
        by (bit_vector)
        requires
            p == (v & !(0x0007_F000u32 | 0x1u32 | 0x10u32)) | (30u32 << 12u32),
    ;
}

/// [`uart_clk_value`] has DIVISOR = 10, SRCSEL = IO_PLL, both UART clocks
/// enabled, and the other bits of the value it was computed from.
pub proof fn lemma_uart_clk_value_fields(u: u32)
    ensures
        (uart_clk_value(u) & UART_CLK_DIVISOR_MASK) >> UART_CLK_DIVISOR_SHIFT == 10,
        bits_clear(uart_clk_value(u), UART_CLK_SRCSEL_MASK),
        bits_set(uart_clk_value(u), UART_CLK_CLKACT0 | UART_CLK_CLKACT1),
        same_outside(
            uart_clk_value(u),
            u,
            UART_CLK_DIVISOR_MASK | UART_CLK_SRCSEL_MASK | UART_CLK_CLKACT0 | UART_CLK_CLKACT1,
        ),
{
    let x = uart_clk_value(u);
    assert(((x & 0x3F00u32) >> 8u32) == 10u32 && x & 0x30u32 == 0 && x & (0x1u32 | 0x2u32) == (
    0x1u32 | 0x2u32) && x & !(0x3F00u32 | 0x30u32 | 0x1u32 | 0x2u32) == u & !(0x3F00u32 | 0x30u32
        | 0x1u32 | 0x2u32)) by (bit_vector)
        requires
            x == (u & !(0x3F00u32 | 0x30u32)) | 0x0A03u32,
    ;
}

/// [`mst_tri_value`] releases pins 48 and 49 and keeps every other pin's bit.
pub proof fn lemma_mst_tri_value_fields(t: u32)
    ensures
        bits_clear(mst_tri_value(t), MST_TRI_PIN48_BIT | MST_TRI_PIN49_BIT),
        same_outside(mst_tri_value(t), t, MST_TRI_PIN48_BIT | MST_TRI_PIN49_BIT),
{
    let y = mst_tri_value(t);
    assert(y & (0x0001_0000u32 | 0x0002_0000u32) == 0 && y & !(0x0001_0000u32 | 0x0002_0000u32)
        == t & !(0x0001_0000u32 | 0x0002_0000u32)) by (bit_vector)
        requires
            y == t & !(0x0001_0000u32 | 0x0002_0000u32),
    ;
}

/// Select IO_PLL / 10 as UART reference clock with both UART clocks on, in a
/// UART_CLK_CTRL value that read `v`; reserved and clock-ramp bits are kept.
pub fn uart_clk_select(v: u32) -> (r: u32)
    ensures
        r == uart_clk_value(v),
        (r & UART_CLK_DIVISOR_MASK) >> UART_CLK_DIVISOR_SHIFT == 10,
        bits_clear(r, UART_CLK_SRCSEL_MASK),
        bits_set(r, UART_CLK_CLKACT0 | UART_CLK_CLKACT1),
        same_outside(
            r,
            v,
            UART_CLK_DIVISOR_MASK | UART_CLK_SRCSEL_MASK | UART_CLK_CLKACT0 | UART_CLK_CLKACT1,
        ),
{
    proof {
        lemma_uart_clk_value_fields(v);
    }
    (v & !(UART_CLK_DIVISOR_MASK | UART_CLK_SRCSEL_MASK)) | UART_CLK_TARGET
}

/// Release the tri-state of MIO pins 48 and 49 in an MST_TRI1 value that
/// read `v`; every other pin keeps its tri-state bit.
pub fn mst_tri_release_uart1(v: u32) -> (r: u32)
    ensures
        r == mst_tri_value(v),
        bits_clear(r, MST_TRI_PIN48_BIT | MST_TRI_PIN49_BIT),
        same_outside(r, v, MST_TRI_PIN48_BIT | MST_TRI_PIN49_BIT),
{
    proof {
        lemma_mst_tri_value_fields(v);
    }
    v & !(MST_TRI_PIN48_BIT | MST_TRI_PIN49_BIT)
}

// ---------- Bring-up sequencer ----------

/// Where the bring-up sequence stands: the access the next `step` makes.
#[derive(Clone, Copy, Debug, PartialEq, Eq, Structural)]
pub enum InitPhase {
    /// Write the unlock key.
    Unlock,
    /// Read IO_PLL_CTRL.
    ReadPllCtrl,
    /// Write IO_PLL_CTRL with bypass set (the reply is the value read).
    PllBypass,
    /// Write IO_PLL_CTRL with reset set as well.
    PllReset,
    /// Write IO_PLL_CTRL with the new FDIV.
    PllFdiv,
    /// Write IO_PLL_CTRL with reset cleared.
    PllRelease,
    /// Read PLL_STATUS for the first time.
    PllReadStatus,
    /// Inspect the PLL_STATUS just read: unbypass, poll again, or give up.
    PllWaitLock,
    /// Read UART_CLK_CTRL.
    ReadUartClk,
    /// Write UART_CLK_CTRL (the reply is the value read).
    WriteUartClk,
    /// Route MIO pin 48 to UART1 TxD.
    RouteTx,
    /// Route MIO pin 49 to UART1 RxD.
    RouteRx,
    /// Read MST_TRI1.
    ReadTri,
    /// Write MST_TRI1 (the reply is the value read).
    WriteTri,
    /// Write the lock key.
    Lock,
    /// Sequence complete.
    Finished,
    /// The IO PLL never reported lock.
    Failed,
}

/// Position of a phase in the sequence.
pub open spec fn rank(p: InitPhase) -> nat {
    match p {
        InitPhase::Unlock => 0,
        InitPhase::ReadPllCtrl => 1,
        InitPhase::PllBypass => 2,
        InitPhase::PllReset => 3,
        InitPhase::PllFdiv => 4,
        InitPhase::PllRelease => 5,
        InitPhase::PllReadStatus => 6,
        InitPhase::PllWaitLock => 7,
        InitPhase::ReadUartClk => 8,
        InitPhase::WriteUartClk => 9,
        InitPhase::RouteTx => 10,
        InitPhase::RouteRx => 11,
        InitPhase::ReadTri => 12,
        InitPhase::WriteTri => 13,
        InitPhase::Lock => 14,
        InitPhase::Finished => 15,
        InitPhase::Failed => 16,
    }
}

/// Lock state of the SLCR after a register store.
pub open spec fn lock_after(unlocked: bool, addr: usize, value: u32) -> bool {
    if addr == SLCR_UNLOCK_ADDR && value == SLCR_UNLOCK_KEY {
        true
    } else if addr == SLCR_LOCK_ADDR && value == SLCR_LOCK_KEY {
        false
    } else {
        unlocked
    }
}

/// The SLCR bring-up sequencer.
///
/// Each [`step`](SlcrInit::step) returns the next bus access. The value
/// passed to `step` is the value of the register read by the previous
/// access when that access was a read; it is ignored otherwise.
pub struct SlcrInit {
    pub phase: InitPhase,
    /// The value last written to IO_PLL_CTRL.
    pub ctrl: u32,
    /// Status polls left before the lock wait gives up.
    pub budget: u32,
    /// Whether the stores made so far leave the SLCR unlocked.
    pub unlocked: Ghost<bool>,
    /// The value of each register as last stored by this sequence.
    pub written: Ghost<Map<usize, u32>>,
    /// IO_PLL_CTRL as read before reconfiguration.
    pub read_ctrl: Ghost<u32>,
    /// UART_CLK_CTRL as read before reconfiguration.
    pub read_uart_clk: Ghost<u32>,
    /// MST_TRI1 as read before reconfiguration.
    pub read_tri: Ghost<u32>,
    /// Number of PLL_STATUS reads requested so far.
    pub polls: Ghost<nat>,
}

impl SlcrInit {
    /// The access the sequencer makes in its current state, given the
    /// value of the last register read.
    pub open spec fn action(self, reply: u32) -> Access {
        match self.phase {
            InitPhase::Unlock => Access::Write { addr: SLCR_UNLOCK_ADDR, value: SLCR_UNLOCK_KEY },
            InitPhase::ReadPllCtrl => Access::Read { addr: IO_PLL_CTRL_ADDR },
            InitPhase::PllBypass => Access::Write {
                addr: IO_PLL_CTRL_ADDR,
                value: reply | IO_PLL_BYPASS_FORCE,
            },
            InitPhase::PllReset => Access::Write {
                addr: IO_PLL_CTRL_ADDR,
                value: self.ctrl | IO_PLL_RESET,
            },
            InitPhase::PllFdiv => Access::Write {
                addr: IO_PLL_CTRL_ADDR,
                value: with_target_fdiv(self.ctrl),
            },
            InitPhase::PllRelease => Access::Write {
                addr: IO_PLL_CTRL_ADDR,
                value: self.ctrl & !IO_PLL_RESET,
            },
            InitPhase::PllReadStatus => Access::Read { addr: PLL_STATUS_ADDR },
            InitPhase::PllWaitLock => if io_pll_locked(reply) {
                Access::Write { addr: IO_PLL_CTRL_ADDR, value: self.ctrl & !IO_PLL_BYPASS_FORCE }
            } else if self.budget == 0 {
                Access::Fault
            } else {
                Access::Read { addr: PLL_STATUS_ADDR }
            },
            InitPhase::ReadUartClk => Access::Read { addr: UART_CLK_CTRL_ADDR },
            InitPhase::WriteUartClk => Access::Write {
                addr: UART_CLK_CTRL_ADDR,
                value: uart_clk_value(reply),
            },
            InitPhase::RouteTx => Access::Write { addr: MIO_PIN_48_ADDR, value: MIO_PIN_UART1_TX_VAL },
            InitPhase::RouteRx => Access::Write { addr: MIO_PIN_49_ADDR, value: MIO_PIN_UART1_RX_VAL },
            InitPhase::ReadTri => Access::Read { addr: MST_TRI1_ADDR },
            InitPhase::WriteTri => Access::Write { addr: MST_TRI1_ADDR, value: mst_tri_value(reply) },
            InitPhase::Lock => Access::Write { addr: SLCR_LOCK_ADDR, value: SLCR_LOCK_KEY },
            InitPhase::Finished => Access::Done,
            InitPhase::Failed => Access::Fault,
        }
    }

    /// The sequencer's own state after a step (phase, shadowed control value,
    /// budget and the register values it read).
    pub open spec fn advance(self, reply: u32) -> SlcrInit {
        match self.phase {
            InitPhase::Unlock => SlcrInit { phase: InitPhase::ReadPllCtrl, ..self },
            InitPhase::ReadPllCtrl => SlcrInit { phase: InitPhase::PllBypass, ..self },
            InitPhase::PllBypass => SlcrInit {
                phase: InitPhase::PllReset,
                ctrl: reply | IO_PLL_BYPASS_FORCE,
                read_ctrl: Ghost(reply),
                ..self
            },
            InitPhase::PllReset => SlcrInit {
                phase: InitPhase::PllFdiv,
                ctrl: self.ctrl | IO_PLL_RESET,
                ..self
            },
            InitPhase::PllFdiv => SlcrInit {
                phase: InitPhase::PllRelease,
                ctrl: with_target_fdiv(self.ctrl),
                ..self
            },
            InitPhase::PllRelease => SlcrInit {
                phase: InitPhase::PllReadStatus,
                ctrl: self.ctrl & !IO_PLL_RESET,
                ..self
            },
            InitPhase::PllReadStatus => SlcrInit { phase: InitPhase::PllWaitLock, ..self },
            InitPhase::PllWaitLock => if io_pll_locked(reply) {
                SlcrInit {
                    phase: InitPhase::ReadUartClk,
                    ctrl: self.ctrl & !IO_PLL_BYPASS_FORCE,
                    ..self
                }
            } else if self.budget == 0 {
                SlcrInit { phase: InitPhase::Failed, ..self }
            } else {
                SlcrInit { budget: (self.budget - 1) as u32, ..self }
            },
            InitPhase::ReadUartClk => SlcrInit { phase: InitPhase::WriteUartClk, ..self },
            InitPhase::WriteUartClk => SlcrInit {
                phase: InitPhase::RouteTx,
                read_uart_clk: Ghost(reply),
                ..self
            },
            InitPhase::RouteTx => SlcrInit { phase: InitPhase::RouteRx, ..self },
            InitPhase::RouteRx => SlcrInit { phase: InitPhase::ReadTri, ..self },
            InitPhase::ReadTri => SlcrInit { phase: InitPhase::WriteTri, ..self },
            InitPhase::WriteTri => SlcrInit {
                phase: InitPhase::Lock,
                read_tri: Ghost(reply),
                ..self
            },
            InitPhase::Lock => SlcrInit { phase: InitPhase::Finished, ..self },
            InitPhase::Finished => self,
            InitPhase::Failed => self,
        }
    }

    /// Record an access in the model of what the sequence has done to the bus.
    pub open spec fn record(self, a: Access) -> SlcrInit {
        match a {
            Access::Write { addr, value } => SlcrInit {
                unlocked: Ghost(lock_after(self.unlocked@, addr, value)),
                written: Ghost(self.written@.insert(addr, value)),
                ..self
            },
            Access::Read { addr } => if addr == PLL_STATUS_ADDR {
                SlcrInit { polls: Ghost(self.polls@ + 1), ..self }
            } else {
                self
            },
            _ => self,
        }
    }

    /// The state after one step with the given reply.
    pub open spec fn next(self, reply: u32) -> SlcrInit {
        self.advance(reply).record(self.action(reply))
    }

    /// Whether the sequence has ended (successfully or not).
    pub open spec fn is_terminal(self) -> bool {
        self.phase == InitPhase::Finished || self.phase == InitPhase::Failed
    }

    /// Upper bound on the number of steps left before the sequence ends.
    pub open spec fn steps_left(self) -> nat {
        if self.is_terminal() {
            0
        } else if rank(self.phase) <= 7 {
            (16 - rank(self.phase)) as nat + self.budget as nat
        } else {
            (16 - rank(self.phase)) as nat
        }
    }

    /// The invariant that every state reachable from [`init`] satisfies.
    pub open spec fn wf(self) -> bool {
        let r = rank(self.phase);
        let w = self.written@;
        let v = self.read_ctrl@;
        &&& self.budget <= PLL_LOCK_BUDGET
        &&& r < 7 ==> self.budget == PLL_LOCK_BUDGET
        &&& self.unlocked@ == ((1 <= r && r <= 14) || self.phase == InitPhase::Failed)
        &&& (3 <= r && r <= 7) ==> w.contains_key(IO_PLL_CTRL_ADDR) && w[IO_PLL_CTRL_ADDR] == self.ctrl
        &&& self.phase == InitPhase::PllReset ==> self.ctrl == v | IO_PLL_BYPASS_FORCE
        &&& self.phase == InitPhase::PllFdiv ==> self.ctrl == v | IO_PLL_BYPASS_FORCE | IO_PLL_RESET
        &&& self.phase == InitPhase::PllRelease ==> self.ctrl == with_target_fdiv(
            v | IO_PLL_BYPASS_FORCE | IO_PLL_RESET,
        )
        &&& (self.phase == InitPhase::PllReadStatus || self.phase == InitPhase::PllWaitLock)
            ==> self.ctrl == with_target_fdiv(v | IO_PLL_BYPASS_FORCE | IO_PLL_RESET)
            & !IO_PLL_RESET
        &&& (8 <= r && r <= 15) ==> w.contains_key(IO_PLL_CTRL_ADDR) && w[IO_PLL_CTRL_ADDR]
            == pll_target(v)
        &&& (10 <= r && r <= 15) ==> w.contains_key(UART_CLK_CTRL_ADDR) && w[UART_CLK_CTRL_ADDR]
            == uart_clk_value(self.read_uart_clk@)
        &&& (11 <= r && r <= 15) ==> w.contains_key(MIO_PIN_48_ADDR) && w[MIO_PIN_48_ADDR]
            == MIO_PIN_UART1_TX_VAL
        &&& (12 <= r && r <= 15) ==> w.contains_key(MIO_PIN_49_ADDR) && w[MIO_PIN_49_ADDR]
            == MIO_PIN_UART1_RX_VAL
        &&& (14 <= r && r <= 15) ==> w.contains_key(MST_TRI1_ADDR) && w[MST_TRI1_ADDR]
            == mst_tri_value(self.read_tri@)
        &&& r <= 6 ==> self.polls@ == 0
        &&& r == 7 ==> self.polls@ + self.budget == PLL_LOCK_BUDGET + 1
        &&& r >= 8 ==> self.polls@ <= PLL_LOCK_BUDGET + 1
        &&& self.phase == InitPhase::Failed ==> self.polls@ == PLL_LOCK_BUDGET + 1
    }

    /// Run one step of the bring-up sequence: returns the next bus access and
    /// moves to the following state. `reply` is the value of the register
    /// read by the previous access, when that was a read.
    pub fn step(&mut self, reply: u32) -> (a: Access)
        requires
            old(self).wf(),
        ensures
            a == old(self).action(reply),
            *final(self) == old(self).next(reply),
            final(self).wf(),
            old(self).phase == InitPhase::PllWaitLock && reply & 0x4u32 != 0 ==> a == (Access::Write {
                addr: 0xF800_0108usize,
                value: old(self).ctrl & !0x10u32,
            }),
            old(self).phase == InitPhase::PllWaitLock && reply & 0x4u32 == 0 && old(self).budget > 0
                ==> a == (Access::Read { addr: 0xF800_010Cusize }),
            old(self).phase == InitPhase::PllWaitLock && reply & 0x4u32 == 0 && old(self).budget == 0
                ==> a == Access::Fault,
            a matches Access::Write { addr, value } && addr == 0xF800_0108usize && value & 0x10u32
                == 0 ==> old(self).phase == InitPhase::PllWaitLock && reply & 0x4u32 != 0,
    {
        proof {
            lemma_pll_sequence_reaches_target(self.read_ctrl@);
            lemma_io_pll_unbypassed_only_after_lock_bit(*self, reply);
        }
        let a = match self.phase {
            InitPhase::Unlock => {
                self.phase = InitPhase::ReadPllCtrl;
                Access::Write { addr: SLCR_UNLOCK_ADDR, value: SLCR_UNLOCK_KEY }
            },
            InitPhase::ReadPllCtrl => {
                self.phase = InitPhase::PllBypass;
                Access::Read { addr: IO_PLL_CTRL_ADDR }
            },
            InitPhase::PllBypass => {
                self.phase = InitPhase::PllReset;
                self.ctrl = reply | IO_PLL_BYPASS_FORCE;
                self.read_ctrl = Ghost(reply);
                proof {
                    lemma_pll_sequence_reaches_target(reply);
                }
                Access::Write { addr: IO_PLL_CTRL_ADDR, value: self.ctrl }
            },
            InitPhase::PllReset => {
                self.phase = InitPhase::PllFdiv;
                self.ctrl = self.ctrl | IO_PLL_RESET;
                Access::Write { addr: IO_PLL_CTRL_ADDR, value: self.ctrl }
            },
            InitPhase::PllFdiv => {
                self.phase = InitPhase::PllRelease;
                self.ctrl = io_pll_set_fdiv(self.ctrl, IO_PLL_TARGET_FDIV);
                Access::Write { addr: IO_PLL_CTRL_ADDR, value: self.ctrl }
            },
            InitPhase::PllRelease => {
                self.phase = InitPhase::PllReadStatus;
                self.ctrl = self.ctrl & !IO_PLL_RESET;
                Access::Write { addr: IO_PLL_CTRL_ADDR, value: self.ctrl }
            },
            InitPhase::PllReadStatus => {
                self.phase = InitPhase::PllWaitLock;
                Access::Read { addr: PLL_STATUS_ADDR }
            },
            InitPhase::PllWaitLock => {
                if (reply & PLL_STATUS_IO_PLL_LOCK) != 0 {
                    self.phase = InitPhase::ReadUartClk;
                    self.ctrl = self.ctrl & !IO_PLL_BYPASS_FORCE;
                    Access::Write { addr: IO_PLL_CTRL_ADDR, value: self.ctrl }
                } else if self.budget == 0 {
                    self.phase = InitPhase::Failed;
                    Access::Fault
                } else {
                    self.budget = self.budget - 1;
                    Access::Read { addr: PLL_STATUS_ADDR }
                }
            },
            InitPhase::ReadUartClk => {
                self.phase = InitPhase::WriteUartClk;
                Access::Read { addr: UART_CLK_CTRL_ADDR }
            },
            InitPhase::WriteUartClk => {
                self.phase = InitPhase::RouteTx;
                self.read_uart_clk = Ghost(reply);
                let v = uart_clk_select(reply);
                Access::Write { addr: UART_CLK_CTRL_ADDR, value: v }
            },
            InitPhase::RouteTx => {
                self.phase = InitPhase::RouteRx;
                Access::Write { addr: MIO_PIN_48_ADDR, value: MIO_PIN_UART1_TX_VAL }
            },
            InitPhase::RouteRx => {
                self.phase = InitPhase::ReadTri;
                Access::Write { addr: MIO_PIN_49_ADDR, value: MIO_PIN_UART1_RX_VAL }
            },
            InitPhase::ReadTri => {
                self.phase = InitPhase::WriteTri;
                Access::Read { addr: MST_TRI1_ADDR }
            },
            InitPhase::WriteTri => {
                self.phase = InitPhase::Lock;
                self.read_tri = Ghost(reply);
                let v = mst_tri_release_uart1(reply);
                Access::Write { addr: MST_TRI1_ADDR, value: v }
            },
            InitPhase::Lock => {
                self.phase = InitPhase::Finished;
                Access::Write { addr: SLCR_LOCK_ADDR, value: SLCR_LOCK_KEY }
            },
            InitPhase::Finished => Access::Done,
            InitPhase::Failed => Access::Fault,
        };
        self.note(a);
        a
    }

    /// Record an access in the ghost model.
    fn note(&mut self, a: Access)
        ensures
            *final(self) == old(self).record(a),
    {
        match a {
            Access::Write { addr, value } => {
                self.unlocked = Ghost(lock_after(self.unlocked@, addr, value));
                self.written = Ghost(self.written@.insert(addr, value));
            },
            Access::Read { addr } => {
                if addr == PLL_STATUS_ADDR {
                    self.polls = Ghost(self.polls@ + 1);
                }
            },
            _ => {},
        }
    }
}

/// Start the SLCR bring-up: a sequencer positioned before the unlock write.
/// Running it to completion unlocks the SLCR, reconfigures IO_PLL to FDIV =
/// 30, selects IO_PLL / 10 for the UART reference clock, routes MIO 48/49 to
/// UART1, releases their tri-state and locks the SLCR again.
pub fn init() -> (m: SlcrInit)
    ensures
        m.phase == InitPhase::Unlock,
        m.budget == PLL_LOCK_BUDGET,
        !m.unlocked@,
        m.written@ == Map::<usize, u32>::empty(),
        m.polls@ == 0,
        m.steps_left() == 16 + PLL_LOCK_BUDGET,
        m.wf(),
{
    SlcrInit {
        phase: InitPhase::Unlock,
        ctrl: 0,
        budget: PLL_LOCK_BUDGET,
        unlocked: Ghost(false),
        written: Ghost(Map::empty()),
        read_ctrl: Ghost(0),
        read_uart_clk: Ghost(0),
        read_tri: Ghost(0),
        polls: Ghost(0),
    }
}

/// Bypassing, resetting, setting FDIV, releasing reset and unbypassing a PLL
/// control value `v` leaves exactly [`pll_target`]`(v)`.
pub proof fn lemma_pll_sequence_reaches_target(v: u32)
    ensures
        (with_target_fdiv(v | IO_PLL_BYPASS_FORCE | IO_PLL_RESET) & !IO_PLL_RESET)
            & !IO_PLL_BYPASS_FORCE == pll_target(v),
{
    assert((((v | 0x10u32 | 0x1u32) & !0x0007_F000u32) | (30u32 << 12u32)) & !0x1u32 & !0x10u32
        == (v & !(0x0007_F000u32 | 0x1u32 | 0x10u32)) | (30u32 << 12u32)) by (bit_vector);
}


// ---------- Properties of the bring-up sequence ----------

/// The value IO_PLL_CTRL holds when the sequencer makes its next access
/// (for the first PLL write, the value just read).
pub open spec fn pll_ctrl_before(m: SlcrInit, reply: u32) -> u32 {
    if m.phase == InitPhase::PllBypass {
        reply
    } else {
        m.ctrl
    }
}

/// Every store to a configuration register (any register but the two key
/// registers) is made while the SLCR is unlocked, and the very first access
/// of the sequence is the unlock store.
pub proof fn lemma_config_writes_while_unlocked(m: SlcrInit, reply: u32)
    requires
        m.wf(),
    ensures
        match m.action(reply) {
            Access::Write { addr, value } => (addr != SLCR_UNLOCK_ADDR && addr != SLCR_LOCK_ADDR)
                ==> m.unlocked@,
            _ => true,
        },
        m.phase == InitPhase::Unlock ==> m.action(reply) == (Access::Write {
            addr: SLCR_UNLOCK_ADDR,
            value: SLCR_UNLOCK_KEY,
        }),
{
}

/// The IO PLL is reconfigured glitch-free: its FDIV is only changed by a
/// store that also holds the PLL in reset and bypass; reset is only ever
/// asserted together with bypass; and bypass is only dropped by the store
/// that follows a status read reporting lock.
pub proof fn lemma_pll_reconfigured_glitch_free(m: SlcrInit, reply: u32)
    requires
        m.wf(),
    ensures
        match m.action(reply) {
            Access::Write { addr, value } => addr == IO_PLL_CTRL_ADDR ==> {
                &&& pll_fdiv(value) != pll_fdiv(pll_ctrl_before(m, reply)) ==> bits_set(
                    value,
                    IO_PLL_RESET,
                ) && bits_set(value, IO_PLL_BYPASS_FORCE)
                &&& bits_set(value, IO_PLL_RESET) ==> bits_set(value, IO_PLL_BYPASS_FORCE)
                &&& !bits_set(value, IO_PLL_BYPASS_FORCE) ==> m.phase == InitPhase::PllWaitLock
                    && io_pll_locked(reply)
            },
            _ => true,
        },
{
    let v = m.read_ctrl@;
    let c = m.ctrl;
    // Setting or clearing bit 0 or bit 4 leaves FDIV alone.
    assert(forall|x: u32|
        #![auto]
        (((x | 0x10u32) & 0x0007_F000u32) >> 12u32) == ((x & 0x0007_F000u32) >> 12u32) && (((x
            | 0x1u32) & 0x0007_F000u32) >> 12u32) == ((x & 0x0007_F000u32) >> 12u32) && (((x
            & !0x1u32) & 0x0007_F000u32) >> 12u32) == ((x & 0x0007_F000u32) >> 12u32) && (((x
            & !0x10u32) & 0x0007_F000u32) >> 12u32) == ((x & 0x0007_F000u32) >> 12u32))
        by (bit_vector);
    assert(forall|x: u32|
        #![auto]
        (x | 0x10u32) & 0x10u32 == 0x10u32 && ((x | 0x10u32) & 0x1u32 == 0x1u32 ==> (x | 0x10u32)
            & 0x10u32 == 0x10u32)) by (bit_vector);
    match m.phase {
        InitPhase::PllReset => {
            assert((c | 0x1u32) & 0x10u32 == 0x10u32) by (bit_vector)
                requires
                    c == v | 0x10u32,
            ;
        },
        InitPhase::PllFdiv => {
            let w = (c & !0x0007_F000u32) | (30u32 << 12u32);
            assert(w & 0x10u32 == 0x10u32 && w & 0x1u32 == 0x1u32) by (bit_vector)
                requires
                    c == v | 0x10u32 | 0x1u32,
                    w == (c & !0x0007_F000u32) | (30u32 << 12u32),
            ;
        },
        InitPhase::PllRelease => {
            let w = c & !0x1u32;
            assert(w & 0x10u32 == 0x10u32 && w & 0x1u32 != 0x1u32) by (bit_vector)
                requires
                    c == (((v | 0x10u32 | 0x1u32) & !0x0007_F000u32) | (30u32 << 12u32)),
                    w == c & !0x1u32,
            ;
        },
        InitPhase::PllWaitLock => {
            let w = c & !0x10u32;
            assert(w & 0x1u32 != 0x1u32) by (bit_vector)
                requires
                    c == (((v | 0x10u32 | 0x1u32) & !0x0007_F000u32) | (30u32 << 12u32)) & !0x1u32,
                    w == c & !0x10u32,
            ;
        },
        _ => {},
    }
}

/// The UART clock is only reprogrammed once the IO PLL runs at its new
/// frequency: any store to UART_CLK_CTRL comes after the store that left
/// IO_PLL_CTRL at its target, out of reset and bypass.
pub proof fn lemma_uart_clock_after_pll(m: SlcrInit, reply: u32)
    requires
        m.wf(),
    ensures
        match m.action(reply) {
            Access::Write { addr, value } => addr == UART_CLK_CTRL_ADDR ==> {
                &&& m.written@.contains_key(IO_PLL_CTRL_ADDR)
                &&& m.written@[IO_PLL_CTRL_ADDR] == pll_target(m.read_ctrl@)
                &&& bits_clear(m.written@[IO_PLL_CTRL_ADDR], IO_PLL_RESET | IO_PLL_BYPASS_FORCE)
            },
            _ => true,
        },
{
    lemma_pll_target_fields(m.read_ctrl@);
}

/// Once the sequence reports completion the SLCR is locked again and the
/// registers it configured hold their targets: IO_PLL runs at FDIV = 30,
/// out of reset and bypass, with its other control bits as found; the UART
/// reference clock is IO_PLL / 10 with both UART clocks on and reserved bits
/// as found; MIO 48/49 are routed to UART1; and only pins 48 and 49 lost
/// their tri-state.
pub proof fn lemma_finished_configuration(m: SlcrInit)
    requires
        m.wf(),
        m.phase == InitPhase::Finished,
    ensures
        !m.unlocked@,
        m.written@.contains_key(IO_PLL_CTRL_ADDR),
        m.written@[IO_PLL_CTRL_ADDR] == pll_target(m.read_ctrl@),
        pll_fdiv(m.written@[IO_PLL_CTRL_ADDR]) == IO_PLL_TARGET_FDIV,
        bits_clear(m.written@[IO_PLL_CTRL_ADDR], IO_PLL_RESET | IO_PLL_BYPASS_FORCE),
        same_outside(
            m.written@[IO_PLL_CTRL_ADDR],
            m.read_ctrl@,
            IO_PLL_FDIV_MASK | IO_PLL_RESET | IO_PLL_BYPASS_FORCE,
        ),
        m.written@.contains_key(UART_CLK_CTRL_ADDR),
        (m.written@[UART_CLK_CTRL_ADDR] & UART_CLK_DIVISOR_MASK) >> UART_CLK_DIVISOR_SHIFT == 10,
        bits_clear(m.written@[UART_CLK_CTRL_ADDR], UART_CLK_SRCSEL_MASK),
        bits_set(m.written@[UART_CLK_CTRL_ADDR], UART_CLK_CLKACT0 | UART_CLK_CLKACT1),
        same_outside(
            m.written@[UART_CLK_CTRL_ADDR],
            m.read_uart_clk@,
            UART_CLK_DIVISOR_MASK | UART_CLK_SRCSEL_MASK | UART_CLK_CLKACT0 | UART_CLK_CLKACT1,
        ),
        m.written@.contains_key(MIO_PIN_48_ADDR),
        m.written@[MIO_PIN_48_ADDR] == MIO_PIN_UART1_TX_VAL,
        m.written@.contains_key(MIO_PIN_49_ADDR),
        m.written@[MIO_PIN_49_ADDR] == MIO_PIN_UART1_RX_VAL,
        m.written@.contains_key(MST_TRI1_ADDR),
        bits_clear(m.written@[MST_TRI1_ADDR], MST_TRI_PIN48_BIT | MST_TRI_PIN49_BIT),
        same_outside(
            m.written@[MST_TRI1_ADDR],
            m.read_tri@,
            MST_TRI_PIN48_BIT | MST_TRI_PIN49_BIT,
        ),
{
    lemma_pll_target_fields(m.read_ctrl@);
    lemma_uart_clk_value_fields(m.read_uart_clk@);
    lemma_mst_tri_value_fields(m.read_tri@);
}

/// The sequence gives up only when the lock wait has run out: PLL_STATUS has
/// then been read `PLL_LOCK_BUDGET + 1` times and the last read showed no
/// lock (any read showing lock ends the wait).
pub proof fn lemma_fault_only_after_budget(m: SlcrInit, reply: u32)
    requires
        m.wf(),
        m.action(reply) == Access::Fault,
    ensures
        m.polls@ == PLL_LOCK_BUDGET + 1,
        m.phase == InitPhase::Failed || (m.phase == InitPhase::PllWaitLock && m.budget == 0
            && !io_pll_locked(reply)),
{
}

/// Every step of an unfinished sequence brings it closer to its end, so the
/// whole bring-up takes at most `16 + PLL_LOCK_BUDGET` steps; a finished
/// sequence stays put, answering `Done` after success and `Fault` after a
/// lock timeout.
pub proof fn lemma_step_progress(m: SlcrInit, reply: u32)
    requires
        m.wf(),
    ensures
        !m.is_terminal() ==> m.next(reply).steps_left() < m.steps_left(),
        m.phase == InitPhase::Finished ==> m.next(reply) == m && m.action(reply) == Access::Done,
        m.phase == InitPhase::Failed ==> m.next(reply) == m && m.action(reply) == Access::Fault,
        m.action(reply) == Access::Done ==> m.phase == InitPhase::Finished,
{
}

/// The register encodings are what the reference manual asks for: the MIO
/// values select UART1 (L3_SEL = 7, lower mux levels 0) on LVCMOS18 fast pins
/// with tri-state enable off, RX adding only the pull-up; the UART clock
/// target is divisor 10 from IO_PLL with both clocks on; and the masks, bits
/// and pin offsets are the fields and positions they name.
pub proof fn lemma_register_encodings()
    ensures
        (MIO_PIN_UART1_TX_VAL & MIO_PIN_L3_SEL_MASK) >> MIO_PIN_L3_SEL_SHIFT == 7,
        MIO_PIN_UART1_TX_VAL & (MIO_PIN_L0_SEL | MIO_PIN_L1_SEL | (3u32 << MIO_PIN_L2_SEL_SHIFT)) == 0,
        MIO_PIN_UART1_TX_VAL & MIO_PIN_IO_TYPE_MASK == MIO_PIN_IO_TYPE_LVCMOS18,
        bits_set(MIO_PIN_UART1_TX_VAL, MIO_PIN_SPEED),
        bits_clear(MIO_PIN_UART1_TX_VAL, MIO_PIN_TRI_ENABLE | MIO_PIN_PULLUP | MIO_PIN_DISABLE_RCVR),
        MIO_PIN_UART1_RX_VAL == MIO_PIN_UART1_TX_VAL | MIO_PIN_PULLUP,
        MIO_PIN_UART1_TX_VAL == MIO_PIN_IO_TYPE_LVCMOS18 | MIO_PIN_SPEED | (7u32 << MIO_PIN_L3_SEL_SHIFT),
        MIO_PIN_48_OFF == MIO_PIN_BASE + 48 * 4,
        MIO_PIN_49_OFF == MIO_PIN_BASE + 49 * 4,
        UART_CLK_TARGET == (10u32 << UART_CLK_DIVISOR_SHIFT) | UART_CLK_CLKACT0 | UART_CLK_CLKACT1,
        UART_CLK_DIVISOR_MASK == 0x3Fu32 << UART_CLK_DIVISOR_SHIFT,
        UART_CLK_SRCSEL_MASK == 0x3u32 << UART_CLK_SRCSEL_SHIFT,
        IO_PLL_FDIV_MASK == 0x7Fu32 << IO_PLL_FDIV_SHIFT,
        pll_fdiv(IO_PLL_CTRL_RESET) == 26,
        (UART_CLK_CTRL_RESET & UART_CLK_DIVISOR_MASK) >> UART_CLK_DIVISOR_SHIFT == 63,
        MST_TRI_PIN48_BIT == 1u32 << (48u32 - 32u32),
        MST_TRI_PIN49_BIT == 1u32 << (49u32 - 32u32),
{
    assert(((0x03E0u32 & 0xE0u32) >> 5u32) == 7u32) by (bit_vector);
    assert(0x03E0u32 & (0x2u32 | 0x4u32 | (3u32 << 3u32)) == 0) by (bit_vector);
    assert(0x03E0u32 & 0x0E00u32 == 0x0200u32) by (bit_vector);
    assert(0x03E0u32 & 0x0100u32 == 0x0100u32) by (bit_vector);
    assert(0x03E0u32 & (0x1u32 | 0x1000u32 | 0x2000u32) == 0) by (bit_vector);
    assert(0x13E0u32 == 0x03E0u32 | 0x1000u32) by (bit_vector);
    assert(0x03E0u32 == 0x0200u32 | 0x0100u32 | (7u32 << 5u32)) by (bit_vector);
    assert(0x0A03u32 == (10u32 << 8u32) | 0x1u32 | 0x2u32) by (bit_vector);
    assert(0x3F00u32 == 0x3Fu32 << 8u32) by (bit_vector);
    assert(0x30u32 == 0x3u32 << 4u32) by (bit_vector);
    assert(0x0007_F000u32 == 0x7Fu32 << 12u32) by (bit_vector);
    assert(((0x0001_A008u32 & 0x0007_F000u32) >> 12u32) == 26u32) by (bit_vector);
    assert(((0x3F03u32 & 0x3F00u32) >> 8u32) == 63u32) by (bit_vector);
    assert(0x0001_0000u32 == 1u32 << 16u32) by (bit_vector);
    assert(0x0002_0000u32 == 1u32 << 17u32) by (bit_vector);
}


/// Reconfiguring registers that already hold their targets changes nothing:
/// running the bring-up again (as after a BootROM that configured the PLL
/// already) writes back the values it reads.
pub proof fn lemma_reconfiguration_idempotent(v: u32)
    ensures
        pll_target(pll_target(v)) == pll_target(v),
        uart_clk_value(uart_clk_value(v)) == uart_clk_value(v),
        mst_tri_value(mst_tri_value(v)) == mst_tri_value(v),
{
    let p = pll_target(v);
    assert((p & !(0x0007_F000u32 | 0x1u32 | 0x10u32)) | (30u32 << 12u32) == p) by (bit_vector)
        requires
            p == (v & !(0x0007_F000u32 | 0x1u32 | 0x10u32)) | (30u32 << 12u32),
    ;
    let u = uart_clk_value(v);
    assert((u & !(0x3F00u32 | 0x30u32)) | 0x0A03u32 == u) by (bit_vector)
        requires
            u == (v & !(0x3F00u32 | 0x30u32)) | 0x0A03u32,
    ;
    let t = mst_tri_value(v);
    assert(t & !(0x0001_0000u32 | 0x0002_0000u32) == t) by (bit_vector)
        requires
            t == v & !(0x0001_0000u32 | 0x0002_0000u32),
    ;
}


/// The lock wait reads bit 2 (IO_PLL_LOCK, `0x4`) of PLL_STATUS and nothing
/// else: a reply with bit 2 set drops bypass (a store to IO_PLL_CTRL at
/// `0xF800_0108` with bit 4 cleared) and moves on to the UART clock; a reply
/// with bit 2 clear (whatever the other bits, such as IO_PLL_STABLE, say)
/// reads PLL_STATUS at `0xF800_010C` again while budget remains, and gives
/// up once it is spent. Conversely, a store to IO_PLL_CTRL with bit 4 clear
/// is only made in the lock wait, right after a reply with bit 2 set.
pub proof fn lemma_io_pll_unbypassed_only_after_lock_bit(m: SlcrInit, reply: u32)
    requires
        m.wf(),
    ensures
        m.phase == InitPhase::PllWaitLock && reply & 0x4u32 != 0 ==> {
            &&& m.action(reply) == (Access::Write {
                addr: 0xF800_0108usize,
                value: m.ctrl & !0x10u32,
            })
            &&& (m.ctrl & !0x10u32) & 0x10u32 == 0
            &&& m.next(reply).phase == InitPhase::ReadUartClk
        },
        m.phase == InitPhase::PllWaitLock && reply & 0x4u32 == 0 && m.budget > 0 ==> {
            &&& m.action(reply) == (Access::Read { addr: 0xF800_010Cusize })
            &&& m.next(reply).phase == InitPhase::PllWaitLock
            &&& m.next(reply).budget == m.budget - 1
            &&& m.next(reply).ctrl == m.ctrl
        },
        m.phase == InitPhase::PllWaitLock && reply & 0x4u32 == 0 && m.budget == 0 ==> m.action(
            reply,
        ) == Access::Fault,
        m.action(reply) matches Access::Write { addr, value } && addr == 0xF800_0108usize && value
            & 0x10u32 == 0 ==> m.phase == InitPhase::PllWaitLock && reply & 0x4u32 != 0,
{
    lemma_pll_reconfigured_glitch_free(m, reply);
    assert(forall|x: u32| #![auto] (x & !0x10u32) & 0x10u32 == 0) by (bit_vector);
}

} // verus!
