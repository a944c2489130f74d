use std::collections::HashMap;

use tikos::mmio::Access;
use tikos::slcr::{
    init, io_pll_set_fdiv, mst_tri_release_uart1, uart_clk_select, InitPhase, SlcrInit, IO_PLL_CTRL_ADDR, IO_PLL_CTRL_RESET,
    MIO_PIN_48_ADDR, MIO_PIN_49_ADDR, MIO_PIN_UART1_RX_VAL, MIO_PIN_UART1_TX_VAL, MST_TRI1_ADDR,
    PLL_LOCK_BUDGET, PLL_STATUS_ADDR, SLCR_LOCK_ADDR, SLCR_LOCK_KEY, SLCR_UNLOCK_ADDR,
    SLCR_UNLOCK_KEY, UART_CLK_CTRL_ADDR, UART_CLK_CTRL_RESET,
};

/// A register file whose PLL_STATUS shows lock from the `lock_after`-th read on.
struct Bus {
    regs: HashMap<usize, u32>,
    status_reads: u64,
    lock_after: u64,
    trace: Vec<Access>,
}

impl Bus {
    fn new(lock_after: u64) -> Bus {
        let mut regs = HashMap::new();
        regs.insert(IO_PLL_CTRL_ADDR, IO_PLL_CTRL_RESET);
        regs.insert(UART_CLK_CTRL_ADDR, UART_CLK_CTRL_RESET);
        regs.insert(MST_TRI1_ADDR, 0xFFFF_FFFF);
        Bus { regs, status_reads: 0, lock_after, trace: Vec::new() }
    }

    /// Run the sequencer to its end; returns the final access (Done or Fault).
    fn run(&mut self, m: &mut SlcrInit) -> Access {
        let mut reply = 0u32;
        loop {
            let a = m.step(reply);
            self.trace.push(a);
            match a {
                Access::Read { addr } => {
                    reply = if addr == PLL_STATUS_ADDR {
                        self.status_reads += 1;
                        if self.status_reads >= self.lock_after { 0x3F } else { 0x20 }
                    } else {
                        *self.regs.get(&addr).unwrap_or(&0)
                    };
                }
                Access::Write { addr, value } => {
                    self.regs.insert(addr, value);
                }
                Access::Done | Access::Fault => return a,
            }
        }
    }
}

#[test]
fn bring_up_from_reset_values_with_immediate_lock() {
    let mut bus = Bus::new(1);
    let mut m = init();
    assert_eq!(bus.run(&mut m), Access::Done);
    assert_eq!(m.phase, InitPhase::Finished);
    let expected = vec![
        Access::Write { addr: SLCR_UNLOCK_ADDR, value: SLCR_UNLOCK_KEY },
        Access::Read { addr: IO_PLL_CTRL_ADDR },
        Access::Write { addr: IO_PLL_CTRL_ADDR, value: 0x0001_A018 },
        Access::Write { addr: IO_PLL_CTRL_ADDR, value: 0x0001_A019 },
        Access::Write { addr: IO_PLL_CTRL_ADDR, value: 0x0001_E019 },
        Access::Write { addr: IO_PLL_CTRL_ADDR, value: 0x0001_E018 },
        Access::Read { addr: PLL_STATUS_ADDR },
        Access::Write { addr: IO_PLL_CTRL_ADDR, value: 0x0001_E008 },
        Access::Read { addr: UART_CLK_CTRL_ADDR },
        Access::Write { addr: UART_CLK_CTRL_ADDR, value: 0x0000_0A03 },
        Access::Write { addr: MIO_PIN_48_ADDR, value: 0x0000_03E0 },
        Access::Write { addr: MIO_PIN_49_ADDR, value: 0x0000_13E0 },
        Access::Read { addr: MST_TRI1_ADDR },
        Access::Write { addr: MST_TRI1_ADDR, value: 0xFFFC_FFFF },
        Access::Write { addr: SLCR_LOCK_ADDR, value: SLCR_LOCK_KEY },
        Access::Done,
    ];
    assert_eq!(bus.trace, expected);
    assert_eq!(bus.regs[&MIO_PIN_48_ADDR], MIO_PIN_UART1_TX_VAL);
    assert_eq!(bus.regs[&MIO_PIN_49_ADDR], MIO_PIN_UART1_RX_VAL);
    // A finished sequencer keeps answering Done.
    assert_eq!(m.step(0), Access::Done);
    assert_eq!(m.step(0xFFFF_FFFF), Access::Done);
}

#[test]
fn reserved_bits_are_preserved() {
    let mut bus = Bus::new(1);
    bus.regs.insert(IO_PLL_CTRL_ADDR, 0xFFFF_FFFF);
    bus.regs.insert(UART_CLK_CTRL_ADDR, 0xFFFF_FFFF);
    bus.regs.insert(MST_TRI1_ADDR, 0x0003_0000);
    let mut m = init();
    assert_eq!(bus.run(&mut m), Access::Done);
    // FDIV = 30, reset and bypass clear, everything else kept.
    assert_eq!(bus.regs[&IO_PLL_CTRL_ADDR], 0xFFF9_EFEE);
    // DIVISOR = 10, SRCSEL = 0, clocks on, everything else kept.
    assert_eq!(bus.regs[&UART_CLK_CTRL_ADDR], 0xFFFF_CACF);
    assert_eq!(bus.regs[&MST_TRI1_ADDR], 0);
}

#[test]
fn lock_seen_on_a_later_poll() {
    let mut bus = Bus::new(5);
    let mut m = init();
    assert_eq!(bus.run(&mut m), Access::Done);
    assert_eq!(bus.status_reads, 5);
    assert_eq!(bus.regs[&IO_PLL_CTRL_ADDR], 0x0001_E008);
}

#[test]
fn lock_wait_gives_up_after_budget() {
    let mut bus = Bus::new(u64::MAX);
    let mut m = init();
    assert_eq!(bus.run(&mut m), Access::Fault);
    assert_eq!(m.phase, InitPhase::Failed);
    assert_eq!(bus.status_reads, PLL_LOCK_BUDGET as u64 + 1);
    // The PLL is left bypassed, and nothing after the PLL was touched.
    assert_eq!(bus.regs[&IO_PLL_CTRL_ADDR], 0x0001_E018);
    assert_eq!(bus.regs[&UART_CLK_CTRL_ADDR], UART_CLK_CTRL_RESET);
    assert!(!bus.regs.contains_key(&SLCR_LOCK_ADDR));
    assert_eq!(m.step(0x3F), Access::Fault);
}

#[test]
fn lock_on_the_last_allowed_poll() {
    let mut bus = Bus::new(PLL_LOCK_BUDGET as u64 + 1);
    let mut m = init();
    assert_eq!(bus.run(&mut m), Access::Done);
    assert_eq!(bus.status_reads, PLL_LOCK_BUDGET as u64 + 1);
}

#[test]
fn set_fdiv_replaces_only_the_field() {
    assert_eq!(io_pll_set_fdiv(IO_PLL_CTRL_RESET, 30), 0x0001_E008);
    assert_eq!(io_pll_set_fdiv(0xFFFF_FFFF, 0), 0xFFF8_0FFF);
    assert_eq!(io_pll_set_fdiv(0, 127), 0x0007_F000);
}

#[test]
fn uart_clock_and_tri_state_values() {
    assert_eq!(uart_clk_select(UART_CLK_CTRL_RESET), 0x0000_0A03);
    assert_eq!(uart_clk_select(0), 0x0000_0A03);
    assert_eq!(uart_clk_select(0xFFFF_FFFF), 0xFFFF_CACF);
    assert_eq!(mst_tri_release_uart1(0xFFFF_FFFF), 0xFFFC_FFFF);
    assert_eq!(mst_tri_release_uart1(0x0001_0001), 0x0000_0001);
}

#[test]
fn mio_values_select_uart1() {
    assert_eq!((MIO_PIN_UART1_TX_VAL >> 5) & 0x7, 7);
    assert_eq!(MIO_PIN_UART1_TX_VAL, 0x3E0);
    assert_eq!(MIO_PIN_UART1_RX_VAL, 0x13E0);
    assert_eq!(MIO_PIN_48_ADDR, 0xF800_07C0);
    assert_eq!(MIO_PIN_49_ADDR, 0xF800_07C4);
}
