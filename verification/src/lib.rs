//! Verified core of a small bare-metal kernel for the Zynq-7000 (Cortex-A9).
//!
//! The drivers are written as register programs: each one is a sequencer
//! whose `step` takes the value of the last register read and answers with
//! the next bus access to perform. The executable shell performs the
//! accesses (volatile loads and stores) and feeds the read values back, so
//! every decision a driver takes (which register, which value, how long to
//! poll, when to give up) is proved here.
//!
//! - [`mmio`] — the bus accesses a sequencer asks for.
//! - [`slcr`] — System-Level Control Registers: PLL, UART clock, MIO routing.
//! - [`uart`] — Cadence UART: initialisation, polled transmit, decimal output.

pub mod mmio;
pub mod slcr;
pub mod uart;
