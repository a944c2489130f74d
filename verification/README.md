# tikos

Verified drivers of a small bare-metal kernel for the Zynq-7000 (dual
Cortex-A9): SLCR bring-up (IO PLL, UART reference clock, MIO routing,
tri-state release) and the Cadence UART (initialisation, polled transmit,
decimal output).

Layout:

- `src/` — the library, verified with Verus. Each driver is a register
  sequencer: `step(reply)` returns the next bus access (`Read`, `Write`,
  `Done` or `Fault`), where `reply` is the value of the last register read.
  Contracts state every transition; proof functions state the laws
  (unlock/lock discipline, glitch-free PLL reconfiguration, final register
  contents, bounded waits, every byte sent to both UARTs in order, decimal
  rendering).
- `app/` — the program shell: boot stub and vector table (assembly),
  volatile register accesses, the loop that drives a sequencer, `kmain`.
- `tests/` — the sequencers run against simulated register files.
