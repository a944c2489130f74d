//! Cadence UART (Zynq) driver: register map, initialisation values,
//! polled transmit sequencers and decimal rendering.

use vstd::prelude::*;
use crate::mmio::{Access, RegWrite};

verus! {

// ---------- Register map ----------

pub const UART0_BASE: usize = 0xE000_0000;
pub const UART1_BASE: usize = 0xE000_1000;

// Register offsets.
/// Control register.
pub const OFF_CR: usize = 0x00;
/// Mode register.
pub const OFF_MR: usize = 0x04;
/// Baud rate generator.
pub const OFF_BAUDGEN: usize = 0x18;
/// Channel status.
pub const OFF_SR: usize = 0x2C;
/// TX/RX FIFO.
pub const OFF_FIFO: usize = 0x30;
/// Baud rate divider.
pub const OFF_BAUDDIV: usize = 0x34;

// Control register bits.
/// Bit 0: RX path reset (self-clearing).
pub const CR_RXRST: u32 = 0x01;
/// Bit 1: TX path reset (self-clearing).
pub const CR_TXRST: u32 = 0x02;
/// Bit 2: RX enable.
pub const CR_RXEN: u32 = 0x04;
/// Bit 3: RX disable.
pub const CR_RXDIS: u32 = 0x08;
/// Bit 4: TX enable.
pub const CR_TXEN: u32 = 0x10;
/// Bit 5: TX disable.
pub const CR_TXDIS: u32 = 0x20;

/// Channel status bit 4: TX FIFO full.
pub const SR_TXFULL: u32 = 0x10;

/// Mode register for 8N1 in normal mode: CHMODE = 00, NBSTOP = 00,
/// PAR = 100 (none), CHRL = 00 (8 bits), CLKSEL = 0 (uart_ref_clk).
pub const MR_8N1: u32 = 0x20;

/// Baud rate: uart_ref_clk / (CD * (BDIV + 1)); 100 MHz / (124 * 7) = 115207 baud.
pub const BAUD_CD: u32 = 124;
pub const BAUD_BDIV: u32 = 6;

/// How many further status polls a transmit makes, after the first one,
/// while the TX FIFO stays full; the byte is written regardless afterwards.
pub const TX_POLL_BUDGET: u32 = 1_000_000;

// ---------- Initialisation ----------

/// The register stores that initialise the UART at `base` for 115200 8N1 and
/// enable it: mode, baud generator, baud divider, then reset and enable of
/// both paths (the disable bits stay clear so the enables stick).
pub fn init(base: usize) -> (w: [RegWrite; 4])
    requires
        base + OFF_BAUDDIV <= usize::MAX,
    ensures
        w@ == seq![
            RegWrite { addr: (base + OFF_MR) as usize, value: MR_8N1 },
            RegWrite { addr: (base + OFF_BAUDGEN) as usize, value: BAUD_CD },
            RegWrite { addr: (base + OFF_BAUDDIV) as usize, value: BAUD_BDIV },
            RegWrite {
                addr: (base + OFF_CR) as usize,
                value: CR_TXRST | CR_RXRST | CR_TXEN | CR_RXEN,
            },
        ],
{
    let w = [
        RegWrite { addr: base + OFF_MR, value: MR_8N1 },
        RegWrite { addr: base + OFF_BAUDGEN, value: BAUD_CD },
        RegWrite { addr: base + OFF_BAUDDIV, value: BAUD_BDIV },
        RegWrite { addr: base + OFF_CR, value: CR_TXRST | CR_RXRST | CR_TXEN | CR_RXEN },
    ];
    assert(w@ =~= seq![w[0], w[1], w[2], w[3]]);
    w
}

// ---------- Decimal rendering ----------

/// Powers of ten.
pub open spec fn pow10(k: nat) -> nat
    decreases k,
{
    if k == 0 { 1 } else { 10 * pow10((k - 1) as nat) }
}

/// The ASCII decimal representation of `n`, most significant digit first,
/// without leading zeros (`"0"` for zero).
pub open spec fn dec_digits(n: nat) -> Seq<u8>
    decreases n,
{
    if n < 10 {
        seq![(48 + n) as u8]
    } else {
        dec_digits(n / 10).push((48 + n % 10) as u8)
    }
}

/// The number that a string of ASCII decimal digits denotes.
pub open spec fn digits_value(s: Seq<u8>) -> nat
    decreases s.len(),
{
    if s.len() == 0 {
        0
    } else {
        digits_value(s.drop_last()) * 10 + (s.last() - 48) as nat
    }
}

/// Whether every byte of `s` is an ASCII decimal digit.
pub open spec fn all_ascii_digits(s: Seq<u8>) -> bool {
    forall|i: int| 0 <= i < s.len() ==> 48 <= #[trigger] s[i] <= 57
}

/// Rendering is faithful: the digits are ASCII decimal digits, read back they
/// give `n`, there is no leading zero unless `n` is zero, and a number below
/// `10^k` needs at most `k` digits.
pub proof fn lemma_dec_digits(n: nat)
    ensures
        dec_digits(n).len() >= 1,
        all_ascii_digits(dec_digits(n)),
        digits_value(dec_digits(n)) == n,
        n > 0 ==> dec_digits(n)[0] != 48,
        n == 0 ==> dec_digits(n) == seq![48u8],
    decreases n,
{
    if n < 10 {
        let s = dec_digits(n);
        assert(s.drop_last() =~= Seq::<u8>::empty());
        assert(s.last() == 48 + n);
        assert(digits_value(s) == digits_value(s.drop_last()) * 10 + (s.last() - 48) as nat);
    } else {
        lemma_dec_digits(n / 10);
        let s = dec_digits(n);
        assert(s.drop_last() =~= dec_digits(n / 10));
        assert(s.last() == 48 + n % 10);
        assert(n == (n / 10) * 10 + n % 10) by (nonlinear_arith);
        assert(digits_value(s) == digits_value(s.drop_last()) * 10 + (s.last() - 48) as nat);
    }
}

/// A number below `10^k` (with `k >= 1`) has at most `k` decimal digits.
pub proof fn lemma_dec_digits_len(n: nat, k: nat)
    requires
        k >= 1,
        n < pow10(k),
    ensures
        dec_digits(n).len() <= k,
    decreases n,
{
    if n >= 10 {
        assert(k >= 2) by {
            if k == 1 {
                assert(pow10(1) == 10 * pow10(0));
            }
        }
        assert(pow10(k) == 10 * pow10((k - 1) as nat));
        assert(n / 10 < pow10((k - 1) as nat)) by (nonlinear_arith)
            requires
                n < 10 * pow10((k - 1) as nat),
        ;
        lemma_dec_digits_len(n / 10, (k - 1) as nat);
    }
}

/// Every `u32` has at most ten decimal digits.
pub proof fn lemma_u32_dec_len(n: u32)
    ensures
        dec_digits(n as nat).len() <= 10,
{
    assert(pow10(10) == 10_000_000_000) by {
        reveal_with_fuel(pow10, 11);
    }
    lemma_dec_digits_len(n as nat, 10);
}

/// Render `n` as decimal ASCII into the front of `buf` and return the number
/// of bytes written. The bytes of `buf` past that count are left as they were.
pub fn u32_to_dec(n: u32, buf: &mut [u8]) -> (len: usize)
    requires
        old(buf)@.len() >= 10 || dec_digits(n as nat).len() <= old(buf)@.len(),
    ensures
        len == dec_digits(n as nat).len(),
        final(buf)@.len() == old(buf)@.len(),
        final(buf)@.subrange(0, len as int) == dec_digits(n as nat),
        final(buf)@.subrange(len as int, final(buf)@.len() as int)
            == old(buf)@.subrange(len as int, old(buf)@.len() as int),
{
    proof {
        lemma_u32_dec_len(n);
    }
    if n == 0 {
        buf[0] = 48u8;
        assert(final(buf)@.subrange(0, 1) =~= seq![48u8]);
        assert(final(buf)@.subrange(1, final(buf)@.len() as int)
            =~= old(buf)@.subrange(1, old(buf)@.len() as int));
        return 1;
    }
    let ghost n0: nat = n as nat;
    let mut m: u32 = n;
    let mut tmp: [u8; 10] = [0u8; 10];
    let mut i: usize = 0;
    // `low` holds the digits already peeled off, most significant first;
    // tmp[0..i] holds them in reverse.
    let ghost mut low: Seq<u8> = Seq::empty();
    while m > 0
        invariant
            dec_digits(n0).len() <= 10,
            i <= 10,
            low.len() == i,
            forall|k: int| 0 <= k < i ==> #[trigger] tmp@[k] == low[i - 1 - k],
            m > 0 ==> dec_digits(n0) == dec_digits(m as nat) + low,
            m > 0 ==> dec_digits(m as nat).len() + i == dec_digits(n0).len(),
            m == 0 ==> dec_digits(n0) == low,
        decreases m,
    {
        let d: u8 = (48 + m % 10) as u8;
        proof {
            if m >= 10 {
                assert(dec_digits(m as nat) == dec_digits((m / 10) as nat).push(d));
                assert(dec_digits(m as nat) + low =~= dec_digits((m / 10) as nat) + (seq![d] + low));
            } else {
                assert(dec_digits(m as nat) == seq![d]);
            }
        }
        tmp[i] = d;
        proof {
            low = seq![d] + low;
        }
        m = m / 10;
        i = i + 1;
    }
    let mut j: usize = 0;
    let ghost old_buf = buf@;
    while i > 0
        invariant
            j + i == low.len(),
            low.len() <= 10,
            low.len() <= old_buf.len(),
            buf@.len() == old_buf.len(),
            forall|k: int| 0 <= k < low.len() ==> #[trigger] tmp@[k] == low[low.len() - 1 - k],
            forall|k: int| 0 <= k < j ==> buf@[k] == #[trigger] low[k],
            forall|k: int| j <= k < buf@.len() ==> buf@[k] == #[trigger] old_buf[k],
        decreases i,
    {
        i = i - 1;
        buf[j] = tmp[i];
        j = j + 1;
    }
    assert(buf@.subrange(0, j as int) =~= low);
    assert(buf@.subrange(j as int, buf@.len() as int) =~= old_buf.subrange(j as int, old_buf.len() as int));
    j
}


// ---------- Polled transmit of one byte ----------

/// Where a single-byte transmit stands.
#[derive(Clone, Copy, Debug, PartialEq, Eq, Structural)]
pub enum TxPhase {
    /// The first status read is still to be made.
    Start,
    /// A status read was made; its value decides between polling and writing.
    Polling,
    /// The byte has been written to the FIFO.
    Finished,
}

/// Whether a channel status value reports the TX FIFO as full.
pub open spec fn tx_full(status: u32) -> bool {
    status & SR_TXFULL != 0
}

/// Sequencer that sends one byte through the UART at `base`: it polls the
/// channel status while the TX FIFO is full, for at most `TX_POLL_BUDGET`
/// further polls, so a wedged UART cannot hang the kernel, then writes the
/// byte to the FIFO.
#[derive(Clone, Copy)]
pub struct PutcAt {
    pub base: usize,
    pub byte: u8,
    /// Further polls allowed while the FIFO stays full.
    pub budget: u32,
    pub phase: TxPhase,
    /// Number of status reads requested so far.
    pub polls: Ghost<nat>,
}

/// A fresh single-byte transmit.
pub open spec fn fresh_putc(base: usize, c: u8) -> PutcAt {
    PutcAt { base, byte: c, budget: TX_POLL_BUDGET, phase: TxPhase::Start, polls: Ghost(0) }
}

impl PutcAt {
    /// The access made in the current state, given the last status read.
    pub open spec fn action(self, status: u32) -> Access {
        match self.phase {
            TxPhase::Start => Access::Read { addr: (self.base + OFF_SR) as usize },
            TxPhase::Polling => if tx_full(status) && self.budget > 0 {
                Access::Read { addr: (self.base + OFF_SR) as usize }
            } else {
                Access::Write { addr: (self.base + OFF_FIFO) as usize, value: self.byte as u32 }
            },
            TxPhase::Finished => Access::Done,
        }
    }

    /// The state after one step.
    pub open spec fn next(self, status: u32) -> PutcAt {
        match self.phase {
            TxPhase::Start => PutcAt {
                phase: TxPhase::Polling,
                polls: Ghost(self.polls@ + 1),
                ..self
            },
            TxPhase::Polling => if tx_full(status) && self.budget > 0 {
                PutcAt {
                    budget: (self.budget - 1) as u32,
                    polls: Ghost(self.polls@ + 1),
                    ..self
                }
            } else {
                PutcAt { phase: TxPhase::Finished, ..self }
            },
            TxPhase::Finished => self,
        }
    }

    /// Upper bound on the steps left before the byte is written.
    pub open spec fn steps_left(self) -> nat {
        match self.phase {
            TxPhase::Start => TX_POLL_BUDGET as nat + 2,
            TxPhase::Polling => self.budget as nat + 1,
            TxPhase::Finished => 0,
        }
    }

    /// The invariant of every state reachable from [`putc_at`].
    pub open spec fn wf(self) -> bool {
        &&& self.base + OFF_BAUDDIV <= usize::MAX
        &&& self.budget <= TX_POLL_BUDGET
        &&& self.phase == TxPhase::Start ==> self.polls@ == 0 && self.budget == TX_POLL_BUDGET
        &&& self.phase == TxPhase::Polling ==> self.polls@ + self.budget == TX_POLL_BUDGET + 1
        &&& self.phase == TxPhase::Finished ==> 1 <= self.polls@ <= TX_POLL_BUDGET + 1
    }

    /// Run one step: returns the next bus access. `status` is the value of
    /// the channel status register read by the previous access, when that
    /// was a read.
    pub fn step(&mut self, status: u32) -> (a: Access)
        requires
            old(self).wf(),
        ensures
            a == old(self).action(status),
            *final(self) == old(self).next(status),
            final(self).wf(),
            old(self).phase == TxPhase::Start ==> a == (Access::Read {
                addr: (old(self).base + 0x2C) as usize,
            }),
            old(self).phase == TxPhase::Polling && status & 0x10u32 == 0 ==> a == (Access::Write {
                addr: (old(self).base + 0x30) as usize,
                value: old(self).byte as u32,
            }),
            old(self).phase == TxPhase::Polling && status & 0x10u32 != 0 && old(self).budget > 0
                ==> a == (Access::Read { addr: (old(self).base + 0x2C) as usize }),
            old(self).phase == TxPhase::Polling && old(self).budget == 0 ==> a == (Access::Write {
                addr: (old(self).base + 0x30) as usize,
                value: old(self).byte as u32,
            }),
    {
        proof {
            lemma_putc_polls_only_while_full_bit(*self, status);
        }
        match self.phase {
            TxPhase::Start => {
                self.phase = TxPhase::Polling;
                self.polls = Ghost(self.polls@ + 1);
                Access::Read { addr: self.base + OFF_SR }
            },
            TxPhase::Polling => {
                if (status & SR_TXFULL) != 0 && self.budget > 0 {
                    self.budget = self.budget - 1;
                    self.polls = Ghost(self.polls@ + 1);
                    Access::Read { addr: self.base + OFF_SR }
                } else {
                    self.phase = TxPhase::Finished;
                    Access::Write { addr: self.base + OFF_FIFO, value: self.byte as u32 }
                }
            },
            TxPhase::Finished => Access::Done,
        }
    }
}

/// Start sending byte `c` through the UART at `base`.
pub fn putc_at(base: usize, c: u8) -> (t: PutcAt)
    requires
        base + OFF_BAUDDIV <= usize::MAX,
    ensures
        t == fresh_putc(base, c),
        t.wf(),
{
    PutcAt { base, byte: c, budget: TX_POLL_BUDGET, phase: TxPhase::Start, polls: Ghost(0) }
}

/// The two transmits that send one byte over both UARTs: UART0 first, then
/// UART1 (QEMU shows one of them; on the board UART1 is the serial line).
pub fn putc(c: u8) -> (t: [PutcAt; 2])
    ensures
        t@ == seq![fresh_putc(UART0_BASE, c), fresh_putc(UART1_BASE, c)],
{
    let t = [putc_at(UART0_BASE, c), putc_at(UART1_BASE, c)];
    assert(t@ =~= seq![t[0], t[1]]);
    t
}

// ---------- Sending a byte string ----------

/// Base address of the UART used for the `port`-th copy of each byte.
pub open spec fn port_base(port: usize) -> usize {
    if port == 0 { UART0_BASE } else { UART1_BASE }
}

/// The FIFO writes that sending `s` over both UARTs makes, in order: every
/// byte to UART0, then the same byte to UART1.
pub open spec fn both_uarts(s: Seq<u8>) -> Seq<(usize, u8)> {
    Seq::new(2 * s.len(), |k: int| (if k % 2 == 0 { UART0_BASE } else { UART1_BASE }, s[k / 2]))
}

/// Sequencer that sends a byte string over both UARTs, byte by byte, each
/// byte first to UART0 and then to UART1, each copy by a polled transmit.
pub struct Puts<'a> {
    pub data: &'a [u8],
    /// Index of the byte being sent.
    pub index: usize,
    /// 0 while sending to UART0, 1 while sending to UART1.
    pub port: usize,
    /// The transmit in progress, if it has made an access yet.
    pub current: Option<PutcAt>,
    /// FIFO writes made so far, as (UART base, byte).
    pub sent: Ghost<Seq<(usize, u8)>>,
}

impl<'a> Puts<'a> {
    /// The transmit that the next step continues (or starts).
    pub open spec fn transmit(self) -> PutcAt {
        match self.current {
            Some(t) => t,
            None => fresh_putc(port_base(self.port), self.data@[self.index as int]),
        }
    }

    /// The access made in the current state, given the last status read.
    pub open spec fn action(self, status: u32) -> Access {
        if self.index >= self.data@.len() {
            Access::Done
        } else {
            self.transmit().action(status)
        }
    }

    /// The state after one step.
    pub open spec fn next(self, status: u32) -> Puts<'a> {
        if self.index >= self.data@.len() {
            self
        } else {
            let t = self.transmit().next(status);
            if t.phase == TxPhase::Finished {
                Puts {
                    index: if self.port == 0 { self.index } else { (self.index + 1) as usize },
                    port: if self.port == 0 { 1 } else { 0 },
                    current: None,
                    sent: Ghost(self.sent@.push((t.base, t.byte))),
                    ..self
                }
            } else {
                Puts { current: Some(t), ..self }
            }
        }
    }

    /// Number of byte copies still to be written after the current one.
    pub open spec fn copies_after(self) -> nat {
        (2 * (self.data@.len() - self.index) - self.port - 1) as nat
    }

    /// Upper bound on the steps left before the whole string is sent.
    pub open spec fn steps_left(self) -> nat {
        if self.index >= self.data@.len() {
            0
        } else {
            self.copies_after() * (TX_POLL_BUDGET as nat + 2) + self.transmit().steps_left()
        }
    }

    /// The invariant of every state reachable from [`puts`].
    pub open spec fn wf(self) -> bool {
        &&& self.data@.len() <= usize::MAX
        &&& self.index <= self.data@.len()
        &&& self.port <= 1
        &&& self.index == self.data@.len() ==> self.port == 0 && self.current is None
        &&& self.sent@ == both_uarts(self.data@).take(2 * self.index + self.port)
        &&& self.current matches Some(t) ==> {
            &&& t.wf()
            &&& t.phase == TxPhase::Polling
            &&& t.base == port_base(self.port)
            &&& self.index < self.data@.len()
            &&& t.byte == self.data@[self.index as int]
        }
    }

    /// Run one step: returns the next bus access. `status` is the value of
    /// the channel status register read by the previous access, when that
    /// was a read.
    pub fn step(&mut self, status: u32) -> (a: Access)
        requires
            old(self).wf(),
        ensures
            a == old(self).action(status),
            *final(self) == old(self).next(status),
            final(self).wf(),
            old(self).index >= old(self).data@.len() ==> a == Access::Done,
            old(self).index < old(self).data@.len() ==> match a {
                Access::Read { addr } => addr == if old(self).port == 0 {
                    0xE000_002Cusize
                } else {
                    0xE000_102Cusize
                },
                Access::Write { addr, value } => addr == (if old(self).port == 0 {
                    0xE000_0030usize
                } else {
                    0xE000_1030usize
                }) && value == old(self).data@[old(self).index as int] as u32,
                _ => false,
            },
            old(self).current is Some && status & 0x10u32 == 0 ==> a == (Access::Write {
                addr: if old(self).port == 0 { 0xE000_0030usize } else { 0xE000_1030usize },
                value: old(self).data@[old(self).index as int] as u32,
            }),
    {
        proof {
            lemma_puts_polls_the_uart_it_writes(*self, status);
        }
        if self.index >= self.data.len() {
            return Access::Done;
        }
        let mut t = match self.current {
            Some(t) => t,
            None => {
                let pair = putc(self.data[self.index]);
                pair[self.port]
            },
        };
        let a = t.step(status);
        if t.phase == TxPhase::Finished {
            proof {
                let k = 2 * self.index + self.port;
                assert(both_uarts(self.data@)[k] == (t.base, t.byte));
                assert(both_uarts(self.data@).take(k + 1) =~= both_uarts(self.data@).take(k).push(
                    (t.base, t.byte),
                ));
            }
            self.sent = Ghost(self.sent@.push((t.base, t.byte)));
            if self.port == 0 {
                self.port = 1;
            } else {
                self.port = 0;
                self.index = self.index + 1;
            }
            self.current = None;
        } else {
            self.current = Some(t);
        }
        a
    }
}

/// Start sending the byte string `s` over both UARTs.
pub fn puts<'a>(s: &'a [u8]) -> (p: Puts<'a>)
    ensures
        p.data@ == s@,
        p.index == 0,
        p.port == 0,
        p.current is None,
        p.sent@ == Seq::<(usize, u8)>::empty(),
        p.wf(),
{
    let _len = s.len();
    let p = Puts { data: s, index: 0, port: 0, current: None, sent: Ghost(Seq::empty()) };
    assert(both_uarts(s@).take(0) =~= Seq::<(usize, u8)>::empty());
    p
}

/// Start printing `n` in decimal over both UARTs: the digits are rendered
/// into `buf`, and the returned sequencer sends them.
pub fn print_u32<'a>(n: u32, buf: &'a mut [u8; 10]) -> (p: Puts<'a>)
    ensures
        p.data@ == dec_digits(n as nat),
        p.index == 0,
        p.port == 0,
        p.current is None,
        p.sent@ == Seq::<(usize, u8)>::empty(),
        p.wf(),
{
    proof {
        lemma_u32_dec_len(n);
    }
    let len = u32_to_dec(n, buf);
    let digits: &'a [u8; 10] = buf;
    let s = slice_subrange_of(digits, len);
    puts(s)
}

/// The first `len` bytes of a ten-byte buffer.
fn slice_subrange_of<'a>(buf: &'a [u8; 10], len: usize) -> (s: &'a [u8])
    requires
        len <= 10,
    ensures
        s@ == buf@.subrange(0, len as int),
{
    let whole: &'a [u8] = buf.as_slice();
    vstd::slice::slice_subrange(whole, 0, len)
}


// ---------- Properties of the transmit sequencers ----------

/// The initialisation values encode what they claim: the mode register
/// selects normal channel mode, one stop bit, no parity, 8-bit characters
/// and the undivided reference clock; the control value resets both paths
/// and enables them, with neither disable bit set so the enables stick.
pub proof fn lemma_uart_init_values()
    ensures
        (MR_8N1 >> 8u32) & 0x3 == 0,
        (MR_8N1 >> 6u32) & 0x3 == 0,
        (MR_8N1 >> 3u32) & 0x7 == 0x4,
        (MR_8N1 >> 1u32) & 0x3 == 0,
        MR_8N1 & 0x1 == 0,
        (CR_TXRST | CR_RXRST | CR_TXEN | CR_RXEN) & (CR_TXDIS | CR_RXDIS) == 0,
        (CR_TXRST | CR_RXRST | CR_TXEN | CR_RXEN) & (CR_TXEN | CR_RXEN) == (CR_TXEN | CR_RXEN),
        (CR_TXRST | CR_RXRST | CR_TXEN | CR_RXEN) & (CR_TXRST | CR_RXRST) == (CR_TXRST | CR_RXRST),
        CR_TXRST | CR_RXRST | CR_TXEN | CR_RXEN == 0x17,
{
    assert((0x20u32 >> 8u32) & 0x3u32 == 0 && (0x20u32 >> 6u32) & 0x3u32 == 0 && (0x20u32 >> 3u32)
        & 0x7u32 == 0x4u32 && (0x20u32 >> 1u32) & 0x3u32 == 0 && 0x20u32 & 0x1u32 == 0)
        by (bit_vector);
    assert((0x2u32 | 0x1u32 | 0x10u32 | 0x4u32) == 0x17u32 && 0x17u32 & (0x20u32 | 0x8u32) == 0
        && 0x17u32 & (0x10u32 | 0x4u32) == (0x10u32 | 0x4u32) && 0x17u32 & (0x2u32 | 0x1u32) == (
    0x2u32 | 0x1u32)) by (bit_vector);
}

/// The baud rate the UART derives from its reference clock.
pub open spec fn baud_rate(ref_clk: nat, cd: nat, bdiv: nat) -> nat {
    ref_clk / (cd * (bdiv + 1))
}

/// With the 100 MHz reference clock that the SLCR bring-up selects, the baud
/// settings give 115207 baud, within 0.01% of 115200.
pub proof fn lemma_baud_rate()
    ensures
        baud_rate(100_000_000, BAUD_CD as nat, BAUD_BDIV as nat) == 115207,
        (115207 - 115200) * 10_000 < 115200,
{
    assert((BAUD_CD as nat) * (BAUD_BDIV as nat + 1) == 868);
    assert(100_000_000nat / 868 == 115207);
}

/// A byte is written to the FIFO only after a status read showed room in the
/// TX FIFO, or after `TX_POLL_BUDGET + 1` status reads all showed it full; the
/// write goes to the FIFO of the same UART and carries the byte.
pub proof fn lemma_putc_writes_after_poll(t: PutcAt, status: u32)
    requires
        t.wf(),
    ensures
        t.action(status) is Write ==> {
            &&& t.phase == TxPhase::Polling
            &&& !tx_full(status) || t.polls@ == TX_POLL_BUDGET + 1
            &&& t.action(status) == (Access::Write {
                addr: (t.base + OFF_FIFO) as usize,
                value: t.byte as u32,
            })
        },
        t.action(status) is Read ==> t.action(status) == (Access::Read {
            addr: (t.base + OFF_SR) as usize,
        }) && t.next(status).polls@ == t.polls@ + 1 && t.next(status).polls@ <= TX_POLL_BUDGET
            + 1,
{
}

/// One step of a transmit keeps its invariant.
proof fn lemma_putc_next_wf(t: PutcAt, status: u32)
    requires
        t.wf(),
    ensures
        t.next(status).wf(),
{
}

/// Each step of an unfinished transmit brings it closer to the FIFO write,
/// so a transmit makes at most `TX_POLL_BUDGET + 2` accesses.
pub proof fn lemma_putc_progress(t: PutcAt, status: u32)
    requires
        t.wf(),
    ensures
        t.phase != TxPhase::Finished ==> t.next(status).steps_left() < t.steps_left(),
        t.phase == TxPhase::Finished ==> t.next(status) == t && t.action(status) == Access::Done,
        fresh_putc(t.base, t.byte).steps_left() == TX_POLL_BUDGET + 2,
{
}

/// When the string sequencer reports completion it has written every byte
/// of the string, in order, each first to UART0 and then to UART1, and
/// nothing else; before that it never reports completion.
pub proof fn lemma_puts_sends_every_byte_twice(p: Puts, status: u32)
    requires
        p.wf(),
    ensures
        p.action(status) == Access::Done <==> p.index == p.data@.len(),
        p.index == p.data@.len() ==> p.sent@ == both_uarts(p.data@),
        p.next(status).sent@.len() <= both_uarts(p.data@).len(),
        p.next(status).sent@ == both_uarts(p.data@).take(p.next(status).sent@.len() as int),
{
    if p.index < p.data@.len() {
        lemma_putc_writes_after_poll(p.transmit(), status);
    }
    if p.index == p.data@.len() {
        assert(both_uarts(p.data@).take(2 * p.index + p.port) =~= both_uarts(p.data@));
    }
    lemma_puts_next_wf(p, status);
}

/// One step of the string sequencer keeps its invariant.
proof fn lemma_puts_next_wf(p: Puts, status: u32)
    requires
        p.wf(),
    ensures
        p.next(status).wf(),
{
    if p.index < p.data@.len() {
        lemma_putc_next_wf(p.transmit(), status);
        let t = p.transmit().next(status);
        if t.phase == TxPhase::Finished {
            let k = 2 * p.index + p.port;
            assert(both_uarts(p.data@)[k] == (t.base, t.byte));
            assert(both_uarts(p.data@).take(k + 1) =~= both_uarts(p.data@).take(k).push(
                (t.base, t.byte),
            ));
        }
    }
}

/// Each step of an unfinished string sequencer brings it closer to its end,
/// so sending `n` bytes takes at most `2 * n * (TX_POLL_BUDGET + 2)` steps;
/// a finished one stays put, answering `Done`.
pub proof fn lemma_puts_progress(p: Puts, status: u32)
    requires
        p.wf(),
    ensures
        p.index < p.data@.len() ==> p.next(status).steps_left() < p.steps_left(),
        p.index == p.data@.len() ==> p.next(status) == p && p.action(status) == Access::Done,
        p.index == 0 && p.port == 0 && p.current is None ==> p.steps_left() == 2 * p.data@.len()
            * (TX_POLL_BUDGET as nat + 2),
{
    let b = TX_POLL_BUDGET as nat + 2;
    if p.index < p.data@.len() {
        let t = p.transmit();
        let n = p.next(status);
        let c = p.copies_after();
        lemma_putc_progress(t, status);
        assert(c + 1 == 2 * (p.data@.len() - p.index) - p.port);
        if t.next(status).phase == TxPhase::Finished {
            assert(n.index == if p.port == 0 { p.index as int } else { p.index + 1 });
            assert(n.port == if p.port == 0 { 1usize } else { 0usize });
            assert(n.data == p.data);
            if n.index < n.data@.len() {
                assert(n.copies_after() + 1 == c);
                assert(n.transmit().steps_left() == b);
                assert(n.copies_after() * b + b == c * b) by (nonlinear_arith)
                    requires
                        n.copies_after() + 1 == c,
                ;
            }
        }
        if p.index == 0 && p.port == 0 && p.current is None {
            assert(t.steps_left() == b);
            assert(c * b + b == 2 * p.data@.len() * b) by (nonlinear_arith)
                requires
                    c + 1 == 2 * p.data@.len(),
            ;
        }
    } else if p.index == 0 {
        assert(2 * p.data@.len() * b == 0) by (nonlinear_arith)
            requires
                p.data@.len() == 0,
        ;
    }
}


/// A transmit decides on bit 4 (TXFULL, `0x10`) of the channel status and
/// nothing else: in the polling phase a status with bit 4 clear leads
/// straight to the FIFO write (`base + 0x30`, the byte), a status with bit 4
/// set reads the status register (`base + 0x2C`) again while budget remains,
/// and once the budget is spent the byte is written whatever the status.
/// The first access is always the status read.
pub proof fn lemma_putc_polls_only_while_full_bit(t: PutcAt, status: u32)
    requires
        t.wf(),
    ensures
        t.phase == TxPhase::Start ==> t.action(status) == (Access::Read {
            addr: (t.base + 0x2C) as usize,
        }),
        t.phase == TxPhase::Polling && status & 0x10u32 == 0 ==> {
            &&& t.action(status) == (Access::Write {
                addr: (t.base + 0x30) as usize,
                value: t.byte as u32,
            })
            &&& t.next(status).phase == TxPhase::Finished
        },
        t.phase == TxPhase::Polling && status & 0x10u32 != 0 && t.budget > 0 ==> {
            &&& t.action(status) == (Access::Read { addr: (t.base + 0x2C) as usize })
            &&& t.next(status).phase == TxPhase::Polling
            &&& t.next(status).budget == t.budget - 1
        },
        t.phase == TxPhase::Polling && t.budget == 0 ==> t.action(status) == (Access::Write {
            addr: (t.base + 0x30) as usize,
            value: t.byte as u32,
        }),
        t.action(status) matches Access::Read { addr } ==> addr == t.base + 0x2C && (t.phase
            == TxPhase::Start || status & 0x10u32 != 0),
{
}

/// Every access of the string sequencer concerns the UART whose FIFO takes
/// the current copy: while copy `port` of byte `index` is being sent, status
/// reads are of that UART's channel status (`0xE000_002C` for UART0,
/// `0xE000_102C` for UART1) and the FIFO write goes to that UART's FIFO
/// (`0xE000_0030` / `0xE000_1030`) with the byte `data[index]`; a transmit
/// that is polling writes as soon as its UART reports bit 4 (TXFULL) clear.
pub proof fn lemma_puts_polls_the_uart_it_writes(p: Puts, status: u32)
    requires
        p.wf(),
    ensures
        p.index >= p.data@.len() ==> p.action(status) == Access::Done,
        p.index < p.data@.len() ==> match p.action(status) {
            Access::Read { addr } => addr == if p.port == 0 {
                0xE000_002Cusize
            } else {
                0xE000_102Cusize
            },
            Access::Write { addr, value } => addr == (if p.port == 0 {
                0xE000_0030usize
            } else {
                0xE000_1030usize
            }) && value == p.data@[p.index as int] as u32,
            _ => false,
        },
        p.current is Some && status & 0x10u32 == 0 ==> p.action(status) == (Access::Write {
            addr: if p.port == 0 { 0xE000_0030usize } else { 0xE000_1030usize },
            value: p.data@[p.index as int] as u32,
        }),
{
    if p.index < p.data@.len() {
        lemma_putc_polls_only_while_full_bit(p.transmit(), status);
    }
}

} // verus!
