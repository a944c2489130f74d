use tikos::mmio::{Access, RegWrite};
use tikos::uart::{
    init, print_u32, putc, putc_at, puts, u32_to_dec, Puts, TxPhase, OFF_BAUDDIV, OFF_BAUDGEN,
    OFF_CR, OFF_FIFO, OFF_MR, OFF_SR, TX_POLL_BUDGET, UART0_BASE, UART1_BASE,
};

fn render(n: u32) -> Vec<u8> {
    let mut buf = [0xAAu8; 12];
    let len = u32_to_dec(n, &mut buf);
    assert!(buf[len..].iter().all(|&b| b == 0xAA));
    buf[..len].to_vec()
}

#[test]
fn decimal_rendering() {
    assert_eq!(render(0), b"0".to_vec());
    assert_eq!(render(7), b"7".to_vec());
    assert_eq!(render(10), b"10".to_vec());
    assert_eq!(render(407), b"407".to_vec());
    assert_eq!(render(1_000_000), b"1000000".to_vec());
    assert_eq!(render(u32::MAX), b"4294967295".to_vec());
    for n in [1u32, 9, 99, 100, 12345, 99999, 2147483647] {
        assert_eq!(render(n), n.to_string().into_bytes());
    }
}

#[test]
fn decimal_into_exact_buffer() {
    let mut buf = [0u8; 3];
    assert_eq!(u32_to_dec(999, &mut buf), 3);
    assert_eq!(&buf, b"999");
}

#[test]
fn init_register_values() {
    let w = init(UART1_BASE);
    assert_eq!(
        w,
        [
            RegWrite { addr: UART1_BASE + OFF_MR, value: 0x20 },
            RegWrite { addr: UART1_BASE + OFF_BAUDGEN, value: 124 },
            RegWrite { addr: UART1_BASE + OFF_BAUDDIV, value: 6 },
            RegWrite { addr: UART1_BASE + OFF_CR, value: 0x17 },
        ]
    );
    assert_eq!(init(UART0_BASE)[0].addr, 0xE000_0004);
}

/// Runs a string sequencer; the TX FIFO reports full for the first `busy`
/// status reads of every byte copy. Returns the FIFO writes and the number of
/// status reads.
fn run(p: &mut Puts, busy: u32) -> (Vec<(usize, u32)>, u64) {
    let mut writes = Vec::new();
    let mut reads = 0u64;
    let mut seen = 0u32;
    let mut status = 0u32;
    loop {
        match p.step(status) {
            Access::Read { addr } => {
                assert!(addr == UART0_BASE + OFF_SR || addr == UART1_BASE + OFF_SR);
                reads += 1;
                status = if seen < busy { 0x10 } else { 0 };
                seen += 1;
            }
            Access::Write { addr, value } => {
                writes.push((addr, value));
                seen = 0;
            }
            Access::Done => return (writes, reads),
            Access::Fault => panic!("a transmit never faults"),
        }
    }
}

#[test]
fn puts_sends_each_byte_to_both_uarts() {
    let mut p = puts(b"Hi\n");
    let (writes, reads) = run(&mut p, 0);
    let f0 = UART0_BASE + OFF_FIFO;
    let f1 = UART1_BASE + OFF_FIFO;
    assert_eq!(
        writes,
        vec![
            (f0, b'H' as u32),
            (f1, b'H' as u32),
            (f0, b'i' as u32),
            (f1, b'i' as u32),
            (f0, b'\n' as u32),
            (f1, b'\n' as u32)
        ]
    );
    assert_eq!(reads, 6);
    assert_eq!(p.step(0), Access::Done);
}

#[test]
fn puts_waits_while_fifo_full() {
    let mut p = puts(b"ab");
    let (writes, reads) = run(&mut p, 3);
    assert_eq!(writes.len(), 4);
    assert_eq!(reads, 4 * 4);
}

#[test]
fn puts_of_empty_string_is_done() {
    let mut p = puts(b"");
    assert_eq!(p.step(0), Access::Done);
}

#[test]
fn putc_at_gives_up_waiting_after_budget() {
    let mut t = putc_at(UART1_BASE, b'x');
    let mut reads = 0u64;
    let mut status = 0x10u32;
    loop {
        match t.step(status) {
            Access::Read { addr } => {
                assert_eq!(addr, UART1_BASE + OFF_SR);
                reads += 1;
                status = 0xFFFF_FFFF;
            }
            Access::Write { addr, value } => {
                assert_eq!((addr, value), (UART1_BASE + OFF_FIFO, b'x' as u32));
                break;
            }
            other => panic!("unexpected {:?}", other),
        }
    }
    assert_eq!(reads, TX_POLL_BUDGET as u64 + 1);
    assert_eq!(t.phase, TxPhase::Finished);
    assert_eq!(t.step(0), Access::Done);
}

#[test]
fn putc_targets_uart0_then_uart1() {
    let [a, b] = putc(b'z');
    assert_eq!((a.base, a.byte), (UART0_BASE, b'z'));
    assert_eq!((b.base, b.byte), (UART1_BASE, b'z'));
}

#[test]
fn print_u32_sends_decimal_digits() {
    let mut buf = [0u8; 10];
    let mut p = print_u32(1234, &mut buf);
    let (writes, _) = run(&mut p, 0);
    let digits: Vec<u32> = writes.iter().map(|&(_, v)| v).collect();
    assert_eq!(digits, b"11223344".iter().map(|&b| b as u32).collect::<Vec<u32>>());
    let mut buf = [0u8; 10];
    let mut p = print_u32(0, &mut buf);
    let (writes, _) = run(&mut p, 0);
    assert_eq!(writes, vec![(UART0_BASE + OFF_FIFO, 48), (UART1_BASE + OFF_FIFO, 48)]);
}
