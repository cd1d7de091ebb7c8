use sophgo_hal::uart::{Config, Pads, Parity, Serial, StopBits, UartRegisters, WordLength};

struct NoPads;

impl Pads<0> for NoPads {
    fn rts() -> bool {
        false
    }

    fn cts() -> bool {
        false
    }

    fn txd() -> bool {
        true
    }

    fn rxd() -> bool {
        false
    }
}

fn fresh_uart(script: Vec<bool>) -> UartRegisters {
    UartRegisters { lcr: 0, thr: Vec::new(), lsr_empty: script, lsr_reads: 0 }
}

#[test]
fn default_config() {
    let config = Config::default();
    assert_eq!(config.parity, Parity::Disabled);
    assert_eq!(config.stop_bits, StopBits::One);
    assert_eq!(config.word_length, WordLength::Eight);
}

#[test]
fn line_configuration_scenario() {
    // Odd parity, two stop bits, seven-bit words: one write to the line
    // control register combining 0x18 | 0x04 | 0x02; nothing else touched.
    let config = Config {
        parity: Parity::Odd,
        stop_bits: StopBits::Two,
        word_length: WordLength::Seven,
    };
    let serial = Serial::<0, NoPads>::new(fresh_uart(vec![true]), config, 115200, NoPads);
    let (regs, _pads) = serial.free();
    assert_eq!(regs.lcr, 0x1E);
    assert!(regs.thr.is_empty());
    assert_eq!(regs.lsr_empty, vec![true]);
    assert_eq!(regs.lsr_reads, 0);
}

#[test]
fn line_control_default_is_8n1() {
    let serial = Serial::<0, NoPads>::new(fresh_uart(Vec::new()), Config::default(), 9600, NoPads);
    let (regs, _pads) = serial.free();
    assert_eq!(regs.lcr, 0x03);
}

#[test]
fn line_control_matches_hardware_encoding() {
    // The same three settings pushed through the 16550 register definition
    // crate must yield the same line control byte.
    let reference = uart16550::LineControl::CONFIG_8N1
        .set_parity(uart16550::PARITY::ODD)
        .set_char_len(uart16550::CharLen::SEVEN)
        .set_one_stop_bit(false);
    let config = Config {
        parity: Parity::Odd,
        stop_bits: StopBits::Two,
        word_length: WordLength::Seven,
    };
    let serial = Serial::<0, NoPads>::new(fresh_uart(Vec::new()), config, 115200, NoPads);
    let (regs, _pads) = serial.free();
    assert_eq!(format!("{:?}", reference), format!("LineControl({})", regs.lcr));
}

#[test]
fn partial_transmit_scenario() {
    // The transmitter reports empty once, then not-empty: of [0xAA, 0xBB,
    // 0xCC] only the first byte is accepted. A second call with the
    // remaining slice, the transmitter now empty, accepts the other two.
    let regs = fresh_uart(vec![true, false, true, true]);
    let mut serial = Serial::<0, NoPads>::new(regs, Config::default(), 115200, NoPads);
    let count = serial.write(&[0xAA, 0xBB, 0xCC]).unwrap();
    assert_eq!(count, 1);
    let count = serial.write(&[0xBB, 0xCC]).unwrap();
    assert_eq!(count, 2);
    let (regs, _pads) = serial.free();
    assert_eq!(regs.thr, vec![0xAA, 0xBB, 0xCC]);
    assert_eq!(regs.lsr_reads, 4);
}

#[test]
fn write_accepts_nothing_when_full() {
    let regs = fresh_uart(vec![false, true]);
    let mut serial = Serial::<0, NoPads>::new(regs, Config::default(), 115200, NoPads);
    let count = serial.write(&[1, 2, 3]).unwrap();
    assert_eq!(count, 0);
    let (regs, _pads) = serial.free();
    assert!(regs.thr.is_empty());
    assert_eq!(regs.lsr_reads, 1);
}

#[test]
fn write_empty_buffer() {
    let regs = fresh_uart(vec![true]);
    let mut serial = Serial::<0, NoPads>::new(regs, Config::default(), 115200, NoPads);
    let count = serial.write(&[]).unwrap();
    assert_eq!(count, 0);
    let (regs, _pads) = serial.free();
    assert_eq!(regs.lsr_reads, 0);
}

#[test]
fn flush_spins_until_empty() {
    let regs = fresh_uart(vec![false, false, true, true]);
    let mut serial = Serial::<0, NoPads>::new(regs, Config::default(), 115200, NoPads);
    serial.flush().unwrap();
    let (regs, _pads) = serial.free();
    assert!(regs.thr.is_empty());
    assert_eq!(regs.lsr_reads, 3);
}
