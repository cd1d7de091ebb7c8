//! Serial line on a 16550-compatible UART.
//!
//! A serial line owns one UART register block plus the pads proven valid for
//! that UART instance, and applies a line-configuration record (parity, stop
//! bits, word length) to the hardware at construction. Transmission is a
//! non-blocking primitive that accepts bytes only while the transmit buffer
//! reports empty, plus a blocking drain that spins until it does.
//!
//! The UART's registers are held as plain values; raw volatile access to a
//! memory-mapped instance is the platform layer's concern. The transmitter's
//! autonomous draining is represented by a script of transmitter-empty
//! reports that line-status reads consume in order.

use vstd::prelude::*;

verus! {

/// Parity bits of the line control register for parity setting `p`: bit 3
/// enables parity, bit 4 selects even.
pub open spec fn spec_parity_bits(p: Parity) -> u8 {
    match p {
        Parity::Disabled => 0x00,
        Parity::Even => 0x10,
        Parity::Odd => 0x18,
    }
}

/// Stop bit of the line control register for stop-bit setting `s`: bit 2 set
/// selects more than one stop bit.
pub open spec fn spec_stop_bits(s: StopBits) -> u8 {
    match s {
        StopBits::One => 0x00,
        StopBits::Two => 0x04,
    }
}

/// Word length bits of the line control register for word length `w`: bits 0
/// and 1 encode the length, five bits plus the encoded value.
pub open spec fn spec_word_length_bits(w: WordLength) -> u8 {
    match w {
        WordLength::Five => 0x00,
        WordLength::Six => 0x01,
        WordLength::Seven => 0x02,
        WordLength::Eight => 0x03,
    }
}

/// The line control register value encoding all three settings of `c`
/// combined: parity bits, stop bit and word length bits, each in its own
/// field of the register.
pub open spec fn spec_line_control(c: Config) -> u8 {
    spec_parity_bits(c.parity) | spec_stop_bits(c.stop_bits) | spec_word_length_bits(c.word_length)
}

/// UART registers, held as plain values.
///
/// `lsr_empty` scripts the line-status register's transmitter-empty bit: the
/// `lsr_reads`-th and following entries are the reports that future
/// line-status reads return, in order. Past the end of the script the
/// transmitter reports not-empty, and reads stop advancing.
pub struct UartRegisters {
    /// Line control register: the value most recently written.
    pub lcr: u8,
    /// Bytes accepted by the transmit holding register, in order.
    pub thr: Vec<u8>,
    /// Scripted reports of the transmitter-empty line status bit.
    pub lsr_empty: Vec<bool>,
    /// Number of script entries already consumed by line-status reads.
    pub lsr_reads: usize,
}

impl UartRegisters {
    /// Whether the `i`-th future line-status read reports the transmit
    /// buffer empty. Past the end of the script the transmitter reports
    /// not-empty.
    pub open spec fn spec_empty_at(self, i: int) -> bool {
        0 <= i && self.lsr_reads + i < self.lsr_empty@.len() && self.lsr_empty@[self.lsr_reads + i]
    }

    /// The script position after `n` more line-status reads: reads advance
    /// one entry at a time and stop at the end of the script.
    pub open spec fn spec_after_reads(self, n: int) -> int {
        if self.lsr_reads + n <= self.lsr_empty@.len() {
            self.lsr_reads + n
        } else if self.lsr_reads <= self.lsr_empty@.len() {
            self.lsr_empty@.len() as int
        } else {
            self.lsr_reads as int
        }
    }

    /// Read the line status register once and report whether the transmit
    /// buffer is empty, consuming one script entry.
    fn read_lsr_empty(&mut self) -> (r: bool)
        ensures
            r == old(self).spec_empty_at(0),
            final(self).lsr_reads == old(self).spec_after_reads(1),
            final(self).lcr == old(self).lcr,
            final(self).thr == old(self).thr,
            final(self).lsr_empty == old(self).lsr_empty,
    {
        if self.lsr_reads < self.lsr_empty.len() {
            let r = self.lsr_empty[self.lsr_reads];
            self.lsr_reads = self.lsr_reads + 1;
            r
        } else {
            false
        }
    }
}

/// Valid UART pads.
pub trait Pads<const U: usize> {
    /// Checks if this pad configuration includes Request-to-Send feature.
    fn rts() -> bool;

    /// Checks if this pad configuration includes Clear-to-Send feature.
    fn cts() -> bool;

    /// Checks if this pad configuration includes Transmit feature.
    fn txd() -> bool;

    /// Checks if this pad configuration includes Receive feature.
    fn rxd() -> bool;
}

/// A serial line: one UART register block plus the pads it was constructed
/// with.
pub struct Serial<const U: usize, PADS> {
    base: UartRegisters,
    pads: PADS,
}

impl<const U: usize, PADS> Serial<U, PADS> {
    /// The register block as this line last left it.
    pub closed spec fn spec_base(self) -> UartRegisters {
        self.base
    }

    /// The pads this line was constructed with.
    pub closed spec fn spec_pads(self) -> PADS {
        self.pads
    }

    /// Creates a polling serial instance, without interrupt or DMA
    /// configurations.
    ///
    /// Construction performs exactly one register write: the line control
    /// register receives the value encoding all three settings of `config`
    /// combined; no other register is touched. The baud rate, in baud, is
    /// accepted but not applied: divisor configuration is not implemented
    /// yet, so `baudrate` is ignored.
    pub fn new(
        base: UartRegisters,
        config: Config,
        baudrate: u32,
        pads: PADS,
    ) -> (r: Self) where PADS: Pads<U>
        ensures
            r.spec_base().lcr == spec_line_control(config),
            r.spec_base().thr == base.thr,
            r.spec_base().lsr_empty == base.lsr_empty,
            r.spec_base().lsr_reads == base.lsr_reads,
            r.spec_pads() == pads,
    {
        let parity: u8 = match config.parity {
            Parity::Even => 0x10,
            Parity::Odd => 0x18,
            Parity::Disabled => 0x00,
        };
        let stop_bits: u8 = match config.stop_bits {
            StopBits::One => 0x00,
            StopBits::Two => 0x04,
        };
        let word_length: u8 = match config.word_length {
            WordLength::Five => 0x00,
            WordLength::Six => 0x01,
            WordLength::Seven => 0x02,
            WordLength::Eight => 0x03,
        };
        let mut base = base;
        base.lcr = parity | stop_bits | word_length;
        Self { base, pads }
    }

    /// Release serial instance and return its peripheral and pads.
    pub fn free(self) -> (r: (UartRegisters, PADS))
        ensures
            r.0 == self.spec_base(),
            r.1 == self.spec_pads(),
    {
        (self.base, self.pads)
    }

    /// Transmit the bytes of `buf` while the hardware reports its transmit
    /// buffer empty, without blocking or retrying.
    ///
    /// The line status register is read once before each byte; the byte is
    /// handed to the transmit holding register only on an empty report, and
    /// the first byte that cannot be immediately accepted stops the call.
    /// Returns the count of bytes actually accepted; zero means the transmit
    /// buffer was full, to be read as "retry later", not as a failure.
    pub fn write(&mut self, buf: &[u8]) -> (r: Result<usize, core::convert::Infallible>)
        ensures
            r is Ok,
            ({
                let count = r->Ok_0 as int;
                &&& 0 <= count <= buf@.len()
                &&& final(self).spec_base().thr@ == old(self).spec_base().thr@ + buf@.subrange(
                    0,
                    count,
                )
                &&& forall|i: int| 0 <= i < count ==> old(self).spec_base().spec_empty_at(i)
                &&& count < buf@.len() ==> !old(self).spec_base().spec_empty_at(count)
                &&& final(self).spec_base().lsr_reads == old(self).spec_base().spec_after_reads(
                    if count < buf@.len() {
                        count + 1
                    } else {
                        count
                    },
                )
                &&& final(self).spec_base().lcr == old(self).spec_base().lcr
                &&& final(self).spec_base().lsr_empty == old(self).spec_base().lsr_empty
                &&& final(self).spec_pads() == old(self).spec_pads()
            }),
    {
        let mut count: usize = 0;
        loop
            invariant_except_break
                self.base.lsr_reads == old(self).base.spec_after_reads(count as int),
            invariant
                count <= buf@.len(),
                forall|i: int| 0 <= i < count ==> old(self).base.spec_empty_at(i),
                self.base.thr@ == old(self).base.thr@ + buf@.subrange(0, count as int),
                self.base.lcr == old(self).base.lcr,
                self.base.lsr_empty == old(self).base.lsr_empty,
                self.pads == old(self).pads,
            ensures
                count <= buf@.len(),
                forall|i: int| 0 <= i < count ==> old(self).base.spec_empty_at(i),
                count < buf@.len() ==> !old(self).base.spec_empty_at(count as int),
                self.base.thr@ == old(self).base.thr@ + buf@.subrange(0, count as int),
                self.base.lsr_reads == old(self).base.spec_after_reads(
                    if (count as int) < buf@.len() {
                        count + 1
                    } else {
                        count as int
                    },
                ),
                self.base.lcr == old(self).base.lcr,
                self.base.lsr_empty == old(self).base.lsr_empty,
                self.pads == old(self).pads,
            decreases buf@.len() - count,
        {
            if count >= buf.len() {
                break ;
            }
            if self.base.read_lsr_empty() {
                let byte = buf[count];
                self.base.thr.push(byte);
                assert(buf@.subrange(0, count + 1) =~= buf@.subrange(0, count as int).push(
                    buf@[count as int],
                ));
                count = count + 1;
            } else {
                break ;
            }
        }
        Ok(count)
    }

    /// Busy-wait until the hardware reports its transmit buffer empty,
    /// reading the line status register once per spin.
    ///
    /// The spin carries no timeout, so an empty report must eventually come;
    /// with real hardware an outer watchdog is the caller's concern.
    pub fn flush(&mut self) -> (r: Result<(), core::convert::Infallible>)
        requires
            exists|i: int| old(self).spec_base().spec_empty_at(i),
        ensures
            r is Ok,
            final(self).spec_base().lcr == old(self).spec_base().lcr,
            final(self).spec_base().thr == old(self).spec_base().thr,
            final(self).spec_base().lsr_empty == old(self).spec_base().lsr_empty,
            final(self).spec_pads() == old(self).spec_pads(),
            exists|k: int|
                {
                    &&& old(self).spec_base().spec_empty_at(k)
                    &&& forall|j: int| 0 <= j < k ==> !old(self).spec_base().spec_empty_at(j)
                    &&& final(self).spec_base().lsr_reads == old(
                        self,
                    ).spec_base().spec_after_reads(k + 1)
                },
    {
        let ghost k0 = choose|i: int| old(self).base.spec_empty_at(i);
        let ghost mut n: int = 0;
        loop
            invariant_except_break
                self.base.lsr_reads == old(self).base.spec_after_reads(n),
            invariant
                0 <= n <= k0,
                old(self).base.spec_empty_at(k0),
                forall|j: int| 0 <= j < n ==> !old(self).base.spec_empty_at(j),
                self.base.lcr == old(self).base.lcr,
                self.base.thr == old(self).base.thr,
                self.base.lsr_empty == old(self).base.lsr_empty,
                self.pads == old(self).pads,
            ensures
                old(self).base.spec_empty_at(n),
                forall|j: int| 0 <= j < n ==> !old(self).base.spec_empty_at(j),
                self.base.lsr_reads == old(self).base.spec_after_reads(n + 1),
                self.base.lcr == old(self).base.lcr,
                self.base.thr == old(self).base.thr,
                self.base.lsr_empty == old(self).base.lsr_empty,
                self.pads == old(self).pads,
            decreases k0 - n,
        {
            if self.base.read_lsr_empty() {
                break ;
            }
            spin_loop_hint();
            proof {
                n = n + 1;
            }
        }
        Ok(())
    }
}

/// Relies on core::hint::spin_loop: a processor yield hint with no
/// observable effect on any value.
#[verifier::external_body]
fn spin_loop_hint() {
    core::hint::spin_loop()
}

/// Serial configuration.
#[derive(Copy, Clone, Debug, PartialEq, Eq, Structural)]
pub struct Config {
    /// Parity settings.
    pub parity: Parity,
    /// Serial stop bits.
    pub stop_bits: StopBits,
    /// Data word length.
    pub word_length: WordLength,
}

impl Default for Config {
    /// Serial configuration defaults to 8-bit word, no parity check, 1 stop
    /// bit.
    fn default() -> (r: Self)
        ensures
            r == (Config {
                parity: Parity::Disabled,
                stop_bits: StopBits::One,
                word_length: WordLength::Eight,
            }),
    {
        Config { parity: Parity::Disabled, stop_bits: StopBits::One, word_length: WordLength::Eight }
    }
}

/// Parity check.
#[derive(Copy, Clone, Debug, PartialEq, Eq, Structural)]
pub enum Parity {
    /// No parity check.
    Disabled,
    /// Even parity bit.
    Even,
    /// Odd parity bit.
    Odd,
}

/// Stop bits.
#[derive(Copy, Clone, Debug, PartialEq, Eq, Structural)]
pub enum StopBits {
    /// 1 stop bit.
    One,
    /// 2 stop bits.
    Two,
}

/// Word length.
#[derive(Copy, Clone, Debug, PartialEq, Eq, Structural)]
pub enum WordLength {
    /// Five bits per word.
    Five,
    /// Six bits per word.
    Six,
    /// Seven bits per word.
    Seven,
    /// Eight bits per word.
    Eight,
}

} // verus!
