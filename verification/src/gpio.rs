//! General Purpose Input/Output.
//!
//! A GPIO port groups a data register and a direction register and mediates
//! bit-level access by pin number. A pin is a typed handle that moves between
//! mutually exclusive roles (alternate function, GPIO output); an operation
//! invalid for the handle's current role does not compile.
//!
//! The port's registers are held as plain values; raw volatile access to a
//! memory-mapped instance is the platform layer's concern. A single execution
//! context is assumed to access each port: two owners of different pins still
//! share the port's physical registers, and nothing here arbitrates between
//! execution contexts.

use crate::pads;
use core::marker::PhantomData;
use vstd::prelude::*;

verus! {

/// Byte offset of the port data register from the peripheral base.
pub const DATA_OFFSET: u32 = 0x00;
/// Byte offset of the direction register: one 32-bit slot after the data
/// register.
pub const DIRECTION_OFFSET: u32 = DATA_OFFSET + 4;
/// Byte offset of the interrupt enable register: a reserved gap of 0x28 bytes
/// follows the direction register.
pub const INTERRUPT_ENABLE_OFFSET: u32 = DIRECTION_OFFSET + 4 + 0x28;
/// Byte offset of the interrupt mask register.
pub const INTERRUPT_MASK_OFFSET: u32 = INTERRUPT_ENABLE_OFFSET + 4;
/// Byte offset of the interrupt level register.
pub const INTERRUPT_LEVEL_OFFSET: u32 = INTERRUPT_MASK_OFFSET + 4;
/// Byte offset of the interrupt polarity register.
pub const INTERRUPT_POLARITY_OFFSET: u32 = INTERRUPT_LEVEL_OFFSET + 4;
/// Byte offset of the interrupt status register.
pub const INTERRUPT_STATUS_OFFSET: u32 = INTERRUPT_POLARITY_OFFSET + 4;
/// Byte offset of the raw interrupt status register.
pub const RAW_INTERRUPT_STATUS_OFFSET: u32 = INTERRUPT_STATUS_OFFSET + 4;
/// Byte offset of the debounce enable register.
pub const DEBOUNCE_OFFSET: u32 = RAW_INTERRUPT_STATUS_OFFSET + 4;
/// Byte offset of the interrupt clear register.
pub const INTERRUPT_CLEAR_OFFSET: u32 = DEBOUNCE_OFFSET + 4;
/// Byte offset of the external port register.
pub const EXTERNAL_PORT_OFFSET: u32 = INTERRUPT_CLEAR_OFFSET + 4;
/// Byte offset of the synchronization level register: a reserved gap of 0xC
/// bytes follows the external port register.
pub const SYNC_LEVEL_OFFSET: u32 = EXTERNAL_PORT_OFFSET + 4 + 0xC;

/// The named registers of one GPIO port, in memory order.
#[derive(Clone, Copy, Debug, PartialEq, Eq, Structural)]
pub enum GpioRegister {
    /// Port data register.
    Data,
    /// Port data direction register.
    Direction,
    /// Interrupt enable register.
    InterruptEnable,
    /// Interrupt mask register.
    InterruptMask,
    /// Interrupt level register.
    InterruptLevel,
    /// Interrupt polarity register.
    InterruptPolarity,
    /// Interrupt status register (read-only).
    InterruptStatus,
    /// Raw interrupt status register (read-only).
    RawInterruptStatus,
    /// Debounce enable register.
    Debounce,
    /// Port clear interrupt register (write-only).
    InterruptClear,
    /// Port external port register.
    ExternalPort,
    /// Level-sensitive synchronization enable register.
    SyncLevel,
}

/// Byte offset of register `r` from the port's base address.
pub open spec fn spec_register_offset(r: GpioRegister) -> u32 {
    match r {
        GpioRegister::Data => DATA_OFFSET,
        GpioRegister::Direction => DIRECTION_OFFSET,
        GpioRegister::InterruptEnable => INTERRUPT_ENABLE_OFFSET,
        GpioRegister::InterruptMask => INTERRUPT_MASK_OFFSET,
        GpioRegister::InterruptLevel => INTERRUPT_LEVEL_OFFSET,
        GpioRegister::InterruptPolarity => INTERRUPT_POLARITY_OFFSET,
        GpioRegister::InterruptStatus => INTERRUPT_STATUS_OFFSET,
        GpioRegister::RawInterruptStatus => RAW_INTERRUPT_STATUS_OFFSET,
        GpioRegister::Debounce => DEBOUNCE_OFFSET,
        GpioRegister::InterruptClear => INTERRUPT_CLEAR_OFFSET,
        GpioRegister::ExternalPort => EXTERNAL_PORT_OFFSET,
        GpioRegister::SyncLevel => SYNC_LEVEL_OFFSET,
    }
}

/// Byte offset of register `r` from the port's base address.
///
/// Law: the offsets, accumulated in memory order over the register widths and
/// reserved gaps, equal exactly the offsets the hardware manual documents.
pub fn register_offset(r: GpioRegister) -> (off: u32)
    ensures
        off == spec_register_offset(r),
        off == match r {
            GpioRegister::Data => 0x00u32,
            GpioRegister::Direction => 0x04u32,
            GpioRegister::InterruptEnable => 0x30u32,
            GpioRegister::InterruptMask => 0x34u32,
            GpioRegister::InterruptLevel => 0x38u32,
            GpioRegister::InterruptPolarity => 0x3Cu32,
            GpioRegister::InterruptStatus => 0x40u32,
            GpioRegister::RawInterruptStatus => 0x44u32,
            GpioRegister::Debounce => 0x48u32,
            GpioRegister::InterruptClear => 0x4Cu32,
            GpioRegister::ExternalPort => 0x50u32,
            GpioRegister::SyncLevel => 0x60u32,
        },
{
    match r {
        GpioRegister::Data => DATA_OFFSET,
        GpioRegister::Direction => DIRECTION_OFFSET,
        GpioRegister::InterruptEnable => INTERRUPT_ENABLE_OFFSET,
        GpioRegister::InterruptMask => INTERRUPT_MASK_OFFSET,
        GpioRegister::InterruptLevel => INTERRUPT_LEVEL_OFFSET,
        GpioRegister::InterruptPolarity => INTERRUPT_POLARITY_OFFSET,
        GpioRegister::InterruptStatus => INTERRUPT_STATUS_OFFSET,
        GpioRegister::RawInterruptStatus => RAW_INTERRUPT_STATUS_OFFSET,
        GpioRegister::Debounce => DEBOUNCE_OFFSET,
        GpioRegister::InterruptClear => INTERRUPT_CLEAR_OFFSET,
        GpioRegister::ExternalPort => EXTERNAL_PORT_OFFSET,
        GpioRegister::SyncLevel => SYNC_LEVEL_OFFSET,
    }
}

/// Bit pattern of the GPIO direction register once pin `n`'s direction bit is
/// forced to input (cleared).
pub open spec fn spec_set_input(bits: u32, n: usize) -> u32 {
    bits & !(1u32 << n)
}

/// Bit pattern of the GPIO direction register once pin `n`'s direction bit is
/// forced to output (set).
pub open spec fn spec_set_output(bits: u32, n: usize) -> u32 {
    bits | (1u32 << n)
}

/// Whether the direction register `bits` configures pin `n` as input.
pub open spec fn spec_is_input(bits: u32, n: usize) -> bool {
    bits & (1u32 << n) == 0
}

/// Whether the direction register `bits` configures pin `n` as output.
pub open spec fn spec_is_output(bits: u32, n: usize) -> bool {
    bits & (1u32 << n) != 0
}

/// GPIO direction.
///
/// A bit-vector value where bit `n` encodes pin `n`'s direction:
/// 0 is input, 1 is output.
#[derive(Clone, Copy, Debug, PartialEq, Eq, Structural, Hash)]
pub struct Direction(pub u32);

impl Direction {
    /// Set GPIO direction to input.
    pub fn set_input(self, n: usize) -> (r: Self)
        requires
            n < 32,
        ensures
            r.0 == spec_set_input(self.0, n),
    {
        Self(self.0 & !(1u32 << n))
    }

    /// Set GPIO direction to output.
    pub fn set_output(self, n: usize) -> (r: Self)
        requires
            n < 32,
        ensures
            r.0 == spec_set_output(self.0, n),
    {
        Self(self.0 | (1u32 << n))
    }

    /// Check if GPIO direction is input.
    pub fn is_input(self, n: usize) -> (r: bool)
        requires
            n < 32,
        ensures
            r == spec_is_input(self.0, n),
    {
        self.0 & (1u32 << n) == 0
    }

    /// Check if GPIO direction is output.
    pub fn is_output(self, n: usize) -> (r: bool)
        requires
            n < 32,
        ensures
            r == spec_is_output(self.0, n),
    {
        self.0 & (1u32 << n) != 0
    }
}

/// Law: for every pin index `n` in range, forcing pin `n` to output makes
/// `is_output` true and `is_input` false; forcing it to input makes `is_input`
/// true and `is_output` false.
pub proof fn lemma_direction_round_trip(bits: u32, n: usize)
    by (bit_vector)
    requires
        n < 32,
    ensures
        spec_is_output(spec_set_output(bits, n), n),
        !spec_is_input(spec_set_output(bits, n), n),
        spec_is_input(spec_set_input(bits, n), n),
        !spec_is_output(spec_set_input(bits, n), n),
{
}

/// Law: direction updates on one pin do not interfere with any other pin:
/// setting pin `m`'s direction leaves pin `n`'s direction bit unchanged
/// whenever `m != n`, and updates of two different pins commute.
pub proof fn lemma_direction_no_cross_bit_interference(bits: u32, n: usize, m: usize)
    by (bit_vector)
    requires
        n < 32,
        m < 32,
        m != n,
    ensures
        spec_is_output(spec_set_output(bits, m), n) == spec_is_output(bits, n),
        spec_is_output(spec_set_input(bits, m), n) == spec_is_output(bits, n),
        spec_is_input(spec_set_output(bits, m), n) == spec_is_input(bits, n),
        spec_is_input(spec_set_input(bits, m), n) == spec_is_input(bits, n),
        spec_set_output(spec_set_output(bits, n), m) == spec_set_output(
            spec_set_output(bits, m),
            n,
        ),
        spec_set_input(spec_set_output(bits, n), m) == spec_set_output(
            spec_set_input(bits, m),
            n,
        ),
{
}

/// Whether bit `n` of a data register value is set.
pub open spec fn spec_bit(bits: u32, n: usize) -> bool {
    bits & (1u32 << n) != 0
}

/// Data register value once bit `n` is driven high.
pub open spec fn spec_set_bit(bits: u32, n: usize) -> u32 {
    bits | (1u32 << n)
}

/// Data register value once bit `n` is driven low.
pub open spec fn spec_clear_bit(bits: u32, n: usize) -> u32 {
    bits & !(1u32 << n)
}

/// Law: driving a pin high sets exactly its own data bit: bit `n` is set
/// afterwards, and every other bit keeps its value. Driving it low clears
/// exactly its own bit in the same way.
pub proof fn lemma_data_bit_isolation(bits: u32, n: usize, m: usize)
    by (bit_vector)
    requires
        n < 32,
        m < 32,
        m != n,
    ensures
        spec_bit(spec_set_bit(bits, n), n),
        !spec_bit(spec_clear_bit(bits, n), n),
        spec_bit(spec_set_bit(bits, n), m) == spec_bit(bits, m),
        spec_bit(spec_clear_bit(bits, n), m) == spec_bit(bits, m),
{
}

/// Law: driving a pin high is idempotent. A second `set_high` leaves the data
/// register exactly as the first left it: the target bit stays set and every
/// other bit keeps the value it had before either call. Driving low is
/// idempotent in the same way.
pub proof fn lemma_data_bit_idempotent(bits: u32, n: usize)
    by (bit_vector)
    requires
        n < 32,
    ensures
        spec_set_bit(spec_set_bit(bits, n), n) == spec_set_bit(bits, n),
        spec_clear_bit(spec_clear_bit(bits, n), n) == spec_clear_bit(bits, n),
{
}

/// GPIO port registers, held as plain values.
///
/// The byte offset of each register in a memory-mapped instance is given by
/// [`register_offset`].
pub struct RegisterBlock {
    /// Port data register.
    pub data: u32,
    /// Port data direction register.
    pub direction: Direction,
    /// Interrupt enable register.
    pub interrupt_enable: u32,
    /// Interrupt mask register.
    pub interrupt_mask: u32,
    /// Interrupt level register.
    pub interrupt_level: u32,
    /// Interrupt polarity register.
    pub interrupt_polarity: u32,
    /// Interrupt status register (read-only in hardware).
    pub interrupt_status: u32,
    /// Raw interrupt status register (read-only in hardware).
    pub raw_interrupt_status: u32,
    /// Debounce enable register.
    pub debounce: u32,
    /// Port clear interrupt register (write-only in hardware).
    pub interrupt_clear: u32,
    /// Port external port register.
    pub external_port: u32,
    /// Level-sensitive synchronization enable register.
    pub sync_level: u32,
}

impl RegisterBlock {
    /// Whether every register of `self` except the data register holds the
    /// same value as in `other`.
    pub open spec fn spec_same_but_data(self, other: Self) -> bool {
        self.direction == other.direction && self.interrupt_enable == other.interrupt_enable
            && self.interrupt_mask == other.interrupt_mask && self.interrupt_level
            == other.interrupt_level && self.interrupt_polarity == other.interrupt_polarity
            && self.interrupt_status == other.interrupt_status && self.raw_interrupt_status
            == other.raw_interrupt_status && self.debounce == other.debounce
            && self.interrupt_clear == other.interrupt_clear && self.external_port
            == other.external_port && self.sync_level == other.sync_level
    }

    /// Whether every register of `self` except the direction register holds
    /// the same value as in `other`.
    pub open spec fn spec_same_but_direction(self, other: Self) -> bool {
        self.data == other.data && self.interrupt_enable == other.interrupt_enable
            && self.interrupt_mask == other.interrupt_mask && self.interrupt_level
            == other.interrupt_level && self.interrupt_polarity == other.interrupt_polarity
            && self.interrupt_status == other.interrupt_status && self.raw_interrupt_status
            == other.raw_interrupt_status && self.debounce == other.debounce
            && self.interrupt_clear == other.interrupt_clear && self.external_port
            == other.external_port && self.sync_level == other.sync_level
    }
}

/// Marker for a pin driven by software as a digital output, with pull mode
/// `M`.
pub struct Output<M> {
    _mode: PhantomData<M>,
}

/// Marker for the pull-up electrical configuration of an output pin.
pub struct PullUp;

/// The identity of physical pad `N`, used to look up its capabilities.
pub struct PadNum<const N: usize>;

/// Marker for alternate function `M` of a pad.
pub struct Function<const M: u32>;

/// Capability: the pad supports GPIO mode, and activating it means writing
/// the selector value below into the pad's function multiplexer register.
///
/// Pads absent from this table do not support GPIO mode; requesting a
/// GPIO-output handle for such a pad does not compile. Adding a supported pad
/// means adding one implementation of this trait.
pub trait HasGpioMode {
    /// The selector value that activates GPIO mode, as a specification value.
    spec fn spec_gpio_mode() -> u32;

    /// The selector value that activates GPIO mode for this pad.
    fn gpio_mode() -> (r: u32)
        ensures
            r == Self::spec_gpio_mode(),
    ;
}

impl HasGpioMode for PadNum<3> {
    open spec fn spec_gpio_mode() -> u32 {
        3
    }

    fn gpio_mode() -> u32 {
        3
    }
}

impl HasGpioMode for PadNum<49> {
    open spec fn spec_gpio_mode() -> u32 {
        0
    }

    fn gpio_mode() -> u32 {
        0
    }
}

/// A physical pad in role `M`, as a move-only handle.
///
/// Exactly one live handle should exist per physical pad: handles are
/// produced once, by constructing the pin collection of their package, and a
/// role change consumes the handle and returns a differently typed one.
pub struct Pad<const N: usize, M> {
    _function: PhantomData<M>,
}

/// A physical pad in role `M`, paired with the GPIO port it is wired to.
pub struct Gpio<const N: usize, M> {
    _function: PhantomData<M>,
}

impl<const N: usize, M> Pad<N, M> {
    /// Route the pad to alternate function `M2`, writing `M2` into the pad's
    /// function multiplexer register and touching nothing else.
    ///
    /// Always legal for any role; only pads whose multiplexer register is
    /// laid out so far (pads 3 and 4) can be routed.
    pub fn into_alternate<const M2: u32>(self, pads: &mut pads::RegisterBlock) -> (r: Pad<
        N,
        Function<M2>,
    >)
        requires
            N == 3 || N == 4,
        ensures
            final(pads).spec_fmux(N as int) == M2,
            forall|k: int|
                (k == 3 || k == 4) && k != N ==> final(pads).spec_fmux(k) == old(pads).spec_fmux(k),
            final(pads).io_g10_sd0_clk == old(pads).io_g10_sd0_clk,
            final(pads).io_g10_sd0_cmd == old(pads).io_g10_sd0_cmd,
    {
        pads.write_fmux::<N>(M2);
        Pad { _function: PhantomData }
    }

    /// Pair the pad with the GPIO port it is wired to, keeping its role.
    pub fn into_gpio(self) -> (r: Gpio<N, M>) {
        Gpio { _function: PhantomData }
    }
}

impl<const N: usize, M> Gpio<N, M> {
    /// Reconfigure the pad as a pull-up GPIO output. Legal only for pads in
    /// the capability table ([`HasGpioMode`]); for any other pad this call
    /// does not compile.
    ///
    /// Side effects, in order: the pad's GPIO-mode selector is written into
    /// its function multiplexer register; the pad's electrical configuration
    /// register is left as it stands (the pull-up field codec is not
    /// implemented yet, so this step passes the value through); the pin's
    /// direction bit in the port's direction register is set to output by
    /// read-modify-write. No other register changes.
    ///
    /// Only pads whose multiplexer register is laid out so far (pads 3 and
    /// 4) can be reconfigured.
    pub fn into_pull_up_output(self, pads: &mut pads::RegisterBlock, gpio: &mut RegisterBlock) -> (r:
        Gpio<N, Output<PullUp>>) where PadNum<N>: HasGpioMode
        requires
            N == 3 || N == 4,
        ensures
            final(pads).spec_fmux(N as int) == PadNum::<N>::spec_gpio_mode(),
            forall|k: int|
                (k == 3 || k == 4) && k != N ==> final(pads).spec_fmux(k) == old(pads).spec_fmux(k),
            final(pads).io_g10_sd0_clk == old(pads).io_g10_sd0_clk,
            final(pads).io_g10_sd0_cmd == old(pads).io_g10_sd0_cmd,
            final(gpio).direction.0 == spec_set_output(old(gpio).direction.0, N),
            final(gpio).spec_same_but_direction(*old(gpio)),
    {
        pads.write_fmux::<N>(PadNum::<N>::gpio_mode());
        gpio.direction = gpio.direction.set_output(N);
        Gpio { _function: PhantomData }
    }
}

impl<const N: usize, M> Gpio<N, Output<M>> {
    /// Drive the pin low: clear exactly bit `N` of the port's data register
    /// by read-modify-write, leaving all other bits and registers unchanged.
    ///
    /// The underlying bus write is assumed always to succeed; the error
    /// channel exists for interface compatibility and never carries a value.
    pub fn set_low(&mut self, gpio: &mut RegisterBlock) -> (r: Result<(), core::convert::Infallible>)
        requires
            N < 32,
        ensures
            r is Ok,
            final(gpio).data == spec_clear_bit(old(gpio).data, N),
            final(gpio).spec_same_but_data(*old(gpio)),
    {
        gpio.data = gpio.data & !(1u32 << N);
        Ok(())
    }

    /// Drive the pin high: set exactly bit `N` of the port's data register
    /// by read-modify-write, leaving all other bits and registers unchanged.
    ///
    /// The underlying bus write is assumed always to succeed; the error
    /// channel exists for interface compatibility and never carries a value.
    pub fn set_high(&mut self, gpio: &mut RegisterBlock) -> (r: Result<
        (),
        core::convert::Infallible,
    >)
        requires
            N < 32,
        ensures
            r is Ok,
            final(gpio).data == spec_set_bit(old(gpio).data, N),
            final(gpio).spec_same_but_data(*old(gpio)),
    {
        gpio.data = gpio.data | (1u32 << N);
        Ok(())
    }
}

/// The pads of the SD0 group, one move-only handle each, all in their
/// hardware default role (alternate function 0).
pub struct Pads {
    /// SD0 clock, physical pad 3.
    pub sd0_clk: Pad<3, Function<0>>,
    /// SD0 command, physical pad 4.
    pub sd0_cmd: Pad<4, Function<0>>,
}

impl Pads {
    /// Produce the handle of every pad of the SD0 group.
    ///
    /// Exactly one live handle may exist per physical pad; call this once
    /// per package at system initialization.
    pub fn new() -> (r: Pads) {
        Pads { sd0_clk: Pad { _function: PhantomData }, sd0_cmd: Pad { _function: PhantomData } }
    }
}

/// The pads of the power domain, one move-only handle each, all in their
/// hardware default role (alternate function 0).
pub struct PowerPads {
    /// Power GPIO 2, physical pad 49.
    pub pwr_gpio2: Pad<49, Function<0>>,
}

impl PowerPads {
    /// Produce the handle of every pad of the power domain.
    ///
    /// Exactly one live handle may exist per physical pad; call this once
    /// per package at system initialization.
    pub fn new() -> (r: PowerPads) {
        PowerPads { pwr_gpio2: Pad { _function: PhantomData } }
    }
}

} // verus!
