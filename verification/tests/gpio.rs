use sophgo_hal::gpio::{Direction, GpioRegister, Pads, RegisterBlock, register_offset};
use sophgo_hal::pads;

fn fresh_port() -> RegisterBlock {
    RegisterBlock {
        data: 0,
        direction: Direction(0),
        interrupt_enable: 0,
        interrupt_mask: 0,
        interrupt_level: 0,
        interrupt_polarity: 0,
        interrupt_status: 0,
        raw_interrupt_status: 0,
        debounce: 0,
        interrupt_clear: 0,
        external_port: 0,
        sync_level: 0,
    }
}

fn fresh_pads() -> pads::RegisterBlock {
    pads::RegisterBlock {
        fmux_sd0_clk: 0,
        fmux_sd0_cmd: 0,
        io_g10_sd0_clk: pads::PadConfig(0),
        io_g10_sd0_cmd: pads::PadConfig(0),
    }
}

#[test]
fn struct_register_block_offset() {
    assert_eq!(register_offset(GpioRegister::Data), 0x00);
    assert_eq!(register_offset(GpioRegister::Direction), 0x04);
    assert_eq!(register_offset(GpioRegister::InterruptEnable), 0x30);
    assert_eq!(register_offset(GpioRegister::InterruptMask), 0x34);
    assert_eq!(register_offset(GpioRegister::InterruptLevel), 0x38);
    assert_eq!(register_offset(GpioRegister::InterruptPolarity), 0x3C);
    assert_eq!(register_offset(GpioRegister::InterruptStatus), 0x40);
    assert_eq!(register_offset(GpioRegister::RawInterruptStatus), 0x44);
    assert_eq!(register_offset(GpioRegister::Debounce), 0x48);
    assert_eq!(register_offset(GpioRegister::InterruptClear), 0x4C);
    assert_eq!(register_offset(GpioRegister::ExternalPort), 0x50);
    assert_eq!(register_offset(GpioRegister::SyncLevel), 0x60);
}

#[test]
fn direction_round_trip() {
    for n in 0..32usize {
        let d = Direction(0).set_output(n);
        assert!(d.is_output(n));
        assert!(!d.is_input(n));
        let d = Direction(0xFFFF_FFFF).set_input(n);
        assert!(d.is_input(n));
        assert!(!d.is_output(n));
    }
}

#[test]
fn direction_no_cross_bit_interference() {
    let d = Direction(0).set_output(5);
    let d = d.set_output(17);
    assert!(d.is_output(5));
    assert!(d.is_output(17));
    assert!(d.is_input(6));
    let d = d.set_input(17);
    assert!(d.is_output(5));
    assert!(d.is_input(17));
    assert_eq!(d, Direction(1 << 5));
}

#[test]
fn into_alternate_writes_selector() {
    let mut pad_regs = fresh_pads();
    pad_regs.fmux_sd0_cmd = 7;
    let pins = Pads::new();
    let _clk = pins.sd0_clk.into_alternate::<2>(&mut pad_regs);
    assert_eq!(pad_regs.fmux_sd0_clk, 2);
    assert_eq!(pad_regs.fmux_sd0_cmd, 7);
    assert_eq!(pad_regs.io_g10_sd0_clk, pads::PadConfig(0));
    assert_eq!(pad_regs.io_g10_sd0_cmd, pads::PadConfig(0));
}

#[test]
fn output_toggling_scenario() {
    // A fresh port with data register 0: taking pad 3 to a pull-up output
    // and driving it high sets exactly data bit 3; driving it low clears it.
    let mut pad_regs = fresh_pads();
    let mut port = fresh_port();
    let pins = Pads::new();
    let mut out = pins.sd0_clk.into_gpio().into_pull_up_output(&mut pad_regs, &mut port);
    // The capability table maps pad 3 to GPIO selector value 3.
    assert_eq!(pad_regs.fmux_sd0_clk, 3);
    assert!(port.direction.is_output(3));
    assert_eq!(port.data, 0);
    out.set_high(&mut port).unwrap();
    assert_eq!(port.data, 1 << 3);
    assert_eq!(port.interrupt_enable, 0);
    assert_eq!(port.external_port, 0);
    out.set_low(&mut port).unwrap();
    assert_eq!(port.data, 0);
}

#[test]
fn set_high_twice_is_idempotent() {
    let mut pad_regs = fresh_pads();
    let mut port = fresh_port();
    port.data = 0xA050_0001;
    let pins = Pads::new();
    let mut out = pins.sd0_clk.into_gpio().into_pull_up_output(&mut pad_regs, &mut port);
    out.set_high(&mut port).unwrap();
    let after_first = port.data;
    out.set_high(&mut port).unwrap();
    assert_eq!(port.data, after_first);
    assert_eq!(port.data, 0xA050_0001 | (1 << 3));
}
