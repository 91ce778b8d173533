use i2c_master::afio::{Mapr, MAPR_I2C1_REMAP};
use i2c_master::rcc::{Clocks, Rcc};
use i2c_master::registers::{
    Register, RegisterBlock, RegisterFile, CR1_PE, CR1_START, CR1_STOP, CR1_SWRST,
    TRISE_POWER_ON,
};
use i2c_master::time::MHz;

fn power_on_words() -> RegisterFile {
    RegisterFile {
        cr1: 0,
        cr2: 0,
        dr: 0,
        ccr: 0,
        trise: 2,
    }
}

#[test]
fn registers_after_power_on() {
    let block = RegisterBlock::power_on();
    assert_eq!(block.snapshot(), power_on_words());
    assert_eq!(block.read(Register::Trise), TRISE_POWER_ON);
    assert_eq!(block.read(Register::Cr1), 0);
}

#[test]
fn a_write_changes_one_register() {
    let mut block = RegisterBlock::power_on();
    block.write(Register::Ccr, 0x801e);
    assert_eq!(
        block.snapshot(),
        RegisterFile {
            ccr: 0x801e,
            ..power_on_words()
        }
    );
    block.write(Register::Dr, 0xa1);
    block.write(Register::Cr2, 36);
    block.write(Register::Trise, 37);
    block.write(Register::Cr1, CR1_PE);
    assert_eq!(
        block.snapshot(),
        RegisterFile {
            cr1: 1,
            cr2: 36,
            dr: 0xa1,
            ccr: 0x801e,
            trise: 37
        }
    );
    assert_eq!(block.read(Register::Ccr), 0x801e);
    assert_eq!(block.read(Register::Dr), 0xa1);
    assert_eq!(block.read(Register::Cr2), 36);
    assert_eq!(block.read(Register::Trise), 37);
    assert_eq!(block.read(Register::Cr1), 1);
}

#[test]
fn set_bits_keeps_the_other_bits() {
    let mut block = RegisterBlock::power_on();
    block.write(Register::Cr1, CR1_PE);
    block.set_bits(Register::Cr1, CR1_START);
    assert_eq!(block.read(Register::Cr1), 0x0101);
    block.set_bits(Register::Cr1, CR1_STOP);
    assert_eq!(block.read(Register::Cr1), 0x0301);
    block.set_bits(Register::Cr1, CR1_STOP);
    assert_eq!(block.read(Register::Cr1), 0x0301);
}

#[test]
fn software_reset_bit_puts_the_other_registers_back() {
    let mut block = RegisterBlock::power_on();
    block.write(Register::Cr2, 36);
    block.write(Register::Trise, 37);
    block.write(Register::Ccr, 180);
    block.write(Register::Dr, 0xa0);
    block.write(Register::Cr1, CR1_PE | CR1_SWRST);
    assert_eq!(
        block.snapshot(),
        RegisterFile {
            cr1: 0x8001,
            ..power_on_words()
        }
    );
    block.write(Register::Cr1, 0);
    assert_eq!(block.snapshot(), power_on_words());
}

#[test]
fn clear_puts_every_register_back() {
    let mut block = RegisterBlock::power_on();
    block.write(Register::Cr1, CR1_PE | CR1_START);
    block.write(Register::Ccr, 180);
    block.clear();
    assert_eq!(block.snapshot(), power_on_words());
}

#[test]
fn clock_gates_open_one_by_one() {
    let mut rcc = Rcc::power_on();
    assert_eq!(rcc.apb1enr(), 0);
    assert_eq!(rcc.apb1rstr(), 0);
    rcc.enable(0x0020_0000);
    rcc.enable(0x0000_0001);
    assert_eq!(rcc.apb1enr(), 0x0020_0001);
    rcc.enable(0x0020_0000);
    assert_eq!(rcc.apb1enr(), 0x0020_0001);
    assert_eq!(rcc.apb1rstr(), 0);
}

#[test]
fn reset_lines_are_asserted_and_let_go() {
    let mut rcc = Rcc::power_on();
    rcc.enable(0x0000_0001);
    rcc.assert_reset(0x0060_0000);
    assert_eq!(rcc.apb1rstr(), 0x0060_0000);
    rcc.release_reset(0x0040_0000);
    assert_eq!(rcc.apb1rstr(), 0x0020_0000);
    rcc.release_reset(0x0040_0000);
    assert_eq!(rcc.apb1rstr(), 0x0020_0000);
    assert_eq!(rcc.apb1enr(), 0x0000_0001);
}

#[test]
fn a_pulse_leaves_the_reset_line_released() {
    let mut rcc = Rcc::power_on();
    rcc.pulse_reset(0x0020_0000);
    assert_eq!(rcc.apb1rstr(), 0);
    rcc.assert_reset(0x0060_0000);
    rcc.pulse_reset(0x0020_0000);
    assert_eq!(rcc.apb1rstr(), 0x0040_0000);
    assert_eq!(rcc.apb1enr(), 0);
}

#[test]
fn clocks_hand_out_the_bus_clock() {
    assert_eq!(Clocks::new(MHz(36)).pclk1(), MHz(36));
}

#[test]
fn remap_bit_is_set_and_cleared_alone() {
    let mut mapr = Mapr::power_on();
    assert_eq!(mapr.bits, 0);
    mapr.set_i2c1_remap(true);
    assert_eq!(mapr.bits, MAPR_I2C1_REMAP);
    assert_eq!(mapr.bits, 2);
    mapr.set_i2c1_remap(false);
    assert_eq!(mapr.bits, 0);
    mapr.bits = 0xffff_ffff;
    mapr.set_i2c1_remap(false);
    assert_eq!(mapr.bits, 0xffff_fffd);
    mapr.bits = 0x0000_0005;
    mapr.set_i2c1_remap(true);
    assert_eq!(mapr.bits, 0x0000_0007);
}
