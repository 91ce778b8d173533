use i2c_master::afio::Mapr;
use i2c_master::gpio::PB;
use i2c_master::i2c::{i2c1, i2c2, DutyCycle, I2c, Instance, Mode};
use i2c_master::instance::{APB1_I2C1, APB1_I2C2, I2C1, I2C2};
use i2c_master::rcc::{Clocks, Rcc};
use i2c_master::registers::{Register, RegisterFile};
use i2c_master::time::{kHz, Hz, MHz};

fn first_pins(mapr: &mut Mapr) -> i2c1::Pins {
    i2c1::Pins::from((PB::<6>::power_on(), PB::<7>::power_on(), mapr))
}

fn second_pins() -> i2c2::Pins {
    i2c2::Pins::from((PB::<10>::power_on(), PB::<11>::power_on()))
}

fn standard_100_khz_at_36_mhz() -> I2c<I2C1> {
    let mut rcc = Rcc::power_on();
    let mut mapr = Mapr::power_on();
    I2c::new(
        I2C1::power_on(),
        first_pins(&mut mapr),
        Mode::from(kHz(100)),
        Clocks::new(MHz(36)),
        &mut rcc,
    )
}

#[test]
fn construction_arms_the_peripheral_in_standard_mode() {
    let driver = standard_100_khz_at_36_mhz();
    assert_eq!(
        driver.regs().snapshot(),
        RegisterFile {
            cr1: 0x0001,
            cr2: 0x0024,
            dr: 0,
            ccr: 0x00b4,
            trise: 0x0025,
        }
    );
}

#[test]
fn construction_arms_the_peripheral_in_fast_mode() {
    let mut rcc = Rcc::power_on();
    let driver = I2c::new(
        I2C2::power_on(),
        second_pins(),
        Mode::from(kHz(400)),
        Clocks::new(MHz(36)),
        &mut rcc,
    );
    assert_eq!(
        driver.regs().snapshot(),
        RegisterFile {
            cr1: 0x0001,
            cr2: 0x0024,
            dr: 0,
            ccr: 0x801e,
            trise: 0x000b,
        }
    );
}

#[test]
fn construction_with_the_16_to_9_duty_cycle() {
    let mut rcc = Rcc::power_on();
    let driver = I2c::new(
        I2C2::power_on(),
        second_pins(),
        Mode::fast(kHz(400), DutyCycle::Ratio16to9),
        Clocks::new(MHz(8)),
        &mut rcc,
    );
    assert_eq!(
        driver.regs().snapshot(),
        RegisterFile {
            cr1: 0x0001,
            cr2: 0x0008,
            dr: 0,
            ccr: 0xc001,
            trise: 0x0003,
        }
    );
}

#[test]
fn construction_at_the_slowest_supported_rate() {
    let mut rcc = Rcc::power_on();
    let driver = I2c::new(
        I2C2::power_on(),
        second_pins(),
        Mode::from(Hz(1)),
        Clocks::new(MHz(36)),
        &mut rcc,
    );
    // 18_000_000 = 4394 * 4096 + 2176
    assert_eq!(driver.regs().read(Register::Ccr), 2176);
    assert_eq!(driver.regs().read(Register::Cr1), 1);
}

#[test]
fn construction_opens_the_clock_gate_and_lets_the_reset_line_go() {
    let mut rcc = Rcc::power_on();
    rcc.enable(0x0000_0001);
    rcc.assert_reset(0x0060_0000);
    let mut mapr = Mapr::power_on();
    let first = I2c::new(
        I2C1::power_on(),
        first_pins(&mut mapr),
        Mode::from(kHz(100)),
        Clocks::new(MHz(36)),
        &mut rcc,
    );
    assert_eq!(rcc.apb1enr(), 0x0020_0001);
    assert_eq!(rcc.apb1rstr(), 0x0040_0000);
    let second = I2c::new(
        I2C2::power_on(),
        second_pins(),
        Mode::from(kHz(100)),
        Clocks::new(MHz(36)),
        &mut rcc,
    );
    assert_eq!(rcc.apb1enr(), 0x0060_0001);
    assert_eq!(rcc.apb1rstr(), 0);
    assert_eq!(first.regs().snapshot(), second.regs().snapshot());
    assert_eq!(APB1_I2C1, 0x0020_0000);
    assert_eq!(APB1_I2C2, 0x0040_0000);
}

#[test]
fn construction_ends_with_the_peripheral_enabled_and_timed() {
    let driver = standard_100_khz_at_36_mhz();
    let file = driver.regs().snapshot();
    assert_eq!(file.cr1 & 0x0001, 0x0001);
    assert_eq!(file.cr1 & 0x8000, 0);
    assert_eq!(file.cr2, 36);
    assert_eq!(file.trise, 37);
    assert_eq!(file.ccr, 180);
}

#[test]
fn construction_starts_from_power_on_whatever_the_peripheral_held() {
    let driver = {
        let mut driver = standard_100_khz_at_36_mhz();
        driver.send_start();
        driver.send_addr(0x50, true);
        driver
    };
    let (i2c, pins) = driver.release();
    assert_eq!(i2c.regs().read(Register::Dr), 0xa1);
    let mut rcc = Rcc::power_on();
    let driver = I2c::new(i2c, pins, Mode::from(kHz(400)), Clocks::new(MHz(36)), &mut rcc);
    assert_eq!(
        driver.regs().snapshot(),
        RegisterFile {
            cr1: 0x0001,
            cr2: 0x0024,
            dr: 0,
            ccr: 0x801e,
            trise: 0x000b,
        }
    );
}

#[test]
fn send_start_sets_the_start_bit() {
    let mut driver = standard_100_khz_at_36_mhz();
    let before = driver.regs().snapshot();
    driver.send_start();
    assert_eq!(
        driver.regs().snapshot(),
        RegisterFile {
            cr1: 0x0101,
            ..before
        }
    );
}

#[test]
fn send_stop_sets_the_stop_bit() {
    let mut driver = standard_100_khz_at_36_mhz();
    let before = driver.regs().snapshot();
    driver.send_stop();
    assert_eq!(
        driver.regs().snapshot(),
        RegisterFile {
            cr1: 0x0201,
            ..before
        }
    );
    driver.send_start();
    assert_eq!(driver.regs().read(Register::Cr1), 0x0301);
}

#[test]
fn address_frame_for_a_read_of_0x50_is_0xa1() {
    let mut driver = standard_100_khz_at_36_mhz();
    let before = driver.regs().snapshot();
    driver.send_addr(0x50, true);
    assert_eq!(driver.regs().read(Register::Dr), 0xa1);
    assert_eq!(
        driver.regs().snapshot(),
        RegisterFile {
            dr: 0xa1,
            ..before
        }
    );
}

#[test]
fn address_frame_for_a_write_to_0x50_is_0xa0() {
    let mut driver = standard_100_khz_at_36_mhz();
    driver.send_addr(0x50, false);
    assert_eq!(driver.regs().read(Register::Dr), 0xa0);
}

#[test]
fn address_frames_at_the_ends_of_the_range() {
    let mut driver = standard_100_khz_at_36_mhz();
    driver.send_addr(0x00, false);
    assert_eq!(driver.regs().read(Register::Dr), 0x00);
    driver.send_addr(0x00, true);
    assert_eq!(driver.regs().read(Register::Dr), 0x01);
    driver.send_addr(0x7f, false);
    assert_eq!(driver.regs().read(Register::Dr), 0xfe);
    driver.send_addr(0x7f, true);
    assert_eq!(driver.regs().read(Register::Dr), 0xff);
}

#[test]
fn address_frame_drops_the_eighth_address_bit() {
    let mut driver = standard_100_khz_at_36_mhz();
    driver.send_addr(0x81, true);
    assert_eq!(driver.regs().read(Register::Dr), 0x03);
    driver.send_addr(0xff, false);
    assert_eq!(driver.regs().read(Register::Dr), 0xfe);
}

#[test]
fn reset_gives_the_registers_of_a_fresh_construction() {
    let fresh = standard_100_khz_at_36_mhz().regs().snapshot();
    let mut driver = standard_100_khz_at_36_mhz();
    driver.send_start();
    driver.send_addr(0x50, true);
    driver.send_stop();
    assert_ne!(driver.regs().snapshot(), fresh);
    driver.reset();
    assert_eq!(driver.regs().snapshot(), fresh);
}

#[test]
fn reset_twice_is_reset_once() {
    let mut driver = standard_100_khz_at_36_mhz();
    driver.send_addr(0x21, false);
    driver.reset();
    let once = driver.regs().snapshot();
    driver.reset();
    assert_eq!(driver.regs().snapshot(), once);
}

#[test]
fn reset_keeps_the_mode_of_the_driver() {
    let mut rcc = Rcc::power_on();
    let mut driver = I2c::new(
        I2C2::power_on(),
        second_pins(),
        Mode::fast(kHz(400), DutyCycle::Ratio16to9),
        Clocks::new(MHz(36)),
        &mut rcc,
    );
    let fresh = driver.regs().snapshot();
    assert_eq!(fresh.ccr, 0xc003);
    driver.send_start();
    driver.reset();
    assert_eq!(driver.regs().snapshot(), fresh);
}

#[test]
fn the_bus_works_again_after_a_reset() {
    let mut driver = standard_100_khz_at_36_mhz();
    driver.reset();
    driver.send_start();
    driver.send_addr(0x50, false);
    assert_eq!(driver.regs().read(Register::Cr1), 0x0101);
    assert_eq!(driver.regs().read(Register::Dr), 0xa0);
    assert_eq!(driver.regs().read(Register::Ccr), 180);
}

#[test]
fn release_gives_back_the_first_pin_pair() {
    let mut rcc = Rcc::power_on();
    let mut mapr = Mapr::power_on();
    mapr.bits = 0x0000_0002;
    let driver = I2c::new(
        I2C1::power_on(),
        first_pins(&mut mapr),
        Mode::from(kHz(100)),
        Clocks::new(MHz(36)),
        &mut rcc,
    );
    assert_eq!(mapr.bits, 0);
    let before = driver.regs().snapshot();
    let (i2c, pins) = driver.release();
    assert!(matches!(pins, i2c1::Pins::No { .. }));
    assert_eq!(i2c.regs().snapshot(), before);
}

#[test]
fn release_gives_back_the_remapped_pin_pair() {
    let mut rcc = Rcc::power_on();
    let mut mapr = Mapr::power_on();
    let pins = i2c1::Pins::from((
        PB::<8>::power_on().into_alternate_open_drain(),
        PB::<9>::power_on().into_alternate_open_drain(),
        &mut mapr,
    ));
    assert_eq!(mapr.bits, 0x0000_0002);
    let mut driver = I2c::new(
        I2C1::power_on(),
        pins,
        Mode::from(kHz(100)),
        Clocks::new(MHz(36)),
        &mut rcc,
    );
    driver.send_start();
    driver.reset();
    let before = driver.regs().snapshot();
    let (i2c, pins) = driver.release();
    assert!(matches!(pins, i2c1::Pins::Remap { .. }));
    assert_eq!(i2c.regs().snapshot(), before);
    assert_eq!(mapr.bits, 0x0000_0002);
}

#[test]
fn pins_are_bound_in_either_mode() {
    let mut mapr = Mapr::power_on();
    let from_power_on = i2c1::Pins::from((PB::<8>::power_on(), PB::<9>::power_on(), &mut mapr));
    assert!(matches!(from_power_on, i2c1::Pins::Remap { .. }));
    assert_eq!(mapr.bits, 2);
    let converted = i2c1::Pins::from((
        PB::<6>::power_on().into_alternate_open_drain(),
        PB::<7>::power_on().into_alternate_open_drain(),
        &mut mapr,
    ));
    assert!(matches!(converted, i2c1::Pins::No { .. }));
    assert_eq!(mapr.bits, 0);
    let second = i2c2::Pins::from((
        PB::<10>::power_on().into_alternate_open_drain(),
        PB::<11>::power_on().into_alternate_open_drain(),
    ));
    assert!(matches!(second, i2c2::Pins::No { .. }));
}

#[test]
fn the_input_clock_comes_from_the_bus_clock() {
    assert_eq!(I2C1::clock(&Clocks::new(MHz(36))), MHz(36));
    assert_eq!(I2C2::clock(&Clocks::new(MHz(8))), MHz(8));
}
