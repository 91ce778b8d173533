use i2c_master::error::Error;
use i2c_master::mode::{DutyCycle, Mode, FAST_MODE_MAX, STANDARD_MODE_MAX};
use i2c_master::time::{kHz, Hertz, Hz, MHz};

#[test]
fn hertz_helpers_scale_by_thousands() {
    assert_eq!(Hz(7).raw(), 7);
    assert_eq!(kHz(100).raw(), 100_000);
    assert_eq!(MHz(36).raw(), 36_000_000);
    assert_eq!(Hertz::from_raw(400_000), kHz(400));
}

#[test]
fn to_mhz_drops_the_remainder() {
    assert_eq!(Hz(999_999).to_MHz(), 0);
    assert_eq!(Hz(1_000_000).to_MHz(), 1);
    assert_eq!(Hz(35_999_999).to_MHz(), 35);
    assert_eq!(Hz(u32::MAX).to_MHz(), 4294);
}

#[test]
fn exactly_100_khz_is_standard() {
    assert_eq!(
        Mode::from(kHz(100)),
        Mode::Standard { frequency: kHz(100) }
    );
    assert_eq!(STANDARD_MODE_MAX, 100_000);
}

#[test]
fn one_hertz_above_100_khz_is_fast_with_2_to_1() {
    assert_eq!(
        Mode::from(Hz(100_001)),
        Mode::Fast {
            frequency: Hz(100_001),
            duty_cycle: DutyCycle::Ratio2to1
        }
    );
}

#[test]
fn classification_covers_both_ends() {
    assert_eq!(Mode::from(Hz(0)), Mode::Standard { frequency: Hz(0) });
    assert_eq!(Mode::from(Hz(1)), Mode::Standard { frequency: Hz(1) });
    assert_eq!(
        Mode::from(Hz(u32::MAX)),
        Mode::Fast {
            frequency: Hz(u32::MAX),
            duty_cycle: DutyCycle::Ratio2to1
        }
    );
}

#[test]
fn into_mode_classifies_like_from() {
    let mode: Mode = kHz(400).into();
    assert_eq!(mode, Mode::fast(kHz(400), DutyCycle::Ratio2to1));
}

#[test]
fn constructors_keep_what_they_are_given() {
    assert_eq!(
        Mode::standard(kHz(50)),
        Mode::Standard { frequency: kHz(50) }
    );
    assert_eq!(
        Mode::fast(kHz(300), DutyCycle::Ratio16to9),
        Mode::Fast {
            frequency: kHz(300),
            duty_cycle: DutyCycle::Ratio16to9
        }
    );
    // An explicit mode is not reclassified.
    assert_eq!(
        Mode::standard(kHz(300)),
        Mode::Standard {
            frequency: kHz(300)
        }
    );
    assert_eq!(
        Mode::fast(kHz(10), DutyCycle::Ratio2to1),
        Mode::Fast {
            frequency: kHz(10),
            duty_cycle: DutyCycle::Ratio2to1
        }
    );
}

#[test]
fn get_frequency_ignores_the_speed_grade() {
    assert_eq!(Mode::standard(kHz(50)).get_frequency(), kHz(50));
    assert_eq!(
        Mode::fast(kHz(350), DutyCycle::Ratio16to9).get_frequency(),
        kHz(350)
    );
    assert_eq!(Mode::from(Hz(123_456)).get_frequency(), Hz(123_456));
}

#[test]
fn supported_rates_end_at_400_khz() {
    assert_eq!(FAST_MODE_MAX, 400_000);
    assert!(Mode::from(Hz(1)).is_supported());
    assert!(Mode::from(kHz(100)).is_supported());
    assert!(Mode::from(kHz(400)).is_supported());
    assert!(Mode::standard(kHz(400)).is_supported());
    assert!(!Mode::from(Hz(400_001)).is_supported());
    assert!(!Mode::fast(MHz(1), DutyCycle::Ratio16to9).is_supported());
    assert!(!Mode::standard(Hz(400_001)).is_supported());
}

#[test]
fn a_rate_of_zero_is_not_supported() {
    assert!(!Mode::from(Hz(0)).is_supported());
    assert!(!Mode::fast(Hz(0), DutyCycle::Ratio2to1).is_supported());
}

#[test]
fn transfer_failures_are_told_apart() {
    let all = [
        Error::Bus,
        Error::Arbitration,
        Error::Acknowledge,
        Error::Overrun,
        Error::Timeout,
    ];
    for (i, a) in all.iter().enumerate() {
        for (j, b) in all.iter().enumerate() {
            assert_eq!(a == b, i == j);
        }
    }
    assert_eq!(format!("{:?}", Error::Arbitration), "Arbitration");
}
