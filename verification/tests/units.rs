use sigma_dock::config::Config;
use sigma_dock::units::{conversion, distance_unit, speed_unit, Conversion};

#[test]
fn a_factor_has_two_positive_parts() {
    assert!(Conversion::new(0, 1).is_none());
    assert!(Conversion::new(1, 0).is_none());
    assert!(Conversion::new(0, 0).is_none());
    let half = Conversion::new(1, 2).unwrap();
    assert_eq!(half.numerator(), 1);
    assert_eq!(half.denominator(), 2);
}

#[test]
fn the_factor_one_changes_nothing() {
    let one = Conversion::identity();
    assert_eq!(one.convert(0), 0);
    assert_eq!(one.convert(10000), 10000);
    assert_eq!(one.convert(u32::MAX), u32::MAX as u64);
    let same = Conversion::new(7, 7).unwrap();
    assert_eq!(same.convert(12345), 12345);
}

#[test]
fn kilometres_to_miles_rounds_down() {
    let miles = Conversion::kilometres_per_mile();
    assert_eq!(miles.numerator(), 1_609_344);
    assert_eq!(miles.denominator(), 1_000_000);
    assert_eq!(miles.convert(10000), 6213);
    assert_eq!(miles.convert(1609), 999);
    assert_eq!(miles.convert(1610), 1000);
    assert_eq!(miles.convert(0), 0);
    assert_eq!(miles.convert(1), 0);
    assert_eq!(miles.convert(2), 1);
}

#[test]
fn a_conversion_without_remainder_is_exact() {
    let miles = Conversion::kilometres_per_mile();
    assert_eq!(miles.convert(25146), 15625);
    assert_eq!(miles.convert(1_609_344), 1_000_000);
}

#[test]
fn conversion_is_the_floor_of_the_quotient() {
    let miles = Conversion::kilometres_per_mile();
    for value in [0u32, 1, 999, 10000, 65535, 0xff_ffff] {
        let converted = miles.convert(value) as f64;
        let exact = value as f64 / 1.609344;
        assert!(converted <= exact + 1e-6);
        assert!(exact < converted + 1.0 + 1e-6);
    }
}

#[test]
fn a_factor_below_one_enlarges() {
    let half = Conversion::new(1, 2).unwrap();
    assert_eq!(half.convert(21), 42);
    let tiny = Conversion::new(1, u32::MAX).unwrap();
    assert_eq!(tiny.convert(u32::MAX), (u32::MAX as u64) * (u32::MAX as u64));
}

#[test]
fn units_follow_the_miles_option() {
    let metric = Config::default();
    assert_eq!(distance_unit(&metric), "km");
    assert_eq!(speed_unit(&metric), "km/hr");
    assert_eq!(conversion(&metric), Conversion::identity());
    let imperial = Config { miles: true, ..metric };
    assert_eq!(distance_unit(&imperial), "mi");
    assert_eq!(speed_unit(&imperial), "mph");
    assert_eq!(conversion(&imperial), Conversion::kilometres_per_mile());
}
