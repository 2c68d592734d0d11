use weather::text::int_to_text;
use weather::units::{kelvin_to_celsius, round_thousandths};

#[test]
fn rounding_goes_to_nearest_unit() {
    assert_eq!(round_thousandths(0), 0);
    assert_eq!(round_thousandths(499), 0);
    assert_eq!(round_thousandths(-499), 0);
    assert_eq!(round_thousandths(5400), 5);
    assert_eq!(round_thousandths(3700), 4);
    assert_eq!(round_thousandths(-3700), -4);
}

#[test]
fn rounding_ties_go_away_from_zero() {
    assert_eq!(round_thousandths(500), 1);
    assert_eq!(round_thousandths(-500), -1);
    assert_eq!(round_thousandths(2500), 3);
    assert_eq!(round_thousandths(-1500), -2);
}

#[test]
fn rounding_extremes_do_not_overflow() {
    assert_eq!(round_thousandths(i64::MAX), 9223372036854776);
    assert_eq!(round_thousandths(i64::MIN), -9223372036854776);
}

#[test]
fn kelvin_converts_to_celsius() {
    assert_eq!(kelvin_to_celsius(300150), 27);
    assert_eq!(kelvin_to_celsius(273150), 0);
    assert_eq!(kelvin_to_celsius(282000), 9);
    assert_eq!(kelvin_to_celsius(280500), 7);
    assert_eq!(kelvin_to_celsius(0), -273);
    assert_eq!(kelvin_to_celsius(272650), -1);
    assert_eq!(kelvin_to_celsius(i64::MIN), -9223372036855049);
}

#[test]
fn integers_print_in_decimal() {
    assert_eq!(int_to_text(0), "0");
    assert_eq!(int_to_text(9), "9");
    assert_eq!(int_to_text(76), "76");
    assert_eq!(int_to_text(-7), "-7");
    assert_eq!(int_to_text(1000), "1000");
    assert_eq!(int_to_text(i64::MAX), "9223372036854775807");
    assert_eq!(int_to_text(i64::MIN), "-9223372036854775808");
}
