use exchange_rate_bot::binary64::{absolute, less_than, not_a_number};

fn samples() -> Vec<f64> {
    vec![
        0.0,
        -0.0,
        1.0,
        -1.0,
        0.001,
        -0.001,
        0.0005,
        0.01,
        -0.01,
        0.92 - 0.91,
        f64::MIN_POSITIVE,
        -f64::MIN_POSITIVE,
        5e-324,
        -5e-324,
        f64::MAX,
        f64::MIN,
        f64::INFINITY,
        f64::NEG_INFINITY,
        f64::NAN,
        -f64::NAN,
        f64::from_bits(0x7FF0_0000_0000_0001),
        f64::from_bits(0xFFFF_FFFF_FFFF_FFFF),
        141.5,
        1e300,
        -1e300,
    ]
}

#[test]
fn orders_as_the_numbers_do() {
    for a in samples() {
        for b in samples() {
            assert_eq!(less_than(a.to_bits(), b.to_bits()), a < b, "{a} < {b}");
        }
    }
}

#[test]
fn takes_the_sign_off() {
    for a in samples() {
        assert_eq!(absolute(a.to_bits()), a.abs().to_bits());
    }
}

#[test]
fn tells_what_is_not_a_number() {
    for a in samples() {
        assert_eq!(not_a_number(a.to_bits()), a.is_nan());
    }
}
