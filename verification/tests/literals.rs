use serde_literals::{Expected, Found, LitBool, LitChar, LitFloat, LitInt, LitStr, Mismatch};

#[test]
fn str_round_trip() {
    let k = LitStr::new(String::from("auto"));
    let wire = k.encode();
    assert_eq!(wire, "auto");
    assert!(k.visit_str(&wire).is_ok());
}

#[test]
fn str_exactness() {
    let k = LitStr::new(String::from("auto"));
    assert!(k.visit_str("auto").is_ok());
    assert!(k.visit_str("Auto").is_err());
    assert!(k.visit_str("auto ").is_err());
    assert!(k.visit_str("aut").is_err());
    assert!(k.visit_str("").is_err());
}

#[test]
fn str_mismatch_names_both_values() {
    let k = LitStr::new(String::from("auto"));
    let m = k.visit_str("xyz").unwrap_err();
    assert_eq!(
        m,
        Mismatch {
            found: Found::Str(String::from("xyz")),
            expected: Expected::Str(String::from("auto")),
        }
    );
    assert_eq!(k.expecting(), "the lit auto");
}

#[test]
fn float_round_trip() {
    let k = LitFloat::new(3.1f64.to_bits());
    let wire = k.encode();
    assert_eq!(wire, 3.1f64.to_bits());
    assert!(k.visit_f64(wire).is_ok());
}

#[test]
fn float_exactness() {
    let k = LitFloat::new(3.1f64.to_bits());
    assert!(k.visit_f64(3.1f64.to_bits()).is_ok());
    let m = k.visit_f64(2.3f64.to_bits()).unwrap_err();
    assert_eq!(
        m,
        Mismatch {
            found: Found::FloatBits(2.3f64.to_bits()),
            expected: Expected::FloatBits(3.1f64.to_bits()),
        }
    );
}

#[test]
fn float_zeros_compare_equal() {
    let k = LitFloat::new(0.0f64.to_bits());
    assert!(k.visit_f64((-0.0f64).to_bits()).is_ok());
    let k = LitFloat::new((-0.0f64).to_bits());
    assert!(k.visit_f64(0.0f64.to_bits()).is_ok());
}

#[test]
fn float_nan_never_matches() {
    let k = LitFloat::new(f64::NAN.to_bits());
    assert!(k.visit_f64(f64::NAN.to_bits()).is_err());
    assert!(k.visit_f64(3.1f64.to_bits()).is_err());
    let k = LitFloat::new(3.1f64.to_bits());
    assert!(k.visit_f64(f64::NAN.to_bits()).is_err());
}

#[test]
fn int_round_trip() {
    let k = LitInt::new(123);
    let wire = k.encode();
    assert_eq!(wire, 123);
    assert!(k.visit_i64(wire).is_ok());
}

#[test]
fn int_cross_kind_acceptance() {
    let k = LitInt::new(123);
    assert!(k.visit_i64(123).is_ok());
    assert!(k.visit_u64(123).is_ok());
    assert!(k.visit_i64(124).is_err());
    assert!(k.visit_u64(124).is_err());
}

#[test]
fn int_unsigned_wraps_before_comparing() {
    let k = LitInt::new(-123);
    assert!(k.visit_i64(-123).is_ok());
    assert!(k.visit_u64((-123i64) as u64).is_ok());
    assert!(k.visit_u64(123).is_err());
    let k = LitInt::new(i64::MIN);
    assert!(k.visit_u64(1u64 << 63).is_ok());
}

#[test]
fn int_mismatch_keeps_signedness_tag() {
    let k = LitInt::new(123);
    assert_eq!(
        k.visit_i64(7).unwrap_err(),
        Mismatch { found: Found::Signed(7), expected: Expected::Int(123) }
    );
    assert_eq!(
        k.visit_u64(7).unwrap_err(),
        Mismatch { found: Found::Unsigned(7), expected: Expected::Int(123) }
    );
}

#[test]
fn bool_round_trip_and_exactness() {
    let t = LitBool::new(true);
    let f = LitBool::new(false);
    assert!(t.visit_bool(t.encode()).is_ok());
    assert!(f.visit_bool(f.encode()).is_ok());
    assert_eq!(
        t.visit_bool(false).unwrap_err(),
        Mismatch { found: Found::Bool(false), expected: Expected::Bool(true) }
    );
    assert_eq!(
        f.visit_bool(true).unwrap_err(),
        Mismatch { found: Found::Bool(true), expected: Expected::Bool(false) }
    );
}

#[test]
fn char_round_trip() {
    let k = LitChar::new('z');
    assert_eq!(k.encode(), 'z');
    assert_eq!(k.encode_str(), "z");
    assert!(k.visit_str(&k.encode_str()).is_ok());
}

#[test]
fn char_prefix_policy() {
    let k = LitChar::new('z');
    assert!(k.visit_str("z").is_ok());
    assert!(k.visit_str("zz").is_ok());
    assert!(k.visit_str("zebra").is_ok());
    assert!(k.visit_str("az").is_err());
    assert!(k.visit_str("").is_err());
    assert_eq!(
        k.visit_str("az").unwrap_err(),
        Mismatch { found: Found::Str(String::from("az")), expected: Expected::Char('z') }
    );
}

#[test]
fn expecting_descriptions() {
    assert_eq!(LitStr::new(String::from("blah")).expecting(), "the lit blah");
    assert_eq!(LitInt::new(123).expecting(), "the lit 123");
    assert_eq!(LitInt::new(-45).expecting(), "the lit -45");
    assert_eq!(LitInt::new(0).expecting(), "the lit 0");
    assert_eq!(LitBool::new(true).expecting(), "the lit true");
    assert_eq!(LitBool::new(false).expecting(), "the lit false");
    assert_eq!(LitChar::new('z').expecting(), "the lit z");
}

#[test]
fn decimal_rendering() {
    assert_eq!(serde_literals::u64_to_dec(0), "0");
    assert_eq!(serde_literals::u64_to_dec(10), "10");
    assert_eq!(serde_literals::u64_to_dec(u64::MAX), "18446744073709551615");
    assert_eq!(serde_literals::i64_to_dec(i64::MIN), "-9223372036854775808");
    assert_eq!(serde_literals::i64_to_dec(i64::MAX), "9223372036854775807");
    assert_eq!(serde_literals::i64_to_dec(-1), "-1");
}

#[test]
fn float_bit_equality() {
    assert!(serde_literals::f64_eq_bits(3.1f64.to_bits(), 3.1f64.to_bits()));
    assert!(!serde_literals::f64_eq_bits(3.1f64.to_bits(), 2.3f64.to_bits()));
    assert!(serde_literals::f64_eq_bits(0.0f64.to_bits(), (-0.0f64).to_bits()));
    assert!(!serde_literals::f64_eq_bits(f64::NAN.to_bits(), f64::NAN.to_bits()));
    assert!(serde_literals::f64_eq_bits(
        f64::INFINITY.to_bits(),
        f64::INFINITY.to_bits()
    ));
    assert!(!serde_literals::f64_eq_bits(
        f64::INFINITY.to_bits(),
        f64::NEG_INFINITY.to_bits()
    ));
}
