//! Tests of the fixed-point scalar layer: IEEE-754 conversion, decimal text,
//! trigonometry and colors.
use spinal::num::{f32_to_fixed, sin_deg, cos_deg, muldiv, sat_add, sat_sub, Scalar, SCALE};
use spinal::text::parse_decimal;
use spinal::{Angle, Color};

#[test]
fn f32_conversion_exact_values() {
    assert_eq!(f32_to_fixed(1.0f32.to_bits()), 65536);
    assert_eq!(f32_to_fixed(0.0f32.to_bits()), 0);
    assert_eq!(f32_to_fixed((-1.0f32).to_bits()), -65536);
    assert_eq!(f32_to_fixed(0.5f32.to_bits()), 32768);
    assert_eq!(f32_to_fixed((-0.25f32).to_bits()), -16384);
    assert_eq!(f32_to_fixed(50.0f32.to_bits()), 50 * 65536);
    assert_eq!(f32_to_fixed(30.0f32.to_bits()), 30 * 65536);
    // infinities saturate, NaN carries no value
    assert_eq!(f32_to_fixed(f32::INFINITY.to_bits()), 0);
    assert_eq!(f32_to_fixed(f32::NAN.to_bits()), 0);
    // large magnitudes saturate
    assert_eq!(f32_to_fixed(1.0e30f32.to_bits()), i64::MAX);
    assert_eq!(f32_to_fixed((-1.0e30f32).to_bits()), i64::MIN);
}

#[test]
fn decimal_text() {
    assert_eq!(parse_decimal(b"0").unwrap().bits, 0);
    assert_eq!(parse_decimal(b"1").unwrap().bits, 65536);
    assert_eq!(parse_decimal(b"-1").unwrap().bits, -65536);
    assert_eq!(parse_decimal(b"0.5").unwrap().bits, 32768);
    assert_eq!(parse_decimal(b"90").unwrap().bits, 90 * 65536);
    assert_eq!(parse_decimal(b"188.63").unwrap().bits, 188 * 65536 + 63 * 65536 / 100);
    assert_eq!(parse_decimal(b"-7.94").unwrap().bits, -(7 * 65536 + 94 * 65536 / 100));
    assert_eq!(parse_decimal(b"2e2").unwrap().bits, 200 * 65536);
    assert_eq!(parse_decimal(b"25e-1").unwrap().bits, 25 * 65536 / 10);
    assert!(parse_decimal(b"").is_none());
    assert!(parse_decimal(b"abc").is_none());
    assert!(parse_decimal(b"1.").is_none());
    assert!(parse_decimal(b"1.5x").is_none());
}

#[test]
fn trigonometry_quadrants() {
    assert_eq!(sin_deg(0), 0);
    assert_eq!(sin_deg(90 * SCALE), SCALE);
    assert_eq!(sin_deg(180 * SCALE), 0);
    assert_eq!(sin_deg(270 * SCALE), -SCALE);
    assert_eq!(sin_deg(30 * SCALE), SCALE / 2);
    assert_eq!(cos_deg(0), SCALE);
    assert_eq!(cos_deg(90 * SCALE), 0);
    assert_eq!(cos_deg(180 * SCALE), -SCALE);
    // periodicity
    assert_eq!(sin_deg(360 * SCALE + 90 * SCALE), SCALE);
    assert_eq!(sin_deg(-90 * SCALE), -SCALE);
}

#[test]
fn saturating_arithmetic() {
    assert_eq!(sat_add(i64::MAX, 1), i64::MAX);
    assert_eq!(sat_sub(i64::MIN, 1), i64::MIN);
    assert_eq!(sat_add(2, 3), 5);
    assert_eq!(muldiv(6 * SCALE, 7 * SCALE, SCALE), 42 * SCALE);
    assert_eq!(muldiv(1, 1, 0), 0);
    assert_eq!(Scalar::from_int(3).mul(Scalar::from_int(-4)), Scalar::from_int(-12));
    assert_eq!(Scalar::from_int(7).div(Scalar::from_int(2)).bits, 7 * SCALE / 2);
}

#[test]
fn colors() {
    assert_eq!(Color::try_from_hex("989898FF"), Some(Color(0x989898FF)));
    assert_eq!(Color::try_from_hex("#60F000FF"), Some(Color(0x60F000FF)));
    assert_eq!(Color::try_from_hex("ffffffff"), Some(Color(0xFFFFFFFF)));
    assert_eq!(Color::try_from_hex("xyz"), None);
    assert_eq!(Color::try_from_hex("12345"), None);
    assert_eq!(Color::white(), Color(0xFFFFFFFF));
    assert_eq!(Color::bone_default(), Color(0x989898FF));
    assert_eq!(Color::bounding_box_default(), Color(0x60F000FF));
    let (r, g, b, a) = Color(0xFF000080).vec4();
    assert_eq!(r.bits, 65536);
    assert_eq!(g.bits, 0);
    assert_eq!(b.bits, 0);
    assert_eq!(a.bits, 128 * 65536 / 255);
}

#[test]
fn angle_units() {
    let d = Angle::Degrees(Scalar::from_int(180));
    // 180 degrees is pi radians in fixed point
    assert_eq!(d.to_radians().bits, 205887);
    let r = Angle::Radians(Scalar { bits: 205887 });
    assert_eq!(r.to_degrees().bits, 180 * SCALE);
    let mut a = Angle::Degrees(Scalar::from_int(10));
    a.add_assign(Angle::Degrees(Scalar::from_int(20)));
    assert_eq!(a, Angle::Degrees(Scalar::from_int(30)));
}
