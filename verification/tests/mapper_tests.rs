use rust_decimal::prelude::ToPrimitive;
use vrc_counter::mapper::int_to_decimal;

#[test]
fn maps_zero_to_minus_one() {
    assert_eq!(int_to_decimal(0).centis, -100);
    let f = rust_decimal::Decimal::new(-100, 2).to_f32().unwrap();
    assert_eq!(f, -1.0);
}

#[test]
fn maps_full_cycle_to_plus_one() {
    assert_eq!(int_to_decimal(200).centis, 100);
    let f = rust_decimal::Decimal::new(100, 2).to_f32().unwrap();
    assert_eq!(f, 1.0);
}

#[test]
fn maps_every_count_in_range_exactly() {
    for n in 0..=200usize {
        let d = int_to_decimal(n);
        assert_eq!(d.centis, n as i64 - 100);
        let got = rust_decimal::Decimal::new(d.centis, 2).to_f32().unwrap();
        let expected = -1.0f32 + n as f32 * 0.01f32;
        let ulp = f32::EPSILON * expected.abs().max(1.0);
        assert!(
            (got - expected).abs() <= ulp,
            "count {}: got {}, expected {}",
            n,
            got,
            expected
        );
    }
}

#[test]
fn counts_above_the_cycle_map_above_plus_one() {
    let d = int_to_decimal(250);
    assert_eq!(d.centis, 150);
    let f = rust_decimal::Decimal::new(d.centis, 2).to_f32().unwrap();
    assert!(f > 1.0);
}
