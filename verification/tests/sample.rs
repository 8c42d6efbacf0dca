use recbox::sample::{narrow, AMPLITUDE};

fn scale(sample: f32) -> i64 {
    (sample * AMPLITUDE as f32).trunc() as i64
}

#[test]
fn amplitude_is_the_largest_magnitude() {
    assert_eq!(AMPLITUDE, i16::MAX);
    assert_eq!(AMPLITUDE, 32767);
}

#[test]
fn narrow_keeps_what_fits() {
    assert_eq!(narrow(0), 0);
    assert_eq!(narrow(1), 1);
    assert_eq!(narrow(-1), -1);
    assert_eq!(narrow(32767), 32767);
    assert_eq!(narrow(-32767), -32767);
    assert_eq!(narrow(-32768), -32768);
}

#[test]
fn narrow_keeps_every_16_bit_value() {
    let mut x: i64 = -32768;
    while x <= 32767 {
        assert_eq!(narrow(x) as i64, x);
        x += 1;
    }
}

#[test]
fn narrow_wraps_what_does_not_fit() {
    assert_eq!(narrow(32768), -32768);
    assert_eq!(narrow(-32769), 32767);
    assert_eq!(narrow(40000), -25536);
    assert_eq!(narrow(49150), -16386);
    assert_eq!(narrow(65536), 0);
    assert_eq!(narrow(65541), 5);
    assert_eq!(narrow(-65536), 0);
    assert_eq!(narrow(i64::MAX), -1);
    assert_eq!(narrow(i64::MIN), 0);
}

#[test]
fn narrow_agrees_with_the_truncating_cast() {
    let mut x: i64 = -200_000;
    while x <= 200_000 {
        assert_eq!(narrow(x), x as i16);
        x += 37;
    }
}

#[test]
fn full_scale_maps_to_the_amplitude() {
    assert_eq!(narrow(scale(1.0)), 32767);
    assert_eq!(narrow(scale(-1.0)), -32767);
}

#[test]
fn silence_maps_to_zero() {
    assert_eq!(narrow(scale(0.0)), 0);
    assert_eq!(narrow(scale(-0.0)), 0);
}

#[test]
fn scaling_cuts_off_toward_zero() {
    assert_eq!(narrow(scale(0.5)), 16383);
    assert_eq!(narrow(scale(-0.5)), -16383);
    assert_eq!(narrow(scale(0.00001)), 0);
    assert_eq!(narrow(scale(-0.00001)), 0);
}

#[test]
fn nominal_range_agrees_with_the_direct_cast() {
    let mut k: i32 = -1000;
    while k <= 1000 {
        let s = k as f32 / 1000.0;
        assert_eq!(narrow(scale(s)), (s * 32767.0) as i16);
        k += 1;
    }
}

#[test]
fn clipped_input_wraps() {
    assert_eq!(narrow(scale(1.5)), -16386);
    assert_eq!(narrow(scale(-1.5)), 16386);
    assert_eq!(narrow(scale(2.0)), -2);
}
