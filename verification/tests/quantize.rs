//! The integer quantizer against real IEEE-754 float arithmetic.

use dae_mesh::quant::{make_key, quantize};

fn reference(x: f32) -> i32 {
    (x * 1000.0f32).round() as i32
}

fn check(x: f32) {
    assert_eq!(
        quantize(x.to_bits()),
        reference(x),
        "bits 0x{:08x} value {}",
        x.to_bits(),
        x
    );
}

#[test]
fn quantize_simple_values() {
    for &x in &[
        0.0f32, -0.0, 1.0, -1.0, 0.5, -0.5, 2.0, 10.0, 123.456, -123.456, 0.12345, 1.5e-3,
        0.9995, -0.9995, 3.25, 1e6, -1e6, 2147483.0, 2147484.0, -2147483.0, -2147484.0,
    ] {
        check(x);
    }
}

#[test]
fn quantize_welding_boundaries() {
    for &x in &[
        0.0004f32, -0.0004, 0.00049, -0.00049, 0.0005, -0.0005, 0.00051, 0.0006, 0.001, -0.001,
        0.0015, 0.002, 0.0049999, 0.005,
    ] {
        check(x);
    }
    // positions differing by < 0.0005 on an axis share the key of 0.0
    assert_eq!(quantize(0.00049f32.to_bits()), quantize(0.0f32.to_bits()));
    // positions differing by >= 0.001 never share it
    assert_ne!(quantize(0.001f32.to_bits()), quantize(0.0f32.to_bits()));
}

#[test]
fn quantize_extremes_and_specials() {
    for &x in &[
        f32::INFINITY,
        f32::NEG_INFINITY,
        f32::MAX,
        f32::MIN,
        f32::MIN_POSITIVE,
        -f32::MIN_POSITIVE,
        1e-40f32,
        -1e-40,
        1e-45,
        3.4e37,
        3.4e38,
        -3.4e38,
        2.2e6,
        -2.2e6,
        4.0e6,
        2.147483e6,
        2.1474837e6,
    ] {
        check(x);
    }
    assert_eq!(quantize(f32::NAN.to_bits()), 0);
    assert_eq!(quantize(f32::INFINITY.to_bits()), i32::MAX);
    assert_eq!(quantize(f32::NEG_INFINITY.to_bits()), i32::MIN);
}

#[test]
fn quantize_pseudorandom_sweep() {
    // a deterministic linear congruential sweep over bit patterns
    let mut state: u32 = 0x1234_5678;
    for _ in 0..20000 {
        state = state.wrapping_mul(1664525).wrapping_add(1013904223);
        let x = f32::from_bits(state);
        let expect = (x * 1000.0f32).round() as i32;
        assert_eq!(quantize(state), expect, "bits 0x{:08x} value {}", state, x);
    }
}

#[test]
fn make_key_componentwise() {
    let k = make_key(1.25f32.to_bits(), (-0.5f32).to_bits(), 0.0004f32.to_bits());
    assert_eq!(k.x, 1250);
    assert_eq!(k.y, -500);
    assert_eq!(k.z, 0);
}
