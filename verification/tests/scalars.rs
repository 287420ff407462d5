use dengine::scalar::{
    is_positive, is_zero, positive_less, INFINITY, MINUS_ONE, NEGATIVE_ZERO, ONE, PI, ZERO,
};
use dengine::scene::{DEFAULT_LIGHT_X, DEFAULT_LIGHT_Y, DEFAULT_LIGHT_Z};
use dengine::vector::{Mat4, Vec3};

fn bits(x: f32) -> u32 {
    x.to_bits()
}

fn vec3(x: f32, y: f32, z: f32) -> Vec3 {
    Vec3::new(bits(x), bits(y), bits(z))
}

#[test]
fn scalar_constants_are_the_bit_patterns_of_the_numbers() {
    assert_eq!(ZERO, bits(0.0));
    assert_eq!(NEGATIVE_ZERO, bits(-0.0));
    assert_eq!(ONE, bits(1.0));
    assert_eq!(MINUS_ONE, bits(-1.0));
    assert_eq!(INFINITY, bits(f32::INFINITY));
    assert_eq!(PI, bits(std::f32::consts::PI));
}

#[test]
fn default_light_points_up_and_back() {
    assert_eq!(DEFAULT_LIGHT_X, bits(-1.0));
    assert_eq!(DEFAULT_LIGHT_Y, bits(0.4));
    assert_eq!(DEFAULT_LIGHT_Z, bits(0.9));
}

#[test]
fn is_zero_knows_both_zeros_and_nothing_else() {
    assert!(is_zero(bits(0.0)));
    assert!(is_zero(bits(-0.0)));
    assert!(!is_zero(bits(f32::MIN_POSITIVE)));
    assert!(!is_zero(bits(1.0)));
    assert!(!is_zero(bits(-1.0)));
    assert!(!is_zero(bits(f32::NAN)));
}

#[test]
fn is_positive_agrees_with_the_float_comparison() {
    let samples = [
        0.0f32,
        -0.0,
        1.0e-45,
        f32::MIN_POSITIVE,
        0.1,
        1.0,
        3.0,
        1024.0,
        f32::MAX,
        f32::INFINITY,
        -1.0e-45,
        -0.1,
        -1.0,
        f32::MIN,
        f32::NEG_INFINITY,
        f32::NAN,
        -f32::NAN,
    ];
    for x in samples {
        assert_eq!(is_positive(bits(x)), x > 0.0, "{x}");
    }
}

#[test]
fn positive_less_agrees_with_the_float_comparison() {
    let samples = [
        0.0f32,
        -0.0,
        1.0e-45,
        f32::MIN_POSITIVE,
        0.1,
        0.5,
        1.0,
        1.0000001,
        3.1415925,
        std::f32::consts::PI,
        3.1415930,
        1024.0,
        f32::MAX,
        f32::INFINITY,
        -1.0e-45,
        -0.1,
        -1.0,
        -1024.0,
        f32::NEG_INFINITY,
        f32::NAN,
        -f32::NAN,
    ];
    for a in samples {
        for b in samples {
            assert_eq!(positive_less(bits(a), bits(b)), 0.0 < a && a < b, "{a} < {b}");
        }
    }
}

#[test]
fn vec3_keeps_its_components() {
    let v = vec3(1.5, -2.0, 0.25);
    assert_eq!(v.x, bits(1.5));
    assert_eq!(v.get_tuple(), (bits(1.5), bits(-2.0), bits(0.25)));
    assert_eq!(v.get_matrix(), [bits(1.5), bits(-2.0), bits(0.25)]);
    assert_eq!(v.get(), [bits(1.5), bits(-2.0), bits(0.25)]);
    assert_eq!(Vec3::from([bits(1.5), bits(-2.0), bits(0.25)]), v);
    assert_eq!(Vec3::splat(ONE), vec3(1.0, 1.0, 1.0));
    assert_eq!(Vec3::default(), vec3(0.0, 0.0, 0.0));
}

#[test]
fn vec3_is_zero_only_when_every_component_is() {
    assert!(vec3(0.0, 0.0, 0.0).is_zero());
    assert!(vec3(-0.0, 0.0, -0.0).is_zero());
    assert!(!vec3(0.0, 0.0, 1.0e-45).is_zero());
    assert!(!vec3(0.0, -1.0, 0.0).is_zero());
    assert!(!vec3(2.0, 0.0, 0.0).is_zero());
}

#[test]
fn scale_translation_is_column_major() {
    let m: Mat4 = Mat4::scale_translation(vec3(2.0, 3.0, 4.0), vec3(10.0, 20.0, 30.0));
    let expected: [[f32; 4]; 4] = [
        [2.0, 0.0, 0.0, 0.0],
        [0.0, 3.0, 0.0, 0.0],
        [0.0, 0.0, 4.0, 0.0],
        [10.0, 20.0, 30.0, 1.0],
    ];
    for column in 0..4 {
        for row in 0..4 {
            assert_eq!(f32::from_bits(m.columns[column][row]), expected[column][row]);
        }
    }
}

#[test]
fn view_from_basis_puts_the_basis_in_the_rows() {
    let m = Mat4::view_from_basis(
        vec3(1.0, 2.0, 3.0),
        vec3(4.0, 5.0, 6.0),
        vec3(7.0, 8.0, 9.0),
        vec3(10.0, 11.0, 12.0),
    );
    let expected: [[f32; 4]; 4] = [
        [1.0, 4.0, 7.0, 0.0],
        [2.0, 5.0, 8.0, 0.0],
        [3.0, 6.0, 9.0, 0.0],
        [10.0, 11.0, 12.0, 1.0],
    ];
    assert_eq!(m.columns.map(|column| column.map(f32::from_bits)), expected);
}

#[test]
fn perspective_from_terms_takes_w_from_z() {
    let m = Mat4::perspective_from_terms(bits(0.75), bits(1.5), bits(1.25), bits(-0.5));
    let expected: [[f32; 4]; 4] = [
        [0.75, 0.0, 0.0, 0.0],
        [0.0, 1.5, 0.0, 0.0],
        [0.0, 0.0, 1.25, 1.0],
        [0.0, 0.0, -0.5, 0.0],
    ];
    assert_eq!(m.columns.map(|column| column.map(f32::from_bits)), expected);
}
