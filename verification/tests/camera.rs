use dengine::camera::{
    valid_planes, Camera, ConfigurationError, DEFAULT_FOV, DEFAULT_ZFAR, DEFAULT_ZNEAR,
};
use dengine::vector::Vec3;

fn bits(x: f32) -> u32 {
    x.to_bits()
}

fn vec3(x: f32, y: f32, z: f32) -> Vec3 {
    Vec3::new(bits(x), bits(y), bits(z))
}

#[test]
fn camera_defaults_are_sixty_degrees_and_the_usual_planes() {
    assert_eq!(DEFAULT_FOV, bits(60.0 * std::f32::consts::PI / 180.0));
    assert_eq!(DEFAULT_ZNEAR, bits(0.1));
    assert_eq!(DEFAULT_ZFAR, bits(1024.0));
}

#[test]
fn new_camera_looks_down_negative_z() {
    let camera = Camera::new();
    assert_eq!(camera.get_position(), vec3(0.0, 0.0, 0.0));
    assert_eq!(camera.get_direction(), vec3(0.0, 0.0, -1.0));
    assert_eq!(camera.get_fov(), DEFAULT_FOV);
    assert_eq!(camera.get_znear(), DEFAULT_ZNEAR);
    assert_eq!(camera.get_zfar(), DEFAULT_ZFAR);
    let by_default = Camera::default();
    assert_eq!(by_default.get_direction(), camera.get_direction());
    assert_eq!(by_default.get_fov(), camera.get_fov());
}

#[test]
fn from_parts_keeps_valid_parameters() {
    let camera = Camera::from_parts(
        vec3(2.0, 1.0, 1.0),
        vec3(0.17, -3.5, 3.14),
        bits(1.4),
        bits(0.5),
        bits(100.0),
    )
    .unwrap();
    assert_eq!(camera.get_position(), vec3(2.0, 1.0, 1.0));
    assert_eq!(camera.get_direction(), vec3(0.17, -3.5, 3.14));
    assert_eq!(camera.get_fov(), bits(1.4));
    assert_eq!(camera.get_znear(), bits(0.5));
    assert_eq!(camera.get_zfar(), bits(100.0));
}

#[test]
fn from_parts_reports_the_first_fault() {
    let origin = vec3(0.0, 0.0, 0.0);
    let ahead = vec3(0.0, 0.0, -1.0);
    let fault = |direction: Vec3, fov: f32, near: f32, far: f32| {
        Camera::from_parts(origin, direction, bits(fov), bits(near), bits(far)).err()
    };
    assert_eq!(fault(origin, 1.0, 0.1, 10.0), Some(ConfigurationError::ZeroDirection));
    assert_eq!(fault(origin, 0.0, 10.0, 0.1), Some(ConfigurationError::ZeroDirection));
    assert_eq!(fault(ahead, 0.0, 0.1, 10.0), Some(ConfigurationError::FieldOfView));
    assert_eq!(fault(ahead, -1.0, 0.1, 10.0), Some(ConfigurationError::FieldOfView));
    assert_eq!(fault(ahead, f32::NAN, 0.1, 10.0), Some(ConfigurationError::FieldOfView));
    assert_eq!(
        fault(ahead, std::f32::consts::PI, 0.1, 10.0),
        Some(ConfigurationError::FieldOfView)
    );
    assert_eq!(fault(ahead, 4.0, 10.0, 0.1), Some(ConfigurationError::FieldOfView));
    assert_eq!(fault(ahead, 1.0, 0.0, 10.0), Some(ConfigurationError::ClipPlanes));
    assert_eq!(fault(ahead, 1.0, -0.1, 10.0), Some(ConfigurationError::ClipPlanes));
    assert_eq!(fault(ahead, 1.0, 10.0, 10.0), Some(ConfigurationError::ClipPlanes));
    assert_eq!(fault(ahead, 1.0, 10.0, 0.1), Some(ConfigurationError::ClipPlanes));
    assert_eq!(fault(ahead, 1.0, 0.1, f32::NAN), Some(ConfigurationError::ClipPlanes));
    assert_eq!(fault(ahead, 1.0, 0.1, f32::INFINITY), Some(ConfigurationError::ClipPlanes));
    assert_eq!(fault(ahead, 1.0, f32::INFINITY, f32::INFINITY), Some(ConfigurationError::ClipPlanes));
    assert_eq!(fault(ahead, 1.0, 0.1, 10.0), None);
    assert_eq!(fault(ahead, 3.1415925, 1.0e-45, f32::MAX), None);
}

#[test]
fn set_fov_accepts_the_open_interval_only() {
    let mut camera = Camera::new();
    assert_eq!(camera.set_fov(bits(80.0 * std::f32::consts::PI / 180.0)), Ok(()));
    assert_eq!(camera.get_fov(), bits(80.0 * std::f32::consts::PI / 180.0));
    let kept = camera.get_fov();
    for refused in [0.0f32, -0.0, -1.0, std::f32::consts::PI, 4.0, f32::INFINITY, f32::NAN] {
        assert_eq!(camera.set_fov(bits(refused)), Err(ConfigurationError::FieldOfView));
        assert_eq!(camera.get_fov(), kept);
    }
}

#[test]
fn set_direction_refuses_the_zero_vector() {
    let mut camera = Camera::new();
    assert_eq!(camera.set_direction(vec3(0.0, -0.0, 0.0)), Err(ConfigurationError::ZeroDirection));
    assert_eq!(camera.get_direction(), vec3(0.0, 0.0, -1.0));
    assert_eq!(camera.set_direction(vec3(0.2, -3.5, 3.1)), Ok(()));
    assert_eq!(camera.get_direction(), vec3(0.2, -3.5, 3.1));
}

#[test]
fn set_clip_planes_wants_near_before_far() {
    let mut camera = Camera::new();
    assert_eq!(camera.set_clip_planes(bits(1.0), bits(50.0)), Ok(()));
    assert_eq!((camera.get_znear(), camera.get_zfar()), (bits(1.0), bits(50.0)));
    assert_eq!(
        camera.set_clip_planes(bits(50.0), bits(1.0)),
        Err(ConfigurationError::ClipPlanes)
    );
    assert_eq!(camera.set_clip_planes(bits(0.0), bits(1.0)), Err(ConfigurationError::ClipPlanes));
    assert_eq!(
        camera.set_clip_planes(bits(1.0), bits(f32::INFINITY)),
        Err(ConfigurationError::ClipPlanes)
    );
    assert_eq!(camera.set_clip_planes(bits(1.0), bits(f32::MAX)), Ok(()));
    assert_eq!(camera.set_clip_planes(bits(1.0), bits(50.0)), Ok(()));
    assert_eq!((camera.get_znear(), camera.get_zfar()), (bits(1.0), bits(50.0)));
}

#[test]
fn set_position_takes_any_point() {
    let mut camera = Camera::new();
    camera.set_position(vec3(2.0, 1.0, 1.0));
    assert_eq!(camera.get_position(), vec3(2.0, 1.0, 1.0));
    assert_eq!(camera.get_fov(), DEFAULT_FOV);
}

#[test]
fn configuration_errors_have_messages() {
    assert_eq!(ConfigurationError::ZeroDirection.message(), "camera direction has zero length");
    assert_eq!(
        ConfigurationError::FieldOfView.message(),
        "field of view must lie between 0 and pi"
    );
    assert_eq!(
        ConfigurationError::ClipPlanes.message(),
        "clipping planes must satisfy 0 < near < far and be finite"
    );
}

#[test]
fn valid_planes_agree_with_the_float_comparison() {
    let samples = [
        0.0f32,
        -0.0,
        1.0e-45,
        0.1,
        1.0,
        1024.0,
        f32::MAX,
        f32::INFINITY,
        -0.1,
        -1024.0,
        f32::NEG_INFINITY,
        f32::NAN,
    ];
    for near in samples {
        for far in samples {
            assert_eq!(
                valid_planes(bits(near), bits(far)),
                0.0 < near && near < far && far.is_finite(),
                "{near} {far}"
            );
        }
    }
}
