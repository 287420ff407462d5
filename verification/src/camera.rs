// The camera: where the viewer stands, where it looks, and the frustum.
//
// The camera keeps its parameters and refuses degenerate ones. The view and
// projection matrices are computed from them by the renderer.

use crate::scalar::{positive_less, spec_positive_less, INFINITY, MINUS_ONE, PI, ZERO};
use crate::vector::Vec3;
use vstd::prelude::*;

verus! {

/// 60 degrees in radians.
pub const DEFAULT_FOV: u32 = 0x3F86_0A92;

/// 0.1
pub const DEFAULT_ZNEAR: u32 = 0x3DCC_CCCD;

/// 1024.0
pub const DEFAULT_ZFAR: u32 = 0x4480_0000;

/// Why a camera parameter was refused.
#[derive(Clone, Copy, Debug, PartialEq, Eq, Structural)]
pub enum ConfigurationError {
    /// The facing direction has length zero.
    ZeroDirection,
    /// The field of view is not strictly between zero and pi.
    FieldOfView,
    /// The clipping planes do not satisfy `0 < near < far` with a finite far
    /// plane.
    ClipPlanes,
}

impl ConfigurationError {
    pub open spec fn spec_message(&self) -> Seq<char> {
        match self {
            ConfigurationError::ZeroDirection => "camera direction has zero length"@,
            ConfigurationError::FieldOfView => "field of view must lie between 0 and pi"@,
            ConfigurationError::ClipPlanes => "clipping planes must satisfy 0 < near < far and be finite"@,
        }
    }

    pub fn message(&self) -> (text: String)
        ensures
            text@ == self.spec_message(),
    {
        match self {
            ConfigurationError::ZeroDirection => "camera direction has zero length".to_owned(),
            ConfigurationError::FieldOfView => "field of view must lie between 0 and pi".to_owned(),
            ConfigurationError::ClipPlanes => "clipping planes must satisfy 0 < near < far and be finite".to_owned(),
        }
    }
}

/// A field of view in radians, strictly between zero and pi.
pub open spec fn spec_valid_fov(fov: u32) -> bool {
    spec_positive_less(fov, PI)
}

/// Clipping planes with `0 < znear < zfar`, both finite: with a far plane at
/// infinity the depth terms of the projection would not be numbers.
pub open spec fn spec_valid_planes(znear: u32, zfar: u32) -> bool {
    spec_positive_less(znear, zfar) && zfar < INFINITY
}

pub fn valid_planes(znear: u32, zfar: u32) -> (valid: bool)
    ensures
        valid == spec_valid_planes(znear, zfar),
{
    positive_less(znear, zfar) && zfar < INFINITY
}

/// The first fault among the parameters, or `None` where they describe a
/// camera: the direction is looked at first, then the field of view, then
/// the clipping planes.
pub open spec fn spec_fault(direction: Vec3, fov: u32, znear: u32, zfar: u32) -> Option<
    ConfigurationError,
> {
    if direction.spec_is_zero() {
        Some(ConfigurationError::ZeroDirection)
    } else if !spec_valid_fov(fov) {
        Some(ConfigurationError::FieldOfView)
    } else if !spec_valid_planes(znear, zfar) {
        Some(ConfigurationError::ClipPlanes)
    } else {
        None
    }
}

/// What a camera holds.
pub struct CameraView {
    pub position: Vec3,
    /// The facing direction; not necessarily of length one.
    pub direction: Vec3,
    /// The field of view in radians.
    pub fov: u32,
    pub znear: u32,
    pub zfar: u32,
}

#[derive(Clone, Copy, Debug)]
pub struct Camera {
    position: Vec3,
    direction: Vec3,
    fov: u32,
    znear: u32,
    zfar: u32,
}

impl View for Camera {
    type V = CameraView;

    closed spec fn view(&self) -> CameraView {
        CameraView {
            position: self.position,
            direction: self.direction,
            fov: self.fov,
            znear: self.znear,
            zfar: self.zfar,
        }
    }
}

impl Camera {
    /// The camera can be rendered from: its direction is not zero, its field
    /// of view lies in `(0, pi)` and `0 < near < far` with a finite far plane.
    pub open spec fn wf(&self) -> bool {
        spec_fault(self@.direction, self@.fov, self@.znear, self@.zfar) is None
    }

    /// A camera at the origin that looks down the negative Z axis, with a
    /// field of view of 60 degrees and the planes at 0.1 and 1024.
    pub open spec fn spec_default() -> CameraView {
        CameraView {
            position: Vec3 { x: ZERO, y: ZERO, z: ZERO },
            direction: Vec3 { x: ZERO, y: ZERO, z: MINUS_ONE },
            fov: DEFAULT_FOV,
            znear: DEFAULT_ZNEAR,
            zfar: DEFAULT_ZFAR,
        }
    }

    pub fn new() -> (camera: Camera)
        ensures
            camera.wf(),
            camera@ == Camera::spec_default(),
    {
        Camera {
            position: Vec3::new(ZERO, ZERO, ZERO),
            direction: Vec3::new(ZERO, ZERO, MINUS_ONE),
            fov: DEFAULT_FOV,
            znear: DEFAULT_ZNEAR,
            zfar: DEFAULT_ZFAR,
        }
    }

    /// A camera with the given parameters, or the first fault among them.
    pub fn from_parts(position: Vec3, direction: Vec3, fov: u32, znear: u32, zfar: u32) -> (made:
        Result<Camera, ConfigurationError>)
        ensures
            match made {
                Ok(camera) => {
                    &&& spec_fault(direction, fov, znear, zfar) is None
                    &&& camera.wf()
                    &&& camera@ == (CameraView { position, direction, fov, znear, zfar })
                },
                Err(error) => spec_fault(direction, fov, znear, zfar) == Some(error),
            },
    {
        if direction.is_zero() {
            Err(ConfigurationError::ZeroDirection)
        } else if !positive_less(fov, PI) {
            Err(ConfigurationError::FieldOfView)
        } else if !valid_planes(znear, zfar) {
            Err(ConfigurationError::ClipPlanes)
        } else {
            Ok(Camera { position, direction, fov, znear, zfar })
        }
    }

    pub fn get_position(&self) -> (position: Vec3)
        ensures
            position == self@.position,
    {
        self.position
    }

    pub fn get_direction(&self) -> (direction: Vec3)
        ensures
            direction == self@.direction,
    {
        self.direction
    }

    pub fn get_fov(&self) -> (fov: u32)
        ensures
            fov == self@.fov,
    {
        self.fov
    }

    pub fn get_znear(&self) -> (znear: u32)
        ensures
            znear == self@.znear,
    {
        self.znear
    }

    pub fn get_zfar(&self) -> (zfar: u32)
        ensures
            zfar == self@.zfar,
    {
        self.zfar
    }

    pub fn set_position(&mut self, position: Vec3)
        ensures
            final(self)@ == (CameraView { position, ..old(self)@ }),
            old(self).wf() ==> final(self).wf(),
    {
        self.position = position;
    }

    /// Turns the camera to face `direction`. A direction of length zero is
    /// refused and leaves the camera as it was.
    pub fn set_direction(&mut self, direction: Vec3) -> (done: Result<(), ConfigurationError>)
        ensures
            match done {
                Ok(_) => !direction.spec_is_zero() && final(self)@ == (CameraView {
                    direction,
                    ..old(self)@
                }),
                Err(error) => direction.spec_is_zero() && error
                    == ConfigurationError::ZeroDirection && final(self)@ == old(self)@,
            },
            old(self).wf() ==> final(self).wf(),
    {
        if direction.is_zero() {
            Err(ConfigurationError::ZeroDirection)
        } else {
            self.direction = direction;
            Ok(())
        }
    }

    /// Sets the field of view, in radians. One outside `(0, pi)` is refused
    /// and leaves the camera as it was.
    pub fn set_fov(&mut self, fov: u32) -> (done: Result<(), ConfigurationError>)
        ensures
            match done {
                Ok(_) => spec_valid_fov(fov) && final(self)@ == (CameraView { fov, ..old(self)@ }),
                Err(error) => !spec_valid_fov(fov) && error == ConfigurationError::FieldOfView
                    && final(self)@ == old(self)@,
            },
            old(self).wf() ==> final(self).wf(),
    {
        if positive_less(fov, PI) {
            self.fov = fov;
            Ok(())
        } else {
            Err(ConfigurationError::FieldOfView)
        }
    }

    /// Sets both clipping planes. Planes that do not satisfy
    /// `0 < znear < zfar` with a finite `zfar` are refused and leave the camera
    /// as it was.
    pub fn set_clip_planes(&mut self, znear: u32, zfar: u32) -> (done: Result<
        (),
        ConfigurationError,
    >)
        ensures
            match done {
                Ok(_) => spec_valid_planes(znear, zfar) && final(self)@ == (CameraView {
                    znear,
                    zfar,
                    ..old(self)@
                }),
                Err(error) => !spec_valid_planes(znear, zfar) && error
                    == ConfigurationError::ClipPlanes && final(self)@ == old(self)@,
            },
            old(self).wf() ==> final(self).wf(),
    {
        if valid_planes(znear, zfar) {
            self.znear = znear;
            self.zfar = zfar;
            Ok(())
        } else {
            Err(ConfigurationError::ClipPlanes)
        }
    }
}

impl Default for Camera {
    fn default() -> (camera: Camera)
        ensures
            camera.wf(),
            camera@ == Camera::spec_default(),
    {
        Camera::new()
    }
}

} // verus!
