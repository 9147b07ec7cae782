//! Admissible camera parameters and the lens (aspect and field of view).

use vstd::prelude::*;
use crate::float_bits::{
    float_eq, is_finite, is_finite_value, is_positive, is_positive_value, values_equal,
};

verus! {

/// Bit pattern of the single-precision value nearest to π/2.
///
/// For values greater than zero, bit patterns order as the values do, so an
/// angle's bits are below this constant exactly when the angle is below π/2.
pub const HALF_PI_BITS: u32 = 0x3fc9_0fdb;

/// Why a camera operation was refused; the camera is left unchanged.
#[derive(Clone, Copy, Debug, PartialEq, Eq, Structural)]
pub enum CameraError {
    /// The aspect ratio is not finite or not greater than zero.
    InvalidAspect,
    /// The view half-angle is not finite or lies outside (0, π/2).
    InvalidViewAngle,
    /// The eye point of a look-at gives no direction or no sideways axis: a
    /// coordinate is not finite, or the eye lies straight above or below the
    /// camera position (the position itself included).
    DegenerateLookAt,
}

/// An aspect ratio (width over height) is admissible when it is finite and
/// greater than zero.
pub open spec fn valid_aspect(bits: u32) -> bool {
    is_positive(bits) && is_finite(bits)
}

/// A view half-angle in radians is admissible when it is finite and in (0, π/2).
pub open spec fn valid_view_angle(bits: u32) -> bool {
    is_positive(bits) && is_finite(bits) && bits < HALF_PI_BITS
}

/// The tangent of an admissible half-angle is finite and greater than zero.
pub open spec fn valid_tan_half_fov(bits: u32) -> bool {
    is_positive(bits) && is_finite(bits)
}

/// Every coordinate of the point is finite.
pub open spec fn all_finite(a: [u32; 3]) -> bool {
    is_finite(a@[0]) && is_finite(a@[1]) && is_finite(a@[2])
}

/// Looking from `eye` towards `position` is degenerate when a coordinate is
/// not finite, or when the two points agree in x and z: the direction is then
/// zero or parallel to the world's up axis, and no sideways axis exists.
pub open spec fn degenerate_look_at(eye: [u32; 3], position: [u32; 3]) -> bool {
    !all_finite(eye) || !all_finite(position) || (float_eq(eye@[0], position@[0]) && float_eq(
        eye@[2],
        position@[2],
    ))
}

/// Accepts an aspect ratio given as single-precision bits.
pub fn check_aspect(bits: u32) -> (r: Result<(), CameraError>)
    ensures
        r is Ok <==> valid_aspect(bits),
        r is Err ==> r == Err::<(), CameraError>(CameraError::InvalidAspect),
{
    if is_positive_value(bits) && is_finite_value(bits) {
        Ok(())
    } else {
        Err(CameraError::InvalidAspect)
    }
}

/// Accepts a view half-angle in radians given as single-precision bits.
pub fn check_view_angle(bits: u32) -> (r: Result<(), CameraError>)
    ensures
        r is Ok <==> valid_view_angle(bits),
        r is Err ==> r == Err::<(), CameraError>(CameraError::InvalidViewAngle),
{
    if is_positive_value(bits) && is_finite_value(bits) && bits < HALF_PI_BITS {
        Ok(())
    } else {
        Err(CameraError::InvalidViewAngle)
    }
}

/// Refuses a look-at from `eye` that gives the camera no well-defined orientation.
pub fn check_look_at(eye: [u32; 3], position: [u32; 3]) -> (r: Result<(), CameraError>)
    ensures
        r is Ok <==> !degenerate_look_at(eye, position),
        r is Err ==> r == Err::<(), CameraError>(CameraError::DegenerateLookAt),
{
    let finite = is_finite_value(eye[0]) && is_finite_value(eye[1]) && is_finite_value(eye[2])
        && is_finite_value(position[0]) && is_finite_value(position[1]) && is_finite_value(
        position[2],
    );
    if !finite || (values_equal(eye[0], position[0]) && values_equal(eye[2], position[2])) {
        Err(CameraError::DegenerateLookAt)
    } else {
        Ok(())
    }
}

/// Aspect ratio and tangent of the view half-angle, as single-precision bits.
#[derive(Clone, Copy, Debug, PartialEq, Eq, Structural)]
pub struct Lens {
    pub aspect: u32,
    pub tan_half_fov: u32,
}

impl Lens {
    /// Both values are admissible.
    pub open spec fn wf(&self) -> bool {
        valid_aspect(self.aspect) && valid_tan_half_fov(self.tan_half_fov)
    }

    /// A lens with the given aspect and tangent, refused unless both are admissible.
    pub fn new(aspect: u32, tan_half_fov: u32) -> (r: Result<Lens, CameraError>)
        ensures
            r is Ok <==> valid_aspect(aspect) && valid_tan_half_fov(tan_half_fov),
            r is Ok ==> r == Ok::<Lens, CameraError>(Lens { aspect, tan_half_fov }),
            !valid_aspect(aspect) ==> r == Err::<Lens, CameraError>(CameraError::InvalidAspect),
            valid_aspect(aspect) && !valid_tan_half_fov(tan_half_fov) ==> r == Err::<
                Lens,
                CameraError,
            >(CameraError::InvalidViewAngle),
            r matches Ok(lens) ==> lens.wf(),
    {
        check_aspect(aspect)?;
        check_tan_half_fov(tan_half_fov)?;
        Ok(Lens { aspect, tan_half_fov })
    }

    /// Replaces the aspect ratio; refused, and nothing changed, unless it is admissible.
    pub fn set_aspect(&mut self, aspect: u32) -> (r: Result<(), CameraError>)
        ensures
            r is Ok <==> valid_aspect(aspect),
            r is Ok ==> *final(self) == (Lens { aspect, tan_half_fov: old(self).tan_half_fov }),
            r is Err ==> *final(self) == *old(self) && r == Err::<(), CameraError>(
                CameraError::InvalidAspect,
            ),
            old(self).wf() ==> final(self).wf(),
    {
        check_aspect(aspect)?;
        self.aspect = aspect;
        Ok(())
    }

    /// Replaces the tangent of the view half-angle; refused, and nothing changed,
    /// unless it is finite and greater than zero.
    pub fn set_tan_half_fov(&mut self, tan_half_fov: u32) -> (r: Result<(), CameraError>)
        ensures
            r is Ok <==> valid_tan_half_fov(tan_half_fov),
            r is Ok ==> *final(self) == (Lens { aspect: old(self).aspect, tan_half_fov }),
            r is Err ==> *final(self) == *old(self) && r == Err::<(), CameraError>(
                CameraError::InvalidViewAngle,
            ),
            old(self).wf() ==> final(self).wf(),
    {
        check_tan_half_fov(tan_half_fov)?;
        self.tan_half_fov = tan_half_fov;
        Ok(())
    }
}

/// Accepts the tangent of a view half-angle given as single-precision bits.
pub fn check_tan_half_fov(bits: u32) -> (r: Result<(), CameraError>)
    ensures
        r is Ok <==> valid_tan_half_fov(bits),
        r is Err ==> r == Err::<(), CameraError>(CameraError::InvalidViewAngle),
{
    if is_positive_value(bits) && is_finite_value(bits) {
        Ok(())
    } else {
        Err(CameraError::InvalidViewAngle)
    }
}

/// Number of rotations after which the orientation is re-orthonormalized.
pub const REORTHONORMALIZE_EVERY: u32 = 128;

/// Counts rotations so that rounding drift in the orientation is corrected
/// periodically.
#[derive(Clone, Copy, Debug, PartialEq, Eq, Structural)]
pub struct DriftGuard {
    /// Rotations since the last correction.
    pub since: u32,
}

impl DriftGuard {
    pub open spec fn wf(&self) -> bool {
        self.since < REORTHONORMALIZE_EVERY
    }

    pub fn new() -> (r: DriftGuard)
        ensures
            r.since == 0,
            r.wf(),
    {
        DriftGuard { since: 0 }
    }

    /// Records one rotation; true when the orientation is due for correction,
    /// which happens on every `REORTHONORMALIZE_EVERY`-th rotation.
    pub fn after_rotate(&mut self) -> (r: bool)
        requires
            old(self).wf(),
        ensures
            r <==> old(self).since + 1 == REORTHONORMALIZE_EVERY,
            final(self).since == if r {
                0
            } else {
                old(self).since + 1
            },
            final(self).wf(),
    {
        if self.since + 1 == REORTHONORMALIZE_EVERY {
            self.since = 0;
            true
        } else {
            self.since = self.since + 1;
            false
        }
    }
}

} // verus!
