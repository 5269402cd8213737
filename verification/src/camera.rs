//! Orbit camera parameters and their GPU mirror.
//!
//! The camera is an orbit model: a zoom (distance to the target), a pitch, a
//! yaw, a target point, a fixed up direction and an aspect ratio, every
//! scalar carried as an IEEE-754 binary32 bit pattern. The mutators below
//! clamp zoom and pitch by pure bit logic and are verified to do so; the
//! derived data — the eye point on the orbit sphere and the view-projection
//! matrix — takes trigonometry, which the caller computes and mirrors back
//! through [`CameraUniform::update_view_proj`].
use vstd::prelude::*;

use crate::binary32::{clamp_bits, clamp_spec, is_nan, le, lemma_mag, lt};
use crate::{le_word, le_words, lemma_le_words_len, lemma_le_words_push, push_le_word};

verus! {

/// Bit pattern of 0.3: the smallest zoom the camera accepts.
pub const ZOOM_MIN_BITS: u32 = 0x3E99_999A;

/// Bit pattern of 50.0: half the far-plane distance, the largest zoom.
pub const ZOOM_MAX_BITS: u32 = 0x4248_0000;

/// Bit pattern of the binary32 value nearest half pi.
pub const HALF_PI_BITS: u32 = 0x3FC9_0FDB;

/// Bit pattern of the negation of [`HALF_PI_BITS`].
pub const NEG_HALF_PI_BITS: u32 = 0xBFC9_0FDB;

/// Bit pattern one machine step below [`HALF_PI_BITS`]: the largest pitch,
/// kept strictly inside the pole to avoid the look-at singularity there.
pub const PITCH_MAX_BITS: u32 = 0x3FC9_0FDA;

/// Bit pattern of the negation of [`PITCH_MAX_BITS`]: the smallest pitch.
pub const PITCH_MIN_BITS: u32 = 0xBFC9_0FDA;

/// Bit pattern of 1.0.
pub const ONE_BITS: u32 = 0x3F80_0000;

/// A point or direction, one binary32 bit pattern per component.
#[derive(Clone, Copy, Debug, PartialEq, Eq, Structural)]
pub struct Vec3Bits {
    pub x: u32,
    pub y: u32,
    pub z: u32,
}

/// The up direction the camera always uses: the positive y axis.
pub open spec fn up_bits() -> Vec3Bits {
    Vec3Bits { x: 0, y: ONE_BITS, z: 0 }
}

/// Orbit camera parameters.
#[derive(Clone, Copy, Debug, PartialEq, Eq, Structural)]
pub struct Camera {
    /// Distance from the target to the eye.
    pub zoom: u32,
    /// The point the camera orbits and looks at.
    pub target: Vec3Bits,
    /// Elevation angle above the horizontal plane, in radians.
    pub pitch: u32,
    /// Azimuth angle measured from the positive z axis, in radians.
    pub yaw: u32,
    /// The up direction of the view.
    pub up: Vec3Bits,
    /// Width over height of the viewport.
    pub aspect: u32,
}

impl Camera {
    /// A camera with the given parameters, stored as handed in; the clamps
    /// apply from the first mutator call on.
    pub fn new(zoom: u32, pitch: u32, yaw: u32, target: Vec3Bits, aspect: u32) -> (r: Camera)
        ensures
            r == (Camera { zoom, target, pitch, yaw, up: up_bits(), aspect }),
    {
        Camera { zoom, target, pitch, yaw, up: (Vec3Bits { x: 0, y: ONE_BITS, z: 0 }), aspect }
    }

    /// Replace the zoom, clamped into the closed interval from
    /// [`ZOOM_MIN_BITS`] to [`ZOOM_MAX_BITS`].
    pub fn set_zoom(&mut self, zoom: u32)
        ensures
            final(self).zoom == clamp_spec(zoom, ZOOM_MIN_BITS, ZOOM_MAX_BITS),
            !is_nan(zoom) ==> le(ZOOM_MIN_BITS, final(self).zoom) && le(
                final(self).zoom,
                ZOOM_MAX_BITS,
            ),
            *final(self) == (Camera { zoom: final(self).zoom, ..*old(self) }),
    {
        proof {
            lemma_mag(ZOOM_MIN_BITS);
            lemma_mag(ZOOM_MAX_BITS);
        }
        self.zoom = clamp_bits(zoom, ZOOM_MIN_BITS, ZOOM_MAX_BITS);
    }

    /// Replace the pitch, clamped into the closed interval from
    /// [`PITCH_MIN_BITS`] to [`PITCH_MAX_BITS`], one machine step inside
    /// the poles at minus and plus half pi.
    pub fn set_pitch(&mut self, pitch: u32)
        ensures
            final(self).pitch == clamp_spec(pitch, PITCH_MIN_BITS, PITCH_MAX_BITS),
            !is_nan(pitch) ==> le(PITCH_MIN_BITS, final(self).pitch) && le(
                final(self).pitch,
                PITCH_MAX_BITS,
            ),
            !is_nan(pitch) ==> lt(NEG_HALF_PI_BITS, final(self).pitch) && lt(
                final(self).pitch,
                HALF_PI_BITS,
            ),
            *final(self) == (Camera { pitch: final(self).pitch, ..*old(self) }),
    {
        proof {
            if !is_nan(pitch) {
                lemma_pitch_clamp_strictly_inside(pitch);
            }
            lemma_mag(PITCH_MIN_BITS);
            lemma_mag(PITCH_MAX_BITS);
        }
        self.pitch = clamp_bits(pitch, PITCH_MIN_BITS, PITCH_MAX_BITS);
    }

    /// Replace the yaw. It is unbounded: the angle wraps through the
    /// trigonometric functions at the caller, so no normalization is done.
    pub fn set_yaw(&mut self, yaw: u32)
        ensures
            *final(self) == (Camera { yaw, ..*old(self) }),
    {
        self.yaw = yaw;
    }
}

/// After a pitch update with any value that is not a NaN, the stored pitch
/// lies strictly between the patterns of minus and plus half pi: the clamp
/// bounds are one machine step inside them.
pub proof fn lemma_pitch_clamp_strictly_inside(pitch: u32)
    requires
        !is_nan(pitch),
    ensures
        lt(NEG_HALF_PI_BITS, clamp_spec(pitch, PITCH_MIN_BITS, PITCH_MAX_BITS)),
        lt(clamp_spec(pitch, PITCH_MIN_BITS, PITCH_MAX_BITS), HALF_PI_BITS),
        le(PITCH_MIN_BITS, clamp_spec(pitch, PITCH_MIN_BITS, PITCH_MAX_BITS)),
        le(clamp_spec(pitch, PITCH_MIN_BITS, PITCH_MAX_BITS), PITCH_MAX_BITS),
{
    lemma_mag(pitch);
    lemma_mag(PITCH_MIN_BITS);
    lemma_mag(PITCH_MAX_BITS);
    lemma_mag(NEG_HALF_PI_BITS);
    lemma_mag(HALF_PI_BITS);
}

/// After a zoom update with any value that is not a NaN, the stored zoom
/// lies in the closed interval from the pattern of 0.3 to the pattern of
/// 50.0.
pub proof fn lemma_zoom_clamp_in_range(zoom: u32)
    requires
        !is_nan(zoom),
    ensures
        le(ZOOM_MIN_BITS, clamp_spec(zoom, ZOOM_MIN_BITS, ZOOM_MAX_BITS)),
        le(clamp_spec(zoom, ZOOM_MIN_BITS, ZOOM_MAX_BITS), ZOOM_MAX_BITS),
{
    lemma_mag(zoom);
    lemma_mag(ZOOM_MIN_BITS);
    lemma_mag(ZOOM_MAX_BITS);
}

/// GPU mirror of the camera: the eye position padded to four components,
/// and the view-projection matrix, sixteen words in column-major order.
#[derive(Clone, Copy, Debug, PartialEq, Eq)]
pub struct CameraUniform {
    pub view_position: [u32; 4],
    pub view_proj: [u32; 16],
}

/// The column-major identity matrix, as bit patterns.
pub open spec fn identity_matrix_bits() -> Seq<u32> {
    seq![
        ONE_BITS, 0u32, 0u32, 0u32,
        0u32, ONE_BITS, 0u32, 0u32,
        0u32, 0u32, ONE_BITS, 0u32,
        0u32, 0u32, 0u32, ONE_BITS,
    ]
}

/// The byte image of the mirror as the GPU reads it: eye position then
/// matrix, each word in little-endian order, eighty bytes in all.
pub open spec fn camera_uniform_bytes(u: CameraUniform) -> Seq<u8> {
    le_words(u.view_position@) + le_words(u.view_proj@)
}

impl CameraUniform {
    /// Overwrite the mirror from a freshly derived eye point and
    /// view-projection matrix: the position is the eye with 1.0 as its
    /// fourth component.
    pub fn update_view_proj(&mut self, eye: Vec3Bits, view_proj: [u32; 16])
        ensures
            final(self).view_position == [eye.x, eye.y, eye.z, ONE_BITS],
            final(self).view_position@ == seq![eye.x, eye.y, eye.z, ONE_BITS],
            final(self).view_proj == view_proj,
    {
        self.view_position = [eye.x, eye.y, eye.z, ONE_BITS];
        self.view_proj = view_proj;
    }

    /// The eighty little-endian bytes of the mirror, as uploaded to the GPU.
    pub fn to_bytes(&self) -> (r: Vec<u8>)
        ensures
            r@ == camera_uniform_bytes(*self),
            r@.len() == 80,
    {
        let mut out: Vec<u8> = Vec::new();
        let mut i: usize = 0;
        while i < 4
            invariant
                i <= 4,
                out@ == le_words(self.view_position@.take(i as int)),
            decreases 4 - i,
        {
            proof {
                lemma_le_words_push(self.view_position@.take(i as int), self.view_position@[i as int]);
                assert(self.view_position@.take(i as int).push(self.view_position@[i as int])
                    =~= self.view_position@.take(i as int + 1));
            }
            push_le_word(&mut out, self.view_position[i]);
            i += 1;
        }
        proof {
            assert(self.view_position@.take(4) =~= self.view_position@);
        }
        let mut j: usize = 0;
        while j < 16
            invariant
                j <= 16,
                out@ == le_words(self.view_position@) + le_words(self.view_proj@.take(j as int)),
            decreases 16 - j,
        {
            proof {
                lemma_le_words_push(self.view_proj@.take(j as int), self.view_proj@[j as int]);
                assert(self.view_proj@.take(j as int).push(self.view_proj@[j as int])
                    =~= self.view_proj@.take(j as int + 1));
            }
            push_le_word(&mut out, self.view_proj[j]);
            j += 1;
        }
        proof {
            assert(self.view_proj@.take(16) =~= self.view_proj@);
            lemma_le_words_len(self.view_position@);
            lemma_le_words_len(self.view_proj@);
        }
        out
    }
}

impl Default for CameraUniform {
    /// The mirror before the first frame: position at the origin with a zero
    /// fourth component, and the identity matrix.
    fn default() -> (r: Self)
        ensures
            r.view_position@ == seq![0u32, 0u32, 0u32, 0u32],
            r.view_proj@ == identity_matrix_bits(),
    {
        let r = CameraUniform {
            view_position: [0, 0, 0, 0],
            view_proj: [
                ONE_BITS, 0, 0, 0,
                0, ONE_BITS, 0, 0,
                0, 0, ONE_BITS, 0,
                0, 0, 0, ONE_BITS,
            ],
        };
        proof {
            assert(r.view_position@ =~= seq![0u32, 0u32, 0u32, 0u32]);
            assert(r.view_proj@ =~= identity_matrix_bits());
        }
        r
    }
}

} // verus!
