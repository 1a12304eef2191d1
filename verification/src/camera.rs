use vstd::prelude::*;

use crate::encoding::{
    bytes_to_words_spec, lemma_words_bytes_round_trip, words_to_bytes, words_to_bytes_spec,
};

verus! {

/// IEEE-754 single-precision bit pattern of 0.0.
pub const F32_BITS_ZERO: u32 = 0x0000_0000;

/// IEEE-754 single-precision bit pattern of 1.0.
pub const F32_BITS_ONE: u32 = 0x3F80_0000;

/// IEEE-754 single-precision bit pattern of 2.0.
pub const F32_BITS_TWO: u32 = 0x4000_0000;

/// IEEE-754 single-precision bit pattern of 45.0.
pub const F32_BITS_FORTY_FIVE: u32 = 0x4234_0000;

/// IEEE-754 single-precision bit pattern of 0.1.
pub const F32_BITS_TENTH: u32 = 0x3DCC_CCCD;

/// IEEE-754 single-precision bit pattern of 100.0.
pub const F32_BITS_HUNDRED: u32 = 0x42C8_0000;

/// A three-component vector held as IEEE-754 single-precision bit patterns.
#[derive(Clone, Copy, Debug, PartialEq, Eq, Structural)]
pub struct Vec3Bits {
    pub x: u32,
    pub y: u32,
    pub z: u32,
}

/// Camera state: eye and target positions, the up vector, field of view in
/// degrees, aspect ratio, and the near and far planes.
///
/// Every numeric component is an IEEE-754 single-precision bit pattern. The
/// window-side controller converts to and from floats when it mutates the
/// state between frames, and the view-projection transform is recomputed
/// from these words alone before each frame is recorded.
#[derive(Clone, Copy, Debug, PartialEq, Eq, Structural)]
pub struct Camera {
    pub eye: Vec3Bits,
    pub target: Vec3Bits,
    pub up: Vec3Bits,
    pub fov: u32,
    pub aspect: u32,
    pub znear: u32,
    pub zfar: u32,
}

/// The startup camera state: eye at (0, 1, 2) looking at the origin with
/// +y up, a 45 degree field of view, near plane 0.1 and far plane 100, at
/// the given aspect ratio.
pub open spec fn initial_camera_spec(aspect: u32) -> Camera {
    Camera {
        eye: Vec3Bits { x: F32_BITS_ZERO, y: F32_BITS_ONE, z: F32_BITS_TWO },
        target: Vec3Bits { x: F32_BITS_ZERO, y: F32_BITS_ZERO, z: F32_BITS_ZERO },
        up: Vec3Bits { x: F32_BITS_ZERO, y: F32_BITS_ONE, z: F32_BITS_ZERO },
        fov: F32_BITS_FORTY_FIVE,
        aspect: aspect,
        znear: F32_BITS_TENTH,
        zfar: F32_BITS_HUNDRED,
    }
}

impl Camera {
    /// The startup camera, at the aspect ratio of the current surface.
    pub fn new(aspect: u32) -> (c: Camera)
        ensures
            c == initial_camera_spec(aspect),
    {
        Camera {
            eye: Vec3Bits { x: F32_BITS_ZERO, y: F32_BITS_ONE, z: F32_BITS_TWO },
            target: Vec3Bits { x: F32_BITS_ZERO, y: F32_BITS_ZERO, z: F32_BITS_ZERO },
            up: Vec3Bits { x: F32_BITS_ZERO, y: F32_BITS_ONE, z: F32_BITS_ZERO },
            fov: F32_BITS_FORTY_FIVE,
            aspect,
            znear: F32_BITS_TENTH,
            zfar: F32_BITS_HUNDRED,
        }
    }
}

/// The bit image of the 4-by-4 identity matrix, flattened in upload order.
pub open spec fn identity_matrix_bits() -> Seq<u32> {
    seq![
        F32_BITS_ONE, 0u32, 0u32, 0u32,
        0u32, F32_BITS_ONE, 0u32, 0u32,
        0u32, 0u32, F32_BITS_ONE, 0u32,
        0u32, 0u32, 0u32, F32_BITS_ONE,
    ]
}

/// The camera's view-projection matrix as a flat block of sixteen 32-bit
/// words, ready for direct upload into a uniform buffer.
///
/// The words are the bit patterns of the matrix entries in the order the
/// shader-visible uniform block expects them. They are recomputed outside
/// the core (the transform is floating-point work) as the product of the
/// fixed depth-range correction, the perspective projection and the look-at
/// view, in that exact order, and stored here unchanged.
#[derive(Debug)]
pub struct CameraUniform {
    view_proj: [u32; 16],
}

impl CameraUniform {
    /// The bit patterns of the sixteen matrix entries, in upload order.
    pub closed spec fn matrix(self) -> Seq<u32> {
        self.view_proj@
    }

    /// The stored matrix always has exactly sixteen entries.
    pub proof fn lemma_matrix_len(self)
        ensures
            self.matrix().len() == 16,
    {
    }

    /// Starts as the identity transform.
    pub fn new() -> (u: CameraUniform)
        ensures
            u.matrix() == identity_matrix_bits(),
    {
        let u = CameraUniform {
            view_proj: [
                F32_BITS_ONE, 0u32, 0u32, 0u32,
                0u32, F32_BITS_ONE, 0u32, 0u32,
                0u32, 0u32, F32_BITS_ONE, 0u32,
                0u32, 0u32, 0u32, F32_BITS_ONE,
            ],
        };
        proof {
            assert(u.view_proj@ =~= identity_matrix_bits());
        }
        u
    }

    /// Stores a freshly recomputed view-projection matrix.
    pub fn update_view_proj(&mut self, view_proj: &[u32; 16])
        ensures
            final(self).matrix() == view_proj@,
    {
        self.view_proj = *view_proj;
    }

    /// The 64-byte little-endian image of the matrix, exactly as it is
    /// written into the camera's uniform buffer.
    pub fn to_bytes(&self) -> (bytes: Vec<u8>)
        ensures
            bytes@ == words_to_bytes_spec(self.matrix()),
            bytes@.len() == 64,
    {
        let mut words: Vec<u32> = Vec::new();
        let mut i: usize = 0;
        while i < 16
            invariant
                i <= 16,
                words@ == self.matrix().take(i as int),
        decreases 16 - i,
        {
            words.push(self.view_proj[i]);
            proof {
                assert(words@ =~= self.matrix().take(i as int + 1));
            }
            i = i + 1;
        }
        proof {
            assert(self.matrix().take(16) =~= self.matrix());
        }
        words_to_bytes(&words)
    }
}

/// Writing the uniform's matrix into a buffer as bytes and reading the
/// same byte range back yields the identical sixteen words, bit for bit.
pub proof fn lemma_uniform_round_trip(u: CameraUniform)
    ensures
        bytes_to_words_spec(words_to_bytes_spec(u.matrix())) == u.matrix(),
{
    lemma_words_bytes_round_trip(u.matrix());
}

/// The bytes a frame uploads for the camera are a function of the stored
/// matrix alone: two frames over bit-identical camera matrices write
/// bit-identical uniform contents.
pub proof fn lemma_uniform_bytes_deterministic(a: CameraUniform, b: CameraUniform)
    requires
        a.matrix() == b.matrix(),
    ensures
        words_to_bytes_spec(a.matrix()) == words_to_bytes_spec(b.matrix()),
{
}

} // verus!
