//! The camera as the fragment shader reads it, and its byte image.
//!
//! The shader reads the orientation as three rows padded to four floats each
//! (std140 alignment), then the position, the aspect ratio and the tangent of
//! the view half-angle: seventeen little-endian 32-bit floats.

use vstd::prelude::*;
use crate::camera::{valid_aspect, Lens};

verus! {

/// Number of 32-bit words in the uniform image.
pub const UNIFORM_WORDS: usize = 17;

/// Number of bytes in the uniform image.
pub const UNIFORM_BYTES: usize = 68;

/// Byte offset of the aspect ratio in the uniform image.
pub const ASPECT_OFFSET: usize = 60;

/// Byte offset of the tangent of the view half-angle in the uniform image.
pub const TAN_HALF_FOV_OFFSET: usize = 64;

/// A snapshot of the camera, every value a single-precision bit pattern.
#[derive(Clone, Copy, Debug)]
pub struct CameraUniform {
    /// Orientation, row after row.
    pub rotation: [u32; 9],
    pub position: [u32; 3],
    pub lens: Lens,
}

/// Byte `k` (0 to 3) of `w` in little-endian order.
pub open spec fn le_byte(w: u32, k: int) -> u8 {
    if k == 0 {
        (w & 0xff) as u8
    } else if k == 1 {
        ((w >> 8u32) & 0xff) as u8
    } else if k == 2 {
        ((w >> 16u32) & 0xff) as u8
    } else {
        ((w >> 24u32) & 0xff) as u8
    }
}

/// The little-endian bytes of a sequence of words, word after word.
pub open spec fn le_bytes_of(ws: Seq<u32>) -> Seq<u8> {
    Seq::new((4 * ws.len()) as nat, |i: int| le_byte(ws[i / 4], i % 4))
}

impl CameraUniform {
    /// The words of the image: each row followed by a zero pad word, then the
    /// position, the aspect ratio and the tangent.
    pub open spec fn words(&self) -> Seq<u32> {
        let r = self.rotation@;
        let p = self.position@;
        seq![
            r[0], r[1], r[2], 0u32,
            r[3], r[4], r[5], 0u32,
            r[6], r[7], r[8], 0u32,
            p[0], p[1], p[2],
            self.lens.aspect, self.lens.tan_half_fov,
        ]
    }

    /// The byte image that the shader reads.
    pub open spec fn image(&self) -> Seq<u8> {
        le_bytes_of(self.words())
    }

    /// The words of the image, in the order the shader reads them.
    pub fn float_words(&self) -> (r: Vec<u32>)
        ensures
            r@ == self.words(),
            r@.len() == UNIFORM_WORDS,
    {
        let mut out: Vec<u32> = Vec::new();
        let mut row: usize = 0;
        while row < 3
            invariant
                row <= 3,
                out@ == self.words().subrange(0, 4 * row as int),
            decreases 3 - row,
        {
            out.push(self.rotation[3 * row]);
            out.push(self.rotation[3 * row + 1]);
            out.push(self.rotation[3 * row + 2]);
            out.push(0);
            proof {
                assert(out@ =~= self.words().subrange(0, 4 * row + 4));
            }
            row = row + 1;
        }
        out.push(self.position[0]);
        out.push(self.position[1]);
        out.push(self.position[2]);
        out.push(self.lens.aspect);
        out.push(self.lens.tan_half_fov);
        assert(out@ =~= self.words());
        out
    }

    /// The byte image that the shader reads, always `UNIFORM_BYTES` long.
    pub fn pack(&self) -> (r: Vec<u8>)
        ensures
            r@ == self.image(),
            r@.len() == UNIFORM_BYTES,
    {
        let words = self.float_words();
        let mut out: Vec<u8> = Vec::new();
        let mut i: usize = 0;
        while i < words.len()
            invariant
                words@ == self.words(),
                i <= words@.len(),
                out@ =~= le_bytes_of(words@.subrange(0, i as int)),
            decreases words.len() - i,
        {
            let w = words[i];
            out.push((w & 0xff) as u8);
            out.push(((w >> 8) & 0xff) as u8);
            out.push(((w >> 16) & 0xff) as u8);
            out.push(((w >> 24) & 0xff) as u8);
            proof {
                assert(out@ =~= le_bytes_of(words@.subrange(0, i + 1)));
            }
            i = i + 1;
        }
        assert(words@.subrange(0, i as int) =~= words@);
        out
    }
}

/// Once the aspect ratio has been set to an admissible `a`, the image holds
/// `a`'s own bytes at the aspect offset, whatever the rest of the camera is.
pub proof fn lemma_set_aspect_then_pack(before: CameraUniform, a: u32)
    requires
        valid_aspect(a),
    ensures
        ({
            let after = CameraUniform {
                lens: Lens { aspect: a, tan_half_fov: before.lens.tan_half_fov },
                ..before
            };
            after.image().subrange(ASPECT_OFFSET as int, ASPECT_OFFSET + 4) == le_bytes_of(
                seq![a],
            )
        }),
{
    let after = CameraUniform {
        lens: Lens { aspect: a, tan_half_fov: before.lens.tan_half_fov },
        ..before
    };
    assert(after.words()[15] == a);
    assert(after.image().subrange(ASPECT_OFFSET as int, ASPECT_OFFSET + 4) =~= le_bytes_of(
        seq![a],
    ));
}

} // verus!
