use vstd::prelude::*;

use crate::bytes::{bytes32, image32, lemma_image32_len, lemma_image32_word, memory_image32, words32_as_bytes};

verus! {

/// Size in bytes of the camera uniform buffer: sixteen 32-bit floats.
pub const UNIFORM_SIZE: u64 = 64;

/// The view-projection transform as the shaders read it: four arrays of four
/// 32-bit floats, each float held as its IEEE-754 bit pattern.
pub struct CameraUniform {
    view_proj: [[u32; 4]; 4],
}

/// The sixteen words of `m`, `m[0]` first, each array in its own order.
pub open spec fn matrix_words(m: [[u32; 4]; 4]) -> Seq<u32> {
    m@[0]@ + m@[1]@ + m@[2]@ + m@[3]@
}

impl CameraUniform {
    /// The matrix that the uniform carries.
    pub closed spec fn matrix(&self) -> [[u32; 4]; 4] {
        self.view_proj
    }

    /// Wraps a view-projection matrix for upload.
    pub fn new(view_proj: [[u32; 4]; 4]) -> (r: CameraUniform)
        ensures
            r.matrix() == view_proj,
    {
        CameraUniform { view_proj }
    }

    /// The matrix that the uniform carries.
    pub fn view_proj(&self) -> (r: [[u32; 4]; 4])
        ensures
            r == self.matrix(),
    {
        self.view_proj
    }

    /// The sixteen floats of the matrix in buffer order.
    pub fn words(&self) -> (r: Vec<u32>)
        ensures
            r@ == matrix_words(self.matrix()),
    {
        let mut r: Vec<u32> = Vec::new();
        let mut i: usize = 0;
        while i < 4
            invariant
                0 <= i <= 4,
                r@ == matrix_words(self.matrix()).take(4 * i),
            decreases 4 - i,
        {
            let row: [u32; 4] = self.view_proj[i];
            let mut j: usize = 0;
            while j < 4
                invariant
                    0 <= i < 4,
                    0 <= j <= 4,
                    row@ == self.matrix()@[i as int]@,
                    r@ == matrix_words(self.matrix()).take(4 * i + j),
                decreases 4 - j,
            {
                r.push(row[j]);
                j = j + 1;
                assert(r@ =~= matrix_words(self.matrix()).take(4 * i + j));
            }
            i = i + 1;
        }
        assert(r@ =~= matrix_words(self.matrix()));
        r
    }

    /// The uniform buffer's contents: the sixteen floats in order, each in
    /// the machine's byte order, sixty-four bytes in all.
    pub fn to_bytes(&self) -> (r: Vec<u8>)
        ensures
            memory_image32(matrix_words(self.matrix()), r@),
            r@.len() == UNIFORM_SIZE,
    {
        let w = self.words();
        let r = words32_as_bytes(w.as_slice());
        proof {
            lemma_image32_len(w@, r@);
        }
        r
    }
}

/// In the uniform buffer, entry `c`, `k` of the matrix (array `c`, place `k`
/// within it) lies `16 * c + 4 * k` bytes in, as four bytes in the buffer's
/// byte order.
pub proof fn lemma_uniform_layout(m: [[u32; 4]; 4], le: bool, c: int, k: int)
    requires
        0 <= c < 4,
        0 <= k < 4,
    ensures
        image32(matrix_words(m), le).subrange(16 * c + 4 * k, 16 * c + 4 * k + 4) == bytes32(
            m@[c]@[k],
            le,
        ),
{
    let w = matrix_words(m);
    assert(w[4 * c + k] == m@[c]@[k]);
    lemma_image32_word(w, le, 4 * c + k);
}

} // verus!
