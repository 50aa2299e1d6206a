//! The 4×4 uniform matrix as the GPU sees it.
//!
//! The shader reads one 4×4 float matrix from the uniform buffer at bind
//! slot 0. This module holds such a matrix as the sixteen IEEE-754 bit
//! patterns of its entries, in column-major memory order — exactly the
//! 32-bit words whose little-endian byte image the buffer stores — and
//! proves the serialization into and out of that image exact, the safe
//! substitute for reinterpreting the matrix's memory byte by byte.

use crate::codec::le_bytes_of_words;
use crate::codec::words_from_le_bytes;
use crate::codec::words_of_le_bytes;
use crate::codec::words_to_le_bytes;
use vstd::prelude::*;

verus! {

/// IEEE-754 bit pattern of the 32-bit float 1.0.
pub const FLOAT_ONE_BITS: u32 = 0x3F80_0000;

/// Number of 32-bit words in a 4×4 matrix.
pub const MAT4_WORDS: usize = 16;

/// Size in bytes of the uniform buffer holding one 4×4 matrix.
pub const MAT4_BYTES: usize = 64;

/// Word image of the identity matrix: 1.0 on the diagonal — entries 0,
/// 5, 10 and 15 in column-major order — and 0.0 elsewhere.
pub open spec fn identity_words() -> Seq<u32> {
    seq![
        FLOAT_ONE_BITS,
        0u32,
        0u32,
        0u32,
        0u32,
        FLOAT_ONE_BITS,
        0u32,
        0u32,
        0u32,
        0u32,
        FLOAT_ONE_BITS,
        0u32,
        0u32,
        0u32,
        0u32,
        FLOAT_ONE_BITS,
    ]
}

/// A 4×4 transform matrix held as the bit patterns of its sixteen
/// entries, in column-major memory order.
pub struct Mat4Words {
    words: Vec<u32>,
}

impl View for Mat4Words {
    type V = Seq<u32>;

    closed spec fn view(&self) -> Seq<u32> {
        self.words@
    }
}

impl Mat4Words {
    /// A matrix is well formed when it holds exactly sixteen entries.
    pub open spec fn wf(&self) -> bool {
        self@.len() == MAT4_WORDS
    }

    /// Wraps sixteen entry bit patterns, column-major, as a matrix.
    pub fn from_words(words: Vec<u32>) -> (m: Mat4Words)
        requires
            words@.len() == MAT4_WORDS,
        ensures
            m@ == words@,
            m.wf(),
    {
        Mat4Words { words }
    }

    /// The identity matrix, the initial contents of the uniform buffer.
    pub fn identity() -> (m: Mat4Words)
        ensures
            m@ == identity_words(),
            m.wf(),
    {
        let mut words: Vec<u32> = Vec::new();
        let mut i: usize = 0;
        while i < 16
            invariant
                i <= 16,
                words@.len() == i,
                forall|k: int| 0 <= k < i ==> words@[k] == identity_words()[k],
            decreases 16 - i,
        {
            if i % 5 == 0 {
                words.push(FLOAT_ONE_BITS);
            } else {
                words.push(0);
            }
            i = i + 1;
        }
        proof {
            assert(words@ =~= identity_words());
        }
        Mat4Words { words }
    }

    /// One entry's bit pattern, by column-major position.
    pub fn word(&self, i: usize) -> (w: u32)
        requires
            self.wf(),
            i < MAT4_WORDS,
        ensures
            w == self@[i as int],
    {
        self.words[i]
    }

    /// The entry bit patterns, column-major.
    pub fn words(&self) -> (ws: &Vec<u32>)
        ensures
            ws@ == self@,
    {
        &self.words
    }

    /// Serializes the matrix into the little-endian byte image the
    /// uniform buffer stores.
    pub fn to_le_bytes(&self) -> (bytes: Vec<u8>)
        requires
            self.wf(),
        ensures
            bytes@ == le_bytes_of_words(self@),
            bytes@.len() == MAT4_BYTES,
    {
        words_to_le_bytes(&self.words)
    }

    /// Reconstructs a matrix from the byte image of a uniform buffer,
    /// as a read-back copy hands it over.
    pub fn from_le_bytes(bytes: &[u8]) -> (m: Mat4Words)
        requires
            bytes@.len() == MAT4_BYTES,
        ensures
            m@ == words_of_le_bytes(bytes@),
            m.wf(),
    {
        Mat4Words { words: words_from_le_bytes(bytes) }
    }
}

} // verus!
