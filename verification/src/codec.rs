//! Little-endian encoding of 32-bit word sequences.
//!
//! The GPU consumes every buffer of this engine — vertex positions,
//! triangle indices, the uniform matrix — as a flat little-endian byte
//! image of 32-bit words. This module fixes that layout once: a
//! specification of the byte image, executable encoders and decoders
//! proved against it, and the round-trip law that reading an image back
//! yields exactly the words that were written.

use vstd::bytes::lemma_auto_spec_u32_to_from_le_bytes;
use vstd::bytes::spec_u32_from_le_bytes;
use vstd::bytes::spec_u32_to_le_bytes;
use vstd::bytes::u32_from_le_bytes;
use vstd::bytes::u32_to_le_bytes;
use vstd::prelude::*;
use vstd::slice::slice_subrange;

verus! {

/// Little-endian byte image of a sequence of 32-bit words: each word
/// contributes its four bytes, least significant first, in word order.
pub open spec fn le_bytes_of_words(ws: Seq<u32>) -> Seq<u8>
    decreases ws.len(),
{
    if ws.len() == 0 {
        Seq::empty()
    } else {
        spec_u32_to_le_bytes(ws[0]) + le_bytes_of_words(ws.drop_first())
    }
}

/// Words read back from a little-endian byte image, four bytes each.
pub open spec fn words_of_le_bytes(bs: Seq<u8>) -> Seq<u32>
    recommends
        bs.len() % 4 == 0,
    decreases bs.len(),
{
    if bs.len() < 4 {
        Seq::empty()
    } else {
        seq![spec_u32_from_le_bytes(bs.take(4))] + words_of_le_bytes(bs.skip(4))
    }
}

/// The byte image of a word sequence holds four bytes per word.
pub proof fn lemma_le_bytes_of_words_len(ws: Seq<u32>)
    ensures
        le_bytes_of_words(ws).len() == 4 * ws.len(),
    decreases ws.len(),
{
    lemma_auto_spec_u32_to_from_le_bytes();
    if ws.len() != 0 {
        lemma_le_bytes_of_words_len(ws.drop_first());
    }
}

/// Round trip: decoding the byte image of any word sequence yields that
/// sequence again, bit for bit. This is the law behind the uniform
/// write/read-back guarantee: what the engine serializes for the GPU is
/// exactly what a read-back of those bytes reconstructs.
pub proof fn lemma_words_le_round_trip(ws: Seq<u32>)
    ensures
        words_of_le_bytes(le_bytes_of_words(ws)) == ws,
    decreases ws.len(),
{
    lemma_auto_spec_u32_to_from_le_bytes();
    if ws.len() != 0 {
        let bs = le_bytes_of_words(ws);
        lemma_le_bytes_of_words_len(ws.drop_first());
        assert(bs.take(4) =~= spec_u32_to_le_bytes(ws[0]));
        assert(bs.skip(4) =~= le_bytes_of_words(ws.drop_first()));
        lemma_words_le_round_trip(ws.drop_first());
        assert(words_of_le_bytes(bs) =~= ws);
    }
}

/// Encodes a word vector into its little-endian byte image.
pub fn words_to_le_bytes(ws: &Vec<u32>) -> (bytes: Vec<u8>)
    ensures
        bytes@ == le_bytes_of_words(ws@),
        bytes@.len() == 4 * ws@.len(),
{
    let mut bytes: Vec<u8> = Vec::new();
    let mut i: usize = 0;
    proof {
        assert(ws@.skip(0) =~= ws@);
    }
    while i < ws.len()
        invariant
            i <= ws@.len(),
            bytes@.len() == 4 * i,
            le_bytes_of_words(ws@) == bytes@ + le_bytes_of_words(ws@.skip(i as int)),
        decreases ws@.len() - i,
    {
        let mut word_bytes = u32_to_le_bytes(ws[i]);
        proof {
            let rest = ws@.skip(i as int);
            assert(rest[0] == ws@[i as int]);
            assert(rest.drop_first() =~= ws@.skip(i as int + 1));
            assert(bytes@ + le_bytes_of_words(rest) =~= (bytes@ + word_bytes@)
                + le_bytes_of_words(ws@.skip(i as int + 1)));
        }
        bytes.append(&mut word_bytes);
        i = i + 1;
    }
    proof {
        assert(ws@.skip(ws@.len() as int) =~= Seq::<u32>::empty());
        assert(bytes@ + le_bytes_of_words(ws@.skip(ws@.len() as int)) =~= bytes@);
        lemma_le_bytes_of_words_len(ws@);
    }
    bytes
}

/// Decodes a little-endian byte image back into its words.
pub fn words_from_le_bytes(bytes: &[u8]) -> (ws: Vec<u32>)
    requires
        bytes@.len() % 4 == 0,
    ensures
        ws@ == words_of_le_bytes(bytes@),
        ws@.len() * 4 == bytes@.len(),
{
    let mut ws: Vec<u32> = Vec::new();
    let len: usize = bytes.len();
    let n: usize = len / 4;
    let mut j: usize = 0;
    proof {
        assert(bytes@.skip(0) =~= bytes@);
        assert(bytes@.len() % 4 == 0 ==> 4 * (bytes@.len() / 4) == bytes@.len())
            by (nonlinear_arith);
    }
    while j < n
        invariant
            j <= n,
            len == bytes@.len(),
            n == len / 4,
            4 * (n as int) == len as int,
            bytes@.len() % 4 == 0,
            ws@.len() == j,
            words_of_le_bytes(bytes@) == ws@ + words_of_le_bytes(bytes@.skip(4 * j as int)),
        decreases n - j,
    {
        let chunk = slice_subrange(bytes, 4 * j, 4 * j + 4);
        let w = u32_from_le_bytes(chunk);
        proof {
            let rest = bytes@.skip(4 * j as int);
            assert(rest.take(4) =~= bytes@.subrange(4 * j as int, 4 * j as int + 4));
            assert(rest.skip(4) =~= bytes@.skip(4 * (j as int + 1)));
            assert(ws@ + words_of_le_bytes(rest) =~= ws@.push(w)
                + words_of_le_bytes(bytes@.skip(4 * (j as int + 1))));
        }
        ws.push(w);
        j = j + 1;
    }
    proof {
        assert(bytes@.skip(4 * n as int) =~= Seq::<u8>::empty());
        assert(ws@ + words_of_le_bytes(bytes@.skip(4 * n as int)) =~= ws@);
    }
    ws
}

} // verus!
