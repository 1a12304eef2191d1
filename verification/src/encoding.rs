use vstd::prelude::*;

use vstd::bytes::{
    lemma_auto_spec_u32_to_from_le_bytes, spec_u32_from_le_bytes, spec_u32_to_le_bytes,
    u32_from_le_bytes, u32_to_le_bytes,
};
use vstd::slice::slice_subrange;

verus! {

/// The little-endian byte image of a sequence of 32-bit words, in order.
///
/// Matrix and index data live in the core as 32-bit words; this is the exact
/// byte layout in which they are handed to the queue for upload.
pub open spec fn words_to_bytes_spec(words: Seq<u32>) -> Seq<u8>
    decreases words.len(),
{
    if words.len() == 0 {
        Seq::empty()
    } else {
        words_to_bytes_spec(words.drop_last()) + spec_u32_to_le_bytes(words.last())
    }
}

/// The words read back from a little-endian byte image, four bytes apiece.
pub open spec fn bytes_to_words_spec(bytes: Seq<u8>) -> Seq<u32> {
    Seq::new((bytes.len() / 4) as nat, |i: int| spec_u32_from_le_bytes(bytes.subrange(4 * i, 4 * i + 4)))
}

pub proof fn lemma_words_to_bytes_len(words: Seq<u32>)
    ensures
        words_to_bytes_spec(words).len() == 4 * words.len(),
    decreases words.len(),
{
    lemma_auto_spec_u32_to_from_le_bytes();
    if words.len() > 0 {
        lemma_words_to_bytes_len(words.drop_last());
    }
}

proof fn lemma_words_to_bytes_take_succ(words: Seq<u32>, i: int)
    requires
        0 <= i < words.len(),
    ensures
        words_to_bytes_spec(words.take(i + 1))
            == words_to_bytes_spec(words.take(i)) + spec_u32_to_le_bytes(words[i]),
{
    assert(words.take(i + 1).drop_last() =~= words.take(i));
    assert(words.take(i + 1).last() == words[i]);
}

/// Each word's four bytes sit at their own offset in the byte image.
pub proof fn lemma_words_to_bytes_index(words: Seq<u32>, i: int)
    requires
        0 <= i < words.len(),
    ensures
        words_to_bytes_spec(words).subrange(4 * i, 4 * i + 4) == spec_u32_to_le_bytes(words[i]),
    decreases words.len(),
{
    lemma_auto_spec_u32_to_from_le_bytes();
    lemma_words_to_bytes_len(words);
    lemma_words_to_bytes_len(words.drop_last());
    if i == words.len() - 1 {
        assert(words_to_bytes_spec(words).subrange(4 * i, 4 * i + 4)
            =~= spec_u32_to_le_bytes(words[i]));
    } else {
        lemma_words_to_bytes_index(words.drop_last(), i);
        assert(words_to_bytes_spec(words).subrange(4 * i, 4 * i + 4)
            =~= words_to_bytes_spec(words.drop_last()).subrange(4 * i, 4 * i + 4));
    }
}

/// Serializing words to bytes and reading the same bytes back recovers the
/// words exactly, bit for bit.
pub proof fn lemma_words_bytes_round_trip(words: Seq<u32>)
    ensures
        bytes_to_words_spec(words_to_bytes_spec(words)) == words,
{
    lemma_auto_spec_u32_to_from_le_bytes();
    lemma_words_to_bytes_len(words);
    let recovered = bytes_to_words_spec(words_to_bytes_spec(words));
    assert forall|i: int| 0 <= i < words.len() implies recovered[i] == words[i] by {
        lemma_words_to_bytes_index(words, i);
        assert(spec_u32_to_le_bytes(words[i]).len() == 4);
        assert(spec_u32_from_le_bytes(spec_u32_to_le_bytes(words[i])) == words[i]);
    }
    assert(recovered =~= words);
}

/// Serializes 32-bit words into their little-endian byte image.
pub fn words_to_bytes(words: &Vec<u32>) -> (bytes: Vec<u8>)
    ensures
        bytes@ == words_to_bytes_spec(words@),
        bytes@.len() == 4 * words@.len(),
{
    let mut bytes: Vec<u8> = Vec::new();
    let mut i: usize = 0;
    proof {
        assert(words@.take(0) =~= Seq::<u32>::empty());
    }
    while i < words.len()
        invariant
            i <= words@.len(),
            bytes@ == words_to_bytes_spec(words@.take(i as int)),
        decreases words@.len() - i,
    {
        let b = u32_to_le_bytes(words[i]);
        bytes.push(b[0]);
        bytes.push(b[1]);
        bytes.push(b[2]);
        bytes.push(b[3]);
        proof {
            lemma_words_to_bytes_take_succ(words@, i as int);
            assert(bytes@ =~= words_to_bytes_spec(words@.take(i as int)) + b@);
        }
        i = i + 1;
    }
    proof {
        assert(words@.take(words@.len() as int) =~= words@);
        lemma_words_to_bytes_len(words@);
    }
    bytes
}

/// Reads 32-bit words back out of a little-endian byte image.
pub fn bytes_to_words(bytes: &Vec<u8>) -> (words: Vec<u32>)
    requires
        bytes@.len() % 4 == 0,
    ensures
        words@ == bytes_to_words_spec(bytes@),
{
    let total = bytes.len();
    let n = total / 4;
    let mut words: Vec<u32> = Vec::new();
    let mut i: usize = 0;
    while i < n
        invariant
            i <= n,
            total == bytes@.len(),
            n == bytes@.len() / 4,
            bytes@.len() % 4 == 0,
            words@.len() == i,
            forall|j: int| 0 <= j < i ==> words@[j] == bytes_to_words_spec(bytes@)[j],
        decreases n - i,
    {
        proof {
            assert(4 * (bytes@.len() / 4) == bytes@.len());
            assert(4 * (i as int) + 4 <= bytes@.len());
        }
        let four = slice_subrange(bytes.as_slice(), 4 * i, 4 * i + 4);
        let w = u32_from_le_bytes(four);
        words.push(w);
        i = i + 1;
    }
    proof {
        assert(words@ =~= bytes_to_words_spec(bytes@));
    }
    words
}

} // verus!
