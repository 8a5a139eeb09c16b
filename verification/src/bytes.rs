//! The byte image of a word stream, as the device reads it.

use vstd::prelude::*;

verus! {

/// Byte `i` of `word`, counting from the least significant.
pub open spec fn word_byte(word: u32, i: int) -> u8 {
    if i == 0 {
        (word % 0x100) as u8
    } else if i == 1 {
        (word / 0x100 % 0x100) as u8
    } else if i == 2 {
        (word / 0x1_0000 % 0x100) as u8
    } else {
        (word / 0x100_0000 % 0x100) as u8
    }
}

/// The bytes of `words` with the least significant byte of each word first.
pub open spec fn little_endian(words: Seq<u32>) -> Seq<u8> {
    Seq::new(words.len() * 4, |k: int| word_byte(words[k / 4], k % 4))
}

/// The bytes of `words` with the most significant byte of each word first.
pub open spec fn big_endian(words: Seq<u32>) -> Seq<u8> {
    Seq::new(words.len() * 4, |k: int| word_byte(words[k / 4], 3 - k % 4))
}

/// The bytes of `words` in the byte order of some machine.
pub open spec fn is_memory_image(words: Seq<u32>, bytes: Seq<u8>) -> bool {
    bytes == little_endian(words) || bytes == big_endian(words)
}

/// Copies the memory of `words` into a byte vector.
///
/// Trusted: `bytemuck::cast_slice` views the same memory as bytes, four per
/// word, so the result is the little-endian or the big-endian image of the
/// words, whichever the machine stores. From `u32` to `u8` the cast cannot
/// fail: the size divides and the alignment only drops.
#[verifier::external_body]
pub(crate) fn memory_image(words: &Vec<u32>) -> (bytes: Vec<u8>)
    ensures
        is_memory_image(words@, bytes@),
{
    bytemuck::cast_slice::<u32, u8>(words.as_slice()).to_vec()
}

} // verus!
