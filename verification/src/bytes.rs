//! The byte images of 32-bit words that go into GPU buffers.

use vstd::prelude::*;

verus! {

/// Byte `k` of `word`, counted from the least significant one.
pub open spec fn byte_of(word: u32, k: int) -> u8 {
    if k == 0 {
        (word % 0x100) as u8
    } else if k == 1 {
        (word / 0x100 % 0x100) as u8
    } else if k == 2 {
        (word / 0x1_0000 % 0x100) as u8
    } else {
        (word / 0x100_0000 % 0x100) as u8
    }
}

/// The words laid out one after the other, least significant byte first.
pub open spec fn little_endian(words: Seq<u32>) -> Seq<u8> {
    Seq::new(4 * words.len(), |i: int| byte_of(words[i / 4], i % 4))
}

/// The words laid out one after the other, most significant byte first.
pub open spec fn big_endian(words: Seq<u32>) -> Seq<u8> {
    Seq::new(4 * words.len(), |i: int| byte_of(words[i / 4], 3 - i % 4))
}

/// Whether `bytes` is what `words` look like in the memory of some machine:
/// four bytes per word, in the machine's byte order.
pub open spec fn is_memory_image(bytes: Seq<u8>, words: Seq<u32>) -> bool {
    bytes == little_endian(words) || bytes == big_endian(words)
}

/// The memory image of `words`, by `bytemuck::cast_slice` from `u32` to `u8`.
///
/// Assumed of `cast_slice`: it reinterprets the slice in place, so the result
/// has four bytes per word, in the order of the words, each word in the byte
/// order of the machine; a cast to `u8` never fails on alignment or size.
#[verifier::external_body]
pub(crate) fn memory_image(words: &Vec<u32>) -> (bytes: Vec<u8>)
    ensures
        is_memory_image(bytes@, words@),
{
    bytemuck::cast_slice::<u32, u8>(words.as_slice()).to_vec()
}

} // verus!
