//! Shader byte-code handling: turning a byte buffer read from disk
//! into the 32-bit words a shader module is created from.

use vstd::prelude::*;

verus! {

/// The 32-bit word stored little-endian as the four bytes `b0` (least
/// significant) through `b3` (most significant).
pub open spec fn le_word(b0: u8, b1: u8, b2: u8, b3: u8) -> u32 {
    (b0 + b1 * 0x100 + b2 * 0x1_0000 + b3 * 0x100_0000) as u32
}

/// Reassemble a byte buffer into little-endian 32-bit shader words.
/// Trailing bytes short of a whole word are dropped, as a byte-code
/// loader treats them.
pub fn spirv_words_from_bytes(bytes: &Vec<u8>) -> (words: Vec<u32>)
    ensures
        words@.len() == bytes@.len() / 4,
        forall|i: int|
            0 <= i < words@.len() ==> words@[i] == le_word(
                bytes@[4 * i],
                bytes@[4 * i + 1],
                bytes@[4 * i + 2],
                bytes@[4 * i + 3],
            ),
{
    let n = bytes.len();
    let usable = n / 4;
    proof {
        assert(4 * usable <= n);
    }
    let mut words: Vec<u32> = Vec::new();
    let mut i: usize = 0;
    while i < usable
        invariant
            n == bytes@.len(),
            usable == bytes@.len() / 4,
            4 * usable <= n,
            i <= usable,
            words@.len() == i,
            forall|j: int|
                0 <= j < i ==> words@[j] == le_word(
                    bytes@[4 * j],
                    bytes@[4 * j + 1],
                    bytes@[4 * j + 2],
                    bytes@[4 * j + 3],
                ),
        decreases usable - i,
    {
        let b0 = bytes[4 * i];
        let b1 = bytes[4 * i + 1];
        let b2 = bytes[4 * i + 2];
        let b3 = bytes[4 * i + 3];
        let word: u32 = b0 as u32 + b1 as u32 * 0x100 + b2 as u32 * 0x1_0000 + b3 as u32
            * 0x100_0000;
        words.push(word);
        i = i + 1;
    }
    words
}

} // verus!
