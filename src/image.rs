//! Turning a flat byte image into the initial contents of memory.
use crate::isa::{word_of, MEMORY_WORDS};
use vstd::prelude::*;

verus! {

/// Memory capacity in bytes: four bytes per word.
pub const MEMORY_BYTES: usize = 0x4_0000;

/// Why an image cannot be loaded.
#[derive(Clone, Copy, Debug, PartialEq, Eq, Structural)]
pub enum ImageError {
    /// The image holds more bytes than memory can.
    TooLarge { len: usize, capacity: usize },
}

/// Byte `k` of the image, or zero past its end.
pub open spec fn byte_or_zero(bytes: Seq<u8>, k: int) -> u8 {
    if 0 <= k < bytes.len() {
        bytes[k]
    } else {
        0
    }
}

/// Word `i` of memory after loading `bytes`: bytes `4i` to `4i + 3`,
/// least significant first, with zeros past the end of the image.
pub open spec fn image_word(bytes: Seq<u8>, i: int) -> u32 {
    word_of(
        byte_or_zero(bytes, 4 * i),
        byte_or_zero(bytes, 4 * i + 1),
        byte_or_zero(bytes, 4 * i + 2),
        byte_or_zero(bytes, 4 * i + 3),
    )
}

/// The full memory image that `bytes` loads into.
pub open spec fn image_memory(bytes: Seq<u8>) -> Seq<u32> {
    Seq::new(MEMORY_WORDS as nat, |i: int| image_word(bytes, i))
}

fn byte_at(bytes: &Vec<u8>, k: usize) -> (r: u8)
    ensures
        r == byte_or_zero(bytes@, k as int),
{
    if k < bytes.len() {
        bytes[k]
    } else {
        0
    }
}

/// Lays out `bytes` from address 0 as the initial memory, one word per
/// four bytes, with zeros after the image. An image longer than memory
/// is refused.
pub fn load_image(bytes: &Vec<u8>) -> (r: Result<Vec<u32>, ImageError>)
    ensures
        bytes@.len() > MEMORY_BYTES ==> r == Err::<Vec<u32>, ImageError>(
            ImageError::TooLarge { len: bytes@.len() as usize, capacity: MEMORY_BYTES },
        ),
        bytes@.len() <= MEMORY_BYTES ==> (r matches Ok(words) && words@ == image_memory(bytes@)),
{
    if bytes.len() > MEMORY_BYTES {
        return Err(ImageError::TooLarge { len: bytes.len(), capacity: MEMORY_BYTES });
    }
    let mut words: Vec<u32> = Vec::with_capacity(MEMORY_WORDS);
    let mut i: usize = 0;
    while i < MEMORY_WORDS
        invariant
            i <= MEMORY_WORDS,
            words@.len() == i,
            forall|j: int| 0 <= j < i ==> words@[j] == image_word(bytes@, j),
        decreases MEMORY_WORDS - i,
    {
        let b0 = byte_at(bytes, 4 * i);
        let b1 = byte_at(bytes, 4 * i + 1);
        let b2 = byte_at(bytes, 4 * i + 2);
        let b3 = byte_at(bytes, 4 * i + 3);
        let w: u32 = b0 as u32 + 0x100 * (b1 as u32) + 0x1_0000 * (b2 as u32) + 0x100_0000 * (
        b3 as u32);
        words.push(w);
        i = i + 1;
    }
    assert(words@ =~= image_memory(bytes@));
    Ok(words)
}

} // verus!
