//! Turning a program image (little-endian 16-bit words) into memory.

use vstd::prelude::*;

use crate::machine::State;

verus! {

/// Why a program image cannot be loaded.
#[derive(Clone, Copy, Debug, PartialEq, Eq, Structural)]
pub enum ImageError {
    /// The image has an odd number of bytes.
    UnalignedProgram,
}

/// Word `i` of the image: bytes `2i` (low) and `2i + 1` (high).
pub open spec fn word_at(bytes: Seq<u8>, i: int) -> u16 {
    (bytes[2 * i] + 256 * bytes[2 * i + 1]) as u16
}

/// The words of an image of even length, in order.
pub open spec fn image_words(bytes: Seq<u8>) -> Seq<u16> {
    Seq::new(bytes.len() / 2, |i: int| word_at(bytes, i))
}

/// Pairs the bytes of an image into words; an odd length is refused.
pub fn words_from_image(bytes: &[u8]) -> (r: Result<Vec<u16>, ImageError>)
    ensures
        bytes@.len() % 2 == 1 ==> r == Err::<Vec<u16>, ImageError>(ImageError::UnalignedProgram),
        bytes@.len() % 2 == 0 ==> r is Ok && r->Ok_0@ == image_words(bytes@),
{
    let len = bytes.len();
    if len % 2 == 1 {
        return Err(ImageError::UnalignedProgram);
    }
    let mut words: Vec<u16> = Vec::new();
    let mut i: usize = 0;
    while i < len / 2
        invariant
            len == bytes@.len(),
            len % 2 == 0,
            i <= len / 2,
            words@ == image_words(bytes@).subrange(0, i as int),
        decreases len / 2 - i,
    {
        let lo = bytes[2 * i] as u16;
        let hi = bytes[2 * i + 1] as u16;
        words.push(lo + 256 * hi);
        i = i + 1;
        assert(words@ =~= image_words(bytes@).subrange(0, i as int));
    }
    assert(words@ =~= image_words(bytes@));
    Ok(words)
}

/// A machine loaded with the image `bytes`, ready to run from address 0;
/// an odd length is refused before anything runs.
pub fn load_image(bytes: &[u8]) -> (r: Result<State, ImageError>)
    ensures
        bytes@.len() % 2 == 1 ==> r == Err::<State, ImageError>(ImageError::UnalignedProgram),
        bytes@.len() % 2 == 0 ==> r is Ok && ({
            let s = r->Ok_0@;
            &&& s.memory == image_words(bytes@)
            &&& s.registers == Seq::new(8, |i: int| 0u16)
            &&& s.stack == Seq::<u16>::empty()
            &&& s.ip == 0
        }),
{
    match words_from_image(bytes) {
        Err(e) => Err(e),
        Ok(words) => Ok(State::new_from_program(words.as_slice())),
    }
}

} // verus!
