//! Byte images of 32-bit words, as a GPU buffer receives them.

use vstd::prelude::*;

verus! {

/// Byte `k` of `w`, counted from the least significant one.
pub open spec fn word_byte(w: u32, k: int) -> u8 {
    if k == 0 {
        (w % 256) as u8
    } else if k == 1 {
        ((w / 256) % 256) as u8
    } else if k == 2 {
        ((w / 65536) % 256) as u8
    } else {
        ((w / 16777216) % 256) as u8
    }
}

/// The words laid out one after another, each least significant byte first.
pub open spec fn le_bytes(words: Seq<u32>) -> Seq<u8> {
    Seq::new(4 * words.len(), |i: int| word_byte(words[i / 4], i % 4))
}

/// The words laid out one after another, each most significant byte first.
pub open spec fn be_bytes(words: Seq<u32>) -> Seq<u8> {
    Seq::new(4 * words.len(), |i: int| word_byte(words[i / 4], 3 - i % 4))
}

/// `bytes` is what the words look like in the memory of some machine: every
/// word in little-endian order, or every word in big-endian order.
pub open spec fn is_memory_image(words: Seq<u32>, bytes: Seq<u8>) -> bool {
    bytes == le_bytes(words) || bytes == be_bytes(words)
}

/// A memory image holds four bytes for each word.
pub proof fn lemma_memory_image_len(words: Seq<u32>, bytes: Seq<u8>)
    requires
        is_memory_image(words, bytes),
    ensures
        bytes.len() == 4 * words.len(),
{
}

/// The bytes of a run of words are a memory image of that run: word `k`
/// lies at byte `4 * k`, whichever the byte order.
pub proof fn lemma_memory_image_of_part(words: Seq<u32>, bytes: Seq<u8>, from: int, to: int)
    requires
        is_memory_image(words, bytes),
        0 <= from <= to <= words.len(),
    ensures
        is_memory_image(words.subrange(from, to), bytes.subrange(4 * from, 4 * to)),
{
    let part = words.subrange(from, to);
    let part_bytes = bytes.subrange(4 * from, 4 * to);
    if bytes == le_bytes(words) {
        assert forall|j: int| 0 <= j < part_bytes.len() implies part_bytes[j] == le_bytes(
            part,
        )[j] by {
            assert((4 * from + j) / 4 == from + j / 4);
            assert((4 * from + j) % 4 == j % 4);
        }
        assert(part_bytes =~= le_bytes(part));
    } else {
        assert forall|j: int| 0 <= j < part_bytes.len() implies part_bytes[j] == be_bytes(
            part,
        )[j] by {
            assert((4 * from + j) / 4 == from + j / 4);
            assert((4 * from + j) % 4 == j % 4);
        }
        assert(part_bytes =~= be_bytes(part));
    }
}

/// Trusted: `bytemuck::cast_slice::<u32, u8>`, copied into a vector.
///
/// The cast reinterprets the words' memory as bytes.  A `u8` has alignment
/// one and size one, so the cast cannot fail, and the result has four bytes
/// for each word.  Which byte of a word comes first is the machine's choice;
/// the contract claims only that it is one of the two orders, the same for
/// every word of the call.
#[verifier::external_body]
pub(crate) fn cast_words(words: &Vec<u32>) -> (bytes: Vec<u8>)
    ensures
        is_memory_image(words@, bytes@),
{
    bytemuck::cast_slice::<u32, u8>(words.as_slice()).to_vec()
}

} // verus!
