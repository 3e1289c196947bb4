//! Raw byte views of word arrays, as uploaded to the GPU.

use vstd::prelude::*;

verus! {

/// The four bytes that word `i` occupies in a byte view of a word array.
pub open spec fn word_bytes(bytes: Seq<u8>, i: int) -> Seq<u8> {
    bytes.subrange(4 * i, 4 * i + 4)
}

/// `bytes` holds the words `words` in byte form: four bytes per word, zero bytes
/// for a zero word, and the same bytes for two words exactly when they are equal.
pub open spec fn is_packed_buffer(bytes: Seq<u8>, words: Seq<u32>) -> bool {
    &&& bytes.len() == 4 * words.len()
    &&& forall|k: int|
        0 <= k < words.len() && words[k] == 0 ==> #[trigger] word_bytes(bytes, k) == seq![
            0u8,
            0u8,
            0u8,
            0u8,
        ]
    &&& forall|i: int, j: int|
        0 <= i < words.len() && 0 <= j < words.len() ==> (#[trigger] word_bytes(bytes, i)
            == #[trigger] word_bytes(bytes, j) <==> words[i] == words[j])
}

/// Relies on `bytemuck::cast_slice::<u32, u8>`: it reinterprets the words' memory
/// as bytes, four per word in the machine's byte order, and never fails for this
/// pair of types. So a zero word gives four zero bytes, and two words give the
/// same four bytes exactly when they are equal.
#[verifier::external_body]
pub(crate) fn words_as_bytes(words: &[u32]) -> (r: Vec<u8>)
    ensures
        is_packed_buffer(r@, words@),
{
    bytemuck::cast_slice::<u32, u8>(words).to_vec()
}

} // verus!
