//! Turning a caption into printable words.
//!
//! Each absent element — a non-word sentinel — prints as the literal
//! `<unk>` placeholder; each vocabulary index prints as the vocabulary
//! word at that index. An index beyond the vocabulary has no word, so
//! the caller must hand over a vocabulary long enough for the caption.

use vstd::prelude::*;

verus! {

/// The words of a caption, in order: the vocabulary word for each
/// emitted index, the `<unk>` placeholder for each absent element.
pub fn caption_words<'a>(caption: &Vec<Option<usize>>, vocab: &'a Vec<String>) -> (r: Vec<
    &'a str,
>)
    requires
        forall|k: int|
            0 <= k < caption@.len() ==> (#[trigger] caption@[k] matches Some(i) ==> i
                < vocab@.len()),
    ensures
        r@.len() == caption@.len(),
        forall|k: int|
            0 <= k < caption@.len() ==> match caption@[k] {
                Some(i) => (#[trigger] r@[k])@ == vocab@[i as int]@,
                None => r@[k]@ == "<unk>"@,
            },
{
    let mut r: Vec<&'a str> = Vec::new();
    let mut k: usize = 0;
    while k < caption.len()
        invariant
            k <= caption@.len(),
            r@.len() == k,
            forall|j: int|
                0 <= j < caption@.len() ==> (#[trigger] caption@[j] matches Some(i) ==> i
                    < vocab@.len()),
            forall|j: int|
                0 <= j < k ==> match caption@[j] {
                    Some(i) => (#[trigger] r@[j])@ == vocab@[i as int]@,
                    None => r@[j]@ == "<unk>"@,
                },
        decreases caption@.len() - k,
    {
        match caption[k] {
            Some(i) => {
                r.push(vocab[i].as_str());
            },
            None => {
                r.push("<unk>");
            },
        }
        k = k + 1;
    }
    r
}

} // verus!
