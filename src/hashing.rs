use vstd::prelude::*;

verus! {

/// The 64-bit digest of a sequence of words, as computed by std's unkeyed `DefaultHasher`.
pub uninterp spec fn words_hash(words: Seq<u64>) -> u64;

/// Relies on `BuildHasher::hash_one` over `BuildHasherDefault<DefaultHasher>`: the hasher is
/// built without a random key, so the digest is a function of the words alone.
#[verifier::external_body]
pub(crate) fn hash_words(words: &Vec<u64>) -> (r: u64)
    ensures
        r == words_hash(words@),
{
    std::hash::BuildHasher::hash_one(
        &std::hash::BuildHasherDefault::<std::hash::DefaultHasher>::default(),
        words,
    )
}

} // verus!
