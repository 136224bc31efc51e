//! Fingerprints of clipboard content.
//!
//! Content is remembered by a 64-bit hash rather than by a copy of the text.
//! Empty content never reaches the hasher and has no hash at all, so it cannot
//! be mistaken for content, whatever that content hashes to.

use std::collections::hash_map::DefaultHasher;
use std::hash::Hash;
use std::hash::Hasher;
use vstd::prelude::*;
use vstd::std_specs::hash::DefaultHasherAdditionalSpecFns;

verus! {

/// The writes that hashing a string slice makes on a hasher, as a function of
/// the slice's characters.
pub uninterp spec fn str_hash_writes(text: Seq<char>) -> Seq<Seq<u8>>;

/// Calls `<str as Hash>::hash` on a `DefaultHasher`.
///
/// Trusted: the call only appends writes to the hasher, and which writes it
/// appends depends on the text alone. Nothing is claimed about the bytes
/// themselves, which std keeps unspecified.
#[verifier::external_body]
fn hash_str_into(text: &str, state: &mut DefaultHasher)
    ensures
        final(state)@ == old(state)@ + str_hash_writes(text@),
{
    text.hash(state);
}

/// The hash of a text: what a fresh default hasher reports after the text has
/// been fed to it.
pub open spec fn content_hash(text: Seq<char>) -> u64 {
    DefaultHasher::spec_finish(str_hash_writes(text))
}

/// The fingerprint under which content is remembered: none for empty content,
/// the hash of the text otherwise.
pub open spec fn fingerprint(text: Seq<char>) -> Option<u64> {
    if text.len() == 0 {
        None
    } else {
        Some(content_hash(text))
    }
}

/// Hashes clipboard content with a freshly created default hasher.
pub fn get_clipboard_content_hash(clipboard_content: &str) -> (hash: u64)
    ensures
        hash == content_hash(clipboard_content@),
{
    let mut hasher = DefaultHasher::new();
    hash_str_into(clipboard_content, &mut hasher);
    assert(hasher@ =~= str_hash_writes(clipboard_content@));
    hasher.finish()
}

/// Computes the fingerprint of clipboard content, without hashing empty
/// content.
pub fn fingerprint_of(content: &str) -> (fp: Option<u64>)
    ensures
        fp == fingerprint(content@),
{
    if content.is_empty() {
        None
    } else {
        Some(get_clipboard_content_hash(content))
    }
}

} // verus!
