//! The shipped stand-ins for the two collaborators of the gateway: a chain
//! lookup that recognises transaction identifiers by their prefix, and a hash
//! validator that recognises transcript hashes by theirs.

use vstd::prelude::*;

verus! {

/// Whether `prefix` is a prefix of `text`.
pub open spec fn has_prefix(text: Seq<char>, prefix: Seq<char>) -> bool {
    prefix.len() <= text.len() && text.subrange(0, prefix.len() as int) == prefix
}

/// The prefix by which the stand-in chain lookup recognises a transaction.
pub open spec fn chain_marker() -> Seq<char> {
    seq!['0', 'x']
}

/// The prefix by which the stand-in validator recognises a transcript hash.
pub open spec fn hash_marker() -> Seq<char> {
    seq!['a', 'b', 'c']
}

/// What the stand-in chain lookup answers for a transaction identifier.
pub open spec fn tx_on_chain(tx_hash: Seq<char>) -> bool {
    has_prefix(tx_hash, chain_marker())
}

/// What the stand-in validator answers for a transcript hash.
pub open spec fn transcript_hash_valid(transcript_hash: Seq<char>) -> bool {
    has_prefix(transcript_hash, hash_marker())
}

/// Tells whether `text` begins with `prefix`, character by character.
pub fn starts_with(text: &str, prefix: &str) -> (found: bool)
    ensures
        found == has_prefix(text@, prefix@),
{
    let wanted: usize = prefix.unicode_len();
    let given: usize = text.unicode_len();
    if given < wanted {
        return false;
    }
    let mut at: usize = 0;
    while at < wanted
        invariant
            at <= wanted,
            wanted == prefix@.len(),
            given == text@.len(),
            wanted <= given,
            forall|k: int| 0 <= k < at ==> text@[k] == prefix@[k],
        decreases wanted - at,
    {
        if text.get_char(at) != prefix.get_char(at) {
            assert(text@.subrange(0, wanted as int)[at as int] != prefix@[at as int]);
            return false;
        }
        at += 1;
    }
    assert(text@.subrange(0, wanted as int) =~= prefix@);
    true
}

/// The stand-in chain lookup: a transaction counts as present on the chain
/// exactly when its identifier begins with `0x`. Empty and malformed
/// identifiers are ordinary misses.
pub fn check_tx_on_chain(tx_hash: &str) -> (found: bool)
    ensures
        found == tx_on_chain(tx_hash@),
{
    proof {
        reveal_strlit("0x");
        assert("0x"@ =~= chain_marker());
    }
    starts_with(tx_hash, "0x")
}

/// The stand-in hash validator: a transcript hash counts as valid exactly
/// when it begins with `abc`. Empty and malformed hashes are ordinary misses.
pub fn verify_transcript_hash(transcript_hash: &str) -> (valid: bool)
    ensures
        valid == transcript_hash_valid(transcript_hash@),
{
    proof {
        reveal_strlit("abc");
        assert("abc"@ =~= hash_marker());
    }
    starts_with(transcript_hash, "abc")
}

} // verus!
