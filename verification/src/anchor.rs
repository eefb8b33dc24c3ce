//! Anchors: deterministic rendezvous addresses.
//!
//! An anchor is a well-known location every peer can derive on its own, by
//! hashing a fixed name; links hung off an anchor make records discoverable
//! without any directory service.  The digest must agree bit-for-bit with
//! the one the hosting runtime computes, so it is taken from the same
//! hash-path implementation (hdi / holo_hash) behind trusted wrappers.

use vstd::prelude::*;

use crate::hash::EntryHash;

verus! {

/// The entry hash of the hash-path named by a string.
///
/// A pure function of the name alone: every peer, in every process, derives
/// the same address from the same name.
pub uninterp spec fn path_digest(name: Seq<char>) -> Seq<u8>;

/// The entry hash of the two-level anchor path (type, then text).
///
/// A pure function of the two strings alone, as [`path_digest`] is of one.
pub uninterp spec fn anchor_digest(anchor_type: Seq<char>, anchor_text: Seq<char>) -> Seq<u8>;

/// Relies on hdi's `Path::from(&str)` and `Path::path_entry_hash`: the
/// entry hash of the hash-path named by `name`, a deterministic digest of
/// the name alone (serialising a path cannot fail, and hashing panics only
/// on content far above the length admitted here).
#[verifier::external_body]
fn path_entry_hash_bytes(name: &str) -> (r: [u8; 39])
    requires
        name@.len() <= 1000000,
    ensures
        r@ == path_digest(name@),
{
    let hash = hdi::hash_path::path::Path::from(name).path_entry_hash().unwrap();
    let mut bytes = [0u8; 39];
    bytes.copy_from_slice(hash.get_raw_39());
    bytes
}

/// Relies on hdi's `Anchor` to `Path` conversion and `path_entry_hash`:
/// the entry hash of the anchor path for (type, text), a deterministic
/// digest of the two strings alone.
#[verifier::external_body]
fn anchor_entry_hash_bytes(anchor_type: &str, anchor_text: &str) -> (r: [u8; 39])
    requires
        anchor_type@.len() <= 1000000,
        anchor_text@.len() <= 1000000,
    ensures
        r@ == anchor_digest(anchor_type@, anchor_text@),
{
    let anchor = hdi::hash_path::anchor::Anchor::new(
        anchor_type.to_string(),
        Some(anchor_text.to_string()),
    );
    let path = hdi::hash_path::path::Path::from(&anchor);
    let hash = path.path_entry_hash().unwrap();
    let mut bytes = [0u8; 39];
    bytes.copy_from_slice(hash.get_raw_39());
    bytes
}

/// The anchor address for a well-known name.
///
/// Deterministic: two peers computing it for the same name always agree,
/// across processes and machines.
pub fn anchor_hash(name: &str) -> (r: EntryHash)
    requires
        name@.len() <= 1000000,
    ensures
        r@ == path_digest(name@),
{
    EntryHash { bytes: path_entry_hash_bytes(name) }
}

/// The anchor address for a typed two-level anchor (type, then text).
///
/// Deterministic in the same way as [`anchor_hash`].
pub fn typed_anchor_hash(anchor_type: &str, anchor_text: &str) -> (r: EntryHash)
    requires
        anchor_type@.len() <= 1000000,
        anchor_text@.len() <= 1000000,
    ensures
        r@ == anchor_digest(anchor_type@, anchor_text@),
{
    EntryHash { bytes: anchor_entry_hash_bytes(anchor_type, anchor_text) }
}

/// Law: anchor hashing is idempotent.  Any two addresses derived from the
/// same name — in this process or another — are the same address.
pub proof fn lemma_anchor_hash_deterministic(name: Seq<char>, a: Seq<u8>, b: Seq<u8>)
    requires
        a == path_digest(name),
        b == path_digest(name),
    ensures
        a == b,
{
}

} // verus!
