//! Anchor addresses: determinism and agreement with the runtime's digests.

use presence_core::anchor::{anchor_hash, typed_anchor_hash};

#[test]
fn anchor_hash_idempotent() {
    let a = anchor_hash("ROOM_INFO");
    let b = anchor_hash("ROOM_INFO");
    assert_eq!(a.bytes, b.bytes);
}

#[test]
fn anchor_hash_depends_on_name() {
    let a = anchor_hash("ROOM_INFO");
    let b = anchor_hash("ALL_AGENTS");
    let c = anchor_hash("all_attachments");
    assert_ne!(a.bytes, b.bytes);
    assert_ne!(a.bytes, c.bytes);
    assert_ne!(b.bytes, c.bytes);
}

#[test]
fn anchor_hash_matches_runtime_path_digest() {
    let ours = anchor_hash("ROOM_INFO");
    let path = hdi::hash_path::path::Path::from("ROOM_INFO");
    let theirs = path.path_entry_hash().unwrap();
    assert_eq!(ours.bytes.as_slice(), theirs.get_raw_39());
}

#[test]
fn typed_anchor_hash_idempotent() {
    let a = typed_anchor_hash("ALL_AGENTS", "ALL_AGENTS");
    let b = typed_anchor_hash("ALL_AGENTS", "ALL_AGENTS");
    assert_eq!(a.bytes, b.bytes);
    let c = typed_anchor_hash("ALL_AGENTS", "OTHER");
    assert_ne!(a.bytes, c.bytes);
}

#[test]
fn typed_anchor_hash_matches_runtime_anchor_digest() {
    let ours = typed_anchor_hash("ALL_AGENTS", "ALL_AGENTS");
    let anchor = hdi::hash_path::anchor::Anchor::new(
        "ALL_AGENTS".to_string(),
        Some("ALL_AGENTS".to_string()),
    );
    let path = hdi::hash_path::path::Path::from(&anchor);
    let theirs = path.path_entry_hash().unwrap();
    assert_eq!(ours.bytes.as_slice(), theirs.get_raw_39());
}

#[test]
fn typed_anchor_differs_from_plain_path() {
    let plain = anchor_hash("ALL_AGENTS");
    let typed = typed_anchor_hash("ALL_AGENTS", "ALL_AGENTS");
    assert_ne!(plain.bytes, typed.bytes);
}
