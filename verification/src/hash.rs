//! Addresses of the content-addressed store.
//!
//! Every addressable thing (an agent's public key, an entry, an action) is
//! identified by a fixed-width content hash of 39 bytes.  A link may point
//! at any of these, so [`AnyLinkableHash`] carries the kind of address next
//! to the raw bytes; the typed wrappers [`ActionHash`], [`EntryHash`] and
//! [`AgentPubKey`] fix the kind in the type.

use vstd::prelude::*;

verus! {

/// Which kind of addressable value a hash refers to.
#[derive(Clone, Copy, Debug, PartialEq, Eq, Structural)]
pub enum HashKind {
    Agent,
    Entry,
    Action,
    External,
}

/// An address that a link may point at: a hash of any kind.
#[derive(Clone, Copy, Debug)]
pub struct AnyLinkableHash {
    pub kind: HashKind,
    pub bytes: [u8; 39],
}

/// The address of an action.
#[derive(Clone, Copy, Debug)]
pub struct ActionHash {
    pub bytes: [u8; 39],
}

/// The address of an entry.
#[derive(Clone, Copy, Debug)]
pub struct EntryHash {
    pub bytes: [u8; 39],
}

/// An agent's identity: its public key, comparable across representations.
#[derive(Clone, Copy, Debug)]
pub struct AgentPubKey {
    pub bytes: [u8; 39],
}

impl View for ActionHash {
    type V = Seq<u8>;

    open spec fn view(&self) -> Seq<u8> {
        self.bytes@
    }
}

impl View for EntryHash {
    type V = Seq<u8>;

    open spec fn view(&self) -> Seq<u8> {
        self.bytes@
    }
}

impl View for AgentPubKey {
    type V = Seq<u8>;

    open spec fn view(&self) -> Seq<u8> {
        self.bytes@
    }
}

/// Byte-for-byte equality of two fixed-width hashes.
pub fn hash_bytes_eq(a: &[u8; 39], b: &[u8; 39]) -> (r: bool)
    ensures
        r == (a@ == b@),
{
    let mut i: usize = 0;
    while i < 39
        invariant
            0 <= i <= 39,
            forall|j: int| 0 <= j < i ==> a@[j] == b@[j],
        decreases 39 - i,
    {
        if a[i] != b[i] {
            assert(a@[i as int] != b@[i as int]);
            return false;
        }
        i += 1;
    }
    assert(a@ =~= b@);
    true
}

impl PartialEq for ActionHash {
    fn eq(&self, other: &ActionHash) -> bool {
        hash_bytes_eq(&self.bytes, &other.bytes)
    }
}

impl vstd::std_specs::cmp::PartialEqSpecImpl for ActionHash {
    open spec fn obeys_eq_spec() -> bool {
        true
    }

    open spec fn eq_spec(&self, other: &ActionHash) -> bool {
        self.bytes@ == other.bytes@
    }
}

impl PartialEq for EntryHash {
    fn eq(&self, other: &EntryHash) -> bool {
        hash_bytes_eq(&self.bytes, &other.bytes)
    }
}

impl vstd::std_specs::cmp::PartialEqSpecImpl for EntryHash {
    open spec fn obeys_eq_spec() -> bool {
        true
    }

    open spec fn eq_spec(&self, other: &EntryHash) -> bool {
        self.bytes@ == other.bytes@
    }
}

impl PartialEq for AgentPubKey {
    fn eq(&self, other: &AgentPubKey) -> bool {
        hash_bytes_eq(&self.bytes, &other.bytes)
    }
}

impl vstd::std_specs::cmp::PartialEqSpecImpl for AgentPubKey {
    open spec fn obeys_eq_spec() -> bool {
        true
    }

    open spec fn eq_spec(&self, other: &AgentPubKey) -> bool {
        self.bytes@ == other.bytes@
    }
}

impl PartialEq for AnyLinkableHash {
    fn eq(&self, other: &AnyLinkableHash) -> bool {
        self.kind == other.kind && hash_bytes_eq(&self.bytes, &other.bytes)
    }
}

impl vstd::std_specs::cmp::PartialEqSpecImpl for AnyLinkableHash {
    open spec fn obeys_eq_spec() -> bool {
        true
    }

    open spec fn eq_spec(&self, other: &AnyLinkableHash) -> bool {
        self.kind == other.kind && self.bytes@ == other.bytes@
    }
}

impl AnyLinkableHash {
    /// Whether this address refers to a value of the given kind and bytes.
    pub open spec fn spec_is(self, kind: HashKind, bytes: Seq<u8>) -> bool {
        self.kind == kind && self.bytes@ == bytes
    }

    /// The address as an action hash, if it is one.
    pub fn into_action_hash(&self) -> (r: Option<ActionHash>)
        ensures
            self.kind == HashKind::Action ==> r == Some(ActionHash { bytes: self.bytes }),
            self.kind != HashKind::Action ==> r is None,
    {
        match self.kind {
            HashKind::Action => Some(ActionHash { bytes: self.bytes }),
            _ => None,
        }
    }

    /// The address as an entry hash, if it is one.
    pub fn into_entry_hash(&self) -> (r: Option<EntryHash>)
        ensures
            self.kind == HashKind::Entry ==> r == Some(EntryHash { bytes: self.bytes }),
            self.kind != HashKind::Entry ==> r is None,
    {
        match self.kind {
            HashKind::Entry => Some(EntryHash { bytes: self.bytes }),
            _ => None,
        }
    }

    /// The address as an agent public key, if it is one.
    pub fn into_agent_pub_key(&self) -> (r: Option<AgentPubKey>)
        ensures
            self.kind == HashKind::Agent ==> r == Some(AgentPubKey { bytes: self.bytes }),
            self.kind != HashKind::Agent ==> r is None,
    {
        match self.kind {
            HashKind::Agent => Some(AgentPubKey { bytes: self.bytes }),
            _ => None,
        }
    }
}

impl ActionHash {
    /// This address, as a link target or base.
    pub fn to_linkable(&self) -> (r: AnyLinkableHash)
        ensures
            r == (AnyLinkableHash { kind: HashKind::Action, bytes: self.bytes }),
    {
        AnyLinkableHash { kind: HashKind::Action, bytes: self.bytes }
    }
}

impl EntryHash {
    /// This address, as a link target or base.
    pub fn to_linkable(&self) -> (r: AnyLinkableHash)
        ensures
            r == (AnyLinkableHash { kind: HashKind::Entry, bytes: self.bytes }),
    {
        AnyLinkableHash { kind: HashKind::Entry, bytes: self.bytes }
    }
}

impl AgentPubKey {
    /// This identity, as a link target or base.
    pub fn to_linkable(&self) -> (r: AnyLinkableHash)
        ensures
            r == (AnyLinkableHash { kind: HashKind::Agent, bytes: self.bytes }),
    {
        AnyLinkableHash { kind: HashKind::Agent, bytes: self.bytes }
    }
}

} // verus!
