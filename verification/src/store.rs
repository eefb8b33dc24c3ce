//! A queryable view of the distributed, append-only store.
//!
//! The real store is an outside collaborator reached over the network; this
//! module models exactly the query surface the rest of the crate relies on:
//! records addressed by action or entry hash, and typed links between
//! addresses.  Nothing is ever mutated in place — a write appends a record
//! or a link, and "deleting" a link only removes it from the live link set
//! while its create-action record remains.

use vstd::prelude::*;

use crate::entries::EntryTypes;
use crate::hash::{ActionHash, AgentPubKey, AnyLinkableHash, EntryHash, HashKind};

verus! {

/// The declared type of the entry an action writes.
#[derive(Clone, Copy, Debug, PartialEq, Eq, Structural)]
pub struct AppEntryDef {
    /// Which integrity zome of the network defines the entry type.
    pub zome_index: u8,
    /// Position of the entry type in that zome's entry-type table.
    pub entry_index: u8,
    /// Whether the entry's bytes are published, or only its hash.
    pub public: bool,
}

/// What kind of entry an action points at.
#[derive(Clone, Copy, Debug, PartialEq, Eq, Structural)]
pub enum EntryType {
    App(AppEntryDef),
    AgentPubKey,
    CapClaim,
    CapGrant,
}

impl EntryType {
    /// Whether entries of this type are published with their bytes.
    pub open spec fn spec_is_public(self) -> bool {
        match self {
            EntryType::App(def) => def.public,
            EntryType::AgentPubKey => true,
            EntryType::CapClaim => false,
            EntryType::CapGrant => false,
        }
    }

    /// Whether entries of this type are published with their bytes.
    pub fn is_public(&self) -> (r: bool)
        ensures
            r == self.spec_is_public(),
    {
        match self {
            EntryType::App(def) => def.public,
            EntryType::AgentPubKey => true,
            EntryType::CapClaim => false,
            EntryType::CapGrant => false,
        }
    }
}

/// An action that writes a new entry.
#[derive(Clone, Copy, Debug)]
pub struct Create {
    pub author: AgentPubKey,
    pub timestamp: i64,
    pub prev_action: ActionHash,
    pub entry_type: EntryType,
    pub entry_hash: EntryHash,
}

/// An action that writes a new entry superseding an earlier one.
#[derive(Clone, Copy, Debug)]
pub struct Update {
    pub author: AgentPubKey,
    pub timestamp: i64,
    pub prev_action: ActionHash,
    pub original_action_address: ActionHash,
    pub entry_type: EntryType,
    pub entry_hash: EntryHash,
}

/// An action that marks an earlier entry-creating action as deleted.
#[derive(Clone, Copy, Debug)]
pub struct Delete {
    pub author: AgentPubKey,
    pub timestamp: i64,
    pub prev_action: ActionHash,
    pub deletes_address: ActionHash,
}

/// An action that creates a typed link between two addresses.
#[derive(Debug)]
pub struct CreateLink {
    pub author: AgentPubKey,
    pub timestamp: i64,
    pub prev_action: ActionHash,
    pub base_address: AnyLinkableHash,
    pub target_address: AnyLinkableHash,
    pub zome_index: u8,
    pub link_type: u8,
    pub tag: Vec<u8>,
}

/// An action that marks an earlier link-creating action as deleted.
#[derive(Clone, Copy, Debug)]
pub struct DeleteLink {
    pub author: AgentPubKey,
    pub timestamp: i64,
    pub prev_action: ActionHash,
    pub base_address: AnyLinkableHash,
    pub link_add_address: ActionHash,
}

/// The action preceding an agent's key registration in its own chain.
#[derive(Debug)]
pub struct AgentValidationPkg {
    pub author: AgentPubKey,
    pub timestamp: i64,
    pub prev_action: ActionHash,
    pub membrane_proof: Option<Vec<u8>>,
}

/// Any other chain action (chain open or close, genesis, and the like).
#[derive(Clone, Copy, Debug)]
pub struct OtherAction {
    pub author: AgentPubKey,
    pub timestamp: i64,
    pub prev_action: ActionHash,
}

/// An immutable, authored, timestamped record of one state-change intent.
#[derive(Debug)]
pub enum Action {
    Create(Create),
    Update(Update),
    Delete(Delete),
    CreateLink(CreateLink),
    DeleteLink(DeleteLink),
    AgentValidationPkg(AgentValidationPkg),
    Other(OtherAction),
}

impl Action {
    /// The self-reported wall-clock time of the action.
    pub open spec fn spec_timestamp(self) -> i64 {
        match self {
            Action::Create(a) => a.timestamp,
            Action::Update(a) => a.timestamp,
            Action::Delete(a) => a.timestamp,
            Action::CreateLink(a) => a.timestamp,
            Action::DeleteLink(a) => a.timestamp,
            Action::AgentValidationPkg(a) => a.timestamp,
            Action::Other(a) => a.timestamp,
        }
    }

    /// The self-reported wall-clock time of the action.
    pub fn timestamp(&self) -> (r: i64)
        ensures
            r == self.spec_timestamp(),
    {
        match self {
            Action::Create(a) => a.timestamp,
            Action::Update(a) => a.timestamp,
            Action::Delete(a) => a.timestamp,
            Action::CreateLink(a) => a.timestamp,
            Action::DeleteLink(a) => a.timestamp,
            Action::AgentValidationPkg(a) => a.timestamp,
            Action::Other(a) => a.timestamp,
        }
    }
}

/// An action that created an entry: a create, or an update.
#[derive(Debug)]
pub enum EntryCreationAction {
    Create(Create),
    Update(Update),
}

impl EntryCreationAction {
    /// The declared type of the entry the action wrote.
    pub open spec fn spec_entry_type(self) -> EntryType {
        match self {
            EntryCreationAction::Create(a) => a.entry_type,
            EntryCreationAction::Update(a) => a.entry_type,
        }
    }

    /// The declared type of the entry the action wrote.
    pub fn entry_type(&self) -> (r: EntryType)
        ensures
            r == self.spec_entry_type(),
    {
        match self {
            EntryCreationAction::Create(a) => a.entry_type,
            EntryCreationAction::Update(a) => a.entry_type,
        }
    }
}

/// The entry slot of a record, as visible to this peer.
#[derive(Debug)]
pub enum RecordEntry {
    /// An entry of this network's own union, with its decoded payload.
    Present(EntryTypes),
    /// An entry is stored, but it is not one this network's union decodes.
    PresentOther,
    /// No entry is visible (the action has none, or it is withheld).
    Absent,
}

/// What the store returns when an address is dereferenced: the action,
/// under its address, together with the entry it points at.
#[derive(Debug)]
pub struct Record {
    pub action_address: ActionHash,
    pub action: Action,
    pub entry: RecordEntry,
}

/// A live, typed, tagged edge from a base address to a target address.
#[derive(Debug)]
pub struct Link {
    pub target: AnyLinkableHash,
    pub author: AgentPubKey,
    pub timestamp: i64,
    pub tag: Vec<u8>,
    pub create_link_hash: ActionHash,
}

/// A link as the store indexes it: under its base and its scoped type.
#[derive(Debug)]
pub struct StoredLink {
    pub base: AnyLinkableHash,
    pub zome_index: u8,
    pub link_type: u8,
    pub link: Link,
}

/// Authorship and addressing of one new action, supplied by the writer.
///
/// The action hash is content-derived by the hosting runtime; two distinct
/// new actions never collide with an existing one.
#[derive(Clone, Copy, Debug)]
pub struct ActionStamp {
    pub author: AgentPubKey,
    pub timestamp: i64,
    pub action_hash: ActionHash,
    pub prev_action: ActionHash,
}

/// Everything this peer can currently see of the shared store.
#[derive(Debug)]
pub struct Store {
    pub records: Vec<Record>,
    pub links: Vec<StoredLink>,
}

/// Full detail for one address, as [`Store::get_details`] answers it.
pub enum Details<'a> {
    /// An action address: its record and the deletes recorded against it.
    Record { record: &'a Record, deletes: Vec<&'a Record> },
    /// An entry address: a record whose action wrote that entry.
    Entry { record: &'a Record },
}

/// Whether a record is fetchable under the given address.
pub open spec fn record_addressed(r: Record, kind: HashKind, addr: Seq<u8>) -> bool {
    match kind {
        HashKind::Action => r.action_address@ == addr,
        HashKind::Entry => match r.action {
            Action::Create(a) => a.entry_hash@ == addr,
            Action::Update(a) => a.entry_hash@ == addr,
            _ => false,
        },
        _ => false,
    }
}

/// The first record fetchable under the given address, if any.
pub open spec fn spec_find_record(records: Seq<Record>, kind: HashKind, addr: Seq<u8>) -> Option<
    Record,
>
    decreases records.len(),
{
    if records.len() == 0 {
        None
    } else if record_addressed(records.first(), kind, addr) {
        Some(records.first())
    } else {
        spec_find_record(records.drop_first(), kind, addr)
    }
}

/// Whether a stored link is selected by a base address and a scoped type.
pub open spec fn link_selected(
    sl: StoredLink,
    base_kind: HashKind,
    base_bytes: Seq<u8>,
    zome_index: u8,
    link_type: u8,
) -> bool {
    &&& sl.base.kind == base_kind
    &&& sl.base.bytes@ == base_bytes
    &&& sl.zome_index == zome_index
    &&& sl.link_type == link_type
}

/// The live links at a base with a given scoped type, in store order.
pub open spec fn spec_links_at(
    links: Seq<StoredLink>,
    base_kind: HashKind,
    base_bytes: Seq<u8>,
    zome_index: u8,
    link_type: u8,
) -> Seq<Link>
    decreases links.len(),
{
    if links.len() == 0 {
        Seq::empty()
    } else {
        let rest = spec_links_at(links.drop_last(), base_kind, base_bytes, zome_index, link_type);
        if link_selected(links.last(), base_kind, base_bytes, zome_index, link_type) {
            rest.push(links.last().link)
        } else {
            rest
        }
    }
}

/// The delete actions recorded against an action address, in store order.
pub open spec fn spec_deletes_of(records: Seq<Record>, original: Seq<u8>) -> Seq<Record>
    decreases records.len(),
{
    if records.len() == 0 {
        Seq::empty()
    } else {
        let rest = spec_deletes_of(records.drop_last(), original);
        if records.last().action matches Action::Delete(d) && d.deletes_address@ == original {
            rest.push(records.last())
        } else {
            rest
        }
    }
}

/// The links kept when the link created by `h` is deleted.
pub open spec fn spec_links_without(links: Seq<StoredLink>, h: Seq<u8>) -> Seq<StoredLink>
    decreases links.len(),
{
    if links.len() == 0 {
        Seq::empty()
    } else {
        let rest = spec_links_without(links.drop_last(), h);
        if links.last().link.create_link_hash@ == h {
            rest
        } else {
            rest.push(links.last())
        }
    }
}

/// The identities registered by a list of links: every link target that
/// parses as an agent key, malformed targets silently discarded.
pub open spec fn spec_agent_keys(ls: Seq<Link>) -> Seq<AgentPubKey>
    decreases ls.len(),
{
    if ls.len() == 0 {
        Seq::empty()
    } else {
        let rest = spec_agent_keys(ls.drop_last());
        if ls.last().target.kind == HashKind::Agent {
            rest.push(AgentPubKey { bytes: ls.last().target.bytes })
        } else {
            rest
        }
    }
}

/// No record is fetchable under an agent key or an external address: only
/// actions and entries are stored content.
pub proof fn lemma_find_record_unaddressable(records: Seq<Record>, kind: HashKind, addr: Seq<u8>)
    requires
        kind == HashKind::Agent || kind == HashKind::External,
    ensures
        spec_find_record(records, kind, addr) is None,
    decreases records.len(),
{
    if records.len() > 0 {
        lemma_find_record_unaddressable(records.drop_first(), kind, addr);
    }
}

impl Store {
    /// A store that has seen nothing yet.
    pub fn new() -> (r: Store)
        ensures
            r.records@ =~= Seq::<Record>::empty(),
            r.links@ =~= Seq::<StoredLink>::empty(),
    {
        Store { records: Vec::new(), links: Vec::new() }
    }

    /// The first record fetchable under `addr`, if any is visible yet.
    ///
    /// Absence is not an error: it distinguishes "not yet synced" from
    /// anything this peer can rule on.
    pub fn get(&self, addr: &AnyLinkableHash) -> (r: Option<&Record>)
        ensures
            match r {
                Some(rec) => spec_find_record(self.records@, addr.kind, addr.bytes@) == Some(*rec),
                None => spec_find_record(self.records@, addr.kind, addr.bytes@) is None,
            },
    {
        let n = self.records.len();
        let mut i: usize = 0;
        proof {
            assert(self.records@.skip(0) =~= self.records@);
        }
        while i < n
            invariant
                0 <= i <= n,
                n == self.records@.len(),
                spec_find_record(self.records@.skip(i as int), addr.kind, addr.bytes@)
                    == spec_find_record(self.records@, addr.kind, addr.bytes@),
            decreases n - i,
        {
            let rec = &self.records[i];
            let matched = match addr.kind {
                HashKind::Action => rec.action_address == ActionHash { bytes: addr.bytes },
                HashKind::Entry => match &rec.action {
                    Action::Create(a) => a.entry_hash == EntryHash { bytes: addr.bytes },
                    Action::Update(a) => a.entry_hash == EntryHash { bytes: addr.bytes },
                    _ => false,
                },
                _ => false,
            };
            proof {
                assert(self.records@.skip(i as int).first() == self.records@[i as int]);
            }
            if matched {
                assert(record_addressed(self.records@[i as int], addr.kind, addr.bytes@));
                return Some(rec);
            }
            assert(!record_addressed(self.records@[i as int], addr.kind, addr.bytes@));
            proof {
                assert(self.records@.skip(i as int).drop_first() =~= self.records@.skip(
                    i as int + 1,
                ));
            }
            i += 1;
        }
        proof {
            assert(self.records@.skip(n as int) =~= Seq::<Record>::empty());
        }
        None
    }

    /// The first record at an action address, if any is visible yet.
    pub fn get_record(&self, hash: &ActionHash) -> (r: Option<&Record>)
        ensures
            match r {
                Some(rec) => spec_find_record(self.records@, HashKind::Action, hash@) == Some(
                    *rec,
                ),
                None => spec_find_record(self.records@, HashKind::Action, hash@) is None,
            },
    {
        self.get(&AnyLinkableHash { kind: HashKind::Action, bytes: hash.bytes })
    }

    /// The live links from `base` with the given scoped type, in the order
    /// the store holds them.
    pub fn get_links(&self, base: &AnyLinkableHash, zome_index: u8, link_type: u8) -> (r: Vec<
        &Link,
    >)
        ensures
            r@.len() == spec_links_at(self.links@, base.kind, base.bytes@, zome_index, link_type).len(),
            forall|i: int|
                0 <= i < r@.len() ==> *r@[i] == spec_links_at(
                    self.links@,
                    base.kind,
                    base.bytes@,
                    zome_index,
                    link_type,
                )[i],
    {
        let n = self.links.len();
        let mut out: Vec<&Link> = Vec::new();
        let mut i: usize = 0;
        while i < n
            invariant
                0 <= i <= n,
                n == self.links@.len(),
                out@.len() == spec_links_at(
                    self.links@.take(i as int),
                    base.kind,
                    base.bytes@,
                    zome_index,
                    link_type,
                ).len(),
                forall|j: int|
                    0 <= j < out@.len() ==> *out@[j] == spec_links_at(
                        self.links@.take(i as int),
                        base.kind,
                        base.bytes@,
                        zome_index,
                        link_type,
                    )[j],
            decreases n - i,
        {
            let sl = &self.links[i];
            proof {
                assert(self.links@.take(i as int + 1).drop_last() =~= self.links@.take(i as int));
                assert(self.links@.take(i as int + 1).last() == self.links@[i as int]);
            }
            let same_base = sl.base == *base;
            if same_base && sl.zome_index == zome_index && sl.link_type == link_type {
                out.push(&sl.link);
            }
            i += 1;
        }
        proof {
            assert(self.links@.take(n as int) =~= self.links@);
        }
        out
    }

    /// The delete actions recorded against `original`, in store order.
    pub fn deletes_of(&self, original: &ActionHash) -> (r: Vec<&Record>)
        ensures
            r@.len() == spec_deletes_of(self.records@, original@).len(),
            forall|i: int|
                0 <= i < r@.len() ==> *r@[i] == spec_deletes_of(self.records@, original@)[i],
    {
        let n = self.records.len();
        let mut out: Vec<&Record> = Vec::new();
        let mut i: usize = 0;
        while i < n
            invariant
                0 <= i <= n,
                n == self.records@.len(),
                out@.len() == spec_deletes_of(self.records@.take(i as int), original@).len(),
                forall|j: int|
                    0 <= j < out@.len() ==> *out@[j] == spec_deletes_of(
                        self.records@.take(i as int),
                        original@,
                    )[j],
            decreases n - i,
        {
            let rec = &self.records[i];
            proof {
                assert(self.records@.take(i as int + 1).drop_last() =~= self.records@.take(
                    i as int,
                ));
                assert(self.records@.take(i as int + 1).last() == self.records@[i as int]);
            }
            let is_delete_of = match &rec.action {
                Action::Delete(d) => d.deletes_address == *original,
                _ => false,
            };
            if is_delete_of {
                out.push(rec);
            }
            i += 1;
        }
        proof {
            assert(self.records@.take(n as int) =~= self.records@);
        }
        out
    }

    /// Full detail for an address: the record, and for an action address
    /// also every delete action layered over it.
    pub fn get_details<'a>(&'a self, addr: &AnyLinkableHash) -> (r: Option<Details<'a>>)
        ensures
            match r {
                None => spec_find_record(self.records@, addr.kind, addr.bytes@) is None,
                Some(Details::Record { record, deletes }) => {
                    &&& addr.kind == HashKind::Action
                    &&& spec_find_record(self.records@, addr.kind, addr.bytes@) == Some(*record)
                    &&& deletes@.len() == spec_deletes_of(self.records@, addr.bytes@).len()
                    &&& forall|i: int|
                        0 <= i < deletes@.len() ==> *deletes@[i] == spec_deletes_of(
                            self.records@,
                            addr.bytes@,
                        )[i]
                },
                Some(Details::Entry { record }) => {
                    &&& addr.kind == HashKind::Entry
                    &&& spec_find_record(self.records@, addr.kind, addr.bytes@) == Some(*record)
                },
            },
    {
        let record = match self.get(addr) {
            Some(record) => record,
            None => {
                return None;
            },
        };
        match addr.kind {
            HashKind::Action => {
                let deletes = self.deletes_of(&ActionHash { bytes: addr.bytes });
                Some(Details::Record { record, deletes })
            },
            _ => {
                proof {
                    if addr.kind != HashKind::Entry {
                        lemma_find_record_unaddressable(self.records@, addr.kind, addr.bytes@);
                    }
                }
                Some(Details::Entry { record })
            },
        }
    }

    /// Append a freshly written record.
    pub fn push_record(&mut self, record: Record)
        ensures
            final(self).records@ == old(self).records@.push(record),
            final(self).links@ == old(self).links@,
    {
        self.records.push(record);
    }

    /// Write a typed, tagged link from `base` to `target`.
    ///
    /// The write appends the create-link action's record and indexes the
    /// live link under its base; it returns the new action's address.
    pub fn create_link(
        &mut self,
        stamp: ActionStamp,
        base: AnyLinkableHash,
        target: AnyLinkableHash,
        zome_index: u8,
        link_type: u8,
        tag: Vec<u8>,
    ) -> (r: ActionHash)
        ensures
            r == stamp.action_hash,
            final(self).links@ == old(self).links@.push(
                StoredLink {
                    base,
                    zome_index,
                    link_type,
                    link: Link {
                        target,
                        author: stamp.author,
                        timestamp: stamp.timestamp,
                        tag,
                        create_link_hash: stamp.action_hash,
                    },
                },
            ),
            final(self).records@.len() == old(self).records@.len() + 1,
            forall|i: int|
                0 <= i < old(self).records@.len() ==> final(self).records@[i] == old(self).records@[i],
            final(self).records@.last().action_address == stamp.action_hash,
            final(self).records@.last().entry is Absent,
            final(self).records@.last().action matches Action::CreateLink(cl) && {
                &&& cl.author == stamp.author
                &&& cl.timestamp == stamp.timestamp
                &&& cl.prev_action == stamp.prev_action
                &&& cl.base_address == base
                &&& cl.target_address == target
                &&& cl.zome_index == zome_index
                &&& cl.link_type == link_type
                &&& cl.tag@ == tag@
            },
    {
        let tag_copy = tag.clone();
        assert(tag_copy@ =~= tag@);
        let record = Record {
            action_address: stamp.action_hash,
            action: Action::CreateLink(
                CreateLink {
                    author: stamp.author,
                    timestamp: stamp.timestamp,
                    prev_action: stamp.prev_action,
                    base_address: base,
                    target_address: target,
                    zome_index,
                    link_type,
                    tag: tag_copy,
                },
            ),
            entry: RecordEntry::Absent,
        };
        self.records.push(record);
        self.links.push(
            StoredLink {
                base,
                zome_index,
                link_type,
                link: Link {
                    target,
                    author: stamp.author,
                    timestamp: stamp.timestamp,
                    tag,
                    create_link_hash: stamp.action_hash,
                },
            },
        );
        stamp.action_hash
    }

    /// Mark the link created by `create_link_hash` as deleted.
    ///
    /// The link leaves the live link set; the delete itself is recorded as
    /// a new action whose address is returned.
    pub fn delete_link(&mut self, stamp: ActionStamp, create_link_hash: &ActionHash) -> (r:
        ActionHash)
        ensures
            r == stamp.action_hash,
            final(self).links@ == spec_links_without(old(self).links@, create_link_hash@),
            final(self).records@.len() == old(self).records@.len() + 1,
            forall|i: int|
                0 <= i < old(self).records@.len() ==> final(self).records@[i] == old(self).records@[i],
            final(self).records@.last().action_address == stamp.action_hash,
            final(self).records@.last().entry is Absent,
            final(self).records@.last().action matches Action::DeleteLink(dl) && {
                &&& dl.author == stamp.author
                &&& dl.timestamp == stamp.timestamp
                &&& dl.prev_action == stamp.prev_action
                &&& dl.link_add_address == *create_link_hash
            },
    {
        let ghost orig = self.links@;
        let ghost orig_records = self.records@;
        let mut i: usize = 0;
        let ghost mut j: int = 0;
        while i < self.links.len()
            invariant
                0 <= j <= orig.len(),
                i == spec_links_without(orig.take(j), create_link_hash@).len(),
                self.links@ =~= spec_links_without(orig.take(j), create_link_hash@) + orig.skip(
                    j,
                ),
                self.records@ == orig_records,
            decreases orig.len() - j,
        {
            proof {
                assert(orig.take(j + 1).drop_last() =~= orig.take(j));
                assert(orig.take(j + 1).last() == orig[j]);
                assert(self.links@[i as int] == orig[j]);
            }
            let matched = self.links[i].link.create_link_hash == *create_link_hash;
            if matched {
                let ghost before = self.links@;
                let _ = self.links.remove(i);
                proof {
                    assert(self.links@ =~= spec_links_without(orig.take(j + 1), create_link_hash@)
                        + orig.skip(j + 1));
                }
            } else {
                proof {
                    assert(spec_links_without(orig.take(j + 1), create_link_hash@)
                        =~= spec_links_without(orig.take(j), create_link_hash@).push(orig[j]));
                    assert(self.links@ =~= spec_links_without(orig.take(j + 1), create_link_hash@)
                        + orig.skip(j + 1));
                }
                i += 1;
            }
            proof {
                j = j + 1;
            }
        }
        proof {
            assert(j == orig.len());
            assert(orig.take(j) =~= orig);
            assert(self.links@ =~= spec_links_without(orig, create_link_hash@));
        }
        let base = AnyLinkableHash { kind: HashKind::Action, bytes: create_link_hash.bytes };
        let record = Record {
            action_address: stamp.action_hash,
            action: Action::DeleteLink(
                DeleteLink {
                    author: stamp.author,
                    timestamp: stamp.timestamp,
                    prev_action: stamp.prev_action,
                    base_address: base,
                    link_add_address: *create_link_hash,
                },
            ),
            entry: RecordEntry::Absent,
        };
        self.records.push(record);
        stamp.action_hash
    }
}

} // verus!
