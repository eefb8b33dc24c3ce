//! The room network's coordinator: mutation protocol and revision resolver.
//!
//! Mutations only ever append new facts — an entry's record, a link from an
//! anchor or from an original — and the "current value" of a logical record
//! is derived fresh on every read by folding over the visible update edges:
//! the link with the maximum timestamp wins, ties going to the later one in
//! store order.  A record that does not resolve yields absence, never an
//! error: "not yet synced" is a routine state.

use vstd::prelude::*;

use crate::anchor::{anchor_hash, path_digest};
use crate::entries::{DescendentRoom, EntryTypes, RoomInfo};
use crate::hash::{ActionHash, AgentPubKey, AnyLinkableHash, EntryHash, HashKind};
use crate::room_integrity::{LinkTypes, ROOM_ZOME_INDEX};
use crate::store::{record_addressed, spec_agent_keys, spec_find_record, spec_links_at, Action,
    ActionStamp, AppEntryDef, Create, EntryType, Link, Record, RecordEntry, Store, StoredLink};
use crate::verdict::ExternError;

verus! {

/// The name of the anchor where agents register themselves.
pub const ALL_AGENTS: &'static str = "ALL_AGENTS";

/// The name of the anchor where descendent rooms are registered.
pub const ALL_DESCENDENT_ROOMS: &'static str = "ALL_DESCENDENT_ROOMS";

// ---------------------------------------------------------------------
// Shared specification helpers.
// ---------------------------------------------------------------------

/// The live links of one of this zome's kinds at an anchor address.
pub open spec fn spec_anchor_links(store: Store, name: Seq<char>, link_type: LinkTypes) -> Seq<
    Link,
> {
    spec_links_at(
        store.links@,
        HashKind::Entry,
        path_digest(name),
        ROOM_ZOME_INDEX,
        link_type.spec_index(),
    )
}

/// The live update-links hanging off an original action address.
pub open spec fn spec_update_links(store: Store, original: ActionHash, link_type: LinkTypes) -> Seq<
    Link,
> {
    spec_links_at(
        store.links@,
        HashKind::Action,
        original@,
        ROOM_ZOME_INDEX,
        link_type.spec_index(),
    )
}

/// Index of the winning update-link: the one with the maximum timestamp,
/// a tie going to the later link in store order.
pub open spec fn spec_latest_link_index(ls: Seq<Link>) -> int
    decreases ls.len(),
{
    if ls.len() <= 1 {
        0
    } else {
        let rest = spec_latest_link_index(ls.drop_last());
        if ls.last().timestamp >= ls[rest].timestamp {
            ls.len() - 1
        } else {
            rest
        }
    }
}

/// Law: the winning update-link carries the maximum timestamp, and every
/// later link's timestamp is strictly below it (the winner is the last of
/// the maxima).
pub proof fn lemma_latest_link_index_max(ls: Seq<Link>)
    requires
        ls.len() > 0,
    ensures
        0 <= spec_latest_link_index(ls) < ls.len(),
        forall|j: int|
            0 <= j < ls.len() ==> #[trigger] ls[j].timestamp <= ls[spec_latest_link_index(
                ls,
            )].timestamp,
        forall|j: int|
            spec_latest_link_index(ls) < j < ls.len() ==> #[trigger] ls[j].timestamp < ls[
                spec_latest_link_index(ls)].timestamp,
    decreases ls.len(),
{
    if ls.len() > 1 {
        let prefix = ls.drop_last();
        let rest = spec_latest_link_index(prefix);
        lemma_latest_link_index_max(prefix);
        if ls.last().timestamp >= prefix[rest].timestamp {
            assert forall|j: int| 0 <= j < ls.len() implies #[trigger] ls[j].timestamp <= ls[
                spec_latest_link_index(ls)].timestamp by {
                if j < ls.len() - 1 {
                    assert(ls[j] == prefix[j]);
                    assert(prefix[j].timestamp <= prefix[rest].timestamp);
                }
            }
        } else {
            assert forall|j: int| 0 <= j < ls.len() implies #[trigger] ls[j].timestamp <= ls[
                spec_latest_link_index(ls)].timestamp by {
                if j < ls.len() - 1 {
                    assert(ls[j] == prefix[j]);
                    assert(prefix[j].timestamp <= prefix[rest].timestamp);
                }
            }
            assert forall|j: int|
                spec_latest_link_index(ls) < j < ls.len() implies #[trigger] ls[j].timestamp < ls[
                spec_latest_link_index(ls)].timestamp by {
                if j < ls.len() - 1 {
                    assert(ls[j] == prefix[j]);
                    assert(prefix[j].timestamp < prefix[rest].timestamp);
                }
            }
        }
    }
}

/// The winning update-link of a non-empty link list, as executable code
/// computes it.
fn latest_link_index(links: &Vec<&Link>, Ghost(model): Ghost<Seq<Link>>) -> (r: usize)
    requires
        links@.len() == model.len(),
        forall|i: int| 0 <= i < model.len() ==> *links@[i] == model[i],
        model.len() > 0,
    ensures
        r == spec_latest_link_index(model),
{
    let mut best: usize = 0;
    let mut i: usize = 1;
    proof {
        assert(model.take(1).drop_last() =~= model.take(0));
    }
    while i < links.len()
        invariant
            links@.len() == model.len(),
            forall|k: int| 0 <= k < model.len() ==> *links@[k] == model[k],
            1 <= i <= model.len(),
            best < i,
            best == spec_latest_link_index(model.take(i as int)),
        decreases model.len() - i,
    {
        proof {
            assert(model.take(i as int + 1).drop_last() =~= model.take(i as int));
            assert(model.take(i as int + 1).last() == model[i as int]);
        }
        if links[i].timestamp >= links[best].timestamp {
            best = i;
        }
        i += 1;
    }
    proof {
        assert(model.take(model.len() as int) =~= model);
    }
    best
}

/// The anchor address for a name, as a link base.
fn anchor_base(name: &str) -> (r: AnyLinkableHash)
    requires
        name@.len() <= 1000000,
    ensures
        r.kind == HashKind::Entry,
        r.bytes@ == path_digest(name@),
{
    let hash = anchor_hash(name);
    AnyLinkableHash { kind: HashKind::Entry, bytes: hash.bytes }
}

/// Whether a stored link is the one a write with this stamp leaves behind:
/// an empty-tagged link of the given scoped kind from `base` to `target`.
pub open spec fn spec_stamped_link(
    sl: StoredLink,
    base_kind: HashKind,
    base_bytes: Seq<u8>,
    link_type: LinkTypes,
    target: AnyLinkableHash,
    stamp: ActionStamp,
) -> bool {
    &&& sl.base.kind == base_kind
    &&& sl.base.bytes@ == base_bytes
    &&& sl.zome_index == ROOM_ZOME_INDEX
    &&& sl.link_type == link_type.spec_index()
    &&& sl.link.target == target
    &&& sl.link.author == stamp.author
    &&& sl.link.timestamp == stamp.timestamp
    &&& sl.link.tag@ == Seq::<u8>::empty()
    &&& sl.link.create_link_hash == stamp.action_hash
}

/// The record a create-entry write with this stamp leaves behind.
pub open spec fn spec_created_record(
    stamp: ActionStamp,
    entry_hash: EntryHash,
    entry_index: u8,
    payload: EntryTypes,
) -> Record {
    Record {
        action_address: stamp.action_hash,
        action: Action::Create(
            Create {
                author: stamp.author,
                timestamp: stamp.timestamp,
                prev_action: stamp.prev_action,
                entry_type: EntryType::App(
                    AppEntryDef { zome_index: ROOM_ZOME_INDEX, entry_index, public: true },
                ),
                entry_hash,
            },
        ),
        entry: RecordEntry::Present(payload),
    }
}

/// A fresh record found after being pushed onto a store that did not hold
/// its address yet.
pub proof fn lemma_find_record_push(records: Seq<Record>, r: Record, kind: HashKind, addr: Seq<u8>)
    requires
        spec_find_record(records, kind, addr) is None,
        record_addressed(r, kind, addr),
    ensures
        spec_find_record(records.push(r), kind, addr) == Some(r),
    decreases records.len(),
{
    if records.len() == 0 {
        assert(records.push(r).first() == r);
    } else {
        assert(records.push(r).drop_first() =~= records.drop_first().push(r));
        lemma_find_record_push(records.drop_first(), r, kind, addr);
    }
}

// ---------------------------------------------------------------------
// The agents anchor.
// ---------------------------------------------------------------------

/// Every agent registered at the agents anchor, in registration-index
/// order; a link whose target is not an agent key is dropped, never an
/// error.
pub fn get_all_agents(store: &Store) -> (r: Vec<AgentPubKey>)
    ensures
        r@ == spec_agent_keys(spec_anchor_links(*store, "ALL_AGENTS"@, LinkTypes::AllAgents)),
{
    proof {
        reveal_strlit("ALL_AGENTS");
    }
    let base = anchor_base("ALL_AGENTS");
    let links = store.get_links(&base, ROOM_ZOME_INDEX, LinkTypes::AllAgents.index());
    let ghost model = spec_anchor_links(*store, "ALL_AGENTS"@, LinkTypes::AllAgents);
    let mut out: Vec<AgentPubKey> = Vec::new();
    let n = links.len();
    let mut i: usize = 0;
    proof {
        assert(model.take(0) =~= Seq::<Link>::empty());
        assert(out@ =~= spec_agent_keys(model.take(0)));
    }
    while i < n
        invariant
            n == links@.len(),
            links@.len() == model.len(),
            forall|k: int| 0 <= k < model.len() ==> *links@[k] == model[k],
            0 <= i <= n,
            out@ == spec_agent_keys(model.take(i as int)),
        decreases n - i,
    {
        proof {
            assert(model.take(i as int + 1).drop_last() =~= model.take(i as int));
            assert(model.take(i as int + 1).last() == model[i as int]);
        }
        match links[i].target.into_agent_pub_key() {
            Some(key) => {
                out.push(key);
            },
            None => (),
        }
        i += 1;
    }
    proof {
        assert(model.take(n as int) =~= model);
    }
    out
}

/// Register the calling agent at the agents anchor, so that other peers
/// discover it; the link target is the caller's own key.
pub fn add_agent_to_anchor(store: &mut Store, stamp: ActionStamp) -> (r: Result<
    ActionHash,
    ExternError,
>)
    ensures
        r == Ok::<_, ExternError>(stamp.action_hash),
        final(store).links@.len() == old(store).links@.len() + 1,
        forall|i: int|
            0 <= i < old(store).links@.len() ==> final(store).links@[i] == old(store).links@[i],
        spec_stamped_link(
            final(store).links@.last(),
            HashKind::Entry,
            path_digest("ALL_AGENTS"@),
            LinkTypes::AllAgents,
            AnyLinkableHash { kind: HashKind::Agent, bytes: stamp.author.bytes },
            stamp,
        ),
        final(store).records@.len() == old(store).records@.len() + 1,
        forall|i: int|
            0 <= i < old(store).records@.len() ==> final(store).records@[i] == old(
                store,
            ).records@[i],
        final(store).records@.last().action is CreateLink,
{
    proof {
        reveal_strlit("ALL_AGENTS");
    }
    let base = anchor_base("ALL_AGENTS");
    let target = stamp.author.to_linkable();
    let hash = store.create_link(
        stamp,
        base,
        target,
        ROOM_ZOME_INDEX,
        LinkTypes::AllAgents.index(),
        Vec::new(),
    );
    Ok(hash)
}

// ---------------------------------------------------------------------
// The room info record.
// ---------------------------------------------------------------------

/// What resolving the current room info yields: nothing while no revision
/// link is visible; otherwise the record at the winning link's target.
pub open spec fn spec_get_room_info(store: Store) -> Result<Option<Record>, ExternError> {
    let ls = spec_anchor_links(store, "ROOM_INFO"@, LinkTypes::RoomInfoUpdates);
    if ls.len() == 0 {
        Ok(None)
    } else {
        let link = ls[spec_latest_link_index(ls)];
        if link.target.kind != HashKind::Action {
            Err(ExternError::LinkTargetNotActionHash)
        } else {
            Ok(spec_find_record(store.records@, HashKind::Action, link.target.bytes@))
        }
    }
}

/// The current room info: the record at the target of the newest revision
/// link at the room-info anchor.  `None` means this peer has not synced any
/// revision yet — a routine state, not an error.
pub fn get_room_info<'a>(store: &'a Store) -> (r: Result<Option<&'a Record>, ExternError>)
    ensures
        match r {
            Ok(Some(record)) => spec_get_room_info(*store) == Ok::<_, ExternError>(Some(*record)),
            Ok(None) => spec_get_room_info(*store) == Ok::<Option<Record>, ExternError>(None),
            Err(e) => spec_get_room_info(*store) == Err::<Option<Record>, ExternError>(e),
        },
{
    proof {
        reveal_strlit("ROOM_INFO");
    }
    let base = anchor_base("ROOM_INFO");
    let links = store.get_links(&base, ROOM_ZOME_INDEX, LinkTypes::RoomInfoUpdates.index());
    let ghost model = spec_anchor_links(*store, "ROOM_INFO"@, LinkTypes::RoomInfoUpdates);
    if links.len() == 0 {
        return Ok(None);
    }
    let best = latest_link_index(&links, Ghost(model));
    proof {
        lemma_latest_link_index_max(model);
    }
    let target = &links[best].target;
    let target_hash = match target.into_action_hash() {
        Some(hash) => hash,
        None => {
            return Err(ExternError::LinkTargetNotActionHash);
        },
    };
    Ok(store.get_record(&target_hash))
}

/// Write a new room info revision: its entry record, and a revision link
/// from the room-info anchor so every peer resolves it.
pub fn set_room_info(
    store: &mut Store,
    entry_stamp: ActionStamp,
    entry_hash: EntryHash,
    link_stamp: ActionStamp,
    room_info: RoomInfo,
) -> (r: Result<(), ExternError>)
    ensures
        r is Ok,
        final(store).records@.len() == old(store).records@.len() + 2,
        forall|i: int|
            0 <= i < old(store).records@.len() ==> final(store).records@[i] == old(
                store,
            ).records@[i],
        final(store).records@[old(store).records@.len() as int] == spec_created_record(
            entry_stamp,
            entry_hash,
            0,
            EntryTypes::RoomInfo(room_info),
        ),
        final(store).records@.last().action is CreateLink,
        final(store).links@.len() == old(store).links@.len() + 1,
        forall|i: int|
            0 <= i < old(store).links@.len() ==> final(store).links@[i] == old(store).links@[i],
        spec_stamped_link(
            final(store).links@.last(),
            HashKind::Entry,
            path_digest("ROOM_INFO"@),
            LinkTypes::RoomInfoUpdates,
            AnyLinkableHash { kind: HashKind::Action, bytes: entry_stamp.action_hash.bytes },
            link_stamp,
        ),
{
    proof {
        reveal_strlit("ROOM_INFO");
    }
    let record = Record {
        action_address: entry_stamp.action_hash,
        action: Action::Create(
            Create {
                author: entry_stamp.author,
                timestamp: entry_stamp.timestamp,
                prev_action: entry_stamp.prev_action,
                entry_type: EntryType::App(
                    AppEntryDef { zome_index: ROOM_ZOME_INDEX, entry_index: 0, public: true },
                ),
                entry_hash,
            },
        ),
        entry: RecordEntry::Present(EntryTypes::RoomInfo(room_info)),
    };
    store.push_record(record);
    let base = anchor_base("ROOM_INFO");
    let target = entry_stamp.action_hash.to_linkable();
    let _ = store.create_link(
        link_stamp,
        base,
        target,
        ROOM_ZOME_INDEX,
        LinkTypes::RoomInfoUpdates.index(),
        Vec::new(),
    );
    Ok(())
}

// ---------------------------------------------------------------------
// Attachments: mutation protocol and revision resolver.
// ---------------------------------------------------------------------

/// Input to [`update_attachment`]: the logical record's stable original,
/// the revision the caller believes is current, and the new payload.
pub struct UpdateAttachmentInput {
    pub original_attachment_hash: ActionHash,
    pub previous_attachment_hash: ActionHash,
    pub updated_attachment: crate::entries::Attachment,
}

/// The record an update-entry write with this stamp leaves behind.
pub open spec fn spec_updated_record(
    stamp: ActionStamp,
    entry_hash: EntryHash,
    previous: ActionHash,
    entry_index: u8,
    payload: EntryTypes,
) -> Record {
    Record {
        action_address: stamp.action_hash,
        action: Action::Update(
            crate::store::Update {
                author: stamp.author,
                timestamp: stamp.timestamp,
                prev_action: stamp.prev_action,
                original_action_address: previous,
                entry_type: EntryType::App(
                    AppEntryDef { zome_index: ROOM_ZOME_INDEX, entry_index, public: true },
                ),
                entry_hash,
            },
        ),
        entry: RecordEntry::Present(payload),
    }
}

/// The record a delete-entry write with this stamp leaves behind.
pub open spec fn spec_delete_record(stamp: ActionStamp, original: ActionHash) -> Record {
    Record {
        action_address: stamp.action_hash,
        action: Action::Delete(
            crate::store::Delete {
                author: stamp.author,
                timestamp: stamp.timestamp,
                prev_action: stamp.prev_action,
                deletes_address: original,
            },
        ),
        entry: RecordEntry::Absent,
    }
}

/// A record already found keeps being found when another record is
/// appended: lookup returns the first match.
pub proof fn lemma_find_record_push_stable(
    records: Seq<Record>,
    found: Record,
    extra: Record,
    kind: HashKind,
    addr: Seq<u8>,
)
    requires
        spec_find_record(records, kind, addr) == Some(found),
    ensures
        spec_find_record(records.push(extra), kind, addr) == Some(found),
    decreases records.len(),
{
    if records.len() > 0 {
        assert(records.push(extra).drop_first() =~= records.drop_first().push(extra));
        if !record_addressed(records.first(), kind, addr) {
            lemma_find_record_push_stable(records.drop_first(), found, extra, kind, addr);
        }
    }
}

/// Write a new attachment: its entry record, and a registration link from
/// the attachments anchor so the record is discoverable.  The returned
/// address resolves against the local store as soon as the call returns.
pub fn create_attachment(
    store: &mut Store,
    entry_stamp: ActionStamp,
    entry_hash: EntryHash,
    link_stamp: ActionStamp,
    attachment: crate::entries::Attachment,
) -> (r: Result<ActionHash, ExternError>)
    requires
        spec_find_record(old(store).records@, HashKind::Action, entry_stamp.action_hash@) is None,
    ensures
        r == Ok::<_, ExternError>(entry_stamp.action_hash),
        final(store).records@.len() == old(store).records@.len() + 2,
        forall|i: int|
            0 <= i < old(store).records@.len() ==> final(store).records@[i] == old(
                store,
            ).records@[i],
        final(store).records@[old(store).records@.len() as int] == spec_created_record(
            entry_stamp,
            entry_hash,
            1,
            EntryTypes::Attachment(attachment),
        ),
        final(store).records@.last().action is CreateLink,
        spec_find_record(final(store).records@, HashKind::Action, entry_stamp.action_hash@)
            == Some(
            spec_created_record(entry_stamp, entry_hash, 1, EntryTypes::Attachment(attachment)),
        ),
        final(store).links@.len() == old(store).links@.len() + 1,
        forall|i: int|
            0 <= i < old(store).links@.len() ==> final(store).links@[i] == old(store).links@[i],
        spec_stamped_link(
            final(store).links@.last(),
            HashKind::Entry,
            path_digest("all_attachments"@),
            LinkTypes::AllAttachments,
            AnyLinkableHash { kind: HashKind::Action, bytes: entry_stamp.action_hash.bytes },
            link_stamp,
        ),
{
    proof {
        reveal_strlit("all_attachments");
    }
    let ghost created = spec_created_record(
        entry_stamp,
        entry_hash,
        1,
        EntryTypes::Attachment(attachment),
    );
    let record = Record {
        action_address: entry_stamp.action_hash,
        action: Action::Create(
            Create {
                author: entry_stamp.author,
                timestamp: entry_stamp.timestamp,
                prev_action: entry_stamp.prev_action,
                entry_type: EntryType::App(
                    AppEntryDef { zome_index: ROOM_ZOME_INDEX, entry_index: 1, public: true },
                ),
                entry_hash,
            },
        ),
        entry: RecordEntry::Present(EntryTypes::Attachment(attachment)),
    };
    proof {
        lemma_find_record_push(
            store.records@,
            created,
            HashKind::Action,
            entry_stamp.action_hash@,
        );
    }
    store.push_record(record);
    if store.get_record(&entry_stamp.action_hash).is_none() {
        return Err(ExternError::NotFound);
    }
    let base = anchor_base("all_attachments");
    let target = entry_stamp.action_hash.to_linkable();
    let ghost before_link = store.records@;
    let _ = store.create_link(
        link_stamp,
        base,
        target,
        ROOM_ZOME_INDEX,
        LinkTypes::AllAttachments.index(),
        Vec::new(),
    );
    proof {
        assert(store.records@ =~= before_link.push(store.records@.last()));
        lemma_find_record_push_stable(
            before_link,
            created,
            store.records@.last(),
            HashKind::Action,
            entry_stamp.action_hash@,
        );
    }
    Ok(entry_stamp.action_hash)
}

/// What resolving the latest attachment revision yields: the record at the
/// original itself while no update-link exists, otherwise the record at the
/// winning update-link's target.
pub open spec fn spec_get_latest_attachment(store: Store, original: ActionHash) -> Result<
    Option<Record>,
    ExternError,
> {
    let ls = spec_update_links(store, original, LinkTypes::AttachmentUpdates);
    if ls.len() == 0 {
        Ok(spec_find_record(store.records@, HashKind::Action, original@))
    } else {
        let link = ls[spec_latest_link_index(ls)];
        if link.target.kind != HashKind::Action {
            Err(ExternError::LinkTargetNotActionHash)
        } else {
            Ok(spec_find_record(store.records@, HashKind::Action, link.target.bytes@))
        }
    }
}

/// The latest revision of the attachment whose original action is
/// `original`: the original's own record while no update-link is visible;
/// `None` when the original itself has not synced yet.
pub fn get_latest_attachment<'a>(store: &'a Store, original: &ActionHash) -> (r: Result<
    Option<&'a Record>,
    ExternError,
>)
    ensures
        match r {
            Ok(Some(record)) => spec_get_latest_attachment(*store, *original) == Ok::<
                _,
                ExternError,
            >(Some(*record)),
            Ok(None) => spec_get_latest_attachment(*store, *original) == Ok::<
                Option<Record>,
                ExternError,
            >(None),
            Err(e) => spec_get_latest_attachment(*store, *original) == Err::<
                Option<Record>,
                ExternError,
            >(e),
        },
{
    let base = original.to_linkable();
    let links = store.get_links(&base, ROOM_ZOME_INDEX, LinkTypes::AttachmentUpdates.index());
    let ghost model = spec_update_links(*store, *original, LinkTypes::AttachmentUpdates);
    if links.len() == 0 {
        return Ok(store.get_record(original));
    }
    let best = latest_link_index(&links, Ghost(model));
    proof {
        lemma_latest_link_index_max(model);
    }
    let latest_attachment_hash = match links[best].target.into_action_hash() {
        Some(hash) => hash,
        None => {
            return Err(ExternError::LinkTargetNotActionHash);
        },
    };
    Ok(store.get_record(&latest_attachment_hash))
}

/// The record at the original action itself, through the store's detail
/// query; a non-record detail shape would be a hard error, but cannot arise
/// for an action address.
pub fn get_original_attachment<'a>(store: &'a Store, original: &ActionHash) -> (r: Result<
    Option<&'a Record>,
    ExternError,
>)
    ensures
        match r {
            Ok(Some(record)) => spec_find_record(store.records@, HashKind::Action, original@)
                == Some(*record),
            Ok(None) => spec_find_record(store.records@, HashKind::Action, original@) is None,
            Err(_) => false,
        },
{
    let addr = original.to_linkable();
    let details = match store.get_details(&addr) {
        Some(details) => details,
        None => {
            return Ok(None);
        },
    };
    match details {
        crate::store::Details::Record { record, .. } => Ok(Some(record)),
        crate::store::Details::Entry { .. } => Err(ExternError::MalformedDetails),
    }
}

/// What composing an attachment's full revision history yields: empty
/// when the original does not resolve; otherwise the original's record
/// followed by the update-links' resolved targets in link order
/// (chronological order is the caller's concern).  A malformed or
/// unresolved link target is discarded, never an error: one bad item must
/// not abort the batch.
pub open spec fn spec_get_all_revisions(store: Store, original: ActionHash) -> Seq<Record> {
    match spec_find_record(store.records@, HashKind::Action, original@) {
        None => Seq::empty(),
        Some(original_record) => {
            let ls = spec_update_links(store, original, LinkTypes::AttachmentUpdates);
            seq![original_record] + spec_target_records(store.records@, ls)
        },
    }
}

/// Every visible revision of an attachment: the original record first, then
/// each update-link's target that resolves, in link order; a link whose
/// target is malformed or not yet synced is skipped.
pub fn get_all_revisions_for_attachment<'a>(store: &'a Store, original: &ActionHash) -> (r: Result<
    Vec<&'a Record>,
    ExternError,
>)
    ensures
        r matches Ok(records) && {
            let m = spec_get_all_revisions(*store, *original);
            &&& records@.len() == m.len()
            &&& forall|i: int| 0 <= i < m.len() ==> *records@[i] == m[i]
        },
{
    let original_record = match get_original_attachment(store, original) {
        Ok(Some(record)) => record,
        Ok(None) => {
            return Ok(Vec::new());
        },
        Err(e) => {
            return Err(e);
        },
    };
    let base = original.to_linkable();
    let links = store.get_links(&base, ROOM_ZOME_INDEX, LinkTypes::AttachmentUpdates.index());
    let ghost model = spec_update_links(*store, *original, LinkTypes::AttachmentUpdates);
    let n = links.len();
    let mut out: Vec<&Record> = Vec::new();
    out.push(original_record);
    let mut j: usize = 0;
    proof {
        assert(model.take(0) =~= Seq::<Link>::empty());
    }
    while j < n
        invariant
            n == links@.len(),
            links@.len() == model.len(),
            forall|k: int| 0 <= k < model.len() ==> *links@[k] == model[k],
            0 <= j <= n,
            out@.len() == 1 + spec_target_records(store.records@, model.take(j as int)).len(),
            model == spec_update_links(*store, *original, LinkTypes::AttachmentUpdates),
            spec_find_record(store.records@, HashKind::Action, original@) == Some(
                *original_record,
            ),
            *out@[0] == spec_find_record(store.records@, HashKind::Action, original@)->0,
            forall|k: int|
                1 <= k < out@.len() ==> *out@[k] == spec_target_records(
                    store.records@,
                    model.take(j as int),
                )[k - 1],
        decreases n - j,
    {
        proof {
            assert(model.take(j as int + 1).drop_last() =~= model.take(j as int));
            assert(model.take(j as int + 1).last() == model[j as int]);
        }
        match links[j].target.into_action_hash() {
            Some(target_hash) => match store.get_record(&target_hash) {
                Some(record) => {
                    out.push(record);
                },
                None => (),
            },
            None => (),
        }
        j += 1;
    }
    proof {
        assert(model.take(n as int) =~= model);
        let m = seq![
            spec_find_record(store.records@, HashKind::Action, original@)->0,
        ] + spec_target_records(store.records@, model);
        assert(forall|i: int| 1 <= i < m.len() ==> m[i] == spec_target_records(
            store.records@,
            model,
        )[i - 1]);
    }
    Ok(out)
}

/// Write a new revision of an attachment: a new entry record superseding
/// the revision the caller knew, and an update-link hung off the stable
/// original so the resolver needs a single traversal.  Concurrent updates
/// by other authors also succeed; the resolver's timestamp rule is the only
/// arbiter of which one is current.
pub fn update_attachment(
    store: &mut Store,
    input: UpdateAttachmentInput,
    entry_stamp: ActionStamp,
    entry_hash: EntryHash,
    link_stamp: ActionStamp,
) -> (r: Result<ActionHash, ExternError>)
    requires
        spec_find_record(old(store).records@, HashKind::Action, entry_stamp.action_hash@) is None,
    ensures
        r == Ok::<_, ExternError>(entry_stamp.action_hash),
        final(store).records@.len() == old(store).records@.len() + 2,
        forall|i: int|
            0 <= i < old(store).records@.len() ==> final(store).records@[i] == old(
                store,
            ).records@[i],
        final(store).records@[old(store).records@.len() as int] == spec_updated_record(
            entry_stamp,
            entry_hash,
            input.previous_attachment_hash,
            1,
            EntryTypes::Attachment(input.updated_attachment),
        ),
        final(store).records@.last().action is CreateLink,
        spec_find_record(final(store).records@, HashKind::Action, entry_stamp.action_hash@)
            == Some(
            spec_updated_record(
                entry_stamp,
                entry_hash,
                input.previous_attachment_hash,
                1,
                EntryTypes::Attachment(input.updated_attachment),
            ),
        ),
        final(store).links@.len() == old(store).links@.len() + 1,
        forall|i: int|
            0 <= i < old(store).links@.len() ==> final(store).links@[i] == old(store).links@[i],
        spec_stamped_link(
            final(store).links@.last(),
            HashKind::Action,
            input.original_attachment_hash@,
            LinkTypes::AttachmentUpdates,
            AnyLinkableHash { kind: HashKind::Action, bytes: entry_stamp.action_hash.bytes },
            link_stamp,
        ),
{
    let ghost updated = spec_updated_record(
        entry_stamp,
        entry_hash,
        input.previous_attachment_hash,
        1,
        EntryTypes::Attachment(input.updated_attachment),
    );
    let record = Record {
        action_address: entry_stamp.action_hash,
        action: Action::Update(
            crate::store::Update {
                author: entry_stamp.author,
                timestamp: entry_stamp.timestamp,
                prev_action: entry_stamp.prev_action,
                original_action_address: input.previous_attachment_hash,
                entry_type: EntryType::App(
                    AppEntryDef { zome_index: ROOM_ZOME_INDEX, entry_index: 1, public: true },
                ),
                entry_hash,
            },
        ),
        entry: RecordEntry::Present(EntryTypes::Attachment(input.updated_attachment)),
    };
    proof {
        lemma_find_record_push(store.records@, updated, HashKind::Action, entry_stamp.action_hash@);
    }
    store.push_record(record);
    let base = input.original_attachment_hash.to_linkable();
    let target = entry_stamp.action_hash.to_linkable();
    let ghost before_link = store.records@;
    let _ = store.create_link(
        link_stamp,
        base,
        target,
        ROOM_ZOME_INDEX,
        LinkTypes::AttachmentUpdates.index(),
        Vec::new(),
    );
    proof {
        assert(store.records@ =~= before_link.push(store.records@.last()));
        lemma_find_record_push_stable(
            before_link,
            updated,
            store.records@.last(),
            HashKind::Action,
            entry_stamp.action_hash@,
        );
    }
    if store.get_record(&entry_stamp.action_hash).is_none() {
        return Err(ExternError::NotFound);
    }
    Ok(entry_stamp.action_hash)
}

/// The create-link hashes of the links in the list whose target is the
/// given action address, in link order.
pub open spec fn spec_clhs_targeting(ls: Seq<Link>, original: ActionHash) -> Seq<ActionHash>
    decreases ls.len(),
{
    if ls.len() == 0 {
        Seq::empty()
    } else {
        let rest = spec_clhs_targeting(ls.drop_last(), original);
        if ls.last().target.kind == HashKind::Action && ls.last().target.bytes@ == original@ {
            rest.push(ls.last().create_link_hash)
        } else {
            rest
        }
    }
}

/// The live links left after deleting, in order, each link created by one
/// of the listed hashes.
pub open spec fn spec_remove_links(
    links: Seq<crate::store::StoredLink>,
    hs: Seq<ActionHash>,
) -> Seq<crate::store::StoredLink>
    decreases hs.len(),
{
    if hs.len() == 0 {
        links
    } else {
        spec_remove_links(crate::store::spec_links_without(links, hs.first()@), hs.drop_first())
    }
}

/// The create-link addresses of every registration at the attachments
/// anchor that points at `original` — the links a delete must retract, in
/// registration order.
pub fn attachment_registration_links(store: &Store, original: &ActionHash) -> (r: Vec<ActionHash>)
    ensures
        r@ == spec_clhs_targeting(
            spec_anchor_links(*store, "all_attachments"@, LinkTypes::AllAttachments),
            *original,
        ),
{
    proof {
        reveal_strlit("all_attachments");
    }
    let base = anchor_base("all_attachments");
    let links = store.get_links(&base, ROOM_ZOME_INDEX, LinkTypes::AllAttachments.index());
    let ghost model = spec_anchor_links(*store, "all_attachments"@, LinkTypes::AllAttachments);
    let n = links.len();
    let mut clhs: Vec<ActionHash> = Vec::new();
    let mut i: usize = 0;
    proof {
        assert(model.take(0) =~= Seq::<Link>::empty());
        assert(clhs@ =~= spec_clhs_targeting(model.take(0), *original));
    }
    while i < n
        invariant
            n == links@.len(),
            links@.len() == model.len(),
            forall|k: int| 0 <= k < model.len() ==> *links@[k] == model[k],
            0 <= i <= n,
            clhs@ == spec_clhs_targeting(model.take(i as int), *original),
        decreases n - i,
    {
        proof {
            assert(model.take(i as int + 1).drop_last() =~= model.take(i as int));
            assert(model.take(i as int + 1).last() == model[i as int]);
        }
        match links[i].target.into_action_hash() {
            Some(hash) => {
                if hash == *original {
                    clhs.push(links[i].create_link_hash);
                    proof {
                        assert(clhs@ =~= spec_clhs_targeting(model.take(i as int + 1), *original));
                    }
                }
            },
            None => (),
        }
        i += 1;
    }
    proof {
        assert(model.take(n as int) =~= model);
    }
    clhs
}

/// Delete an attachment: record a delete action against its original, and
/// remove every registration link for it at the attachments anchor so it
/// stops appearing in listings.  The tombstone and the action graph remain.
///
/// Each link removal is itself a new action; the caller supplies one stamp
/// per registration link currently visible.
pub fn delete_attachment(
    store: &mut Store,
    original: &ActionHash,
    link_stamps: &Vec<ActionStamp>,
    delete_stamp: ActionStamp,
) -> (r: Result<ActionHash, ExternError>)
    requires
        link_stamps@.len() >= spec_clhs_targeting(
            spec_anchor_links(*old(store), "all_attachments"@, LinkTypes::AllAttachments),
            *original,
        ).len(),
    ensures
        spec_find_record(old(store).records@, HashKind::Action, original@) is None ==> {
            &&& r == Err::<ActionHash, _>(ExternError::NotFound)
            &&& final(store).records@ == old(store).records@
            &&& final(store).links@ == old(store).links@
        },
        spec_find_record(old(store).records@, HashKind::Action, original@) is Some ==> {
            let hs = spec_clhs_targeting(
                spec_anchor_links(*old(store), "all_attachments"@, LinkTypes::AllAttachments),
                *original,
            );
            &&& r == Ok::<_, ExternError>(delete_stamp.action_hash)
            &&& final(store).links@ == spec_remove_links(old(store).links@, hs)
            &&& final(store).records@.len() == old(store).records@.len() + hs.len() + 1
            &&& (forall|i: int|
                0 <= i < old(store).records@.len() ==> final(store).records@[i] == old(
                    store,
                ).records@[i])
            &&& final(store).records@.last() == spec_delete_record(delete_stamp, *original)
            &&& (forall|j: int|
                0 <= j < hs.len() ==> ((#[trigger] final(store).records@[old(
                    store,
                ).records@.len() + j]).action matches Action::DeleteLink(dl) && {
                    &&& dl.link_add_address == hs[j]
                    &&& dl.author == link_stamps@[j].author
                    &&& dl.timestamp == link_stamps@[j].timestamp
                }))
        },
{
    proof {
        reveal_strlit("all_attachments");
    }
    let addr = original.to_linkable();
    match store.get_details(&addr) {
        None => {
            return Err(ExternError::NotFound);
        },
        Some(crate::store::Details::Entry { .. }) => {
            return Err(ExternError::MalformedDetails);
        },
        Some(crate::store::Details::Record { .. }) => (),
    }
    let ghost model = spec_anchor_links(*store, "all_attachments"@, LinkTypes::AllAttachments);
    let ghost hs = spec_clhs_targeting(model, *original);
    let clhs = attachment_registration_links(store, original);
    let m = clhs.len();
    let ghost links0 = store.links@;
    let ghost records0 = store.records@;
    let mut k: usize = 0;
    proof {
        assert(hs.skip(0) =~= hs);
    }
    while k < m
        invariant
            m == clhs@.len(),
            clhs@.len() == hs.len(),
            forall|t: int| 0 <= t < hs.len() ==> clhs@[t] == hs[t],
            hs.len() <= link_stamps@.len(),
            0 <= k <= m,
            spec_remove_links(links0, hs) == spec_remove_links(store.links@, hs.skip(k as int)),
            store.records@.len() == records0.len() + k,
            forall|i2: int| 0 <= i2 < records0.len() ==> store.records@[i2] == records0[i2],
            forall|j: int|
                0 <= j < k ==> ((#[trigger] store.records@[records0.len() + j]).action
                    matches Action::DeleteLink(dl) && {
                    &&& dl.link_add_address == hs[j]
                    &&& dl.author == link_stamps@[j].author
                    &&& dl.timestamp == link_stamps@[j].timestamp
                }),
        decreases m - k,
    {
        let clh = clhs[k];
        let _ = store.delete_link(link_stamps[k], &clh);
        proof {
            assert(hs.skip(k as int).first() == hs[k as int]);
            assert(hs.skip(k as int).drop_first() =~= hs.skip(k as int + 1));
        }
        k += 1;
    }
    proof {
        assert(hs.skip(m as int) =~= Seq::<ActionHash>::empty());
    }
    let record = Record {
        action_address: delete_stamp.action_hash,
        action: Action::Delete(
            crate::store::Delete {
                author: delete_stamp.author,
                timestamp: delete_stamp.timestamp,
                prev_action: delete_stamp.prev_action,
                deletes_address: *original,
            },
        ),
        entry: RecordEntry::Absent,
    };
    store.push_record(record);
    Ok(delete_stamp.action_hash)
}

/// Every delete action recorded against an attachment's original, in store
/// order; `None` exactly when the original itself does not resolve.
pub fn get_all_deletes_for_attachment<'a>(store: &'a Store, original: &ActionHash) -> (r: Result<
    Option<Vec<&'a Record>>,
    ExternError,
>)
    ensures
        match r {
            Ok(Some(deletes)) => {
                &&& spec_find_record(store.records@, HashKind::Action, original@) is Some
                &&& deletes@.len() == crate::store::spec_deletes_of(store.records@, original@).len()
                &&& forall|i: int|
                    0 <= i < deletes@.len() ==> *deletes@[i] == crate::store::spec_deletes_of(
                        store.records@,
                        original@,
                    )[i]
            },
            Ok(None) => spec_find_record(store.records@, HashKind::Action, original@) is None,
            Err(_) => false,
        },
{
    let addr = original.to_linkable();
    match store.get_details(&addr) {
        None => Ok(None),
        Some(crate::store::Details::Entry { .. }) => Err(ExternError::MalformedDetails),
        Some(crate::store::Details::Record { deletes, .. }) => Ok(Some(deletes)),
    }
}

/// Index of the earliest delete: the first one carrying the minimum
/// timestamp, so racing deletes are answered deterministically.
pub open spec fn spec_oldest_delete_index(ds: Seq<Record>) -> int
    decreases ds.len(),
{
    if ds.len() <= 1 {
        0
    } else {
        let rest = spec_oldest_delete_index(ds.drop_last());
        if ds.last().action.spec_timestamp() < ds[rest].action.spec_timestamp() {
            ds.len() - 1
        } else {
            rest
        }
    }
}

/// Law: the earliest delete carries the minimum timestamp, and no earlier
/// delete in store order carries the same one (it is the first of the
/// minima).
pub proof fn lemma_oldest_delete_index_min(ds: Seq<Record>)
    requires
        ds.len() > 0,
    ensures
        0 <= spec_oldest_delete_index(ds) < ds.len(),
        forall|j: int|
            0 <= j < ds.len() ==> (#[trigger] ds[j].action).spec_timestamp() >= ds[
                spec_oldest_delete_index(ds)].action.spec_timestamp(),
        forall|j: int|
            0 <= j < spec_oldest_delete_index(ds) ==> (#[trigger] ds[j].action).spec_timestamp()
                > ds[spec_oldest_delete_index(ds)].action.spec_timestamp(),
    decreases ds.len(),
{
    if ds.len() > 1 {
        let prefix = ds.drop_last();
        lemma_oldest_delete_index_min(prefix);
        assert(forall|j: int| 0 <= j < ds.len() - 1 ==> ds[j] == prefix[j]);
    }
}

/// The first of the earliest deletes recorded against an attachment's
/// original: the deterministic answer to "when was this first deleted",
/// even when deletes race.
pub fn get_oldest_delete_for_attachment<'a>(store: &'a Store, original: &ActionHash) -> (r: Result<
    Option<&'a Record>,
    ExternError,
>)
    ensures
        match r {
            Ok(Some(record)) => {
                &&& spec_find_record(store.records@, HashKind::Action, original@) is Some
                &&& crate::store::spec_deletes_of(store.records@, original@).len() > 0
                &&& *record == crate::store::spec_deletes_of(store.records@, original@)[
                    spec_oldest_delete_index(crate::store::spec_deletes_of(store.records@, original@))]
            },
            Ok(None) => spec_find_record(store.records@, HashKind::Action, original@) is None
                || crate::store::spec_deletes_of(store.records@, original@).len() == 0,
            Err(_) => false,
        },
{
    let deletes = match get_all_deletes_for_attachment(store, original) {
        Ok(Some(deletes)) => deletes,
        Ok(None) => {
            return Ok(None);
        },
        Err(e) => {
            return Err(e);
        },
    };
    if deletes.len() == 0 {
        return Ok(None);
    }
    let ghost model = crate::store::spec_deletes_of(store.records@, original@);
    let mut best: usize = 0;
    let mut i: usize = 1;
    proof {
        assert(model.take(1).drop_last() =~= model.take(0));
    }
    while i < deletes.len()
        invariant
            deletes@.len() == model.len(),
            forall|k: int| 0 <= k < model.len() ==> *deletes@[k] == model[k],
            1 <= i <= model.len(),
            best < i,
            best == spec_oldest_delete_index(model.take(i as int)),
        decreases model.len() - i,
    {
        proof {
            assert(model.take(i as int + 1).drop_last() =~= model.take(i as int));
            assert(model.take(i as int + 1).last() == model[i as int]);
        }
        if deletes[i].action.timestamp() < deletes[best].action.timestamp() {
            best = i;
        }
        i += 1;
    }
    proof {
        assert(model.take(model.len() as int) =~= model);
        lemma_oldest_delete_index_min(model);
    }
    Ok(Some(deletes[best]))
}

/// The records the links' targets resolve to, in link order; a target that
/// is not an action address, or does not resolve, is skipped.
pub open spec fn spec_target_records(records: Seq<Record>, ls: Seq<Link>) -> Seq<Record>
    decreases ls.len(),
{
    if ls.len() == 0 {
        Seq::empty()
    } else {
        let rest = spec_target_records(records, ls.drop_last());
        if ls.last().target.kind == HashKind::Action {
            match spec_find_record(records, HashKind::Action, ls.last().target.bytes@) {
                Some(record) => rest.push(record),
                None => rest,
            }
        } else {
            rest
        }
    }
}

/// Every attachment registered at the attachments anchor that resolves, in
/// registration order; a malformed or unresolved registration is dropped,
/// never an error.
pub fn get_all_attachments<'a>(store: &'a Store) -> (r: Result<Vec<&'a Record>, ExternError>)
    ensures
        r matches Ok(records) && {
            let m = spec_target_records(
                store.records@,
                spec_anchor_links(*store, "all_attachments"@, LinkTypes::AllAttachments),
            );
            &&& records@.len() == m.len()
            &&& forall|i: int| 0 <= i < m.len() ==> *records@[i] == m[i]
        },
{
    proof {
        reveal_strlit("all_attachments");
    }
    let base = anchor_base("all_attachments");
    let links = store.get_links(&base, ROOM_ZOME_INDEX, LinkTypes::AllAttachments.index());
    let ghost model = spec_anchor_links(*store, "all_attachments"@, LinkTypes::AllAttachments);
    let n = links.len();
    let mut out: Vec<&Record> = Vec::new();
    let mut i: usize = 0;
    while i < n
        invariant
            n == links@.len(),
            links@.len() == model.len(),
            forall|k: int| 0 <= k < model.len() ==> *links@[k] == model[k],
            0 <= i <= n,
            out@.len() == spec_target_records(store.records@, model.take(i as int)).len(),
            forall|k: int|
                0 <= k < out@.len() ==> *out@[k] == spec_target_records(
                    store.records@,
                    model.take(i as int),
                )[k],
        decreases n - i,
    {
        proof {
            assert(model.take(i as int + 1).drop_last() =~= model.take(i as int));
            assert(model.take(i as int + 1).last() == model[i as int]);
        }
        match links[i].target.into_action_hash() {
            Some(hash) => match store.get_record(&hash) {
                Some(record) => {
                    out.push(record);
                },
                None => (),
            },
            None => (),
        }
        i += 1;
    }
    proof {
        assert(model.take(n as int) =~= model);
    }
    Ok(out)
}

// ---------------------------------------------------------------------
// Descendent rooms.
// ---------------------------------------------------------------------

/// Write a new descendent room: its entry record, and a registration link
/// from the descendent-rooms anchor to the entry's address.  Returns the
/// registration link's action address, which a later
/// [`delete_descendent_room`] takes.
pub fn create_descendent_room(
    store: &mut Store,
    entry_stamp: ActionStamp,
    entry_hash: EntryHash,
    link_stamp: ActionStamp,
    input: DescendentRoom,
) -> (r: Result<ActionHash, ExternError>)
    ensures
        r == Ok::<_, ExternError>(link_stamp.action_hash),
        final(store).records@.len() == old(store).records@.len() + 2,
        forall|i: int|
            0 <= i < old(store).records@.len() ==> final(store).records@[i] == old(
                store,
            ).records@[i],
        final(store).records@[old(store).records@.len() as int] == spec_created_record(
            entry_stamp,
            entry_hash,
            2,
            EntryTypes::DescendentRoom(input),
        ),
        final(store).records@.last().action is CreateLink,
        final(store).links@.len() == old(store).links@.len() + 1,
        forall|i: int|
            0 <= i < old(store).links@.len() ==> final(store).links@[i] == old(store).links@[i],
        spec_stamped_link(
            final(store).links@.last(),
            HashKind::Entry,
            path_digest("ALL_DESCENDENT_ROOMS"@),
            LinkTypes::AllDescendentRooms,
            AnyLinkableHash { kind: HashKind::Entry, bytes: entry_hash.bytes },
            link_stamp,
        ),
{
    proof {
        reveal_strlit("ALL_DESCENDENT_ROOMS");
    }
    let record = Record {
        action_address: entry_stamp.action_hash,
        action: Action::Create(
            Create {
                author: entry_stamp.author,
                timestamp: entry_stamp.timestamp,
                prev_action: entry_stamp.prev_action,
                entry_type: EntryType::App(
                    AppEntryDef { zome_index: ROOM_ZOME_INDEX, entry_index: 2, public: true },
                ),
                entry_hash,
            },
        ),
        entry: RecordEntry::Present(EntryTypes::DescendentRoom(input)),
    };
    store.push_record(record);
    let base = anchor_base("ALL_DESCENDENT_ROOMS");
    let target = entry_hash.to_linkable();
    let hash = store.create_link(
        link_stamp,
        base,
        target,
        ROOM_ZOME_INDEX,
        LinkTypes::AllDescendentRooms.index(),
        Vec::new(),
    );
    Ok(hash)
}

/// Remove a descendent room's registration: delete the link from the
/// anchor, so the room stops appearing in listings.
pub fn delete_descendent_room(store: &mut Store, stamp: ActionStamp, action_hash: &ActionHash) -> (r:
    Result<ActionHash, ExternError>)
    ensures
        r == Ok::<_, ExternError>(stamp.action_hash),
        final(store).links@ == crate::store::spec_links_without(old(store).links@, action_hash@),
        final(store).records@.len() == old(store).records@.len() + 1,
        forall|i: int|
            0 <= i < old(store).records@.len() ==> final(store).records@[i] == old(
                store,
            ).records@[i],
        final(store).records@.last().action matches Action::DeleteLink(dl) && {
            &&& dl.author == stamp.author
            &&& dl.timestamp == stamp.timestamp
            &&& dl.link_add_address == *action_hash
        },
{
    let hash = store.delete_link(stamp, action_hash);
    Ok(hash)
}

/// The descendent rooms a list of registration links resolves to: each
/// link whose target is an entry address holding a descendent room, with
/// the registering author and the link's own action address.
pub open spec fn spec_descendent_rooms(records: Seq<Record>, ls: Seq<Link>) -> Seq<
    (DescendentRoom, AgentPubKey, ActionHash),
>
    decreases ls.len(),
{
    if ls.len() == 0 {
        Seq::empty()
    } else {
        let rest = spec_descendent_rooms(records, ls.drop_last());
        if ls.last().target.kind == HashKind::Entry {
            match spec_find_record(records, HashKind::Entry, ls.last().target.bytes@) {
                Some(record) => match record.entry {
                    RecordEntry::Present(
                        EntryTypes::DescendentRoom(room),
                    ) => rest.push((room, ls.last().author, ls.last().create_link_hash)),
                    _ => rest,
                },
                None => rest,
            }
        } else {
            rest
        }
    }
}

/// Every descendent room registered at the anchor that resolves, with its
/// registering agent and its registration link's address; a malformed or
/// unresolved registration is dropped, never an error.
pub fn get_all_descendent_rooms<'a>(store: &'a Store) -> (r: Result<
    Vec<(&'a DescendentRoom, AgentPubKey, ActionHash)>,
    ExternError,
>)
    ensures
        r matches Ok(rooms) && {
            let m = spec_descendent_rooms(
                store.records@,
                spec_anchor_links(*store, "ALL_DESCENDENT_ROOMS"@, LinkTypes::AllDescendentRooms),
            );
            &&& rooms@.len() == m.len()
            &&& forall|i: int|
                0 <= i < m.len() ==> {
                    &&& *(#[trigger] rooms@[i]).0 == m[i].0
                    &&& rooms@[i].1 == m[i].1
                    &&& rooms@[i].2 == m[i].2
                }
        },
{
    proof {
        reveal_strlit("ALL_DESCENDENT_ROOMS");
    }
    let base = anchor_base("ALL_DESCENDENT_ROOMS");
    let links = store.get_links(&base, ROOM_ZOME_INDEX, LinkTypes::AllDescendentRooms.index());
    let ghost model = spec_anchor_links(
        *store,
        "ALL_DESCENDENT_ROOMS"@,
        LinkTypes::AllDescendentRooms,
    );
    let n = links.len();
    let mut out: Vec<(&DescendentRoom, AgentPubKey, ActionHash)> = Vec::new();
    let mut i: usize = 0;
    while i < n
        invariant
            n == links@.len(),
            links@.len() == model.len(),
            forall|k: int| 0 <= k < model.len() ==> *links@[k] == model[k],
            0 <= i <= n,
            out@.len() == spec_descendent_rooms(store.records@, model.take(i as int)).len(),
            forall|k: int|
                0 <= k < out@.len() ==> {
                    &&& *(#[trigger] out@[k]).0 == spec_descendent_rooms(
                        store.records@,
                        model.take(i as int),
                    )[k].0
                    &&& out@[k].1 == spec_descendent_rooms(
                        store.records@,
                        model.take(i as int),
                    )[k].1
                    &&& out@[k].2 == spec_descendent_rooms(
                        store.records@,
                        model.take(i as int),
                    )[k].2
                },
        decreases n - i,
    {
        proof {
            assert(model.take(i as int + 1).drop_last() =~= model.take(i as int));
            assert(model.take(i as int + 1).last() == model[i as int]);
        }
        match links[i].target.into_entry_hash() {
            Some(entry_hash) => {
                let addr = entry_hash.to_linkable();
                match store.get(&addr) {
                    Some(record) => match &record.entry {
                        RecordEntry::Present(EntryTypes::DescendentRoom(room)) => {
                            out.push((room, links[i].author, links[i].create_link_hash));
                        },
                        _ => (),
                    },
                    None => (),
                }
            },
            None => (),
        }
        i += 1;
    }
    proof {
        assert(model.take(n as int) =~= model);
    }
    Ok(out)
}

// ---------------------------------------------------------------------
// Laws of the revision resolver.
// ---------------------------------------------------------------------

/// Law: resolver fallback.  While no update-link is visible for an
/// original, resolving "latest" yields exactly the record at the original
/// itself — and absence, not an error, when the original does not resolve.
pub proof fn lemma_resolver_fallback(store: Store, original: ActionHash)
    requires
        spec_update_links(store, original, LinkTypes::AttachmentUpdates).len() == 0,
    ensures
        spec_get_latest_attachment(store, original) == Ok::<Option<Record>, ExternError>(
            spec_find_record(store.records@, HashKind::Action, original@),
        ),
        spec_find_record(store.records@, HashKind::Action, original@) is None
            ==> spec_get_latest_attachment(store, original) == Ok::<Option<Record>, ExternError>(
            None,
        ),
{
}

/// Law: max-timestamp selection.  With update-links present, "latest"
/// resolves the target of a link whose timestamp no other link exceeds.
pub proof fn lemma_max_timestamp_selection(store: Store, original: ActionHash)
    requires
        spec_update_links(store, original, LinkTypes::AttachmentUpdates).len() > 0,
    ensures
        ({
            let ls = spec_update_links(store, original, LinkTypes::AttachmentUpdates);
            let winner = ls[spec_latest_link_index(ls)];
            &&& (forall|j: int|
                0 <= j < ls.len() ==> (#[trigger] ls[j]).timestamp <= winner.timestamp)
            &&& (winner.target.kind == HashKind::Action ==> spec_get_latest_attachment(
                store,
                original,
            ) == Ok::<Option<Record>, ExternError>(
                spec_find_record(store.records@, HashKind::Action, winner.target.bytes@),
            ))
        }),
{
    let ls = spec_update_links(store, original, LinkTypes::AttachmentUpdates);
    lemma_latest_link_index_max(ls);
}

/// Law: revision history composition.  When the original resolves, the
/// history is the original's record followed by exactly the update-links'
/// resolved targets, in link order; when it does not resolve, the history
/// is empty, not an error.
pub proof fn lemma_revision_history_composition(store: Store, original: ActionHash)
    ensures
        spec_find_record(store.records@, HashKind::Action, original@) is None
            ==> spec_get_all_revisions(store, original) == Seq::<Record>::empty(),
        spec_find_record(store.records@, HashKind::Action, original@) matches Some(original_record)
            ==> ({
            let ls = spec_update_links(store, original, LinkTypes::AttachmentUpdates);
            let history = spec_get_all_revisions(store, original);
            &&& history.len() == 1 + spec_target_records(store.records@, ls).len()
            &&& history[0] == original_record
            &&& forall|i: int|
                1 <= i < history.len() ==> history[i] == spec_target_records(
                    store.records@,
                    ls,
                )[i - 1]
        }),
{
    if spec_find_record(store.records@, HashKind::Action, original@) is Some {
        let original_record = spec_find_record(store.records@, HashKind::Action, original@)->0;
        let ls = spec_update_links(store, original, LinkTypes::AttachmentUpdates);
        let history = seq![original_record] + spec_target_records(store.records@, ls);
        assert(history[0] == original_record);
        assert(forall|i: int|
            1 <= i < history.len() ==> history[i] == spec_target_records(store.records@, ls)[i
                - 1]);
    }
}

/// Law: two-revision history.  With an original that resolves and exactly
/// two well-formed update-links whose targets resolve, the history is the
/// three records — the original first, then the two revisions in link
/// order (callers wanting chronological order sort by timestamp).
pub proof fn lemma_two_revision_history(
    store: Store,
    original: ActionHash,
    original_record: Record,
    first_revision: Record,
    second_revision: Record,
)
    requires
        spec_find_record(store.records@, HashKind::Action, original@) == Some(original_record),
        spec_update_links(store, original, LinkTypes::AttachmentUpdates).len() == 2,
        ({
            let ls = spec_update_links(store, original, LinkTypes::AttachmentUpdates);
            &&& ls[0].target.kind == HashKind::Action
            &&& ls[1].target.kind == HashKind::Action
            &&& spec_find_record(store.records@, HashKind::Action, ls[0].target.bytes@) == Some(
                first_revision,
            )
            &&& spec_find_record(store.records@, HashKind::Action, ls[1].target.bytes@) == Some(
                second_revision,
            )
        }),
    ensures
        spec_get_all_revisions(store, original) == seq![
            original_record,
            first_revision,
            second_revision,
        ],
{
    let ls = spec_update_links(store, original, LinkTypes::AttachmentUpdates);
    let prefix = ls.drop_last();
    assert(prefix.len() == 1);
    assert(prefix.last() == ls[0]);
    assert(prefix.drop_last() =~= Seq::<Link>::empty());
    assert(spec_target_records(store.records@, prefix.drop_last()) =~= Seq::<Record>::empty());
    assert(spec_target_records(store.records@, prefix) =~= seq![first_revision]);
    assert(ls.last() == ls[1]);
    assert(spec_target_records(store.records@, ls) =~= seq![first_revision, second_revision]);
    assert(spec_get_all_revisions(store, original) =~= seq![
        original_record,
        first_revision,
        second_revision,
    ]);
}

} // verus!
