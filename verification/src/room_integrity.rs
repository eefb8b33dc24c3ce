//! The room network's validation engine.
//!
//! A pure decision procedure that every peer runs, locally and
//! independently, over every operation it becomes aware of before trusting
//! it: entry creations, updates, deletions, link creations and deletions,
//! and agent-join activity.  Two honest peers validating the same operation
//! against the same visible dependencies always reach the same verdict; the
//! whole table is stated as the specification function [`spec_validate`],
//! and [`validate`] is proved to return exactly it.

use vstd::prelude::*;

use crate::anchor::path_digest;
use crate::entries::{spec_entry_type_index, Attachment, DescendentRoom, EntryTypes, RoomInfo,
    ENTRY_TYPE_COUNT};
use crate::hash::{ActionHash, AgentPubKey, AnyLinkableHash, HashKind};
use crate::store::{spec_find_record, Action, Create, CreateLink, Delete, DeleteLink,
    EntryCreationAction, EntryType, OtherAction, Record, RecordEntry, Store, Update};
use crate::verdict::{result_view, ExternError, ValidateCallbackResult, VerdictView};

verus! {

/// Position of this integrity zome in its network's zome table.
pub const ROOM_ZOME_INDEX: u8 = 0;

/// The name of the anchor that room-info revisions hang off.
pub const ROOM_INFO: &'static str = "ROOM_INFO";

/// The closed union of link kinds this network defines.
///
/// Each kind has exactly one rule set and one sanctioned base/target shape.
#[derive(Clone, Copy, Debug, PartialEq, Eq, Structural)]
pub enum LinkTypes {
    RoomInfoUpdates,
    AllAgents,
    AllDescendentRooms,
    AttachmentUpdates,
    AllAttachments,
}

impl LinkTypes {
    /// Position of the link kind in this zome's link-type table.
    pub open spec fn spec_index(self) -> u8 {
        match self {
            LinkTypes::RoomInfoUpdates => 0,
            LinkTypes::AllAgents => 1,
            LinkTypes::AllDescendentRooms => 2,
            LinkTypes::AttachmentUpdates => 3,
            LinkTypes::AllAttachments => 4,
        }
    }

    /// Position of the link kind in this zome's link-type table.
    pub fn index(&self) -> (r: u8)
        ensures
            r == self.spec_index(),
    {
        match self {
            LinkTypes::RoomInfoUpdates => 0,
            LinkTypes::AllAgents => 1,
            LinkTypes::AllDescendentRooms => 2,
            LinkTypes::AttachmentUpdates => 3,
            LinkTypes::AllAttachments => 4,
        }
    }

    /// The link kind a scoped (zome, type) pair names, if it is this
    /// zome's.
    pub open spec fn spec_from_type(zome_index: u8, link_type: u8) -> Option<LinkTypes> {
        if zome_index != ROOM_ZOME_INDEX {
            None
        } else if link_type == 0 {
            Some(LinkTypes::RoomInfoUpdates)
        } else if link_type == 1 {
            Some(LinkTypes::AllAgents)
        } else if link_type == 2 {
            Some(LinkTypes::AllDescendentRooms)
        } else if link_type == 3 {
            Some(LinkTypes::AttachmentUpdates)
        } else if link_type == 4 {
            Some(LinkTypes::AllAttachments)
        } else {
            None
        }
    }

    /// The link kind a scoped (zome, type) pair names, if it is this
    /// zome's.
    pub fn from_type(zome_index: u8, link_type: u8) -> (r: Option<LinkTypes>)
        ensures
            r == Self::spec_from_type(zome_index, link_type),
    {
        if zome_index != ROOM_ZOME_INDEX {
            None
        } else if link_type == 0 {
            Some(LinkTypes::RoomInfoUpdates)
        } else if link_type == 1 {
            Some(LinkTypes::AllAgents)
        } else if link_type == 2 {
            Some(LinkTypes::AllDescendentRooms)
        } else if link_type == 3 {
            Some(LinkTypes::AttachmentUpdates)
        } else if link_type == 4 {
            Some(LinkTypes::AllAttachments)
        } else {
            None
        }
    }
}

/// Whether a byte string decodes as UTF-8 text.
pub uninterp spec fn is_utf8(bytes: Seq<u8>) -> bool;

/// Relies on std's `String::from_utf8`: returns the decoded text exactly
/// when the bytes are valid UTF-8; the empty string and pure-ASCII bytes
/// are always valid.
#[verifier::external_body]
fn decode_text(bytes: &Vec<u8>) -> (r: Option<String>)
    ensures
        r is Some <==> is_utf8(bytes@),
        bytes@.len() == 0 ==> r is Some,
        (forall|i: int| 0 <= i < bytes@.len() ==> bytes@[i] < 0x80) ==> r is Some,
{
    String::from_utf8(bytes.clone()).ok()
}

/// An operation that stores an entry.
pub enum OpEntry {
    CreateEntry { app_entry: EntryTypes, action: Create },
    CreateAgent { agent: AgentPubKey, action: Create },
    UpdateEntry {
        original_action_hash: ActionHash,
        original_entry_hash: crate::hash::EntryHash,
        app_entry: EntryTypes,
        action: Update,
    },
    UpdateAgent { new_key: AgentPubKey, original_key: AgentPubKey, action: Update },
}

/// An operation that registers an update against its original.
pub enum OpUpdate {
    Entry { app_entry: EntryTypes, action: Update },
    PrivateEntry { original_action_hash: ActionHash, action: Update },
    Agent { new_key: AgentPubKey, original_key: AgentPubKey, action: Update },
    CapClaim { action: Update },
    CapGrant { action: Update },
}

/// An operation that stores a whole record, dispatched by its action.
pub enum OpRecord {
    CreateEntry { app_entry: EntryTypes, action: Create },
    UpdateEntry { original_action_hash: ActionHash, app_entry: EntryTypes, action: Update },
    DeleteEntry { original_action_hash: ActionHash, action: Delete },
    CreateLink {
        base_address: AnyLinkableHash,
        target_address: AnyLinkableHash,
        tag: Vec<u8>,
        link_type: LinkTypes,
        action: CreateLink,
    },
    DeleteLink { original_action_hash: ActionHash, base_address: AnyLinkableHash, action: DeleteLink },
    CreatePrivateEntry { action: Create },
    UpdatePrivateEntry { action: Update },
    CreateCapClaim { action: Create },
    CreateCapGrant { action: Create },
    UpdateCapClaim { action: Update },
    UpdateCapGrant { action: Update },
    CreateAgent { agent: AgentPubKey, action: Create },
    UpdateAgent { new_key: AgentPubKey, original_key: AgentPubKey, action: Update },
    Dna { action: OtherAction },
    OpenChain { action: OtherAction },
    CloseChain { action: OtherAction },
    InitZomesComplete { action: OtherAction },
}

/// An operation that registers activity on an agent's own chain.
pub enum OpActivity {
    CreateAgent { agent: AgentPubKey, action: Create },
    UpdateAgent { action: Update },
    CreateEntry { action: Create },
    UpdateEntry { action: Update },
    DeleteEntry { action: Delete },
    CreateLink { action: CreateLink },
    DeleteLink { action: DeleteLink },
    CreatePrivateEntry { action: Create },
    CreateCapClaim { action: Create },
    CreateCapGrant { action: Create },
    AgentValidationPkg { action: crate::store::AgentValidationPkg },
    Dna { action: OtherAction },
    OpenChain { action: OtherAction },
    CloseChain { action: OtherAction },
    InitZomesComplete { action: OtherAction },
}

/// One operation, flattened by structural category, as handed to the
/// validation engine.
pub enum Op {
    StoreEntry(OpEntry),
    RegisterUpdate(OpUpdate),
    RegisterDelete { action: Delete },
    RegisterCreateLink {
        link_type: LinkTypes,
        base_address: AnyLinkableHash,
        target_address: AnyLinkableHash,
        tag: Vec<u8>,
        action: CreateLink,
    },
    RegisterDeleteLink {
        link_type: LinkTypes,
        base_address: AnyLinkableHash,
        target_address: AnyLinkableHash,
        tag: Vec<u8>,
        original_action: CreateLink,
        action: DeleteLink,
    },
    StoreRecord(OpRecord),
    RegisterAgentActivity(OpActivity),
}

/// The entry-creating shape of an action, if it has one.
pub open spec fn spec_creation_of(a: Action) -> Option<EntryCreationAction> {
    match a {
        Action::Create(c) => Some(EntryCreationAction::Create(c)),
        Action::Update(u) => Some(EntryCreationAction::Update(u)),
        _ => None,
    }
}

/// The entry-creating shape of an action, if it has one.
pub fn creation_of(a: &Action) -> (r: Option<EntryCreationAction>)
    ensures
        r == spec_creation_of(*a),
{
    match a {
        Action::Create(c) => Some(EntryCreationAction::Create(*c)),
        Action::Update(u) => Some(EntryCreationAction::Update(*u)),
        _ => None,
    }
}

/// Decoding a stored entry as the app entry type a (zome, index) pair
/// names: the payload when the pair is this zome's and the entry decodes
/// as that type; `None` otherwise (a foreign pair, or bytes that do not
/// decode as the declared type).
pub open spec fn spec_deserialize_from_type(
    zome_index: u8,
    entry_index: u8,
    entry: RecordEntry,
) -> Option<EntryTypes> {
    if zome_index != ROOM_ZOME_INDEX || entry_index >= ENTRY_TYPE_COUNT {
        None
    } else {
        match entry {
            RecordEntry::Present(et) => if spec_entry_type_index(et) == entry_index {
                Some(et)
            } else {
                None
            },
            _ => None,
        }
    }
}

/// Decoding a stored entry as the app entry type a (zome, index) pair
/// names; see [`spec_deserialize_from_type`].
pub fn deserialize_from_type<'a>(zome_index: u8, entry_index: u8, entry: &'a RecordEntry) -> (r:
    Option<&'a EntryTypes>)
    ensures
        match r {
            Some(et) => spec_deserialize_from_type(zome_index, entry_index, *entry) == Some(*et),
            None => spec_deserialize_from_type(zome_index, entry_index, *entry) is None,
        },
{
    if zome_index != ROOM_ZOME_INDEX || entry_index >= ENTRY_TYPE_COUNT {
        None
    } else {
        match entry {
            RecordEntry::Present(et) => {
                let idx: u8 = match et {
                    EntryTypes::RoomInfo(_) => 0,
                    EntryTypes::Attachment(_) => 1,
                    EntryTypes::DescendentRoom(_) => 2,
                };
                if idx == entry_index {
                    Some(et)
                } else {
                    None
                }
            },
            _ => None,
        }
    }
}

// ---------------------------------------------------------------------
// Per-kind rules: entries.
// ---------------------------------------------------------------------

/// Rule for creating a room info: structurally valid always.
pub open spec fn spec_validate_create_room_info(
    action: EntryCreationAction,
    room_info: RoomInfo,
) -> VerdictView {
    VerdictView::Valid
}

/// Rule for creating a room info: structurally valid always.
pub fn validate_create_room_info(action: &EntryCreationAction, room_info: &RoomInfo) -> (r: Result<
    ValidateCallbackResult,
    ExternError,
>)
    ensures
        result_view(r) == Ok::<_, ExternError>(
            spec_validate_create_room_info(*action, *room_info),
        ),
{
    Ok(ValidateCallbackResult::Valid)
}

/// Rule for updating a room info: never allowed; the room info record is
/// create-once, revised only through the anchor's update links.
pub open spec fn spec_validate_update_room_info(
    action: Update,
    room_info: RoomInfo,
    original_action: EntryCreationAction,
    original_room_info: RoomInfo,
) -> VerdictView {
    VerdictView::Invalid("Updating a RoomInfo entry is not allowed."@)
}

/// Rule for updating a room info: never allowed.
pub fn validate_update_room_info(
    action: &Update,
    room_info: &RoomInfo,
    original_action: &EntryCreationAction,
    original_room_info: &RoomInfo,
) -> (r: Result<ValidateCallbackResult, ExternError>)
    ensures
        result_view(r) == Ok::<_, ExternError>(
            spec_validate_update_room_info(*action, *room_info, *original_action,
                *original_room_info),
        ),
{
    Ok(ValidateCallbackResult::Invalid("Updating a RoomInfo entry is not allowed.".to_owned()))
}

/// Rule for deleting a room info: never allowed; the kind is non-deletable.
pub open spec fn spec_validate_delete_room_info(
    action: Delete,
    original_action: EntryCreationAction,
    original_room_info: RoomInfo,
) -> VerdictView {
    VerdictView::Invalid("Room Infos cannot be deleted"@)
}

/// Rule for deleting a room info: never allowed.
pub fn validate_delete_room_info(
    action: &Delete,
    original_action: &EntryCreationAction,
    original_room_info: &RoomInfo,
) -> (r: Result<ValidateCallbackResult, ExternError>)
    ensures
        result_view(r) == Ok::<_, ExternError>(
            spec_validate_delete_room_info(*action, *original_action, *original_room_info),
        ),
{
    Ok(ValidateCallbackResult::Invalid("Room Infos cannot be deleted".to_owned()))
}

/// Rule for creating an attachment: attachments are fully mutable.
pub open spec fn spec_validate_create_attachment(
    action: EntryCreationAction,
    attachment: Attachment,
) -> VerdictView {
    VerdictView::Valid
}

/// Rule for creating an attachment: always valid.
pub fn validate_create_attachment(action: &EntryCreationAction, attachment: &Attachment) -> (r:
    Result<ValidateCallbackResult, ExternError>)
    ensures
        result_view(r) == Ok::<_, ExternError>(
            spec_validate_create_attachment(*action, *attachment),
        ),
{
    Ok(ValidateCallbackResult::Valid)
}

/// Rule for updating an attachment: always valid.
pub open spec fn spec_validate_update_attachment(
    action: Update,
    attachment: Attachment,
    original_action: EntryCreationAction,
    original_attachment: Attachment,
) -> VerdictView {
    VerdictView::Valid
}

/// Rule for updating an attachment: always valid.
pub fn validate_update_attachment(
    action: &Update,
    attachment: &Attachment,
    original_action: &EntryCreationAction,
    original_attachment: &Attachment,
) -> (r: Result<ValidateCallbackResult, ExternError>)
    ensures
        result_view(r) == Ok::<_, ExternError>(
            spec_validate_update_attachment(*action, *attachment, *original_action,
                *original_attachment),
        ),
{
    Ok(ValidateCallbackResult::Valid)
}

/// Rule for deleting an attachment: always valid.
pub open spec fn spec_validate_delete_attachment(
    action: Delete,
    original_action: EntryCreationAction,
    original_attachment: Attachment,
) -> VerdictView {
    VerdictView::Valid
}

/// Rule for deleting an attachment: always valid.
pub fn validate_delete_attachment(
    action: &Delete,
    original_action: &EntryCreationAction,
    original_attachment: &Attachment,
) -> (r: Result<ValidateCallbackResult, ExternError>)
    ensures
        result_view(r) == Ok::<_, ExternError>(
            spec_validate_delete_attachment(*action, *original_action, *original_attachment),
        ),
{
    Ok(ValidateCallbackResult::Valid)
}

/// Rule for creating a descendent room: structurally valid always.
pub open spec fn spec_validate_create_descendent_room(
    action: EntryCreationAction,
    descendent_room: DescendentRoom,
) -> VerdictView {
    VerdictView::Valid
}

/// Rule for creating a descendent room: always valid.
pub fn validate_create_descendent_room(
    action: &EntryCreationAction,
    descendent_room: &DescendentRoom,
) -> (r: Result<ValidateCallbackResult, ExternError>)
    ensures
        result_view(r) == Ok::<_, ExternError>(
            spec_validate_create_descendent_room(*action, *descendent_room),
        ),
{
    Ok(ValidateCallbackResult::Valid)
}

/// Rule for updating a descendent room: never allowed.
pub open spec fn spec_validate_update_descendent_room(
    action: Update,
    descendent_room: DescendentRoom,
    original_action: EntryCreationAction,
    original_descendent_room: DescendentRoom,
) -> VerdictView {
    VerdictView::Invalid("Updating a DescendentRoom entry is not allowed."@)
}

/// Rule for updating a descendent room: never allowed.
pub fn validate_update_descendent_room(
    action: &Update,
    descendent_room: &DescendentRoom,
    original_action: &EntryCreationAction,
    original_descendent_room: &DescendentRoom,
) -> (r: Result<ValidateCallbackResult, ExternError>)
    ensures
        result_view(r) == Ok::<_, ExternError>(
            spec_validate_update_descendent_room(*action, *descendent_room, *original_action,
                *original_descendent_room),
        ),
{
    Ok(
        ValidateCallbackResult::Invalid(
            "Updating a DescendentRoom entry is not allowed.".to_owned(),
        ),
    )
}

/// Rule for deleting a descendent room: never allowed; the kind is
/// non-deletable.
pub open spec fn spec_validate_delete_descendent_room(
    action: Delete,
    original_action: EntryCreationAction,
    original_descendent_room: DescendentRoom,
) -> VerdictView {
    VerdictView::Invalid("Room Infos cannot be deleted"@)
}

/// Rule for deleting a descendent room: never allowed.
pub fn validate_delete_descendent_room(
    action: &Delete,
    original_action: &EntryCreationAction,
    original_descendent_room: &DescendentRoom,
) -> (r: Result<ValidateCallbackResult, ExternError>)
    ensures
        result_view(r) == Ok::<_, ExternError>(
            spec_validate_delete_descendent_room(*action, *original_action,
                *original_descendent_room),
        ),
{
    Ok(ValidateCallbackResult::Invalid("Room Infos cannot be deleted".to_owned()))
}

// ---------------------------------------------------------------------
// Per-kind rules: links.
// ---------------------------------------------------------------------

/// Rule for registering at the agents anchor: peers may only register
/// themselves — the link target must be an agent key and must equal the
/// link's author.
pub open spec fn spec_validate_create_link_all_agents(action: CreateLink) -> VerdictView {
    if action.target_address.kind != HashKind::Agent {
        VerdictView::Invalid("AllAgents link target is not an agent public key."@)
    } else if action.author@ != action.target_address.bytes@ {
        VerdictView::Invalid("Links from the ALL_AGENTS anchor can only be created for oneself."@)
    } else {
        VerdictView::Valid
    }
}

/// Rule for registering at the agents anchor; see
/// [`spec_validate_create_link_all_agents`].
pub fn validate_create_link_all_agents(
    action: &CreateLink,
    base_address: &AnyLinkableHash,
    target_address: &AnyLinkableHash,
    tag: &Vec<u8>,
) -> (r: Result<ValidateCallbackResult, ExternError>)
    ensures
        result_view(r) == Ok::<_, ExternError>(spec_validate_create_link_all_agents(*action)),
{
    let target_pubkey = match action.target_address.into_agent_pub_key() {
        Some(pubkey) => pubkey,
        None => {
            return Ok(
                ValidateCallbackResult::Invalid(
                    "AllAgents link target is not an agent public key.".to_owned(),
                ),
            );
        },
    };
    if !(action.author == target_pubkey) {
        return Ok(
            ValidateCallbackResult::Invalid(
                "Links from the ALL_AGENTS anchor can only be created for oneself.".to_owned(),
            ),
        );
    }
    Ok(ValidateCallbackResult::Valid)
}

/// Rule for unregistering from the agents anchor: never allowed; the
/// roster is append-only.
pub open spec fn spec_validate_delete_link_all_agents(
    action: DeleteLink,
    original_action: CreateLink,
) -> VerdictView {
    VerdictView::Invalid("AllAgent links cannot be deleted."@)
}

/// Rule for unregistering from the agents anchor: never allowed.
pub fn validate_delete_link_all_agents(
    action: &DeleteLink,
    original_action: &CreateLink,
    base: &AnyLinkableHash,
    target: &AnyLinkableHash,
    tag: &Vec<u8>,
) -> (r: Result<ValidateCallbackResult, ExternError>)
    ensures
        result_view(r) == Ok::<_, ExternError>(
            spec_validate_delete_link_all_agents(*action, *original_action),
        ),
{
    Ok(ValidateCallbackResult::Invalid("AllAgent links cannot be deleted.".to_owned()))
}

/// Rule for registering a descendent room: the same self-registration rule
/// as the agents anchor, and the tag must decode as text (it carries the
/// sub-network's seed appendix).
pub open spec fn spec_validate_create_link_all_descendent_rooms(
    action: CreateLink,
    tag: Seq<u8>,
) -> VerdictView {
    if action.target_address.kind != HashKind::Agent {
        VerdictView::Invalid("AllDescendentRooms link target is not an agent public key."@)
    } else if action.author@ != action.target_address.bytes@ {
        VerdictView::Invalid(
            "Links from the ALL_DESCENDENT_ROOMS anchor can only be created for oneself."@,
        )
    } else if !is_utf8(tag) {
        VerdictView::Invalid("LinkTag is of a format that cannot be converted to a String"@)
    } else {
        VerdictView::Valid
    }
}

/// Rule for registering a descendent room; see
/// [`spec_validate_create_link_all_descendent_rooms`].
pub fn validate_create_link_all_descendent_rooms(
    action: &CreateLink,
    base_address: &AnyLinkableHash,
    target_address: &AnyLinkableHash,
    tag: &Vec<u8>,
) -> (r: Result<ValidateCallbackResult, ExternError>)
    ensures
        result_view(r) == Ok::<_, ExternError>(
            spec_validate_create_link_all_descendent_rooms(*action, tag@),
        ),
{
    let target_pubkey = match action.target_address.into_agent_pub_key() {
        Some(pubkey) => pubkey,
        None => {
            return Ok(
                ValidateCallbackResult::Invalid(
                    "AllDescendentRooms link target is not an agent public key.".to_owned(),
                ),
            );
        },
    };
    if !(action.author == target_pubkey) {
        return Ok(
            ValidateCallbackResult::Invalid(
                "Links from the ALL_DESCENDENT_ROOMS anchor can only be created for oneself."
                    .to_owned(),
            ),
        );
    }
    match decode_text(tag) {
        Some(_) => Ok(ValidateCallbackResult::Valid),
        None => Ok(
            ValidateCallbackResult::Invalid(
                "LinkTag is of a format that cannot be converted to a String".to_owned(),
            ),
        ),
    }
}

/// Rule for removing a descendent-room registration: anyone may.
pub open spec fn spec_validate_delete_link_all_descendent_rooms(
    action: DeleteLink,
    original_action: CreateLink,
) -> VerdictView {
    VerdictView::Valid
}

/// Rule for removing a descendent-room registration: always valid.
pub fn validate_delete_link_all_descendent_rooms(
    action: &DeleteLink,
    original_action: &CreateLink,
    base: &AnyLinkableHash,
    target: &AnyLinkableHash,
    tag: &Vec<u8>,
) -> (r: Result<ValidateCallbackResult, ExternError>)
    ensures
        result_view(r) == Ok::<_, ExternError>(
            spec_validate_delete_link_all_descendent_rooms(*action, *original_action),
        ),
{
    Ok(ValidateCallbackResult::Valid)
}

/// Rule for a room-info revision link: its base must be the room-info
/// anchor, and its target must resolve to a record whose entry really is a
/// room info.  A link that does not point index-to-record correctly is
/// rejected — a verdict, not an error; the one hard error is a target
/// record this peer cannot fetch yet.
pub open spec fn spec_validate_create_link_room_info_updates(
    base_address: AnyLinkableHash,
    target_address: AnyLinkableHash,
    store: Store,
) -> Result<VerdictView, ExternError> {
    if base_address.kind != HashKind::Entry {
        Ok(VerdictView::Invalid("Base address of a RoomInfoUpdates link must be an entry hash."@))
    } else if base_address.bytes@ != path_digest("ROOM_INFO"@) {
        Ok(
            VerdictView::Invalid(
                "RoomInfoUpdates links must have the RoomInfo anchor as their base."@,
            ),
        )
    } else if target_address.kind != HashKind::Action {
        Ok(VerdictView::Invalid("Link to RoomInfo entry is not an action hash"@))
    } else {
        match spec_find_record(store.records@, HashKind::Action, target_address.bytes@) {
            None => Err(ExternError::MissingDependency(ActionHash { bytes: target_address.bytes })),
            Some(record) => match record.entry {
                RecordEntry::Present(EntryTypes::RoomInfo(_)) => Ok(VerdictView::Valid),
                _ => Ok(VerdictView::Invalid("Linked action must point to a RoomInfo entry"@)),
            },
        }
    }
}

/// Rule for a room-info revision link; see
/// [`spec_validate_create_link_room_info_updates`].
pub fn validate_create_link_room_info_updates(
    action: &CreateLink,
    base_address: &AnyLinkableHash,
    target_address: &AnyLinkableHash,
    tag: &Vec<u8>,
    store: &Store,
) -> (r: Result<ValidateCallbackResult, ExternError>)
    ensures
        result_view(r) == spec_validate_create_link_room_info_updates(
            *base_address,
            *target_address,
            *store,
        ),
{
    proof {
        reveal_strlit("ROOM_INFO");
    }
    let path_entry_hash = crate::anchor::anchor_hash("ROOM_INFO");
    let base_entry_hash = match base_address.into_entry_hash() {
        Some(eh) => eh,
        None => {
            return Ok(
                ValidateCallbackResult::Invalid(
                    "Base address of a RoomInfoUpdates link must be an entry hash.".to_owned(),
                ),
            );
        },
    };
    if !(base_entry_hash == path_entry_hash) {
        return Ok(
            ValidateCallbackResult::Invalid(
                "RoomInfoUpdates links must have the RoomInfo anchor as their base.".to_owned(),
            ),
        );
    }
    let room_info_action_hash = match target_address.into_action_hash() {
        Some(ah) => ah,
        None => {
            return Ok(
                ValidateCallbackResult::Invalid(
                    "Link to RoomInfo entry is not an action hash".to_owned(),
                ),
            );
        },
    };
    let record = match store.get_record(&room_info_action_hash) {
        Some(record) => record,
        None => {
            return Err(ExternError::MissingDependency(room_info_action_hash));
        },
    };
    match &record.entry {
        RecordEntry::Present(EntryTypes::RoomInfo(_)) => Ok(ValidateCallbackResult::Valid),
        _ => Ok(
            ValidateCallbackResult::Invalid(
                "Linked action must point to a RoomInfo entry".to_owned(),
            ),
        ),
    }
}

/// Rule for deleting a room-info revision link: never allowed; the
/// revision history must not be erasable.
pub open spec fn spec_validate_delete_link_room_info_updates(
    action: DeleteLink,
    original_action: CreateLink,
) -> VerdictView {
    VerdictView::Invalid("RoomInfoUpdates links cannot be deleted"@)
}

/// Rule for deleting a room-info revision link: never allowed.
pub fn validate_delete_link_room_info_updates(
    action: &DeleteLink,
    original_action: &CreateLink,
    base: &AnyLinkableHash,
    target: &AnyLinkableHash,
    tag: &Vec<u8>,
) -> (r: Result<ValidateCallbackResult, ExternError>)
    ensures
        result_view(r) == Ok::<_, ExternError>(
            spec_validate_delete_link_room_info_updates(*action, *original_action),
        ),
{
    Ok(ValidateCallbackResult::Invalid("RoomInfoUpdates links cannot be deleted".to_owned()))
}

/// Rule for an attachment revision link: always valid.
pub open spec fn spec_validate_create_link_attachment_updates(action: CreateLink) -> VerdictView {
    VerdictView::Valid
}

/// Rule for an attachment revision link: always valid.
pub fn validate_create_link_attachment_updates(
    action: &CreateLink,
    base_address: &AnyLinkableHash,
    target_address: &AnyLinkableHash,
    tag: &Vec<u8>,
) -> (r: Result<ValidateCallbackResult, ExternError>)
    ensures
        result_view(r) == Ok::<_, ExternError>(
            spec_validate_create_link_attachment_updates(*action),
        ),
{
    Ok(ValidateCallbackResult::Valid)
}

/// Rule for deleting an attachment revision link: always valid.
pub open spec fn spec_validate_delete_link_attachment_updates(
    action: DeleteLink,
    original_action: CreateLink,
) -> VerdictView {
    VerdictView::Valid
}

/// Rule for deleting an attachment revision link: always valid.
pub fn validate_delete_link_attachment_updates(
    action: &DeleteLink,
    original_action: &CreateLink,
    base: &AnyLinkableHash,
    target: &AnyLinkableHash,
    tag: &Vec<u8>,
) -> (r: Result<ValidateCallbackResult, ExternError>)
    ensures
        result_view(r) == Ok::<_, ExternError>(
            spec_validate_delete_link_attachment_updates(*action, *original_action),
        ),
{
    Ok(ValidateCallbackResult::Valid)
}

/// Rule for registering an attachment: always valid.
pub open spec fn spec_validate_create_link_all_attachments(action: CreateLink) -> VerdictView {
    VerdictView::Valid
}

/// Rule for registering an attachment: always valid.
pub fn validate_create_link_all_attachments(
    action: &CreateLink,
    base_address: &AnyLinkableHash,
    target_address: &AnyLinkableHash,
    tag: &Vec<u8>,
) -> (r: Result<ValidateCallbackResult, ExternError>)
    ensures
        result_view(r) == Ok::<_, ExternError>(spec_validate_create_link_all_attachments(*action)),
{
    Ok(ValidateCallbackResult::Valid)
}

/// Rule for removing an attachment registration: always valid.
pub open spec fn spec_validate_delete_link_all_attachments(
    action: DeleteLink,
    original_action: CreateLink,
) -> VerdictView {
    VerdictView::Valid
}

/// Rule for removing an attachment registration: always valid.
pub fn validate_delete_link_all_attachments(
    action: &DeleteLink,
    original_action: &CreateLink,
    base: &AnyLinkableHash,
    target: &AnyLinkableHash,
    tag: &Vec<u8>,
) -> (r: Result<ValidateCallbackResult, ExternError>)
    ensures
        result_view(r) == Ok::<_, ExternError>(
            spec_validate_delete_link_all_attachments(*action, *original_action),
        ),
{
    Ok(ValidateCallbackResult::Valid)
}

// ---------------------------------------------------------------------
// Agent joining.
// ---------------------------------------------------------------------

/// Self-check run at genesis: nothing is gated here.
pub fn genesis_self_check() -> (r: Result<ValidateCallbackResult, ExternError>)
    ensures
        result_view(r) == Ok::<_, ExternError>(VerdictView::Valid),
{
    Ok(ValidateCallbackResult::Valid)
}

/// Join gate: membrane-proof content is accepted unconditionally.
pub fn validate_agent_joining(agent_pub_key: &AgentPubKey, membrane_proof: &Option<Vec<u8>>) -> (r:
    Result<ValidateCallbackResult, ExternError>)
    ensures
        result_view(r) == Ok::<_, ExternError>(VerdictView::Valid),
{
    Ok(ValidateCallbackResult::Valid)
}

// ---------------------------------------------------------------------
// The decision table, whole.
// ---------------------------------------------------------------------

/// The creation rule for an entry, dispatched by its kind.
pub open spec fn spec_validate_creation(
    action: EntryCreationAction,
    app_entry: EntryTypes,
) -> VerdictView {
    match app_entry {
        EntryTypes::RoomInfo(room_info) => spec_validate_create_room_info(action, room_info),
        EntryTypes::Attachment(attachment) => spec_validate_create_attachment(action, attachment),
        EntryTypes::DescendentRoom(descendent_room) => spec_validate_create_descendent_room(
            action,
            descendent_room,
        ),
    }
}

/// Verdict on an operation that stores an entry.
pub open spec fn spec_validate_store_entry(op_entry: OpEntry) -> Result<VerdictView, ExternError> {
    match op_entry {
        OpEntry::CreateEntry { app_entry, action } => Ok(
            spec_validate_creation(EntryCreationAction::Create(action), app_entry),
        ),
        OpEntry::UpdateEntry { app_entry, action, .. } => Ok(
            spec_validate_creation(EntryCreationAction::Update(action), app_entry),
        ),
        _ => Ok(VerdictView::Valid),
    }
}

/// Verdict on an operation that registers an update against its original.
pub open spec fn spec_validate_register_update(op_update: OpUpdate, store: Store) -> Result<
    VerdictView,
    ExternError,
> {
    match op_update {
        OpUpdate::Entry { app_entry, action } => {
            match spec_find_record(
                store.records@,
                HashKind::Action,
                action.original_action_address@,
            ) {
                None => Err(ExternError::MissingDependency(action.original_action_address)),
                Some(original_record) => match spec_creation_of(original_record.action) {
                    None => Ok(
                        VerdictView::Invalid("Expected to get EntryCreationAction from Action"@),
                    ),
                    Some(original_create_action) => match app_entry {
                        EntryTypes::RoomInfo(room_info) => match original_record.entry {
                            RecordEntry::Present(
                                EntryTypes::RoomInfo(original_room_info),
                            ) => Ok(
                                spec_validate_update_room_info(
                                    action,
                                    room_info,
                                    original_create_action,
                                    original_room_info,
                                ),
                            ),
                            _ => Ok(VerdictView::Invalid("Expected to get RoomInfo from Record"@)),
                        },
                        EntryTypes::Attachment(attachment) => match original_record.entry {
                            RecordEntry::Present(
                                EntryTypes::Attachment(original_attachment),
                            ) => Ok(
                                spec_validate_update_attachment(
                                    action,
                                    attachment,
                                    original_create_action,
                                    original_attachment,
                                ),
                            ),
                            _ => Ok(
                                VerdictView::Invalid("Expected to get Attachment from Record"@),
                            ),
                        },
                        EntryTypes::DescendentRoom(descendent_room) => match original_record.entry {
                            RecordEntry::Present(
                                EntryTypes::DescendentRoom(original_descendent_room),
                            ) => Ok(
                                spec_validate_update_descendent_room(
                                    action,
                                    descendent_room,
                                    original_create_action,
                                    original_descendent_room,
                                ),
                            ),
                            _ => Ok(
                                VerdictView::Invalid(
                                    "Expected to get DescendentRoom from Record"@,
                                ),
                            ),
                        },
                    },
                },
            }
        },
        _ => Ok(VerdictView::Valid),
    }
}

/// The deletion rule for an entry, dispatched by its kind.
pub open spec fn spec_validate_deletion(
    action: Delete,
    original_action: EntryCreationAction,
    original_app_entry: EntryTypes,
) -> VerdictView {
    match original_app_entry {
        EntryTypes::RoomInfo(room_info) => spec_validate_delete_room_info(
            action,
            original_action,
            room_info,
        ),
        EntryTypes::Attachment(attachment) => spec_validate_delete_attachment(
            action,
            original_action,
            attachment,
        ),
        EntryTypes::DescendentRoom(descendent_room) => spec_validate_delete_descendent_room(
            action,
            original_action,
            descendent_room,
        ),
    }
}

/// Verdict on an operation that registers a delete against its original.
pub open spec fn spec_validate_register_delete(action: Delete, store: Store) -> Result<
    VerdictView,
    ExternError,
> {
    match spec_find_record(store.records@, HashKind::Action, action.deletes_address@) {
        None => Err(ExternError::MissingDependency(action.deletes_address)),
        Some(original_record) => match spec_creation_of(original_record.action) {
            None => Ok(VerdictView::Invalid("Expected to get EntryCreationAction from Action"@)),
            Some(original_action) => match original_action.spec_entry_type() {
                EntryType::App(def) => match original_record.entry {
                    RecordEntry::Absent => Ok(
                        VerdictView::Invalid("Original record for a delete must contain an entry"@),
                    ),
                    entry => match spec_deserialize_from_type(
                        def.zome_index,
                        def.entry_index,
                        entry,
                    ) {
                        None => Ok(
                            VerdictView::Invalid(
                                "Original app entry must be one of the defined entry types for this zome"@,
                            ),
                        ),
                        Some(original_app_entry) => Ok(
                            spec_validate_deletion(action, original_action, original_app_entry),
                        ),
                    },
                },
                _ => Ok(VerdictView::Valid),
            },
        },
    }
}

/// Verdict on a link creation, dispatched by the link kind.
pub open spec fn spec_validate_create_link(
    link_type: LinkTypes,
    base_address: AnyLinkableHash,
    target_address: AnyLinkableHash,
    tag: Seq<u8>,
    action: CreateLink,
    store: Store,
) -> Result<VerdictView, ExternError> {
    match link_type {
        LinkTypes::RoomInfoUpdates => spec_validate_create_link_room_info_updates(
            base_address,
            target_address,
            store,
        ),
        LinkTypes::AllAgents => Ok(spec_validate_create_link_all_agents(action)),
        LinkTypes::AllDescendentRooms => Ok(
            spec_validate_create_link_all_descendent_rooms(action, tag),
        ),
        LinkTypes::AttachmentUpdates => Ok(spec_validate_create_link_attachment_updates(action)),
        LinkTypes::AllAttachments => Ok(spec_validate_create_link_all_attachments(action)),
    }
}

/// Verdict on a link deletion, dispatched by the link kind.
pub open spec fn spec_validate_delete_link(
    link_type: LinkTypes,
    action: DeleteLink,
    original_action: CreateLink,
) -> Result<VerdictView, ExternError> {
    match link_type {
        LinkTypes::RoomInfoUpdates => Ok(
            spec_validate_delete_link_room_info_updates(action, original_action),
        ),
        LinkTypes::AllAgents => Ok(spec_validate_delete_link_all_agents(action, original_action)),
        LinkTypes::AllDescendentRooms => Ok(
            spec_validate_delete_link_all_descendent_rooms(action, original_action),
        ),
        LinkTypes::AttachmentUpdates => Ok(
            spec_validate_delete_link_attachment_updates(action, original_action),
        ),
        LinkTypes::AllAttachments => Ok(
            spec_validate_delete_link_all_attachments(action, original_action),
        ),
    }
}

/// Verdict on an operation that stores a whole record.
pub open spec fn spec_validate_store_record(op_record: OpRecord, store: Store) -> Result<
    VerdictView,
    ExternError,
> {
    match op_record {
        OpRecord::CreateEntry { app_entry, action } => Ok(
            spec_validate_creation(EntryCreationAction::Create(action), app_entry),
        ),
        OpRecord::UpdateEntry { original_action_hash, app_entry, action } => {
            match spec_find_record(store.records@, HashKind::Action, original_action_hash@) {
                None => Err(ExternError::MissingDependency(original_action_hash)),
                Some(original_record) => match spec_creation_of(original_record.action) {
                    None => Ok(
                        VerdictView::Invalid(
                            "Original action for an update must be a Create or Update action"@,
                        ),
                    ),
                    Some(original_action) => {
                        let first = spec_validate_creation(
                            EntryCreationAction::Update(action),
                            app_entry,
                        );
                        if !(first is Valid) {
                            Ok(first)
                        } else {
                            match app_entry {
                                EntryTypes::RoomInfo(room_info) => match original_record.entry {
                                    RecordEntry::Present(
                                        EntryTypes::RoomInfo(original_room_info),
                                    ) => Ok(
                                        spec_validate_update_room_info(
                                            action,
                                            room_info,
                                            original_action,
                                            original_room_info,
                                        ),
                                    ),
                                    _ => Ok(
                                        VerdictView::Invalid(
                                            "The updated entry type must be the same as the original entry type"@,
                                        ),
                                    ),
                                },
                                EntryTypes::Attachment(attachment) => match original_record.entry {
                                    RecordEntry::Present(
                                        EntryTypes::Attachment(original_attachment),
                                    ) => Ok(
                                        spec_validate_update_attachment(
                                            action,
                                            attachment,
                                            original_action,
                                            original_attachment,
                                        ),
                                    ),
                                    _ => Ok(
                                        VerdictView::Invalid(
                                            "The updated entry type must be the same as the original entry type"@,
                                        ),
                                    ),
                                },
                                EntryTypes::DescendentRoom(descendent_room) => match original_record.entry {
                                    RecordEntry::Present(
                                        EntryTypes::DescendentRoom(original_descendent_room),
                                    ) => Ok(
                                        spec_validate_update_descendent_room(
                                            action,
                                            descendent_room,
                                            original_action,
                                            original_descendent_room,
                                        ),
                                    ),
                                    _ => Ok(
                                        VerdictView::Invalid(
                                            "The updated entry type must be the same as the original entry type"@,
                                        ),
                                    ),
                                },
                            }
                        }
                    },
                },
            }
        },
        OpRecord::DeleteEntry { original_action_hash, action } => {
            match spec_find_record(store.records@, HashKind::Action, original_action_hash@) {
                None => Err(ExternError::MissingDependency(original_action_hash)),
                Some(original_record) => match spec_creation_of(original_record.action) {
                    None => Ok(
                        VerdictView::Invalid(
                            "Original action for a delete must be a Create or Update action"@,
                        ),
                    ),
                    Some(original_action) => match original_action.spec_entry_type() {
                        EntryType::App(def) => match original_record.entry {
                            RecordEntry::Absent => if original_action.spec_entry_type().spec_is_public() {
                                Ok(
                                    VerdictView::Invalid(
                                        "Original record for a delete of a public entry must contain an entry"@,
                                    ),
                                )
                            } else {
                                Ok(VerdictView::Valid)
                            },
                            entry => match spec_deserialize_from_type(
                                def.zome_index,
                                def.entry_index,
                                entry,
                            ) {
                                None => Ok(
                                    VerdictView::Invalid(
                                        "Original app entry must be one of the defined entry types for this zome"@,
                                    ),
                                ),
                                Some(original_app_entry) => Ok(
                                    spec_validate_deletion(
                                        action,
                                        original_action,
                                        original_app_entry,
                                    ),
                                ),
                            },
                        },
                        _ => Ok(VerdictView::Valid),
                    },
                },
            }
        },
        OpRecord::CreateLink { base_address, target_address, tag, link_type, action } => {
            spec_validate_create_link(link_type, base_address, target_address, tag@, action, store)
        },
        OpRecord::DeleteLink { original_action_hash, base_address, action } => {
            match spec_find_record(store.records@, HashKind::Action, original_action_hash@) {
                None => Err(ExternError::MissingDependency(original_action_hash)),
                Some(record) => match record.action {
                    Action::CreateLink(create_link) => match LinkTypes::spec_from_type(
                        create_link.zome_index,
                        create_link.link_type,
                    ) {
                        None => Ok(VerdictView::Valid),
                        Some(link_type) => spec_validate_delete_link(link_type, action, create_link),
                    },
                    _ => Ok(
                        VerdictView::Invalid(
                            "The action that a DeleteLink deletes must be a CreateLink"@,
                        ),
                    ),
                },
            }
        },
        _ => Ok(VerdictView::Valid),
    }
}

/// Verdict on an operation that registers chain activity.
pub open spec fn spec_validate_agent_activity(activity: OpActivity, store: Store) -> Result<
    VerdictView,
    ExternError,
> {
    match activity {
        OpActivity::CreateAgent { agent, action } => {
            match spec_find_record(store.records@, HashKind::Action, action.prev_action@) {
                None => Err(ExternError::MissingDependency(action.prev_action)),
                Some(previous) => match previous.action {
                    Action::AgentValidationPkg(_) => Ok(VerdictView::Valid),
                    _ => Ok(
                        VerdictView::Invalid(
                            "The previous action for a `CreateAgent` action must be an `AgentValidationPkg`"@,
                        ),
                    ),
                },
            }
        },
        _ => Ok(VerdictView::Valid),
    }
}

/// The whole decision table: the verdict every honest peer reaches on an
/// operation, given the records it can see.  Anything not explicitly
/// restricted is valid.
pub open spec fn spec_validate(op: Op, store: Store) -> Result<VerdictView, ExternError> {
    match op {
        Op::StoreEntry(op_entry) => spec_validate_store_entry(op_entry),
        Op::RegisterUpdate(op_update) => spec_validate_register_update(op_update, store),
        Op::RegisterDelete { action } => spec_validate_register_delete(action, store),
        Op::RegisterCreateLink { link_type, base_address, target_address, tag, action } => {
            spec_validate_create_link(link_type, base_address, target_address, tag@, action, store)
        },
        Op::RegisterDeleteLink { link_type, original_action, action, .. } => {
            spec_validate_delete_link(link_type, action, original_action)
        },
        Op::StoreRecord(op_record) => spec_validate_store_record(op_record, store),
        Op::RegisterAgentActivity(activity) => spec_validate_agent_activity(activity, store),
    }
}

/// The creation rule for an entry, dispatched by its kind.
fn validate_creation(action: &EntryCreationAction, app_entry: &EntryTypes) -> (r: Result<
    ValidateCallbackResult,
    ExternError,
>)
    ensures
        result_view(r) == Ok::<_, ExternError>(spec_validate_creation(*action, *app_entry)),
{
    match app_entry {
        EntryTypes::RoomInfo(room_info) => validate_create_room_info(action, room_info),
        EntryTypes::Attachment(attachment) => validate_create_attachment(action, attachment),
        EntryTypes::DescendentRoom(descendent_room) => validate_create_descendent_room(
            action,
            descendent_room,
        ),
    }
}

/// The deletion rule for an entry, dispatched by its kind.
fn validate_deletion(
    action: &Delete,
    original_action: &EntryCreationAction,
    original_app_entry: &EntryTypes,
) -> (r: Result<ValidateCallbackResult, ExternError>)
    ensures
        result_view(r) == Ok::<_, ExternError>(
            spec_validate_deletion(*action, *original_action, *original_app_entry),
        ),
{
    match original_app_entry {
        EntryTypes::RoomInfo(room_info) => validate_delete_room_info(
            action,
            original_action,
            room_info,
        ),
        EntryTypes::Attachment(attachment) => validate_delete_attachment(
            action,
            original_action,
            attachment,
        ),
        EntryTypes::DescendentRoom(descendent_room) => validate_delete_descendent_room(
            action,
            original_action,
            descendent_room,
        ),
    }
}

/// Verdict on a link creation, dispatched by the link kind.
fn validate_create_link_dispatch(
    link_type: &LinkTypes,
    base_address: &AnyLinkableHash,
    target_address: &AnyLinkableHash,
    tag: &Vec<u8>,
    action: &CreateLink,
    store: &Store,
) -> (r: Result<ValidateCallbackResult, ExternError>)
    ensures
        result_view(r) == spec_validate_create_link(
            *link_type,
            *base_address,
            *target_address,
            tag@,
            *action,
            *store,
        ),
{
    match link_type {
        LinkTypes::RoomInfoUpdates => validate_create_link_room_info_updates(
            action,
            base_address,
            target_address,
            tag,
            store,
        ),
        LinkTypes::AllAgents => validate_create_link_all_agents(
            action,
            base_address,
            target_address,
            tag,
        ),
        LinkTypes::AllDescendentRooms => validate_create_link_all_descendent_rooms(
            action,
            base_address,
            target_address,
            tag,
        ),
        LinkTypes::AttachmentUpdates => validate_create_link_attachment_updates(
            action,
            base_address,
            target_address,
            tag,
        ),
        LinkTypes::AllAttachments => validate_create_link_all_attachments(
            action,
            base_address,
            target_address,
            tag,
        ),
    }
}

/// Verdict on a link deletion, dispatched by the link kind.
fn validate_delete_link_dispatch(
    link_type: &LinkTypes,
    action: &DeleteLink,
    original_action: &CreateLink,
    base_address: &AnyLinkableHash,
    target_address: &AnyLinkableHash,
    tag: &Vec<u8>,
) -> (r: Result<ValidateCallbackResult, ExternError>)
    ensures
        result_view(r) == spec_validate_delete_link(*link_type, *action, *original_action),
{
    match link_type {
        LinkTypes::RoomInfoUpdates => validate_delete_link_room_info_updates(
            action,
            original_action,
            base_address,
            target_address,
            tag,
        ),
        LinkTypes::AllAgents => validate_delete_link_all_agents(
            action,
            original_action,
            base_address,
            target_address,
            tag,
        ),
        LinkTypes::AllDescendentRooms => validate_delete_link_all_descendent_rooms(
            action,
            original_action,
            base_address,
            target_address,
            tag,
        ),
        LinkTypes::AttachmentUpdates => validate_delete_link_attachment_updates(
            action,
            original_action,
            base_address,
            target_address,
            tag,
        ),
        LinkTypes::AllAttachments => validate_delete_link_all_attachments(
            action,
            original_action,
            base_address,
            target_address,
            tag,
        ),
    }
}

/// The validation engine: decides acceptance of one operation against the
/// records this peer can see, returning exactly the verdict of the
/// decision table [`spec_validate`].
///
/// A missing dependency is a hard error — the operation cannot be judged
/// yet — never a verdict.
pub fn validate(op: &Op, store: &Store) -> (r: Result<ValidateCallbackResult, ExternError>)
    ensures
        result_view(r) == spec_validate(*op, *store),
{
    match op {
        Op::StoreEntry(op_entry) => match op_entry {
            OpEntry::CreateEntry { app_entry, action } => {
                validate_creation(&EntryCreationAction::Create(*action), app_entry)
            },
            OpEntry::UpdateEntry { app_entry, action, .. } => {
                validate_creation(&EntryCreationAction::Update(*action), app_entry)
            },
            _ => Ok(ValidateCallbackResult::Valid),
        },
        Op::RegisterUpdate(op_update) => match op_update {
            OpUpdate::Entry { app_entry, action } => {
                let original_record = match store.get_record(&action.original_action_address) {
                    Some(record) => record,
                    None => {
                        return Err(ExternError::MissingDependency(action.original_action_address));
                    },
                };
                let original_create_action = match creation_of(&original_record.action) {
                    Some(creation) => creation,
                    None => {
                        return Ok(
                            ValidateCallbackResult::Invalid(
                                "Expected to get EntryCreationAction from Action".to_owned(),
                            ),
                        );
                    },
                };
                match app_entry {
                    EntryTypes::RoomInfo(room_info) => match &original_record.entry {
                        RecordEntry::Present(EntryTypes::RoomInfo(original_room_info)) => {
                            validate_update_room_info(
                                action,
                                room_info,
                                &original_create_action,
                                original_room_info,
                            )
                        },
                        _ => Ok(
                            ValidateCallbackResult::Invalid(
                                "Expected to get RoomInfo from Record".to_owned(),
                            ),
                        ),
                    },
                    EntryTypes::Attachment(attachment) => match &original_record.entry {
                        RecordEntry::Present(EntryTypes::Attachment(original_attachment)) => {
                            validate_update_attachment(
                                action,
                                attachment,
                                &original_create_action,
                                original_attachment,
                            )
                        },
                        _ => Ok(
                            ValidateCallbackResult::Invalid(
                                "Expected to get Attachment from Record".to_owned(),
                            ),
                        ),
                    },
                    EntryTypes::DescendentRoom(descendent_room) => match &original_record.entry {
                        RecordEntry::Present(
                            EntryTypes::DescendentRoom(original_descendent_room),
                        ) => {
                            validate_update_descendent_room(
                                action,
                                descendent_room,
                                &original_create_action,
                                original_descendent_room,
                            )
                        },
                        _ => Ok(
                            ValidateCallbackResult::Invalid(
                                "Expected to get DescendentRoom from Record".to_owned(),
                            ),
                        ),
                    },
                }
            },
            _ => Ok(ValidateCallbackResult::Valid),
        },
        Op::RegisterDelete { action } => {
            let original_record = match store.get_record(&action.deletes_address) {
                Some(record) => record,
                None => {
                    return Err(ExternError::MissingDependency(action.deletes_address));
                },
            };
            let original_action = match creation_of(&original_record.action) {
                Some(creation) => creation,
                None => {
                    return Ok(
                        ValidateCallbackResult::Invalid(
                            "Expected to get EntryCreationAction from Action".to_owned(),
                        ),
                    );
                },
            };
            let app_entry_def = match original_action.entry_type() {
                EntryType::App(def) => def,
                _ => {
                    return Ok(ValidateCallbackResult::Valid);
                },
            };
            if matches!(&original_record.entry, RecordEntry::Absent) {
                return Ok(
                    ValidateCallbackResult::Invalid(
                        "Original record for a delete must contain an entry".to_owned(),
                    ),
                );
            }
            let original_app_entry = match deserialize_from_type(
                app_entry_def.zome_index,
                app_entry_def.entry_index,
                &original_record.entry,
            ) {
                Some(app_entry) => app_entry,
                None => {
                    return Ok(
                        ValidateCallbackResult::Invalid(
                            "Original app entry must be one of the defined entry types for this zome".to_owned(),
                        ),
                    );
                },
            };
            validate_deletion(action, &original_action, original_app_entry)
        },
        Op::RegisterCreateLink { link_type, base_address, target_address, tag, action } => {
            validate_create_link_dispatch(link_type, base_address, target_address, tag, action, store)
        },
        Op::RegisterDeleteLink {
            link_type,
            base_address,
            target_address,
            tag,
            original_action,
            action,
        } => {
            validate_delete_link_dispatch(
                link_type,
                action,
                original_action,
                base_address,
                target_address,
                tag,
            )
        },
        Op::StoreRecord(op_record) => match op_record {
            OpRecord::CreateEntry { app_entry, action } => {
                validate_creation(&EntryCreationAction::Create(*action), app_entry)
            },
            OpRecord::UpdateEntry { original_action_hash, app_entry, action } => {
                let original_record = match store.get_record(original_action_hash) {
                    Some(record) => record,
                    None => {
                        return Err(ExternError::MissingDependency(*original_action_hash));
                    },
                };
                let original_action = match creation_of(&original_record.action) {
                    Some(creation) => creation,
                    None => {
                        return Ok(
                            ValidateCallbackResult::Invalid(
                                "Original action for an update must be a Create or Update action".to_owned(),
                            ),
                        );
                    },
                };
                let first = validate_creation(&EntryCreationAction::Update(*action), app_entry)?;
                match first {
                    ValidateCallbackResult::Valid => match app_entry {
                        EntryTypes::RoomInfo(room_info) => match &original_record.entry {
                            RecordEntry::Present(EntryTypes::RoomInfo(original_room_info)) => {
                                validate_update_room_info(
                                    action,
                                    room_info,
                                    &original_action,
                                    original_room_info,
                                )
                            },
                            _ => Ok(
                                ValidateCallbackResult::Invalid(
                                    "The updated entry type must be the same as the original entry type".to_owned(),
                                ),
                            ),
                        },
                        EntryTypes::Attachment(attachment) => match &original_record.entry {
                            RecordEntry::Present(EntryTypes::Attachment(original_attachment)) => {
                                validate_update_attachment(
                                    action,
                                    attachment,
                                    &original_action,
                                    original_attachment,
                                )
                            },
                            _ => Ok(
                                ValidateCallbackResult::Invalid(
                                    "The updated entry type must be the same as the original entry type".to_owned(),
                                ),
                            ),
                        },
                        EntryTypes::DescendentRoom(descendent_room) => match &original_record.entry {
                            RecordEntry::Present(
                                EntryTypes::DescendentRoom(original_descendent_room),
                            ) => {
                                validate_update_descendent_room(
                                    action,
                                    descendent_room,
                                    &original_action,
                                    original_descendent_room,
                                )
                            },
                            _ => Ok(
                                ValidateCallbackResult::Invalid(
                                    "The updated entry type must be the same as the original entry type".to_owned(),
                                ),
                            ),
                        },
                    },
                    other => Ok(other),
                }
            },
            OpRecord::DeleteEntry { original_action_hash, action } => {
                let original_record = match store.get_record(original_action_hash) {
                    Some(record) => record,
                    None => {
                        return Err(ExternError::MissingDependency(*original_action_hash));
                    },
                };
                let original_action = match creation_of(&original_record.action) {
                    Some(creation) => creation,
                    None => {
                        return Ok(
                            ValidateCallbackResult::Invalid(
                                "Original action for a delete must be a Create or Update action".to_owned(),
                            ),
                        );
                    },
                };
                let app_entry_def = match original_action.entry_type() {
                    EntryType::App(def) => def,
                    _ => {
                        return Ok(ValidateCallbackResult::Valid);
                    },
                };
                if matches!(&original_record.entry, RecordEntry::Absent) {
                    if original_action.entry_type().is_public() {
                        return Ok(
                            ValidateCallbackResult::Invalid(
                                "Original record for a delete of a public entry must contain an entry".to_owned(),
                            ),
                        );
                    } else {
                        return Ok(ValidateCallbackResult::Valid);
                    }
                }
                let original_app_entry = match deserialize_from_type(
                    app_entry_def.zome_index,
                    app_entry_def.entry_index,
                    &original_record.entry,
                ) {
                    Some(app_entry) => app_entry,
                    None => {
                        return Ok(
                            ValidateCallbackResult::Invalid(
                                "Original app entry must be one of the defined entry types for this zome".to_owned(),
                            ),
                        );
                    },
                };
                validate_deletion(action, &original_action, original_app_entry)
            },
            OpRecord::CreateLink { base_address, target_address, tag, link_type, action } => {
                validate_create_link_dispatch(
                    link_type,
                    base_address,
                    target_address,
                    tag,
                    action,
                    store,
                )
            },
            OpRecord::DeleteLink { original_action_hash, base_address, action } => {
                let record = match store.get_record(original_action_hash) {
                    Some(record) => record,
                    None => {
                        return Err(ExternError::MissingDependency(*original_action_hash));
                    },
                };
                let create_link = match &record.action {
                    Action::CreateLink(create_link) => create_link,
                    _ => {
                        return Ok(
                            ValidateCallbackResult::Invalid(
                                "The action that a DeleteLink deletes must be a CreateLink".to_owned(),
                            ),
                        );
                    },
                };
                let link_type = match LinkTypes::from_type(
                    create_link.zome_index,
                    create_link.link_type,
                ) {
                    Some(link_type) => link_type,
                    None => {
                        return Ok(ValidateCallbackResult::Valid);
                    },
                };
                validate_delete_link_dispatch(
                    &link_type,
                    action,
                    create_link,
                    base_address,
                    &create_link.target_address,
                    &create_link.tag,
                )
            },
            _ => Ok(ValidateCallbackResult::Valid),
        },
        Op::RegisterAgentActivity(activity) => match activity {
            OpActivity::CreateAgent { agent, action } => {
                let previous_action = match store.get_record(&action.prev_action) {
                    Some(record) => record,
                    None => {
                        return Err(ExternError::MissingDependency(action.prev_action));
                    },
                };
                match &previous_action.action {
                    Action::AgentValidationPkg(pkg) => {
                        validate_agent_joining(agent, &pkg.membrane_proof)
                    },
                    _ => Ok(
                        ValidateCallbackResult::Invalid(
                            "The previous action for a `CreateAgent` action must be an `AgentValidationPkg`".to_owned(),
                        ),
                    ),
                }
            },
            _ => Ok(ValidateCallbackResult::Valid),
        },
    }
}

// ---------------------------------------------------------------------
// Laws of the validation engine.
// ---------------------------------------------------------------------

/// Law: validation is deterministic.  The verdict is a function of the
/// operation's content and the visible records alone, so any two results
/// that [`validate`]'s contract admits for the same inputs are equal.
pub proof fn lemma_validate_deterministic(
    op: Op,
    store: Store,
    r1: Result<ValidateCallbackResult, ExternError>,
    r2: Result<ValidateCallbackResult, ExternError>,
)
    requires
        result_view(r1) == spec_validate(op, store),
        result_view(r2) == spec_validate(op, store),
    ensures
        result_view(r1) == result_view(r2),
{
}

/// Law: self-registration only.  A link of the membership kind is valid
/// exactly when its target is an agent key and that key is the link's own
/// author; registering anyone else is rejected, whatever the store holds.
pub proof fn lemma_self_registration_only(
    base_address: AnyLinkableHash,
    target_address: AnyLinkableHash,
    tag: Vec<u8>,
    action: CreateLink,
    store: Store,
)
    ensures
        spec_validate(
            Op::RegisterCreateLink {
                link_type: LinkTypes::AllAgents,
                base_address,
                target_address,
                tag,
                action,
            },
            store,
        ) == Ok::<_, ExternError>(VerdictView::Valid) <==> {
            &&& action.target_address.kind == HashKind::Agent
            &&& action.target_address.bytes@ == action.author@
        },
{
}

/// Law: self-registration only, descendent-room variant.  A registration
/// at the descendent-rooms anchor is valid exactly when its target is an
/// agent key equal to the link's own author and its tag decodes as text.
pub proof fn lemma_descendent_room_self_registration(
    base_address: AnyLinkableHash,
    target_address: AnyLinkableHash,
    tag: Vec<u8>,
    action: CreateLink,
    store: Store,
)
    ensures
        spec_validate(
            Op::RegisterCreateLink {
                link_type: LinkTypes::AllDescendentRooms,
                base_address,
                target_address,
                tag,
                action,
            },
            store,
        ) == Ok::<_, ExternError>(VerdictView::Valid) <==> {
            &&& action.target_address.kind == HashKind::Agent
            &&& action.target_address.bytes@ == action.author@
            &&& is_utf8(tag@)
        },
{
}

/// Law: append-only registries are immutable.  Deleting an agents-anchor
/// link or a room-info revision link is rejected unconditionally.
pub proof fn lemma_append_only_registries(
    link_type: LinkTypes,
    base_address: AnyLinkableHash,
    target_address: AnyLinkableHash,
    tag: Vec<u8>,
    original_action: CreateLink,
    action: DeleteLink,
    store: Store,
)
    requires
        link_type == LinkTypes::AllAgents || link_type == LinkTypes::RoomInfoUpdates,
    ensures
        spec_validate(
            Op::RegisterDeleteLink {
                link_type,
                base_address,
                target_address,
                tag,
                original_action,
                action,
            },
            store,
        ) matches Ok(verdict) && verdict is Invalid,
{
}

/// Law: non-deletable kinds.  A delete whose original record resolves to a
/// room info or a descendent room is rejected, regardless of the delete's
/// author or timestamp.
pub proof fn lemma_non_deletable_kinds(action: Delete, store: Store, original_record: Record)
    requires
        spec_find_record(store.records@, HashKind::Action, action.deletes_address@) == Some(
            original_record,
        ),
        spec_creation_of(original_record.action) matches Some(creation) && {
            &&& creation.spec_entry_type() matches EntryType::App(def) && {
                &&& def.zome_index == ROOM_ZOME_INDEX
                &&& original_record.entry matches RecordEntry::Present(app_entry) && {
                    &&& def.entry_index == spec_entry_type_index(app_entry)
                    &&& app_entry is RoomInfo || app_entry is DescendentRoom
                }
            }
        },
    ensures
        spec_validate(Op::RegisterDelete { action }, store) matches Ok(verdict)
            && verdict is Invalid,
{
}

} // verus!
