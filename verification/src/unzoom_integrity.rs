//! The signalling network's validation engine.
//!
//! This network defines no entry types of its own — storing an app entry is
//! rejected outright — and two link kinds: the agents anchor, where a peer
//! may register only itself and may remove only its own registration, and a
//! free agent-anchor kind.  As in the room network, the whole table is
//! stated as [`spec_validate`] and [`validate`] returns exactly it.

use vstd::prelude::*;

use crate::hash::{ActionHash, AgentPubKey, AnyLinkableHash, HashKind};
use crate::store::{spec_find_record, Action, Create, CreateLink, Delete, DeleteLink, OtherAction,
    Store, Update};
use crate::verdict::{result_view, ExternError, ValidateCallbackResult, VerdictView};

verus! {

/// Position of this integrity zome in its network's zome table.
pub const UNZOOM_ZOME_INDEX: u8 = 0;

/// The closed union of link kinds this network defines.
#[derive(Clone, Copy, Debug, PartialEq, Eq, Structural)]
pub enum LinkTypes {
    AnchorToAgent,
    AgentAnchor,
}

impl LinkTypes {
    /// Position of the link kind in this zome's link-type table.
    pub open spec fn spec_index(self) -> u8 {
        match self {
            LinkTypes::AnchorToAgent => 0,
            LinkTypes::AgentAnchor => 1,
        }
    }

    /// Position of the link kind in this zome's link-type table.
    pub fn index(&self) -> (r: u8)
        ensures
            r == self.spec_index(),
    {
        match self {
            LinkTypes::AnchorToAgent => 0,
            LinkTypes::AgentAnchor => 1,
        }
    }

    /// The link kind a scoped (zome, type) pair names, if it is this
    /// zome's.
    pub open spec fn spec_from_type(zome_index: u8, link_type: u8) -> Option<LinkTypes> {
        if zome_index != UNZOOM_ZOME_INDEX {
            None
        } else if link_type == 0 {
            Some(LinkTypes::AnchorToAgent)
        } else if link_type == 1 {
            Some(LinkTypes::AgentAnchor)
        } else {
            None
        }
    }

    /// The link kind a scoped (zome, type) pair names, if it is this
    /// zome's.
    pub fn from_type(zome_index: u8, link_type: u8) -> (r: Option<LinkTypes>)
        ensures
            r == Self::spec_from_type(zome_index, link_type),
    {
        if zome_index != UNZOOM_ZOME_INDEX {
            None
        } else if link_type == 0 {
            Some(LinkTypes::AnchorToAgent)
        } else if link_type == 1 {
            Some(LinkTypes::AgentAnchor)
        } else {
            None
        }
    }
}

/// Rule for registering at the agents anchor: peers may only register
/// themselves — the link target must be an agent key and must equal the
/// link's author.
pub open spec fn spec_validate_create_link_anchor_to_agent(action: CreateLink) -> VerdictView {
    if action.target_address.kind != HashKind::Agent {
        VerdictView::Invalid("AnchorToAgent link target is not an agent public key."@)
    } else if action.author@ != action.target_address.bytes@ {
        VerdictView::Invalid("Links from the ALL_AGENTS anchor can only be created for oneself."@)
    } else {
        VerdictView::Valid
    }
}

/// Rule for registering at the agents anchor; see
/// [`spec_validate_create_link_anchor_to_agent`].
pub fn validate_create_link_anchor_to_agent(
    action: &CreateLink,
    base_address: &AnyLinkableHash,
    target_address: &AnyLinkableHash,
    tag: &Vec<u8>,
) -> (r: Result<ValidateCallbackResult, ExternError>)
    ensures
        result_view(r) == Ok::<_, ExternError>(spec_validate_create_link_anchor_to_agent(*action)),
{
    let target_pubkey = match action.target_address.into_agent_pub_key() {
        Some(pubkey) => pubkey,
        None => {
            return Ok(
                ValidateCallbackResult::Invalid(
                    "AnchorToAgent link target is not an agent public key.".to_owned(),
                ),
            );
        },
    };
    if !(action.author == target_pubkey) {
        return Ok(
            ValidateCallbackResult::Invalid(
                "Links from the ALL_AGENTS anchor can only be created for oneself.".to_owned(),
            ),
        );
    }
    Ok(ValidateCallbackResult::Valid)
}

/// Rule for removing an agents-anchor registration: only the registered
/// agent itself may — the deleted link's target must be an agent key equal
/// to the delete's author.
pub open spec fn spec_validate_delete_link_anchor_to_agent(
    action: DeleteLink,
    target: AnyLinkableHash,
) -> VerdictView {
    if target.kind != HashKind::Agent {
        VerdictView::Invalid("AnchorToAgent link target is not an agent public key."@)
    } else if action.author@ != target.bytes@ {
        VerdictView::Invalid("Only own links from the ALL_AGENTS anchor can be deleted."@)
    } else {
        VerdictView::Valid
    }
}

/// Rule for removing an agents-anchor registration; see
/// [`spec_validate_delete_link_anchor_to_agent`].
pub fn validate_delete_link_anchor_to_agent(
    action: &DeleteLink,
    original_action: &CreateLink,
    base: &AnyLinkableHash,
    target: &AnyLinkableHash,
    tag: &Vec<u8>,
) -> (r: Result<ValidateCallbackResult, ExternError>)
    ensures
        result_view(r) == Ok::<_, ExternError>(
            spec_validate_delete_link_anchor_to_agent(*action, *target),
        ),
{
    let target_pubkey = match target.into_agent_pub_key() {
        Some(pubkey) => pubkey,
        None => {
            return Ok(
                ValidateCallbackResult::Invalid(
                    "AnchorToAgent link target is not an agent public key.".to_owned(),
                ),
            );
        },
    };
    if !(action.author == target_pubkey) {
        return Ok(
            ValidateCallbackResult::Invalid(
                "Only own links from the ALL_AGENTS anchor can be deleted.".to_owned(),
            ),
        );
    }
    Ok(ValidateCallbackResult::Valid)
}

/// Self-check run at genesis: nothing is gated here.
pub fn genesis_self_check() -> (r: Result<ValidateCallbackResult, ExternError>)
    ensures
        result_view(r) == Ok::<_, ExternError>(VerdictView::Valid),
{
    Ok(ValidateCallbackResult::Valid)
}

/// Join gate: membrane-proof content is accepted unconditionally.
pub fn validate_agent_joining(agent_pub_key: &AgentPubKey, membrane_proof: &Option<Vec<u8>>) -> (r:
    Result<ValidateCallbackResult, ExternError>)
    ensures
        result_view(r) == Ok::<_, ExternError>(VerdictView::Valid),
{
    Ok(ValidateCallbackResult::Valid)
}

/// An operation that stores an entry.
pub enum OpEntry {
    CreateEntry { action: Create },
    CreateAgent { agent: AgentPubKey, action: Create },
    UpdateEntry { action: Update },
    UpdateAgent { new_key: AgentPubKey, original_key: AgentPubKey, action: Update },
}

/// An operation that registers an update against its original.
pub enum OpUpdate {
    Entry { action: Update },
    PrivateEntry { action: Update },
    Agent { new_key: AgentPubKey, original_key: AgentPubKey, action: Update },
    CapClaim { action: Update },
    CapGrant { action: Update },
}

/// An operation that registers a delete against its original.
pub enum OpDelete {
    Entry { action: Delete },
    Agent { action: Delete },
    CapClaim { action: Delete },
    CapGrant { action: Delete },
}

/// An operation that stores a whole record, dispatched by its action.
pub enum OpRecord {
    CreateEntry { action: Create },
    UpdateEntry { original_action_hash: ActionHash, action: Update },
    DeleteEntry { original_action_hash: ActionHash, action: Delete },
    CreateLink {
        base_address: AnyLinkableHash,
        target_address: AnyLinkableHash,
        tag: Vec<u8>,
        link_type: LinkTypes,
        action: CreateLink,
    },
    DeleteLink { original_action_hash: ActionHash, base_address: AnyLinkableHash, action: DeleteLink },
    CreatePrivateEntry { action: Create },
    UpdatePrivateEntry { action: Update },
    CreateCapClaim { action: Create },
    CreateCapGrant { action: Create },
    UpdateCapClaim { action: Update },
    UpdateCapGrant { action: Update },
    CreateAgent { agent: AgentPubKey, action: Create },
    UpdateAgent { new_key: AgentPubKey, original_key: AgentPubKey, action: Update },
    Dna { action: OtherAction },
    OpenChain { action: OtherAction },
    CloseChain { action: OtherAction },
    InitZomesComplete { action: OtherAction },
}

/// An operation that registers activity on an agent's own chain.
pub enum OpActivity {
    CreateAgent { agent: AgentPubKey, action: Create },
    UpdateAgent { action: Update },
    CreateEntry { action: Create },
    UpdateEntry { action: Update },
    DeleteEntry { action: Delete },
    CreateLink { action: CreateLink },
    DeleteLink { action: DeleteLink },
    CreatePrivateEntry { action: Create },
    CreateCapClaim { action: Create },
    CreateCapGrant { action: Create },
    AgentValidationPkg { action: crate::store::AgentValidationPkg },
    Dna { action: OtherAction },
    OpenChain { action: OtherAction },
    CloseChain { action: OtherAction },
    InitZomesComplete { action: OtherAction },
}

/// One operation, flattened by structural category, as handed to the
/// validation engine.
pub enum Op {
    StoreEntry(OpEntry),
    RegisterUpdate(OpUpdate),
    RegisterDelete(OpDelete),
    RegisterCreateLink {
        link_type: LinkTypes,
        base_address: AnyLinkableHash,
        target_address: AnyLinkableHash,
        tag: Vec<u8>,
        action: CreateLink,
    },
    RegisterDeleteLink {
        link_type: LinkTypes,
        base_address: AnyLinkableHash,
        target_address: AnyLinkableHash,
        tag: Vec<u8>,
        original_action: CreateLink,
        action: DeleteLink,
    },
    StoreRecord(OpRecord),
    RegisterAgentActivity(OpActivity),
}

/// Verdict on a link creation, dispatched by the link kind.
pub open spec fn spec_validate_create_link(link_type: LinkTypes, action: CreateLink) -> VerdictView {
    match link_type {
        LinkTypes::AnchorToAgent => spec_validate_create_link_anchor_to_agent(action),
        LinkTypes::AgentAnchor => VerdictView::Valid,
    }
}

/// Verdict on a link deletion, dispatched by the link kind.
pub open spec fn spec_validate_delete_link(
    link_type: LinkTypes,
    action: DeleteLink,
    target: AnyLinkableHash,
) -> VerdictView {
    match link_type {
        LinkTypes::AnchorToAgent => spec_validate_delete_link_anchor_to_agent(action, target),
        LinkTypes::AgentAnchor => VerdictView::Valid,
    }
}

/// The whole decision table: no entry types exist, so storing, updating or
/// deleting an app entry is rejected; link operations go by their kind's
/// rule; everything else is valid.
pub open spec fn spec_validate(op: Op, store: Store) -> Result<VerdictView, ExternError> {
    match op {
        Op::StoreEntry(op_entry) => match op_entry {
            OpEntry::CreateEntry { .. } => Ok(
                VerdictView::Invalid("There are no entry types in this integrity zome"@),
            ),
            OpEntry::UpdateEntry { .. } => Ok(
                VerdictView::Invalid("There are no entry types in this integrity zome"@),
            ),
            _ => Ok(VerdictView::Valid),
        },
        Op::RegisterUpdate(op_update) => match op_update {
            OpUpdate::Entry { .. } => Ok(
                VerdictView::Invalid("There are no entry types in this integrity zome"@),
            ),
            _ => Ok(VerdictView::Valid),
        },
        Op::RegisterDelete(op_delete) => match op_delete {
            OpDelete::Entry { .. } => Ok(
                VerdictView::Invalid("There are no entry types in this integrity zome"@),
            ),
            _ => Ok(VerdictView::Valid),
        },
        Op::RegisterCreateLink { link_type, action, .. } => Ok(
            spec_validate_create_link(link_type, action),
        ),
        Op::RegisterDeleteLink { link_type, target_address, action, .. } => Ok(
            spec_validate_delete_link(link_type, action, target_address),
        ),
        Op::StoreRecord(op_record) => match op_record {
            OpRecord::CreateEntry { .. } => Ok(
                VerdictView::Invalid("There are no entry types in this integrity zome"@),
            ),
            OpRecord::UpdateEntry { .. } => Ok(
                VerdictView::Invalid("There are no entry types in this integrity zome"@),
            ),
            OpRecord::DeleteEntry { .. } => Ok(
                VerdictView::Invalid("There are no entry types in this integrity zome"@),
            ),
            OpRecord::CreateLink { link_type, action, .. } => Ok(
                spec_validate_create_link(link_type, action),
            ),
            OpRecord::DeleteLink { original_action_hash, .. } => {
                match spec_find_record(store.records@, HashKind::Action, original_action_hash@) {
                    None => Err(ExternError::MissingDependency(original_action_hash)),
                    Some(record) => match record.action {
                        Action::CreateLink(create_link) => match LinkTypes::spec_from_type(
                            create_link.zome_index,
                            create_link.link_type,
                        ) {
                            None => Ok(VerdictView::Valid),
                            Some(link_type) => {
                                let action = op_record->DeleteLink_action;
                                Ok(
                                    spec_validate_delete_link(
                                        link_type,
                                        action,
                                        create_link.target_address,
                                    ),
                                )
                            },
                        },
                        _ => Ok(
                            VerdictView::Invalid(
                                "The action that a DeleteLink deletes must be a CreateLink"@,
                            ),
                        ),
                    },
                }
            },
            _ => Ok(VerdictView::Valid),
        },
        Op::RegisterAgentActivity(activity) => match activity {
            OpActivity::CreateAgent { agent, action } => {
                match spec_find_record(store.records@, HashKind::Action, action.prev_action@) {
                    None => Err(ExternError::MissingDependency(action.prev_action)),
                    Some(previous) => match previous.action {
                        Action::AgentValidationPkg(_) => Ok(VerdictView::Valid),
                        _ => Ok(
                            VerdictView::Invalid(
                                "The previous action for a `CreateAgent` action must be an `AgentValidationPkg`"@,
                            ),
                        ),
                    },
                }
            },
            _ => Ok(VerdictView::Valid),
        },
    }
}

/// The validation engine: decides acceptance of one operation against the
/// records this peer can see, returning exactly the verdict of the
/// decision table [`spec_validate`].
pub fn validate(op: &Op, store: &Store) -> (r: Result<ValidateCallbackResult, ExternError>)
    ensures
        result_view(r) == spec_validate(*op, *store),
{
    match op {
        Op::StoreEntry(op_entry) => match op_entry {
            OpEntry::CreateEntry { .. } => Ok(
                ValidateCallbackResult::Invalid(
                    "There are no entry types in this integrity zome".to_owned(),
                ),
            ),
            OpEntry::UpdateEntry { .. } => Ok(
                ValidateCallbackResult::Invalid(
                    "There are no entry types in this integrity zome".to_owned(),
                ),
            ),
            _ => Ok(ValidateCallbackResult::Valid),
        },
        Op::RegisterUpdate(op_update) => match op_update {
            OpUpdate::Entry { .. } => Ok(
                ValidateCallbackResult::Invalid(
                    "There are no entry types in this integrity zome".to_owned(),
                ),
            ),
            _ => Ok(ValidateCallbackResult::Valid),
        },
        Op::RegisterDelete(op_delete) => match op_delete {
            OpDelete::Entry { .. } => Ok(
                ValidateCallbackResult::Invalid(
                    "There are no entry types in this integrity zome".to_owned(),
                ),
            ),
            _ => Ok(ValidateCallbackResult::Valid),
        },
        Op::RegisterCreateLink { link_type, base_address, target_address, tag, action } => {
            match link_type {
                LinkTypes::AnchorToAgent => validate_create_link_anchor_to_agent(
                    action,
                    base_address,
                    target_address,
                    tag,
                ),
                LinkTypes::AgentAnchor => Ok(ValidateCallbackResult::Valid),
            }
        },
        Op::RegisterDeleteLink {
            link_type,
            base_address,
            target_address,
            tag,
            original_action,
            action,
        } => match link_type {
            LinkTypes::AnchorToAgent => validate_delete_link_anchor_to_agent(
                action,
                original_action,
                base_address,
                target_address,
                tag,
            ),
            LinkTypes::AgentAnchor => Ok(ValidateCallbackResult::Valid),
        },
        Op::StoreRecord(op_record) => match op_record {
            OpRecord::CreateEntry { .. } => Ok(
                ValidateCallbackResult::Invalid(
                    "There are no entry types in this integrity zome".to_owned(),
                ),
            ),
            OpRecord::UpdateEntry { .. } => Ok(
                ValidateCallbackResult::Invalid(
                    "There are no entry types in this integrity zome".to_owned(),
                ),
            ),
            OpRecord::DeleteEntry { .. } => Ok(
                ValidateCallbackResult::Invalid(
                    "There are no entry types in this integrity zome".to_owned(),
                ),
            ),
            OpRecord::CreateLink { base_address, target_address, tag, link_type, action } => {
                match link_type {
                    LinkTypes::AnchorToAgent => validate_create_link_anchor_to_agent(
                        action,
                        base_address,
                        target_address,
                        tag,
                    ),
                    LinkTypes::AgentAnchor => Ok(ValidateCallbackResult::Valid),
                }
            },
            OpRecord::DeleteLink { original_action_hash, base_address, action } => {
                let record = match store.get_record(original_action_hash) {
                    Some(record) => record,
                    None => {
                        return Err(ExternError::MissingDependency(*original_action_hash));
                    },
                };
                let create_link = match &record.action {
                    Action::CreateLink(create_link) => create_link,
                    _ => {
                        return Ok(
                            ValidateCallbackResult::Invalid(
                                "The action that a DeleteLink deletes must be a CreateLink".to_owned(),
                            ),
                        );
                    },
                };
                let link_type = match LinkTypes::from_type(
                    create_link.zome_index,
                    create_link.link_type,
                ) {
                    Some(link_type) => link_type,
                    None => {
                        return Ok(ValidateCallbackResult::Valid);
                    },
                };
                match link_type {
                    LinkTypes::AnchorToAgent => validate_delete_link_anchor_to_agent(
                        action,
                        create_link,
                        base_address,
                        &create_link.target_address,
                        &create_link.tag,
                    ),
                    LinkTypes::AgentAnchor => Ok(ValidateCallbackResult::Valid),
                }
            },
            _ => Ok(ValidateCallbackResult::Valid),
        },
        Op::RegisterAgentActivity(activity) => match activity {
            OpActivity::CreateAgent { agent, action } => {
                let previous_action = match store.get_record(&action.prev_action) {
                    Some(record) => record,
                    None => {
                        return Err(ExternError::MissingDependency(action.prev_action));
                    },
                };
                match &previous_action.action {
                    Action::AgentValidationPkg(pkg) => {
                        validate_agent_joining(agent, &pkg.membrane_proof)
                    },
                    _ => Ok(
                        ValidateCallbackResult::Invalid(
                            "The previous action for a `CreateAgent` action must be an `AgentValidationPkg`".to_owned(),
                        ),
                    ),
                }
            },
            _ => Ok(ValidateCallbackResult::Valid),
        },
    }
}

/// Law: self-registration only.  A link of this network's membership kind
/// is valid exactly when its target is an agent key and that key is the
/// link's own author, whatever the store holds.
pub proof fn lemma_self_registration_only(
    base_address: AnyLinkableHash,
    target_address: AnyLinkableHash,
    tag: Vec<u8>,
    action: CreateLink,
    store: Store,
)
    ensures
        spec_validate(
            Op::RegisterCreateLink {
                link_type: LinkTypes::AnchorToAgent,
                base_address,
                target_address,
                tag,
                action,
            },
            store,
        ) == Ok::<_, ExternError>(VerdictView::Valid) <==> {
            &&& action.target_address.kind == HashKind::Agent
            &&& action.target_address.bytes@ == action.author@
        },
{
}

} // verus!
