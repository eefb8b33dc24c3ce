//! The room network's validation engine, rule by rule.

use presence_core::entries::{Attachment, DescendentRoom, EntryTypes, RoomInfo};
use presence_core::hash::{ActionHash, AgentPubKey, AnyLinkableHash, EntryHash, HashKind};
use presence_core::room_integrity::{validate, LinkTypes, Op, OpActivity, OpEntry, OpUpdate,
    ROOM_ZOME_INDEX};
use presence_core::store::{Action, AgentValidationPkg, AppEntryDef, Create, CreateLink, Delete,
    DeleteLink, EntryType, OtherAction, Record, RecordEntry, Store, Update};
use presence_core::verdict::{ExternError, ValidateCallbackResult};

fn ah(b: u8) -> ActionHash {
    ActionHash { bytes: [b; 39] }
}

fn eh(b: u8) -> EntryHash {
    EntryHash { bytes: [b; 39] }
}

fn agent(b: u8) -> AgentPubKey {
    AgentPubKey { bytes: [b; 39] }
}

fn create_link_action(author: u8, target: AnyLinkableHash) -> CreateLink {
    CreateLink {
        author: agent(author),
        timestamp: 100,
        prev_action: ah(0),
        base_address: AnyLinkableHash { kind: HashKind::External, bytes: [0; 39] },
        target_address: target,
        zome_index: ROOM_ZOME_INDEX,
        link_type: 1,
        tag: Vec::new(),
    }
}

fn delete_link_action(author: u8) -> DeleteLink {
    DeleteLink {
        author: agent(author),
        timestamp: 100,
        prev_action: ah(0),
        base_address: AnyLinkableHash { kind: HashKind::External, bytes: [0; 39] },
        link_add_address: ah(9),
    }
}

fn room_info() -> RoomInfo {
    RoomInfo { name: "lobby".to_string(), icon_src: None, meta_data: None }
}

fn app_create(author: u8, entry_index: u8, entry_hash: u8) -> Create {
    Create {
        author: agent(author),
        timestamp: 50,
        prev_action: ah(0),
        entry_type: EntryType::App(AppEntryDef {
            zome_index: ROOM_ZOME_INDEX,
            entry_index,
            public: true,
        }),
        entry_hash: eh(entry_hash),
    }
}

fn record_of(address: u8, action: Action, entry: RecordEntry) -> Record {
    Record { action_address: ah(address), action, entry }
}

fn empty_store() -> Store {
    Store { records: Vec::new(), links: Vec::new() }
}

#[test]
fn validate_self_registration_accepted() {
    let key = agent(7);
    let op = Op::RegisterCreateLink {
        link_type: LinkTypes::AllAgents,
        base_address: AnyLinkableHash { kind: HashKind::Entry, bytes: [1; 39] },
        target_address: key.to_linkable(),
        tag: Vec::new(),
        action: create_link_action(7, key.to_linkable()),
    };
    let verdict = validate(&op, &empty_store()).unwrap();
    assert_eq!(verdict, ValidateCallbackResult::Valid);
}

#[test]
fn validate_registering_someone_else_rejected() {
    let op = Op::RegisterCreateLink {
        link_type: LinkTypes::AllAgents,
        base_address: AnyLinkableHash { kind: HashKind::Entry, bytes: [1; 39] },
        target_address: agent(8).to_linkable(),
        tag: Vec::new(),
        action: create_link_action(7, agent(8).to_linkable()),
    };
    let verdict = validate(&op, &empty_store()).unwrap();
    assert_eq!(
        verdict,
        ValidateCallbackResult::Invalid(
            "Links from the ALL_AGENTS anchor can only be created for oneself.".to_string()
        )
    );
}

#[test]
fn validate_non_agent_registration_target_rejected() {
    let target = AnyLinkableHash { kind: HashKind::Entry, bytes: [8; 39] };
    let op = Op::RegisterCreateLink {
        link_type: LinkTypes::AllAgents,
        base_address: AnyLinkableHash { kind: HashKind::Entry, bytes: [1; 39] },
        target_address: target,
        tag: Vec::new(),
        action: create_link_action(7, target),
    };
    let verdict = validate(&op, &empty_store()).unwrap();
    assert_eq!(
        verdict,
        ValidateCallbackResult::Invalid(
            "AllAgents link target is not an agent public key.".to_string()
        )
    );
}

#[test]
fn validate_agents_registry_append_only() {
    let op = Op::RegisterDeleteLink {
        link_type: LinkTypes::AllAgents,
        base_address: AnyLinkableHash { kind: HashKind::Entry, bytes: [1; 39] },
        target_address: agent(7).to_linkable(),
        tag: Vec::new(),
        original_action: create_link_action(7, agent(7).to_linkable()),
        action: delete_link_action(7),
    };
    let verdict = validate(&op, &empty_store()).unwrap();
    assert_eq!(
        verdict,
        ValidateCallbackResult::Invalid("AllAgent links cannot be deleted.".to_string())
    );
}

#[test]
fn validate_room_info_revisions_append_only() {
    let op = Op::RegisterDeleteLink {
        link_type: LinkTypes::RoomInfoUpdates,
        base_address: AnyLinkableHash { kind: HashKind::Entry, bytes: [1; 39] },
        target_address: ah(3).to_linkable(),
        tag: Vec::new(),
        original_action: create_link_action(7, ah(3).to_linkable()),
        action: delete_link_action(9),
    };
    let verdict = validate(&op, &empty_store()).unwrap();
    assert_eq!(
        verdict,
        ValidateCallbackResult::Invalid("RoomInfoUpdates links cannot be deleted".to_string())
    );
}

#[test]
fn validate_deleting_room_info_rejected() {
    let mut store = empty_store();
    store.records.push(record_of(
        3,
        Action::Create(app_create(7, 0, 4)),
        RecordEntry::Present(EntryTypes::RoomInfo(room_info())),
    ));
    let delete = Delete { author: agent(9), timestamp: 999, prev_action: ah(0), deletes_address: ah(3) };
    let verdict = validate(&Op::RegisterDelete { action: delete }, &store).unwrap();
    assert_eq!(
        verdict,
        ValidateCallbackResult::Invalid("Room Infos cannot be deleted".to_string())
    );
}

#[test]
fn validate_deleting_descendent_room_rejected() {
    let mut store = empty_store();
    let room = DescendentRoom {
        network_seed_appendix: "seed".to_string(),
        name: "child".to_string(),
        icon_src: None,
        meta_data: None,
    };
    store.records.push(record_of(
        3,
        Action::Create(app_create(7, 2, 4)),
        RecordEntry::Present(EntryTypes::DescendentRoom(room)),
    ));
    let delete = Delete { author: agent(7), timestamp: 1, prev_action: ah(0), deletes_address: ah(3) };
    let verdict = validate(&Op::RegisterDelete { action: delete }, &store).unwrap();
    assert!(matches!(verdict, ValidateCallbackResult::Invalid(_)));
}

#[test]
fn validate_deleting_attachment_accepted() {
    let mut store = empty_store();
    store.records.push(record_of(
        3,
        Action::Create(app_create(7, 1, 4)),
        RecordEntry::Present(EntryTypes::Attachment(Attachment { src: "file".to_string() })),
    ));
    let delete = Delete { author: agent(9), timestamp: 1, prev_action: ah(0), deletes_address: ah(3) };
    let verdict = validate(&Op::RegisterDelete { action: delete }, &store).unwrap();
    assert_eq!(verdict, ValidateCallbackResult::Valid);
}

#[test]
fn validate_delete_with_missing_original_is_an_error() {
    let delete = Delete { author: agent(9), timestamp: 1, prev_action: ah(0), deletes_address: ah(3) };
    let result = validate(&Op::RegisterDelete { action: delete }, &empty_store());
    assert_eq!(result, Err(ExternError::MissingDependency(ah(3))));
}

#[test]
fn validate_delete_with_mismatched_entry_rejected() {
    let mut store = empty_store();
    store.records.push(record_of(
        3,
        Action::Create(app_create(7, 0, 4)),
        RecordEntry::Present(EntryTypes::Attachment(Attachment { src: "file".to_string() })),
    ));
    let delete = Delete { author: agent(9), timestamp: 1, prev_action: ah(0), deletes_address: ah(3) };
    let verdict = validate(&Op::RegisterDelete { action: delete }, &store).unwrap();
    assert_eq!(
        verdict,
        ValidateCallbackResult::Invalid(
            "Original app entry must be one of the defined entry types for this zome".to_string()
        )
    );
}

#[test]
fn validate_updating_room_info_rejected() {
    let mut store = empty_store();
    store.records.push(record_of(
        3,
        Action::Create(app_create(7, 0, 4)),
        RecordEntry::Present(EntryTypes::RoomInfo(room_info())),
    ));
    let update = Update {
        author: agent(7),
        timestamp: 60,
        prev_action: ah(0),
        original_action_address: ah(3),
        entry_type: EntryType::App(AppEntryDef {
            zome_index: ROOM_ZOME_INDEX,
            entry_index: 0,
            public: true,
        }),
        entry_hash: eh(5),
    };
    let op = Op::RegisterUpdate(OpUpdate::Entry { app_entry: EntryTypes::RoomInfo(room_info()), action: update });
    let verdict = validate(&op, &store).unwrap();
    assert_eq!(
        verdict,
        ValidateCallbackResult::Invalid("Updating a RoomInfo entry is not allowed.".to_string())
    );
}

#[test]
fn validate_updating_attachment_accepted() {
    let mut store = empty_store();
    store.records.push(record_of(
        3,
        Action::Create(app_create(7, 1, 4)),
        RecordEntry::Present(EntryTypes::Attachment(Attachment { src: "old".to_string() })),
    ));
    let update = Update {
        author: agent(7),
        timestamp: 60,
        prev_action: ah(0),
        original_action_address: ah(3),
        entry_type: EntryType::App(AppEntryDef {
            zome_index: ROOM_ZOME_INDEX,
            entry_index: 1,
            public: true,
        }),
        entry_hash: eh(5),
    };
    let op = Op::RegisterUpdate(OpUpdate::Entry {
        app_entry: EntryTypes::Attachment(Attachment { src: "new".to_string() }),
        action: update,
    });
    let verdict = validate(&op, &store).unwrap();
    assert_eq!(verdict, ValidateCallbackResult::Valid);
}

#[test]
fn validate_creating_any_entry_kind_accepted() {
    let op = Op::StoreEntry(OpEntry::CreateEntry {
        app_entry: EntryTypes::RoomInfo(room_info()),
        action: app_create(7, 0, 4),
    });
    assert_eq!(validate(&op, &empty_store()).unwrap(), ValidateCallbackResult::Valid);
}

#[test]
fn validate_room_info_update_link_needs_the_anchor_base() {
    let target = ah(3).to_linkable();
    let op = Op::RegisterCreateLink {
        link_type: LinkTypes::RoomInfoUpdates,
        base_address: AnyLinkableHash { kind: HashKind::Entry, bytes: [1; 39] },
        target_address: target,
        tag: Vec::new(),
        action: create_link_action(7, target),
    };
    let verdict = validate(&op, &empty_store()).unwrap();
    assert_eq!(
        verdict,
        ValidateCallbackResult::Invalid(
            "RoomInfoUpdates links must have the RoomInfo anchor as their base.".to_string()
        )
    );
}

#[test]
fn validate_room_info_update_link_to_room_info_accepted() {
    let mut store = empty_store();
    store.records.push(record_of(
        3,
        Action::Create(app_create(7, 0, 4)),
        RecordEntry::Present(EntryTypes::RoomInfo(room_info())),
    ));
    let anchor = presence_core::anchor::anchor_hash("ROOM_INFO");
    let target = ah(3).to_linkable();
    let op = Op::RegisterCreateLink {
        link_type: LinkTypes::RoomInfoUpdates,
        base_address: anchor.to_linkable(),
        target_address: target,
        tag: Vec::new(),
        action: create_link_action(7, target),
    };
    assert_eq!(validate(&op, &store).unwrap(), ValidateCallbackResult::Valid);
}

#[test]
fn validate_room_info_update_link_with_unsynced_target_is_an_error() {
    let anchor = presence_core::anchor::anchor_hash("ROOM_INFO");
    let target = ah(3).to_linkable();
    let op = Op::RegisterCreateLink {
        link_type: LinkTypes::RoomInfoUpdates,
        base_address: anchor.to_linkable(),
        target_address: target,
        tag: Vec::new(),
        action: create_link_action(7, target),
    };
    let result = validate(&op, &empty_store());
    assert_eq!(result, Err(ExternError::MissingDependency(ah(3))));
}

#[test]
fn validate_room_info_update_link_to_entryless_record_rejected() {
    let mut store = empty_store();
    store.records.push(record_of(3, Action::Create(app_create(7, 0, 4)), RecordEntry::Absent));
    let anchor = presence_core::anchor::anchor_hash("ROOM_INFO");
    let target = ah(3).to_linkable();
    let op = Op::RegisterCreateLink {
        link_type: LinkTypes::RoomInfoUpdates,
        base_address: anchor.to_linkable(),
        target_address: target,
        tag: Vec::new(),
        action: create_link_action(7, target),
    };
    let verdict = validate(&op, &store).unwrap();
    assert_eq!(
        verdict,
        ValidateCallbackResult::Invalid("Linked action must point to a RoomInfo entry".to_string())
    );
}

#[test]
fn validate_room_info_update_link_with_non_action_target_rejected() {
    let anchor = presence_core::anchor::anchor_hash("ROOM_INFO");
    let target = eh(3).to_linkable();
    let op = Op::RegisterCreateLink {
        link_type: LinkTypes::RoomInfoUpdates,
        base_address: anchor.to_linkable(),
        target_address: target,
        tag: Vec::new(),
        action: create_link_action(7, target),
    };
    let verdict = validate(&op, &empty_store()).unwrap();
    assert_eq!(
        verdict,
        ValidateCallbackResult::Invalid(
            "Link to RoomInfo entry is not an action hash".to_string()
        )
    );
}

#[test]
fn validate_descendent_room_registration_needs_text_tag() {
    let key = agent(7);
    let op = Op::RegisterCreateLink {
        link_type: LinkTypes::AllDescendentRooms,
        base_address: AnyLinkableHash { kind: HashKind::Entry, bytes: [1; 39] },
        target_address: key.to_linkable(),
        tag: vec![0xff, 0xfe],
        action: CreateLink { tag: vec![0xff, 0xfe], ..create_link_action(7, key.to_linkable()) },
    };
    let verdict = validate(&op, &empty_store()).unwrap();
    assert_eq!(
        verdict,
        ValidateCallbackResult::Invalid(
            "LinkTag is of a format that cannot be converted to a String".to_string()
        )
    );
}

#[test]
fn validate_descendent_room_registration_with_text_tag_accepted() {
    let key = agent(7);
    let op = Op::RegisterCreateLink {
        link_type: LinkTypes::AllDescendentRooms,
        base_address: AnyLinkableHash { kind: HashKind::Entry, bytes: [1; 39] },
        target_address: key.to_linkable(),
        tag: b"seed".to_vec(),
        action: CreateLink { tag: b"seed".to_vec(), ..create_link_action(7, key.to_linkable()) },
    };
    assert_eq!(validate(&op, &empty_store()).unwrap(), ValidateCallbackResult::Valid);
}

#[test]
fn validate_agent_join_needs_validation_package() {
    let mut store = empty_store();
    store.records.push(record_of(
        2,
        Action::AgentValidationPkg(AgentValidationPkg {
            author: agent(7),
            timestamp: 1,
            prev_action: ah(0),
            membrane_proof: None,
        }),
        RecordEntry::Absent,
    ));
    let mut create = app_create(7, 0, 4);
    create.prev_action = ah(2);
    create.entry_type = EntryType::AgentPubKey;
    let op = Op::RegisterAgentActivity(OpActivity::CreateAgent { agent: agent(7), action: create });
    assert_eq!(validate(&op, &store).unwrap(), ValidateCallbackResult::Valid);
}

#[test]
fn validate_agent_join_with_other_predecessor_rejected() {
    let mut store = empty_store();
    store.records.push(record_of(
        2,
        Action::Other(OtherAction { author: agent(7), timestamp: 1, prev_action: ah(0) }),
        RecordEntry::Absent,
    ));
    let mut create = app_create(7, 0, 4);
    create.prev_action = ah(2);
    create.entry_type = EntryType::AgentPubKey;
    let op = Op::RegisterAgentActivity(OpActivity::CreateAgent { agent: agent(7), action: create });
    let verdict = validate(&op, &store).unwrap();
    assert!(matches!(verdict, ValidateCallbackResult::Invalid(_)));
}

#[test]
fn validate_is_deterministic() {
    let key = agent(7);
    let op = Op::RegisterCreateLink {
        link_type: LinkTypes::AllAgents,
        base_address: AnyLinkableHash { kind: HashKind::Entry, bytes: [1; 39] },
        target_address: key.to_linkable(),
        tag: Vec::new(),
        action: create_link_action(7, key.to_linkable()),
    };
    let store = empty_store();
    let first = validate(&op, &store);
    let second = validate(&op, &store);
    assert_eq!(first, second);
}

#[test]
fn validate_unmatched_kinds_fall_through_to_valid() {
    let op = Op::RegisterAgentActivity(OpActivity::Dna {
        action: OtherAction { author: agent(7), timestamp: 1, prev_action: ah(0) },
    });
    assert_eq!(validate(&op, &empty_store()).unwrap(), ValidateCallbackResult::Valid);
}
