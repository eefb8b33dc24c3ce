//! The revision resolver and the mutation protocol, end to end against a
//! store value.

use presence_core::entries::{Attachment, DescendentRoom, EntryTypes, RoomInfo};
use presence_core::hash::{ActionHash, AgentPubKey, AnyLinkableHash, EntryHash, HashKind};
use presence_core::room::{add_agent_to_anchor, create_attachment, create_descendent_room,
    delete_attachment, delete_descendent_room, get_all_agents, get_all_attachments,
    get_all_deletes_for_attachment, get_all_descendent_rooms, get_all_revisions_for_attachment,
    get_latest_attachment, get_oldest_delete_for_attachment, get_original_attachment,
    get_room_info, set_room_info, update_attachment, UpdateAttachmentInput};
use presence_core::room_integrity::{LinkTypes, ROOM_ZOME_INDEX};
use presence_core::store::{Action, ActionStamp, AppEntryDef, Create, Delete, EntryType, Link,
    Record, RecordEntry, Store, StoredLink};
use presence_core::verdict::ExternError;

fn ah(b: u8) -> ActionHash {
    ActionHash { bytes: [b; 39] }
}

fn eh(b: u8) -> EntryHash {
    EntryHash { bytes: [b; 39] }
}

fn agent(b: u8) -> AgentPubKey {
    AgentPubKey { bytes: [b; 39] }
}

fn stamp(author: u8, timestamp: i64, hash: u8) -> ActionStamp {
    ActionStamp { author: agent(author), timestamp, action_hash: ah(hash), prev_action: ah(0) }
}

fn attachment_record(address: u8, src: &str) -> Record {
    Record {
        action_address: ah(address),
        action: Action::Create(Create {
            author: agent(1),
            timestamp: 10,
            prev_action: ah(0),
            entry_type: EntryType::App(AppEntryDef {
                zome_index: ROOM_ZOME_INDEX,
                entry_index: 1,
                public: true,
            }),
            entry_hash: eh(address),
        }),
        entry: RecordEntry::Present(EntryTypes::Attachment(Attachment { src: src.to_string() })),
    }
}

fn update_link(original: u8, target: u8, timestamp: i64, clh: u8) -> StoredLink {
    StoredLink {
        base: ah(original).to_linkable(),
        zome_index: ROOM_ZOME_INDEX,
        link_type: 3,
        link: Link {
            target: ah(target).to_linkable(),
            author: agent(1),
            timestamp,
            tag: Vec::new(),
            create_link_hash: ah(clh),
        },
    }
}

fn delete_record(address: u8, original: u8, timestamp: i64) -> Record {
    Record {
        action_address: ah(address),
        action: Action::Delete(Delete {
            author: agent(1),
            timestamp,
            prev_action: ah(0),
            deletes_address: ah(original),
        }),
        entry: RecordEntry::Absent,
    }
}

fn empty_store() -> Store {
    Store { records: Vec::new(), links: Vec::new() }
}

#[test]
fn resolver_falls_back_to_the_original() {
    let mut store = empty_store();
    store.records.push(attachment_record(3, "only"));
    let latest = get_latest_attachment(&store, &ah(3)).unwrap().unwrap();
    assert_eq!(latest.action_address, ah(3));
}

#[test]
fn resolver_absent_original_is_none_not_an_error() {
    let store = empty_store();
    let latest = get_latest_attachment(&store, &ah(3)).unwrap();
    assert!(latest.is_none());
}

#[test]
fn resolver_picks_the_max_timestamp_link() {
    let mut store = empty_store();
    store.records.push(attachment_record(3, "original"));
    store.records.push(attachment_record(10, "a"));
    store.records.push(attachment_record(11, "b"));
    store.records.push(attachment_record(12, "c"));
    store.links.push(update_link(3, 10, 10, 20));
    store.links.push(update_link(3, 11, 30, 21));
    store.links.push(update_link(3, 12, 20, 22));
    let latest = get_latest_attachment(&store, &ah(3)).unwrap().unwrap();
    assert_eq!(latest.action_address, ah(11));
    match &latest.entry {
        RecordEntry::Present(EntryTypes::Attachment(att)) => assert_eq!(att.src, "b"),
        other => panic!("unexpected entry: {:?}", other),
    }
}

#[test]
fn resolver_errors_on_a_non_action_update_target() {
    let mut store = empty_store();
    store.records.push(attachment_record(3, "original"));
    let mut link = update_link(3, 10, 10, 20);
    link.link.target = AnyLinkableHash { kind: HashKind::Entry, bytes: [10; 39] };
    store.links.push(link);
    let result = get_latest_attachment(&store, &ah(3));
    assert_eq!(
        result.map(|option| option.map(|record| record.action_address)),
        Err(ExternError::LinkTargetNotActionHash)
    );
}

#[test]
fn revision_history_is_original_then_updates() {
    let mut store = empty_store();
    store.records.push(attachment_record(3, "original"));
    store.records.push(attachment_record(10, "first"));
    store.records.push(attachment_record(11, "second"));
    store.links.push(update_link(3, 10, 10, 20));
    store.links.push(update_link(3, 11, 30, 21));
    let history = get_all_revisions_for_attachment(&store, &ah(3)).unwrap();
    let addresses: Vec<ActionHash> =
        history.iter().map(|record| record.action_address).collect();
    assert_eq!(addresses, vec![ah(3), ah(10), ah(11)]);
}

#[test]
fn revision_history_of_an_absent_original_is_empty() {
    let store = empty_store();
    let history = get_all_revisions_for_attachment(&store, &ah(3)).unwrap();
    assert!(history.is_empty());
}

#[test]
fn revision_history_skips_malformed_targets() {
    let mut store = empty_store();
    store.records.push(attachment_record(3, "original"));
    store.records.push(attachment_record(11, "resolved"));
    let mut bad = update_link(3, 10, 10, 20);
    bad.link.target = AnyLinkableHash { kind: HashKind::Entry, bytes: [10; 39] };
    store.links.push(bad);
    store.links.push(update_link(3, 11, 30, 21));
    let history = get_all_revisions_for_attachment(&store, &ah(3)).unwrap();
    let addresses: Vec<ActionHash> =
        history.iter().map(|record| record.action_address).collect();
    assert_eq!(addresses, vec![ah(3), ah(11)]);
}

#[test]
fn revision_history_skips_unresolved_targets() {
    let mut store = empty_store();
    store.records.push(attachment_record(3, "original"));
    store.records.push(attachment_record(11, "resolved"));
    store.links.push(update_link(3, 10, 10, 20));
    store.links.push(update_link(3, 11, 30, 21));
    let history = get_all_revisions_for_attachment(&store, &ah(3)).unwrap();
    let addresses: Vec<ActionHash> =
        history.iter().map(|record| record.action_address).collect();
    assert_eq!(addresses, vec![ah(3), ah(11)]);
}

#[test]
fn oldest_delete_wins_by_lowest_timestamp() {
    let mut store = empty_store();
    store.records.push(attachment_record(3, "original"));
    store.records.push(delete_record(20, 3, 5));
    store.records.push(delete_record(21, 3, 3));
    let oldest = get_oldest_delete_for_attachment(&store, &ah(3)).unwrap().unwrap();
    assert_eq!(oldest.action_address, ah(21));
}

#[test]
fn oldest_delete_breaks_timestamp_ties_by_store_order() {
    let mut store = empty_store();
    store.records.push(attachment_record(3, "original"));
    store.records.push(delete_record(20, 3, 3));
    store.records.push(delete_record(21, 3, 3));
    let oldest = get_oldest_delete_for_attachment(&store, &ah(3)).unwrap().unwrap();
    assert_eq!(oldest.action_address, ah(20));
}

#[test]
fn deletes_for_an_absent_original_are_none() {
    let store = empty_store();
    assert!(get_all_deletes_for_attachment(&store, &ah(3)).unwrap().is_none());
}

#[test]
fn deletes_for_an_undeleted_original_are_an_empty_list() {
    let mut store = empty_store();
    store.records.push(attachment_record(3, "original"));
    let deletes = get_all_deletes_for_attachment(&store, &ah(3)).unwrap().unwrap();
    assert!(deletes.is_empty());
    assert!(get_oldest_delete_for_attachment(&store, &ah(3)).unwrap().is_none());
}

#[test]
fn room_info_round_trip() {
    let mut store = empty_store();
    assert!(get_room_info(&store).unwrap().is_none());
    let info = RoomInfo {
        name: "lobby".to_string(),
        icon_src: Some("icon.png".to_string()),
        meta_data: None,
    };
    set_room_info(&mut store, stamp(1, 10, 3), eh(4), stamp(1, 11, 5), info).unwrap();
    let current = get_room_info(&store).unwrap().unwrap();
    assert_eq!(current.action_address, ah(3));
    match &current.entry {
        RecordEntry::Present(EntryTypes::RoomInfo(room_info)) => {
            assert_eq!(room_info.name, "lobby");
            assert_eq!(room_info.icon_src.as_deref(), Some("icon.png"));
        },
        other => panic!("unexpected entry: {:?}", other),
    }
}

#[test]
fn room_info_latest_write_wins() {
    let mut store = empty_store();
    let first = RoomInfo { name: "first".to_string(), icon_src: None, meta_data: None };
    let second = RoomInfo { name: "second".to_string(), icon_src: None, meta_data: None };
    set_room_info(&mut store, stamp(1, 10, 3), eh(4), stamp(1, 50, 5), first).unwrap();
    set_room_info(&mut store, stamp(2, 11, 6), eh(7), stamp(2, 20, 8), second).unwrap();
    let current = get_room_info(&store).unwrap().unwrap();
    assert_eq!(current.action_address, ah(3));
}

#[test]
fn attachment_lifecycle_create_update_delete() {
    let mut store = empty_store();
    create_attachment(
        &mut store,
        stamp(1, 10, 3),
        eh(4),
        stamp(1, 11, 5),
        Attachment { src: "v1".to_string() },
    )
    .unwrap();
    let listed = get_all_attachments(&store).unwrap();
    assert_eq!(listed.len(), 1);
    assert_eq!(listed[0].action_address, ah(3));
    assert_eq!(get_original_attachment(&store, &ah(3)).unwrap().unwrap().action_address, ah(3));

    update_attachment(
        &mut store,
        UpdateAttachmentInput {
            original_attachment_hash: ah(3),
            previous_attachment_hash: ah(3),
            updated_attachment: Attachment { src: "v2".to_string() },
        },
        stamp(1, 20, 6),
        eh(7),
        stamp(1, 21, 8),
    )
    .unwrap();
    let latest = get_latest_attachment(&store, &ah(3)).unwrap().unwrap();
    assert_eq!(latest.action_address, ah(6));
    let history = get_all_revisions_for_attachment(&store, &ah(3)).unwrap();
    assert_eq!(history.len(), 2);

    let link_stamps = vec![stamp(1, 30, 9), stamp(1, 30, 10)];
    let delete_hash =
        delete_attachment(&mut store, &ah(3), &link_stamps, stamp(1, 31, 11)).unwrap();
    assert_eq!(delete_hash, ah(11));
    assert!(get_all_attachments(&store).unwrap().is_empty());
    let deletes = get_all_deletes_for_attachment(&store, &ah(3)).unwrap().unwrap();
    assert_eq!(deletes.len(), 1);
    assert_eq!(deletes[0].action_address, ah(11));
    let oldest = get_oldest_delete_for_attachment(&store, &ah(3)).unwrap().unwrap();
    assert_eq!(oldest.action_address, ah(11));
}

#[test]
fn deleting_a_missing_attachment_is_not_found() {
    let mut store = empty_store();
    let link_stamps: Vec<ActionStamp> = Vec::new();
    let result = delete_attachment(&mut store, &ah(3), &link_stamps, stamp(1, 31, 11));
    assert_eq!(result, Err(ExternError::NotFound));
}

#[test]
fn descendent_room_registration_round_trip() {
    let mut store = empty_store();
    let room = DescendentRoom {
        network_seed_appendix: "seed".to_string(),
        name: "child".to_string(),
        icon_src: None,
        meta_data: None,
    };
    let link_hash =
        create_descendent_room(&mut store, stamp(1, 10, 3), eh(4), stamp(1, 11, 5), room).unwrap();
    assert_eq!(link_hash, ah(5));
    let rooms = get_all_descendent_rooms(&store).unwrap();
    assert_eq!(rooms.len(), 1);
    assert_eq!(rooms[0].0.name, "child");
    assert_eq!(rooms[0].1, agent(1));
    assert_eq!(rooms[0].2, ah(5));

    delete_descendent_room(&mut store, stamp(1, 20, 6), &link_hash).unwrap();
    assert!(get_all_descendent_rooms(&store).unwrap().is_empty());
}

#[test]
fn agents_anchor_round_trip() {
    let mut store = empty_store();
    assert!(get_all_agents(&store).is_empty());
    add_agent_to_anchor(&mut store, stamp(7, 10, 3)).unwrap();
    add_agent_to_anchor(&mut store, stamp(8, 11, 4)).unwrap();
    let agents = get_all_agents(&store);
    assert_eq!(agents, vec![agent(7), agent(8)]);
}

#[test]
fn agents_listing_drops_malformed_targets() {
    let mut store = empty_store();
    add_agent_to_anchor(&mut store, stamp(7, 10, 3)).unwrap();
    let anchor = presence_core::anchor::anchor_hash("ALL_AGENTS");
    store.links.push(StoredLink {
        base: anchor.to_linkable(),
        zome_index: ROOM_ZOME_INDEX,
        link_type: 1,
        link: Link {
            target: ah(9).to_linkable(),
            author: agent(9),
            timestamp: 12,
            tag: Vec::new(),
            create_link_hash: ah(5),
        },
    });
    let agents = get_all_agents(&store);
    assert_eq!(agents, vec![agent(7)]);
}

#[test]
fn attachment_listing_skips_unresolved_registrations() {
    let mut store = empty_store();
    create_attachment(
        &mut store,
        stamp(1, 10, 3),
        eh(4),
        stamp(1, 11, 5),
        Attachment { src: "kept".to_string() },
    )
    .unwrap();
    let anchor = presence_core::anchor::anchor_hash("all_attachments");
    store.links.push(StoredLink {
        base: anchor.to_linkable(),
        zome_index: ROOM_ZOME_INDEX,
        link_type: 4,
        link: Link {
            target: ah(99).to_linkable(),
            author: agent(1),
            timestamp: 12,
            tag: Vec::new(),
            create_link_hash: ah(6),
        },
    });
    let listed = get_all_attachments(&store).unwrap();
    assert_eq!(listed.len(), 1);
    assert_eq!(listed[0].action_address, ah(3));
}
