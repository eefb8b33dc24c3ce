//! The signalling network: registration, its validation rules, and the
//! remote-signal dispatch.

use presence_core::hash::{ActionHash, AgentPubKey, AnyLinkableHash, HashKind};
use presence_core::store::{ActionStamp, CreateLink, DeleteLink, Store};
use presence_core::unzoom::{add_agent_to_anchor, get_all_agents, ping, ping_ui, pong_ui,
    recv_remote_signal, send_init_accept, send_init_request, send_sdp_data, InitAcceptInput,
    InitRequestInput, SdpDataInput, SignalDirective, SignalPayload};
use presence_core::unzoom_integrity::{validate, LinkTypes, Op, OpEntry, UNZOOM_ZOME_INDEX};
use presence_core::verdict::{ExternError, ValidateCallbackResult};

fn ah(b: u8) -> ActionHash {
    ActionHash { bytes: [b; 39] }
}

fn agent(b: u8) -> AgentPubKey {
    AgentPubKey { bytes: [b; 39] }
}

fn stamp(author: u8, timestamp: i64, hash: u8) -> ActionStamp {
    ActionStamp { author: agent(author), timestamp, action_hash: ah(hash), prev_action: ah(0) }
}

fn empty_store() -> Store {
    Store { records: Vec::new(), links: Vec::new() }
}

fn registration(author: u8, target: AnyLinkableHash) -> CreateLink {
    CreateLink {
        author: agent(author),
        timestamp: 100,
        prev_action: ah(0),
        base_address: AnyLinkableHash { kind: HashKind::Entry, bytes: [1; 39] },
        target_address: target,
        zome_index: UNZOOM_ZOME_INDEX,
        link_type: 0,
        tag: Vec::new(),
    }
}

#[test]
fn signal_registration_round_trip() {
    let mut store = empty_store();
    add_agent_to_anchor(&mut store, stamp(7, 10, 3)).unwrap();
    let agents = get_all_agents(&store);
    assert_eq!(agents, vec![agent(7)]);
}

#[test]
fn signal_zome_rejects_app_entries() {
    let op = Op::StoreEntry(OpEntry::CreateEntry {
        action: presence_core::store::Create {
            author: agent(7),
            timestamp: 1,
            prev_action: ah(0),
            entry_type: presence_core::store::EntryType::CapGrant,
            entry_hash: presence_core::hash::EntryHash { bytes: [4; 39] },
        },
    });
    let verdict = validate(&op, &empty_store()).unwrap();
    assert_eq!(
        verdict,
        ValidateCallbackResult::Invalid("There are no entry types in this integrity zome".to_string())
    );
}

#[test]
fn signal_zome_self_registration_only() {
    let own = Op::RegisterCreateLink {
        link_type: LinkTypes::AnchorToAgent,
        base_address: AnyLinkableHash { kind: HashKind::Entry, bytes: [1; 39] },
        target_address: agent(7).to_linkable(),
        tag: Vec::new(),
        action: registration(7, agent(7).to_linkable()),
    };
    assert_eq!(validate(&own, &empty_store()).unwrap(), ValidateCallbackResult::Valid);

    let other = Op::RegisterCreateLink {
        link_type: LinkTypes::AnchorToAgent,
        base_address: AnyLinkableHash { kind: HashKind::Entry, bytes: [1; 39] },
        target_address: agent(8).to_linkable(),
        tag: Vec::new(),
        action: registration(7, agent(8).to_linkable()),
    };
    assert!(matches!(
        validate(&other, &empty_store()).unwrap(),
        ValidateCallbackResult::Invalid(_)
    ));
}

#[test]
fn signal_zome_own_registration_may_be_removed() {
    let delete = DeleteLink {
        author: agent(7),
        timestamp: 101,
        prev_action: ah(0),
        base_address: AnyLinkableHash { kind: HashKind::Entry, bytes: [1; 39] },
        link_add_address: ah(9),
    };
    let own = Op::RegisterDeleteLink {
        link_type: LinkTypes::AnchorToAgent,
        base_address: AnyLinkableHash { kind: HashKind::Entry, bytes: [1; 39] },
        target_address: agent(7).to_linkable(),
        tag: Vec::new(),
        original_action: registration(7, agent(7).to_linkable()),
        action: delete,
    };
    assert_eq!(validate(&own, &empty_store()).unwrap(), ValidateCallbackResult::Valid);

    let foreign = Op::RegisterDeleteLink {
        link_type: LinkTypes::AnchorToAgent,
        base_address: AnyLinkableHash { kind: HashKind::Entry, bytes: [1; 39] },
        target_address: agent(8).to_linkable(),
        tag: Vec::new(),
        original_action: registration(8, agent(8).to_linkable()),
        action: DeleteLink {
            author: agent(7),
            timestamp: 101,
            prev_action: ah(0),
            base_address: AnyLinkableHash { kind: HashKind::Entry, bytes: [1; 39] },
            link_add_address: ah(9),
        },
    };
    assert_eq!(
        validate(&foreign, &empty_store()).unwrap(),
        ValidateCallbackResult::Invalid(
            "Only own links from the ALL_AGENTS anchor can be deleted.".to_string()
        )
    );
}

#[test]
fn signal_ping_is_answered_with_pong() {
    let me = agent(1);
    let directive = recv_remote_signal(&me, SignalPayload::Ping { from_agent: agent(2) });
    assert_eq!(
        directive,
        SignalDirective::Remote {
            payload: SignalPayload::Pong { from_agent: agent(1) },
            to: vec![agent(2)],
        }
    );
}

#[test]
fn signal_other_payloads_are_emitted() {
    let me = agent(1);
    let directive = recv_remote_signal(&me, SignalPayload::Pong { from_agent: agent(2) });
    assert_eq!(
        directive,
        SignalDirective::Emit { payload: SignalPayload::Pong { from_agent: agent(2) } }
    );
    let sdp = SignalPayload::SdpData {
        from_agent: agent(2),
        connection_id: "c1".to_string(),
        data: "offer".to_string(),
    };
    let directive = recv_remote_signal(&me, sdp);
    match directive {
        SignalDirective::Emit { payload: SignalPayload::SdpData { connection_id, data, .. } } => {
            assert_eq!(connection_id, "c1");
            assert_eq!(data, "offer");
        },
        other => panic!("unexpected directive: {:?}", other),
    }
}

#[test]
fn signal_ping_goes_to_all_named_agents() {
    let me = agent(1);
    let directive = ping(&me, vec![agent(2), agent(3)]);
    assert_eq!(
        directive,
        SignalDirective::Remote {
            payload: SignalPayload::Ping { from_agent: agent(1) },
            to: vec![agent(2), agent(3)],
        }
    );
    let directive = ping_ui(&me, vec![agent(4)]);
    assert_eq!(
        directive,
        SignalDirective::Remote {
            payload: SignalPayload::PingUi { from_agent: agent(1) },
            to: vec![agent(4)],
        }
    );
    let directive = pong_ui(&me, agent(5));
    assert_eq!(
        directive,
        SignalDirective::Remote {
            payload: SignalPayload::PongUi { from_agent: agent(1) },
            to: vec![agent(5)],
        }
    );
}

#[test]
fn signal_connection_negotiation_payloads() {
    let me = agent(1);
    let directive = send_init_request(&me, InitRequestInput {
        connection_type: Some("screen".to_string()),
        connection_id: "c1".to_string(),
        to_agent: agent(2),
    });
    assert_eq!(
        directive,
        SignalDirective::Remote {
            payload: SignalPayload::InitRequest {
                from_agent: agent(1),
                connection_id: "c1".to_string(),
            },
            to: vec![agent(2)],
        }
    );
    let directive = send_init_accept(&me, InitAcceptInput {
        connection_type: None,
        connection_id: "c1".to_string(),
        to_agent: agent(2),
    });
    assert_eq!(
        directive,
        SignalDirective::Remote {
            payload: SignalPayload::InitAccept {
                from_agent: agent(1),
                connection_id: "c1".to_string(),
            },
            to: vec![agent(2)],
        }
    );
    let directive = send_sdp_data(&me, SdpDataInput {
        to_agent: agent(2),
        connection_id: "c1".to_string(),
        data: "answer".to_string(),
    });
    assert_eq!(
        directive,
        SignalDirective::Remote {
            payload: SignalPayload::SdpData {
                from_agent: agent(1),
                connection_id: "c1".to_string(),
                data: "answer".to_string(),
            },
            to: vec![agent(2)],
        }
    );
}

#[test]
fn signal_error_messages_are_stable() {
    assert_eq!(
        ExternError::LinkTargetNotActionHash.message(),
        "No action hash associated with link"
    );
    assert_eq!(ExternError::MalformedDetails.message(), "Malformed get details response");
    assert_eq!(ExternError::NotFound.message(), "Record not found");
}
