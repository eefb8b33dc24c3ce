//! The signalling network's coordinator: agent registration and the
//! remote-signal protocol for presence pings and connection negotiation.
//!
//! Sending a signal is outside work; each operation here decides, as a pure
//! function, what payload to send and to whom — a [`SignalDirective`] — and
//! the caller performs the send.  An incoming ping is answered with a pong
//! automatically; every other incoming signal is emitted to the local UI.

use vstd::prelude::*;

use crate::anchor::{anchor_digest, typed_anchor_hash};
use crate::hash::{ActionHash, AgentPubKey, AnyLinkableHash, HashKind};
use crate::store::{spec_agent_keys, spec_find_record, spec_links_at, ActionStamp, Store};
use crate::unzoom_integrity::{LinkTypes, UNZOOM_ZOME_INDEX};
use crate::verdict::ExternError;

verus! {

/// The type and text of the anchor where agents register themselves.
pub const ALL_AGENTS: &'static str = "ALL_AGENTS";

/// The live agents-anchor links of this network.
pub open spec fn spec_agent_anchor_links(store: Store) -> Seq<crate::store::Link> {
    spec_links_at(
        store.links@,
        HashKind::Entry,
        anchor_digest("ALL_AGENTS"@, "ALL_AGENTS"@),
        UNZOOM_ZOME_INDEX,
        LinkTypes::AnchorToAgent.spec_index(),
    )
}

/// Register the calling agent at the agents anchor; the write is read back
/// from the local store before the call returns, so the registration's
/// record must not collide with one already held.
pub fn add_agent_to_anchor(store: &mut Store, stamp: ActionStamp) -> (r: Result<(), ExternError>)
    requires
        spec_find_record(
            old(store).records@,
            HashKind::Action,
            stamp.action_hash@,
        ) is None,
    ensures
        r is Ok,
        final(store).links@.len() == old(store).links@.len() + 1,
        forall|i: int|
            0 <= i < old(store).links@.len() ==> final(store).links@[i] == old(store).links@[i],
        ({
            let sl = final(store).links@.last();
            &&& sl.base.kind == HashKind::Entry
            &&& sl.base.bytes@ == anchor_digest("ALL_AGENTS"@, "ALL_AGENTS"@)
            &&& sl.zome_index == UNZOOM_ZOME_INDEX
            &&& sl.link_type == LinkTypes::AnchorToAgent.spec_index()
            &&& sl.link.target == (AnyLinkableHash {
                kind: HashKind::Agent,
                bytes: stamp.author.bytes,
            })
            &&& sl.link.author == stamp.author
            &&& sl.link.timestamp == stamp.timestamp
            &&& sl.link.tag@ == Seq::<u8>::empty()
            &&& sl.link.create_link_hash == stamp.action_hash
        }),
        final(store).records@.len() == old(store).records@.len() + 1,
        forall|i: int|
            0 <= i < old(store).records@.len() ==> final(store).records@[i] == old(
                store,
            ).records@[i],
        final(store).records@.last().action is CreateLink,
{
    proof {
        reveal_strlit("ALL_AGENTS");
    }
    let anchor = typed_anchor_hash("ALL_AGENTS", "ALL_AGENTS");
    let base = AnyLinkableHash { kind: HashKind::Entry, bytes: anchor.bytes };
    let target = stamp.author.to_linkable();
    let ghost before = store.records@;
    let hash = store.create_link(
        stamp,
        base,
        target,
        UNZOOM_ZOME_INDEX,
        LinkTypes::AnchorToAgent.index(),
        Vec::new(),
    );
    let record = store.get_record(&hash);
    proof {
        assert(store.records@ =~= before.push(store.records@.last()));
    }
    if record.is_none() {
        proof {
            crate::room::lemma_find_record_push(
                before,
                store.records@.last(),
                HashKind::Action,
                stamp.action_hash@,
            );
        }
        return Err(ExternError::NotFound);
    }
    Ok(())
}

/// Every agent registered at the agents anchor; a link whose target is not
/// an agent key is dropped, never an error.
pub fn get_all_agents(store: &Store) -> (r: Vec<AgentPubKey>)
    ensures
        r@ == spec_agent_keys(spec_agent_anchor_links(*store)),
{
    proof {
        reveal_strlit("ALL_AGENTS");
    }
    let anchor = typed_anchor_hash("ALL_AGENTS", "ALL_AGENTS");
    let base = AnyLinkableHash { kind: HashKind::Entry, bytes: anchor.bytes };
    let links = store.get_links(&base, UNZOOM_ZOME_INDEX, LinkTypes::AnchorToAgent.index());
    let ghost model = spec_agent_anchor_links(*store);
    let mut out: Vec<AgentPubKey> = Vec::new();
    let n = links.len();
    let mut i: usize = 0;
    proof {
        assert(model.take(0) =~= Seq::<crate::store::Link>::empty());
        assert(out@ =~= spec_agent_keys(model.take(0)));
    }
    while i < n
        invariant
            n == links@.len(),
            links@.len() == model.len(),
            forall|k: int| 0 <= k < model.len() ==> *links@[k] == model[k],
            0 <= i <= n,
            out@ == spec_agent_keys(model.take(i as int)),
        decreases n - i,
    {
        proof {
            assert(model.take(i as int + 1).drop_last() =~= model.take(i as int));
            assert(model.take(i as int + 1).last() == model[i as int]);
        }
        match links[i].target.into_agent_pub_key() {
            Some(key) => {
                out.push(key);
            },
            None => (),
        }
        i += 1;
    }
    proof {
        assert(model.take(n as int) =~= model);
    }
    out
}

// ---------------------------------------------------------------------
// Remote signals.
// ---------------------------------------------------------------------

/// A presence or connection-negotiation signal between peers.
#[derive(Debug, PartialEq)]
pub enum SignalPayload {
    /// Liveness probe, answered by the receiving peer automatically.
    Ping { from_agent: AgentPubKey },
    /// Automatic answer to a ping.
    Pong { from_agent: AgentPubKey },
    /// Liveness probe that the receiving peer's UI must answer itself.
    PingUi { from_agent: AgentPubKey },
    /// The UI's answer to a UI ping.
    PongUi { from_agent: AgentPubKey },
    /// Offer to open a peer connection.
    InitRequest { from_agent: AgentPubKey, connection_id: String },
    /// Acceptance of a connection offer.
    InitAccept { from_agent: AgentPubKey, connection_id: String },
    /// Session-negotiation data for an open connection.
    SdpData { from_agent: AgentPubKey, connection_id: String, data: String },
}

/// What to do with a signal: send it to remote peers, or surface it to the
/// local UI.  The caller performs the send or the emit.
#[derive(Debug, PartialEq)]
pub enum SignalDirective {
    Remote { payload: SignalPayload, to: Vec<AgentPubKey> },
    Emit { payload: SignalPayload },
}

/// Decide the response to an incoming remote signal: a ping is answered
/// with a pong carrying the receiver's own key, sent back to the sender;
/// every other signal is emitted to the local UI unchanged.
pub fn recv_remote_signal(me: &AgentPubKey, signal_payload: SignalPayload) -> (r: SignalDirective)
    ensures
        match signal_payload {
            SignalPayload::Ping { from_agent } => r matches SignalDirective::Remote {
                payload,
                to,
            } && payload == (SignalPayload::Pong { from_agent: *me }) && to@ == seq![from_agent],
            _ => r == (SignalDirective::Emit { payload: signal_payload }),
        },
{
    match signal_payload {
        SignalPayload::Ping { from_agent } => {
            let mut to: Vec<AgentPubKey> = Vec::new();
            to.push(from_agent);
            proof {
                assert(to@ =~= seq![from_agent]);
            }
            SignalDirective::Remote { payload: SignalPayload::Pong { from_agent: *me }, to }
        },
        other => SignalDirective::Emit { payload: other },
    }
}

/// Probe whether the given agents are online; the pong is answered by their
/// peers automatically, whether or not a UI is running.
pub fn ping(me: &AgentPubKey, agents_pub_keys: Vec<AgentPubKey>) -> (r: SignalDirective)
    ensures
        r matches SignalDirective::Remote { payload, to } && payload == (SignalPayload::Ping {
            from_agent: *me,
        }) && to == agents_pub_keys,
{
    SignalDirective::Remote { payload: SignalPayload::Ping { from_agent: *me }, to: agents_pub_keys }
}

/// Probe whether the given agents are online with a running UI; only their
/// UIs answer this one.
pub fn ping_ui(me: &AgentPubKey, agents_pub_keys: Vec<AgentPubKey>) -> (r: SignalDirective)
    ensures
        r matches SignalDirective::Remote { payload, to } && payload == (SignalPayload::PingUi {
            from_agent: *me,
        }) && to == agents_pub_keys,
{
    SignalDirective::Remote {
        payload: SignalPayload::PingUi { from_agent: *me },
        to: agents_pub_keys,
    }
}

/// Answer a UI ping; the UI calls this itself.
pub fn pong_ui(me: &AgentPubKey, agent_pub_key: AgentPubKey) -> (r: SignalDirective)
    ensures
        r matches SignalDirective::Remote { payload, to } && payload == (SignalPayload::PongUi {
            from_agent: *me,
        }) && to@ == seq![agent_pub_key],
{
    let mut to: Vec<AgentPubKey> = Vec::new();
    to.push(agent_pub_key);
    proof {
        assert(to@ =~= seq![agent_pub_key]);
    }
    SignalDirective::Remote { payload: SignalPayload::PongUi { from_agent: *me }, to }
}

/// Input to [`send_init_request`]: which peer to offer a connection, under
/// which connection id, and of which kind.
#[derive(Debug)]
pub struct InitRequestInput {
    pub connection_type: Option<String>,
    pub connection_id: String,
    pub to_agent: AgentPubKey,
}

/// Offer a peer connection to one agent.
pub fn send_init_request(me: &AgentPubKey, input: InitRequestInput) -> (r: SignalDirective)
    ensures
        r matches SignalDirective::Remote { payload, to } && payload
            == (SignalPayload::InitRequest {
            from_agent: *me,
            connection_id: input.connection_id,
        }) && to@ == seq![input.to_agent],
{
    let mut to: Vec<AgentPubKey> = Vec::new();
    to.push(input.to_agent);
    proof {
        assert(to@ =~= seq![input.to_agent]);
    }
    SignalDirective::Remote {
        payload: SignalPayload::InitRequest {
            from_agent: *me,
            connection_id: input.connection_id,
        },
        to,
    }
}

/// Input to [`send_init_accept`]: whose offer to accept, under which
/// connection id, and of which kind.
#[derive(Debug)]
pub struct InitAcceptInput {
    pub connection_type: Option<String>,
    pub connection_id: String,
    pub to_agent: AgentPubKey,
}

/// Accept a peer-connection offer from one agent.
pub fn send_init_accept(me: &AgentPubKey, input: InitAcceptInput) -> (r: SignalDirective)
    ensures
        r matches SignalDirective::Remote { payload, to } && payload
            == (SignalPayload::InitAccept {
            from_agent: *me,
            connection_id: input.connection_id,
        }) && to@ == seq![input.to_agent],
{
    let mut to: Vec<AgentPubKey> = Vec::new();
    to.push(input.to_agent);
    proof {
        assert(to@ =~= seq![input.to_agent]);
    }
    SignalDirective::Remote {
        payload: SignalPayload::InitAccept { from_agent: *me, connection_id: input.connection_id },
        to,
    }
}

/// Input to [`send_sdp_data`]: the peer, the connection, and the
/// session-negotiation data to hand over.
#[derive(Debug)]
pub struct SdpDataInput {
    pub to_agent: AgentPubKey,
    pub connection_id: String,
    pub data: String,
}

/// Send session-negotiation data to the peer of an open connection.
pub fn send_sdp_data(me: &AgentPubKey, input: SdpDataInput) -> (r: SignalDirective)
    ensures
        r matches SignalDirective::Remote { payload, to } && payload == (SignalPayload::SdpData {
            from_agent: *me,
            connection_id: input.connection_id,
            data: input.data,
        }) && to@ == seq![input.to_agent],
{
    let mut to: Vec<AgentPubKey> = Vec::new();
    to.push(input.to_agent);
    proof {
        assert(to@ =~= seq![input.to_agent]);
    }
    SignalDirective::Remote {
        payload: SignalPayload::SdpData {
            from_agent: *me,
            connection_id: input.connection_id,
            data: input.data,
        },
        to,
    }
}

} // verus!
