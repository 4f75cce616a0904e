//! The archiver's rules for its control channel: which peers it knows as
//! servers and clients, the settings it advertises, and what it sends when a
//! control message arrives.

use vstd::prelude::*;
use crate::plugins::publish_data::copy_bytes;
use crate::plugins::radar_packet::{NetType, SettingInfo};

verus! {

/// What a control message's body turned out to be.
pub enum ControlMessage {
    /// A settings packet that lists settings, sent by a node of `sender_type`.
    SettingInfo { sender_type: NetType, infos: Vec<SettingInfo> },
    /// A settings packet that carries setting values.
    SettingData,
    /// A body that is not a settings packet.
    Unrecognized,
}

/// The abstract content of a [`ControlMessage`].
pub ghost enum ControlMessageView {
    SettingInfo { sender_type: NetType, infos: Seq<SettingInfo> },
    SettingData,
    Unrecognized,
}

impl View for ControlMessage {
    type V = ControlMessageView;

    open spec fn view(&self) -> ControlMessageView {
        match self {
            ControlMessage::SettingInfo { sender_type, infos } => ControlMessageView::SettingInfo {
                sender_type: *sender_type,
                infos: infos@,
            },
            ControlMessage::SettingData => ControlMessageView::SettingData,
            ControlMessage::Unrecognized => ControlMessageView::Unrecognized,
        }
    }
}

/// One thing the archiver does in answer to a control message, in order.
#[derive(Debug, PartialEq, Eq)]
pub enum ArchiverAction {
    /// Send the archiver's current setting list to this peer.
    SendSettingInfo(Vec<u8>),
    /// Forward the received settings packet to this peer.
    ForwardPacket(Vec<u8>),
    /// This peer is a known server (logged each time a server lists settings).
    ServerRegistered(Vec<u8>),
    /// This peer is a known client (logged each time a client says hello).
    ClientRegistered(Vec<u8>),
    /// Log the frames of the received message.
    PrintMessage,
}

/// The abstract content of an [`ArchiverAction`].
pub ghost enum Step {
    SendSettingInfo(Seq<u8>),
    ForwardPacket(Seq<u8>),
    ServerRegistered(Seq<u8>),
    ClientRegistered(Seq<u8>),
    PrintMessage,
}

impl View for ArchiverAction {
    type V = Step;

    open spec fn view(&self) -> Step {
        match self {
            ArchiverAction::SendSettingInfo(p) => Step::SendSettingInfo(p@),
            ArchiverAction::ForwardPacket(p) => Step::ForwardPacket(p@),
            ArchiverAction::ServerRegistered(p) => Step::ServerRegistered(p@),
            ArchiverAction::ClientRegistered(p) => Step::ClientRegistered(p@),
            ArchiverAction::PrintMessage => Step::PrintMessage,
        }
    }
}

/// The steps of a list of actions.
pub open spec fn steps(actions: Seq<ArchiverAction>) -> Seq<Step> {
    actions.map_values(|a: ArchiverAction| a@)
}

/// The archiver's control state: the settings it advertises and the peers it
/// knows, each peer by the identity frame that the router gave it.
pub struct Archiver {
    setting_info: Vec<SettingInfo>,
    clients: Vec<Vec<u8>>,
    servers: Vec<Vec<u8>>,
}

/// The abstract state of an [`Archiver`].
pub ghost struct ArchiverView {
    pub setting_info: Seq<SettingInfo>,
    pub clients: Seq<Seq<u8>>,
    pub servers: Seq<Seq<u8>>,
}

/// The identities of a list of peers.
pub open spec fn peer_ids(peers: Seq<Vec<u8>>) -> Seq<Seq<u8>> {
    peers.map_values(|p: Vec<u8>| p@)
}

impl View for Archiver {
    type V = ArchiverView;

    closed spec fn view(&self) -> ArchiverView {
        ArchiverView {
            setting_info: self.setting_info@,
            clients: peer_ids(self.clients@),
            servers: peer_ids(self.servers@),
        }
    }
}

/// Adds `peer` to a set of peers kept in the order they were first seen.
pub open spec fn insert_peer(peers: Seq<Seq<u8>>, peer: Seq<u8>) -> Seq<Seq<u8>> {
    if peers.contains(peer) {
        peers
    } else {
        peers.push(peer)
    }
}

/// One `SendSettingInfo` step for each peer, in order.
pub open spec fn inform_all(peers: Seq<Seq<u8>>) -> Seq<Step> {
    peers.map_values(|p: Seq<u8>| Step::SendSettingInfo(p))
}

/// One `ForwardPacket` step for each peer, in order.
pub open spec fn forward_to_all(peers: Seq<Seq<u8>>) -> Seq<Step> {
    peers.map_values(|p: Seq<u8>| Step::ForwardPacket(p))
}

/// The state after a control message whose identity frame is `sender` and
/// whose body is `body`.
pub open spec fn after_message(
    s: ArchiverView,
    sender: Seq<u8>,
    body: Seq<u8>,
    msg: ControlMessageView,
) -> ArchiverView {
    match msg {
        ControlMessageView::SettingInfo { sender_type, infos } => if sender_type == NetType::Server {
            ArchiverView {
                setting_info: s.setting_info + infos,
                servers: insert_peer(s.servers, sender),
                ..s
            }
        } else {
            s
        },
        ControlMessageView::SettingData => s,
        ControlMessageView::Unrecognized => if body.len() == 0 {
            ArchiverView { clients: insert_peer(s.clients, sender), ..s }
        } else {
            s
        },
    }
}

/// What the archiver does in answer to that control message: the steps
/// particular to the message, then logging the message, then sending the
/// (updated) setting list to every known client.
pub open spec fn message_steps(
    s: ArchiverView,
    sender: Seq<u8>,
    body: Seq<u8>,
    msg: ControlMessageView,
) -> Seq<Step> {
    let first = match msg {
        ControlMessageView::SettingInfo { sender_type, infos } => if sender_type
            == NetType::Server {
            seq![Step::ServerRegistered(sender)]
        } else {
            seq![]
        },
        ControlMessageView::SettingData => forward_to_all(s.servers),
        ControlMessageView::Unrecognized => if body.len() == 0 {
            seq![Step::SendSettingInfo(sender), Step::ClientRegistered(sender)]
        } else {
            seq![]
        },
    };
    first + seq![Step::PrintMessage] + inform_all(after_message(s, sender, body, msg).clients)
}

fn same_bytes(a: &Vec<u8>, b: &Vec<u8>) -> (r: bool)
    ensures
        r == (a@ == b@),
{
    if a.len() != b.len() {
        return false;
    }
    let mut i: usize = 0;
    while i < a.len()
        invariant
            a@.len() == b@.len(),
            i <= a@.len(),
            forall|j: int| 0 <= j < i ==> a@[j] == b@[j],
        decreases a@.len() - i,
    {
        if a[i] != b[i] {
            return false;
        }
        i = i + 1;
    }
    assert(a@ =~= b@);
    true
}

/// Whether `peer` is among `peers`.
fn knows(peers: &Vec<Vec<u8>>, peer: &Vec<u8>) -> (r: bool)
    ensures
        r == peer_ids(peers@).contains(peer@),
{
    let mut i: usize = 0;
    while i < peers.len()
        invariant
            i <= peers@.len(),
            forall|j: int| 0 <= j < i ==> peers@[j]@ != peer@,
        decreases peers@.len() - i,
    {
        if same_bytes(&peers[i], peer) {
            assert(peer_ids(peers@)[i as int] == peer@);
            return true;
        }
        i = i + 1;
    }
    let ghost ids = peer_ids(peers@);
    assert forall|k: int| 0 <= k < ids.len() implies ids[k] != peer@ by {
        assert(ids[k] == peers@[k]@);
    }
    false
}

/// Adds `peer` to `peers` unless it is there already.
fn register(peers: &mut Vec<Vec<u8>>, peer: &Vec<u8>)
    requires
        peer_ids(old(peers)@).no_duplicates(),
    ensures
        peer_ids(final(peers)@) == insert_peer(peer_ids(old(peers)@), peer@),
        peer_ids(final(peers)@).no_duplicates(),
{
    if !knows(peers, peer) {
        let ghost before = peer_ids(peers@);
        peers.push(copy_bytes(peer.as_slice()));
        assert(peer_ids(peers@) =~= before.push(peer@));
    }
}

/// Appends one action per peer, built by `forward` or not.
fn push_for_each(actions: &mut Vec<ArchiverAction>, peers: &Vec<Vec<u8>>, forward: bool)
    ensures
        steps(final(actions)@) == steps(old(actions)@) + (if forward {
            forward_to_all(peer_ids(peers@))
        } else {
            inform_all(peer_ids(peers@))
        }),
{
    let ghost start = steps(actions@);
    let ghost ids = peer_ids(peers@);
    let ghost all = if forward {
        forward_to_all(ids)
    } else {
        inform_all(ids)
    };
    let mut i: usize = 0;
    while i < peers.len()
        invariant
            i <= peers@.len(),
            ids == peer_ids(peers@),
            all == (if forward {
                forward_to_all(ids)
            } else {
                inform_all(ids)
            }),
            steps(actions@) == start + all.take(i as int),
        decreases peers@.len() - i,
    {
        let id = copy_bytes(peers[i].as_slice());
        let ghost before = actions@;
        if forward {
            actions.push(ArchiverAction::ForwardPacket(id));
        } else {
            actions.push(ArchiverAction::SendSettingInfo(id));
        }
        assert(steps(actions@) =~= steps(before).push(all[i as int]));
        i = i + 1;
        assert(all.take(i as int) =~= all.take(i - 1).push(all[i - 1]));
    }
    assert(all.take(peers@.len() as int) =~= all);
}

impl Archiver {
    /// The archiver knows each peer at most once.
    pub closed spec fn wf(&self) -> bool {
        &&& self@.clients.no_duplicates()
        &&& self@.servers.no_duplicates()
    }

    /// A fresh archiver: it advertises its own settings and knows no peer.
    pub fn new() -> (a: Archiver)
        ensures
            a.wf(),
            a@.clients.len() == 0,
            a@.servers.len() == 0,
            a@.setting_info.len() == 1,
            crate::plugins::radar_packet::describes(
                a@.setting_info[0],
                "playback_delay"@,
                "Playback Delay"@,
                Some("0"@),
                Some(crate::plugins::radar_packet::u16_max_text()),
                Some("1"@),
                Some("Ms"@),
            ),
    {
        let a = Archiver {
            setting_info: SettingInfo::get_archiver_settings(),
            clients: Vec::new(),
            servers: Vec::new(),
        };
        assert(a@.clients =~= Seq::<Seq<u8>>::empty());
        assert(a@.servers =~= Seq::<Seq<u8>>::empty());
        a
    }

    /// The settings the archiver advertises, in the order they were learnt.
    pub fn setting_info(&self) -> (r: &Vec<SettingInfo>)
        ensures
            r@ == self@.setting_info,
    {
        &self.setting_info
    }

    /// Handles one message from the control router: `message[0]` is the
    /// sender's identity frame, `message[1]` the body, and `msg` what the body
    /// turned out to be.
    pub fn handle_control_message(&mut self, message: &Vec<Vec<u8>>, msg: ControlMessage) -> (actions: Vec<ArchiverAction>)
        requires
            old(self).wf(),
            message@.len() >= 2,
        ensures
            final(self).wf(),
            final(self)@ == after_message(old(self)@, message@[0]@, message@[1]@, msg@),
            steps(actions@) == message_steps(old(self)@, message@[0]@, message@[1]@, msg@),
    {
        let ghost s0 = self@;
        let ghost m = msg@;
        let sender = &message[0];
        let body = &message[1];
        let mut actions: Vec<ArchiverAction> = Vec::new();
        match msg {
            ControlMessage::SettingInfo { sender_type, mut infos } => {
                if sender_type == NetType::Server {
                    self.setting_info.append(&mut infos);
                    register(&mut self.servers, sender);
                    actions.push(ArchiverAction::ServerRegistered(copy_bytes(sender.as_slice())));
                }
            },
            ControlMessage::SettingData => {
                push_for_each(&mut actions, &self.servers, true);
            },
            ControlMessage::Unrecognized => {
                if body.len() == 0 {
                    actions.push(ArchiverAction::SendSettingInfo(copy_bytes(sender.as_slice())));
                    register(&mut self.clients, sender);
                    actions.push(ArchiverAction::ClientRegistered(copy_bytes(sender.as_slice())));
                }
            },
        }
        assert(self@ == after_message(s0, sender@, body@, m));
        actions.push(ArchiverAction::PrintMessage);
        push_for_each(&mut actions, &self.clients, false);
        assert(steps(actions@) =~= message_steps(s0, sender@, body@, m));
        actions
    }
}

/// The setting list only grows: whatever the archiver advertised before a
/// control message, it still advertises first, in the same order; the peers
/// it knew it still knows, in the same order.
pub proof fn lemma_state_only_grows(s: ArchiverView, sender: Seq<u8>, body: Seq<u8>, msg: ControlMessageView)
    ensures
        ({
            let t = after_message(s, sender, body, msg);
            &&& s.setting_info.len() <= t.setting_info.len()
            &&& t.setting_info.take(s.setting_info.len() as int) == s.setting_info
            &&& s.clients.len() <= t.clients.len()
            &&& t.clients.take(s.clients.len() as int) == s.clients
            &&& s.servers.len() <= t.servers.len()
            &&& t.servers.take(s.servers.len() as int) == s.servers
        }),
{
    let t = after_message(s, sender, body, msg);
    assert(t.setting_info.take(s.setting_info.len() as int) =~= s.setting_info);
    assert(t.clients.take(s.clients.len() as int) =~= s.clients);
    assert(t.servers.take(s.servers.len() as int) =~= s.servers);
}

/// A client that says hello twice is known once: a second empty message from
/// a known client leaves the archiver's state as it was.
pub proof fn lemma_hello_idempotent(s: ArchiverView, sender: Seq<u8>)
    ensures
        ({
            let empty = Seq::<u8>::empty();
            let t = after_message(s, sender, empty, ControlMessageView::Unrecognized);
            &&& t.clients.contains(sender)
            &&& after_message(t, sender, empty, ControlMessageView::Unrecognized) == t
        }),
{
    let t = after_message(s, sender, Seq::<u8>::empty(), ControlMessageView::Unrecognized);
    if !s.clients.contains(sender) {
        assert(t.clients[t.clients.len() - 1] == sender);
    }
}

/// After every control message, each client the archiver knows is sent the
/// setting list.
pub proof fn lemma_every_client_informed(
    s: ArchiverView,
    sender: Seq<u8>,
    body: Seq<u8>,
    msg: ControlMessageView,
    client: Seq<u8>,
)
    requires
        after_message(s, sender, body, msg).clients.contains(client),
    ensures
        message_steps(s, sender, body, msg).contains(Step::SendSettingInfo(client)),
{
    let t = after_message(s, sender, body, msg);
    let steps = message_steps(s, sender, body, msg);
    let k = choose|k: int| 0 <= k < t.clients.len() && t.clients[k] == client;
    let tail = inform_all(t.clients);
    assert(tail[k] == Step::SendSettingInfo(client));
    assert(steps[steps.len() - tail.len() + k] == tail[k]);
}

/// A settings packet is forwarded only when it carries setting values, and
/// only to peers known as servers.
pub proof fn lemma_forward_only_to_servers(
    s: ArchiverView,
    sender: Seq<u8>,
    body: Seq<u8>,
    msg: ControlMessageView,
    peer: Seq<u8>,
)
    requires
        message_steps(s, sender, body, msg).contains(Step::ForwardPacket(peer)),
    ensures
        msg == ControlMessageView::SettingData,
        s.servers.contains(peer),
{
    let steps = message_steps(s, sender, body, msg);
    let k = choose|k: int| 0 <= k < steps.len() && steps[k] == Step::ForwardPacket(peer);
    let t = after_message(s, sender, body, msg);
    let tail = inform_all(t.clients);
    let first = steps.len() - 1 - tail.len();
    if k > first {
        assert(steps[k] == tail[k - first - 1]);
    } else if k == first {
        assert(steps[k] == Step::PrintMessage);
    } else {
        match msg {
            ControlMessageView::SettingData => {
                assert(forward_to_all(s.servers)[k] == Step::ForwardPacket(s.servers[k]));
                assert(s.servers[k] == peer);
            },
            ControlMessageView::SettingInfo { sender_type, infos } => {},
            ControlMessageView::Unrecognized => {},
        }
    }
}

} // verus!
