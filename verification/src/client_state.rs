//! The clients of the metrics service: who is connected, who subscribed to
//! what, and to whom each message goes.
//!
//! The functions here decide; they never send. Each takes the state and an
//! event and leaves the next state and what is to be sent to whom. The
//! channel of a client is carried as a value of any type.

use std::collections::{HashMap, HashSet};
use vstd::prelude::*;
use vstd::std_specs::hash::{group_hash_axioms, spec_hash_keys_iter};
use vstd::std_specs::iter::IteratorSpec;
use vstd::string::*;

verus! {

/// The number that identifies a connected client.
pub type ClientId = u64;

/// ClientState represents the service state of the connected clients.
/// It maintains and represents the connected clients, and their subscriptions.
#[derive(Clone, Debug)]
pub struct ClientState<S> {
    pub client_id: ClientId,
    pub sender: S,
}

impl<S> ClientState<S> {
    /// Create a new ClientState with the given client_id and receiver.
    pub fn new(client_id: ClientId, sender: S) -> (r: Self)
        ensures
            r == (ClientState { client_id, sender }),
    {
        Self { client_id, sender }
    }

    pub fn client_id(&self) -> (r: ClientId)
        ensures
            r == self.client_id,
    {
        self.client_id
    }

    pub fn sender(&self) -> (r: &S)
        ensures
            *r == self.sender,
    {
        &self.sender
    }
}

/// [ClientThreadState] represents the state of all of the active client
/// connections connected to the service. This state governs which clients
/// are connected, and what subscriptions they have setup.
#[derive(Debug)]
pub struct ClientThreadState<S> {
    clients: HashMap<ClientId, ClientState<S>>,
    subscribed_latest_block: HashSet<ClientId>,
    subscribed_node_identity: HashSet<ClientId>,
    subscribed_voters: HashSet<ClientId>,
    connection_id_counter: ClientId,
}

/// The state of the client connections as maps and sets.
pub struct ClientThreadView<S> {
    pub clients: Map<ClientId, ClientState<S>>,
    pub subscribed_latest_block: Set<ClientId>,
    pub subscribed_node_identity: Set<ClientId>,
    pub subscribed_voters: Set<ClientId>,
    pub connection_id_counter: ClientId,
}

impl<S> View for ClientThreadState<S> {
    type V = ClientThreadView<S>;

    closed spec fn view(&self) -> ClientThreadView<S> {
        ClientThreadView {
            clients: self.clients@,
            subscribed_latest_block: self.subscribed_latest_block@,
            subscribed_node_identity: self.subscribed_node_identity@,
            subscribed_voters: self.subscribed_voters@,
            connection_id_counter: self.connection_id_counter,
        }
    }
}

/// The state after a client was dropped: the client is gone, and so are its
/// subscriptions to the latest block and to the node identities. Its
/// subscription to the voters stays.
pub open spec fn without_client<S>(state: ClientThreadView<S>, client_id: ClientId)
    -> ClientThreadView<S> {
    ClientThreadView {
        clients: state.clients.remove(client_id),
        subscribed_latest_block: state.subscribed_latest_block.remove(client_id),
        subscribed_node_identity: state.subscribed_node_identity.remove(client_id),
        ..state
    }
}

/// The state after the first `n` of `failed` were dropped.
pub open spec fn without_clients<S>(state: ClientThreadView<S>, failed: Seq<ClientId>, n: nat)
    -> ClientThreadView<S>
    decreases n,
{
    if n == 0 || n > failed.len() {
        state
    } else {
        without_client(without_clients(state, failed, (n - 1) as nat), failed[n - 1])
    }
}

/// The client, if it is connected.
pub open spec fn client_of<S>(state: ClientThreadView<S>, client_id: ClientId) -> Option<
    ClientState<S>,
> {
    if state.clients.contains_key(client_id) {
        Some(state.clients[client_id])
    } else {
        None
    }
}

impl<S> ClientThreadState<S> {
    pub fn new(
        clients: HashMap<ClientId, ClientState<S>>,
        subscribed_latest_block: HashSet<ClientId>,
        subscribed_node_identity: HashSet<ClientId>,
        subscribed_voters: HashSet<ClientId>,
        connection_id_counter: ClientId,
    ) -> (r: Self)
        ensures
            r@ == (ClientThreadView {
                clients: clients@,
                subscribed_latest_block: subscribed_latest_block@,
                subscribed_node_identity: subscribed_node_identity@,
                subscribed_voters: subscribed_voters@,
                connection_id_counter,
            }),
    {
        Self {
            clients,
            subscribed_latest_block,
            subscribed_node_identity,
            subscribed_voters,
            connection_id_counter,
        }
    }

    /// A state without clients, whose first client will be number
    /// `connection_id_counter + 1`.
    pub fn empty(connection_id_counter: ClientId) -> (r: Self)
        ensures
            r@ == (ClientThreadView {
                clients: Map::<ClientId, ClientState<S>>::empty(),
                subscribed_latest_block: Set::<ClientId>::empty(),
                subscribed_node_identity: Set::<ClientId>::empty(),
                subscribed_voters: Set::<ClientId>::empty(),
                connection_id_counter,
            }),
    {
        Self {
            clients: HashMap::new(),
            subscribed_latest_block: HashSet::new(),
            subscribed_node_identity: HashSet::new(),
            subscribed_voters: HashSet::new(),
            connection_id_counter,
        }
    }

    /// The channel of a client, if it is connected.
    pub fn sender_of(&self, client_id: ClientId) -> (r: Option<&S>)
        ensures
            match r {
                Some(sender) => client_of(self@, client_id) is Some && *sender == client_of(
                    self@,
                    client_id,
                )->Some_0.sender,
                None => client_of(self@, client_id) is None,
            },
    {
        broadcast use group_hash_axioms;

        match self.clients.get(&client_id) {
            Some(client) => Some(client.sender()),
            None => None,
        }
    }

    /// Whether a client is connected.
    pub fn is_connected(&self, client_id: ClientId) -> (r: bool)
        ensures
            r == self@.clients.contains_key(client_id),
    {
        broadcast use group_hash_axioms;

        self.clients.contains_key(&client_id)
    }

    /// Whether a client subscribed to the latest block.
    pub fn is_subscribed_latest_block(&self, client_id: ClientId) -> (r: bool)
        ensures
            r == self@.subscribed_latest_block.contains(client_id),
    {
        broadcast use group_hash_axioms;

        self.subscribed_latest_block.contains(&client_id)
    }

    /// Whether a client subscribed to the node identities.
    pub fn is_subscribed_node_identity(&self, client_id: ClientId) -> (r: bool)
        ensures
            r == self@.subscribed_node_identity.contains(client_id),
    {
        broadcast use group_hash_axioms;

        self.subscribed_node_identity.contains(&client_id)
    }

    /// Whether a client subscribed to the voters.
    pub fn is_subscribed_voters(&self, client_id: ClientId) -> (r: bool)
        ensures
            r == self@.subscribed_voters.contains(client_id),
    {
        broadcast use group_hash_axioms;

        self.subscribed_voters.contains(&client_id)
    }

    /// The number that was given to the client that connected last.
    pub fn connection_id_counter(&self) -> (r: ClientId)
        ensures
            r == self@.connection_id_counter,
    {
        self.connection_id_counter
    }
}

/// Cleans up after a client: removes the client and its subscriptions to the
/// latest block and to the node identities, and returns the client if it
/// was connected.
pub fn drop_client<S>(client_id: ClientId, state: &mut ClientThreadState<S>) -> (r: Option<
    ClientState<S>,
>)
    ensures
        final(state)@ == without_client(old(state)@, client_id),
        r == client_of(old(state)@, client_id),
{
    broadcast use group_hash_axioms;

    let client = state.clients.remove(&client_id);
    state.subscribed_latest_block.remove(&client_id);
    state.subscribed_node_identity.remove(&client_id);
    client
}

/// Connects a client: it gets the next number, and its channel is kept
/// under that number. The number is what the client is to be told.
pub fn handle_client_message_connected<S>(sender: S, state: &mut ClientThreadState<S>) -> (r:
    ClientId)
    requires
        old(state)@.connection_id_counter < u64::MAX,
    ensures
        r == old(state)@.connection_id_counter + 1,
        final(state)@ == (ClientThreadView {
            clients: old(state)@.clients.insert(r, ClientState { client_id: r, sender }),
            connection_id_counter: r,
            ..old(state)@
        }),
{
    broadcast use group_hash_axioms;

    state.connection_id_counter = state.connection_id_counter + 1;
    let client_id: ClientId = state.connection_id_counter;
    state.clients.insert(client_id, ClientState { client_id, sender });
    client_id
}

/// Disconnects a client.
pub fn handle_client_message_disconnected<S>(client_id: ClientId, state: &mut ClientThreadState<S>)
    ensures
        final(state)@ == without_client(old(state)@, client_id),
{
    let _ = drop_client(client_id, state);
}

/// Subscribes a client to the latest block, connected or not.
pub fn handle_client_message_subscribe_latest_block<S>(
    client_id: ClientId,
    state: &mut ClientThreadState<S>,
)
    ensures
        final(state)@ == (ClientThreadView {
            subscribed_latest_block: old(state)@.subscribed_latest_block.insert(client_id),
            ..old(state)@
        }),
{
    broadcast use group_hash_axioms;

    state.subscribed_latest_block.insert(client_id);
}

/// Subscribes a client to the node identities, connected or not.
pub fn handle_client_message_subscribe_node_identity<S>(
    client_id: ClientId,
    state: &mut ClientThreadState<S>,
)
    ensures
        final(state)@ == (ClientThreadView {
            subscribed_node_identity: old(state)@.subscribed_node_identity.insert(client_id),
            ..old(state)@
        }),
{
    broadcast use group_hash_axioms;

    state.subscribed_node_identity.insert(client_id);
}

/// Subscribes a client to the voters, connected or not.
pub fn handle_client_message_subscribe_voters<S>(
    client_id: ClientId,
    state: &mut ClientThreadState<S>,
)
    ensures
        final(state)@ == (ClientThreadView {
            subscribed_voters: old(state)@.subscribed_voters.insert(client_id),
            ..old(state)@
        }),
{
    broadcast use group_hash_axioms;

    state.subscribed_voters.insert(client_id);
}

/// The members of a set, each once, in no particular order.
fn members(set: &HashSet<ClientId>) -> (r: Vec<ClientId>)
    ensures
        r@.no_duplicates(),
        r@.to_set() == set@,
{
    broadcast use group_hash_axioms;

    let mut out: Vec<ClientId> = Vec::new();
    for client_id in it: set.iter()
        invariant
            out@.len() == it.index(),
            it.seq() == spec_hash_keys_iter(set).remaining(),
            forall|j: int| 0 <= j < out@.len() ==> out@[j] == *it.seq()[j],
    {
        out.push(*client_id);
    }
    assert(out@ =~= spec_hash_keys_iter(set).remaining().unref());
    out
}

/// Whether `id` is among the first `i` of `list`.
pub open spec fn listed_before(list: Seq<ClientId>, i: int, id: ClientId) -> bool {
    exists|j: int| 0 <= j < i && list[j] == id
}

/// The subscribers among `subscribed` that are connected, each once, in no
/// particular order.
fn connected_subscribers<S>(
    subscribed: &HashSet<ClientId>,
    clients: &HashMap<ClientId, ClientState<S>>,
) -> (r: Vec<ClientId>)
    ensures
        r@.no_duplicates(),
        r@.to_set() == subscribed@.intersect(clients@.dom()),
{
    broadcast use group_hash_axioms;

    let list: Vec<ClientId> = members(subscribed);
    let n: usize = list.len();
    let mut out: Vec<ClientId> = Vec::new();
    let mut i: usize = 0;
    while i < n
        invariant
            n == list@.len(),
            i <= n,
            list@.no_duplicates(),
            out@.no_duplicates(),
            forall|id: ClientId|
                out@.contains(id) <==> clients@.contains_key(id) && listed_before(
                    list@,
                    i as int,
                    id,
                ),
        decreases n - i,
    {
        let client_id: ClientId = list[i];
        let ghost before = out@;
        if clients.contains_key(&client_id) {
            out.push(client_id);
            proof {
                assert forall|id: ClientId| out@.contains(id) <==> before.contains(id) || id
                    == client_id by {
                    if before.contains(id) {
                        let k = choose|k: int| 0 <= k < before.len() && before[k] == id;
                        assert(out@[k] == id);
                    }
                    if id == client_id {
                        assert(out@[before.len() as int] == id);
                    }
                }
                assert forall|a: int, b: int|
                    0 <= a < out@.len() && 0 <= b < out@.len() && a != b implies out@[a]
                    != out@[b] by {
                    if a < before.len() && b >= before.len() {
                        assert(before.contains(before[a]));
                    } else if a >= before.len() {
                        assert(before.contains(before[b]));
                    }
                }
                assert forall|id: ClientId|
                    out@.contains(id) <==> clients@.contains_key(id) && listed_before(
                        list@,
                        i + 1,
                        id,
                    ) by {
                    assert(out@.contains(id) <==> before.contains(id) || id == client_id);
                }
            }
        } else {
            assert(forall|id: ClientId|
                out@.contains(id) <==> clients@.contains_key(id) && listed_before(
                    list@,
                    i + 1,
                    id,
                ));
        }
        i = i + 1;
    }
    out
}

/// The clients to which a new block goes: the connected subscribers to the
/// latest block, each once, in no particular order.
pub fn handle_received_block_detail<S>(state: &ClientThreadState<S>) -> (r: Vec<ClientId>)
    ensures
        r@.no_duplicates(),
        r@.to_set() == state@.subscribed_latest_block.intersect(state@.clients.dom()),
{
    connected_subscribers(&state.subscribed_latest_block, &state.clients)
}

/// The clients to which a new node identity goes: the connected subscribers
/// to the node identities, each once, in no particular order.
pub fn handle_received_node_identity<S>(state: &ClientThreadState<S>) -> (r: Vec<ClientId>)
    ensures
        r@.no_duplicates(),
        r@.to_set() == state@.subscribed_node_identity.intersect(state@.clients.dom()),
{
    connected_subscribers(&state.subscribed_node_identity, &state.clients)
}

/// The clients to which new voters go: the connected subscribers to the
/// node identities, each once, in no particular order. The subscription to
/// the voters is not consulted.
pub fn handle_received_voters<S>(state: &ClientThreadState<S>) -> (r: Vec<ClientId>)
    ensures
        r@.no_duplicates(),
        r@.to_set() == state@.subscribed_node_identity.intersect(state@.clients.dom()),
{
    connected_subscribers(&state.subscribed_node_identity, &state.clients)
}

/// Drops every client to which a message could not be sent.
pub fn drop_failed_client_sends<S>(state: &mut ClientThreadState<S>, failed_client_sends: &Vec<ClientId>)
    ensures
        final(state)@ == without_clients(
            old(state)@,
            failed_client_sends@,
            failed_client_sends@.len(),
        ),
{
    let n: usize = failed_client_sends.len();
    let mut i: usize = 0;
    while i < n
        invariant
            n == failed_client_sends@.len(),
            i <= n,
            state@ == without_clients(old(state)@, failed_client_sends@, i as nat),
        decreases n - i,
    {
        let _ = drop_client(failed_client_sends[i], state);
        i = i + 1;
    }
}

/// A message from the connections of the clients.
#[derive(Debug)]
pub enum InternalClientMessage<S> {
    Connected(S),
    Disconnected(ClientId),
    SubscribeLatestBlock(ClientId),
    SubscribeNodeIdentity(ClientId),
    SubscribeVoters(ClientId),
    RequestBlocksSnapshot(ClientId),
    RequestNodeIdentitySnapshot(ClientId),
    RequestHistogramSnapshot(ClientId),
    RequestVotersSnapshot(ClientId),
}

/// What a client is sent in answer to its message.
#[derive(Clone, Copy, Debug, PartialEq, Eq, Structural)]
pub enum Reply {
    /// The number the client was given.
    YouAre,
    BlocksSnapshot,
    NodeIdentitySnapshot,
    HistogramSnapshot,
    VotersSnapshot,
}

/// A reply and the client it goes to.
#[derive(Clone, Copy, Debug, PartialEq, Eq, Structural)]
pub struct Delivery {
    pub client_id: ClientId,
    pub reply: Reply,
}

/// The reply to a request for a snapshot: the snapshot goes to the client
/// if it is connected, and nothing is sent otherwise.
pub open spec fn snapshot_for<S>(state: ClientThreadView<S>, client_id: ClientId, reply: Reply)
    -> Option<Delivery> {
    if state.clients.contains_key(client_id) {
        Some(Delivery { client_id, reply })
    } else {
        None
    }
}

/// The state after a message was processed.
pub open spec fn next_state<S>(state: ClientThreadView<S>, message: InternalClientMessage<S>)
    -> ClientThreadView<S> {
    match message {
        InternalClientMessage::Connected(sender) => {
            let client_id = (state.connection_id_counter + 1) as ClientId;
            ClientThreadView {
                clients: state.clients.insert(client_id, ClientState { client_id, sender }),
                connection_id_counter: client_id,
                ..state
            }
        },
        InternalClientMessage::Disconnected(client_id) => without_client(state, client_id),
        InternalClientMessage::SubscribeLatestBlock(client_id) => ClientThreadView {
            subscribed_latest_block: state.subscribed_latest_block.insert(client_id),
            ..state
        },
        InternalClientMessage::SubscribeNodeIdentity(client_id) => ClientThreadView {
            subscribed_node_identity: state.subscribed_node_identity.insert(client_id),
            ..state
        },
        InternalClientMessage::SubscribeVoters(client_id) => ClientThreadView {
            subscribed_voters: state.subscribed_voters.insert(client_id),
            ..state
        },
        _ => state,
    }
}

/// What is to be sent in answer to a message.
pub open spec fn reply_to<S>(state: ClientThreadView<S>, message: InternalClientMessage<S>)
    -> Option<Delivery> {
    match message {
        InternalClientMessage::Connected(_) => Some(
            Delivery {
                client_id: (state.connection_id_counter + 1) as ClientId,
                reply: Reply::YouAre,
            },
        ),
        InternalClientMessage::RequestBlocksSnapshot(client_id) => snapshot_for(
            state,
            client_id,
            Reply::BlocksSnapshot,
        ),
        InternalClientMessage::RequestNodeIdentitySnapshot(client_id) => snapshot_for(
            state,
            client_id,
            Reply::NodeIdentitySnapshot,
        ),
        InternalClientMessage::RequestHistogramSnapshot(client_id) => snapshot_for(
            state,
            client_id,
            Reply::HistogramSnapshot,
        ),
        InternalClientMessage::RequestVotersSnapshot(client_id) => snapshot_for(
            state,
            client_id,
            Reply::VotersSnapshot,
        ),
        _ => None,
    }
}

/// Answers a request for the latest blocks.
pub fn handle_client_message_request_blocks_snapshot<S>(
    client_id: ClientId,
    state: &ClientThreadState<S>,
) -> (r: Option<Delivery>)
    ensures
        r == snapshot_for(state@, client_id, Reply::BlocksSnapshot),
{
    if state.is_connected(client_id) {
        Some(Delivery { client_id, reply: Reply::BlocksSnapshot })
    } else {
        None
    }
}

/// Answers a request for the node identities.
pub fn handle_client_message_request_node_identity_snapshot<S>(
    client_id: ClientId,
    state: &ClientThreadState<S>,
) -> (r: Option<Delivery>)
    ensures
        r == snapshot_for(state@, client_id, Reply::NodeIdentitySnapshot),
{
    if state.is_connected(client_id) {
        Some(Delivery { client_id, reply: Reply::NodeIdentitySnapshot })
    } else {
        None
    }
}

/// Answers a request for the histograms.
pub fn handle_client_message_request_histogram_snapshot<S>(
    client_id: ClientId,
    state: &ClientThreadState<S>,
) -> (r: Option<Delivery>)
    ensures
        r == snapshot_for(state@, client_id, Reply::HistogramSnapshot),
{
    if state.is_connected(client_id) {
        Some(Delivery { client_id, reply: Reply::HistogramSnapshot })
    } else {
        None
    }
}

/// Answers a request for the latest voters.
pub fn handle_client_message_request_voters_snapshot<S>(
    client_id: ClientId,
    state: &ClientThreadState<S>,
) -> (r: Option<Delivery>)
    ensures
        r == snapshot_for(state@, client_id, Reply::VotersSnapshot),
{
    if state.is_connected(client_id) {
        Some(Delivery { client_id, reply: Reply::VotersSnapshot })
    } else {
        None
    }
}

/// Processes a message from a client: updates the connections and the
/// subscriptions, and says what is to be sent to whom in answer.
pub fn process_client_message<S>(
    message: InternalClientMessage<S>,
    state: &mut ClientThreadState<S>,
) -> (r: Option<Delivery>)
    requires
        message is Connected ==> old(state)@.connection_id_counter < u64::MAX,
    ensures
        final(state)@ == next_state(old(state)@, message),
        r == reply_to(old(state)@, message),
{
    match message {
        InternalClientMessage::Connected(sender) => {
            let client_id = handle_client_message_connected(sender, state);
            Some(Delivery { client_id, reply: Reply::YouAre })
        },
        InternalClientMessage::Disconnected(client_id) => {
            handle_client_message_disconnected(client_id, state);
            None
        },
        InternalClientMessage::SubscribeLatestBlock(client_id) => {
            handle_client_message_subscribe_latest_block(client_id, state);
            None
        },
        InternalClientMessage::SubscribeNodeIdentity(client_id) => {
            handle_client_message_subscribe_node_identity(client_id, state);
            None
        },
        InternalClientMessage::SubscribeVoters(client_id) => {
            handle_client_message_subscribe_voters(client_id, state);
            None
        },
        InternalClientMessage::RequestBlocksSnapshot(client_id) => {
            handle_client_message_request_blocks_snapshot(client_id, state)
        },
        InternalClientMessage::RequestNodeIdentitySnapshot(client_id) => {
            handle_client_message_request_node_identity_snapshot(client_id, state)
        },
        InternalClientMessage::RequestHistogramSnapshot(client_id) => {
            handle_client_message_request_histogram_snapshot(client_id, state)
        },
        InternalClientMessage::RequestVotersSnapshot(client_id) => {
            handle_client_message_request_voters_snapshot(client_id, state)
        },
    }
}

/// [HandleConnectedError] represents the scope of errors that can be
/// returned from the [handle_client_message_connected] function.
#[derive(Clone, Copy, Debug, PartialEq, Eq, Structural)]
pub enum HandleConnectedError {
    ClientSendError,
}

/// [HandleRequestBlocksSnapshotsError] represents the scope of errors that can
/// be returned from the [handle_client_message_request_blocks_snapshot] function.
#[derive(Clone, Copy, Debug, PartialEq, Eq, Structural)]
pub enum HandleRequestBlocksSnapshotsError {
    ClientSendError,
}

/// [HandleRequestNodeIdentitySnapshotError] represents the scope of errors that
/// can be returned from the [handle_client_message_request_node_identity_snapshot]
/// function.
#[derive(Clone, Copy, Debug, PartialEq, Eq, Structural)]
pub enum HandleRequestNodeIdentitySnapshotError {
    ClientSendError,
}

/// [HandleRequestHistogramSnapshotError] represents the scope of errors that
/// can be returned from the [handle_client_message_request_histogram_snapshot]
/// function.
#[derive(Clone, Copy, Debug, PartialEq, Eq, Structural)]
pub enum HandleRequestHistogramSnapshotError {
    ClientSendError,
}

#[derive(Clone, Copy, Debug, PartialEq, Eq, Structural)]
pub enum HandleRequestVotersSnapshotError {
    ClientSendError,
}

/// [ProcessClientMessageError] represents the scope of errors that can be
/// returned from the [process_client_message] function.
#[derive(Clone, Copy, Debug, PartialEq, Eq, Structural)]
pub enum ProcessClientMessageError {
    Connected(HandleConnectedError),
    BlocksSnapshot(HandleRequestBlocksSnapshotsError),
    NodeIdentitySnapshot(HandleRequestNodeIdentitySnapshotError),
    HistogramSnapshot(HandleRequestHistogramSnapshotError),
    VotersSnapshot(HandleRequestVotersSnapshotError),
}

/// The error of a reply that could not be sent.
pub open spec fn send_error(reply: Reply) -> ProcessClientMessageError {
    match reply {
        Reply::YouAre => ProcessClientMessageError::Connected(
            HandleConnectedError::ClientSendError,
        ),
        Reply::BlocksSnapshot => ProcessClientMessageError::BlocksSnapshot(
            HandleRequestBlocksSnapshotsError::ClientSendError,
        ),
        Reply::NodeIdentitySnapshot => ProcessClientMessageError::NodeIdentitySnapshot(
            HandleRequestNodeIdentitySnapshotError::ClientSendError,
        ),
        Reply::HistogramSnapshot => ProcessClientMessageError::HistogramSnapshot(
            HandleRequestHistogramSnapshotError::ClientSendError,
        ),
        Reply::VotersSnapshot => ProcessClientMessageError::VotersSnapshot(
            HandleRequestVotersSnapshotError::ClientSendError,
        ),
    }
}

/// Takes note that a reply could not be sent: the client is dropped, and
/// the error of the reply is returned.
pub fn handle_send_failure<S>(delivery: Delivery, state: &mut ClientThreadState<S>) -> (r:
    ProcessClientMessageError)
    ensures
        final(state)@ == without_client(old(state)@, delivery.client_id),
        r == send_error(delivery.reply),
{
    let _ = drop_client(delivery.client_id, state);
    match delivery.reply {
        Reply::YouAre => ProcessClientMessageError::Connected(
            HandleConnectedError::ClientSendError,
        ),
        Reply::BlocksSnapshot => ProcessClientMessageError::BlocksSnapshot(
            HandleRequestBlocksSnapshotsError::ClientSendError,
        ),
        Reply::NodeIdentitySnapshot => ProcessClientMessageError::NodeIdentitySnapshot(
            HandleRequestNodeIdentitySnapshotError::ClientSendError,
        ),
        Reply::HistogramSnapshot => ProcessClientMessageError::HistogramSnapshot(
            HandleRequestHistogramSnapshotError::ClientSendError,
        ),
        Reply::VotersSnapshot => ProcessClientMessageError::VotersSnapshot(
            HandleRequestVotersSnapshotError::ClientSendError,
        ),
    }
}

/// What an error says before the text of its cause.
pub open spec fn error_prefix(error: ProcessClientMessageError) -> Seq<char> {
    match error {
        ProcessClientMessageError::Connected(_) =>
            "process client message error: connected: "@
            + "handle connected error: client send error: "@,
        ProcessClientMessageError::BlocksSnapshot(_) =>
            "process client message error: blocks snapshot: "@
            + "handle request blocks snapshot error: client send error:: "@,
        ProcessClientMessageError::NodeIdentitySnapshot(_) =>
            "process client message error: node identity snapshot: "@
            + "handle request node identity snapshot error: client send error: "@,
        ProcessClientMessageError::HistogramSnapshot(_) =>
            "process client message error: histogram snapshot: "@
            + "handle request histogram snapshot error: client send error: "@,
        ProcessClientMessageError::VotersSnapshot(_) =>
            "process client message error: voters snapshot: "@
            + "handle request voters snapshot error: client send error: "@,
    }
}

impl HandleConnectedError {
    /// What the error displays, given what its cause displays.
    pub fn display(&self, cause: &str) -> (r: String)
        ensures
            r@ == "handle connected error: client send error: "@ + cause@,
    {
        let mut out: String = String::from_str("handle connected error: client send error: ");
        out.append(cause);
        out
    }
}

impl HandleRequestBlocksSnapshotsError {
    /// What the error displays, given what its cause displays.
    pub fn display(&self, cause: &str) -> (r: String)
        ensures
            r@ == "handle request blocks snapshot error: client send error:: "@ + cause@,
    {
        let mut out: String = String::from_str(
            "handle request blocks snapshot error: client send error:: ",
        );
        out.append(cause);
        out
    }
}

impl HandleRequestNodeIdentitySnapshotError {
    /// What the error displays, given what its cause displays.
    pub fn display(&self, cause: &str) -> (r: String)
        ensures
            r@ == "handle request node identity snapshot error: client send error: "@ + cause@,
    {
        let mut out: String = String::from_str(
            "handle request node identity snapshot error: client send error: ",
        );
        out.append(cause);
        out
    }
}

impl HandleRequestHistogramSnapshotError {
    /// What the error displays, given what its cause displays.
    pub fn display(&self, cause: &str) -> (r: String)
        ensures
            r@ == "handle request histogram snapshot error: client send error: "@ + cause@,
    {
        let mut out: String = String::from_str(
            "handle request histogram snapshot error: client send error: ",
        );
        out.append(cause);
        out
    }
}

impl HandleRequestVotersSnapshotError {
    /// What the error displays, given what its cause displays.
    pub fn display(&self, cause: &str) -> (r: String)
        ensures
            r@ == "handle request voters snapshot error: client send error: "@ + cause@,
    {
        let mut out: String = String::from_str(
            "handle request voters snapshot error: client send error: ",
        );
        out.append(cause);
        out
    }
}

impl ProcessClientMessageError {
    /// What the error displays, given what the failed send displays: the
    /// step that failed, then the error of that step.
    pub fn display(&self, cause: &str) -> (r: String)
        ensures
            r@ == error_prefix(*self) + cause@,
    {
        match self {
            ProcessClientMessageError::Connected(err) => {
                let mut out: String = String::from_str("process client message error: connected: ");
                let inner: String = err.display(cause);
                out.append(inner.as_str());
                out
            },
            ProcessClientMessageError::BlocksSnapshot(err) => {
                let mut out: String = String::from_str(
                    "process client message error: blocks snapshot: ",
                );
                let inner: String = err.display(cause);
                out.append(inner.as_str());
                out
            },
            ProcessClientMessageError::NodeIdentitySnapshot(err) => {
                let mut out: String = String::from_str(
                    "process client message error: node identity snapshot: ",
                );
                let inner: String = err.display(cause);
                out.append(inner.as_str());
                out
            },
            ProcessClientMessageError::HistogramSnapshot(err) => {
                let mut out: String = String::from_str(
                    "process client message error: histogram snapshot: ",
                );
                let inner: String = err.display(cause);
                out.append(inner.as_str());
                out
            },
            ProcessClientMessageError::VotersSnapshot(err) => {
                let mut out: String = String::from_str(
                    "process client message error: voters snapshot: ",
                );
                let inner: String = err.display(cause);
                out.append(inner.as_str());
                out
            },
        }
    }
}

} // verus!
