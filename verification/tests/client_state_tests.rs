use consensus_core::client_state::{
    drop_client, drop_failed_client_sends, handle_client_message_connected,
    handle_client_message_disconnected, handle_client_message_request_blocks_snapshot,
    handle_client_message_request_histogram_snapshot,
    handle_client_message_request_node_identity_snapshot,
    handle_client_message_request_voters_snapshot, handle_client_message_subscribe_latest_block,
    handle_client_message_subscribe_node_identity, handle_client_message_subscribe_voters,
    handle_received_block_detail, handle_received_node_identity, handle_received_voters,
    handle_send_failure, process_client_message, ClientState, ClientThreadState, Delivery,
    HandleConnectedError, HandleRequestBlocksSnapshotsError, HandleRequestHistogramSnapshotError,
    HandleRequestNodeIdentitySnapshotError, HandleRequestVotersSnapshotError,
    InternalClientMessage, ProcessClientMessageError, Reply,
};
use std::collections::{HashMap, HashSet};

type Channel = &'static str;

fn sorted(mut ids: Vec<u64>) -> Vec<u64> {
    ids.sort_unstable();
    ids
}

fn three_clients() -> ClientThreadState<Channel> {
    let mut state = ClientThreadState::empty(1);
    assert_eq!(handle_client_message_connected("a", &mut state), 2);
    assert_eq!(handle_client_message_connected("b", &mut state), 3);
    assert_eq!(handle_client_message_connected("c", &mut state), 4);
    state
}

#[test]
fn client_state_keeps_its_number_and_channel() {
    let client = ClientState::new(7, "chan");
    assert_eq!(client.client_id(), 7);
    assert_eq!(*client.sender(), "chan");
}

#[test]
fn new_state_holds_what_it_was_given() {
    let mut clients = HashMap::new();
    clients.insert(5, ClientState::new(5, "x"));
    let state = ClientThreadState::new(
        clients,
        HashSet::from([5, 6]),
        HashSet::from([7]),
        HashSet::from([8]),
        9,
    );
    assert!(state.is_connected(5));
    assert!(!state.is_connected(6));
    assert_eq!(state.sender_of(5), Some(&"x"));
    assert_eq!(state.sender_of(6), None);
    assert!(state.is_subscribed_latest_block(5));
    assert!(state.is_subscribed_latest_block(6));
    assert!(state.is_subscribed_node_identity(7));
    assert!(!state.is_subscribed_node_identity(5));
    assert!(state.is_subscribed_voters(8));
    assert_eq!(state.connection_id_counter(), 9);
}

#[test]
fn connecting_gives_the_next_number() {
    let state = three_clients();
    assert_eq!(state.connection_id_counter(), 4);
    assert_eq!(state.sender_of(2), Some(&"a"));
    assert_eq!(state.sender_of(3), Some(&"b"));
    assert_eq!(state.sender_of(4), Some(&"c"));
    assert_eq!(state.sender_of(1), None);
    assert_eq!(state.sender_of(5), None);
}

#[test]
fn dropping_a_client_keeps_its_subscription_to_voters() {
    let mut state = three_clients();
    handle_client_message_subscribe_latest_block(3, &mut state);
    handle_client_message_subscribe_node_identity(3, &mut state);
    handle_client_message_subscribe_voters(3, &mut state);
    let dropped = drop_client(3, &mut state).unwrap();
    assert_eq!(dropped.client_id(), 3);
    assert_eq!(*dropped.sender(), "b");
    assert!(!state.is_connected(3));
    assert!(!state.is_subscribed_latest_block(3));
    assert!(!state.is_subscribed_node_identity(3));
    assert!(state.is_subscribed_voters(3));
    assert!(state.is_connected(2));
    assert!(state.is_connected(4));
    assert!(drop_client(3, &mut state).is_none());
    handle_client_message_disconnected(2, &mut state);
    assert!(!state.is_connected(2));
    // the counter never goes back
    assert_eq!(state.connection_id_counter(), 4);
    assert_eq!(handle_client_message_connected("d", &mut state), 5);
}

#[test]
fn broadcasts_go_to_connected_subscribers() {
    let mut state = three_clients();
    handle_client_message_subscribe_latest_block(2, &mut state);
    handle_client_message_subscribe_latest_block(4, &mut state);
    // a subscriber that never connected
    handle_client_message_subscribe_latest_block(9, &mut state);
    handle_client_message_subscribe_node_identity(3, &mut state);
    handle_client_message_subscribe_voters(2, &mut state);
    assert_eq!(sorted(handle_received_block_detail(&state)), vec![2, 4]);
    assert_eq!(sorted(handle_received_node_identity(&state)), vec![3]);
    // voters go to the subscribers to the node identities
    assert_eq!(sorted(handle_received_voters(&state)), vec![3]);

    drop_failed_client_sends(&mut state, &vec![2, 3, 2, 8]);
    assert_eq!(sorted(handle_received_block_detail(&state)), vec![4]);
    assert_eq!(sorted(handle_received_node_identity(&state)), Vec::<u64>::new());
    assert!(!state.is_connected(2));
    assert!(!state.is_connected(3));
    assert!(state.is_connected(4));
    assert!(state.is_subscribed_latest_block(9));
    assert!(state.is_subscribed_voters(2));
    drop_failed_client_sends(&mut state, &vec![]);
    assert!(state.is_connected(4));
}

#[test]
fn snapshots_go_to_connected_clients_only() {
    let state = three_clients();
    assert_eq!(
        handle_client_message_request_blocks_snapshot(2, &state),
        Some(Delivery { client_id: 2, reply: Reply::BlocksSnapshot })
    );
    assert_eq!(
        handle_client_message_request_node_identity_snapshot(3, &state),
        Some(Delivery { client_id: 3, reply: Reply::NodeIdentitySnapshot })
    );
    assert_eq!(
        handle_client_message_request_histogram_snapshot(4, &state),
        Some(Delivery { client_id: 4, reply: Reply::HistogramSnapshot })
    );
    assert_eq!(
        handle_client_message_request_voters_snapshot(2, &state),
        Some(Delivery { client_id: 2, reply: Reply::VotersSnapshot })
    );
    assert_eq!(handle_client_message_request_blocks_snapshot(1, &state), None);
    assert_eq!(handle_client_message_request_node_identity_snapshot(1, &state), None);
    assert_eq!(handle_client_message_request_histogram_snapshot(1, &state), None);
    assert_eq!(handle_client_message_request_voters_snapshot(1, &state), None);
}

#[test]
fn messages_are_processed_one_by_one() {
    let mut state: ClientThreadState<Channel> = ClientThreadState::empty(1);
    assert_eq!(
        process_client_message(InternalClientMessage::Connected("a"), &mut state),
        Some(Delivery { client_id: 2, reply: Reply::YouAre })
    );
    assert_eq!(
        process_client_message(InternalClientMessage::SubscribeLatestBlock(2), &mut state),
        None
    );
    assert_eq!(
        process_client_message(InternalClientMessage::SubscribeNodeIdentity(2), &mut state),
        None
    );
    assert_eq!(
        process_client_message(InternalClientMessage::SubscribeVoters(2), &mut state),
        None
    );
    assert!(state.is_subscribed_latest_block(2));
    assert!(state.is_subscribed_node_identity(2));
    assert!(state.is_subscribed_voters(2));
    assert_eq!(
        process_client_message(InternalClientMessage::RequestBlocksSnapshot(2), &mut state),
        Some(Delivery { client_id: 2, reply: Reply::BlocksSnapshot })
    );
    assert_eq!(
        process_client_message(InternalClientMessage::RequestNodeIdentitySnapshot(2), &mut state),
        Some(Delivery { client_id: 2, reply: Reply::NodeIdentitySnapshot })
    );
    assert_eq!(
        process_client_message(InternalClientMessage::RequestHistogramSnapshot(2), &mut state),
        Some(Delivery { client_id: 2, reply: Reply::HistogramSnapshot })
    );
    assert_eq!(
        process_client_message(InternalClientMessage::RequestVotersSnapshot(2), &mut state),
        Some(Delivery { client_id: 2, reply: Reply::VotersSnapshot })
    );
    assert_eq!(
        process_client_message(InternalClientMessage::RequestVotersSnapshot(3), &mut state),
        None
    );
    assert_eq!(process_client_message(InternalClientMessage::Disconnected(2), &mut state), None);
    assert!(!state.is_connected(2));
    assert_eq!(
        process_client_message(InternalClientMessage::RequestBlocksSnapshot(2), &mut state),
        None
    );
}

#[test]
fn a_failed_send_drops_the_client() {
    let mut state = three_clients();
    handle_client_message_subscribe_latest_block(2, &mut state);
    let error = handle_send_failure(Delivery { client_id: 2, reply: Reply::YouAre }, &mut state);
    assert_eq!(error, ProcessClientMessageError::Connected(HandleConnectedError::ClientSendError));
    assert!(!state.is_connected(2));
    assert!(!state.is_subscribed_latest_block(2));
    assert_eq!(
        handle_send_failure(Delivery { client_id: 3, reply: Reply::BlocksSnapshot }, &mut state),
        ProcessClientMessageError::BlocksSnapshot(
            HandleRequestBlocksSnapshotsError::ClientSendError
        )
    );
    assert_eq!(
        handle_send_failure(
            Delivery { client_id: 3, reply: Reply::NodeIdentitySnapshot },
            &mut state
        ),
        ProcessClientMessageError::NodeIdentitySnapshot(
            HandleRequestNodeIdentitySnapshotError::ClientSendError
        )
    );
    assert_eq!(
        handle_send_failure(Delivery { client_id: 3, reply: Reply::HistogramSnapshot }, &mut state),
        ProcessClientMessageError::HistogramSnapshot(
            HandleRequestHistogramSnapshotError::ClientSendError
        )
    );
    assert_eq!(
        handle_send_failure(Delivery { client_id: 4, reply: Reply::VotersSnapshot }, &mut state),
        ProcessClientMessageError::VotersSnapshot(
            HandleRequestVotersSnapshotError::ClientSendError
        )
    );
    assert!(!state.is_connected(3));
    assert!(!state.is_connected(4));
}

#[test]
fn errors_display_the_step_and_the_cause() {
    assert_eq!(
        HandleConnectedError::ClientSendError.display("closed"),
        "handle connected error: client send error: closed"
    );
    assert_eq!(
        HandleRequestBlocksSnapshotsError::ClientSendError.display("closed"),
        "handle request blocks snapshot error: client send error:: closed"
    );
    assert_eq!(
        HandleRequestNodeIdentitySnapshotError::ClientSendError.display("closed"),
        "handle request node identity snapshot error: client send error: closed"
    );
    assert_eq!(
        HandleRequestHistogramSnapshotError::ClientSendError.display("closed"),
        "handle request histogram snapshot error: client send error: closed"
    );
    assert_eq!(
        HandleRequestVotersSnapshotError::ClientSendError.display("closed"),
        "handle request voters snapshot error: client send error: closed"
    );
    assert_eq!(
        ProcessClientMessageError::Connected(HandleConnectedError::ClientSendError).display("x"),
        "process client message error: connected: handle connected error: client send error: x"
    );
    assert_eq!(
        ProcessClientMessageError::BlocksSnapshot(
            HandleRequestBlocksSnapshotsError::ClientSendError
        )
        .display("x"),
        "process client message error: blocks snapshot: handle request blocks snapshot error: client send error:: x"
    );
    assert_eq!(
        ProcessClientMessageError::NodeIdentitySnapshot(
            HandleRequestNodeIdentitySnapshotError::ClientSendError
        )
        .display("x"),
        "process client message error: node identity snapshot: handle request node identity snapshot error: client send error: x"
    );
    assert_eq!(
        ProcessClientMessageError::HistogramSnapshot(
            HandleRequestHistogramSnapshotError::ClientSendError
        )
        .display("x"),
        "process client message error: histogram snapshot: handle request histogram snapshot error: client send error: x"
    );
    assert_eq!(
        ProcessClientMessageError::VotersSnapshot(
            HandleRequestVotersSnapshotError::ClientSendError
        )
        .display(""),
        "process client message error: voters snapshot: handle request voters snapshot error: client send error: "
    );
}

/// Three clients connect to a fresh service whose counter stands at one.
fn connect_three() -> (ClientThreadState<Channel>, u64, u64, u64) {
    let mut state: ClientThreadState<Channel> = ClientThreadState::empty(1);
    let first = process_client_message(InternalClientMessage::Connected("one"), &mut state);
    assert_eq!(first, Some(Delivery { client_id: 2, reply: Reply::YouAre }));
    let second = process_client_message(InternalClientMessage::Connected("two"), &mut state);
    assert_eq!(second, Some(Delivery { client_id: 3, reply: Reply::YouAre }));
    let third = process_client_message(InternalClientMessage::Connected("three"), &mut state);
    assert_eq!(third, Some(Delivery { client_id: 4, reply: Reply::YouAre }));
    (state, 2, 3, 4)
}

#[test]
fn test_process_client_handling_stream_request_latest_voters_snapshot() {
    let mut state: ClientThreadState<Channel> = ClientThreadState::empty(1);
    assert_eq!(
        process_client_message(InternalClientMessage::Connected("one"), &mut state),
        Some(Delivery { client_id: 2, reply: Reply::YouAre })
    );
    let client_1_id = 2;
    assert_eq!(
        process_client_message(InternalClientMessage::Connected("two"), &mut state),
        Some(Delivery { client_id: 3, reply: Reply::YouAre })
    );
    assert_eq!(
        process_client_message(
            InternalClientMessage::RequestVotersSnapshot(client_1_id),
            &mut state
        ),
        Some(Delivery { client_id: client_1_id, reply: Reply::VotersSnapshot })
    );
    assert_eq!(state.sender_of(client_1_id), Some(&"one"));
}

#[test]
fn test_process_client_handling_stream_subscribe_latest_block() {
    let (mut state, client_1_id, client_2_id, client_3_id) = connect_three();
    assert_eq!(
        process_client_message(
            InternalClientMessage::SubscribeLatestBlock(client_1_id),
            &mut state
        ),
        None
    );
    assert_eq!(
        process_client_message(
            InternalClientMessage::SubscribeLatestBlock(client_2_id),
            &mut state
        ),
        None
    );
    // the block goes to each subscribed client, and to no other
    let recipients = sorted(handle_received_block_detail(&state));
    assert_eq!(recipients, vec![client_1_id, client_2_id]);
    assert!(!recipients.contains(&client_3_id));
    assert_eq!(handle_received_node_identity(&state), Vec::<u64>::new());
}

#[test]
fn test_process_client_handling_stream_subscribe_node_identity() {
    let (mut state, client_1_id, client_2_id, client_3_id) = connect_three();
    assert_eq!(
        process_client_message(
            InternalClientMessage::SubscribeNodeIdentity(client_1_id),
            &mut state
        ),
        None
    );
    assert_eq!(
        process_client_message(
            InternalClientMessage::SubscribeNodeIdentity(client_2_id),
            &mut state
        ),
        None
    );
    let recipients = sorted(handle_received_node_identity(&state));
    assert_eq!(recipients, vec![client_1_id, client_2_id]);
    assert!(!recipients.contains(&client_3_id));
    assert_eq!(handle_received_block_detail(&state), Vec::<u64>::new());
}

#[test]
fn test_process_client_handling_stream_subscribe_voters() {
    let (mut state, client_1_id, client_2_id, client_3_id) = connect_three();
    assert_eq!(
        process_client_message(
            InternalClientMessage::SubscribeNodeIdentity(client_1_id),
            &mut state
        ),
        None
    );
    assert_eq!(
        process_client_message(
            InternalClientMessage::SubscribeNodeIdentity(client_2_id),
            &mut state
        ),
        None
    );
    // the voters go to each of these clients
    let recipients = sorted(handle_received_voters(&state));
    assert_eq!(recipients, vec![client_1_id, client_2_id]);
    assert!(!recipients.contains(&client_3_id));
}

#[test]
fn test_process_client_handling_stream_request_latest_blocks_snapshot() {
    let (mut state, client_1_id, _, _) = connect_three();
    assert_eq!(
        process_client_message(
            InternalClientMessage::RequestBlocksSnapshot(client_1_id),
            &mut state
        ),
        Some(Delivery { client_id: client_1_id, reply: Reply::BlocksSnapshot })
    );
    assert_eq!(state.sender_of(client_1_id), Some(&"one"));
}

#[test]
fn test_process_client_handling_stream_request_node_identity_snapshot() {
    let (mut state, client_1_id, _, _) = connect_three();
    assert_eq!(
        process_client_message(
            InternalClientMessage::RequestNodeIdentitySnapshot(client_1_id),
            &mut state
        ),
        Some(Delivery { client_id: client_1_id, reply: Reply::NodeIdentitySnapshot })
    );
    assert_eq!(state.sender_of(client_1_id), Some(&"one"));
}
