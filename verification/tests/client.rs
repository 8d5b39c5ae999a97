use vineyard_ipc::errors::ConnectionError;
use vineyard_ipc::errors::MetaError;
use vineyard_ipc::ipc_client::IPCClient;
use vineyard_ipc::protocol::ConnectStep;
use vineyard_ipc::protocol::FetchOutcome;
use vineyard_ipc::protocol::HandshakeOutcome;
use vineyard_ipc::protocol::MetaStep;

#[test]
fn it_works() {
    assert_eq!(2 + 2, 4);
}

/// Drives one successful connect: the client must ask for a handshake and
/// accept the granted session id.
fn connect_ok(client: &mut IPCClient, socket: &str, session: u64) -> u64 {
    match client.connect(socket, None) {
        ConnectStep::AlreadyConnected(sid) => sid,
        ConnectStep::Handshake(_) => client
            .finish_connect(HandshakeOutcome::Established(session))
            .expect("handshake outcome was Established"),
        ConnectStep::Refused(e) => panic!("connect refused: {:?}", e),
    }
}

/// Drives one `get_meta_data` round, answering a fetch with `outcome`.
/// Returns the result together with whether a round trip was performed.
fn get_meta(
    client: &mut IPCClient,
    id: u64,
    sync_remote: bool,
    outcome: FetchOutcome,
) -> (Result<vineyard_ipc::object::ObjectMeta, MetaError>, bool) {
    match client.get_meta_data(id, sync_remote) {
        MetaStep::Ready(r) => (r, false),
        MetaStep::Fetch(fetch_id, authoritative) => {
            assert_eq!(fetch_id, id);
            assert_eq!(authoritative, sync_remote);
            (client.finish_fetch(id, outcome), true)
        }
    }
}

#[test]
fn connected_lifecycle() {
    let mut client = IPCClient::new();
    assert!(!client.connected());
    connect_ok(&mut client, "/tmp/store.sock", 1);
    assert!(client.connected());
    client.disconnect();
    assert!(!client.connected());
}

#[test]
fn connect_failure_leaves_disconnected() {
    let mut client = IPCClient::new();
    match client.connect("/tmp/store.sock", None) {
        ConnectStep::Handshake(addr) => assert_eq!(addr, "/tmp/store.sock"),
        _ => panic!("a disconnected client must ask for a handshake"),
    }
    let r = client.finish_connect(HandshakeOutcome::Unreachable);
    assert_eq!(r, Err(ConnectionError::DaemonUnreachable));
    assert!(!client.connected());
}

#[test]
fn connect_reports_each_handshake_failure() {
    let cases = [
        (
            HandshakeOutcome::VersionMismatch,
            ConnectionError::HandshakeVersionMismatch,
        ),
        (HandshakeOutcome::Unreachable, ConnectionError::DaemonUnreachable),
        (HandshakeOutcome::AccessDenied, ConnectionError::PermissionDenied),
        (HandshakeOutcome::TimedOut, ConnectionError::Timeout),
    ];
    for (outcome, expected) in cases {
        let mut client = IPCClient::new();
        assert!(matches!(client.connect("/tmp/store.sock", None), ConnectStep::Handshake(_)));
        assert_eq!(client.finish_connect(outcome), Err(expected));
        assert!(!client.connected());
    }
}

#[test]
fn address_resolution_order() {
    let client = IPCClient::new();
    match client.connect("/tmp/explicit.sock", Some(String::from("/run/default.sock"))) {
        ConnectStep::Handshake(addr) => assert_eq!(addr, "/tmp/explicit.sock"),
        _ => panic!("the explicit argument must win"),
    }
    match client.connect("", Some(String::from("/run/default.sock"))) {
        ConnectStep::Handshake(addr) => assert_eq!(addr, "/run/default.sock"),
        _ => panic!("the environment-configured default must be used"),
    }
    match client.connect("", None) {
        ConnectStep::Refused(e) => assert_eq!(e, ConnectionError::AddressUnresolved),
        _ => panic!("no address at all must be refused"),
    }
    match client.connect("", Some(String::new())) {
        ConnectStep::Refused(e) => assert_eq!(e, ConnectionError::AddressUnresolved),
        _ => panic!("an empty default resolves nothing"),
    }
}

#[test]
fn disconnect_twice_is_a_no_op() {
    let mut client = IPCClient::new();
    connect_ok(&mut client, "/tmp/store.sock", 3);
    client.disconnect();
    assert!(!client.connected());
    client.disconnect();
    assert!(!client.connected());
    // The second disconnect left the same state behind: a new connect still
    // starts with an empty cache.
    connect_ok(&mut client, "/tmp/store.sock", 4);
    let (_, round_trip) = get_meta(&mut client, 7, false, FetchOutcome::Found(String::from("x")));
    assert!(round_trip);
}

#[test]
fn reconnect_is_idempotent_and_keeps_the_session() {
    let mut client = IPCClient::new();
    let first = connect_ok(&mut client, "/tmp/store.sock", 11);
    assert_eq!(first, 11);
    // The second connect must not reach the wire at all.
    match client.connect("/tmp/store.sock", None) {
        ConnectStep::AlreadyConnected(sid) => assert_eq!(sid, 11),
        _ => panic!("reconnecting a connected client must be a no-op success"),
    }
}
