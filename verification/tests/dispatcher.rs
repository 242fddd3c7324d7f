use hash_delivery::config::{Config, PeerAddress};
use hash_delivery::memory::MemoryStorage;
use hash_delivery::basic::Storage;
use hash_delivery::protocol::{ConnectionEvent, Outcome, Request, Response};
use hash_delivery::server::Server;

fn test_config(peers: Vec<(&str, u16)>) -> Config {
    Config {
        listen_ip: String::from("10.0.0.1"),
        listen_port: 7777,
        student_name: String::from("node one"),
        nodes_addrs: peers
            .into_iter()
            .map(|(h, p)| PeerAddress { host: String::from(h), port: p })
            .collect(),
    }
}

fn server_no_peers() -> Server<MemoryStorage> {
    Server::new(MemoryStorage::new(), test_config(vec![]))
}

fn server_with_peer() -> Server<MemoryStorage> {
    Server::new(MemoryStorage::new(), test_config(vec![("10.0.0.2", 7777)]))
}

fn request(rt: &str, key: Option<&str>, hash: Option<&str>, ts: Option<i64>) -> Request {
    Request {
        request_type: String::from(rt),
        key: key.map(String::from),
        hash: hash.map(String::from),
        timestamp: ts,
    }
}

fn dispatch(server: &mut Server<MemoryStorage>, req: Request, ip: &str, now: i64) -> Outcome {
    server.handle_request_at(ConnectionEvent::Decoded(req), &String::from(ip), now)
}

#[test]
fn round_trip_store_then_load() {
    let mut server = server_no_peers();
    let out = dispatch(&mut server, request("store", Some("k"), Some("h1"), None), "9.9.9.9", 100);
    assert!(matches!(out.response, Response::Success));
    assert!(!out.close_connection);
    let out2 = dispatch(&mut server, request("load", Some("k"), None, None), "9.9.9.9", 200);
    match out2.response {
        Response::LoadSuccess { requested_key, requested_hash } => {
            assert_eq!(requested_key, "k");
            assert_eq!(requested_hash, "h1");
        },
        _ => panic!("expected a load success"),
    }
    assert!(!out2.close_connection);
}

#[test]
fn repeated_store_last_write_wins() {
    let mut server = server_no_peers();
    dispatch(&mut server, request("store", Some("k"), Some("h1"), None), "9.9.9.9", 500);
    dispatch(&mut server, request("store", Some("k"), Some("h2"), None), "9.9.9.9", 100);
    let out = dispatch(&mut server, request("load", Some("k"), None, None), "9.9.9.9", 600);
    match out.response {
        Response::LoadSuccess { requested_hash, .. } => assert_eq!(requested_hash, "h2"),
        _ => panic!("expected a load success"),
    }
    assert_eq!(server.storage.get_size(), 1);
}

#[test]
fn store_broadcast_carries_the_write() {
    let mut server = server_with_peer();
    let out = dispatch(&mut server, request("store", Some("k"), Some("h1"), None), "9.9.9.9", 321);
    match out.broadcast {
        Some(b) => {
            assert_eq!(b.key, "k");
            assert_eq!(b.hash, "h1");
            assert_eq!(b.timestamp, 321);
        },
        None => panic!("a client store owes a broadcast"),
    }
}

#[test]
fn store_with_current_clock() {
    let mut server = server_no_peers();
    let out = server.process_store(request("store", Some("k"), Some("h1"), None));
    assert!(matches!(out.response, Response::Success));
    let b = out.broadcast.expect("a client store owes a broadcast");
    assert_eq!(b.key, "k");
    assert_eq!(b.hash, "h1");
    // The clock is wall time in milliseconds: well past the year 2001.
    assert!(b.timestamp > 1_000_000_000_000);
}

#[test]
fn conflict_resolution_sequence() {
    let mut server = server_with_peer();
    let peer = "10.0.0.2";
    let out = dispatch(&mut server, request("srv_store", Some("k"), Some("h1"), Some(100)), peer, 0);
    assert!(matches!(out.response, Response::Success));

    let out = dispatch(&mut server, request("srv_store", Some("k"), Some("h2"), Some(50)), peer, 0);
    assert!(matches!(out.response, Response::IrrelevantUpdate));
    let item = server.storage.get_storage_item(&String::from("k")).unwrap();
    assert_eq!(item.hash, "h1");
    assert_eq!(item.pushed, 100);

    let out = dispatch(&mut server, request("srv_store", Some("k"), Some("h3"), Some(150)), peer, 0);
    assert!(matches!(out.response, Response::Success));
    let item = server.storage.get_storage_item(&String::from("k")).unwrap();
    assert_eq!(item.hash, "h3");
    assert_eq!(item.pushed, 150);
}

#[test]
fn conflict_resolution_tie_keeps_existing() {
    let mut server = server_with_peer();
    let peer = "10.0.0.2";
    dispatch(&mut server, request("srv_store", Some("k"), Some("h1"), Some(100)), peer, 0);
    let out = dispatch(&mut server, request("srv_store", Some("k"), Some("h2"), Some(100)), peer, 0);
    assert!(matches!(out.response, Response::IrrelevantUpdate));
    let item = server.storage.get_storage_item(&String::from("k")).unwrap();
    assert_eq!(item.hash, "h1");
}

#[test]
fn unknown_request_type_keeps_connection() {
    let mut server = server_no_peers();
    let out = dispatch(&mut server, request("frobnicate", Some("k"), None, None), "9.9.9.9", 0);
    assert!(matches!(out.response, Response::BadRequest));
    assert!(!out.close_connection);
    // The connection stays usable: a later request is still served.
    let out2 = dispatch(&mut server, request("load", Some("k"), None, None), "9.9.9.9", 0);
    assert!(matches!(out2.response, Response::KeyNotFound));
}

#[test]
fn malformed_payload_closes_connection() {
    let mut server = server_no_peers();
    let ip = String::from("9.9.9.9");
    let out = server.handle_request_at(ConnectionEvent::DecodeFailure, &ip, 0);
    assert!(matches!(out.response, Response::BadRequest));
    assert!(out.close_connection);
    assert_eq!(server.storage.get_size(), 0);
}

#[test]
fn load_absent_key_not_found() {
    let mut server = server_no_peers();
    let out = dispatch(&mut server, request("load", Some("missing"), None, None), "9.9.9.9", 0);
    assert!(matches!(out.response, Response::KeyNotFound));
}

#[test]
fn missing_arguments_are_rejected() {
    let mut server = server_with_peer();
    let out = dispatch(&mut server, request("store", Some("k"), None, None), "9.9.9.9", 0);
    assert!(matches!(out.response, Response::BadArguments));
    let out = dispatch(&mut server, request("store", None, Some("h"), None), "9.9.9.9", 0);
    assert!(matches!(out.response, Response::BadArguments));
    let out = dispatch(&mut server, request("load", None, None, None), "9.9.9.9", 0);
    assert!(matches!(out.response, Response::BadArguments));
    let out = dispatch(&mut server, request("srv_store", Some("k"), Some("h"), None), "10.0.0.2", 0);
    assert!(matches!(out.response, Response::BadArguments));
    assert_eq!(server.storage.get_size(), 0);
}

#[test]
fn non_peer_source_is_not_a_node() {
    let mut server = server_with_peer();
    let out = dispatch(&mut server, request("srv_store", Some("k"), Some("h"), Some(1)), "10.9.9.9", 0);
    assert!(matches!(out.response, Response::NotANode));
    assert_eq!(server.storage.get_size(), 0);
    let ip = String::from("10.9.9.9");
    let out = server.process_srv_update(&ip);
    assert!(matches!(out.response, Response::NotANode));
    assert_eq!(server.storage.get_size(), 0);
}

#[test]
fn srv_update_hands_out_the_snapshot() {
    let mut server = server_with_peer();
    dispatch(&mut server, request("store", Some("k"), Some("h1"), None), "9.9.9.9", 42);
    let ip = String::from("10.0.0.2");
    let out = server.process_srv_update(&ip);
    match out.response {
        Response::SnapshotSuccess { storage } => {
            let item = storage.get(&String::from("k")).unwrap();
            assert_eq!(item.hash, "h1");
            assert_eq!(item.pushed, 42);
        },
        _ => panic!("expected a snapshot"),
    }
}

#[test]
fn apply_peer_snapshot_replaces_state() {
    let mut server = server_no_peers();
    dispatch(&mut server, request("store", Some("old"), Some("h0"), None), "9.9.9.9", 1);
    let mut incoming = hash_delivery::store_map::StoreMap::new();
    incoming.insert(
        String::from("new"),
        hash_delivery::basic::StorageItem { hash: String::from("h9"), pushed: 9 },
    );
    server.apply_peer_snapshot(incoming);
    assert_eq!(server.storage.get_size(), 1);
    assert!(server.storage.get_storage_item(&String::from("old")).is_none());
    let item = server.storage.get_storage_item(&String::from("new")).unwrap();
    assert_eq!(item.hash, "h9");
}

#[test]
fn status_strings_match_the_wire_protocol() {
    assert_eq!(Response::Success.status(), "success");
    assert_eq!(Response::BadRequest.status(), "bad request");
    assert_eq!(Response::BadArguments.status(), "bad arguments");
    assert_eq!(Response::KeyNotFound.status(), "key not found");
    assert_eq!(Response::NotANode.status(), "not a node");
    assert_eq!(Response::IrrelevantUpdate.status(), "irrelevant update");
    assert_eq!(Response::ServerInternalError.status(), "server internal error");
}

#[test]
fn greeting_carries_the_display_name() {
    let server = server_no_peers();
    assert_eq!(server.greeting_name(), "node one");
}
