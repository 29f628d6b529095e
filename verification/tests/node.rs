use cortex::chord::FingerTable;
use cortex::cnp::{self, CortexMessage, MessageQuery, MessageResponse};
use cortex::dispatch::{
    parse_network_messages, parse_worker_thread_messages, LocalMessage, LocalQuery,
    LocalResponse, ThreadRoutingTable,
};
use cortex::messaging::net::{NetworkMessage, NetworkQuery, NetworkResponse};
use cortex::{
    consistent_hash, dht_id_from_local_ip, get_dht_id, CortexCommand, DestinationType, DhtIdError,
};

#[test]
fn consistent_hash_of_abc() {
    // SHA-256("abc") starts ba7816bf8f01cfea414140de5dae2223.
    assert_eq!(consistent_hash(b"abc"), 0xba7816bf8f01cfea414140de5dae2223);
}

#[test]
fn consistent_hash_of_empty_input() {
    assert_eq!(consistent_hash(b""), 0xe3b0c44298fc1c149afbf4c8996fb924);
}

#[test]
fn consistent_hash_is_consistent() {
    let a = consistent_hash(b"10.0.0.7");
    let b = consistent_hash(b"10.0.0.7");
    assert_eq!(a, b);
    assert_ne!(a, consistent_hash(b"10.0.0.8"));
}

#[test]
fn dht_id_hashes_the_address_text() {
    let id = dht_id_from_local_ip(Ok(String::from("127.0.0.1")));
    // SHA-256("127.0.0.1") starts 12ca17b49af2289436f303e0166030a2.
    assert!(matches!(id, Ok(0x12ca17b49af2289436f303e0166030a2)));
}

#[test]
fn dht_id_without_local_ip_is_an_error() {
    let id = dht_id_from_local_ip(Err(local_ip_address::Error::LocalIpAddressNotFound));
    assert!(matches!(id, Err(DhtIdError::LocalIpUnavailable)));
    if let Err(e) = id {
        assert_eq!(e.message(), "Failed to fetch local ip address");
    }
}

#[test]
fn get_dht_id_hashes_some_address() {
    match get_dht_id() {
        Ok(_) => {}
        Err(e) => assert_eq!(e.message(), "Failed to fetch local ip address"),
    }
}

#[test]
fn network_message_starts_empty_and_collects() {
    let mut m = NetworkMessage::new();
    assert!(m.queries.is_empty() && m.responses.is_empty());
    m.add_query(NetworkQuery::new(7, CortexCommand::Heartbeat));
    m.add_query(NetworkQuery::new(8, CortexCommand::Forward));
    m.add_response(NetworkResponse { query_id: 3, res: 9 });
    assert_eq!(m.queries.len(), 2);
    assert_eq!(m.queries[0].query_id, 7);
    assert_eq!(m.queries[0].cmd, CortexCommand::Heartbeat);
    assert_eq!(m.queries[1].query_id, 8);
    assert_eq!(m.responses.len(), 1);
    assert_eq!(m.responses[0].res, 9);
}

#[test]
fn parse_network_messages_drains_in_order() {
    let mut a = NetworkMessage::new();
    a.add_query(NetworkQuery::new(1, CortexCommand::SendSuccessors));
    a.add_response(NetworkResponse { query_id: 10, res: 1 });
    let mut b = NetworkMessage::new();
    b.add_query(NetworkQuery::new(2, CortexCommand::Heartbeat));
    b.add_query(NetworkQuery::new(3, CortexCommand::Forward));
    b.add_response(NetworkResponse { query_id: 11, res: 2 });
    let mut msgs = vec![a, b];
    let (qs, rs) = parse_network_messages(&mut msgs);
    let ids: Vec<u32> = qs.iter().map(|q| q.query_id).collect();
    assert_eq!(ids, vec![1, 2, 3]);
    let rids: Vec<u32> = rs.iter().map(|r| r.query_id).collect();
    assert_eq!(rids, vec![10, 11]);
    assert_eq!(msgs.len(), 2);
    assert!(msgs.iter().all(|m| m.queries.is_empty() && m.responses.is_empty()));
}

#[test]
fn parse_network_messages_of_nothing() {
    let mut msgs: Vec<NetworkMessage> = vec![];
    let (qs, rs) = parse_network_messages(&mut msgs);
    assert!(qs.is_empty() && rs.is_empty() && msgs.is_empty());
}

fn query(id: u32, with_channel: bool) -> LocalQuery {
    let channel = if with_channel {
        let (tx, _rx) = tokio::sync::oneshot::channel::<LocalResponse>();
        Some(tx)
    } else {
        None
    };
    LocalQuery {
        query_id: id,
        opt_send_response_channel: channel,
        cmd: CortexCommand::SendSuccessors,
        dst: DestinationType::Successors,
    }
}

#[test]
fn worker_messages_split_keeping_order() {
    let msgs = vec![
        LocalMessage::Query(query(1, false)),
        LocalMessage::Response(LocalResponse { query_id: 5, res: 0 }),
        LocalMessage::Query(query(2, true)),
        LocalMessage::Response(LocalResponse { query_id: 6, res: 1 }),
        LocalMessage::Query(query(3, false)),
    ];
    let (qs, rs) = parse_worker_thread_messages(msgs);
    let ids: Vec<u32> = qs.iter().map(|q| q.query_id).collect();
    assert_eq!(ids, vec![1, 2, 3]);
    let rids: Vec<u32> = rs.iter().map(|r| r.query_id).collect();
    assert_eq!(rids, vec![5, 6]);
    assert_eq!(qs.len() + rs.len(), 5);
}

#[test]
fn routing_table_keeps_only_queries_that_want_answers() {
    let mut table = ThreadRoutingTable::new();
    assert!(!table.contains(1));
    table.add_from_worker_queries(vec![query(1, true), query(2, false), query(3, true)]);
    assert!(table.contains(1));
    assert!(!table.contains(2));
    assert!(table.contains(3));
    assert!(!table.contains(4));
}

#[test]
fn routing_table_keeps_earlier_rows() {
    let mut table = ThreadRoutingTable::new();
    table.add_from_worker_queries(vec![query(9, true)]);
    table.add_from_worker_queries(vec![query(10, false)]);
    assert!(table.contains(9));
    assert!(!table.contains(10));
}

#[test]
fn finger_table_starts_empty() {
    let _t = FingerTable::new();
}

#[test]
fn cortex_message_is_no_heartbeat() {
    let m = CortexMessage::new(
        vec![MessageQuery { query_id: 4, cmd: cnp::CortexCommand::SendSuccessors }],
        vec![MessageResponse { query_id: 5, res: 6 }],
    );
    assert!(!m.hearbeat);
    assert_eq!(m.queries.len(), 1);
    assert_eq!(m.queries[0].query_id, 4);
    assert_eq!(m.responses[0].res, 6);
}
