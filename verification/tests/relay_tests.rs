use proxy::classify::Direction;
use proxy::relay::{run_connection, AcceptLoop};

#[test]
fn relay_forwards_chunks_in_order_both_ways() {
    let client = vec![b"ab".to_vec(), b"cd".to_vec()];
    let tunnel = vec![b"XY".to_vec()];
    let schedule = vec![
        Direction::Request,
        Direction::Response,
        Direction::Request,
    ];
    let r = run_connection(&client, &tunnel, &schedule);
    assert_eq!(r.to_tunnel, b"abcd".to_vec());
    assert_eq!(r.to_client, b"XY".to_vec());
    assert_eq!(r.requests_forwarded, 2);
    assert_eq!(r.responses_forwarded, 1);
    assert!(r.ended_by.is_none());
}

#[test]
fn client_eof_abandons_pending_tunnel_data() {
    // A mock tunnel that still has pending bytes when the client closes:
    // the connection ends at the client's EOF and the pending chunk is
    // never delivered.
    let client = vec![b"hi".to_vec()];
    let tunnel = vec![b"aa".to_vec(), b"bb".to_vec()];
    let schedule = vec![
        Direction::Request,
        Direction::Response,
        Direction::Request, // past the client's last chunk: EOF
        Direction::Response, // never reached: the connection already ended
    ];
    let r = run_connection(&client, &tunnel, &schedule);
    assert_eq!(r.ended_by, Some(Direction::Request));
    assert_eq!(r.to_tunnel, b"hi".to_vec());
    assert_eq!(r.to_client, b"aa".to_vec());
    assert_eq!(r.responses_forwarded, 1);
    assert!(!r
        .to_client
        .windows(2)
        .any(|w| w == b"bb"));
}

#[test]
fn tunnel_eof_ends_the_connection_too() {
    let client = vec![b"one".to_vec(), b"two".to_vec()];
    let tunnel: Vec<Vec<u8>> = Vec::new();
    let schedule = vec![Direction::Request, Direction::Response, Direction::Request];
    let r = run_connection(&client, &tunnel, &schedule);
    assert_eq!(r.ended_by, Some(Direction::Response));
    assert_eq!(r.to_tunnel, b"one".to_vec());
    assert_eq!(r.to_client, Vec::<u8>::new());
}

#[test]
fn interrupt_stops_accepting_but_keeps_open_connections() {
    let mut acceptor = AcceptLoop::new();
    assert!(acceptor.accepting);
    assert!(acceptor.on_incoming(1));
    assert!(acceptor.on_incoming(2));
    assert_eq!(acceptor.open_connections, vec![1, 2]);

    acceptor.interrupt();
    assert!(!acceptor.accepting);
    // already-open connections are not forcibly closed
    assert_eq!(acceptor.open_connections, vec![1, 2]);

    // new connections are no longer accepted
    assert!(!acceptor.on_incoming(3));
    assert_eq!(acceptor.open_connections, vec![1, 2]);

    // a connection may still end on its own
    acceptor.on_closed(0);
    assert_eq!(acceptor.open_connections, vec![2]);
}
