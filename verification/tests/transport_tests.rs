use iroh_transport::address::{to_node_identifier, AddressComponent, NetworkAddress};
use iroh_transport::connection::{
    AcceptAction, AcceptEvent, ConnectionCore, OpenAction, OpenEvent,
};
use iroh_transport::identity::{node_to_peer, NodeIdentifier};
use iroh_transport::stream::StreamCore;
use iroh_transport::transport::{
    dial_resolve, TransportCore, TransportError, TransportErrorKind, TransportEvent,
};

fn node(byte: u8) -> NodeIdentifier {
    NodeIdentifier::from_bytes(vec![byte; 32]).unwrap()
}

#[test]
fn listen_twice_fails_then_remove_allows_a_fresh_listen() {
    let mut t = TransportCore::new(node(0x0a));

    // First listen succeeds and announces the local address.
    assert!(t.listen_on(1).is_ok());
    match t.next_event() {
        Some(TransportEvent::NewAddress { listener_id, address }) => {
            assert_eq!(listener_id, 1);
            let n = to_node_identifier(&address).unwrap();
            assert_eq!(n.bytes().as_slice(), &[0x0au8; 32]);
        }
        _ => panic!("a new-address event was expected"),
    }

    // A second listen without an intervening remove is refused.
    let err = t.listen_on(2).unwrap_err();
    assert!(matches!(
        err.kind,
        TransportErrorKind::Listen(m) if m == "listener already exists for this transport"
    ));
    assert!(t.next_event().is_none());

    // A remove with the wrong identifier does not match.
    assert!(!t.remove_listener(2));
    // The matching remove clears the registration ...
    assert!(t.remove_listener(1));
    // ... and a third listen succeeds and emits a fresh announcement.
    assert!(t.listen_on(3).is_ok());
    match t.next_event() {
        Some(TransportEvent::NewAddress { listener_id, .. }) => assert_eq!(listener_id, 3),
        _ => panic!("a fresh new-address event was expected"),
    }
}

#[test]
fn dial_without_identity_fails_synchronously() {
    let t = TransportCore::new(node(0x0b));
    let mut addr = NetworkAddress::empty();
    addr.push(AddressComponent::Other(4));

    let err = t.dial_check(&addr).unwrap_err();
    assert!(matches!(
        err.kind,
        TransportErrorKind::Dial(m) if m == "failed to extract node identifier from address"
    ));
}

#[test]
fn dial_with_identity_extracts_the_node() {
    let t = TransportCore::new(node(0x0c));
    let remote = node(0x0d);
    let addr = iroh_transport::address::node_identifier_to_address(&remote);
    let dialed = t.dial_check(&addr).unwrap();
    assert_eq!(dialed.bytes().as_slice(), remote.bytes().as_slice());
}

#[test]
fn inbound_connection_requires_a_listener() {
    let mut t = TransportCore::new(node(0x0e));
    let remote = node(0x0f);

    let err = t.on_inbound(&remote).unwrap_err();
    assert!(matches!(
        err.kind,
        TransportErrorKind::Listen(m) if m == "no listener registered for incoming connection"
    ));
    assert!(t.next_event().is_none());

    t.listen_on(7).unwrap();
    let _ = t.next_event(); // the new-address announcement
    t.on_inbound(&remote).unwrap();
    match t.next_event() {
        Some(TransportEvent::Incoming { listener_id, remote_node, remote_address, .. }) => {
            assert_eq!(listener_id, 7);
            assert_eq!(remote_node.bytes().as_slice(), remote.bytes().as_slice());
            let parsed = to_node_identifier(&remote_address).unwrap();
            assert_eq!(parsed.bytes().as_slice(), remote.bytes().as_slice());
        }
        _ => panic!("an incoming-connection event was expected"),
    }
}

#[test]
fn events_come_out_in_order() {
    let mut t = TransportCore::new(node(0x10));
    assert!(t.next_event().is_none());
    t.listen_on(1).unwrap();
    t.on_inbound(&node(0x11)).unwrap();
    t.on_inbound(&node(0x12)).unwrap();

    assert!(matches!(t.next_event(), Some(TransportEvent::NewAddress { .. })));
    match t.next_event() {
        Some(TransportEvent::Incoming { remote_node, .. }) => {
            assert_eq!(remote_node.bytes().as_slice(), &[0x11u8; 32]);
        }
        _ => panic!("the first incoming connection was expected"),
    }
    match t.next_event() {
        Some(TransportEvent::Incoming { remote_node, .. }) => {
            assert_eq!(remote_node.bytes().as_slice(), &[0x12u8; 32]);
        }
        _ => panic!("the second incoming connection was expected"),
    }
    assert!(t.next_event().is_none());
}

#[test]
fn transport_error_constructors_carry_kind_and_message() {
    let e = TransportError::dial("d".to_string());
    assert!(matches!(&e.kind, TransportErrorKind::Dial(m) if m.as_str() == "d"));
    assert_eq!(e.message(), "d");

    let e = TransportError::listen("l".to_string());
    assert!(matches!(e.kind, TransportErrorKind::Listen(m) if m == "l"));

    let e = TransportError::from_actor_message("gone".to_string());
    assert!(matches!(e.kind, TransportErrorKind::Listen(m) if m == "gone"));
}

#[test]
fn end_to_end_listen_dial_ping_pong() {
    let key_a = vec![0x21u8; 32];
    let key_b = vec![0x22u8; 32];
    let node_a = NodeIdentifier::from_bytes(key_a.clone()).unwrap();
    let node_b = NodeIdentifier::from_bytes(key_b.clone()).unwrap();

    // Peer A listens and announces its address X.
    let mut a = TransportCore::new(NodeIdentifier::from_bytes(key_a.clone()).unwrap());
    a.listen_on(1).unwrap();
    let address_x = match a.next_event() {
        Some(TransportEvent::NewAddress { address, .. }) => address,
        _ => panic!("peer A must announce an address"),
    };

    // Peer B dials X: the address resolves to A's identity.
    let b = TransportCore::new(NodeIdentifier::from_bytes(key_b.clone()).unwrap());
    let dialed = b.dial_check(&address_x).unwrap();
    assert_eq!(dialed.bytes().as_slice(), key_a.as_slice());

    // The connection is established: A routes the inbound connection, and
    // both sides observe the matching peer identity for the other.
    a.on_inbound(&node_b).unwrap();
    let observed_by_a = match a.next_event() {
        Some(TransportEvent::Incoming { remote_node, .. }) => remote_node,
        _ => panic!("peer A must see the incoming connection"),
    };
    let peer_of_b = node_to_peer(&node_b).unwrap();
    assert_eq!(
        node_to_peer(&observed_by_a).unwrap().bytes().as_slice(),
        peer_of_b.bytes().as_slice(),
    );
    let peer_of_a = node_to_peer(&node_a).unwrap();
    assert_eq!(
        dial_resolve(&dialed).unwrap().bytes().as_slice(),
        peer_of_a.bytes().as_slice(),
    );

    // B opens a substream: open, then the one handshake byte.
    let mut mux_b = ConnectionCore::new();
    let mut mux_a = ConnectionCore::new();
    let mut handshake_wire: Vec<u8> = Vec::new();

    assert_eq!(mux_b.poll_open(OpenEvent::Poll), OpenAction::StartOpen);
    assert_eq!(mux_b.poll_open(OpenEvent::ChannelReady), OpenAction::StartWrite);
    handshake_wire.push(mux_b.handshake_byte());
    assert_eq!(mux_b.poll_open(OpenEvent::WriteDone), OpenAction::Deliver);

    // A accepts it: accept, then read exactly the one byte.
    assert_eq!(mux_a.poll_accept(AcceptEvent::Poll), AcceptAction::StartAccept);
    assert_eq!(mux_a.poll_accept(AcceptEvent::ChannelReady), AcceptAction::StartRead);
    assert_eq!(handshake_wire.len(), 1);
    let _discarded = handshake_wire.remove(0);
    assert_eq!(mux_a.poll_accept(AcceptEvent::ByteRead), AcceptAction::Deliver);

    // Ping from B to A, pong from A to B on the same substream.
    let stream_b = StreamCore::new();
    let stream_a = StreamCore::new();
    let mut wire_b_to_a: Vec<u8> = Vec::new();
    let mut wire_a_to_b: Vec<u8> = Vec::new();

    assert!(stream_b.send_gate().is_ok());
    wire_b_to_a.extend_from_slice(b"ping");
    assert!(stream_a.recv_gate().is_ok());
    assert_eq!(wire_b_to_a.as_slice(), b"ping");

    assert!(stream_a.send_gate().is_ok());
    wire_a_to_b.extend_from_slice(b"pong");
    assert!(stream_b.recv_gate().is_ok());
    assert_eq!(wire_a_to_b.as_slice(), b"pong");
}
