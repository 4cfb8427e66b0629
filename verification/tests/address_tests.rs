use iroh_transport::address::{
    node_identifier_to_address, to_node_identifier, AddressComponent, NetworkAddress,
};
use iroh_transport::identity::{NodeIdentifier, PeerIdentifier};

const PREFIX: [u8; 6] = [0x00, 0x24, 0x08, 0x01, 0x12, 0x20];

fn encoded_peer(key: &[u8; 32]) -> PeerIdentifier {
    let mut bytes = PREFIX.to_vec();
    bytes.extend_from_slice(key);
    PeerIdentifier::from_bytes(bytes)
}

#[test]
fn address_round_trip() {
    let key = vec![0x11u8; 32];
    let node = NodeIdentifier::from_bytes(key.clone()).unwrap();
    let addr = node_identifier_to_address(&node);
    assert_eq!(addr.len(), 1);

    let back = to_node_identifier(&addr).unwrap();
    assert_eq!(back.bytes().as_slice(), key.as_slice());
}

#[test]
fn empty_address_has_no_identity() {
    let addr = NetworkAddress::empty();
    assert!(to_node_identifier(&addr).is_none());
}

#[test]
fn address_without_identity_component() {
    let mut addr = NetworkAddress::empty();
    addr.push(AddressComponent::Other(4));
    addr.push(AddressComponent::Other(273));
    assert!(to_node_identifier(&addr).is_none());
}

#[test]
fn address_with_malformed_identity_only() {
    let mut addr = NetworkAddress::empty();
    addr.push(AddressComponent::Peer(PeerIdentifier::from_bytes(vec![1u8; 10])));
    assert!(to_node_identifier(&addr).is_none());
}

#[test]
fn scan_skips_foreign_components() {
    // Other components and a malformed identity stand before the good
    // one; the scan must skip them and land on the embedded key.
    let key = [0x42u8; 32];
    let mut addr = NetworkAddress::empty();
    addr.push(AddressComponent::Other(4));
    addr.push(AddressComponent::Peer(PeerIdentifier::from_bytes(vec![7u8; 38])));
    addr.push(AddressComponent::Peer(encoded_peer(&key)));
    addr.push(AddressComponent::Other(273));

    let node = to_node_identifier(&addr).unwrap();
    assert_eq!(node.bytes().as_slice(), &key);
}

#[test]
fn first_embedded_key_decides() {
    let first = [0x01u8; 32];
    let second = [0x02u8; 32];
    let mut addr = NetworkAddress::empty();
    addr.push(AddressComponent::Peer(encoded_peer(&first)));
    addr.push(AddressComponent::Peer(encoded_peer(&second)));

    let node = to_node_identifier(&addr).unwrap();
    assert_eq!(node.bytes().as_slice(), &first);
}

#[test]
fn components_are_kept_in_order() {
    let key = [0x33u8; 32];
    let components = vec![
        AddressComponent::Other(1),
        AddressComponent::Peer(encoded_peer(&key)),
    ];
    let addr = NetworkAddress::from_components(components);
    assert_eq!(addr.len(), 2);
    match &addr.components()[1] {
        AddressComponent::Peer(p) => {
            assert_eq!(&p.bytes()[6..], &key);
        }
        AddressComponent::Other(_) => panic!("identity component expected"),
    }
}
