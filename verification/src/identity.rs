//! Identity translation between the two peer-identity representations.
//!
//! The endpoint system identifies a peer by a raw 32-byte public key
//! ([`NodeIdentifier`]). The host framework identifies the same peer by an
//! encoded identity value ([`PeerIdentifier`]): for keys of the signature
//! scheme both systems share, that encoding is a fixed 6-byte prefix (an
//! identity-multihash header followed by a key-type header) and then the raw
//! key. Translation in both directions is pure byte-layout work and is
//! verified here; a malformed or foreign-scheme identity translates to
//! `None`, never to a crash.

use vstd::prelude::*;

verus! {

/// Length in bytes of a raw public key, and so of a [`NodeIdentifier`].
pub const NODE_ID_LEN: usize = 32;

/// Length in bytes of an encoded [`PeerIdentifier`] that embeds a raw key.
pub const PEER_ID_LEN: usize = 38;

/// Offset of the raw key inside an encoded [`PeerIdentifier`].
pub const KEY_OFFSET: usize = 6;

/// The fixed header of an encoded identity: an identity multihash
/// (code 0, length 36) around a two-field key record (key type, then a
/// 32-byte key payload).
pub open spec fn spec_peer_prefix() -> Seq<u8> {
    seq![0x00u8, 0x24u8, 0x08u8, 0x01u8, 0x12u8, 0x20u8]
}

/// The encoding of a raw key as peer-identity bytes: prefix, then the key.
pub open spec fn spec_encode_node_key(k: Seq<u8>) -> Seq<u8> {
    spec_peer_prefix() + k
}

/// Whether peer-identity bytes carry an embedded raw key: exact length and
/// the exact fixed prefix.
pub open spec fn is_embedded_key_encoding(p: Seq<u8>) -> bool {
    p.len() == PEER_ID_LEN && p.subrange(0, KEY_OFFSET as int) == spec_peer_prefix()
}

/// The raw key embedded in well-formed peer-identity bytes.
pub open spec fn spec_peer_key(p: Seq<u8>) -> Seq<u8> {
    p.subrange(KEY_OFFSET as int, PEER_ID_LEN as int)
}

/// A peer identity in the endpoint system: a raw 32-byte public key.
#[derive(Debug)]
pub struct NodeIdentifier {
    bytes: Vec<u8>,
}

impl View for NodeIdentifier {
    type V = Seq<u8>;

    closed spec fn view(&self) -> Seq<u8> {
        self.bytes@
    }
}

impl NodeIdentifier {
    /// A well-formed identifier holds exactly one raw key.
    pub open spec fn wf(&self) -> bool {
        self@.len() == NODE_ID_LEN
    }

    /// Accepts exactly the byte strings of raw-key length.
    pub fn from_bytes(bytes: Vec<u8>) -> (r: Option<NodeIdentifier>)
        ensures
            r is Some <==> bytes@.len() == NODE_ID_LEN,
            r matches Some(n) ==> n@ == bytes@ && n.wf(),
    {
        if bytes.len() == NODE_ID_LEN {
            Some(NodeIdentifier { bytes })
        } else {
            None
        }
    }

    /// The raw key bytes.
    pub fn bytes(&self) -> (r: &Vec<u8>)
        ensures
            r@ == self@,
    {
        &self.bytes
    }
}

impl Clone for NodeIdentifier {
    fn clone(&self) -> (r: Self)
        ensures
            r@ == self@,
    {
        NodeIdentifier { bytes: self.bytes.clone() }
    }
}

/// A peer identity in the host framework's encoding. Any byte string is
/// representable; only those satisfying [`is_embedded_key_encoding`] embed a
/// raw key of the shared signature scheme.
#[derive(Debug)]
pub struct PeerIdentifier {
    bytes: Vec<u8>,
}

impl View for PeerIdentifier {
    type V = Seq<u8>;

    closed spec fn view(&self) -> Seq<u8> {
        self.bytes@
    }
}

impl PeerIdentifier {
    /// Wraps encoded identity bytes as they come from the host framework.
    pub fn from_bytes(bytes: Vec<u8>) -> (r: PeerIdentifier)
        ensures
            r@ == bytes@,
    {
        PeerIdentifier { bytes }
    }

    /// The encoded identity bytes.
    pub fn bytes(&self) -> (r: &Vec<u8>)
        ensures
            r@ == self@,
    {
        &self.bytes
    }
}

impl Clone for PeerIdentifier {
    fn clone(&self) -> (r: Self)
        ensures
            r@ == self@,
    {
        PeerIdentifier { bytes: self.bytes.clone() }
    }
}

/// Re-encodes a raw public key in the host framework's identity format.
/// Total for well-formed identifiers: the fixed prefix followed by the key.
pub fn node_to_peer(n: &NodeIdentifier) -> (r: Option<PeerIdentifier>)
    requires
        n.wf(),
    ensures
        r matches Some(p) && p@ == spec_encode_node_key(n@),
{
    let mut bytes: Vec<u8> = Vec::new();
    bytes.push(0x00);
    bytes.push(0x24);
    bytes.push(0x08);
    bytes.push(0x01);
    bytes.push(0x12);
    bytes.push(0x20);
    let mut i: usize = 0;
    while i < n.bytes.len()
        invariant
            n.wf(),
            i <= n.bytes.len(),
            bytes@ == spec_peer_prefix() + n@.subrange(0, i as int),
        decreases n.bytes.len() - i,
    {
        bytes.push(n.bytes[i]);
        i = i + 1;
        proof {
            assert(spec_peer_prefix() + n@.subrange(0, i - 1) + seq![n@[i - 1]]
                =~= spec_peer_prefix() + n@.subrange(0, i as int));
        }
    }
    proof {
        assert(n@.subrange(0, n@.len() as int) =~= n@);
    }
    Some(PeerIdentifier { bytes })
}

/// Validates the byte layout of a peer identity (exact length, exact
/// prefix) and extracts the embedded 32-byte key; `None` on any length or
/// format mismatch.
pub fn peer_to_node(p: &PeerIdentifier) -> (r: Option<NodeIdentifier>)
    ensures
        r is Some <==> is_embedded_key_encoding(p@),
        r matches Some(n) ==> n@ == spec_peer_key(p@) && n.wf(),
{
    if p.bytes.len() != PEER_ID_LEN {
        assert(!is_embedded_key_encoding(p@));
        return None;
    }
    if !(p.bytes[0] == 0x00 && p.bytes[1] == 0x24 && p.bytes[2] == 0x08 && p.bytes[3] == 0x01
        && p.bytes[4] == 0x12 && p.bytes[5] == 0x20) {
        proof {
            if p@.subrange(0, KEY_OFFSET as int) == spec_peer_prefix() {
                assert(p@[0] == spec_peer_prefix()[0]);
                assert(p@[1] == spec_peer_prefix()[1]);
                assert(p@[2] == spec_peer_prefix()[2]);
                assert(p@[3] == spec_peer_prefix()[3]);
                assert(p@[4] == spec_peer_prefix()[4]);
                assert(p@[5] == spec_peer_prefix()[5]);
            }
        }
        return None;
    }
    proof {
        assert(p@.subrange(0, KEY_OFFSET as int) =~= spec_peer_prefix());
    }
    let mut key: Vec<u8> = Vec::new();
    let mut i: usize = KEY_OFFSET;
    while i < PEER_ID_LEN
        invariant
            p@.len() == PEER_ID_LEN,
            KEY_OFFSET <= i <= PEER_ID_LEN,
            key@ == p@.subrange(KEY_OFFSET as int, i as int),
        decreases PEER_ID_LEN - i,
    {
        key.push(p.bytes[i]);
        i = i + 1;
        proof {
            assert(p@.subrange(KEY_OFFSET as int, i - 1) + seq![p@[i - 1]]
                =~= p@.subrange(KEY_OFFSET as int, i as int));
        }
    }
    Some(NodeIdentifier { bytes: key })
}

/// Secret-key material for the endpoint system: the 32-byte seed of the
/// signature scheme both systems share.
#[derive(Debug)]
pub struct NodeSecret {
    bytes: Vec<u8>,
}

impl View for NodeSecret {
    type V = Seq<u8>;

    closed spec fn view(&self) -> Seq<u8> {
        self.bytes@
    }
}

impl NodeSecret {
    /// A well-formed secret holds exactly one seed.
    pub open spec fn wf(&self) -> bool {
        self@.len() == NODE_ID_LEN
    }

    /// Accepts exactly the byte strings of seed length.
    pub fn from_bytes(bytes: Vec<u8>) -> (r: Option<NodeSecret>)
        ensures
            r is Some <==> bytes@.len() == NODE_ID_LEN,
            r matches Some(s) ==> s@ == bytes@ && s.wf(),
    {
        if bytes.len() == NODE_ID_LEN {
            Some(NodeSecret { bytes })
        } else {
            None
        }
    }

    /// The seed bytes.
    pub fn bytes(&self) -> (r: &Vec<u8>)
        ensures
            r@ == self@,
    {
        &self.bytes
    }
}

#[verifier::external_type_specification]
#[verifier::external_body]
pub struct ExKeypair(libp2p_identity::Keypair);

/// The secret seed a signing keypair carries: the keypair's 32 secret
/// bytes when it uses the signature scheme both systems share, and
/// nothing for a keypair of any other scheme. A keypair value determines
/// it alone.
pub uninterp spec fn spec_keypair_seed(kp: libp2p_identity::Keypair) -> Option<Seq<u8>>;

/// Relies on `libp2p_identity::Keypair::try_into_ed25519` and
/// `libp2p_identity::ed25519::Keypair::secret`: succeeds exactly for a
/// keypair of the signature scheme both systems share, returning its
/// secret seed — exactly 32 bytes; fails for a keypair of any other
/// scheme.
#[verifier::external_body]
fn keypair_secret_bytes(kp: &libp2p_identity::Keypair) -> (r: Option<Vec<u8>>)
    ensures
        r is Some <==> spec_keypair_seed(*kp) is Some,
        r matches Some(v) ==> Some(v@) == spec_keypair_seed(*kp) && v@.len() == NODE_ID_LEN,
{
    match kp.clone().try_into_ed25519() {
        Ok(ed) => Some(ed.secret().as_ref().to_vec()),
        Err(_) => None,
    }
}

/// Converts the host framework's signing keypair into the endpoint
/// system's secret-key material: succeeds exactly for a keypair of the
/// signature scheme both systems share, and the returned secret holds
/// that keypair's own seed; a keypair of any other scheme converts to
/// `None`, never to a crash.
pub fn secret_to_node_secret(kp: &libp2p_identity::Keypair) -> (r: Option<NodeSecret>)
    ensures
        r is Some <==> spec_keypair_seed(*kp) is Some,
        r matches Some(s) ==> Some(s@) == spec_keypair_seed(*kp) && s.wf(),
{
    match keypair_secret_bytes(kp) {
        Some(bytes) => NodeSecret::from_bytes(bytes),
        None => None,
    }
}

/// Round trip from a raw key: encoding any 32-byte key and decoding it
/// again yields the original key, and the encoding is a well-formed
/// embedded-key identity.
pub proof fn lemma_node_peer_node_round_trip(k: Seq<u8>)
    requires
        k.len() == NODE_ID_LEN,
    ensures
        is_embedded_key_encoding(spec_encode_node_key(k)),
        spec_peer_key(spec_encode_node_key(k)) == k,
{
    assert(spec_encode_node_key(k).subrange(0, KEY_OFFSET as int) =~= spec_peer_prefix());
    assert(spec_peer_key(spec_encode_node_key(k)) =~= k);
}

/// Round trip from an encoded identity: decoding any well-formed
/// embedded-key identity and re-encoding the key yields the original bytes.
pub proof fn lemma_peer_node_peer_round_trip(p: Seq<u8>)
    requires
        is_embedded_key_encoding(p),
    ensures
        spec_peer_key(p).len() == NODE_ID_LEN,
        spec_encode_node_key(spec_peer_key(p)) == p,
{
    assert(spec_encode_node_key(spec_peer_key(p)) =~= p);
}

} // verus!
