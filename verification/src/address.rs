//! Address translation between the endpoint system and the host
//! framework's composable addresses.
//!
//! The host framework addresses a peer with a sequence of protocol
//! components. The adapter cares about exactly one component kind: the
//! peer-identity component, which carries an encoded [`PeerIdentifier`].
//! An address made for a node holds exactly that one component; parsing an
//! address scans its components for the first identity that embeds a raw
//! key and recovers the [`NodeIdentifier`]. An address with no such
//! component translates to `None` — a recoverable failure, never a crash.

use vstd::prelude::*;
use crate::identity::{
    NodeIdentifier, PeerIdentifier, node_to_peer, peer_to_node, is_embedded_key_encoding,
    spec_peer_key, spec_encode_node_key, NODE_ID_LEN,
};

verus! {

/// One component of a composable network address.
#[derive(Debug)]
pub enum AddressComponent {
    /// The peer-identity component, carrying the framework's encoded
    /// identity.
    Peer(PeerIdentifier),
    /// Any other protocol component, named by its protocol code.
    Other(u64),
}

/// The mathematical image of one component.
pub enum ComponentView {
    Peer(Seq<u8>),
    Other(u64),
}

impl View for AddressComponent {
    type V = ComponentView;

    open spec fn view(&self) -> ComponentView {
        match self {
            AddressComponent::Peer(p) => ComponentView::Peer(p@),
            AddressComponent::Other(c) => ComponentView::Other(*c),
        }
    }
}

/// A composable network address: a sequence of components.
#[derive(Debug)]
pub struct NetworkAddress {
    components: Vec<AddressComponent>,
}

impl View for NetworkAddress {
    type V = Seq<ComponentView>;

    closed spec fn view(&self) -> Seq<ComponentView> {
        self.components@.map_values(|c: AddressComponent| c@)
    }
}

/// The raw key of the first component that is a peer identity embedding
/// one; `None` where no component embeds a key.
pub open spec fn spec_extract_key(s: Seq<ComponentView>) -> Option<Seq<u8>>
    decreases s.len(),
{
    if s.len() == 0 {
        None
    } else {
        match s[0] {
            ComponentView::Peer(p) => if is_embedded_key_encoding(p) {
                Some(spec_peer_key(p))
            } else {
                spec_extract_key(s.drop_first())
            },
            ComponentView::Other(_) => spec_extract_key(s.drop_first()),
        }
    }
}

impl NetworkAddress {
    /// The address with no components.
    pub fn empty() -> (a: NetworkAddress)
        ensures
            a@ == Seq::<ComponentView>::empty(),
    {
        let a = NetworkAddress { components: Vec::new() };
        proof {
            assert(a@ =~= Seq::<ComponentView>::empty());
        }
        a
    }

    /// Builds an address from its components, in order.
    pub fn from_components(components: Vec<AddressComponent>) -> (a: NetworkAddress)
        ensures
            a@ == components@.map_values(|c: AddressComponent| c@),
    {
        NetworkAddress { components }
    }

    /// Appends one component.
    pub fn push(&mut self, c: AddressComponent)
        ensures
            final(self)@ == old(self)@.push(c@),
    {
        self.components.push(c);
        proof {
            assert(self@ =~= old(self)@.push(c@));
        }
    }

    /// The components, in order.
    pub fn components(&self) -> (r: &Vec<AddressComponent>)
        ensures
            r@.map_values(|c: AddressComponent| c@) == self@,
    {
        &self.components
    }

    /// How many components the address has.
    pub fn len(&self) -> (n: usize)
        ensures
            n == self@.len(),
    {
        self.components.len()
    }
}

/// Builds the address of a node: exactly one component, the peer-identity
/// component carrying the node's encoded key. Deterministic and total for
/// well-formed identifiers.
pub fn node_identifier_to_address(n: &NodeIdentifier) -> (a: NetworkAddress)
    requires
        n.wf(),
    ensures
        a@ == seq![ComponentView::Peer(spec_encode_node_key(n@))],
{
    let p = match node_to_peer(n) {
        Some(p) => p,
        None => vstd::pervasive::unreached(),
    };
    let mut components: Vec<AddressComponent> = Vec::new();
    components.push(AddressComponent::Peer(p));
    let a = NetworkAddress { components };
    proof {
        assert(a@ =~= seq![ComponentView::Peer(spec_encode_node_key(n@))]);
    }
    a
}

/// Scans an address for an embedded identity and recovers the node's raw
/// key: the first peer-identity component that embeds a key decides;
/// components of other kinds, and identity components of foreign schemes,
/// are skipped. `None` where no component embeds a key.
pub fn to_node_identifier(a: &NetworkAddress) -> (r: Option<NodeIdentifier>)
    ensures
        r matches Some(n) ==> spec_extract_key(a@) == Some(n@) && n.wf(),
        r is None ==> spec_extract_key(a@) is None,
{
    let components = &a.components;
    let n = components.len();
    let mut i: usize = 0;
    proof {
        assert(a@.skip(0) =~= a@);
    }
    while i < n
        invariant
            n == components.len(),
            i <= n,
            a@ == components@.map_values(|c: AddressComponent| c@),
            spec_extract_key(a@) == spec_extract_key(a@.skip(i as int)),
        decreases n - i,
    {
        proof {
            assert(a@.len() == n);
            assert(a@.skip(i as int).len() > 0);
            assert(a@.skip(i as int)[0] == a@[i as int]);
            assert(a@[i as int] == components@[i as int]@);
            assert(a@.skip(i as int).drop_first() =~= a@.skip(i + 1));
        }
        match &components[i] {
            AddressComponent::Peer(p) => {
                proof {
                    assert(a@.skip(i as int)[0] == ComponentView::Peer(p@));
                }
                match peer_to_node(p) {
                    Some(node) => {
                        proof {
                            assert(spec_extract_key(a@.skip(i as int)) == Some(spec_peer_key(p@)));
                        }
                        return Some(node);
                    },
                    None => {
                        proof {
                            assert(spec_extract_key(a@.skip(i as int))
                                == spec_extract_key(a@.skip(i + 1)));
                        }
                    },
                }
            },
            AddressComponent::Other(_) => {
                proof {
                    assert(spec_extract_key(a@.skip(i as int))
                        == spec_extract_key(a@.skip(i + 1)));
                }
            },
        }
        i = i + 1;
    }
    proof {
        assert(a@.skip(n as int) =~= Seq::<ComponentView>::empty());
    }
    None
}

/// Round trip through an address: the address built for any 32-byte raw
/// key parses back to exactly that key.
pub proof fn lemma_address_round_trip(k: Seq<u8>)
    requires
        k.len() == NODE_ID_LEN,
    ensures
        spec_extract_key(seq![ComponentView::Peer(spec_encode_node_key(k))]) == Some(k),
{
    crate::identity::lemma_node_peer_node_round_trip(k);
}

} // verus!
