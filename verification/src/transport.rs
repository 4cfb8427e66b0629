//! The transport facade's state machine.
//!
//! The outward-facing transport owns an ordered event queue, and a single
//! actor task owns the endpoint handle together with the at-most-one
//! active listener registration. All decisions about that state — may a
//! listener be registered, does an unregister match, where does an
//! incoming connection go — are made here, on plain state, and are
//! verified. The mailbox that serializes the callers, and the endpoint
//! work itself, live in the unverified shell around the library.

use vstd::prelude::*;
use crate::identity::{NodeIdentifier, spec_encode_node_key};
use crate::address::{NetworkAddress, ComponentView, node_identifier_to_address, to_node_identifier, spec_extract_key};

verus! {

/// Classification of a transport-level error.
#[derive(Clone, Debug)]
pub enum TransportErrorKind {
    /// A dial attempt failed.
    Dial(String),
    /// A listen attempt (or the listening machinery) failed.
    Listen(String),
}

/// An error raised by a transport operation.
#[derive(Clone, Debug)]
pub struct TransportError {
    pub kind: TransportErrorKind,
}

impl TransportError {
    /// A dial-class error.
    pub fn dial(msg: String) -> (e: TransportError)
        ensures
            e.kind == TransportErrorKind::Dial(msg),
    {
        TransportError { kind: TransportErrorKind::Dial(msg) }
    }

    /// A listen-class error.
    pub fn listen(msg: String) -> (e: TransportError)
        ensures
            e.kind == TransportErrorKind::Listen(msg),
    {
        TransportError { kind: TransportErrorKind::Listen(msg) }
    }

    /// The error used when the actor task is gone and a call through its
    /// handle cannot be served.
    pub fn from_actor_message(msg: String) -> (e: TransportError)
        ensures
            e.kind == TransportErrorKind::Listen(msg),
    {
        TransportError { kind: TransportErrorKind::Listen(msg) }
    }

    /// The message carried by the error.
    pub open spec fn spec_message(&self) -> Seq<char> {
        match self.kind {
            TransportErrorKind::Dial(m) => m@,
            TransportErrorKind::Listen(m) => m@,
        }
    }

    /// The message carried by the error.
    pub fn message(&self) -> (m: String)
        ensures
            m@ == self.spec_message(),
    {
        match &self.kind {
            TransportErrorKind::Dial(m) => m.clone(),
            TransportErrorKind::Listen(m) => m.clone(),
        }
    }
}

/// An event handed to the host framework's polling loop.
#[derive(Debug)]
pub enum TransportEvent {
    /// A listener was registered and reports its address.
    NewAddress {
        /// The registered listener.
        listener_id: u64,
        /// The local address, made from the local node identity.
        address: NetworkAddress,
    },
    /// A remote peer connected while a listener was registered.
    Incoming {
        /// The listener the connection is routed to.
        listener_id: u64,
        /// The local address, made from the local node identity.
        local_address: NetworkAddress,
        /// The remote address, made from the remote node identity.
        remote_address: NetworkAddress,
        /// The remote node identity; the connection's upgrade resolves to
        /// the peer identity derived from it.
        remote_node: NodeIdentifier,
    },
}

/// The mathematical image of one event.
pub enum EventView {
    NewAddress { listener_id: u64, address: Seq<ComponentView> },
    Incoming {
        listener_id: u64,
        local_address: Seq<ComponentView>,
        remote_address: Seq<ComponentView>,
        remote_node: Seq<u8>,
    },
}

impl View for TransportEvent {
    type V = EventView;

    open spec fn view(&self) -> EventView {
        match self {
            TransportEvent::NewAddress { listener_id, address } => EventView::NewAddress {
                listener_id: *listener_id,
                address: address@,
            },
            TransportEvent::Incoming { listener_id, local_address, remote_address, remote_node } =>
                EventView::Incoming {
                    listener_id: *listener_id,
                    local_address: local_address@,
                    remote_address: remote_address@,
                    remote_node: remote_node@,
                },
        }
    }
}

/// Whether a listen may succeed in a given listener state.
pub open spec fn spec_listen_ok(listener: Option<u64>) -> bool {
    listener is None
}

/// The listener state after a listen attempt.
pub open spec fn spec_listener_after_listen(listener: Option<u64>, id: u64) -> Option<u64> {
    if listener is None {
        Some(id)
    } else {
        listener
    }
}

/// The listener state after an unregister attempt: cleared exactly when
/// the given identifier matches the registered one.
pub open spec fn spec_listener_after_remove(listener: Option<u64>, id: u64) -> Option<u64> {
    if listener == Some(id) {
        None
    } else {
        listener
    }
}

/// The address view of a node's own address.
pub open spec fn spec_address_of(key: Seq<u8>) -> Seq<ComponentView> {
    seq![ComponentView::Peer(spec_encode_node_key(key))]
}

/// The serialized transport state: the local identity, the at-most-one
/// registered listener, and the ordered event queue consumed by the host
/// framework's poll.
#[derive(Debug)]
pub struct TransportCore {
    /// The local node identity, fixed at construction.
    pub local: NodeIdentifier,
    /// The registered listener, if any.
    pub listener: Option<u64>,
    /// The pending events, oldest first.
    pub events: Vec<TransportEvent>,
}

impl TransportCore {
    /// The local identity is a well-formed raw key.
    pub open spec fn wf(&self) -> bool {
        self.local.wf()
    }

    /// The queue as a sequence of event views, oldest first.
    pub open spec fn events_view(&self) -> Seq<EventView> {
        self.events@.map_values(|e: TransportEvent| e@)
    }

    /// A fresh transport: no listener, no pending events.
    pub fn new(local: NodeIdentifier) -> (t: TransportCore)
        requires
            local.wf(),
        ensures
            t.local@ == local@,
            t.listener is None,
            t.events_view() == Seq::<EventView>::empty(),
            t.wf(),
    {
        let t = TransportCore { local, listener: None, events: Vec::new() };
        proof {
            assert(t.events_view() =~= Seq::<EventView>::empty());
        }
        t
    }

    /// Registers a listener. Fails — without touching the queue — while
    /// another listener is registered; otherwise registers the identifier
    /// and emits the new-address event carrying the local address.
    pub fn listen_on(&mut self, id: u64) -> (r: Result<(), TransportError>)
        requires
            old(self).wf(),
        ensures
            final(self).wf(),
            final(self).local@ == old(self).local@,
            final(self).listener == spec_listener_after_listen(old(self).listener, id),
            r is Ok <==> spec_listen_ok(old(self).listener),
            r matches Err(e) ==> e.kind matches TransportErrorKind::Listen(m)
                && m@ == "listener already exists for this transport"@
                && final(self).events_view() == old(self).events_view(),
            r is Ok ==> final(self).events_view() == old(self).events_view().push(
                EventView::NewAddress { listener_id: id, address: spec_address_of(old(self).local@) },
            ),
    {
        match self.listener {
            Some(_) => Err(TransportError::listen("listener already exists for this transport".to_owned())),
            None => {
                self.listener = Some(id);
                let address = node_identifier_to_address(&self.local);
                self.events.push(TransportEvent::NewAddress { listener_id: id, address });
                proof {
                    assert(self.events_view() =~= old(self).events_view().push(
                        EventView::NewAddress {
                            listener_id: id,
                            address: spec_address_of(old(self).local@),
                        },
                    ));
                }
                Ok(())
            },
        }
    }

    /// Unregisters a listener: clears the registration if and only if the
    /// identifier matches the registered one, and says whether it did.
    /// The queue is untouched.
    pub fn remove_listener(&mut self, id: u64) -> (r: bool)
        ensures
            final(self).local@ == old(self).local@,
            final(self).events_view() == old(self).events_view(),
            r == (old(self).listener == Some(id)),
            final(self).listener == spec_listener_after_remove(old(self).listener, id),
    {
        match self.listener {
            Some(current) => {
                if current == id {
                    self.listener = None;
                    true
                } else {
                    false
                }
            },
            None => false,
        }
    }

    /// The synchronous part of a dial: translates the address. An address
    /// with no embedded identity is a dial error, returned before any
    /// network operation; the state is not touched at all.
    pub fn dial_check(&self, addr: &NetworkAddress) -> (r: Result<NodeIdentifier, TransportError>)
        ensures
            spec_extract_key(addr@) matches Some(k) ==> (r matches Ok(n) && n@ == k && n.wf()),
            spec_extract_key(addr@) is None ==> (r matches Err(e)
                && e.kind matches TransportErrorKind::Dial(m)
                && m@ == "failed to extract node identifier from address"@),
    {
        match to_node_identifier(addr) {
            Some(n) => Ok(n),
            None => Err(TransportError::dial("failed to extract node identifier from address".to_owned())),
        }
    }

    /// Routes an accepted inbound connection. With a listener registered,
    /// emits the incoming-connection event, carrying the translated local
    /// and remote addresses and the remote identity; with none, the
    /// connection has nowhere to go and the error is reported, the queue
    /// untouched.
    pub fn on_inbound(&mut self, remote: &NodeIdentifier) -> (r: Result<(), TransportError>)
        requires
            old(self).wf(),
            remote.wf(),
        ensures
            final(self).wf(),
            final(self).local@ == old(self).local@,
            final(self).listener == old(self).listener,
            r is Ok <==> old(self).listener is Some,
            r matches Err(e) ==> e.kind matches TransportErrorKind::Listen(m)
                && m@ == "no listener registered for incoming connection"@
                && final(self).events_view() == old(self).events_view(),
            old(self).listener matches Some(id) ==> final(self).events_view()
                == old(self).events_view().push(
                    EventView::Incoming {
                        listener_id: id,
                        local_address: spec_address_of(old(self).local@),
                        remote_address: spec_address_of(remote@),
                        remote_node: remote@,
                    },
                ),
    {
        match self.listener {
            None => Err(TransportError::listen("no listener registered for incoming connection".to_owned())),
            Some(id) => {
                let local_address = node_identifier_to_address(&self.local);
                let remote_address = node_identifier_to_address(remote);
                self.events.push(TransportEvent::Incoming {
                    listener_id: id,
                    local_address,
                    remote_address,
                    remote_node: remote.clone(),
                });
                proof {
                    assert(self.events_view() =~= old(self).events_view().push(
                        EventView::Incoming {
                            listener_id: id,
                            local_address: spec_address_of(old(self).local@),
                            remote_address: spec_address_of(remote@),
                            remote_node: remote@,
                        },
                    ));
                }
                Ok(())
            },
        }
    }

    /// One poll of the event queue: hands out the oldest pending event, or
    /// nothing — the suspension case — when the queue is empty.
    pub fn next_event(&mut self) -> (r: Option<TransportEvent>)
        ensures
            final(self).local@ == old(self).local@,
            final(self).listener == old(self).listener,
            old(self).events_view().len() == 0 ==> r is None
                && final(self).events_view() == old(self).events_view(),
            old(self).events_view().len() > 0 ==> (r matches Some(e)
                && e@ == old(self).events_view()[0]
                && final(self).events_view() == old(self).events_view().drop_first()),
    {
        if self.events.len() == 0 {
            None
        } else {
            let e = self.events.remove(0);
            proof {
                assert(self.events_view() =~= old(self).events_view().drop_first());
            }
            Some(e)
        }
    }
}

/// Turns the remote identity of an established connection into the host
/// framework's peer identity: always succeeds for a well-formed remote
/// key, with the exact encoding.
pub fn dial_resolve(remote: &NodeIdentifier) -> (r: Result<crate::identity::PeerIdentifier, TransportError>)
    requires
        remote.wf(),
    ensures
        r matches Ok(p) && p@ == spec_encode_node_key(remote@),
{
    match crate::identity::node_to_peer(remote) {
        Some(p) => Ok(p),
        None => vstd::pervasive::unreached(),
    }
}

/// The listener registration is exclusive and recoverable: a fresh
/// transport accepts a listener; a second listen while one is registered
/// is refused; an unregister with the matching identifier clears the
/// registration; and a listen after that succeeds again.
pub proof fn lemma_listener_exclusive(id1: u64, id2: u64)
    ensures
        spec_listen_ok(None::<u64>),
        !spec_listen_ok(spec_listener_after_listen(None::<u64>, id1)),
        spec_listener_after_remove(spec_listener_after_listen(None::<u64>, id1), id1) is None,
        spec_listen_ok(spec_listener_after_remove(spec_listener_after_listen(None::<u64>, id1), id1)),
        id2 != id1 ==> spec_listener_after_remove(spec_listener_after_listen(None::<u64>, id1), id2)
            == Some(id1),
{
}

} // verus!
