//! The multiplexed-connection state machine.
//!
//! One connection carries many substreams. The underlying endpoint's
//! "accept a channel" primitive only resolves once the opening side has
//! both opened the channel and written at least one byte, so a bare open is
//! invisible to the acceptor. The adapter fixes this race with a one-byte
//! handshake: the opener writes and flushes a single sentinel byte right
//! after opening; the acceptor reads and discards exactly one byte right
//! after accepting.
//!
//! The asynchronous work (the open, the accept, the byte, the close) runs
//! outside the library; [`ConnectionCore`] holds the decisions. Per
//! direction it tracks whether an operation is in flight so that repeated
//! or concurrent polls reuse the one pending operation and never start a
//! duplicate — a duplicate would desynchronise the handshake byte count.
//! The close machine issues the underlying close exactly once and afterwards
//! only awaits completion.

use vstd::prelude::*;

verus! {

/// The sentinel byte the opener writes to make a fresh substream visible
/// to the acceptor.
pub const HANDSHAKE_BYTE: u8 = 0;

/// Classification of a connection-level error.
#[derive(Debug)]
pub enum ConnectionErrorKind {
    /// Accepting an inbound substream (or its handshake read) failed.
    Accept(String),
    /// Opening an outbound substream (or its handshake write) failed.
    Open(String),
    /// A substream error escalated to the connection.
    Stream(String),
}

/// An error raised by a connection-level operation.
#[derive(Debug)]
pub struct ConnectionError {
    pub kind: ConnectionErrorKind,
}

impl ConnectionError {
    /// An error of the accept direction.
    pub fn accept(msg: String) -> (e: ConnectionError)
        ensures
            e.kind == ConnectionErrorKind::Accept(msg),
    {
        ConnectionError { kind: ConnectionErrorKind::Accept(msg) }
    }

    /// An error of the open direction.
    pub fn open(msg: String) -> (e: ConnectionError)
        ensures
            e.kind == ConnectionErrorKind::Open(msg),
    {
        ConnectionError { kind: ConnectionErrorKind::Open(msg) }
    }

    /// A substream error escalated to the connection.
    pub fn stream(msg: String) -> (e: ConnectionError)
        ensures
            e.kind == ConnectionErrorKind::Stream(msg),
    {
        ConnectionError { kind: ConnectionErrorKind::Stream(msg) }
    }

    /// The message carried by the error.
    pub open spec fn spec_message(&self) -> Seq<char> {
        match self.kind {
            ConnectionErrorKind::Accept(m) => m@,
            ConnectionErrorKind::Open(m) => m@,
            ConnectionErrorKind::Stream(m) => m@,
        }
    }

    /// The message carried by the error.
    pub fn message(&self) -> (m: String)
        ensures
            m@ == self.spec_message(),
    {
        match &self.kind {
            ConnectionErrorKind::Accept(m) => m.clone(),
            ConnectionErrorKind::Open(m) => m.clone(),
            ConnectionErrorKind::Stream(m) => m.clone(),
        }
    }
}

/// Progress of the inbound (accept) direction.
#[derive(Clone, Copy, PartialEq, Eq, Structural, Debug)]
pub enum AcceptPhase {
    /// No accept in flight.
    Idle,
    /// The underlying channel accept is in flight.
    AwaitChannel,
    /// The channel is accepted; the handshake-byte read is in flight.
    AwaitByte,
}

/// Progress of the outbound (open) direction.
#[derive(Clone, Copy, PartialEq, Eq, Structural, Debug)]
pub enum OpenPhase {
    /// No open in flight.
    Idle,
    /// The underlying channel open is in flight.
    AwaitChannel,
    /// The channel is open; the handshake-byte write is in flight.
    AwaitWrite,
}

/// Progress of closing the whole connection.
#[derive(Clone, Copy, PartialEq, Eq, Structural, Debug)]
pub enum ClosePhase {
    /// The connection is in use; no close was issued.
    Active,
    /// The underlying close was issued; awaiting the closed signal.
    AwaitClosed,
    /// The closed signal arrived.
    Closed,
}

/// What the shell reports to the inbound machine on one poll.
#[derive(Clone, Copy, PartialEq, Eq, Structural, Debug)]
pub enum AcceptEvent {
    /// Nothing new: a bare poll.
    Poll,
    /// The in-flight channel accept resolved successfully.
    ChannelReady,
    /// The in-flight channel accept failed.
    ChannelFailed,
    /// The in-flight handshake-byte read resolved successfully.
    ByteRead,
    /// The in-flight handshake-byte read failed.
    ReadFailed,
}

/// What the inbound machine tells the shell to do next.
#[derive(Clone, Copy, PartialEq, Eq, Structural, Debug)]
pub enum AcceptAction {
    /// Start the one underlying channel accept.
    StartAccept,
    /// Start the one handshake-byte read on the accepted channel.
    StartRead,
    /// Keep the in-flight operation; report pending.
    Wait,
    /// Hand the accepted substream to the caller.
    Deliver,
    /// Report a connection-level accept failure.
    FailChannel,
    /// Report a connection-level handshake-read failure.
    FailRead,
}

/// What the shell reports to the outbound machine on one poll.
#[derive(Clone, Copy, PartialEq, Eq, Structural, Debug)]
pub enum OpenEvent {
    /// Nothing new: a bare poll.
    Poll,
    /// The in-flight channel open resolved successfully.
    ChannelReady,
    /// The in-flight channel open failed.
    ChannelFailed,
    /// The in-flight handshake-byte write (with flush) completed.
    WriteDone,
    /// The in-flight handshake-byte write failed.
    WriteFailed,
}

/// What the outbound machine tells the shell to do next.
#[derive(Clone, Copy, PartialEq, Eq, Structural, Debug)]
pub enum OpenAction {
    /// Start the one underlying channel open.
    StartOpen,
    /// Write and flush the single sentinel byte on the opened channel.
    StartWrite,
    /// Keep the in-flight operation; report pending.
    Wait,
    /// Hand the opened substream to the caller.
    Deliver,
    /// Report a connection-level open failure.
    FailChannel,
    /// Report a connection-level handshake-write failure.
    FailWrite,
}

/// What the shell reports to the close machine on one poll.
#[derive(Clone, Copy, PartialEq, Eq, Structural, Debug)]
pub enum CloseEvent {
    /// Nothing new: a bare poll.
    Poll,
    /// The closed signal arrived; true means a normal termination.
    Finished(bool),
}

/// What the close machine tells the shell to do next.
#[derive(Clone, Copy, PartialEq, Eq, Structural, Debug)]
pub enum CloseAction {
    /// Issue the one underlying close.
    IssueClose,
    /// Keep awaiting the closed signal; report pending.
    Wait,
    /// Report the close as complete.
    Done,
    /// Report an abnormal termination.
    FailClose,
}

/// The inbound transition: accept, then read one byte, then deliver;
/// failures reset to idle so that the caller may retry with a fresh
/// operation; events that do not belong to the current phase are ignored.
pub open spec fn spec_accept_step(p: AcceptPhase, ev: AcceptEvent) -> (AcceptPhase, AcceptAction) {
    match (p, ev) {
        (AcceptPhase::Idle, AcceptEvent::Poll) => (AcceptPhase::AwaitChannel, AcceptAction::StartAccept),
        (AcceptPhase::Idle, _) => (AcceptPhase::Idle, AcceptAction::Wait),
        (AcceptPhase::AwaitChannel, AcceptEvent::ChannelReady) => (AcceptPhase::AwaitByte, AcceptAction::StartRead),
        (AcceptPhase::AwaitChannel, AcceptEvent::ChannelFailed) => (AcceptPhase::Idle, AcceptAction::FailChannel),
        (AcceptPhase::AwaitChannel, _) => (AcceptPhase::AwaitChannel, AcceptAction::Wait),
        (AcceptPhase::AwaitByte, AcceptEvent::ByteRead) => (AcceptPhase::Idle, AcceptAction::Deliver),
        (AcceptPhase::AwaitByte, AcceptEvent::ReadFailed) => (AcceptPhase::Idle, AcceptAction::FailRead),
        (AcceptPhase::AwaitByte, _) => (AcceptPhase::AwaitByte, AcceptAction::Wait),
    }
}

/// The outbound transition, symmetric to the inbound one: open, then write
/// the sentinel byte, then deliver.
pub open spec fn spec_open_step(p: OpenPhase, ev: OpenEvent) -> (OpenPhase, OpenAction) {
    match (p, ev) {
        (OpenPhase::Idle, OpenEvent::Poll) => (OpenPhase::AwaitChannel, OpenAction::StartOpen),
        (OpenPhase::Idle, _) => (OpenPhase::Idle, OpenAction::Wait),
        (OpenPhase::AwaitChannel, OpenEvent::ChannelReady) => (OpenPhase::AwaitWrite, OpenAction::StartWrite),
        (OpenPhase::AwaitChannel, OpenEvent::ChannelFailed) => (OpenPhase::Idle, OpenAction::FailChannel),
        (OpenPhase::AwaitChannel, _) => (OpenPhase::AwaitChannel, OpenAction::Wait),
        (OpenPhase::AwaitWrite, OpenEvent::WriteDone) => (OpenPhase::Idle, OpenAction::Deliver),
        (OpenPhase::AwaitWrite, OpenEvent::WriteFailed) => (OpenPhase::Idle, OpenAction::FailWrite),
        (OpenPhase::AwaitWrite, _) => (OpenPhase::AwaitWrite, OpenAction::Wait),
    }
}

/// The close transition: issue the close exactly once, then only await the
/// closed signal; once closed, report completion without re-issuing.
pub open spec fn spec_close_step(p: ClosePhase, ev: CloseEvent) -> (ClosePhase, CloseAction) {
    match (p, ev) {
        (ClosePhase::Active, CloseEvent::Poll) => (ClosePhase::AwaitClosed, CloseAction::IssueClose),
        (ClosePhase::Active, CloseEvent::Finished(_)) => (ClosePhase::Active, CloseAction::Wait),
        (ClosePhase::AwaitClosed, CloseEvent::Poll) => (ClosePhase::AwaitClosed, CloseAction::Wait),
        (ClosePhase::AwaitClosed, CloseEvent::Finished(normal)) => (
            ClosePhase::Closed,
            if normal { CloseAction::Done } else { CloseAction::FailClose },
        ),
        (ClosePhase::Closed, _) => (ClosePhase::Closed, CloseAction::Done),
    }
}

/// The state of one multiplexed connection: the two substream directions
/// and the close machine. At most one accept and at most one open are ever
/// in flight; both are lazily started on first poll and cleared once
/// resolved.
#[derive(Debug)]
pub struct ConnectionCore {
    /// The inbound (accept) direction.
    pub accept: AcceptPhase,
    /// The outbound (open) direction.
    pub open: OpenPhase,
    /// Closing of the whole connection.
    pub close: ClosePhase,
}

impl ConnectionCore {
    /// A fresh connection: nothing in flight, not closing.
    pub fn new() -> (c: ConnectionCore)
        ensures
            c.accept == AcceptPhase::Idle,
            c.open == OpenPhase::Idle,
            c.close == ClosePhase::Active,
    {
        ConnectionCore { accept: AcceptPhase::Idle, open: OpenPhase::Idle, close: ClosePhase::Active }
    }

    /// One poll of the inbound direction with what the shell observed.
    pub fn poll_accept(&mut self, ev: AcceptEvent) -> (act: AcceptAction)
        ensures
            (final(self).accept, act) == spec_accept_step(old(self).accept, ev),
            final(self).open == old(self).open,
            final(self).close == old(self).close,
    {
        let (p, act) = match (self.accept, ev) {
            (AcceptPhase::Idle, AcceptEvent::Poll) => (AcceptPhase::AwaitChannel, AcceptAction::StartAccept),
            (AcceptPhase::Idle, _) => (AcceptPhase::Idle, AcceptAction::Wait),
            (AcceptPhase::AwaitChannel, AcceptEvent::ChannelReady) => (AcceptPhase::AwaitByte, AcceptAction::StartRead),
            (AcceptPhase::AwaitChannel, AcceptEvent::ChannelFailed) => (AcceptPhase::Idle, AcceptAction::FailChannel),
            (AcceptPhase::AwaitChannel, _) => (AcceptPhase::AwaitChannel, AcceptAction::Wait),
            (AcceptPhase::AwaitByte, AcceptEvent::ByteRead) => (AcceptPhase::Idle, AcceptAction::Deliver),
            (AcceptPhase::AwaitByte, AcceptEvent::ReadFailed) => (AcceptPhase::Idle, AcceptAction::FailRead),
            (AcceptPhase::AwaitByte, _) => (AcceptPhase::AwaitByte, AcceptAction::Wait),
        };
        self.accept = p;
        act
    }

    /// One poll of the outbound direction with what the shell observed.
    pub fn poll_open(&mut self, ev: OpenEvent) -> (act: OpenAction)
        ensures
            (final(self).open, act) == spec_open_step(old(self).open, ev),
            final(self).accept == old(self).accept,
            final(self).close == old(self).close,
    {
        let (p, act) = match (self.open, ev) {
            (OpenPhase::Idle, OpenEvent::Poll) => (OpenPhase::AwaitChannel, OpenAction::StartOpen),
            (OpenPhase::Idle, _) => (OpenPhase::Idle, OpenAction::Wait),
            (OpenPhase::AwaitChannel, OpenEvent::ChannelReady) => (OpenPhase::AwaitWrite, OpenAction::StartWrite),
            (OpenPhase::AwaitChannel, OpenEvent::ChannelFailed) => (OpenPhase::Idle, OpenAction::FailChannel),
            (OpenPhase::AwaitChannel, _) => (OpenPhase::AwaitChannel, OpenAction::Wait),
            (OpenPhase::AwaitWrite, OpenEvent::WriteDone) => (OpenPhase::Idle, OpenAction::Deliver),
            (OpenPhase::AwaitWrite, OpenEvent::WriteFailed) => (OpenPhase::Idle, OpenAction::FailWrite),
            (OpenPhase::AwaitWrite, _) => (OpenPhase::AwaitWrite, OpenAction::Wait),
        };
        self.open = p;
        act
    }

    /// One poll of the close machine with what the shell observed.
    pub fn poll_close(&mut self, ev: CloseEvent) -> (act: CloseAction)
        ensures
            (final(self).close, act) == spec_close_step(old(self).close, ev),
            final(self).accept == old(self).accept,
            final(self).open == old(self).open,
    {
        let (p, act) = match (self.close, ev) {
            (ClosePhase::Active, CloseEvent::Poll) => (ClosePhase::AwaitClosed, CloseAction::IssueClose),
            (ClosePhase::Active, CloseEvent::Finished(_)) => (ClosePhase::Active, CloseAction::Wait),
            (ClosePhase::AwaitClosed, CloseEvent::Poll) => (ClosePhase::AwaitClosed, CloseAction::Wait),
            (ClosePhase::AwaitClosed, CloseEvent::Finished(normal)) => (
                ClosePhase::Closed,
                if normal { CloseAction::Done } else { CloseAction::FailClose },
            ),
            (ClosePhase::Closed, _) => (ClosePhase::Closed, CloseAction::Done),
        };
        self.close = p;
        act
    }

    /// The sentinel byte to write after an open.
    pub fn handshake_byte(&self) -> (b: u8)
        ensures
            b == HANDSHAKE_BYTE,
    {
        HANDSHAKE_BYTE
    }
}

/// The error reported when accepting the underlying channel fails.
pub fn accept_channel_error() -> (e: ConnectionError)
    ensures
        e.kind matches ConnectionErrorKind::Accept(m) && m@ == "handshake failed during accept"@,
{
    ConnectionError::accept("handshake failed during accept".to_owned())
}

/// The error reported when reading the handshake byte fails.
pub fn accept_read_error() -> (e: ConnectionError)
    ensures
        e.kind matches ConnectionErrorKind::Accept(m) && m@ == "failed to read from stream"@,
{
    ConnectionError::accept("failed to read from stream".to_owned())
}

/// The error reported when opening the underlying channel fails.
pub fn open_channel_error() -> (e: ConnectionError)
    ensures
        e.kind matches ConnectionErrorKind::Open(m) && m@ == "handshake failed during open"@,
{
    ConnectionError::open("handshake failed during open".to_owned())
}

/// The error reported when writing the handshake byte fails.
pub fn open_write_error() -> (e: ConnectionError)
    ensures
        e.kind matches ConnectionErrorKind::Open(m) && m@ == "failed to write to stream"@,
{
    ConnectionError::open("failed to write to stream".to_owned())
}

/// The error reported when the closed signal is an abnormal termination.
pub fn close_error() -> (e: ConnectionError)
    ensures
        e.kind matches ConnectionErrorKind::Open(m) && m@ == "failed to close connection"@,
{
    ConnectionError::open("failed to close connection".to_owned())
}

/// While an operation is in flight in a direction, a further poll of that
/// direction never starts a second underlying operation, and a bare poll
/// leaves the in-flight operation exactly as it is — two concurrent
/// pollers observe the same pending operation. Likewise the underlying
/// close is issued only from the active state: never twice.
pub proof fn lemma_no_duplicate_operations(c: ConnectionCore, ev_a: AcceptEvent, ev_o: OpenEvent, ev_c: CloseEvent)
    ensures
        c.accept != AcceptPhase::Idle ==> spec_accept_step(c.accept, ev_a).1 != AcceptAction::StartAccept,
        c.open != OpenPhase::Idle ==> spec_open_step(c.open, ev_o).1 != OpenAction::StartOpen,
        spec_accept_step(c.accept, AcceptEvent::Poll).0 == c.accept || c.accept == AcceptPhase::Idle,
        spec_open_step(c.open, OpenEvent::Poll).0 == c.open || c.open == OpenPhase::Idle,
        spec_close_step(c.close, ev_c).1 == CloseAction::IssueClose ==> c.close == ClosePhase::Active,
{
}

/// The accept direction delivers a substream only after the handshake byte
/// was read: an accepted channel on which no byte has arrived stays
/// pending under every bare poll, and delivery happens exactly on the
/// byte-read event.
pub proof fn lemma_accept_waits_for_byte(p: AcceptPhase, ev: AcceptEvent)
    ensures
        spec_accept_step(p, ev).1 == AcceptAction::Deliver ==> (p == AcceptPhase::AwaitByte && ev == AcceptEvent::ByteRead),
        spec_accept_step(AcceptPhase::AwaitByte, AcceptEvent::Poll) == (AcceptPhase::AwaitByte, AcceptAction::Wait),
        spec_accept_step(AcceptPhase::AwaitChannel, AcceptEvent::Poll) == (AcceptPhase::AwaitChannel, AcceptAction::Wait),
{
}

/// The open direction delivers a substream only after the single sentinel
/// byte was written: delivery happens exactly on the write-done event, and
/// the write is started exactly once, on the channel-ready event.
pub proof fn lemma_open_writes_one_byte(p: OpenPhase, ev: OpenEvent)
    ensures
        spec_open_step(p, ev).1 == OpenAction::Deliver ==> (p == OpenPhase::AwaitWrite && ev == OpenEvent::WriteDone),
        spec_open_step(p, ev).1 == OpenAction::StartWrite ==> (p == OpenPhase::AwaitChannel && ev == OpenEvent::ChannelReady),
{
}

} // verus!
