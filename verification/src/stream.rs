//! The per-substream state machine.
//!
//! A substream owns a send half and a receive half of one bidirectional byte
//! channel. Each half can be closed independently; closing the send half
//! signals "no more data" to the peer and is idempotent. The actual byte
//! movement is asynchronous input/output and happens outside the library;
//! [`StreamCore`] holds the decisions: whether an operation on a half is
//! still allowed, which error an operation on a locally closed half gets,
//! and what a close has to do.

use vstd::prelude::*;

verus! {

/// Classification of a substream error.
#[derive(Clone, Debug)]
pub enum StreamErrorKind {
    /// An error on the receive half.
    Read(String),
    /// An error on the send half.
    Write(String),
    /// An error that concerns the whole connection under the stream.
    Connection(String),
}

/// An error raised by a substream operation.
#[derive(Clone, Debug)]
pub struct StreamError {
    pub kind: StreamErrorKind,
}

impl StreamError {
    /// An error of the receive half.
    pub fn read(msg: String) -> (e: StreamError)
        ensures
            e.kind == StreamErrorKind::Read(msg),
    {
        StreamError { kind: StreamErrorKind::Read(msg) }
    }

    /// An error of the send half.
    pub fn write(msg: String) -> (e: StreamError)
        ensures
            e.kind == StreamErrorKind::Write(msg),
    {
        StreamError { kind: StreamErrorKind::Write(msg) }
    }

    /// An error scoped to the connection carrying the stream.
    pub fn connection(msg: String) -> (e: StreamError)
        ensures
            e.kind == StreamErrorKind::Connection(msg),
    {
        StreamError { kind: StreamErrorKind::Connection(msg) }
    }

    /// The message carried by the error.
    pub open spec fn spec_message(&self) -> Seq<char> {
        match self.kind {
            StreamErrorKind::Read(m) => m@,
            StreamErrorKind::Write(m) => m@,
            StreamErrorKind::Connection(m) => m@,
        }
    }

    /// The message carried by the error.
    pub fn message(&self) -> (m: String)
        ensures
            m@ == self.spec_message(),
    {
        match &self.kind {
            StreamErrorKind::Read(m) => m.clone(),
            StreamErrorKind::Write(m) => m.clone(),
            StreamErrorKind::Connection(m) => m.clone(),
        }
    }
}

/// The error got by writing to or flushing a locally closed send half: a
/// broken pipe, not a block and not a panic.
pub open spec fn is_send_closed_error(e: StreamError) -> bool {
    e.kind matches StreamErrorKind::Write(m) && m@ == "stream sender closed"@
}

/// The error got by reading from a locally closed receive half.
pub open spec fn is_recv_closed_error(e: StreamError) -> bool {
    e.kind matches StreamErrorKind::Read(m) && m@ == "stream receiver closed"@
}

/// The state of one substream's two halves.
///
/// `send_open` and `recv_open` say whether the respective half is still
/// locally usable; `closing` records that the send half has been finished.
/// The unverified shell consults the gates before every delegated read,
/// write or flush, and drives [`StreamCore::close_send`] from its close
/// operation.
#[derive(Debug)]
pub struct StreamCore {
    /// The send half has not been locally closed.
    pub send_open: bool,
    /// The receive half has not been locally closed.
    pub recv_open: bool,
    /// The send half has been finished ("no more data" was signalled).
    pub closing: bool,
}

/// The state after closing the send half: the send half is finished, the
/// receive half is untouched.
pub open spec fn spec_close_send(s: StreamCore) -> StreamCore {
    StreamCore { send_open: false, recv_open: s.recv_open, closing: true }
}

impl StreamCore {
    /// The two send-side fields never disagree: the send half is open
    /// exactly as long as no close has begun.
    pub open spec fn wf(&self) -> bool {
        self.closing == !self.send_open
    }

    /// A fresh substream: both halves open, nothing closing.
    pub fn new() -> (s: StreamCore)
        ensures
            s.send_open,
            s.recv_open,
            !s.closing,
            s.wf(),
    {
        StreamCore { send_open: true, recv_open: true, closing: false }
    }

    /// Gate for operations that use the send half (write and flush):
    /// allowed exactly while the send half is open; afterwards a broken-pipe
    /// error.
    pub fn send_gate(&self) -> (r: Result<(), StreamError>)
        ensures
            r is Ok <==> self.send_open,
            r matches Err(e) ==> is_send_closed_error(e),
    {
        if self.send_open {
            Ok(())
        } else {
            Err(StreamError::write("stream sender closed".to_owned()))
        }
    }

    /// Gate for operations that use the receive half (read): allowed
    /// exactly while the receive half is open; afterwards a broken-pipe
    /// error.
    pub fn recv_gate(&self) -> (r: Result<(), StreamError>)
        ensures
            r is Ok <==> self.recv_open,
            r matches Err(e) ==> is_recv_closed_error(e),
    {
        if self.recv_open {
            Ok(())
        } else {
            Err(StreamError::read("stream receiver closed".to_owned()))
        }
    }

    /// Closes the send half. Returns whether the underlying send half has
    /// to be finished now: true on the first close, false on any repeated
    /// close (idempotence). The receive half is untouched, and closing
    /// always succeeds locally.
    pub fn close_send(&mut self) -> (finish_now: bool)
        requires
            old(self).wf(),
        ensures
            *final(self) == spec_close_send(*old(self)),
            final(self).wf(),
            finish_now == !old(self).closing,
            finish_now == old(self).send_open,
    {
        let first = !self.closing;
        self.closing = true;
        self.send_open = false;
        first
    }
}

/// Half-close independence: after the send half is closed, writing and
/// flushing are refused while the receive half is exactly as usable as
/// before; and closing again changes nothing (close is idempotent).
pub proof fn lemma_half_close_independence(s: StreamCore)
    ensures
        !spec_close_send(s).send_open,
        spec_close_send(s).closing,
        spec_close_send(s).recv_open == s.recv_open,
        spec_close_send(spec_close_send(s)) == spec_close_send(s),
        spec_close_send(s).wf(),
{
}

} // verus!
