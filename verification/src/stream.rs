//! The stream facade: it owns the transport, the session and the connection
//! state, and decides for every poll what the caller must do next. The
//! transport itself is opaque here; the caller performs the non-blocking I/O
//! step the dispatch asks for and hands the outcome back.

use vstd::prelude::*;

use crate::session;
use crate::state::{StateModel, TlsState};

verus! {

/// A wrapper around an underlying raw stream which implements the TLS
/// protocol on the client side.
pub struct TlsStream<IO> {
    pub io: IO,
    pub session: rustls::ClientConnection,
    pub state: TlsState,
}

/// What a read poll must do, given the current connection state.
pub enum ReadDispatch {
    /// Early data may be in flight: flush first (which drives the handshake),
    /// then retry the read.
    FlushFirst,
    /// Attempt one decrypted read through the record layer, with this eof
    /// hint (true when the read half is already known closed).
    Bridge { eof: bool },
    /// The read half is closed: succeed immediately with zero bytes.
    ImmediateEof,
}

/// What one attempted decrypted read came to; handed back by the caller.
pub enum ReadOutcome {
    /// The read completed. `got_bytes`: at least one byte was added to the
    /// caller's buffer. `had_room`: the buffer had room before the call, so
    /// a read that added nothing means the peer closed its write half; with
    /// no room, an empty read says nothing about the peer. `reached_eof`:
    /// the record layer reported end of stream.
    Done { got_bytes: bool, had_room: bool, reached_eof: bool },
    /// The read failed with a connection-aborted error.
    Aborted,
    /// The read failed with any other error.
    OtherError,
    /// The transport was not ready; retry when it is.
    Suspended,
}

/// What a write poll must do, given the current connection state.
pub struct WriteDispatch {
    /// Run the early-data controller before the ordinary write path.
    pub early: bool,
    /// The eof hint for the record layer.
    pub eof: bool,
}

/// The read dispatch as a function of the state alone.
pub open spec fn spec_read_dispatch(s: StateModel) -> ReadDispatch {
    match s {
        StateModel::EarlyData { .. } => ReadDispatch::FlushFirst,
        StateModel::Stream | StateModel::WriteShutdown => ReadDispatch::Bridge {
            eof: !s.readable(),
        },
        StateModel::ReadShutdown | StateModel::FullyShutdown => ReadDispatch::ImmediateEof,
    }
}

/// The state after a read outcome is applied: a read that produced no byte
/// though the buffer had room, or that reached end of stream, or that failed
/// with a connection-aborted error closes the read half; anything else
/// leaves the state alone.
pub open spec fn spec_finish_read(s: StateModel, outcome: ReadOutcome) -> StateModel {
    match outcome {
        ReadOutcome::Done { got_bytes, had_room, reached_eof } => if (!got_bytes && had_room)
            || reached_eof {
            s.shutdown_read()
        } else {
            s
        },
        ReadOutcome::Aborted => s.shutdown_read(),
        ReadOutcome::OtherError => s,
        ReadOutcome::Suspended => s,
    }
}

/// The state after one shutdown poll records its half-close: the write half
/// closes exactly on the first such poll.
pub open spec fn spec_after_shutdown(s: StateModel) -> StateModel {
    if s.writeable() {
        s.shutdown_write()
    } else {
        s
    }
}

/// What the handshake-driving loop must do after one record exchange
/// attempt.
pub enum HandshakeVerdict {
    /// The transport closed in mid-handshake: fail.
    Fail,
    /// The handshake is complete: report it.
    Complete,
    /// The transport would suspend, but records were exchanged: report the
    /// progress so the caller re-polls.
    Progress,
    /// The transport would suspend and nothing moved: suspend.
    Suspend,
    /// Keep exchanging records.
    Continue,
}

/// The handshake loop's rule: it runs until the session reports the
/// handshake complete or the transport signals it would suspend, and a
/// transport that closes before completion is an error.
pub open spec fn spec_handshake_verdict(
    eof: bool,
    handshaking: bool,
    blocked: bool,
    progressed: bool,
) -> HandshakeVerdict {
    if eof && handshaking {
        HandshakeVerdict::Fail
    } else if !handshaking {
        HandshakeVerdict::Complete
    } else if blocked {
        if progressed {
            HandshakeVerdict::Progress
        } else {
            HandshakeVerdict::Suspend
        }
    } else {
        HandshakeVerdict::Continue
    }
}

/// Decides what one pass of the handshake-driving loop does next, given what
/// the caller observed: whether the transport reached end of stream, whether
/// the session still reports the handshake in progress, whether a transport
/// step would have suspended, and whether any record moved this call.
pub fn handshake_verdict(eof: bool, handshaking: bool, blocked: bool, progressed: bool) -> (r:
    HandshakeVerdict)
    ensures
        r == spec_handshake_verdict(eof, handshaking, blocked, progressed),
{
    if eof && handshaking {
        HandshakeVerdict::Fail
    } else if !handshaking {
        HandshakeVerdict::Complete
    } else if blocked {
        if progressed {
            HandshakeVerdict::Progress
        } else {
            HandshakeVerdict::Suspend
        }
    } else {
        HandshakeVerdict::Continue
    }
}

impl<IO> TlsStream<IO> {
    /// A freshly established stream: both directions open, and the early-data
    /// bookkeeping empty when 0-RTT was requested and offered.
    pub fn new(io: IO, session: rustls::ClientConnection, early_data: bool) -> (r: TlsStream<IO>)
        ensures
            r.io == io,
            r.session == session,
            r.state@ == if early_data {
                StateModel::EarlyData { pos: 0, data: Seq::empty() }
            } else {
                StateModel::Stream
            },
            r.state@.wf(),
    {
        let state = if early_data {
            TlsState::EarlyData { pos: 0, data: Vec::new() }
        } else {
            TlsState::Stream
        };
        TlsStream { io, session, state }
    }

    /// Shared references to the transport and the session.
    pub fn get_ref(&self) -> (r: (&IO, &rustls::ClientConnection))
        ensures
            *r.0 == self.io,
            *r.1 == self.session,
    {
        (&self.io, &self.session)
    }

    /// Exclusive references to the transport and the session; the connection
    /// state is left alone.
    pub fn get_mut(&mut self) -> (r: (&mut IO, &mut rustls::ClientConnection))
        ensures
            *r.0 == old(self).io,
            *r.1 == old(self).session,
            final(self).io == *final(r.0),
            final(self).session == *final(r.1),
            final(self).state == old(self).state,
    {
        (&mut self.io, &mut self.session)
    }

    /// Gives the transport and the session up to the caller.
    pub fn into_inner(self) -> (r: (IO, rustls::ClientConnection))
        ensures
            r.0 == self.io,
            r.1 == self.session,
    {
        (self.io, self.session)
    }

    /// Gives the transport up to the caller.
    pub fn into_io(self) -> (r: IO)
        ensures
            r == self.io,
    {
        self.io
    }

    /// Whether the handshake-driving prelude must be skipped by a generic
    /// driver: true exactly while early data may be in flight, whose
    /// controller drives the handshake itself.
    pub fn skip_handshake(&self) -> (r: bool)
        ensures
            r == (self.state@ is EarlyData),
    {
        self.state.is_early_data()
    }

    /// Vectored writes are always available.
    pub fn is_write_vectored(&self) -> (r: bool)
        ensures
            r,
    {
        true
    }

    /// What a read poll must do in the current state.
    pub fn read_dispatch(&self) -> (r: ReadDispatch)
        ensures
            r == spec_read_dispatch(self.state@),
    {
        match &self.state {
            TlsState::EarlyData { .. } => ReadDispatch::FlushFirst,
            TlsState::Stream | TlsState::WriteShutdown => ReadDispatch::Bridge {
                eof: !self.state.readable(),
            },
            TlsState::ReadShutdown | TlsState::FullyShutdown => ReadDispatch::ImmediateEof,
        }
    }

    /// Record the outcome of the attempted read that a `Bridge` dispatch
    /// asked for. A connection-aborted error closes the read half even though
    /// the caller still propagates the error.
    pub fn finish_read(&mut self, outcome: ReadOutcome)
        requires
            old(self).state@ is Stream || old(self).state@ is WriteShutdown,
        ensures
            final(self).state@ == spec_finish_read(old(self).state@, outcome),
            final(self).state@.wf(),
            final(self).io == old(self).io,
            final(self).session == old(self).session,
    {
        match outcome {
            ReadOutcome::Done { got_bytes, had_room, reached_eof } => {
                if (!got_bytes && had_room) || reached_eof {
                    self.state.shutdown_read();
                }
            }
            ReadOutcome::Aborted => {
                self.state.shutdown_read();
            }
            ReadOutcome::OtherError => {}
            ReadOutcome::Suspended => {}
        }
    }

    /// What a write poll must do in the current state.
    pub fn write_dispatch(&self) -> (r: WriteDispatch)
        ensures
            r.early == (self.state@ is EarlyData),
            r.eof == !self.state@.readable(),
    {
        WriteDispatch { early: self.state.is_early_data(), eof: !self.state.readable() }
    }

    /// Record the half-close of a shutdown poll: on the first such poll the
    /// close_notify alert is queued in the session and the write half closes;
    /// any later poll changes nothing, so the alert is sent at most once.
    /// While early data may be in flight the caller must complete a flush
    /// first, which drives the handshake to completion.
    pub fn shutdown_prepare(&mut self) -> (sent: bool)
        requires
            !(old(self).state@ is EarlyData),
        ensures
            sent == old(self).state@.writeable(),
            final(self).state@ == spec_after_shutdown(old(self).state@),
            final(self).state@.wf(),
            !final(self).state@.writeable(),
            final(self).io == old(self).io,
            old(self).state@.writeable() ==> final(self).session == session::close_notified(
                old(self).session,
            ),
            !old(self).state@.writeable() ==> final(self).session == old(self).session,
    {
        if self.state.writeable() {
            session::send_close_notify(&mut self.session);
            self.state.shutdown_write();
            true
        } else {
            false
        }
    }
}

} // verus!
