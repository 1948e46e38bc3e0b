//! The connection state machine: which half-directions of the stream are
//! open, and the early-data bookkeeping that precedes handshake completion.

use vstd::prelude::*;

verus! {

/// Mathematical model of a connection state: the early-data position is an
/// unbounded integer and the buffered bytes are a sequence.
#[verifier::ext_equal]
pub enum StateModel {
    /// Early data may still be in flight: `pos` bytes of `data` have been
    /// replayed through the ordinary write path after a 0-RTT rejection.
    EarlyData { pos: int, data: Seq<u8> },
    /// Handshake complete (or early data never offered); both directions open.
    Stream,
    /// The read direction is closed; writes are still permitted.
    ReadShutdown,
    /// The write direction is closed; reads are still permitted.
    WriteShutdown,
    /// Both directions are closed; terminal.
    FullyShutdown,
}

impl StateModel {
    /// Well-formedness: the replay position never runs past the buffered
    /// bytes. Constructors establish it and every transition preserves it.
    pub open spec fn wf(self) -> bool {
        self is EarlyData ==> 0 <= self->pos <= self->data.len()
    }

    /// The read half is still open.
    pub open spec fn readable(self) -> bool {
        !(self is ReadShutdown || self is FullyShutdown)
    }

    /// The write half is still open.
    pub open spec fn writeable(self) -> bool {
        !(self is WriteShutdown || self is FullyShutdown)
    }

    /// Closing the read half: joins an already closed write half into the
    /// terminal state, and otherwise leaves only the write half open.
    pub open spec fn shutdown_read(self) -> StateModel {
        if self is WriteShutdown || self is FullyShutdown {
            StateModel::FullyShutdown
        } else {
            StateModel::ReadShutdown
        }
    }

    /// Closing the write half, symmetrically.
    pub open spec fn shutdown_write(self) -> StateModel {
        if self is ReadShutdown || self is FullyShutdown {
            StateModel::FullyShutdown
        } else {
            StateModel::WriteShutdown
        }
    }
}

/// Connection state as the stream facade holds it.
pub enum TlsState {
    /// Writes issued before the handshake completed: `data` holds every byte
    /// accepted as 0-RTT so far, `pos` how much of it has been replayed after
    /// a rejection.
    EarlyData { pos: usize, data: Vec<u8> },
    /// Handshake complete (or early data never offered); both directions open.
    Stream,
    /// Read direction closed; writes still permitted.
    ReadShutdown,
    /// Write direction closed (close_notify sent); reads still permitted.
    WriteShutdown,
    /// Both directions closed; terminal.
    FullyShutdown,
}

impl View for TlsState {
    type V = StateModel;

    open spec fn view(&self) -> StateModel {
        match self {
            TlsState::EarlyData { pos, data } => StateModel::EarlyData {
                pos: *pos as int,
                data: data@,
            },
            TlsState::Stream => StateModel::Stream,
            TlsState::ReadShutdown => StateModel::ReadShutdown,
            TlsState::WriteShutdown => StateModel::WriteShutdown,
            TlsState::FullyShutdown => StateModel::FullyShutdown,
        }
    }
}

impl TlsState {
    /// Whether the read half is still open.
    pub fn readable(&self) -> (r: bool)
        ensures
            r == self@.readable(),
    {
        match self {
            TlsState::ReadShutdown | TlsState::FullyShutdown => false,
            _ => true,
        }
    }

    /// Whether the write half is still open.
    pub fn writeable(&self) -> (r: bool)
        ensures
            r == self@.writeable(),
    {
        match self {
            TlsState::WriteShutdown | TlsState::FullyShutdown => false,
            _ => true,
        }
    }

    /// Whether early data may still be in flight.
    pub fn is_early_data(&self) -> (r: bool)
        ensures
            r == (self@ is EarlyData),
    {
        match self {
            TlsState::EarlyData { .. } => true,
            _ => false,
        }
    }

    /// Record that the read half is closed; a direction never reopens.
    pub fn shutdown_read(&mut self)
        ensures
            final(self)@ == old(self)@.shutdown_read(),
    {
        match self {
            TlsState::WriteShutdown | TlsState::FullyShutdown => {
                *self = TlsState::FullyShutdown;
            }
            _ => {
                *self = TlsState::ReadShutdown;
            }
        }
    }

    /// Record that the write half is closed; a direction never reopens.
    pub fn shutdown_write(&mut self)
        ensures
            final(self)@ == old(self)@.shutdown_write(),
    {
        match self {
            TlsState::ReadShutdown | TlsState::FullyShutdown => {
                *self = TlsState::FullyShutdown;
            }
            _ => {
                *self = TlsState::WriteShutdown;
            }
        }
    }
}

} // verus!
