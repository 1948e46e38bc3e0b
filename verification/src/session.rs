//! The session collaborator: the TLS protocol engine. Every call into it is
//! a trusted item; the verified logic above them states what the library does
//! with whatever the engine answered.

use vstd::prelude::*;

verus! {

#[verifier::external_type_specification]
#[verifier::external_body]
pub struct ExClientConnection(rustls::ClientConnection);

#[verifier::external_type_specification]
#[verifier::external_body]
pub struct ExIoError(std::io::Error);

/// What one write into the session's early-data channel came to.
pub enum EarlyWrite {
    /// The channel is not available (never offered, already rejected, or its
    /// byte budget is spent): nothing was accepted.
    Refused,
    /// The channel accepted this many leading bytes of the chunk.
    Accepted(usize),
    /// The channel failed; no bytes of this chunk were accepted.
    Failed(std::io::Error),
}

/// Whether a session value is still in its handshake: what rustls's
/// `is_handshaking` answers, a function of the session value alone.
pub uninterp spec fn handshaking_of(session: rustls::ClientConnection) -> bool;

/// Whether the server signalled it will process the early data: what
/// rustls's `is_early_data_accepted` answers, a function of the session
/// value alone.
pub uninterp spec fn accepted_of(session: rustls::ClientConnection) -> bool;

/// The session with the close_notify alert queued in its outgoing buffer:
/// the effect of rustls's `send_close_notify`, a function of the session
/// value alone.
pub uninterp spec fn close_notified(session: rustls::ClientConnection) -> rustls::ClientConnection;

/// Relies on rustls's `CommonState::is_handshaking` (reached through
/// `ClientConnection`'s `Deref`): whether the handshake is still in progress,
/// a pure read of the session.
#[verifier::external_body]
pub(crate) fn is_handshaking(session: &rustls::ClientConnection) -> (r: bool)
    ensures
        r == handshaking_of(*session),
{
    session.is_handshaking()
}

/// Relies on `rustls::ClientConnection::is_early_data_accepted`: whether the
/// server signalled that it will process the early data that was sent, a
/// pure read of the session.
#[verifier::external_body]
pub(crate) fn is_early_data_accepted(session: &rustls::ClientConnection) -> (r: bool)
    ensures
        r == accepted_of(*session),
{
    session.is_early_data_accepted()
}

/// Relies on rustls's `CommonState::send_close_notify` (reached through
/// `ClientConnection`'s `DerefMut`): queues the close_notify alert in the
/// session's outgoing buffer, at most once per connection; it performs no
/// I/O and draws on nothing but the session value.
#[verifier::external_body]
pub(crate) fn send_close_notify(session: &mut rustls::ClientConnection)
    ensures
        *final(session) == close_notified(*old(session)),
{
    session.send_close_notify()
}

/// Relies on `rustls::ClientConnection::early_data` and on the `io::Write`
/// impl of the channel it returns, whose `write` accepts at most `buf.len()`
/// bytes (it truncates to the server's early-data budget).
#[verifier::external_body]
pub(crate) fn early_write_chunk(session: &mut rustls::ClientConnection, buf: &Vec<u8>) -> (r:
    EarlyWrite)
    ensures
        r matches EarlyWrite::Accepted(n) ==> n <= buf@.len(),
{
    match session.early_data() {
        None => EarlyWrite::Refused,
        Some(mut channel) => match std::io::Write::write(&mut channel, buf) {
            Ok(n) => EarlyWrite::Accepted(n),
            Err(e) => EarlyWrite::Failed(e),
        },
    }
}

} // verus!
