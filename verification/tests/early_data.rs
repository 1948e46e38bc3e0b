use std::sync::Arc;

use tls_stream::early::EarlyPhase;
use tls_stream::state::TlsState;
use tls_stream::stream::TlsStream;

fn new_session() -> rustls::ClientConnection {
    let roots = rustls::RootCertStore::empty();
    let config = rustls::ClientConfig::builder()
        .with_root_certificates(roots)
        .with_no_client_auth();
    let name = rustls::pki_types::ServerName::try_from("example.com").unwrap();
    rustls::ClientConnection::new(Arc::new(config), name).unwrap()
}

fn early_stream() -> TlsStream<u8> {
    TlsStream::new(0u8, new_session(), true)
}

fn buffered(stream: &TlsStream<u8>) -> (usize, Vec<u8>) {
    match &stream.state {
        TlsState::EarlyData { pos, data } => (*pos, data.clone()),
        _ => panic!("not in the early-data state"),
    }
}

#[test]
fn new_early_stream_starts_empty() {
    let stream = early_stream();
    let (pos, data) = buffered(&stream);
    assert_eq!(pos, 0);
    assert!(data.is_empty());
    assert!(stream.skip_handshake());
    assert!(stream.write_dispatch().early);
}

#[test]
fn fresh_session_reports_handshake_phase() {
    // A just-created connection is still handshaking, so the controller must
    // ask for a handshake step before anything else.
    let stream = early_stream();
    assert!(matches!(stream.early_phase_query(), EarlyPhase::Handshake));
}

#[test]
fn early_send_without_channel_accepts_nothing() {
    // A fresh connection has no resumption data, so no 0-RTT channel is
    // available: the controller accepts no byte and retains no byte.
    let mut stream = early_stream();
    let chunks = vec![b"GET /".to_vec()];
    let written = stream.early_send(&chunks).unwrap();
    assert_eq!(written, 0);
    let (pos, data) = buffered(&stream);
    assert_eq!(pos, 0);
    assert!(data.is_empty());
}

#[test]
fn accepted_chunk_is_retained_whole() {
    // State `EarlyData(0, [])`, the caller writes five bytes before the
    // handshake completes and the channel accepts all five: the bytes are
    // retained unchanged, and once the handshake ends with the early data
    // confirmed accepted the state becomes `Stream` with no replay.
    let mut stream = early_stream();
    let chunk = b"GET /".to_vec();
    stream.record_early_chunk(&chunk, 5);
    let (pos, data) = buffered(&stream);
    assert_eq!(pos, 0);
    assert_eq!(data, b"GET /".to_vec());
    // While the handshake is still running the controller keeps driving it.
    assert!(matches!(stream.early_phase(true, false), EarlyPhase::Handshake));
    // Handshake done, early data accepted: finish without replaying.
    assert!(matches!(stream.early_phase(false, true), EarlyPhase::Finish));
    stream.early_finish();
    assert!(matches!(stream.state, TlsState::Stream));
}

#[test]
fn partially_accepted_chunk_keeps_only_the_prefix() {
    let mut stream = early_stream();
    let chunk = b"hello".to_vec();
    stream.record_early_chunk(&chunk, 3);
    let (_, data) = buffered(&stream);
    assert_eq!(data, b"hel".to_vec());
}

#[test]
fn accepted_chunks_accumulate_in_order() {
    let mut stream = early_stream();
    stream.record_early_chunk(&b"GET ".to_vec(), 4);
    stream.record_early_chunk(&b"/x".to_vec(), 2);
    let (pos, data) = buffered(&stream);
    assert_eq!(pos, 0);
    assert_eq!(data, b"GET /x".to_vec());
}

#[test]
fn rejected_early_data_replays_exactly_once_in_order() {
    // The server rejected the 0-RTT bytes: the retained buffer is replayed
    // through the ordinary write path. The transport accepts it in pieces,
    // and the pieces concatenate to exactly the buffered bytes.
    let mut stream = early_stream();
    stream.record_early_chunk(&b"hello".to_vec(), 5);
    let mut delivered: Vec<u8> = Vec::new();

    assert!(matches!(stream.early_phase(false, false), EarlyPhase::Replay));
    let remainder = stream.replay_remainder();
    assert_eq!(remainder, b"hello".to_vec());
    // The write path accepts only three bytes this call.
    delivered.extend(remainder[..3].iter().copied());
    stream.early_replayed(3);

    assert!(matches!(stream.early_phase(false, false), EarlyPhase::Replay));
    let remainder = stream.replay_remainder();
    assert_eq!(remainder, b"lo".to_vec());
    delivered.extend(remainder[..2].iter().copied());
    stream.early_replayed(2);

    // Everything is replayed: the controller finishes and the peer received
    // the caller's bytes exactly once, in order, with no gap.
    assert!(matches!(stream.early_phase(false, false), EarlyPhase::Finish));
    stream.early_finish();
    assert!(matches!(stream.state, TlsState::Stream));
    assert_eq!(delivered, b"hello".to_vec());
}

#[test]
fn accepted_early_data_skips_replay() {
    let mut stream = early_stream();
    stream.record_early_chunk(&b"hello".to_vec(), 5);
    // Handshake complete and the server accepted the early data: no replay,
    // even though nothing was replayed yet.
    assert!(matches!(stream.early_phase(false, true), EarlyPhase::Finish));
    let (pos, _) = buffered(&stream);
    assert_eq!(pos, 0);
    stream.early_finish();
    assert!(matches!(stream.state, TlsState::Stream));
}

#[test]
fn flush_on_early_stream_runs_the_controller_first() {
    // poll_flush with no caller bytes: the controller is entered with an
    // empty chunk list, accepts nothing, and reports the handshake phase.
    let mut stream = early_stream();
    let no_chunks: Vec<Vec<u8>> = Vec::new();
    let written = stream.early_send(&no_chunks).unwrap();
    assert_eq!(written, 0);
    assert!(matches!(stream.early_phase_query(), EarlyPhase::Handshake));
}

#[test]
fn read_on_early_stream_flushes_first() {
    let stream = early_stream();
    assert!(matches!(
        stream.read_dispatch(),
        tls_stream::stream::ReadDispatch::FlushFirst
    ));
}

#[test]
fn early_send_of_empty_chunks_succeeds_with_nothing() {
    // Inputs no outside call decides: all chunks empty, so the channel is
    // never asked and the call must succeed with zero bytes accepted.
    let mut stream = early_stream();
    let chunks = vec![Vec::new(), Vec::new()];
    let written = match stream.early_send(&chunks) {
        Ok(n) => n,
        Err(_) => panic!("empty chunks must be accepted"),
    };
    assert_eq!(written, 0);
    let (pos, data) = buffered(&stream);
    assert_eq!(pos, 0);
    assert!(data.is_empty());
}
