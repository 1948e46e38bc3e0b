//! The early-data controller: writes issued before the handshake completes
//! are offered to the session's 0-RTT channel chunk by chunk, every accepted
//! byte is retained for a possible replay, and once the handshake settles the
//! retained bytes are either confirmed delivered or replayed through the
//! ordinary write path — exactly once and in order either way.

use vstd::prelude::*;

use crate::session;
use crate::session::EarlyWrite;
use crate::state::TlsState;
use crate::stream::TlsStream;

verus! {

/// The byte sequences of a list of chunks.
pub open spec fn chunk_views(bufs: Seq<Vec<u8>>) -> Seq<Seq<u8>> {
    bufs.map_values(|b: Vec<u8>| b@)
}

/// The concatenation of a list of byte sequences, in order.
pub open spec fn concat_chunks(chunks: Seq<Seq<u8>>) -> Seq<u8>
    decreases chunks.len(),
{
    if chunks.len() == 0 {
        Seq::empty()
    } else {
        chunks.first() + concat_chunks(chunks.drop_first())
    }
}

/// Concatenating one more chunk extends the concatenation by that chunk.
pub proof fn lemma_concat_take_succ(chunks: Seq<Seq<u8>>, i: int)
    requires
        0 <= i < chunks.len(),
    ensures
        concat_chunks(chunks.take(i + 1)) == concat_chunks(chunks.take(i)) + chunks[i],
    decreases i,
{
    if i == 0 {
        assert(chunks.take(1).first() == chunks[0]);
        assert(chunks.take(1).drop_first() =~= Seq::<Seq<u8>>::empty());
        assert(chunks.take(0) =~= Seq::<Seq<u8>>::empty());
        assert(concat_chunks(chunks.take(1)) =~= concat_chunks(chunks.take(0)) + chunks[0]);
    } else {
        let rest = chunks.drop_first();
        lemma_concat_take_succ(rest, i - 1);
        assert(chunks.take(i + 1).first() == chunks.first());
        assert(chunks.take(i + 1).drop_first() =~= rest.take(i));
        assert(chunks.take(i).first() == chunks.first());
        assert(chunks.take(i).drop_first() =~= rest.take(i - 1));
        assert(rest[i - 1] == chunks[i]);
        assert(chunks.first() + (concat_chunks(rest.take(i - 1)) + chunks[i]) =~= (chunks.first()
            + concat_chunks(rest.take(i - 1))) + chunks[i]);
    }
}

/// The concatenation splits at any chunk boundary.
pub proof fn lemma_concat_split(chunks: Seq<Seq<u8>>, i: int)
    requires
        0 <= i <= chunks.len(),
    ensures
        concat_chunks(chunks) == concat_chunks(chunks.take(i)) + concat_chunks(chunks.skip(i)),
    decreases i,
{
    if i == 0 {
        assert(chunks.take(0) =~= Seq::<Seq<u8>>::empty());
        assert(chunks.skip(0) =~= chunks);
        assert(concat_chunks(chunks.take(0)) + concat_chunks(chunks) =~= concat_chunks(chunks));
    } else {
        let rest = chunks.drop_first();
        lemma_concat_split(rest, i - 1);
        assert(chunks.take(i).first() == chunks.first());
        assert(chunks.take(i).drop_first() =~= rest.take(i - 1));
        assert(chunks.skip(i) =~= rest.skip(i - 1));
        assert(chunks.first() + (concat_chunks(rest.take(i - 1)) + concat_chunks(rest.skip(i - 1)))
            =~= (chunks.first() + concat_chunks(rest.take(i - 1))) + concat_chunks(rest.skip(i - 1)));
    }
}

/// Accepting `n` leading bytes of chunk `i`, after every earlier chunk was
/// accepted whole, extends the accepted bytes to a longer prefix of the
/// concatenation.
pub proof fn lemma_concat_extend(chunks: Seq<Seq<u8>>, i: int, n: int)
    requires
        0 <= i < chunks.len(),
        0 <= n <= chunks[i].len(),
    ensures
        concat_chunks(chunks.take(i)).len() + n <= concat_chunks(chunks).len(),
        concat_chunks(chunks).take(concat_chunks(chunks.take(i)).len() + n) == concat_chunks(
            chunks.take(i),
        ) + chunks[i].take(n),
{
    let before = concat_chunks(chunks.take(i));
    lemma_concat_split(chunks, i);
    assert(chunks.skip(i).first() == chunks[i]);
    assert(chunks.skip(i).drop_first() =~= chunks.skip(i + 1));
    assert(concat_chunks(chunks.skip(i)) == chunks[i] + concat_chunks(chunks.skip(i + 1)));
    assert(concat_chunks(chunks).take(before.len() + n) =~= before + chunks[i].take(n));
}

/// An early-data channel write error, propagated verbatim to the caller; no
/// bytes of the failing chunk were accepted.
#[derive(Debug)]
pub struct EarlyError {
    pub inner: std::io::Error,
}

/// What the early-data controller must do next, once no fresh bytes were
/// accepted by the 0-RTT channel.
pub enum EarlyPhase {
    /// The handshake is still in progress: drive it one transport step.
    Handshake,
    /// The server rejected the early data: replay the still unreplayed part
    /// of the retained bytes through the ordinary write path.
    Replay,
    /// Every retained byte is accounted for: leave the early-data state.
    Finish,
}

/// The controller phase as a function of the state and the session's answers.
pub open spec fn spec_early_phase(pos: int, len: int, handshaking: bool, accepted: bool) -> EarlyPhase {
    if handshaking {
        EarlyPhase::Handshake
    } else if !accepted && pos < len {
        EarlyPhase::Replay
    } else {
        EarlyPhase::Finish
    }
}

impl<IO> TlsStream<IO> {
    /// The number of bytes retained for a possible replay.
    pub fn buffered_len(&self) -> (r: usize)
        requires
            self.state@ is EarlyData,
        ensures
            r == self.state@->data.len(),
    {
        match &self.state {
            TlsState::EarlyData { data, .. } => data.len(),
            _ => 0,
        }
    }

    /// Retain the `n` leading bytes of a chunk that the 0-RTT channel
    /// accepted: they are appended to the replay buffer, and nothing else of
    /// the state changes.
    pub fn record_early_chunk(&mut self, buf: &Vec<u8>, n: usize)
        requires
            old(self).state@ is EarlyData,
            old(self).state@.wf(),
            n <= buf@.len(),
        ensures
            final(self).state@ is EarlyData,
            final(self).state@.wf(),
            final(self).state@->pos == old(self).state@->pos,
            final(self).state@->data == old(self).state@->data + buf@.take(n as int),
            final(self).io == old(self).io,
            final(self).session == old(self).session,
    {
        match &mut self.state {
            TlsState::EarlyData { data, .. } => {
                let mut j: usize = 0;
                while j < n
                    invariant
                        j <= n <= buf@.len(),
                        data@ == old(self).state@->data + buf@.take(j as int),
                    decreases n - j,
                {
                    data.push(buf[j]);
                    proof {
                        assert(old(self).state@->data + buf@.take(j as int) + seq![buf@[j as int]]
                            =~= old(self).state@->data + buf@.take(j as int + 1));
                    }
                    j += 1;
                }
            }
            _ => {}
        }
        proof {
            assert(old(self).state@->data + buf@.take(0int) =~= old(self).state@->data);
        }
    }

    /// Offer the caller's chunks to the session's 0-RTT channel, chunk by
    /// chunk, stopping at the first chunk the channel refuses or accepts only
    /// partially. On `Ok(n)`, the replay buffer grew by exactly the first `n`
    /// bytes of the chunks' concatenation. A channel error is returned only
    /// when no byte was accepted this call, and then nothing of the state has
    /// changed; when earlier chunks were already accepted, their count is
    /// reported instead and the error is left to surface on the next call.
    pub fn early_send(&mut self, bufs: &Vec<Vec<u8>>) -> (r: Result<usize, EarlyError>)
        requires
            old(self).state@ is EarlyData,
            old(self).state@.wf(),
        ensures
            final(self).state@ is EarlyData,
            final(self).state@.wf(),
            final(self).state@->pos == old(self).state@->pos,
            final(self).io == old(self).io,
            r matches Ok(n) ==> n <= concat_chunks(chunk_views(bufs@)).len()
                && final(self).state@->data == old(self).state@->data + concat_chunks(
                chunk_views(bufs@),
            ).take(n as int),
            r is Err ==> final(self).state@ == old(self).state@,
            (forall|k: int| 0 <= k < bufs@.len() ==> bufs@[k]@.len() == 0) ==> r is Ok,
    {
        let ghost cv = chunk_views(bufs@);
        let ghost whole = concat_chunks(cv);
        let ghost base = old(self).state@->data;
        proof {
            assert(cv.take(0int) =~= Seq::<Seq<u8>>::empty());
            assert(base + whole.take(0int) =~= base);
        }
        let mut i: usize = 0;
        let mut written: usize = 0;
        while i < bufs.len()
            invariant
                old(self).state@ is EarlyData,
                old(self).state@.wf(),
                self.state@ is EarlyData,
                self.state@.wf(),
                self.state@->pos == old(self).state@->pos,
                self.io == old(self).io,
                i <= bufs@.len(),
                cv == chunk_views(bufs@),
                whole == concat_chunks(cv),
                base == old(self).state@->data,
                written <= whole.len(),
                self.state@->data == base + whole.take(written as int),
                i < bufs@.len() ==> written == concat_chunks(cv.take(i as int)).len(),
            decreases bufs@.len() - i,
        {
            proof {
                assert(cv[i as int] == bufs@[i as int]@);
            }
            if bufs[i].len() == 0 {
                proof {
                    lemma_concat_take_succ(cv, i as int);
                    assert(concat_chunks(cv.take(i as int)) + cv[i as int] =~= concat_chunks(
                        cv.take(i as int),
                    ));
                }
                i += 1;
            } else {
                match session::early_write_chunk(&mut self.session, &bufs[i]) {
                    EarlyWrite::Refused => {
                        i = bufs.len();
                    }
                    EarlyWrite::Accepted(n) => {
                        if n == 0 {
                            i = bufs.len();
                        } else {
                            proof {
                                lemma_concat_extend(cv, i as int, n as int);
                            }
                            self.record_early_chunk(&bufs[i], n);
                            let total = self.buffered_len();
                            proof {
                                assert(total == base.len() + written + n);
                            }
                            let full = n == bufs[i].len();
                            written = written + n;
                            if full {
                                proof {
                                    lemma_concat_take_succ(cv, i as int);
                                    assert(cv[i as int].take(n as int) =~= cv[i as int]);
                                }
                                i += 1;
                            } else {
                                i = bufs.len();
                            }
                        }
                    }
                    EarlyWrite::Failed(e) => {
                        if written > 0 {
                            // Earlier chunks were accepted and retained:
                            // report them; the error will surface again on
                            // the caller's next attempt, with no byte lost.
                            return Ok(written);
                        }
                        proof {
                            assert(base + whole.take(0int) =~= base);
                            assert(self.state@ =~= old(self).state@);
                        }
                        return Err(EarlyError { inner: e });
                    }
                }
            }
        }
        Ok(written)
    }

    /// The controller phase for given session answers: drive the handshake
    /// while it is in progress; then replay while the server rejected the
    /// early data and retained bytes remain; then finish.
    pub fn early_phase(&self, handshaking: bool, accepted: bool) -> (r: EarlyPhase)
        requires
            self.state@ is EarlyData,
        ensures
            r == spec_early_phase(
                self.state@->pos,
                self.state@->data.len() as int,
                handshaking,
                accepted,
            ),
    {
        if handshaking {
            EarlyPhase::Handshake
        } else {
            let pending = match &self.state {
                TlsState::EarlyData { pos, data } => *pos < data.len(),
                _ => false,
            };
            if !accepted && pending {
                EarlyPhase::Replay
            } else {
                EarlyPhase::Finish
            }
        }
    }

    /// The controller phase right now: asks the session whether it is still
    /// handshaking and whether the server accepted the early data, and
    /// decides as `early_phase` does for exactly those answers.
    pub fn early_phase_query(&self) -> (r: EarlyPhase)
        requires
            self.state@ is EarlyData,
        ensures
            r == spec_early_phase(
                self.state@->pos,
                self.state@->data.len() as int,
                session::handshaking_of(self.session),
                session::accepted_of(self.session),
            ),
            r is Replay ==> self.state@->pos < self.state@->data.len(),
    {
        let handshaking = session::is_handshaking(&self.session);
        let accepted = session::is_early_data_accepted(&self.session);
        self.early_phase(handshaking, accepted)
    }

    /// The still unreplayed part of the retained bytes, to be handed to the
    /// ordinary write path during a replay.
    pub fn replay_remainder(&self) -> (r: Vec<u8>)
        requires
            self.state@ is EarlyData,
            self.state@.wf(),
        ensures
            r@ == self.state@->data.subrange(self.state@->pos, self.state@->data.len() as int),
    {
        match &self.state {
            TlsState::EarlyData { pos, data } => {
                let mut out: Vec<u8> = Vec::new();
                let mut j: usize = *pos;
                proof {
                    assert(out@ =~= data@.subrange(*pos as int, *pos as int));
                }
                while j < data.len()
                    invariant
                        *pos <= j <= data@.len(),
                        out@ == data@.subrange(*pos as int, j as int),
                    decreases data@.len() - j,
                {
                    out.push(data[j]);
                    proof {
                        assert(data@.subrange(*pos as int, j as int) + seq![data@[j as int]]
                            =~= data@.subrange(*pos as int, j as int + 1));
                    }
                    j += 1;
                }
                out
            }
            _ => Vec::new(),
        }
    }

    /// Record that the ordinary write path accepted `n` bytes of the replay:
    /// the replay position advances by exactly `n`, and the retained bytes
    /// are unchanged, so nothing is delivered twice and nothing is skipped.
    pub fn early_replayed(&mut self, n: usize)
        requires
            old(self).state@ is EarlyData,
            old(self).state@->pos + n <= old(self).state@->data.len(),
        ensures
            final(self).state@ is EarlyData,
            final(self).state@->pos == old(self).state@->pos + n,
            final(self).state@->data == old(self).state@->data,
            final(self).state@.wf(),
            final(self).io == old(self).io,
            final(self).session == old(self).session,
    {
        match &mut self.state {
            TlsState::EarlyData { pos, data } => {
                let len = data.len();
                *pos += n;
            }
            _ => {}
        }
    }

    /// Leave the early-data state for good: the retained bytes are all
    /// accounted for (confirmed accepted by the server, or fully replayed),
    /// so the buffer is discarded and the stream behaves as any established
    /// one. The transition is irreversible.
    pub fn early_finish(&mut self)
        requires
            old(self).state@ is EarlyData,
        ensures
            final(self).state@ is Stream,
            final(self).state@.wf(),
            final(self).io == old(self).io,
            final(self).session == old(self).session,
    {
        self.state = TlsState::Stream;
    }
}

} // verus!
