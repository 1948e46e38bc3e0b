//! The guarantees the adapter gives across whole runs, proved once over the
//! abstract state: half-closes are monotonic and terminal, the close
//! notification goes out at most once, end-of-stream and aborted reads leave
//! the stream at a stable zero-byte read, and replayed or retried writes
//! deliver their bytes exactly once and in order.

use vstd::prelude::*;

use crate::early::concat_chunks;
use crate::state::StateModel;
use crate::stream::{spec_after_shutdown, spec_finish_read, spec_read_dispatch, ReadOutcome};

verus! {

/// One state transition of the adapter, as the verified operations perform
/// them: the read path closes the read half, the shutdown path the write
/// half, and the early-data controller appends to, advances through, or
/// retires its buffer.
pub enum StateStep {
    ShutdownRead,
    ShutdownWrite,
    EarlyAppend { bytes: Seq<u8> },
    EarlyAdvance { n: int },
    EarlyFinish,
}

/// The state after one transition; a transition that does not apply leaves
/// the state alone.
pub open spec fn apply_step(s: StateModel, step: StateStep) -> StateModel {
    match step {
        StateStep::ShutdownRead => s.shutdown_read(),
        StateStep::ShutdownWrite => s.shutdown_write(),
        StateStep::EarlyAppend { bytes } => if s is EarlyData {
            StateModel::EarlyData { pos: s->pos, data: s->data + bytes }
        } else {
            s
        },
        StateStep::EarlyAdvance { n } => if s is EarlyData {
            StateModel::EarlyData { pos: s->pos + n, data: s->data }
        } else {
            s
        },
        StateStep::EarlyFinish => if s is EarlyData {
            StateModel::Stream
        } else {
            s
        },
    }
}

/// The state after a whole sequence of transitions, applied in order.
pub open spec fn run_steps(s: StateModel, steps: Seq<StateStep>) -> StateModel
    decreases steps.len(),
{
    if steps.len() == 0 {
        s
    } else {
        run_steps(apply_step(s, steps.first()), steps.drop_first())
    }
}

/// No single transition reopens a closed direction.
pub proof fn lemma_half_close_monotonic(s: StateModel, step: StateStep)
    ensures
        !s.readable() ==> !apply_step(s, step).readable(),
        !s.writeable() ==> !apply_step(s, step).writeable(),
{
}

/// The half-close flags never reset: over any sequence of transitions, a
/// direction once closed stays closed.
pub proof fn lemma_half_close_monotonic_run(s: StateModel, steps: Seq<StateStep>)
    ensures
        !s.readable() ==> !run_steps(s, steps).readable(),
        !s.writeable() ==> !run_steps(s, steps).writeable(),
    decreases steps.len(),
{
    if steps.len() > 0 {
        lemma_half_close_monotonic(s, steps.first());
        lemma_half_close_monotonic_run(apply_step(s, steps.first()), steps.drop_first());
    }
}

/// The early-data state is never re-entered: once left (it leaves exactly
/// once, for `Stream`), no sequence of transitions brings it back.
pub proof fn lemma_early_data_never_reentered(s: StateModel, steps: Seq<StateStep>)
    ensures
        !(s is EarlyData) ==> !(run_steps(s, steps) is EarlyData),
    decreases steps.len(),
{
    if steps.len() > 0 {
        lemma_early_data_never_reentered(apply_step(s, steps.first()), steps.drop_first());
    }
}

/// Once both halves are shut down the state is terminal: no sequence of
/// transitions leaves it, and every subsequent read dispatch is the
/// immediate, successful zero-byte one.
pub proof fn lemma_fully_shutdown_terminal(steps: Seq<StateStep>)
    ensures
        run_steps(StateModel::FullyShutdown, steps) == StateModel::FullyShutdown,
        spec_read_dispatch(run_steps(StateModel::FullyShutdown, steps)) is ImmediateEof,
    decreases steps.len(),
{
    if steps.len() > 0 {
        lemma_fully_shutdown_terminal(steps.drop_first());
    }
}

/// Whatever a read outcome does to the state, it is either nothing or the
/// closing of the read half: the read path performs no other transition.
pub proof fn lemma_finish_read_is_a_step(s: StateModel, outcome: ReadOutcome)
    ensures
        spec_finish_read(s, outcome) == s || spec_finish_read(s, outcome) == apply_step(
            s,
            StateStep::ShutdownRead,
        ),
{
}

/// The shutdown poll's state change is the closing of the write half or
/// nothing: it performs no other transition.
pub proof fn lemma_shutdown_is_a_step(s: StateModel)
    ensures
        spec_after_shutdown(s) == s || spec_after_shutdown(s) == apply_step(
            s,
            StateStep::ShutdownWrite,
        ),
{
}

/// The close notification is sent at most once: the first shutdown poll
/// closes the write half (it sends exactly when the write half was open, as
/// `shutdown_prepare` ensures), and from then on the shutdown path is a
/// fixed point that sends nothing.
pub proof fn lemma_close_notify_at_most_once(s: StateModel)
    ensures
        !spec_after_shutdown(s).writeable(),
        spec_after_shutdown(spec_after_shutdown(s)) == spec_after_shutdown(s),
{
}

/// A read that produced no new bytes though the buffer had room (the peer
/// closed), or that reported end of stream, moves the state so that the next
/// read returns zero bytes immediately, without suspending.
pub proof fn lemma_eof_read_then_immediate_eof(s: StateModel, reached_eof: bool)
    requires
        s is Stream || s is WriteShutdown,
    ensures
        ({
            let s1 = spec_finish_read(
                s,
                ReadOutcome::Done { got_bytes: false, had_room: true, reached_eof },
            );
            &&& !s1.readable()
            &&& spec_read_dispatch(s1) is ImmediateEof
        }),
{
}

/// A read into a buffer that had no room says nothing about the peer: unless
/// the record layer itself reported end of stream, the state is left alone.
pub proof fn lemma_no_room_read_keeps_state(s: StateModel)
    ensures
        spec_finish_read(
            s,
            ReadOutcome::Done { got_bytes: false, had_room: false, reached_eof: false },
        ) == s,
{
}

/// A connection-aborted read error closes the read half even though the call
/// itself still reports the error: the next read succeeds at once with zero
/// bytes instead of failing again.
pub proof fn lemma_aborted_read_then_immediate_eof(s: StateModel)
    requires
        s is Stream || s is WriteShutdown,
    ensures
        ({
            let s1 = spec_finish_read(s, ReadOutcome::Aborted);
            &&& !s1.readable()
            &&& spec_read_dispatch(s1) is ImmediateEof
        }),
{
}

/// The replay buffer after a run of accepted early writes, each appending
/// the piece of the caller's bytes that the 0-RTT channel took.
pub open spec fn append_run(base: Seq<u8>, pieces: Seq<Seq<u8>>) -> Seq<u8>
    decreases pieces.len(),
{
    if pieces.len() == 0 {
        base
    } else {
        append_run(base + pieces.first(), pieces.drop_first())
    }
}

/// Early-data accounting, buffering side: appending accepted pieces one call
/// at a time retains exactly their concatenation in order — no duplication
/// and no gap between what the caller was told was accepted and what is held
/// for a possible replay.
pub proof fn lemma_append_run_accumulates(base: Seq<u8>, pieces: Seq<Seq<u8>>)
    ensures
        append_run(base, pieces) == base + concat_chunks(pieces),
    decreases pieces.len(),
{
    if pieces.len() == 0 {
        assert(base + concat_chunks(pieces) =~= base);
    } else {
        lemma_append_run_accumulates(base + pieces.first(), pieces.drop_first());
        assert((base + pieces.first()) + concat_chunks(pieces.drop_first()) =~= base
            + (pieces.first() + concat_chunks(pieces.drop_first())));
    }
}

/// Early-data accounting, 0-RTT side: starting from an empty buffer, the
/// retained bytes are exactly the concatenation of the accepted pieces — the
/// bytes the 0-RTT channel sent to the peer, in order.
pub proof fn lemma_buffer_is_accepted_concat(pieces: Seq<Seq<u8>>)
    ensures
        append_run(Seq::empty(), pieces) == concat_chunks(pieces),
{
    lemma_append_run_accumulates(Seq::empty(), pieces);
    assert(Seq::<u8>::empty() + concat_chunks(pieces) =~= concat_chunks(pieces));
}

/// The sum of a sequence of accepted byte counts.
pub open spec fn sum_counts(ns: Seq<int>) -> int
    decreases ns.len(),
{
    if ns.len() == 0 {
        0
    } else {
        ns.first() + sum_counts(ns.drop_first())
    }
}

/// Every count is non-negative.
pub open spec fn counts_ok(ns: Seq<int>) -> bool {
    forall|i: int| 0 <= i < ns.len() ==> ns[i] >= 0
}

/// The bytes handed to the write path by successive replay attempts, when
/// attempt `k` starts at the position the earlier attempts reached and is
/// accepted for `ns[k]` bytes.
pub open spec fn replay_pieces(data: Seq<u8>, pos: int, ns: Seq<int>) -> Seq<u8>
    decreases ns.len(),
{
    if ns.len() == 0 {
        Seq::empty()
    } else {
        data.subrange(pos, pos + ns.first()) + replay_pieces(
            data,
            pos + ns.first(),
            ns.drop_first(),
        )
    }
}

/// Delivery by repeated partial acceptance is exact: however the write path
/// splits its acceptance into successive counts, the pieces it is handed
/// concatenate to precisely the range they replay — every byte once, in
/// order, with no gap. Applied at position zero this is also the partial
/// write contract: a caller that keeps writing the unaccepted remainder
/// eventually delivers the whole input unchanged.
pub proof fn lemma_replay_delivers_in_order(data: Seq<u8>, pos: int, ns: Seq<int>)
    requires
        0 <= pos,
        counts_ok(ns),
        pos + sum_counts(ns) <= data.len(),
    ensures
        sum_counts(ns) >= 0,
        replay_pieces(data, pos, ns) == data.subrange(pos, pos + sum_counts(ns)),
    decreases ns.len(),
{
    if ns.len() == 0 {
        assert(replay_pieces(data, pos, ns) =~= data.subrange(pos, pos));
    } else {
        let n0 = ns.first();
        let rest = ns.drop_first();
        assert(counts_ok(rest)) by {
            assert forall|i: int| 0 <= i < rest.len() implies rest[i] >= 0 by {
                assert(rest[i] == ns[i + 1]);
            }
        }
        lemma_replay_delivers_in_order(data, pos + n0, rest);
        assert(data.subrange(pos, pos + n0) + data.subrange(
            pos + n0,
            pos + n0 + sum_counts(rest),
        ) =~= data.subrange(pos, pos + sum_counts(ns)));
    }
}

/// The liveness half of delivery by retries, under the premise that every
/// re-poll after readiness accepts at least one byte: such attempts cannot
/// outnumber the bytes they deliver, so full delivery of `data` is reached
/// within `data.len()` attempts.
pub proof fn lemma_positive_counts_bound_attempts(ns: Seq<int>)
    requires
        forall|i: int| 0 <= i < ns.len() ==> ns[i] >= 1,
    ensures
        sum_counts(ns) >= ns.len(),
    decreases ns.len(),
{
    if ns.len() > 0 {
        let rest = ns.drop_first();
        assert forall|i: int| 0 <= i < rest.len() implies rest[i] >= 1 by {
            assert(rest[i] == ns[i + 1]);
        }
        lemma_positive_counts_bound_attempts(rest);
    }
}

/// Early-data accounting, rejected side: once the replay has consumed the
/// whole buffer, the ordinary write path has been handed exactly the
/// buffered bytes — no duplication and no gap.
pub proof fn lemma_full_replay_delivers_buffer(data: Seq<u8>, ns: Seq<int>)
    requires
        counts_ok(ns),
        sum_counts(ns) == data.len(),
    ensures
        replay_pieces(data, 0, ns) == data,
{
    lemma_replay_delivers_in_order(data, 0, ns);
    assert(data.subrange(0, data.len() as int) =~= data);
}

} // verus!

