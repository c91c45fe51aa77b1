//! Chunk-emission policy for the live-capture session: when the pending
//! backlog is turned into a chunk, how large the chunk is, how the backlog
//! is kept bounded, and the cadence of level-meter updates.

use vstd::prelude::*;

use std::collections::VecDeque;

use crate::pipeline::{DictationState, PipelineStatus};

verus! {

/// How often level-meter events are emitted, independent of chunk cadence.
pub const METER_EMIT_INTERVAL_MS: u64 = 33;

/// How long a worker waits on its frame queue before polling again.
pub const FRAME_RECV_TIMEOUT_MS: u64 = 60;

/// A planned chunk emission: how many samples to dequeue now, and the
/// ceiling a single chunk may reach.
#[derive(Debug, Clone, Copy, PartialEq, Eq, Structural)]
pub struct LiveCaptureChunkPlan {
    pub next_chunk_size: usize,
    pub max_chunk_samples: usize,
}

/// The effective minimum chunk length: the tuned value, at least 8000
/// samples.
pub open spec fn effective_min_chunk(tuned: usize) -> int {
    vstd::math::max(tuned as int, 8000)
}

/// The effective cadence: the tuned value, at least 300 ms.
pub open spec fn effective_cadence_ms(tuned: u64) -> int {
    vstd::math::max(tuned as int, 300)
}

/// The largest chunk the plan may emit: three effective minimums, stopping
/// at the machine limit.
pub open spec fn max_chunk_of(tuned: usize) -> int {
    vstd::math::min(3 * effective_min_chunk(tuned), usize::MAX as int)
}

/// Whether a chunk is due: only while listening, only once the backlog
/// reaches the effective minimum, and only after the cadence has passed.
pub open spec fn plan_due(status: PipelineStatus, pending: int, elapsed_ms: int) -> bool {
    &&& status.state == DictationState::Listening
    &&& pending >= effective_min_chunk(status.tuning.min_chunk_samples)
    &&& elapsed_ms >= effective_cadence_ms(status.tuning.partial_cadence_ms)
}

/// Decide whether to emit a chunk now, and how large: nothing is planned
/// unless the pipeline is listening, the backlog has reached the effective
/// minimum, and the cadence since the last emission has passed; a planned
/// chunk takes the whole backlog up to three effective minimums.
pub fn plan_live_capture_chunk(
    status: &PipelineStatus,
    pending_samples: usize,
    elapsed_since_last_feed_ms: u64,
) -> (r: Option<LiveCaptureChunkPlan>)
    ensures
        r is Some <==> plan_due(
            *status,
            pending_samples as int,
            elapsed_since_last_feed_ms as int,
        ),
        r matches Some(plan) ==> {
            &&& plan.max_chunk_samples == max_chunk_of(status.tuning.min_chunk_samples)
            &&& plan.next_chunk_size == vstd::math::min(
                pending_samples as int,
                plan.max_chunk_samples as int,
            )
        },
{
    if !matches!(status.state, DictationState::Listening) {
        return None;
    }

    let min_chunk_samples: usize = if status.tuning.min_chunk_samples > 8000 {
        status.tuning.min_chunk_samples
    } else {
        8000
    };
    if pending_samples < min_chunk_samples {
        return None;
    }

    let cadence_ms: u64 = if status.tuning.partial_cadence_ms > 300 {
        status.tuning.partial_cadence_ms
    } else {
        300
    };
    if elapsed_since_last_feed_ms < cadence_ms {
        return None;
    }

    let max_chunk_samples: usize = if min_chunk_samples > usize::MAX / 3 {
        usize::MAX
    } else {
        min_chunk_samples * 3
    };
    Some(
        LiveCaptureChunkPlan {
            next_chunk_size: if pending_samples < max_chunk_samples {
                pending_samples
            } else {
                max_chunk_samples
            },
            max_chunk_samples,
        },
    )
}

/// What the transcription worker does with its backlog after one poll.
#[derive(Debug, Clone, Copy, PartialEq, Eq, Structural)]
pub enum LiveCaptureAction {
    ClearBacklog,
    Wait,
    Emit(LiveCaptureChunkPlan),
}

/// One scheduling decision of the transcription worker loop: stale audio is
/// dropped whenever the pipeline is not listening, so it cannot leak into
/// the next session; otherwise a chunk is emitted exactly when one is due.
pub fn next_capture_action(
    status: &PipelineStatus,
    pending_samples: usize,
    elapsed_since_last_feed_ms: u64,
) -> (r: LiveCaptureAction)
    ensures
        (r is ClearBacklog) <==> status.state != DictationState::Listening,
        (r is Emit) <==> plan_due(*status, pending_samples as int, elapsed_since_last_feed_ms as int),
        r matches LiveCaptureAction::Emit(plan) ==> {
            &&& plan.max_chunk_samples == max_chunk_of(status.tuning.min_chunk_samples)
            &&& plan.next_chunk_size == vstd::math::min(
                pending_samples as int,
                plan.max_chunk_samples as int,
            )
        },
{
    if !matches!(status.state, DictationState::Listening) {
        return LiveCaptureAction::ClearBacklog;
    }
    match plan_live_capture_chunk(status, pending_samples, elapsed_since_last_feed_ms) {
        Some(plan) => LiveCaptureAction::Emit(plan),
        None => LiveCaptureAction::Wait,
    }
}

/// Dequeue the next chunk from the front of the backlog: the oldest
/// `count` samples leave in arrival order (all of them when fewer remain).
pub fn dequeue_chunk(pending_samples: &mut VecDeque<i16>, count: usize) -> (r: Vec<i16>)
    ensures
        r@ == old(pending_samples)@.take(
            vstd::math::min(count as int, old(pending_samples)@.len() as int),
        ),
        final(pending_samples)@ == old(pending_samples)@.skip(
            vstd::math::min(count as int, old(pending_samples)@.len() as int),
        ),
{
    let ghost orig = pending_samples@;
    let mut chunk: Vec<i16> = Vec::new();
    let mut taken: usize = 0;
    while taken < count && pending_samples.len() > 0
        invariant
            taken <= count,
            taken <= orig.len(),
            chunk@ == orig.take(taken as int),
            pending_samples@ == orig.skip(taken as int),
            taken < count ==> taken == orig.len() - pending_samples@.len(),
        decreases count - taken,
    {
        let popped = pending_samples.pop_front();
        match popped {
            Some(sample) => {
                chunk.push(sample);
            },
            None => {},
        }
        proof {
            assert(chunk@ =~= orig.take(taken + 1));
            assert(pending_samples@ =~= orig.skip(taken + 1));
        }
        taken += 1;
    }
    proof {
        if taken == count {
            assert(chunk@ =~= orig.take(vstd::math::min(count as int, orig.len() as int)));
            assert(pending_samples@ =~= orig.skip(
                vstd::math::min(count as int, orig.len() as int),
            ));
        } else {
            assert(pending_samples@.len() == 0);
            assert(chunk@ =~= orig.take(vstd::math::min(count as int, orig.len() as int)));
            assert(pending_samples@ =~= orig.skip(
                vstd::math::min(count as int, orig.len() as int),
            ));
        }
    }
    chunk
}

/// The backlog ceiling: five maximal chunks, stopping at the machine limit.
pub open spec fn backlog_bound(max_chunk_samples: usize) -> int {
    vstd::math::min(5 * max_chunk_samples as int, usize::MAX as int)
}

/// Drop the oldest backlog samples until at most five maximal chunks
/// remain; the newest samples are kept.
#[verifier::loop_isolation(false)]
pub fn trim_pending_backlog(pending_samples: &mut VecDeque<i16>, max_chunk_samples: usize)
    ensures
        old(pending_samples)@.len() <= backlog_bound(max_chunk_samples) ==> final(pending_samples)@
            == old(pending_samples)@,
        old(pending_samples)@.len() > backlog_bound(max_chunk_samples) ==> final(pending_samples)@
            == old(pending_samples)@.subrange(
            old(pending_samples)@.len() - backlog_bound(max_chunk_samples),
            old(pending_samples)@.len() as int,
        ),
{
    let bound: usize = if max_chunk_samples > usize::MAX / 5 {
        usize::MAX
    } else {
        max_chunk_samples * 5
    };
    let ghost orig = pending_samples@;
    proof {
        assert(orig.subrange(0, orig.len() as int) =~= orig);
    }
    while pending_samples.len() > bound
        invariant
            pending_samples@.len() <= orig.len(),
            pending_samples@ == orig.subrange(
                orig.len() - pending_samples@.len(),
                orig.len() as int,
            ),
            pending_samples@.len() >= bound || pending_samples@ == orig,
        decreases pending_samples@.len(),
    {
        let ghost before = pending_samples@;
        let popped = pending_samples.pop_front();
        proof {
            assert(popped is Some);
            assert(pending_samples@ == before.subrange(1, before.len() as int));
            assert(pending_samples@ =~= orig.subrange(
                orig.len() - pending_samples@.len(),
                orig.len() as int,
            ));
        }
    }
    proof {
        if orig.len() <= backlog_bound(max_chunk_samples) {
            assert(pending_samples@ =~= orig);
        }
    }
}

/// Whether a level-meter event is due: at most one per meter interval.
pub fn should_emit_meter_update(elapsed_ms: u64) -> (r: bool)
    ensures
        r == (elapsed_ms >= 33),
{
    elapsed_ms >= METER_EMIT_INTERVAL_MS
}

} // verus!
