//! The queue of live MIDI events waiting for the audio chunk they fall in.
//!
//! Events are kept in order of the sample they sound at; events at the same sample keep
//! the order they arrived in.
use vstd::prelude::*;

use crate::ipc::FastMidiEvent;

verus! {

/// The most events the queue holds; further events are dropped.
pub const MAX_LIVE_QUEUE_EVENTS: usize = 8192;

/// An event waiting in the queue, at an absolute sample of the live clock.
#[derive(Clone, Copy, Debug, PartialEq, Eq)]
pub struct LiveQueuedEvent {
    pub at_sample: u64,
    pub message: [u8; 3],
}

/// An event handed to the renderer, `offset_frames` into the chunk.
#[derive(Clone, Copy, Debug, PartialEq, Eq)]
pub struct LiveMidiEvent {
    pub offset_frames: u32,
    pub message: [u8; 3],
}

/// The queue is in order of `at_sample`.
pub open spec fn is_sorted(queue: Seq<LiveQueuedEvent>) -> bool {
    forall|i: int, j: int| 0 <= i <= j < queue.len() ==> queue[i].at_sample <= queue[j].at_sample
}

/// How many events at the front of `queue` sound at or before `at`.
pub open spec fn count_at_or_before(queue: Seq<LiveQueuedEvent>, at: u64, from: int) -> int
    decreases queue.len() - from,
{
    if from < 0 || from >= queue.len() || queue[from].at_sample > at {
        0
    } else {
        1 + count_at_or_before(queue, at, from + 1)
    }
}

/// How many events at the front of `queue` sound before `end`.
pub open spec fn count_before(queue: Seq<LiveQueuedEvent>, end: u64, from: int) -> int
    decreases queue.len() - from,
{
    if from < 0 || from >= queue.len() || queue[from].at_sample >= end {
        0
    } else {
        1 + count_before(queue, end, from + 1)
    }
}

pub open spec fn saturating_add_u64(a: u64, b: u64) -> u64 {
    if a + b > u64::MAX {
        u64::MAX
    } else {
        (a + b) as u64
    }
}

pub open spec fn saturating_sub_u64(a: u64, b: u64) -> u64 {
    if a < b {
        0
    } else {
        (a - b) as u64
    }
}

/// Queues `event`, due `offset_frames` after `clock_samples`, behind every event due at
/// or before it; a full queue drops it.
pub fn enqueue_live_event(queue: &mut Vec<LiveQueuedEvent>, clock_samples: u64, event: FastMidiEvent)
    requires
        is_sorted(old(queue)@),
    ensures
        is_sorted(final(queue)@),
        old(queue)@.len() >= MAX_LIVE_QUEUE_EVENTS ==> final(queue)@ == old(queue)@,
        old(queue)@.len() < MAX_LIVE_QUEUE_EVENTS ==> {
            let at = saturating_add_u64(clock_samples, event.offset_frames as u64);
            final(queue)@ == old(queue)@.insert(
                count_at_or_before(old(queue)@, at, 0),
                LiveQueuedEvent { at_sample: at, message: event.message },
            )
        },
{
    if queue.len() >= MAX_LIVE_QUEUE_EVENTS {
        return;
    }
    let at: u64 = clock_samples.saturating_add(event.offset_frames as u64);
    let mut k: usize = 0;
    while k < queue.len() && queue[k].at_sample <= at
        invariant
            0 <= k <= queue@.len(),
            queue@ == old(queue)@,
            count_at_or_before(queue@, at, 0) == k + count_at_or_before(queue@, at, k as int),
            forall|i: int| 0 <= i < k ==> queue@[i].at_sample <= at,
        decreases queue.len() - k,
    {
        k = k + 1;
    }
    let ghost before = queue@;
    queue.insert(k, LiveQueuedEvent { at_sample: at, message: event.message });
    proof {
        assert(count_at_or_before(before, at, k as int) == 0);
        assert forall|i: int, j: int| 0 <= i <= j < queue@.len() implies queue@[i].at_sample
            <= queue@[j].at_sample by {
            if i < k && j > k {
                assert(before[i].at_sample <= at);
            }
        }
    }
}

/// The event handed to the renderer for a queued one, in a chunk starting at
/// `chunk_start` of `buf_size` frames: late events go to the chunk's start, and no
/// event goes past its last frame.
pub open spec fn chunk_event(queued: LiveQueuedEvent, chunk_start: u64, buf_size: u64) -> LiveMidiEvent {
    let offset = saturating_sub_u64(queued.at_sample, chunk_start);
    let last_frame = saturating_sub_u64(buf_size, 1);
    LiveMidiEvent {
        offset_frames: (if offset < last_frame { offset } else { last_frame }) as u32,
        message: queued.message,
    }
}

/// Takes the events due before the end of the chunk off the front of the queue.
pub fn take_chunk_events(queue: &mut Vec<LiveQueuedEvent>, chunk_start: u64, buf_size: u64) -> (events:
    Vec<LiveMidiEvent>)
    requires
        is_sorted(old(queue)@),
    ensures
        ({
            let taken = count_before(old(queue)@, saturating_add_u64(chunk_start, buf_size), 0);
            &&& final(queue)@ == old(queue)@.subrange(taken, old(queue)@.len() as int)
            &&& events@.len() == taken
            &&& forall|i: int|
                0 <= i < taken ==> #[trigger] events@[i] == chunk_event(
                    old(queue)@[i],
                    chunk_start,
                    buf_size,
                )
        }),
        is_sorted(final(queue)@),
{
    let chunk_end: u64 = chunk_start.saturating_add(buf_size);
    let last_frame: u64 = buf_size.saturating_sub(1);
    let mut events: Vec<LiveMidiEvent> = Vec::new();
    let mut k: usize = 0;
    while k < queue.len() && queue[k].at_sample < chunk_end
        invariant
            0 <= k <= queue@.len(),
            queue@ == old(queue)@,
            count_before(queue@, chunk_end, 0) == k + count_before(queue@, chunk_end, k as int),
            events@.len() == k,
            forall|i: int|
                0 <= i < k ==> #[trigger] events@[i] == chunk_event(queue@[i], chunk_start, buf_size),
            last_frame == saturating_sub_u64(buf_size, 1),
        decreases queue.len() - k,
    {
        let queued = queue[k];
        let offset = queued.at_sample.saturating_sub(chunk_start);
        let clamped = if offset < last_frame {
            offset
        } else {
            last_frame
        };
        events.push(LiveMidiEvent { offset_frames: clamped as u32, message: queued.message });
        k = k + 1;
    }
    let mut rest: Vec<LiveQueuedEvent> = Vec::new();
    let mut j: usize = k;
    while j < queue.len()
        invariant
            k <= j <= queue@.len(),
            queue@ == old(queue)@,
            rest@ == queue@.subrange(k as int, j as int),
        decreases queue.len() - j,
    {
        rest.push(queue[j]);
        j = j + 1;
    }
    *queue = rest;
    events
}

} // verus!
