//! The server side of the shared ring: it creates the ring, keeps its heartbeat, takes
//! commands off the queue and publishes answers, standby completions and meters.
//!
//! Waiting for a command or an answer with a timeout is left to the caller, which polls
//! these functions; the operating system's mapping is not available on this platform.
use vstd::prelude::*;

use crate::ipc::{FastIpcError, FastMidiCommand};
use crate::ring::SharedRing;
use crate::wire::{CommandView, IpcErrorView};

verus! {

/// The server end of one ring.
pub struct FastMidiServer {
    /// The process that serves the ring.
    pub pid: u32,
}

impl FastMidiServer {
    /// Creates the mapping for `port`. The operating system's shared memory is not
    /// available on this platform.
    pub fn create(port: u16) -> (result: Result<FastMidiServer, FastIpcError>)
        ensures
            result matches Err(e) && e == FastIpcError::UnsupportedPlatform,
    {
        Err(FastIpcError::UnsupportedPlatform)
    }

    /// Creates a fresh ring served by `pid`, its heartbeat taken at `now_ms`.
    pub fn create_ring(pid: u32, now_ms: u64) -> (created: (FastMidiServer, SharedRing))
        ensures
            created.0.pid == pid,
            created.1.wf(),
            created.1.layout_matches(),
            created.1.server_pid == pid,
            created.1.client_pid == 0,
            created.1.heartbeat_ms == now_ms,
            created.1.pending().len() == 0,
            created.1.response_sequence == 0,
            created.1.standby_sequence == 0,
            created.1.underrun_frames == 0,
            forall|i: int|
                0 <= i < crate::ipc::INSTANCE_COUNT ==> #[trigger] created.1.auto_gain_db_bits@[i]
                    == 0,
            created.1.limiter_current_bits == 0 && created.1.limiter_peak_bits == 0,
            created.1.timing == crate::ring::TimingMetrics::spec_zeroed(),
    {
        (FastMidiServer { pid }, SharedRing::new(pid, now_ms))
    }

    /// Tells clients the server is alive.
    pub fn touch_heartbeat(&self, ring: &mut SharedRing, now_ms: u64)
        ensures
            *final(ring) == (SharedRing { heartbeat_ms: now_ms, ..*old(ring) }),
    {
        ring.heartbeat_ms = now_ms;
    }

    /// Stamps the heartbeat, then takes the oldest queued command: `None` when the
    /// queue is empty, an error when the ring is of another layout or the slot does
    /// not decode (the slot is consumed all the same).
    pub fn recv(&mut self, ring: &mut SharedRing, now_ms: u64) -> (result: Result<
        Option<FastMidiCommand>,
        FastIpcError,
    >)
        requires
            old(ring).wf(),
        ensures
            final(ring).wf(),
            final(ring).heartbeat_ms == now_ms,
            !old(ring).layout_matches() ==> (result matches Err(e) && e
                == FastIpcError::ProtocolMismatch) && *final(ring) == (SharedRing {
                heartbeat_ms: now_ms,
                ..*old(ring)
            }),
            old(ring).layout_matches() ==> {
                &&& final(ring).same_but_queue(&SharedRing { heartbeat_ms: now_ms, ..*old(ring) })
                &&& final(ring).slots == old(ring).slots
                &&& final(ring).write_index == old(ring).write_index
                &&& old(ring).queue_len() == 0 ==> result == Ok::<
                    Option<FastMidiCommand>,
                    FastIpcError,
                >(None) && *final(ring) == (SharedRing { heartbeat_ms: now_ms, ..*old(ring) })
                &&& old(ring).queue_len() > 0 ==> {
                    &&& crate::wire::decoded_view(result) == crate::wire::option_ok(
                        crate::wire::spec_decode_slot(old(ring).pending()[0]),
                    )
                    &&& old(ring).queue_len() <= crate::ring::SLOT_COUNT ==> final(ring).pending()
                        == old(ring).pending().drop_first()
                }
            },
    {
        ring.heartbeat_ms = now_ms;
        if let Err(e) = ring.validate() {
            return Err(e);
        }
        ring.dequeue()
    }

    /// Answers a patch request: the payload, or an error message that the client reads
    /// as `RequestFailed`. Refused when the answer does not fit the response slot.
    pub fn complete_request(&self, ring: &mut SharedRing, request_id: u32, result: Result<&[u8], &str>) -> (outcome:
        Result<(), FastIpcError>)
        requires
            old(ring).wf(),
        ensures
            final(ring).wf(),
            ({
                let bytes = match result {
                    Ok(p) => p@,
                    Err(m) => vstd::utf8::encode_utf8(m@),
                };
                if bytes.len() > crate::ipc::MAX_RESPONSE_BYTES {
                    &&& outcome == Err::<(), FastIpcError>(
                        FastIpcError::ResponseTooLong {
                            bytes: bytes.len() as usize,
                            max: crate::ipc::MAX_RESPONSE_BYTES,
                        },
                    )
                    &&& *final(ring) == *old(ring)
                } else {
                    &&& outcome is Ok
                    &&& final(ring).response_sequence == vstd::wrapping::u32_specs::wrapping_add(
                        old(ring).response_sequence,
                        1,
                    )
                    &&& final(ring).response_sequence != 0 ==> crate::ring::spec_read_response(
                        *final(ring),
                        request_id,
                        final(ring).response_sequence,
                    ) == Ok::<Option<Result<Seq<u8>, IpcErrorView>>, IpcErrorView>(
                        Some(crate::ring::answered(crate::ring::completion_view(result))),
                    )
                }
            }),
            *final(ring) == (SharedRing {
                response: final(ring).response,
                response_sequence: final(ring).response_sequence,
                ..*old(ring)
            }),
    {
        ring.write_response(request_id, result)
    }

    /// Publishes the outcome of a standby load and returns the sequence it carries.
    pub fn publish_standby_completion(&self, ring: &mut SharedRing, request_id: u32, result: Result<
        (),
        &str,
    >) -> (published: Result<u64, FastIpcError>)
        requires
            old(ring).wf(),
        ensures
            final(ring).wf(),
            published == Ok::<u64, FastIpcError>(final(ring).standby_sequence),
            final(ring).standby.request_id == request_id,
            final(ring).standby_sequence == vstd::wrapping::u64_specs::wrapping_add(
                vstd::wrapping::u64_specs::wrapping_add(old(ring).standby_sequence, 1),
                1,
            ),
            forall|since: u64|
                final(ring).standby_sequence % 2 == 0 && since < final(ring).standby_sequence
                    ==> #[trigger] crate::ring::spec_read_standby(*final(ring), request_id, since)
                    == Some(crate::ring::published_outcome(result)),
            final(ring).same_but_standby(old(ring)),
    {
        let sequence = ring.publish_standby(request_id, result);
        Ok(sequence)
    }

    /// Publishes how many frames the output has fallen short by.
    pub fn publish_underrun_frames(&self, ring: &mut SharedRing, frames: u64)
        ensures
            *final(ring) == (SharedRing { underrun_frames: frames, ..*old(ring) }),
    {
        ring.publish_underrun_frames(frames);
    }

    /// Publishes the limiter meter as `f32` bit patterns: the reduction now, and the
    /// highest one since the client last read the meter.
    pub fn publish_limiter_meter(&self, ring: &mut SharedRing, current_bits: u32, peak_bits: u32)
        ensures
            *final(ring) == (SharedRing {
                limiter_current_bits: current_bits,
                limiter_peak_bits: peak_bits,
                ..*old(ring)
            }),
    {
        ring.publish_limiter_meter(current_bits, peak_bits);
    }

    /// Publishes what the last closed timing window measured.
    pub fn publish_timing_metrics(&self, ring: &mut SharedRing, metrics: crate::ring::TimingMetrics)
        ensures
            *final(ring) == (SharedRing { timing: metrics, ..*old(ring) }),
    {
        ring.publish_timing_metrics(metrics);
    }

    /// Publishes the automatic gain of the first instances as `f32` bit patterns; the
    /// instances past them read 0 dB again.
    pub fn publish_auto_gain_db_bits(&self, ring: &mut SharedRing, bits: &[u32])
        requires
            old(ring).wf(),
        ensures
            final(ring).wf(),
            forall|i: int|
                0 <= i < crate::ipc::INSTANCE_COUNT ==> #[trigger] final(ring).auto_gain_db_bits@[i]
                    == (if i < bits@.len() {
                    bits@[i]
                } else {
                    0u32
                }),
            *final(ring) == (SharedRing { auto_gain_db_bits: final(ring).auto_gain_db_bits, ..*old(ring) }),
    {
        ring.publish_auto_gain_db_bits(bits);
    }
}

} // verus!
