//! The shared ring between one client and the play server: the command queue, the
//! response slot for patch requests, the standby completion slot and the meters.
//!
//! Both processes see the same bytes; here the ring is a plain value that the client
//! and the server are handed in turn. Every index and length in it is read back as
//! untrusted data.
use vstd::prelude::*;

use crate::ipc::{FastIpcError, INSTANCE_COUNT, MAX_RESPONSE_BYTES, MAX_STANDBY_ERROR_BYTES};
use crate::text::utf8_lossy;
use crate::wire::{CommandSlot, IpcErrorView};
use vstd::utf8::{decode_utf8, encode_utf8, is_char_boundary, valid_utf8};

verus! {

broadcast use {vstd::utf8::encode_utf8_valid_utf8, vstd::utf8::encode_utf8_decode_utf8};

/// Identifies a mapping laid out by this protocol.
pub const MAGIC: u32 = 0x434d_5254;

/// Layout version of the mapping.
pub const VERSION: u32 = 10;

/// Command slots in the ring; a power of two, so that the 32-bit indices may wrap.
pub const SLOT_COUNT: usize = 256;

/// After this many milliseconds without a heartbeat the server counts as stopped.
pub const SERVER_STALE_MS: u64 = 5000;

pub const RESPONSE_OK: u32 = 1;

pub const RESPONSE_ERROR: u32 = 2;

pub const STANDBY_STATUS_SUCCESS: u32 = 1;

pub const STANDBY_STATUS_ERROR: u32 = 2;

/// The answer to the last patch request that the server accepted or refused.
pub struct ResponseSlot {
    pub request_id: u32,
    pub status: u32,
    pub payload_len: u32,
    pub payload: Vec<u8>,
}

/// The outcome of the last standby load, guarded by `standby_sequence`.
pub struct StandbyCompletionSlot {
    pub request_id: u32,
    pub status: u32,
    pub payload_len: u32,
    pub payload: Vec<u8>,
}

/// The whole shared mapping.
pub struct SharedRing {
    pub magic: u32,
    pub version: u32,
    pub server_pid: u32,
    /// The process that holds the client side; 0 when nobody does.
    pub client_pid: u32,
    pub heartbeat_ms: u64,
    /// Commands written so far, wrapping.
    pub write_index: u32,
    /// Commands read so far, wrapping.
    pub read_index: u32,
    pub slots: Vec<CommandSlot>,
    /// Bumped (wrapping) after each response is written.
    pub response_sequence: u32,
    pub response: ResponseSlot,
    /// Seqlock of the standby slot: odd while a completion is being written.
    pub standby_sequence: u64,
    pub standby: StandbyCompletionSlot,
    pub underrun_frames: u64,
    /// `f32` bit patterns of the automatic gain of each instance, in dB.
    pub auto_gain_db_bits: Vec<u32>,
    /// `f32` bit pattern of the limiter's gain reduction now, in dB.
    pub limiter_current_bits: u32,
    /// `f32` bit pattern of the highest gain reduction since the client last read it.
    pub limiter_peak_bits: u32,
    /// What the last closed timing window measured.
    pub timing: TimingMetrics,
}

/// What one live timing window measured; float values travel as bit patterns.
#[derive(Clone, Copy, Debug, PartialEq, Eq, Structural)]
pub struct TimingMetrics {
    pub events: u64,
    pub late_events: u64,
    pub late_events_total: u64,
    pub max_late_samples: u64,
    /// `f64` bit pattern of the latest event's lateness in microseconds.
    pub max_late_us_bits: u64,
    pub output_lead_min_frames: u64,
    pub output_lead_max_frames: u64,
    /// `f32` bit pattern of the 95th percentile of the render load, in percent.
    pub process_load_p95_bits: u32,
    /// `f32` bit pattern of the highest render load, in percent.
    pub process_load_max_bits: u32,
}

impl TimingMetrics {
    /// Nothing measured yet: every field zero.
    pub fn zeroed() -> (metrics: TimingMetrics)
        ensures
            metrics == TimingMetrics::spec_zeroed(),
    {
        TimingMetrics {
            events: 0,
            late_events: 0,
            late_events_total: 0,
            max_late_samples: 0,
            max_late_us_bits: 0,
            output_lead_min_frames: 0,
            output_lead_max_frames: 0,
            process_load_p95_bits: 0,
            process_load_max_bits: 0,
        }
    }

    pub open spec fn spec_zeroed() -> TimingMetrics {
        TimingMetrics {
            events: 0,
            late_events: 0,
            late_events_total: 0,
            max_late_samples: 0,
            max_late_us_bits: 0,
            output_lead_min_frames: 0,
            output_lead_max_frames: 0,
            process_load_p95_bits: 0,
            process_load_max_bits: 0,
        }
    }
}

impl SharedRing {
    /// The arrays have their fixed lengths.
    pub open spec fn wf(&self) -> bool {
        &&& self.slots@.len() == SLOT_COUNT
        &&& forall|i: int| 0 <= i < SLOT_COUNT ==> #[trigger] self.slots@[i].wf()
        &&& self.response.payload@.len() == MAX_RESPONSE_BYTES
        &&& self.standby.payload@.len() == MAX_STANDBY_ERROR_BYTES
        &&& self.auto_gain_db_bits@.len() == INSTANCE_COUNT
    }

    /// The header names this layout.
    pub open spec fn layout_matches(&self) -> bool {
        self.magic == MAGIC && self.version == VERSION
    }

    /// Commands written and not yet read (the indices wrap at 2^32).
    pub open spec fn queue_len(&self) -> int {
        if self.write_index >= self.read_index {
            self.write_index - self.read_index
        } else {
            self.write_index - self.read_index + 0x1_0000_0000
        }
    }

    /// The slot that holds the `k`-th queued command.
    pub open spec fn position(&self, k: int) -> int {
        (self.read_index + k) % (SLOT_COUNT as int)
    }

    /// The queued commands, oldest first.
    pub open spec fn pending(&self) -> Seq<CommandSlot> {
        Seq::new(self.queue_len() as nat, |k: int| self.slots@[self.position(k)])
    }

    /// Everything but the command queue is the same in `self` and `other`.
    pub open spec fn same_but_queue(&self, other: &SharedRing) -> bool {
        &&& self.magic == other.magic
        &&& self.version == other.version
        &&& self.server_pid == other.server_pid
        &&& self.client_pid == other.client_pid
        &&& self.heartbeat_ms == other.heartbeat_ms
        &&& self.response_sequence == other.response_sequence
        &&& self.response == other.response
        &&& self.standby_sequence == other.standby_sequence
        &&& self.standby == other.standby
        &&& self.underrun_frames == other.underrun_frames
        &&& self.auto_gain_db_bits == other.auto_gain_db_bits
        &&& self.limiter_current_bits == other.limiter_current_bits
        &&& self.limiter_peak_bits == other.limiter_peak_bits
        &&& self.timing == other.timing
    }

    /// A freshly created mapping: zeroed, then stamped with the server's header.
    pub fn new(server_pid: u32, now_ms: u64) -> (ring: SharedRing)
        ensures
            ring.wf(),
            ring.layout_matches(),
            ring.server_pid == server_pid,
            ring.client_pid == 0,
            ring.heartbeat_ms == now_ms,
            ring.write_index == 0 && ring.read_index == 0,
            ring.pending().len() == 0,
            ring.response_sequence == 0,
            ring.standby_sequence == 0,
            ring.underrun_frames == 0,
            ring.limiter_current_bits == 0 && ring.limiter_peak_bits == 0,
            ring.timing == TimingMetrics::spec_zeroed(),
            forall|i: int| 0 <= i < INSTANCE_COUNT ==> #[trigger] ring.auto_gain_db_bits@[i] == 0,
    {
        let mut slots: Vec<CommandSlot> = Vec::new();
        while slots.len() < SLOT_COUNT
            invariant
                slots@.len() <= SLOT_COUNT,
                forall|i: int| 0 <= i < slots@.len() ==> #[trigger] slots@[i].wf(),
            decreases SLOT_COUNT - slots@.len(),
        {
            slots.push(CommandSlot::zeroed());
        }
        SharedRing {
            magic: MAGIC,
            version: VERSION,
            server_pid,
            client_pid: 0,
            heartbeat_ms: now_ms,
            write_index: 0,
            read_index: 0,
            slots,
            response_sequence: 0,
            response: ResponseSlot {
                request_id: 0,
                status: 0,
                payload_len: 0,
                payload: zero_bytes(MAX_RESPONSE_BYTES),
            },
            standby_sequence: 0,
            standby: StandbyCompletionSlot {
                request_id: 0,
                status: 0,
                payload_len: 0,
                payload: zero_bytes(MAX_STANDBY_ERROR_BYTES),
            },
            underrun_frames: 0,
            auto_gain_db_bits: zero_words(INSTANCE_COUNT),
            limiter_current_bits: 0,
            limiter_peak_bits: 0,
            timing: TimingMetrics::zeroed(),
        }
    }

    /// Checks the header before anything else is read.
    pub fn validate(&self) -> (result: Result<(), FastIpcError>)
        ensures
            result is Ok <==> self.layout_matches(),
            result is Err ==> result == Err::<(), FastIpcError>(FastIpcError::ProtocolMismatch),
    {
        if self.magic != MAGIC || self.version != VERSION {
            return Err(FastIpcError::ProtocolMismatch);
        }
        Ok(())
    }

    /// Appends a command unless the ring is full.
    pub fn enqueue(&mut self, slot: CommandSlot) -> (result: Result<(), FastIpcError>)
        requires
            old(self).wf(),
            slot.wf(),
        ensures
            final(self).wf(),
            final(self).same_but_queue(old(self)),
            final(self).read_index == old(self).read_index,
            old(self).queue_len() >= SLOT_COUNT ==> result == Err::<(), FastIpcError>(
                FastIpcError::QueueFull,
            ) && *final(self) == *old(self),
            old(self).queue_len() < SLOT_COUNT ==> result is Ok && final(self).pending()
                == old(self).pending().push(slot),
    {
        let write = self.write_index;
        let read = self.read_index;
        if write.wrapping_sub(read) as usize >= SLOT_COUNT {
            return Err(FastIpcError::QueueFull);
        }
        let index = (write as usize) % SLOT_COUNT;
        let ghost before = *self;
        proof {
            lemma_wrapped_position(read, write, before.queue_len());
        }
        self.slots.set(index, slot);
        self.write_index = write.wrapping_add(1);
        proof {
            let len = before.queue_len();
            assert(self.queue_len() == len + 1);
            assert forall|k: int| 0 <= k < len implies #[trigger] self.position(k) != index by {
                lemma_distinct_positions(read, k, len);
            }
            assert(self.pending() =~= before.pending().push(slot));
        }
        Ok(())
    }

    /// Takes the oldest command off the queue and decodes it; `None` when the queue is
    /// empty. A slot that does not decode is consumed all the same.
    pub fn dequeue(&mut self) -> (result: Result<
        Option<crate::ipc::FastMidiCommand>,
        FastIpcError,
    >)
        requires
            old(self).wf(),
        ensures
            final(self).wf(),
            final(self).same_but_queue(old(self)),
            final(self).slots == old(self).slots,
            final(self).write_index == old(self).write_index,
            old(self).queue_len() == 0 ==> result == Ok::<
                Option<crate::ipc::FastMidiCommand>,
                FastIpcError,
            >(None) && *final(self) == *old(self),
            old(self).queue_len() > 0 ==> {
                &&& final(self).read_index == vstd::wrapping::u32_specs::wrapping_add(
                    old(self).read_index,
                    1,
                )
                &&& crate::wire::decoded_view(result) == crate::wire::option_ok(
                    crate::wire::spec_decode_slot(old(self).pending()[0]),
                )
                &&& old(self).queue_len() <= SLOT_COUNT ==> final(self).pending()
                    == old(self).pending().drop_first()
            },
    {
        let read = self.read_index;
        let write = self.write_index;
        if read == write {
            return Ok(None);
        }
        let index = (read as usize) % SLOT_COUNT;
        let ghost before = *self;
        let decoded = crate::wire::decode_slot(&self.slots[index]);
        self.read_index = read.wrapping_add(1);
        proof {
            let len = before.queue_len();
            assert(self.queue_len() == len - 1);
            assert forall|k: int| 0 <= k < len - 1 implies #[trigger] self.position(k)
                == before.position(k + 1) by {
                lemma_next_position(read, k);
            }
            if len <= SLOT_COUNT {
                assert(self.pending() =~= before.pending().drop_first());
            }
        }
        match decoded {
            Ok(command) => Ok(Some(command)),
            Err(e) => Err(e),
        }
    }
}

/// The slot of the next write is the one after the queued commands, though the
/// indices wrap at 2^32.
proof fn lemma_wrapped_position(read: u32, write: u32, len: int)
    requires
        len == (if write >= read {
            write - read
        } else {
            write - read + 0x1_0000_0000
        }),
    ensures
        (write as int) % (SLOT_COUNT as int) == (read + len) % (SLOT_COUNT as int),
{
    if write < read {
        assert((read + len) == write + 0x1_0000_0000);
        assert(((write as int) + 0x1_0000_0000) % 256 == (write as int) % 256) by {
            vstd::arithmetic::div_mod::lemma_mod_multiples_vanish(0x100_0000, write as int, 256);
        }
    }
}

/// Two queued commands less than a ring apart sit in different slots.
proof fn lemma_distinct_positions(read: u32, k: int, len: int)
    requires
        0 <= k < len,
        len < SLOT_COUNT,
    ensures
        (read + k) % (SLOT_COUNT as int) != (read + len) % (SLOT_COUNT as int),
{
    let a = read + k;
    let b = read + len;
    if a % 256 == b % 256 {
        vstd::arithmetic::div_mod::lemma_fundamental_div_mod(a, 256);
        vstd::arithmetic::div_mod::lemma_fundamental_div_mod(b, 256);
        assert(b - a == 256 * (b / 256) - 256 * (a / 256));
        assert(b - a == 256 * (b / 256 - a / 256)) by (nonlinear_arith)
            requires
                b - a == 256 * (b / 256) - 256 * (a / 256),
        ;
        assert(false) by (nonlinear_arith)
            requires
                b - a == 256 * (b / 256 - a / 256),
                0 < b - a < 256,
        ;
    }
}

/// After a read the next command is one slot further on, wrapping included.
proof fn lemma_next_position(read: u32, k: int)
    requires
        0 <= k,
    ensures
        (vstd::wrapping::u32_specs::wrapping_add(read, 1) + k) % (SLOT_COUNT as int) == (read + (k
            + 1)) % (SLOT_COUNT as int),
{
    if read == 0xffff_ffff {
        assert(vstd::wrapping::u32_specs::wrapping_add(read, 1) == 0);
        assert((0 + k) % 256 == (read + (k + 1)) % 256) by {
            vstd::arithmetic::div_mod::lemma_mod_multiples_vanish(0x100_0000, k, 256);
        }
    }
}

fn zero_bytes(n: usize) -> (bytes: Vec<u8>)
    ensures
        bytes@.len() == n,
        forall|i: int| 0 <= i < n ==> #[trigger] bytes@[i] == 0,
{
    let mut bytes: Vec<u8> = Vec::new();
    while bytes.len() < n
        invariant
            bytes@.len() <= n,
            forall|i: int| 0 <= i < bytes@.len() ==> #[trigger] bytes@[i] == 0,
        decreases n - bytes@.len(),
    {
        bytes.push(0);
    }
    bytes
}

fn zero_words(n: usize) -> (words: Vec<u32>)
    ensures
        words@.len() == n,
        forall|i: int| 0 <= i < n ==> #[trigger] words@[i] == 0,
{
    let mut words: Vec<u32> = Vec::new();
    while words.len() < n
        invariant
            words@.len() <= n,
            forall|i: int| 0 <= i < words@.len() ==> #[trigger] words@[i] == 0,
        decreases n - words@.len(),
    {
        words.push(0);
    }
    words
}

// ---------------------------------------------------------------------------
// Copying bytes into a fixed-size area.
// ---------------------------------------------------------------------------

/// Writes `src` over the front of `dest`.
pub(crate) fn copy_front(dest: &mut Vec<u8>, src: &[u8])
    requires
        src@.len() <= old(dest)@.len(),
    ensures
        final(dest)@.len() == old(dest)@.len(),
        final(dest)@.subrange(0, src@.len() as int) == src@,
{
    let mut i: usize = 0;
    while i < src.len()
        invariant
            0 <= i <= src@.len(),
            src@.len() <= dest@.len(),
            dest@.len() == old(dest)@.len(),
            forall|j: int| 0 <= j < i ==> #[trigger] dest@[j] == src@[j],
        decreases src.len() - i,
    {
        dest.set(i, src[i]);
        i = i + 1;
    }
    assert(dest@.subrange(0, src@.len() as int) =~= src@);
}

// ---------------------------------------------------------------------------
// The response slot.
// ---------------------------------------------------------------------------

/// What a client waiting for `request_id` makes of the response slot, after it saw
/// the response counter at `sequence`: `None` while there is no answer for it.
pub open spec fn spec_read_response(ring: SharedRing, request_id: u32, sequence: u32) -> Result<
    Option<Result<Seq<u8>, IpcErrorView>>,
    IpcErrorView,
> {
    let response = ring.response;
    if sequence == 0 || response.request_id != request_id {
        Ok(None)
    } else if response.payload_len > MAX_RESPONSE_BYTES {
        Err(IpcErrorView::InvalidPayload("response payload length is invalid"@))
    } else {
        let payload = response.payload@.subrange(0, response.payload_len as int);
        if response.status == RESPONSE_OK {
            Ok(Some(Ok(payload)))
        } else if response.status == RESPONSE_ERROR {
            Ok(Some(Err(IpcErrorView::RequestFailed(crate::text::lossy_text(payload)))))
        } else {
            Err(IpcErrorView::InvalidPayload("response status is invalid"@))
        }
    }
}

pub open spec fn response_view(r: Result<Option<Result<Vec<u8>, FastIpcError>>, FastIpcError>) -> Result<
    Option<Result<Seq<u8>, IpcErrorView>>,
    IpcErrorView,
> {
    match r {
        Ok(Some(Ok(payload))) => Ok(Some(Ok(payload@))),
        Ok(Some(Err(e))) => Ok(Some(Err(e@))),
        Ok(None) => Ok(None),
        Err(e) => Err(e@),
    }
}

/// The answer a completed request is read back as.
pub open spec fn answered(result: Result<Seq<u8>, Seq<char>>) -> Result<Seq<u8>, IpcErrorView> {
    match result {
        Ok(payload) => Ok(payload),
        Err(message) => Err(IpcErrorView::RequestFailed(message)),
    }
}

pub open spec fn completion_view(result: Result<&[u8], &str>) -> Result<Seq<u8>, Seq<char>> {
    match result {
        Ok(payload) => Ok(payload@),
        Err(message) => Err(message@),
    }
}

impl SharedRing {
    /// Reads the answer to `request_id`, if the response slot holds it.
    pub fn read_response(&self, request_id: u32, sequence: u32) -> (result: Result<
        Option<Result<Vec<u8>, FastIpcError>>,
        FastIpcError,
    >)
        requires
            self.wf(),
        ensures
            response_view(result) == spec_read_response(*self, request_id, sequence),
    {
        if sequence == 0 || self.response.request_id != request_id {
            return Ok(None);
        }
        let len = self.response.payload_len as usize;
        if len > MAX_RESPONSE_BYTES {
            return Err(
                FastIpcError::InvalidPayload(crate::text::owned("response payload length is invalid")),
            );
        }
        let payload = crate::text::sub_bytes(self.response.payload.as_slice(), 0, len);
        if self.response.status == RESPONSE_OK {
            Ok(Some(Ok(payload)))
        } else if self.response.status == RESPONSE_ERROR {
            let text = utf8_lossy(payload.as_slice());
            Ok(Some(Err(FastIpcError::RequestFailed(text))))
        } else {
            Err(FastIpcError::InvalidPayload(crate::text::owned("response status is invalid")))
        }
    }

    /// Writes the answer to `request_id` and bumps the response counter.
    pub fn write_response(&mut self, request_id: u32, result: Result<&[u8], &str>) -> (outcome: Result<
        (),
        FastIpcError,
    >)
        requires
            old(self).wf(),
        ensures
            final(self).wf(),
            ({
                let bytes = match result {
                    Ok(p) => p@,
                    Err(m) => encode_utf8(m@),
                };
                if bytes.len() > MAX_RESPONSE_BYTES {
                    &&& outcome == Err::<(), FastIpcError>(
                        FastIpcError::ResponseTooLong {
                            bytes: bytes.len() as usize,
                            max: MAX_RESPONSE_BYTES,
                        },
                    )
                    &&& *final(self) == *old(self)
                } else {
                    &&& outcome is Ok
                    &&& final(self).response.request_id == request_id
                    &&& final(self).response.status == (if result is Ok {
                        RESPONSE_OK
                    } else {
                        RESPONSE_ERROR
                    })
                    &&& final(self).response.payload_len == bytes.len()
                    &&& final(self).response_sequence == vstd::wrapping::u32_specs::wrapping_add(
                        old(self).response_sequence,
                        1,
                    )
                    &&& final(self).response_sequence != 0 ==> spec_read_response(
                        *final(self),
                        request_id,
                        final(self).response_sequence,
                    ) == Ok::<Option<Result<Seq<u8>, IpcErrorView>>, IpcErrorView>(
                        Some(answered(completion_view(result))),
                    )
                }
            }),
            *final(self) == (SharedRing {
                response: final(self).response,
                response_sequence: final(self).response_sequence,
                ..*old(self)
            }),
    {
        let is_ok = result.is_ok();
        let payload: &[u8] = match result {
            Ok(p) => p,
            Err(m) => m.as_bytes(),
        };
        if payload.len() > MAX_RESPONSE_BYTES {
            return Err(FastIpcError::ResponseTooLong { bytes: payload.len(), max: MAX_RESPONSE_BYTES });
        }
        self.response.request_id = request_id;
        self.response.status = if is_ok {
            RESPONSE_OK
        } else {
            RESPONSE_ERROR
        };
        self.response.payload_len = payload.len() as u32;
        copy_front(&mut self.response.payload, payload);
        self.response_sequence = self.response_sequence.wrapping_add(1);
        Ok(())
    }
}

// ---------------------------------------------------------------------------
// The standby completion slot.
// ---------------------------------------------------------------------------

/// The last index at or below `at` where a character of `bytes` starts.
pub open spec fn last_boundary(bytes: Seq<u8>, at: int) -> int
    decreases at,
{
    if at <= 0 {
        0
    } else if is_char_boundary(bytes, at) {
        at
    } else {
        last_boundary(bytes, at - 1)
    }
}

/// How many bytes of `bytes` survive a cut to `max` bytes on a character boundary.
pub open spec fn truncation_len(bytes: Seq<u8>, max: int) -> int {
    if bytes.len() <= max {
        bytes.len() as int
    } else {
        last_boundary(bytes, max)
    }
}

proof fn lemma_last_boundary(bytes: Seq<u8>, at: int)
    requires
        valid_utf8(bytes),
        at <= bytes.len(),
    ensures
        0 <= last_boundary(bytes, at) <= (if at < 0 { 0 } else { at }),
        is_char_boundary(bytes, last_boundary(bytes, at)),
        forall|e: int| last_boundary(bytes, at) < e <= at ==> !is_char_boundary(bytes, e),
    decreases at,
{
    if at > 0 && !is_char_boundary(bytes, at) {
        lemma_last_boundary(bytes, at - 1);
    }
}

proof fn lemma_truncation_len(bytes: Seq<u8>, max: int)
    requires
        valid_utf8(bytes),
        0 <= max,
    ensures
        0 <= truncation_len(bytes, max) <= max,
        truncation_len(bytes, max) <= bytes.len(),
{
    if bytes.len() > max {
        lemma_last_boundary(bytes, max);
    }
}

/// Cuts `message` to at most `max_bytes` bytes, on a character boundary.
pub fn truncate_utf8(message: &str, max_bytes: usize) -> (cut: &str)
    ensures
        encode_utf8(cut@) == encode_utf8(message@).subrange(
            0,
            truncation_len(encode_utf8(message@), max_bytes as int),
        ),
        encode_utf8(cut@).len() <= max_bytes,
{
    let ghost bytes = encode_utf8(message@);
    let raw = message.as_bytes();
    if raw.len() <= max_bytes {
        assert(bytes.len() <= max_bytes);
        assert(bytes.subrange(0, bytes.len() as int) =~= bytes);
        return message;
    }
    let mut end = max_bytes;
    proof {
        lemma_last_boundary(bytes, max_bytes as int);
    }
    while end > 0 && !message.is_char_boundary(end)
        invariant
            end <= max_bytes < bytes.len(),
            bytes == encode_utf8(message@),
            last_boundary(bytes, end as int) == last_boundary(bytes, max_bytes as int),
        decreases end,
    {
        end = end - 1;
    }
    proof {
        lemma_last_boundary(bytes, max_bytes as int);
        vstd::utf8::valid_utf8_split(bytes, end as int);
    }
    let (cut, _rest) = message.split_at(end);
    cut
}

/// The sequence a new standby request is measured against: the current one, rounded
/// up to even, so that a publish already under way counts as past.
pub open spec fn standby_watermark_of(sequence: u64) -> u64 {
    if sequence % 2 == 0 {
        sequence
    } else {
        vstd::wrapping::u64_specs::wrapping_add(sequence, 1)
    }
}

/// What a completion body says, once it was read whole.
pub open spec fn spec_standby_outcome(slot: StandbyCompletionSlot) -> Result<(), IpcErrorView> {
    if slot.payload_len > MAX_STANDBY_ERROR_BYTES {
        Err(IpcErrorView::InvalidPayload("standby completion payload length is invalid"@))
    } else if slot.status == STANDBY_STATUS_SUCCESS {
        Ok(())
    } else if slot.status == STANDBY_STATUS_ERROR {
        Err(
            IpcErrorView::RequestFailed(
                crate::text::lossy_text(slot.payload@.subrange(0, slot.payload_len as int)),
            ),
        )
    } else {
        Err(IpcErrorView::InvalidPayload("standby completion status is invalid"@))
    }
}

/// The completion of `request_id` published after `since`, if the slot holds one and
/// is not being written.
pub open spec fn spec_read_standby(ring: SharedRing, request_id: u32, since: u64) -> Option<
    Result<(), IpcErrorView>,
> {
    let sequence = ring.standby_sequence;
    if sequence % 2 == 1 || sequence == 0 || sequence <= since || ring.standby.request_id
        != request_id {
        None
    } else {
        Some(spec_standby_outcome(ring.standby))
    }
}

pub open spec fn standby_view(r: Option<Result<(), FastIpcError>>) -> Option<Result<(), IpcErrorView>> {
    match r {
        Some(Ok(())) => Some(Ok(())),
        Some(Err(e)) => Some(Err(e@)),
        None => None,
    }
}

/// The message a failed load is read back as, cut to the slot.
pub open spec fn published_message(message: Seq<char>) -> Seq<char> {
    let bytes = encode_utf8(message);
    decode_utf8(bytes.subrange(0, truncation_len(bytes, MAX_STANDBY_ERROR_BYTES as int)))
}

pub open spec fn published_outcome(result: Result<(), &str>) -> Result<(), IpcErrorView> {
    match result {
        Ok(()) => Ok(()),
        Err(message) => Err(IpcErrorView::RequestFailed(published_message(message@))),
    }
}

impl SharedRing {
    /// See [`standby_watermark_of`].
    pub fn standby_watermark(&self) -> (watermark: u64)
        ensures
            watermark == standby_watermark_of(self.standby_sequence),
    {
        let sequence = self.standby_sequence;
        if sequence % 2 == 0 {
            sequence
        } else {
            sequence.wrapping_add(1)
        }
    }

    /// Writes the outcome of a standby load under the seqlock and returns the
    /// sequence it was published at. A message longer than the slot is cut on a
    /// character boundary rather than refused, so that a waiting client always hears.
    pub fn publish_standby(&mut self, request_id: u32, result: Result<(), &str>) -> (sequence: u64)
        requires
            old(self).wf(),
        ensures
            final(self).wf(),
            sequence == final(self).standby_sequence,
            sequence == vstd::wrapping::u64_specs::wrapping_add(
                vstd::wrapping::u64_specs::wrapping_add(old(self).standby_sequence, 1),
                1,
            ),
            final(self).standby.request_id == request_id,
            final(self).standby.status == (if result is Ok {
                STANDBY_STATUS_SUCCESS
            } else {
                STANDBY_STATUS_ERROR
            }),
            final(self).standby.payload_len <= MAX_STANDBY_ERROR_BYTES,
            forall|since: u64|
                sequence % 2 == 0 && since < sequence ==> #[trigger] spec_read_standby(
                    *final(self),
                    request_id,
                    since,
                ) == Some(published_outcome(result)),
            final(self).same_but_standby(old(self)),
    {
        let message: &str = match result {
            Ok(()) => "",
            Err(m) => m,
        };
        let status = if result.is_ok() {
            STANDBY_STATUS_SUCCESS
        } else {
            STANDBY_STATUS_ERROR
        };
        let cut = truncate_utf8(message, MAX_STANDBY_ERROR_BYTES);
        let payload = cut.as_bytes();
        self.standby_sequence = self.standby_sequence.wrapping_add(1);
        self.standby.request_id = request_id;
        self.standby.status = status;
        self.standby.payload_len = payload.len() as u32;
        copy_front(&mut self.standby.payload, payload);
        self.standby_sequence = self.standby_sequence.wrapping_add(1);
        proof {
            let bytes = encode_utf8(message@);
            let n = truncation_len(bytes, MAX_STANDBY_ERROR_BYTES as int);
            lemma_truncation_len(bytes, MAX_STANDBY_ERROR_BYTES as int);
            assert(payload@ == bytes.subrange(0, n));
            assert(self.standby.payload@.subrange(0, self.standby.payload_len as int) == payload@);
            vstd::utf8::decode_utf8_encode_utf8(payload@);
        }
        self.standby_sequence
    }

    /// Everything but the standby slot and its sequence is the same.
    pub open spec fn same_but_standby(&self, other: &SharedRing) -> bool {
        &&& self.magic == other.magic
        &&& self.version == other.version
        &&& self.server_pid == other.server_pid
        &&& self.client_pid == other.client_pid
        &&& self.heartbeat_ms == other.heartbeat_ms
        &&& self.write_index == other.write_index
        &&& self.read_index == other.read_index
        &&& self.slots == other.slots
        &&& self.response_sequence == other.response_sequence
        &&& self.response == other.response
        &&& self.underrun_frames == other.underrun_frames
        &&& self.auto_gain_db_bits == other.auto_gain_db_bits
        &&& self.limiter_current_bits == other.limiter_current_bits
        &&& self.limiter_peak_bits == other.limiter_peak_bits
        &&& self.timing == other.timing
    }

    /// Reads the completion of `request_id` without waiting; `None` while there is
    /// none published after `since`, or while one is being written.
    pub fn read_standby(&self, request_id: u32, since: u64) -> (completion: Option<
        Result<(), FastIpcError>,
    >)
        requires
            self.wf(),
        ensures
            standby_view(completion) == spec_read_standby(*self, request_id, since),
    {
        let sequence = self.standby_sequence;
        if sequence % 2 == 1 || sequence == 0 {
            return None;
        }
        if sequence <= since || self.standby.request_id != request_id {
            return None;
        }
        let slot = &self.standby;
        if slot.payload_len as usize > MAX_STANDBY_ERROR_BYTES {
            return Some(
                Err(
                    FastIpcError::InvalidPayload(
                        crate::text::owned("standby completion payload length is invalid"),
                    ),
                ),
            );
        }
        if slot.status == STANDBY_STATUS_SUCCESS {
            Some(Ok(()))
        } else if slot.status == STANDBY_STATUS_ERROR {
            let payload = crate::text::sub_bytes(
                slot.payload.as_slice(),
                0,
                slot.payload_len as usize,
            );
            Some(Err(FastIpcError::RequestFailed(utf8_lossy(payload.as_slice()))))
        } else {
            Some(
                Err(
                    FastIpcError::InvalidPayload(
                        crate::text::owned("standby completion status is invalid"),
                    ),
                ),
            )
        }
    }
}

// ---------------------------------------------------------------------------
// Meters.
// ---------------------------------------------------------------------------

impl SharedRing {
    pub fn publish_underrun_frames(&mut self, frames: u64)
        ensures
            final(self).underrun_frames == frames,
            *final(self) == (SharedRing { underrun_frames: frames, ..*old(self) }),
    {
        self.underrun_frames = frames;
    }

    pub fn publish_limiter_meter(&mut self, current_bits: u32, peak_bits: u32)
        ensures
            *final(self) == (SharedRing {
                limiter_current_bits: current_bits,
                limiter_peak_bits: peak_bits,
                ..*old(self)
            }),
    {
        self.limiter_current_bits = current_bits;
        self.limiter_peak_bits = peak_bits;
    }

    /// Reads the limiter meter; the peak starts again from 0, so that the next read
    /// gives the highest reduction since this one.
    pub fn take_limiter_meter(&mut self) -> (meter: (u32, u32))
        ensures
            meter == (old(self).limiter_current_bits, old(self).limiter_peak_bits),
            *final(self) == (SharedRing { limiter_peak_bits: 0, ..*old(self) }),
    {
        let meter = (self.limiter_current_bits, self.limiter_peak_bits);
        self.limiter_peak_bits = 0;
        meter
    }

    pub fn publish_timing_metrics(&mut self, metrics: TimingMetrics)
        ensures
            *final(self) == (SharedRing { timing: metrics, ..*old(self) }),
    {
        self.timing = metrics;
    }

    pub fn underrun_frames(&self) -> (frames: u64)
        ensures
            frames == self.underrun_frames,
    {
        self.underrun_frames
    }

    /// Publishes the automatic gain of the first instances; the rest read 0 dB again
    /// (the bit pattern of `0.0f32` is 0).
    pub fn publish_auto_gain_db_bits(&mut self, bits: &[u32])
        requires
            old(self).wf(),
        ensures
            final(self).wf(),
            forall|i: int|
                0 <= i < INSTANCE_COUNT ==> #[trigger] final(self).auto_gain_db_bits@[i] == (if i
                    < bits@.len() {
                    bits@[i]
                } else {
                    0u32
                }),
            *final(self) == (SharedRing { auto_gain_db_bits: final(self).auto_gain_db_bits, ..*old(self) }),
    {
        let mut i: usize = 0;
        while i < INSTANCE_COUNT
            invariant
                0 <= i <= INSTANCE_COUNT,
                self.wf(),
                *self == (SharedRing { auto_gain_db_bits: self.auto_gain_db_bits, ..*old(self) }),
                forall|j: int|
                    0 <= j < i ==> #[trigger] self.auto_gain_db_bits@[j] == (if j < bits@.len() {
                        bits@[j]
                    } else {
                        0u32
                    }),
            decreases INSTANCE_COUNT - i,
        {
            let value: u32 = if i < bits.len() {
                bits[i]
            } else {
                0
            };
            self.auto_gain_db_bits.set(i, value);
            i = i + 1;
        }
    }

    pub fn auto_gain_db_bits(&self) -> (bits: Vec<u32>)
        ensures
            bits@ == self.auto_gain_db_bits@,
    {
        self.auto_gain_db_bits.clone()
    }
}

/// A completion already in the slot (or being written) when a watermark is taken is
/// never reported for a request measured against that watermark, whatever its ID.
pub proof fn lemma_watermark_hides_earlier_completions(ring: SharedRing, request_id: u32)
    ensures
        spec_read_standby(ring, request_id, standby_watermark_of(ring.standby_sequence)) is None,
{
}

} // verus!
