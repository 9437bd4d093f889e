//! The client side of the shared ring: it checks each command, lays it out in a slot
//! and queues it for the server.
//!
//! The operating system's mapping is not available on this platform, so
//! [`FastMidiClient::connect`] answers `UnsupportedPlatform`; a client attaches to a
//! [`SharedRing`] value instead. A request that expects an answer returns its request
//! ID, and the caller polls for the answer without blocking the ring.
use vstd::prelude::*;

use crate::ipc::{
    FastIpcError, FastMidiEvent, InstanceId, LiveTempoChange, LiveTimelineConfig,
    TimelineMidiEvent, INSTANCE_COUNT, MAX_EFFECT_CHAIN_BYTES, MAX_MIDI_MESSAGES,
    MAX_PATCH_BYTES, is_valid_buffer_multiplier, validate_instance_id,
};
use crate::ring::{SharedRing, SERVER_STALE_MS, SLOT_COUNT};
use crate::text::owned;
use crate::wire::{
    CommandSlot, CommandView, IpcErrorView, KIND_BEGIN_LIVE_TIMELINE, KIND_FADE_OUT_INSTANCES,
    KIND_MIDI, KIND_PREPARE_PATCH, KIND_PREPARE_STANDBY_PATCH, KIND_PROBE_PATCH,
    KIND_SET_AUTO_GAIN, KIND_SET_BUFFER_MULTIPLIER, KIND_SET_LIVE_TEMPO, KIND_STOP,
    KIND_STOP_ALL, KIND_TIMELINE_MIDI, validate_fade_out, validate_midi_message,
    validate_tempo_change, validate_timeline_config,
};
use vstd::utf8::encode_utf8;

verus! {

broadcast use {vstd::utf8::encode_utf8_valid_utf8, vstd::utf8::encode_utf8_decode_utf8};

/// The client end of one ring.
pub struct FastMidiClient {
    /// The process this client claimed the ring for.
    pub pid: u32,
    /// The ID the next patch request carries; never 0.
    pub next_request_id: u32,
}

/// Why a push would be refused, checked in this order; `None` when it goes through.
pub open spec fn push_refusal(ring: SharedRing, pid: u32, now_ms: u64) -> Option<IpcErrorView> {
    if !ring.layout_matches() {
        Some(IpcErrorView::ProtocolMismatch)
    } else if ring.client_pid != pid {
        Some(IpcErrorView::ServerStopped)
    } else if now_ms > ring.heartbeat_ms && now_ms - ring.heartbeat_ms > SERVER_STALE_MS {
        Some(IpcErrorView::ServerStopped)
    } else if ring.queue_len() >= SLOT_COUNT {
        Some(IpcErrorView::QueueFull)
    } else {
        None
    }
}

/// `new` is `old` with one more command queued, one that the server decodes as `command`.
pub open spec fn queued(old: SharedRing, new: SharedRing, command: CommandView) -> bool {
    &&& new.wf()
    &&& new.same_but_queue(&old)
    &&& new.read_index == old.read_index
    &&& new.pending().len() == old.pending().len() + 1
    &&& new.pending().take(old.pending().len() as int) == old.pending()
    &&& crate::wire::spec_decode_slot(new.pending().last()) == Ok::<CommandView, IpcErrorView>(
        command,
    )
}

/// The outcome of sending `command` from `pid` at `now_ms`: refused with the ring
/// untouched, or queued.
pub open spec fn sent(
    old: SharedRing,
    new: SharedRing,
    pid: u32,
    now_ms: u64,
    result: Result<(), FastIpcError>,
    command: CommandView,
) -> bool {
    match push_refusal(old, pid, now_ms) {
        Some(e) => crate::wire::unit_view(result) == Err::<(), IpcErrorView>(e) && new == old,
        None => result is Ok && queued(old, new, command),
    }
}

/// The request ID that follows `id`: wrapping, and skipping 0.
pub open spec fn following_request_id(id: u32) -> u32 {
    let next = vstd::wrapping::u32_specs::wrapping_add(id, 1);
    if next == 0 {
        1
    } else {
        next
    }
}

/// Why a patch request is refused before it is sent.
pub open spec fn patch_refusal(instance_id: InstanceId, patch: Seq<u8>, effect_chain: Seq<u8>) -> Option<
    IpcErrorView,
> {
    if instance_id >= INSTANCE_COUNT {
        Some(IpcErrorView::InvalidInstance { instance_id, count: INSTANCE_COUNT })
    } else if patch.len() > MAX_PATCH_BYTES {
        Some(IpcErrorView::PatchTooLong { bytes: patch.len() as usize, max: MAX_PATCH_BYTES })
    } else if effect_chain.len() > MAX_EFFECT_CHAIN_BYTES {
        Some(
            IpcErrorView::EffectChainTooLong {
                bytes: effect_chain.len() as usize,
                max: MAX_EFFECT_CHAIN_BYTES,
            },
        )
    } else {
        None
    }
}

pub open spec fn patch_bytes(patch: Option<&str>) -> Seq<u8> {
    match patch {
        Some(p) => encode_utf8(p@),
        None => Seq::empty(),
    }
}

pub open spec fn patch_chars(patch: Option<&str>) -> Option<Seq<char>> {
    match patch {
        Some(p) => Some(p@),
        None => None,
    }
}

/// The command a patch request of `kind` is decoded as.
pub open spec fn patch_command(
    kind: u32,
    request_id: u32,
    instance_id: InstanceId,
    patch: Option<&str>,
    effect_chain: &str,
) -> CommandView {
    if kind == KIND_PREPARE_STANDBY_PATCH {
        CommandView::PrepareStandbyPatch {
            request_id,
            instance_id,
            patch: patch_chars(patch),
            effect_chain: effect_chain@,
        }
    } else {
        CommandView::PreparePatch {
            request_id,
            instance_id,
            patch: patch_chars(patch),
            effect_chain: effect_chain@,
            probe: kind == KIND_PROBE_PATCH,
        }
    }
}

/// The outcome of a patch request of `kind`: refused up front, refused by the ring,
/// or queued under the client's next request ID, which it returns.
pub open spec fn patch_requested(
    old_client: FastMidiClient,
    new_client: FastMidiClient,
    old: SharedRing,
    new: SharedRing,
    now_ms: u64,
    kind: u32,
    instance_id: InstanceId,
    patch: Option<&str>,
    effect_chain: &str,
    result: Result<u32, FastIpcError>,
) -> bool {
    match patch_refusal(instance_id, patch_bytes(patch), encode_utf8(effect_chain@)) {
        Some(e) => {
            &&& result matches Err(err) && err@ == e
            &&& new == old
            &&& new_client == old_client
        },
        None => {
            &&& new_client.pid == old_client.pid
            &&& new_client.next_request_id == following_request_id(old_client.next_request_id)
            &&& match push_refusal(old, old_client.pid, now_ms) {
                Some(e) => result matches Err(err) && err@ == e && new == old,
                None => result == Ok::<u32, FastIpcError>(old_client.next_request_id) && queued(
                    old,
                    new,
                    patch_command(kind, old_client.next_request_id, instance_id, patch, effect_chain),
                ),
            }
        },
    }
}

impl FastMidiClient {
    /// Opens the ring that the server on `port` published. The operating system's
    /// shared memory is not available on this platform.
    pub fn connect(port: u16) -> (result: Result<FastMidiClient, FastIpcError>)
        ensures
            result matches Err(e) && e == FastIpcError::UnsupportedPlatform,
    {
        Err(FastIpcError::UnsupportedPlatform)
    }

    /// Claims the client side of `ring` for `pid`, skipping whatever an earlier client
    /// left queued. Only one client holds a ring at a time.
    pub fn attach(ring: &mut SharedRing, pid: u32) -> (result: Result<FastMidiClient, FastIpcError>)
        ensures
            !old(ring).layout_matches() ==> (result matches Err(e) && e
                == FastIpcError::ProtocolMismatch) && *final(ring) == *old(ring),
            old(ring).layout_matches() && old(ring).client_pid != 0 ==> (result matches Err(e) && e
                == FastIpcError::AlreadyConnected) && *final(ring) == *old(ring),
            old(ring).layout_matches() && old(ring).client_pid == 0 ==> {
                &&& result matches Ok(client) && client.pid == pid && client.next_request_id == 1
                &&& *final(ring) == (SharedRing {
                    client_pid: pid,
                    read_index: old(ring).write_index,
                    ..*old(ring)
                })
            },
    {
        if let Err(e) = ring.validate() {
            return Err(e);
        }
        if ring.client_pid != 0 {
            return Err(FastIpcError::AlreadyConnected);
        }
        ring.client_pid = pid;
        ring.read_index = ring.write_index;
        Ok(FastMidiClient { pid, next_request_id: 1 })
    }

    /// Gives the ring up, so that another client may attach.
    pub fn detach(self, ring: &mut SharedRing)
        ensures
            old(ring).client_pid == self.pid ==> *final(ring) == (SharedRing {
                client_pid: 0,
                ..*old(ring)
            }),
            old(ring).client_pid != self.pid ==> *final(ring) == *old(ring),
    {
        if ring.client_pid == self.pid {
            ring.client_pid = 0;
        }
    }

    /// Queues one slot, unless the ring is of another layout, taken over, stale or full.
    fn push(&self, ring: &mut SharedRing, now_ms: u64, slot: CommandSlot) -> (result: Result<
        (),
        FastIpcError,
    >)
        requires
            old(ring).wf(),
            slot.wf(),
        ensures
            match push_refusal(*old(ring), self.pid, now_ms) {
                Some(e) => {
                    &&& crate::wire::unit_view(result) == Err::<(), IpcErrorView>(e)
                    &&& *final(ring) == *old(ring)
                },
                None => {
                    &&& result is Ok
                    &&& final(ring).wf()
                    &&& final(ring).same_but_queue(old(ring))
                    &&& final(ring).read_index == old(ring).read_index
                    &&& final(ring).pending() == old(ring).pending().push(slot)
                },
            },
    {
        if let Err(e) = ring.validate() {
            return Err(e);
        }
        if ring.client_pid != self.pid {
            return Err(FastIpcError::ServerStopped);
        }
        if now_ms > ring.heartbeat_ms && now_ms - ring.heartbeat_ms > SERVER_STALE_MS {
            return Err(FastIpcError::ServerStopped);
        }
        ring.enqueue(slot)
    }
}

/// Pushing `slot` as `push` does sends the command it decodes to.
proof fn lemma_push_sends(old: SharedRing, new: SharedRing, slot: CommandSlot, command: CommandView)
    requires
        new.wf(),
        new.same_but_queue(&old),
        new.read_index == old.read_index,
        new.pending() == old.pending().push(slot),
        crate::wire::spec_decode_slot(slot) == Ok::<CommandView, IpcErrorView>(command),
    ensures
        queued(old, new, command),
{
    assert(new.pending().take(old.pending().len() as int) =~= old.pending());
}

impl FastMidiClient {
    /// Pushes `slot`, which decodes to `command`, and says so in the terms of [`sent`].
    fn send(&self, ring: &mut SharedRing, now_ms: u64, slot: CommandSlot, Ghost(command): Ghost<
        CommandView,
    >) -> (result: Result<(), FastIpcError>)
        requires
            old(ring).wf(),
            slot.wf(),
            crate::wire::spec_decode_slot(slot) == Ok::<CommandView, IpcErrorView>(command),
        ensures
            sent(*old(ring), *final(ring), self.pid, now_ms, result, command),
    {
        let ghost before = *ring;
        let ghost queued_slot = slot;
        let result = self.push(ring, now_ms, slot);
        proof {
            if push_refusal(before, self.pid, now_ms) is None {
                lemma_push_sends(before, *ring, queued_slot, command);
            }
        }
        result
    }

    /// Silences one instance.
    pub fn stop(&self, ring: &mut SharedRing, now_ms: u64, instance_id: InstanceId) -> (result: Result<
        (),
        FastIpcError,
    >)
        requires
            old(ring).wf(),
        ensures
            instance_id >= INSTANCE_COUNT ==> (result matches Err(e) && e
                == FastIpcError::InvalidInstance { instance_id, count: INSTANCE_COUNT }) && *final(ring) == *old(ring),
            instance_id < INSTANCE_COUNT ==> sent(
                *old(ring),
                *final(ring),
                self.pid,
                now_ms,
                result,
                CommandView::Stop { instance_id },
            ),
    {
        if let Err(e) = validate_instance_id(instance_id) {
            return Err(e);
        }
        let mut slot = CommandSlot::zeroed();
        slot.kind = KIND_STOP;
        slot.instance_id = instance_id as u32;
        self.send(ring, now_ms, slot, Ghost(CommandView::Stop { instance_id }))
    }

    /// Silences every instance.
    pub fn stop_all(&self, ring: &mut SharedRing, now_ms: u64) -> (result: Result<(), FastIpcError>)
        requires
            old(ring).wf(),
        ensures
            sent(*old(ring), *final(ring), self.pid, now_ms, result, CommandView::StopAll),
    {
        let mut slot = CommandSlot::zeroed();
        slot.kind = KIND_STOP_ALL;
        self.send(ring, now_ms, slot, Ghost(CommandView::StopAll))
    }

    /// Asks for a deeper or shallower live output buffer: a power of two up to 256.
    pub fn set_buffer_multiplier(&self, ring: &mut SharedRing, now_ms: u64, multiplier: u16) -> (result: Result<
        (),
        FastIpcError,
    >)
        requires
            old(ring).wf(),
        ensures
            !crate::ipc::spec_valid_buffer_multiplier(multiplier) ==> (result matches Err(e) && e@
                == IpcErrorView::InvalidPayload(crate::wire::multiplier_text())) && *final(ring) == *old(ring),
            crate::ipc::spec_valid_buffer_multiplier(multiplier) ==> sent(
                *old(ring),
                *final(ring),
                self.pid,
                now_ms,
                result,
                CommandView::SetBufferMultiplier { multiplier },
            ),
    {
        if !is_valid_buffer_multiplier(multiplier) {
            return Err(
                FastIpcError::InvalidPayload(
                    owned("buffer multiplier must be a power of two up to 256"),
                ),
            );
        }
        let mut slot = CommandSlot::zeroed();
        slot.kind = KIND_SET_BUFFER_MULTIPLIER;
        slot.buffer_multiplier = multiplier as u32;
        self.send(ring, now_ms, slot, Ghost(CommandView::SetBufferMultiplier { multiplier }))
    }

    /// Switches the automatic per-instance gain on or off.
    pub fn set_auto_gain_enabled(&self, ring: &mut SharedRing, now_ms: u64, enabled: bool) -> (result: Result<
        (),
        FastIpcError,
    >)
        requires
            old(ring).wf(),
        ensures
            sent(
                *old(ring),
                *final(ring),
                self.pid,
                now_ms,
                result,
                CommandView::SetAutoGain { enabled },
            ),
    {
        let mut slot = CommandSlot::zeroed();
        slot.kind = KIND_SET_AUTO_GAIN;
        slot.buffer_multiplier = if enabled {
            1
        } else {
            0
        };
        self.send(ring, now_ms, slot, Ghost(CommandView::SetAutoGain { enabled }))
    }
}

// ---------------------------------------------------------------------------
// MIDI events.
// ---------------------------------------------------------------------------

pub open spec fn empty_events_text() -> Seq<char> {
    "events must not be empty"@
}

/// The first event from `from` on that the wire cannot carry, as the error it gets.
pub open spec fn event_refusal(events: Seq<FastMidiEvent>, from: int) -> Option<IpcErrorView>
    decreases events.len() - from,
{
    if from < 0 || from >= events.len() {
        None
    } else if events[from].instance_id >= INSTANCE_COUNT {
        Some(
            IpcErrorView::InvalidInstance {
                instance_id: events[from].instance_id,
                count: INSTANCE_COUNT,
            },
        )
    } else if !crate::wire::valid_midi_message(events[from].message) {
        Some(IpcErrorView::InvalidPayload(crate::wire::invalid_midi_text(events[from].message)))
    } else {
        event_refusal(events, from + 1)
    }
}

/// Why a batch of events is refused before it is sent.
pub open spec fn events_refusal(events: Seq<FastMidiEvent>) -> Option<IpcErrorView> {
    if events.len() == 0 {
        Some(IpcErrorView::InvalidPayload(empty_events_text()))
    } else if events.len() > MAX_MIDI_MESSAGES {
        Some(
            IpcErrorView::TooManyMidiMessages {
                count: events.len() as usize,
                max: MAX_MIDI_MESSAGES,
            },
        )
    } else {
        event_refusal(events, 0)
    }
}

proof fn lemma_midi_events_decode(slot: CommandSlot, events: Seq<FastMidiEvent>, n: int)
    requires
        slot.wf(),
        0 <= n <= events.len() <= MAX_MIDI_MESSAGES,
        forall|i: int|
            0 <= i < events.len() ==> crate::wire::spec_midi_event(slot, i) == Ok::<
                FastMidiEvent,
                IpcErrorView,
            >(#[trigger] events[i]),
    ensures
        crate::wire::spec_midi_events(slot, n) == Ok::<Seq<FastMidiEvent>, IpcErrorView>(
            events.take(n),
        ),
    decreases n,
{
    if n > 0 {
        lemma_midi_events_decode(slot, events, n - 1);
        assert(crate::wire::spec_midi_event(slot, n - 1) == Ok::<FastMidiEvent, IpcErrorView>(
            events[n - 1],
        ));
        assert(events.take(n) =~= events.take(n - 1).push(events[n - 1]));
    } else {
        assert(events.take(0) =~= Seq::<FastMidiEvent>::empty());
    }
}

impl FastMidiClient {
    /// Sends up to 128 MIDI events in one command.
    pub fn send_events(&self, ring: &mut SharedRing, now_ms: u64, events: &[FastMidiEvent]) -> (result: Result<
        (),
        FastIpcError,
    >)
        requires
            old(ring).wf(),
        ensures
            events_refusal(events@) matches Some(e) ==> (result matches Err(err) && err@ == e)
                && *final(ring) == *old(ring),
            events_refusal(events@) is None ==> sent(
                *old(ring),
                *final(ring),
                self.pid,
                now_ms,
                result,
                CommandView::Midi { events: events@ },
            ),
    {
        if events.len() == 0 {
            return Err(FastIpcError::InvalidPayload(owned("events must not be empty")));
        }
        if events.len() > MAX_MIDI_MESSAGES {
            return Err(
                FastIpcError::TooManyMidiMessages { count: events.len(), max: MAX_MIDI_MESSAGES },
            );
        }
        let mut i: usize = 0;
        while i < events.len()
            invariant
                0 <= i <= events@.len(),
                0 < events@.len() <= MAX_MIDI_MESSAGES,
                event_refusal(events@, 0) == event_refusal(events@, i as int),
            decreases events.len() - i,
        {
            if let Err(e) = validate_instance_id(events[i].instance_id) {
                return Err(e);
            }
            if let Err(e) = validate_midi_message(events[i].message) {
                return Err(e);
            }
            i = i + 1;
        }
        let mut slot = CommandSlot::zeroed();
        slot.kind = KIND_MIDI;
        slot.message_count = events.len() as u32;
        let mut j: usize = 0;
        while j < events.len()
            invariant
                0 <= j <= events@.len() <= MAX_MIDI_MESSAGES,
                slot.wf(),
                slot.kind == KIND_MIDI,
                slot.message_count == events@.len(),
                forall|k: int|
                    0 <= k < j ==> {
                        &&& #[trigger] slot.messages@[k] == events@[k].message
                        &&& slot.offsets@[k] == events@[k].offset_frames
                        &&& slot.instance_ids@[k] == events@[k].instance_id
                    },
            decreases events.len() - j,
        {
            slot.messages.set(j, events[j].message);
            slot.offsets.set(j, events[j].offset_frames);
            slot.instance_ids.set(j, events[j].instance_id);
            j = j + 1;
        }
        proof {
            assert forall|k: int| 0 <= k < events@.len() implies crate::wire::spec_midi_event(
                slot,
                k,
            ) == Ok::<FastMidiEvent, IpcErrorView>(#[trigger] events@[k]) by {
                lemma_event_refusal_none(events@, 0, k);
                assert(slot.messages@[k] == events@[k].message);
            }
            lemma_midi_events_decode(slot, events@, events@.len() as int);
            assert(events@.take(events@.len() as int) =~= events@);
        }
        self.send(ring, now_ms, slot, Ghost(CommandView::Midi { events: events@ }))
    }
}

/// When no event from `from` on is refused, each of them is carried.
proof fn lemma_event_refusal_none(events: Seq<FastMidiEvent>, from: int, k: int)
    requires
        0 <= from <= k < events.len(),
        event_refusal(events, from) is None,
    ensures
        events[k].instance_id < INSTANCE_COUNT,
        crate::wire::valid_midi_message(events[k].message),
    decreases k - from,
{
    if from < k {
        lemma_event_refusal_none(events, from + 1, k);
    }
}

impl FastMidiClient {
    /// Fades the given instances from their current level to silence over `fade_ms`.
    pub fn fade_out_instances(
        &self,
        ring: &mut SharedRing,
        now_ms: u64,
        instance_ids: &[InstanceId],
        fade_ms: u32,
    ) -> (result: Result<(), FastIpcError>)
        requires
            old(ring).wf(),
        ensures
            crate::wire::spec_fade_out_check(instance_ids@, fade_ms) matches Err(e) ==> (
            result matches Err(err) && err@ == e) && *final(ring) == *old(ring),
            crate::wire::spec_fade_out_check(instance_ids@, fade_ms) is Ok ==> sent(
                *old(ring),
                *final(ring),
                self.pid,
                now_ms,
                result,
                CommandView::FadeOutInstances { instance_ids: instance_ids@, fade_ms },
            ),
    {
        if let Err(e) = validate_fade_out(instance_ids, fade_ms) {
            return Err(e);
        }
        let mut slot = CommandSlot::zeroed();
        slot.kind = KIND_FADE_OUT_INSTANCES;
        slot.message_count = instance_ids.len() as u32;
        slot.buffer_multiplier = fade_ms;
        let mut j: usize = 0;
        while j < instance_ids.len()
            invariant
                0 <= j <= instance_ids@.len() <= MAX_MIDI_MESSAGES,
                slot.wf(),
                slot.kind == KIND_FADE_OUT_INSTANCES,
                slot.message_count == instance_ids@.len(),
                slot.buffer_multiplier == fade_ms,
                forall|k: int| 0 <= k < j ==> #[trigger] slot.instance_ids@[k] == instance_ids@[k],
            decreases instance_ids.len() - j,
        {
            slot.instance_ids.set(j, instance_ids[j]);
            j = j + 1;
        }
        proof {
            assert(slot.instance_ids@.subrange(0, instance_ids@.len() as int) =~= instance_ids@);
        }
        self.send(
            ring,
            now_ms,
            slot,
            Ghost(CommandView::FadeOutInstances { instance_ids: instance_ids@, fade_ms }),
        )
    }
}

// ---------------------------------------------------------------------------
// Patch requests.
// ---------------------------------------------------------------------------

impl FastMidiClient {
    /// Queues a patch request of `kind` under the next request ID and returns that ID;
    /// the answer comes through [`Self::poll_response`].
    fn patch_request(
        &mut self,
        ring: &mut SharedRing,
        now_ms: u64,
        kind: u32,
        instance_id: InstanceId,
        patch: Option<&str>,
        effect_chain: &str,
    ) -> (result: Result<u32, FastIpcError>)
        requires
            old(ring).wf(),
            kind == KIND_PREPARE_PATCH || kind == KIND_PROBE_PATCH || kind
                == KIND_PREPARE_STANDBY_PATCH,
        ensures
            patch_requested(
                *old(self),
                *final(self),
                *old(ring),
                *final(ring),
                now_ms,
                kind,
                instance_id,
                patch,
                effect_chain,
                result,
            ),
    {
        if let Err(e) = validate_instance_id(instance_id) {
            return Err(e);
        }
        let patch_len: usize = match patch {
            Some(p) => p.as_bytes().len(),
            None => 0,
        };
        if patch_len > MAX_PATCH_BYTES {
            return Err(FastIpcError::PatchTooLong { bytes: patch_len, max: MAX_PATCH_BYTES });
        }
        let chain = effect_chain.as_bytes();
        if chain.len() > MAX_EFFECT_CHAIN_BYTES {
            return Err(
                FastIpcError::EffectChainTooLong { bytes: chain.len(), max: MAX_EFFECT_CHAIN_BYTES },
            );
        }
        let request_id = self.next_request_id;
        let next = request_id.wrapping_add(1);
        self.next_request_id = if next == 0 {
            1
        } else {
            next
        };
        let mut slot = CommandSlot::zeroed();
        slot.kind = kind;
        slot.request_id = request_id;
        slot.instance_id = instance_id as u32;
        match patch {
            Some(p) => {
                let bytes = p.as_bytes();
                slot.has_patch = 1;
                slot.patch_len = bytes.len() as u32;
                crate::ring::copy_front(&mut slot.patch, bytes);
            },
            None => {},
        }
        slot.effect_chain_len = chain.len() as u32;
        crate::ring::copy_front(&mut slot.effect_chain, chain);
        let ghost command = patch_command(kind, request_id, instance_id, patch, effect_chain);
        proof {
            assert(crate::wire::spec_decode_patch(slot) == Ok::<Option<Seq<char>>, IpcErrorView>(
                patch_chars(patch),
            ));
            assert(crate::wire::spec_decode_effect_chain(slot) == Ok::<Seq<char>, IpcErrorView>(
                effect_chain@,
            ));
        }
        match self.send(ring, now_ms, slot, Ghost(command)) {
            Ok(()) => Ok(request_id),
            Err(e) => Err(e),
        }
    }

    /// Loads `patch` (or the plugin's default, for `None`) into one instance.
    pub fn prepare_patch(
        &mut self,
        ring: &mut SharedRing,
        now_ms: u64,
        instance_id: InstanceId,
        patch: Option<&str>,
    ) -> (result: Result<u32, FastIpcError>)
        requires
            old(ring).wf(),
        ensures
            patch_requested(
                *old(self),
                *final(self),
                *old(ring),
                *final(ring),
                now_ms,
                KIND_PREPARE_PATCH,
                instance_id,
                patch,
                "",
                result,
            ),
    {
        self.patch_request(ring, now_ms, KIND_PREPARE_PATCH, instance_id, patch, "")
    }

    /// Loads a patch and, at the same moment, the effect chain on the instance's output
    /// (a JSON text; empty removes the chain).
    pub fn prepare_patch_with_effect_chain(
        &mut self,
        ring: &mut SharedRing,
        now_ms: u64,
        instance_id: InstanceId,
        patch: Option<&str>,
        effect_chain: &str,
    ) -> (result: Result<u32, FastIpcError>)
        requires
            old(ring).wf(),
        ensures
            patch_requested(
                *old(self),
                *final(self),
                *old(ring),
                *final(ring),
                now_ms,
                KIND_PREPARE_PATCH,
                instance_id,
                patch,
                effect_chain,
                result,
            ),
    {
        self.patch_request(ring, now_ms, KIND_PREPARE_PATCH, instance_id, patch, effect_chain)
    }

    /// Preloads a patch into an instance of the bank that is not playing. The answer to
    /// the request only says that the server took it; the load's outcome is published
    /// in the standby slot (see [`Self::poll_standby_completion`]).
    pub fn prepare_standby_patch(
        &mut self,
        ring: &mut SharedRing,
        now_ms: u64,
        instance_id: InstanceId,
        patch: Option<&str>,
    ) -> (result: Result<u32, FastIpcError>)
        requires
            old(ring).wf(),
        ensures
            patch_requested(
                *old(self),
                *final(self),
                *old(ring),
                *final(ring),
                now_ms,
                KIND_PREPARE_STANDBY_PATCH,
                instance_id,
                patch,
                "",
                result,
            ),
    {
        self.patch_request(ring, now_ms, KIND_PREPARE_STANDBY_PATCH, instance_id, patch, "")
    }

    /// Starts a standby preload and returns its request ID. Read
    /// [`Self::standby_watermark`] before calling, and poll the completion with both.
    pub fn begin_standby_patch(
        &mut self,
        ring: &mut SharedRing,
        now_ms: u64,
        instance_id: InstanceId,
        patch: Option<&str>,
    ) -> (result: Result<u32, FastIpcError>)
        requires
            old(ring).wf(),
        ensures
            patch_requested(
                *old(self),
                *final(self),
                *old(ring),
                *final(ring),
                now_ms,
                KIND_PREPARE_STANDBY_PATCH,
                instance_id,
                patch,
                "",
                result,
            ),
    {
        self.patch_request(ring, now_ms, KIND_PREPARE_STANDBY_PATCH, instance_id, patch, "")
    }

    /// [`Self::begin_standby_patch`] with an effect chain.
    pub fn begin_standby_patch_with_effect_chain(
        &mut self,
        ring: &mut SharedRing,
        now_ms: u64,
        instance_id: InstanceId,
        patch: Option<&str>,
        effect_chain: &str,
    ) -> (result: Result<u32, FastIpcError>)
        requires
            old(ring).wf(),
        ensures
            patch_requested(
                *old(self),
                *final(self),
                *old(ring),
                *final(ring),
                now_ms,
                KIND_PREPARE_STANDBY_PATCH,
                instance_id,
                patch,
                effect_chain,
                result,
            ),
    {
        self.patch_request(
            ring,
            now_ms,
            KIND_PREPARE_STANDBY_PATCH,
            instance_id,
            patch,
            effect_chain,
        )
    }

    /// Loads a patch and asks for the server's report on it, which arrives as the
    /// payload of the answer.
    pub fn probe_patch(
        &mut self,
        ring: &mut SharedRing,
        now_ms: u64,
        instance_id: InstanceId,
        patch: Option<&str>,
    ) -> (result: Result<u32, FastIpcError>)
        requires
            old(ring).wf(),
        ensures
            patch_requested(
                *old(self),
                *final(self),
                *old(ring),
                *final(ring),
                now_ms,
                KIND_PROBE_PATCH,
                instance_id,
                patch,
                "",
                result,
            ),
    {
        self.patch_request(ring, now_ms, KIND_PROBE_PATCH, instance_id, patch, "")
    }

    /// The answer to `request_id`, if the server has written it: the payload, or the
    /// server's error as `RequestFailed`.
    pub fn poll_response(&self, ring: &SharedRing, request_id: u32) -> (result: Result<
        Option<Result<Vec<u8>, FastIpcError>>,
        FastIpcError,
    >)
        requires
            ring.wf(),
        ensures
            crate::ring::response_view(result) == crate::ring::spec_read_response(
                *ring,
                request_id,
                ring.response_sequence,
            ),
    {
        ring.read_response(request_id, ring.response_sequence)
    }

    /// The sequence a standby request about to be sent is measured against. Read it
    /// before sending the request.
    pub fn standby_watermark(&self, ring: &SharedRing) -> (watermark: u64)
        ensures
            watermark == crate::ring::standby_watermark_of(ring.standby_sequence),
    {
        ring.standby_watermark()
    }

    /// The completion of a standby load, without waiting: `None` while none for
    /// `request_id` was published after `since_sequence`.
    pub fn poll_standby_completion(&self, ring: &SharedRing, request_id: u32, since_sequence: u64) -> (completion: Option<
        Result<(), FastIpcError>,
    >)
        requires
            ring.wf(),
        ensures
            crate::ring::standby_view(completion) == crate::ring::spec_read_standby(
                *ring,
                request_id,
                since_sequence,
            ),
    {
        ring.read_standby(request_id, since_sequence)
    }

    /// The limiter meter as `f32` bit patterns: the reduction now, and the highest since
    /// the last read, which starts again from 0.
    pub fn limiter_meter(&self, ring: &mut SharedRing) -> (meter: (u32, u32))
        ensures
            meter == (old(ring).limiter_current_bits, old(ring).limiter_peak_bits),
            *final(ring) == (SharedRing { limiter_peak_bits: 0, ..*old(ring) }),
    {
        ring.take_limiter_meter()
    }

    /// What the server's last closed timing window measured.
    pub fn timing_metrics(&self, ring: &SharedRing) -> (metrics: crate::ring::TimingMetrics)
        ensures
            metrics == ring.timing,
    {
        ring.timing
    }

    /// Frames the server's output has fallen short by, as last published.
    pub fn underrun_frames(&self, ring: &SharedRing) -> (frames: u64)
        ensures
            frames == ring.underrun_frames,
    {
        ring.underrun_frames()
    }

    /// The `f32` bit patterns of each instance's automatic gain in dB, as last published.
    pub fn auto_gain_db_bits(&self, ring: &SharedRing) -> (bits: Vec<u32>)
        ensures
            bits@ == ring.auto_gain_db_bits@,
    {
        ring.auto_gain_db_bits()
    }
}

// ---------------------------------------------------------------------------
// Live timelines.
// ---------------------------------------------------------------------------

pub open spec fn mixed_timeline_text() -> Seq<char> {
    "timeline events must share one timeline"@
}

/// The first timeline event from `from` on that cannot be sent along with the first
/// one, as the error it gets.
pub open spec fn timeline_event_refusal(events: Seq<TimelineMidiEvent>, from: int) -> Option<
    IpcErrorView,
>
    decreases events.len() - from,
{
    if from < 0 || from >= events.len() {
        None
    } else if events[from].instance_id >= INSTANCE_COUNT {
        Some(
            IpcErrorView::InvalidInstance {
                instance_id: events[from].instance_id,
                count: INSTANCE_COUNT,
            },
        )
    } else if !crate::wire::valid_midi_message(events[from].message) {
        Some(IpcErrorView::InvalidPayload(crate::wire::invalid_midi_text(events[from].message)))
    } else if !crate::wire::f64_bits_finite_nonnegative(events[from].timeline_seconds_bits) {
        Some(IpcErrorView::InvalidPayload(crate::wire::timeline_seconds_text()))
    } else if events[from].timeline_id != events[0].timeline_id {
        Some(IpcErrorView::InvalidPayload(mixed_timeline_text()))
    } else {
        timeline_event_refusal(events, from + 1)
    }
}

pub open spec fn timeline_events_refusal(events: Seq<TimelineMidiEvent>) -> Option<IpcErrorView> {
    if events.len() == 0 {
        Some(IpcErrorView::InvalidPayload(empty_events_text()))
    } else if events.len() > MAX_MIDI_MESSAGES {
        Some(
            IpcErrorView::TooManyMidiMessages {
                count: events.len() as usize,
                max: MAX_MIDI_MESSAGES,
            },
        )
    } else {
        timeline_event_refusal(events, 0)
    }
}

proof fn lemma_timeline_refusal_none(events: Seq<TimelineMidiEvent>, from: int, k: int)
    requires
        0 <= from <= k < events.len(),
        timeline_event_refusal(events, from) is None,
    ensures
        events[k].instance_id < INSTANCE_COUNT,
        crate::wire::valid_midi_message(events[k].message),
        crate::wire::f64_bits_finite_nonnegative(events[k].timeline_seconds_bits),
        events[k].timeline_id == events[0].timeline_id,
    decreases k - from,
{
    if from < k {
        lemma_timeline_refusal_none(events, from + 1, k);
    }
}

proof fn lemma_timeline_events_decode(slot: CommandSlot, events: Seq<TimelineMidiEvent>, n: int)
    requires
        slot.wf(),
        0 <= n <= events.len() <= MAX_MIDI_MESSAGES,
        forall|i: int|
            0 <= i < events.len() ==> crate::wire::spec_timeline_event(slot, i) == Ok::<
                TimelineMidiEvent,
                IpcErrorView,
            >(#[trigger] events[i]),
    ensures
        crate::wire::spec_timeline_events(slot, n) == Ok::<Seq<TimelineMidiEvent>, IpcErrorView>(
            events.take(n),
        ),
    decreases n,
{
    if n > 0 {
        lemma_timeline_events_decode(slot, events, n - 1);
        assert(crate::wire::spec_timeline_event(slot, n - 1) == Ok::<
            TimelineMidiEvent,
            IpcErrorView,
        >(events[n - 1]));
        assert(events.take(n) =~= events.take(n - 1).push(events[n - 1]));
    } else {
        assert(events.take(0) =~= Seq::<TimelineMidiEvent>::empty());
    }
}

impl FastMidiClient {
    /// Starts (or restarts) the live timeline the server renders against.
    pub fn begin_live_timeline(&self, ring: &mut SharedRing, now_ms: u64, config: LiveTimelineConfig) -> (result: Result<
        (),
        FastIpcError,
    >)
        requires
            old(ring).wf(),
        ensures
            !crate::wire::valid_timeline_config(config) ==> (result matches Err(e) && e@
                == IpcErrorView::InvalidPayload("invalid live timeline configuration"@)) && *final(ring) == *old(ring),
            crate::wire::valid_timeline_config(config) ==> sent(
                *old(ring),
                *final(ring),
                self.pid,
                now_ms,
                result,
                CommandView::BeginLiveTimeline(config),
            ),
    {
        if let Err(e) = validate_timeline_config(config) {
            return Err(e);
        }
        let mut slot = CommandSlot::zeroed();
        slot.kind = KIND_BEGIN_LIVE_TIMELINE;
        slot.timeline_id = config.timeline_id;
        slot.sample_rate_bits = config.sample_rate_hz_bits;
        slot.tempo_bits = config.tempo_bpm_bits;
        slot.time_signature_numerator = config.time_signature_numerator as u32;
        slot.time_signature_denominator = config.time_signature_denominator as u32;
        self.send(ring, now_ms, slot, Ghost(CommandView::BeginLiveTimeline(config)))
    }

    /// Adds a tempo change to the running timeline's tempo map.
    pub fn set_live_tempo(&self, ring: &mut SharedRing, now_ms: u64, change: LiveTempoChange) -> (result: Result<
        (),
        FastIpcError,
    >)
        requires
            old(ring).wf(),
        ensures
            !crate::wire::valid_tempo_change(change) ==> (result matches Err(e) && e@
                == IpcErrorView::InvalidPayload("invalid live tempo change"@)) && *final(ring) == *old(ring),
            crate::wire::valid_tempo_change(change) ==> sent(
                *old(ring),
                *final(ring),
                self.pid,
                now_ms,
                result,
                CommandView::SetLiveTempo(change),
            ),
    {
        if let Err(e) = validate_tempo_change(change) {
            return Err(e);
        }
        let mut slot = CommandSlot::zeroed();
        slot.kind = KIND_SET_LIVE_TEMPO;
        slot.timeline_id = change.timeline_id;
        slot.timeline_seconds_bits.set(0, change.at_seconds_bits);
        slot.tempo_bits = change.tempo_bpm_bits;
        slot.time_signature_numerator = change.time_signature_numerator as u32;
        slot.time_signature_denominator = change.time_signature_denominator as u32;
        self.send(ring, now_ms, slot, Ghost(CommandView::SetLiveTempo(change)))
    }

    /// Sends up to 128 MIDI events placed on one timeline in absolute seconds.
    pub fn send_timeline_events(
        &self,
        ring: &mut SharedRing,
        now_ms: u64,
        events: &[TimelineMidiEvent],
    ) -> (result: Result<(), FastIpcError>)
        requires
            old(ring).wf(),
        ensures
            timeline_events_refusal(events@) matches Some(e) ==> (result matches Err(err) && err@
                == e) && *final(ring) == *old(ring),
            timeline_events_refusal(events@) is None ==> sent(
                *old(ring),
                *final(ring),
                self.pid,
                now_ms,
                result,
                CommandView::TimelineMidi { events: events@ },
            ),
    {
        if events.len() == 0 {
            return Err(FastIpcError::InvalidPayload(owned("events must not be empty")));
        }
        if events.len() > MAX_MIDI_MESSAGES {
            return Err(
                FastIpcError::TooManyMidiMessages { count: events.len(), max: MAX_MIDI_MESSAGES },
            );
        }
        let timeline_id = events[0].timeline_id;
        let mut i: usize = 0;
        while i < events.len()
            invariant
                0 <= i <= events@.len(),
                0 < events@.len() <= MAX_MIDI_MESSAGES,
                timeline_id == events@[0].timeline_id,
                timeline_event_refusal(events@, 0) == timeline_event_refusal(events@, i as int),
            decreases events.len() - i,
        {
            let event = events[i];
            if let Err(e) = validate_instance_id(event.instance_id) {
                return Err(e);
            }
            if let Err(e) = validate_midi_message(event.message) {
                return Err(e);
            }
            let bits = event.timeline_seconds_bits;
            if !(bits < 0x7FF0_0000_0000_0000 || bits == 0x8000_0000_0000_0000) {
                return Err(
                    FastIpcError::InvalidPayload(
                        owned("timeline seconds must be finite and non-negative"),
                    ),
                );
            }
            if event.timeline_id != timeline_id {
                return Err(FastIpcError::InvalidPayload(owned("timeline events must share one timeline")));
            }
            i = i + 1;
        }
        let mut slot = CommandSlot::zeroed();
        slot.kind = KIND_TIMELINE_MIDI;
        slot.message_count = events.len() as u32;
        slot.timeline_id = timeline_id;
        let mut j: usize = 0;
        while j < events.len()
            invariant
                0 <= j <= events@.len() <= MAX_MIDI_MESSAGES,
                slot.wf(),
                slot.kind == KIND_TIMELINE_MIDI,
                slot.message_count == events@.len(),
                slot.timeline_id == timeline_id,
                forall|k: int|
                    0 <= k < j ==> {
                        &&& #[trigger] slot.messages@[k] == events@[k].message
                        &&& slot.timeline_seconds_bits@[k] == events@[k].timeline_seconds_bits
                        &&& slot.instance_ids@[k] == events@[k].instance_id
                    },
            decreases events.len() - j,
        {
            slot.messages.set(j, events[j].message);
            slot.timeline_seconds_bits.set(j, events[j].timeline_seconds_bits);
            slot.instance_ids.set(j, events[j].instance_id);
            j = j + 1;
        }
        proof {
            assert forall|k: int| 0 <= k < events@.len() implies crate::wire::spec_timeline_event(
                slot,
                k,
            ) == Ok::<TimelineMidiEvent, IpcErrorView>(#[trigger] events@[k]) by {
                lemma_timeline_refusal_none(events@, 0, k);
                assert(slot.messages@[k] == events@[k].message);
            }
            lemma_timeline_events_decode(slot, events@, events@.len() as int);
            assert(events@.take(events@.len() as int) =~= events@);
        }
        self.send(ring, now_ms, slot, Ghost(CommandView::TimelineMidi { events: events@ }))
    }
}

/// How the server will decode the queued commands, oldest first.
pub open spec fn decoded_queue(ring: SharedRing) -> Seq<Result<CommandView, IpcErrorView>> {
    ring.pending().map_values(|slot: CommandSlot| crate::wire::spec_decode_slot(slot))
}

/// Sending a command adds exactly that command to the end of what the server will
/// read, behind everything queued before it.
pub proof fn lemma_commands_arrive_in_order(old: SharedRing, new: SharedRing, command: CommandView)
    requires
        queued(old, new, command),
    ensures
        decoded_queue(new) == decoded_queue(old).push(Ok::<CommandView, IpcErrorView>(command)),
{
    let n = old.pending().len() as int;
    assert forall|k: int| 0 <= k < n implies #[trigger] new.pending()[k] == old.pending()[k] by {
        assert(new.pending().take(n)[k] == new.pending()[k]);
    }
    assert(decoded_queue(new) =~= decoded_queue(old).push(Ok::<CommandView, IpcErrorView>(command)));
}

} // verus!
