//! The command slot of the shared-memory ring: how each command is laid out, and how
//! the server turns a slot back into a command.
//!
//! A slot is written by one process and read by another, so the reader checks every
//! field it relies on. Times, tempos and sample rates travel as IEEE-754 `f64` bit
//! patterns and are checked on those bits.
use vstd::prelude::*;
use vstd::utf8::*;

use crate::ipc::{
    FastIpcError, FastMidiCommand, FastMidiEvent, InstanceId, LiveTempoChange, LiveTimelineConfig,
    TimelineMidiEvent, INSTANCE_COUNT, MAX_EFFECT_CHAIN_BYTES, MAX_FADE_OUT_MS, MAX_MIDI_MESSAGES,
    MAX_PATCH_BYTES, is_valid_buffer_multiplier, validate_instance_id,
};
use crate::text::{decimal_string, owned, sub_bytes, utf8_to_string};

verus! {

broadcast use vstd::string::group_string_axioms;

pub const KIND_MIDI: u32 = 1;
pub const KIND_PREPARE_PATCH: u32 = 2;
pub const KIND_PROBE_PATCH: u32 = 3;
pub const KIND_STOP: u32 = 4;
pub const KIND_STOP_ALL: u32 = 5;
pub const KIND_SET_BUFFER_MULTIPLIER: u32 = 6;
pub const KIND_SET_INSTANCE_GAIN: u32 = 7;
pub const KIND_SET_AUTO_GAIN: u32 = 8;
pub const KIND_BEGIN_LIVE_TIMELINE: u32 = 9;
pub const KIND_TIMELINE_MIDI: u32 = 10;
pub const KIND_SET_LIVE_TEMPO: u32 = 11;
pub const KIND_PREPARE_STANDBY_PATCH: u32 = 12;
pub const KIND_FADE_OUT_INSTANCES: u32 = 13;

/// Upper bound of an instance gain, in thousandths (about +12 dB).
pub const MAX_INSTANCE_GAIN_MILLI: u32 = 4000;

/// One command slot of the ring, field for field as it lies in shared memory.
///
/// The arrays have fixed lengths (see [`CommandSlot::wf`]); `message_count`,
/// `patch_len` and `effect_chain_len` say how much of them is meant, and are not
/// trusted by the reader.
#[derive(Clone, Debug)]
pub struct CommandSlot {
    pub kind: u32,
    pub request_id: u32,
    pub instance_id: u32,
    /// Multiplier, gain, auto-gain flag or fade length, depending on `kind`.
    pub buffer_multiplier: u32,
    pub message_count: u32,
    pub messages: Vec<[u8; 3]>,
    pub offsets: Vec<u32>,
    pub instance_ids: Vec<u8>,
    pub timeline_seconds_bits: Vec<u64>,
    pub has_patch: u32,
    pub patch_len: u32,
    pub patch: Vec<u8>,
    pub effect_chain_len: u32,
    pub effect_chain: Vec<u8>,
    pub timeline_id: u64,
    pub sample_rate_bits: u64,
    pub tempo_bits: u64,
    pub time_signature_numerator: u32,
    pub time_signature_denominator: u32,
}

fn zero_messages() -> (messages: Vec<[u8; 3]>)
    ensures
        messages@.len() == MAX_MIDI_MESSAGES,
        forall|i: int| 0 <= i < MAX_MIDI_MESSAGES ==> #[trigger] messages@[i] == [0u8, 0u8, 0u8],
{
    let mut messages: Vec<[u8; 3]> = Vec::new();
    while messages.len() < MAX_MIDI_MESSAGES
        invariant
            messages@.len() <= MAX_MIDI_MESSAGES,
            forall|i: int| 0 <= i < messages@.len() ==> #[trigger] messages@[i] == [0u8, 0u8, 0u8],
        decreases MAX_MIDI_MESSAGES - messages@.len(),
    {
        messages.push([0u8, 0u8, 0u8]);
    }
    messages
}

impl CommandSlot {
    /// The arrays have their fixed wire lengths.
    pub open spec fn wf(&self) -> bool {
        &&& self.messages@.len() == MAX_MIDI_MESSAGES
        &&& self.offsets@.len() == MAX_MIDI_MESSAGES
        &&& self.instance_ids@.len() == MAX_MIDI_MESSAGES
        &&& self.timeline_seconds_bits@.len() == MAX_MIDI_MESSAGES
        &&& self.patch@.len() == MAX_PATCH_BYTES
        &&& self.effect_chain@.len() == MAX_EFFECT_CHAIN_BYTES
    }

    /// A slot of all zero bytes.
    pub open spec fn is_zeroed(&self) -> bool {
        &&& self.wf()
        &&& self.kind == 0 && self.request_id == 0 && self.instance_id == 0
        &&& self.buffer_multiplier == 0 && self.message_count == 0
        &&& self.has_patch == 0 && self.patch_len == 0 && self.effect_chain_len == 0
        &&& self.timeline_id == 0 && self.sample_rate_bits == 0 && self.tempo_bits == 0
        &&& self.time_signature_numerator == 0 && self.time_signature_denominator == 0
        &&& forall|i: int| 0 <= i < MAX_MIDI_MESSAGES ==> #[trigger] self.messages@[i] == [0u8, 0u8, 0u8]
        &&& forall|i: int| 0 <= i < MAX_MIDI_MESSAGES ==> #[trigger] self.offsets@[i] == 0
        &&& forall|i: int| 0 <= i < MAX_MIDI_MESSAGES ==> #[trigger] self.instance_ids@[i] == 0
        &&& forall|i: int| 0 <= i < MAX_MIDI_MESSAGES ==> #[trigger] self.timeline_seconds_bits@[i] == 0
        &&& forall|i: int| 0 <= i < MAX_PATCH_BYTES ==> #[trigger] self.patch@[i] == 0
        &&& forall|i: int| 0 <= i < MAX_EFFECT_CHAIN_BYTES ==> #[trigger] self.effect_chain@[i] == 0
    }

    /// A slot of all zero bytes.
    pub fn zeroed() -> (slot: CommandSlot)
        ensures
            slot.is_zeroed(),
    {
        CommandSlot {
            kind: 0,
            request_id: 0,
            instance_id: 0,
            buffer_multiplier: 0,
            message_count: 0,
            messages: zero_messages(),
            offsets: vec![0u32; MAX_MIDI_MESSAGES],
            instance_ids: vec![0u8; MAX_MIDI_MESSAGES],
            timeline_seconds_bits: vec![0u64; MAX_MIDI_MESSAGES],
            has_patch: 0,
            patch_len: 0,
            patch: vec![0u8; MAX_PATCH_BYTES],
            effect_chain_len: 0,
            effect_chain: vec![0u8; MAX_EFFECT_CHAIN_BYTES],
            timeline_id: 0,
            sample_rate_bits: 0,
            tempo_bits: 0,
            time_signature_numerator: 0,
            time_signature_denominator: 0,
        }
    }
}

// ---------------------------------------------------------------------------
// Views: the commands and errors with their strings as character sequences.
// ---------------------------------------------------------------------------

/// [`FastIpcError`] with its strings as character sequences.
pub enum IpcErrorView {
    UnsupportedPlatform,
    NotAvailable,
    AlreadyConnected,
    ProtocolMismatch,
    ServerStopped,
    QueueFull,
    ResponseTimeout,
    RequestFailed(Seq<char>),
    TooManyMidiMessages { count: usize, max: usize },
    PatchTooLong { bytes: usize, max: usize },
    EffectChainTooLong { bytes: usize, max: usize },
    ResponseTooLong { bytes: usize, max: usize },
    InvalidInstance { instance_id: InstanceId, count: usize },
    InvalidPayload(Seq<char>),
    Os { operation: Seq<char>, code: u32 },
}

impl View for FastIpcError {
    type V = IpcErrorView;

    open spec fn view(&self) -> IpcErrorView {
        match self {
            FastIpcError::UnsupportedPlatform => IpcErrorView::UnsupportedPlatform,
            FastIpcError::NotAvailable => IpcErrorView::NotAvailable,
            FastIpcError::AlreadyConnected => IpcErrorView::AlreadyConnected,
            FastIpcError::ProtocolMismatch => IpcErrorView::ProtocolMismatch,
            FastIpcError::ServerStopped => IpcErrorView::ServerStopped,
            FastIpcError::QueueFull => IpcErrorView::QueueFull,
            FastIpcError::ResponseTimeout => IpcErrorView::ResponseTimeout,
            FastIpcError::RequestFailed(m) => IpcErrorView::RequestFailed(m@),
            FastIpcError::TooManyMidiMessages { count, max } => IpcErrorView::TooManyMidiMessages {
                count: *count,
                max: *max,
            },
            FastIpcError::PatchTooLong { bytes, max } => IpcErrorView::PatchTooLong {
                bytes: *bytes,
                max: *max,
            },
            FastIpcError::EffectChainTooLong { bytes, max } => IpcErrorView::EffectChainTooLong {
                bytes: *bytes,
                max: *max,
            },
            FastIpcError::ResponseTooLong { bytes, max } => IpcErrorView::ResponseTooLong {
                bytes: *bytes,
                max: *max,
            },
            FastIpcError::InvalidInstance { instance_id, count } => IpcErrorView::InvalidInstance {
                instance_id: *instance_id,
                count: *count,
            },
            FastIpcError::InvalidPayload(m) => IpcErrorView::InvalidPayload(m@),
            FastIpcError::Os { operation, code } => IpcErrorView::Os {
                operation: operation@,
                code: *code,
            },
        }
    }
}

/// [`FastMidiCommand`] with its strings as character sequences.
pub enum CommandView {
    Midi { events: Seq<FastMidiEvent> },
    BeginLiveTimeline(LiveTimelineConfig),
    SetLiveTempo(LiveTempoChange),
    TimelineMidi { events: Seq<TimelineMidiEvent> },
    PreparePatch {
        request_id: u32,
        instance_id: InstanceId,
        patch: Option<Seq<char>>,
        effect_chain: Seq<char>,
        probe: bool,
    },
    PrepareStandbyPatch {
        request_id: u32,
        instance_id: InstanceId,
        patch: Option<Seq<char>>,
        effect_chain: Seq<char>,
    },
    SetBufferMultiplier { multiplier: u16 },
    SetInstanceGain { instance_id: InstanceId, gain_milli: u32 },
    SetAutoGain { enabled: bool },
    Stop { instance_id: InstanceId },
    StopAll,
    FadeOutInstances { instance_ids: Seq<InstanceId>, fade_ms: u32 },
}

pub open spec fn option_string_view(s: Option<String>) -> Option<Seq<char>> {
    match s {
        Some(t) => Some(t@),
        None => None,
    }
}

impl View for FastMidiCommand {
    type V = CommandView;

    open spec fn view(&self) -> CommandView {
        match self {
            FastMidiCommand::Midi { events } => CommandView::Midi { events: events@ },
            FastMidiCommand::BeginLiveTimeline(c) => CommandView::BeginLiveTimeline(*c),
            FastMidiCommand::SetLiveTempo(c) => CommandView::SetLiveTempo(*c),
            FastMidiCommand::TimelineMidi { events } => CommandView::TimelineMidi {
                events: events@,
            },
            FastMidiCommand::PreparePatch { request_id, instance_id, patch, effect_chain, probe } =>
            CommandView::PreparePatch {
                request_id: *request_id,
                instance_id: *instance_id,
                patch: option_string_view(*patch),
                effect_chain: effect_chain@,
                probe: *probe,
            },
            FastMidiCommand::PrepareStandbyPatch { request_id, instance_id, patch, effect_chain } =>
            CommandView::PrepareStandbyPatch {
                request_id: *request_id,
                instance_id: *instance_id,
                patch: option_string_view(*patch),
                effect_chain: effect_chain@,
            },
            FastMidiCommand::SetBufferMultiplier { multiplier } => CommandView::SetBufferMultiplier {
                multiplier: *multiplier,
            },
            FastMidiCommand::SetInstanceGain { instance_id, gain_milli } =>
            CommandView::SetInstanceGain { instance_id: *instance_id, gain_milli: *gain_milli },
            FastMidiCommand::SetAutoGain { enabled } => CommandView::SetAutoGain {
                enabled: *enabled,
            },
            FastMidiCommand::Stop { instance_id } => CommandView::Stop { instance_id: *instance_id },
            FastMidiCommand::StopAll => CommandView::StopAll,
            FastMidiCommand::FadeOutInstances { instance_ids, fade_ms } =>
            CommandView::FadeOutInstances { instance_ids: instance_ids@, fade_ms: *fade_ms },
        }
    }
}

/// The view of a result whose error is a [`FastIpcError`].
pub open spec fn result_view<T: View>(r: Result<T, FastIpcError>) -> Result<T::V, IpcErrorView> {
    match r {
        Ok(v) => Ok(v@),
        Err(e) => Err(e@),
    }
}

/// The view of a unit result.
pub open spec fn unit_view(r: Result<(), FastIpcError>) -> Result<(), IpcErrorView> {
    match r {
        Ok(()) => Ok(()),
        Err(e) => Err(e@),
    }
}

/// The view of what the server gets from the queue.
pub open spec fn decoded_view(r: Result<Option<FastMidiCommand>, FastIpcError>) -> Result<
    Option<CommandView>,
    IpcErrorView,
> {
    match r {
        Ok(Some(c)) => Ok(Some(c@)),
        Ok(None) => Ok(None),
        Err(e) => Err(e@),
    }
}

/// A decoded command, as something the queue yielded.
pub open spec fn option_ok(r: Result<CommandView, IpcErrorView>) -> Result<
    Option<CommandView>,
    IpcErrorView,
> {
    match r {
        Ok(c) => Ok(Some(c)),
        Err(e) => Err(e),
    }
}

pub open spec fn payload_error<T>(text: Seq<char>) -> Result<T, IpcErrorView> {
    Err(IpcErrorView::InvalidPayload(text))
}

// ---------------------------------------------------------------------------
// Field checks.
// ---------------------------------------------------------------------------

/// A MIDI 1.0 channel voice message: status 0x80..=0xEF and two data bytes.
pub open spec fn valid_midi_message(message: [u8; 3]) -> bool {
    0x80 <= message[0] && message[0] <= 0xef && message[1] <= 0x7f && message[2] <= 0x7f
}

/// Every MIDI 1.0 channel voice message passes: each of the seven kinds (note off, note
/// on, poly pressure, control change, program change, channel pressure and pitch bend,
/// status nibbles 8 to 14) on each of the sixteen channels, with data bytes below 128;
/// a data byte of 128 or more never does.
pub proof fn law_channel_voice_messages_pass(message: [u8; 3], kind: int, channel: int)
    requires
        8 <= kind <= 14,
        0 <= channel < 16,
        message[0] == kind * 16 + channel,
    ensures
        valid_midi_message(message) <==> (message[1] < 128 && message[2] < 128),
{
}

/// A status byte outside the channel voice messages (a data byte, or a system message
/// from 0xF0 up) never passes.
pub proof fn law_other_status_bytes_fail(message: [u8; 3])
    requires
        message[0] < 128 || message[0] >= 240,
    ensures
        !valid_midi_message(message),
{
}

/// The text of the error for an invalid MIDI message.
pub open spec fn invalid_midi_text(message: [u8; 3]) -> Seq<char> {
    "invalid MIDI channel voice message: ["@ + crate::text::decimal_digits(message[0] as nat) + ", "@
        + crate::text::decimal_digits(message[1] as nat) + ", "@ + crate::text::decimal_digits(message[2] as nat) + "]"@
}

/// Accepts only MIDI 1.0 channel voice messages.
pub fn validate_midi_message(message: [u8; 3]) -> (result: Result<(), FastIpcError>)
    ensures
        unit_view(result) == (if valid_midi_message(message) {
            Ok::<(), IpcErrorView>(())
        } else {
            payload_error::<()>(invalid_midi_text(message))
        }),
{
    if !(0x80 <= message[0] && message[0] <= 0xef) || message[1] > 0x7f || message[2] > 0x7f {
        let mut text = owned("invalid MIDI channel voice message: [");
        text.append(decimal_string(message[0] as u64).as_str());
        text.append(", ");
        text.append(decimal_string(message[1] as u64).as_str());
        text.append(", ");
        text.append(decimal_string(message[2] as u64).as_str());
        text.append("]");
        return Err(FastIpcError::InvalidPayload(text));
    }
    Ok(())
}

/// The instance a raw 32-bit field names.
pub open spec fn spec_decode_instance(raw: u32) -> Result<InstanceId, IpcErrorView> {
    if raw > 255 {
        payload_error("instance id is invalid"@)
    } else if raw >= INSTANCE_COUNT {
        Err(IpcErrorView::InvalidInstance { instance_id: raw as u8, count: INSTANCE_COUNT })
    } else {
        Ok(raw as u8)
    }
}

pub fn decode_instance(raw: u32) -> (result: Result<InstanceId, FastIpcError>)
    ensures
        match result {
            Ok(id) => spec_decode_instance(raw) == Ok::<InstanceId, IpcErrorView>(id),
            Err(e) => spec_decode_instance(raw) == Err::<InstanceId, IpcErrorView>(e@),
        },
{
    if raw > 255 {
        return Err(FastIpcError::InvalidPayload(owned("instance id is invalid")));
    }
    let instance_id = raw as u8;
    match validate_instance_id(instance_id) {
        Ok(()) => Ok(instance_id),
        Err(e) => Err(e),
    }
}

/// The text a length-prefixed byte field decodes to, or the error text.
pub open spec fn spec_decode_text(bytes: Seq<u8>, len: u32, max: usize, what: Seq<char>) -> Result<
    Seq<char>,
    IpcErrorView,
> {
    if len > max {
        payload_error(what + " payload length is invalid"@)
    } else if !valid_utf8(bytes.subrange(0, len as int)) {
        payload_error(what + " is not UTF-8"@)
    } else {
        Ok(decode_utf8(bytes.subrange(0, len as int)))
    }
}

/// The patch of a patch slot: `None` when no patch is flagged.
pub open spec fn spec_decode_patch(slot: CommandSlot) -> Result<Option<Seq<char>>, IpcErrorView> {
    if slot.patch_len > MAX_PATCH_BYTES {
        payload_error("patch payload length is invalid"@)
    } else if slot.has_patch == 0 {
        Ok(None)
    } else {
        match spec_decode_text(slot.patch@, slot.patch_len, MAX_PATCH_BYTES, "patch"@) {
            Ok(t) => Ok(Some(t)),
            Err(e) => Err(e),
        }
    }
}

pub open spec fn spec_decode_effect_chain(slot: CommandSlot) -> Result<Seq<char>, IpcErrorView> {
    spec_decode_text(slot.effect_chain@, slot.effect_chain_len, MAX_EFFECT_CHAIN_BYTES, "effect chain"@)
}

fn decode_text(bytes: &Vec<u8>, len: u32, max: usize, what: &str) -> (result: Result<
    String,
    FastIpcError,
>)
    requires
        bytes@.len() == max,
    ensures
        match result {
            Ok(s) => spec_decode_text(bytes@, len, max, what@) == Ok::<Seq<char>, IpcErrorView>(s@),
            Err(e) => spec_decode_text(bytes@, len, max, what@) == Err::<Seq<char>, IpcErrorView>(e@),
        },
{
    if len as usize > max {
        let text = owned(what).concat(" payload length is invalid");
        return Err(FastIpcError::InvalidPayload(text));
    }
    let raw = sub_bytes(bytes.as_slice(), 0, len as usize);
    match utf8_to_string(raw) {
        Some(s) => Ok(s),
        None => {
            let text = owned(what).concat(" is not UTF-8");
            Err(FastIpcError::InvalidPayload(text))
        },
    }
}

pub fn decode_patch(slot: &CommandSlot) -> (result: Result<Option<String>, FastIpcError>)
    requires
        slot.wf(),
    ensures
        match result {
            Ok(p) => spec_decode_patch(*slot) == Ok::<Option<Seq<char>>, IpcErrorView>(
                option_string_view(p),
            ),
            Err(e) => spec_decode_patch(*slot) == Err::<Option<Seq<char>>, IpcErrorView>(e@),
        },
{
    if slot.patch_len as usize > MAX_PATCH_BYTES {
        return Err(FastIpcError::InvalidPayload(owned("patch payload length is invalid")));
    }
    if slot.has_patch == 0 {
        return Ok(None);
    }
    match decode_text(&slot.patch, slot.patch_len, MAX_PATCH_BYTES, "patch") {
        Ok(s) => Ok(Some(s)),
        Err(e) => Err(e),
    }
}

pub fn decode_effect_chain(slot: &CommandSlot) -> (result: Result<String, FastIpcError>)
    requires
        slot.wf(),
    ensures
        match result {
            Ok(s) => spec_decode_effect_chain(*slot) == Ok::<Seq<char>, IpcErrorView>(s@),
            Err(e) => spec_decode_effect_chain(*slot) == Err::<Seq<char>, IpcErrorView>(e@),
        },
{
    decode_text(&slot.effect_chain, slot.effect_chain_len, MAX_EFFECT_CHAIN_BYTES, "effect chain")
}

// ---------------------------------------------------------------------------
// IEEE-754 double-precision bit patterns.
// ---------------------------------------------------------------------------

/// Bits of an `f64` that is finite and greater than zero: sign clear, not +0.0,
/// exponent field below all-ones.
pub open spec fn f64_bits_finite_positive(bits: u64) -> bool {
    0 < bits && bits < 0x7FF0_0000_0000_0000
}

/// Bits of an `f64` that is finite and not below zero (-0.0 included).
pub open spec fn f64_bits_finite_nonnegative(bits: u64) -> bool {
    bits < 0x7FF0_0000_0000_0000 || bits == 0x8000_0000_0000_0000
}

/// The powers of two a `u16` can hold.
pub open spec fn is_power_of_two_u16(d: u16) -> bool {
    d == 1 || d == 2 || d == 4 || d == 8 || d == 16 || d == 32 || d == 64 || d == 128 || d == 256
        || d == 512 || d == 1024 || d == 2048 || d == 4096 || d == 8192 || d == 16384 || d
        == 32768
}

pub fn power_of_two_u16(d: u16) -> (p: bool)
    ensures
        p == is_power_of_two_u16(d),
{
    let mut candidate: u32 = 1;
    while candidate <= 32768
        invariant
            1 <= candidate <= 65536,
            candidate == 1 || candidate == 2 || candidate == 4 || candidate == 8 || candidate == 16
                || candidate == 32 || candidate == 64 || candidate == 128 || candidate == 256
                || candidate == 512 || candidate == 1024 || candidate == 2048 || candidate == 4096
                || candidate == 8192 || candidate == 16384 || candidate == 32768 || candidate
                == 65536,
            forall|q: u16| #![auto] is_power_of_two_u16(q) && (q as u32) < candidate ==> q != d,
        decreases 65536 - candidate,
    {
        if candidate == d as u32 {
            return true;
        }
        candidate = candidate * 2;
    }
    false
}

/// A timeline start the server can run.
pub open spec fn valid_timeline_config(config: LiveTimelineConfig) -> bool {
    &&& config.timeline_id != 0
    &&& f64_bits_finite_positive(config.sample_rate_hz_bits)
    &&& f64_bits_finite_positive(config.tempo_bpm_bits)
    &&& config.time_signature_numerator != 0
    &&& is_power_of_two_u16(config.time_signature_denominator)
}

/// A tempo change the server can apply.
pub open spec fn valid_tempo_change(change: LiveTempoChange) -> bool {
    &&& change.timeline_id != 0
    &&& f64_bits_finite_nonnegative(change.at_seconds_bits)
    &&& f64_bits_finite_positive(change.tempo_bpm_bits)
    &&& change.time_signature_numerator != 0
    &&& is_power_of_two_u16(change.time_signature_denominator)
}

pub fn validate_timeline_config(config: LiveTimelineConfig) -> (result: Result<(), FastIpcError>)
    ensures
        unit_view(result) == (if valid_timeline_config(config) {
            Ok::<(), IpcErrorView>(())
        } else {
            payload_error::<()>("invalid live timeline configuration"@)
        }),
{
    let sr = config.sample_rate_hz_bits;
    let tempo = config.tempo_bpm_bits;
    if config.timeline_id == 0 || !(0 < sr && sr < 0x7FF0_0000_0000_0000) || !(0 < tempo && tempo
        < 0x7FF0_0000_0000_0000) || config.time_signature_numerator == 0 || !power_of_two_u16(
        config.time_signature_denominator,
    ) {
        return Err(FastIpcError::InvalidPayload(owned("invalid live timeline configuration")));
    }
    Ok(())
}

pub fn validate_tempo_change(change: LiveTempoChange) -> (result: Result<(), FastIpcError>)
    ensures
        unit_view(result) == (if valid_tempo_change(change) {
            Ok::<(), IpcErrorView>(())
        } else {
            payload_error::<()>("invalid live tempo change"@)
        }),
{
    let at = change.at_seconds_bits;
    let tempo = change.tempo_bpm_bits;
    if change.timeline_id == 0 || !(at < 0x7FF0_0000_0000_0000 || at == 0x8000_0000_0000_0000)
        || !(0 < tempo && tempo < 0x7FF0_0000_0000_0000) || change.time_signature_numerator == 0
        || !power_of_two_u16(change.time_signature_denominator) {
        return Err(FastIpcError::InvalidPayload(owned("invalid live tempo change")));
    }
    Ok(())
}

// ---------------------------------------------------------------------------
// Event lists.
// ---------------------------------------------------------------------------

/// The event at `index` of a MIDI slot, or the error that rejects it.
pub open spec fn spec_midi_event(slot: CommandSlot, index: int) -> Result<FastMidiEvent, IpcErrorView> {
    let instance_id = slot.instance_ids@[index];
    let message = slot.messages@[index];
    if instance_id >= INSTANCE_COUNT {
        Err(IpcErrorView::InvalidInstance { instance_id, count: INSTANCE_COUNT })
    } else if !valid_midi_message(message) {
        payload_error(invalid_midi_text(message))
    } else {
        Ok(FastMidiEvent { instance_id, offset_frames: slot.offsets@[index], message })
    }
}

/// The first `n` events of a MIDI slot; the first rejected one decides the error.
pub open spec fn spec_midi_events(slot: CommandSlot, n: int) -> Result<Seq<FastMidiEvent>, IpcErrorView>
    decreases n,
{
    if n <= 0 {
        Ok(Seq::empty())
    } else {
        match spec_midi_events(slot, n - 1) {
            Err(e) => Err(e),
            Ok(events) => match spec_midi_event(slot, n - 1) {
                Err(e) => Err(e),
                Ok(event) => Ok(events.push(event)),
            },
        }
    }
}

pub open spec fn timeline_seconds_text() -> Seq<char> {
    "timeline seconds must be finite and non-negative"@
}

/// The event at `index` of a timeline MIDI slot, or the error that rejects it.
pub open spec fn spec_timeline_event(slot: CommandSlot, index: int) -> Result<
    TimelineMidiEvent,
    IpcErrorView,
> {
    let instance_id = slot.instance_ids@[index];
    let message = slot.messages@[index];
    let seconds = slot.timeline_seconds_bits@[index];
    if instance_id >= INSTANCE_COUNT {
        Err(IpcErrorView::InvalidInstance { instance_id, count: INSTANCE_COUNT })
    } else if !valid_midi_message(message) {
        payload_error(invalid_midi_text(message))
    } else if !f64_bits_finite_nonnegative(seconds) {
        payload_error(timeline_seconds_text())
    } else {
        Ok(
            TimelineMidiEvent {
                timeline_id: slot.timeline_id,
                instance_id,
                timeline_seconds_bits: seconds,
                message,
            },
        )
    }
}

pub open spec fn spec_timeline_events(slot: CommandSlot, n: int) -> Result<
    Seq<TimelineMidiEvent>,
    IpcErrorView,
>
    decreases n,
{
    if n <= 0 {
        Ok(Seq::empty())
    } else {
        match spec_timeline_events(slot, n - 1) {
            Err(e) => Err(e),
            Ok(events) => match spec_timeline_event(slot, n - 1) {
                Err(e) => Err(e),
                Ok(event) => Ok(events.push(event)),
            },
        }
    }
}

fn decode_midi_events(slot: &CommandSlot, count: usize) -> (result: Result<
    Vec<FastMidiEvent>,
    FastIpcError,
>)
    requires
        slot.wf(),
        count <= MAX_MIDI_MESSAGES,
    ensures
        match result {
            Ok(events) => spec_midi_events(*slot, count as int) == Ok::<
                Seq<FastMidiEvent>,
                IpcErrorView,
            >(events@),
            Err(e) => spec_midi_events(*slot, count as int) == Err::<
                Seq<FastMidiEvent>,
                IpcErrorView,
            >(e@),
        },
{
    let mut events: Vec<FastMidiEvent> = Vec::new();
    let mut index: usize = 0;
    while index < count
        invariant
            slot.wf(),
            count <= MAX_MIDI_MESSAGES,
            0 <= index <= count,
            spec_midi_events(*slot, index as int) == Ok::<Seq<FastMidiEvent>, IpcErrorView>(
                events@,
            ),
        decreases count - index,
    {
        let instance_id = slot.instance_ids[index];
        if let Err(e) = validate_instance_id(instance_id) {
            proof {
                lemma_midi_events_stop(*slot, index as int + 1, count as int);
            }
            return Err(e);
        }
        let message = slot.messages[index];
        if let Err(e) = validate_midi_message(message) {
            proof {
                lemma_midi_events_stop(*slot, index as int + 1, count as int);
            }
            return Err(e);
        }
        events.push(FastMidiEvent { instance_id, offset_frames: slot.offsets[index], message });
        index = index + 1;
    }
    Ok(events)
}

/// Once a prefix is rejected, every longer prefix is rejected the same way.
proof fn lemma_midi_events_stop(slot: CommandSlot, n: int, m: int)
    requires
        0 < n <= m,
        spec_midi_events(slot, n) is Err,
    ensures
        spec_midi_events(slot, m) == spec_midi_events(slot, n),
    decreases m - n,
{
    if m > n {
        lemma_midi_events_stop(slot, n, m - 1);
    }
}

proof fn lemma_timeline_events_stop(slot: CommandSlot, n: int, m: int)
    requires
        0 < n <= m,
        spec_timeline_events(slot, n) is Err,
    ensures
        spec_timeline_events(slot, m) == spec_timeline_events(slot, n),
    decreases m - n,
{
    if m > n {
        lemma_timeline_events_stop(slot, n, m - 1);
    }
}

fn decode_timeline_events(slot: &CommandSlot, count: usize) -> (result: Result<
    Vec<TimelineMidiEvent>,
    FastIpcError,
>)
    requires
        slot.wf(),
        count <= MAX_MIDI_MESSAGES,
    ensures
        match result {
            Ok(events) => spec_timeline_events(*slot, count as int) == Ok::<
                Seq<TimelineMidiEvent>,
                IpcErrorView,
            >(events@),
            Err(e) => spec_timeline_events(*slot, count as int) == Err::<
                Seq<TimelineMidiEvent>,
                IpcErrorView,
            >(e@),
        },
{
    let mut events: Vec<TimelineMidiEvent> = Vec::new();
    let mut index: usize = 0;
    while index < count
        invariant
            slot.wf(),
            count <= MAX_MIDI_MESSAGES,
            0 <= index <= count,
            spec_timeline_events(*slot, index as int) == Ok::<
                Seq<TimelineMidiEvent>,
                IpcErrorView,
            >(events@),
        decreases count - index,
    {
        let instance_id = slot.instance_ids[index];
        if let Err(e) = validate_instance_id(instance_id) {
            proof {
                lemma_timeline_events_stop(*slot, index as int + 1, count as int);
            }
            return Err(e);
        }
        let message = slot.messages[index];
        if let Err(e) = validate_midi_message(message) {
            proof {
                lemma_timeline_events_stop(*slot, index as int + 1, count as int);
            }
            return Err(e);
        }
        let seconds = slot.timeline_seconds_bits[index];
        if !(seconds < 0x7FF0_0000_0000_0000 || seconds == 0x8000_0000_0000_0000) {
            proof {
                lemma_timeline_events_stop(*slot, index as int + 1, count as int);
            }
            return Err(
                FastIpcError::InvalidPayload(
                    owned("timeline seconds must be finite and non-negative"),
                ),
            );
        }
        events.push(
            TimelineMidiEvent {
                timeline_id: slot.timeline_id,
                instance_id,
                timeline_seconds_bits: seconds,
                message,
            },
        );
        index = index + 1;
    }
    Ok(events)
}

// ---------------------------------------------------------------------------
// Fade-out requests.
// ---------------------------------------------------------------------------

pub open spec fn fade_count_text() -> Seq<char> {
    "fade-out needs between 1 and 128 instances"@
}

pub open spec fn fade_length_text() -> Seq<char> {
    "fade-out length must be between 1 and 10000 ms"@
}

/// Index of the first instance the wire cannot address, if any.
pub open spec fn first_invalid_instance(ids: Seq<InstanceId>, from: int) -> Option<int>
    decreases ids.len() - from,
{
    if from < 0 || from >= ids.len() {
        None
    } else if ids[from] >= INSTANCE_COUNT {
        Some(from)
    } else {
        first_invalid_instance(ids, from + 1)
    }
}

/// What a fade-out request over `ids` and `fade_ms` is answered.
pub open spec fn spec_fade_out_check(ids: Seq<InstanceId>, fade_ms: u32) -> Result<(), IpcErrorView> {
    if ids.len() == 0 || ids.len() > MAX_MIDI_MESSAGES {
        payload_error(fade_count_text())
    } else if fade_ms == 0 || fade_ms > MAX_FADE_OUT_MS {
        payload_error(fade_length_text())
    } else {
        match first_invalid_instance(ids, 0) {
            Some(i) => Err(IpcErrorView::InvalidInstance { instance_id: ids[i], count: INSTANCE_COUNT }),
            None => Ok(()),
        }
    }
}

/// Checks a fade-out request: 1 to 128 addressable instances, 1 to 10000 ms.
pub fn validate_fade_out(instance_ids: &[InstanceId], fade_ms: u32) -> (result: Result<
    (),
    FastIpcError,
>)
    ensures
        unit_view(result) == spec_fade_out_check(instance_ids@, fade_ms),
{
    if instance_ids.len() == 0 || instance_ids.len() > MAX_MIDI_MESSAGES {
        return Err(FastIpcError::InvalidPayload(owned("fade-out needs between 1 and 128 instances")));
    }
    if fade_ms == 0 || fade_ms > MAX_FADE_OUT_MS {
        return Err(
            FastIpcError::InvalidPayload(owned("fade-out length must be between 1 and 10000 ms")),
        );
    }
    let mut i: usize = 0;
    while i < instance_ids.len()
        invariant
            0 <= i <= instance_ids@.len(),
            0 < instance_ids@.len() <= MAX_MIDI_MESSAGES,
            0 < fade_ms <= MAX_FADE_OUT_MS,
            first_invalid_instance(instance_ids@, 0) == first_invalid_instance(
                instance_ids@,
                i as int,
            ),
        decreases instance_ids.len() - i,
    {
        if let Err(e) = validate_instance_id(instance_ids[i]) {
            return Err(e);
        }
        i = i + 1;
    }
    Ok(())
}

// ---------------------------------------------------------------------------
// The decoder.
// ---------------------------------------------------------------------------

pub open spec fn event_count_text() -> Seq<char> {
    "invalid event count"@
}

pub open spec fn multiplier_text() -> Seq<char> {
    "buffer multiplier must be a power of two up to 256"@
}

/// The command a slot decodes to, or the error that rejects it.
pub open spec fn spec_decode_slot(slot: CommandSlot) -> Result<CommandView, IpcErrorView> {
    let kind = slot.kind;
    if kind == KIND_STOP {
        match spec_decode_instance(slot.instance_id) {
            Ok(id) => Ok(CommandView::Stop { instance_id: id }),
            Err(e) => Err(e),
        }
    } else if kind == KIND_STOP_ALL {
        Ok(CommandView::StopAll)
    } else if kind == KIND_SET_BUFFER_MULTIPLIER {
        if slot.buffer_multiplier > 0xffff {
            payload_error("invalid buffer multiplier"@)
        } else if !crate::ipc::spec_valid_buffer_multiplier(slot.buffer_multiplier as u16) {
            payload_error(multiplier_text())
        } else {
            Ok(CommandView::SetBufferMultiplier { multiplier: slot.buffer_multiplier as u16 })
        }
    } else if kind == KIND_SET_INSTANCE_GAIN {
        if slot.buffer_multiplier > MAX_INSTANCE_GAIN_MILLI {
            payload_error("instance gain is out of range"@)
        } else {
            match spec_decode_instance(slot.instance_id) {
                Ok(id) => Ok(
                    CommandView::SetInstanceGain { instance_id: id, gain_milli: slot.buffer_multiplier },
                ),
                Err(e) => Err(e),
            }
        }
    } else if kind == KIND_SET_AUTO_GAIN {
        if slot.buffer_multiplier == 0 {
            Ok(CommandView::SetAutoGain { enabled: false })
        } else if slot.buffer_multiplier == 1 {
            Ok(CommandView::SetAutoGain { enabled: true })
        } else {
            payload_error("auto gain flag must be 0 or 1"@)
        }
    } else if kind == KIND_PREPARE_PATCH || kind == KIND_PROBE_PATCH || kind
        == KIND_PREPARE_STANDBY_PATCH {
        match spec_decode_instance(slot.instance_id) {
            Err(e) => Err(e),
            Ok(id) => match spec_decode_patch(slot) {
                Err(e) => Err(e),
                Ok(patch) => match spec_decode_effect_chain(slot) {
                    Err(e) => Err(e),
                    Ok(chain) => if kind == KIND_PREPARE_STANDBY_PATCH {
                        Ok(
                            CommandView::PrepareStandbyPatch {
                                request_id: slot.request_id,
                                instance_id: id,
                                patch,
                                effect_chain: chain,
                            },
                        )
                    } else {
                        Ok(
                            CommandView::PreparePatch {
                                request_id: slot.request_id,
                                instance_id: id,
                                patch,
                                effect_chain: chain,
                                probe: kind == KIND_PROBE_PATCH,
                            },
                        )
                    },
                },
            },
        }
    } else if kind == KIND_BEGIN_LIVE_TIMELINE || kind == KIND_SET_LIVE_TEMPO {
        if slot.time_signature_numerator > 0xffff || slot.time_signature_denominator > 0xffff {
            payload_error("invalid time signature"@)
        } else if kind == KIND_BEGIN_LIVE_TIMELINE {
            let config = LiveTimelineConfig {
                timeline_id: slot.timeline_id,
                sample_rate_hz_bits: slot.sample_rate_bits,
                tempo_bpm_bits: slot.tempo_bits,
                time_signature_numerator: slot.time_signature_numerator as u16,
                time_signature_denominator: slot.time_signature_denominator as u16,
            };
            if valid_timeline_config(config) {
                Ok(CommandView::BeginLiveTimeline(config))
            } else {
                payload_error("invalid live timeline configuration"@)
            }
        } else {
            let change = LiveTempoChange {
                timeline_id: slot.timeline_id,
                at_seconds_bits: slot.timeline_seconds_bits@[0],
                tempo_bpm_bits: slot.tempo_bits,
                time_signature_numerator: slot.time_signature_numerator as u16,
                time_signature_denominator: slot.time_signature_denominator as u16,
            };
            if valid_tempo_change(change) {
                Ok(CommandView::SetLiveTempo(change))
            } else {
                payload_error("invalid live tempo change"@)
            }
        }
    } else if kind == KIND_TIMELINE_MIDI || kind == KIND_MIDI {
        let count = slot.message_count;
        if count == 0 || count > MAX_MIDI_MESSAGES {
            payload_error(event_count_text())
        } else if kind == KIND_MIDI {
            match spec_midi_events(slot, count as int) {
                Ok(events) => Ok(CommandView::Midi { events }),
                Err(e) => Err(e),
            }
        } else {
            match spec_timeline_events(slot, count as int) {
                Ok(events) => Ok(CommandView::TimelineMidi { events }),
                Err(e) => Err(e),
            }
        }
    } else if kind == KIND_FADE_OUT_INSTANCES {
        let count = slot.message_count;
        if count > MAX_MIDI_MESSAGES {
            payload_error(fade_count_text())
        } else {
            let ids = slot.instance_ids@.subrange(0, count as int);
            match spec_fade_out_check(ids, slot.buffer_multiplier) {
                Ok(()) => Ok(
                    CommandView::FadeOutInstances { instance_ids: ids, fade_ms: slot.buffer_multiplier },
                ),
                Err(e) => Err(e),
            }
        }
    } else {
        payload_error("unknown command kind"@)
    }
}

fn decode_patch_command(slot: &CommandSlot) -> (result: Result<FastMidiCommand, FastIpcError>)
    requires
        slot.wf(),
        slot.kind == KIND_PREPARE_PATCH || slot.kind == KIND_PROBE_PATCH || slot.kind
            == KIND_PREPARE_STANDBY_PATCH,
    ensures
        result_view(result) == spec_decode_slot(*slot),
{
    let instance_id = match decode_instance(slot.instance_id) {
        Ok(id) => id,
        Err(e) => {
            return Err(e);
        },
    };
    let patch = match decode_patch(slot) {
        Ok(p) => p,
        Err(e) => {
            return Err(e);
        },
    };
    let effect_chain = match decode_effect_chain(slot) {
        Ok(c) => c,
        Err(e) => {
            return Err(e);
        },
    };
    if slot.kind == KIND_PREPARE_STANDBY_PATCH {
        Ok(
            FastMidiCommand::PrepareStandbyPatch {
                request_id: slot.request_id,
                instance_id,
                patch,
                effect_chain,
            },
        )
    } else {
        Ok(
            FastMidiCommand::PreparePatch {
                request_id: slot.request_id,
                instance_id,
                patch,
                effect_chain,
                probe: slot.kind == KIND_PROBE_PATCH,
            },
        )
    }
}

fn decode_timeline_command(slot: &CommandSlot) -> (result: Result<FastMidiCommand, FastIpcError>)
    requires
        slot.wf(),
        slot.kind == KIND_BEGIN_LIVE_TIMELINE || slot.kind == KIND_SET_LIVE_TEMPO,
    ensures
        result_view(result) == spec_decode_slot(*slot),
{
    if slot.time_signature_numerator > 0xffff || slot.time_signature_denominator > 0xffff {
        return Err(FastIpcError::InvalidPayload(owned("invalid time signature")));
    }
    let numerator = slot.time_signature_numerator as u16;
    let denominator = slot.time_signature_denominator as u16;
    if slot.kind == KIND_BEGIN_LIVE_TIMELINE {
        let config = LiveTimelineConfig {
            timeline_id: slot.timeline_id,
            sample_rate_hz_bits: slot.sample_rate_bits,
            tempo_bpm_bits: slot.tempo_bits,
            time_signature_numerator: numerator,
            time_signature_denominator: denominator,
        };
        match validate_timeline_config(config) {
            Ok(()) => Ok(FastMidiCommand::BeginLiveTimeline(config)),
            Err(e) => Err(e),
        }
    } else {
        let change = LiveTempoChange {
            timeline_id: slot.timeline_id,
            at_seconds_bits: slot.timeline_seconds_bits[0],
            tempo_bpm_bits: slot.tempo_bits,
            time_signature_numerator: numerator,
            time_signature_denominator: denominator,
        };
        match validate_tempo_change(change) {
            Ok(()) => Ok(FastMidiCommand::SetLiveTempo(change)),
            Err(e) => Err(e),
        }
    }
}

fn decode_event_command(slot: &CommandSlot) -> (result: Result<FastMidiCommand, FastIpcError>)
    requires
        slot.wf(),
        slot.kind == KIND_MIDI || slot.kind == KIND_TIMELINE_MIDI,
    ensures
        result_view(result) == spec_decode_slot(*slot),
{
    let count = slot.message_count;
    if count == 0 || count as usize > MAX_MIDI_MESSAGES {
        return Err(FastIpcError::InvalidPayload(owned("invalid event count")));
    }
    if slot.kind == KIND_MIDI {
        match decode_midi_events(slot, count as usize) {
            Ok(events) => Ok(FastMidiCommand::Midi { events }),
            Err(e) => Err(e),
        }
    } else {
        match decode_timeline_events(slot, count as usize) {
            Ok(events) => Ok(FastMidiCommand::TimelineMidi { events }),
            Err(e) => Err(e),
        }
    }
}

fn decode_fade_command(slot: &CommandSlot) -> (result: Result<FastMidiCommand, FastIpcError>)
    requires
        slot.wf(),
        slot.kind == KIND_FADE_OUT_INSTANCES,
    ensures
        result_view(result) == spec_decode_slot(*slot),
{
    let count = slot.message_count as usize;
    if count > MAX_MIDI_MESSAGES {
        return Err(FastIpcError::InvalidPayload(owned("fade-out needs between 1 and 128 instances")));
    }
    let mut ids: Vec<InstanceId> = Vec::new();
    let mut i: usize = 0;
    while i < count
        invariant
            slot.wf(),
            count <= MAX_MIDI_MESSAGES,
            0 <= i <= count,
            ids@ == slot.instance_ids@.subrange(0, i as int),
        decreases count - i,
    {
        ids.push(slot.instance_ids[i]);
        i = i + 1;
    }
    match validate_fade_out(ids.as_slice(), slot.buffer_multiplier) {
        Ok(()) => Ok(FastMidiCommand::FadeOutInstances { instance_ids: ids, fade_ms: slot.buffer_multiplier }),
        Err(e) => Err(e),
    }
}

/// Turns a slot read from the ring into the command it carries.
pub fn decode_slot(slot: &CommandSlot) -> (result: Result<FastMidiCommand, FastIpcError>)
    requires
        slot.wf(),
    ensures
        result_view(result) == spec_decode_slot(*slot),
{
    let kind = slot.kind;
    if kind == KIND_STOP {
        match decode_instance(slot.instance_id) {
            Ok(instance_id) => Ok(FastMidiCommand::Stop { instance_id }),
            Err(e) => Err(e),
        }
    } else if kind == KIND_STOP_ALL {
        Ok(FastMidiCommand::StopAll)
    } else if kind == KIND_SET_BUFFER_MULTIPLIER {
        if slot.buffer_multiplier > 0xffff {
            return Err(FastIpcError::InvalidPayload(owned("invalid buffer multiplier")));
        }
        let multiplier = slot.buffer_multiplier as u16;
        if !is_valid_buffer_multiplier(multiplier) {
            return Err(
                FastIpcError::InvalidPayload(
                    owned("buffer multiplier must be a power of two up to 256"),
                ),
            );
        }
        Ok(FastMidiCommand::SetBufferMultiplier { multiplier })
    } else if kind == KIND_SET_INSTANCE_GAIN {
        let gain_milli = slot.buffer_multiplier;
        if gain_milli > MAX_INSTANCE_GAIN_MILLI {
            return Err(FastIpcError::InvalidPayload(owned("instance gain is out of range")));
        }
        match decode_instance(slot.instance_id) {
            Ok(instance_id) => Ok(FastMidiCommand::SetInstanceGain { instance_id, gain_milli }),
            Err(e) => Err(e),
        }
    } else if kind == KIND_SET_AUTO_GAIN {
        if slot.buffer_multiplier == 0 {
            Ok(FastMidiCommand::SetAutoGain { enabled: false })
        } else if slot.buffer_multiplier == 1 {
            Ok(FastMidiCommand::SetAutoGain { enabled: true })
        } else {
            Err(FastIpcError::InvalidPayload(owned("auto gain flag must be 0 or 1")))
        }
    } else if kind == KIND_PREPARE_PATCH || kind == KIND_PROBE_PATCH || kind
        == KIND_PREPARE_STANDBY_PATCH {
        decode_patch_command(slot)
    } else if kind == KIND_BEGIN_LIVE_TIMELINE || kind == KIND_SET_LIVE_TEMPO {
        decode_timeline_command(slot)
    } else if kind == KIND_TIMELINE_MIDI || kind == KIND_MIDI {
        decode_event_command(slot)
    } else if kind == KIND_FADE_OUT_INSTANCES {
        decode_fade_command(slot)
    } else {
        Err(FastIpcError::InvalidPayload(owned("unknown command kind")))
    }
}

} // verus!
