//! Identifiers, limits and errors shared by both ends of the low-latency MIDI channel.
use vstd::prelude::*;

use crate::text::{decimal_digits, decimal_string, owned};

verus! {

broadcast use vstd::string::group_string_axioms;

/// Highest number of instances the shared-memory protocol can address.
///
/// A server may create fewer. Chord mode double-buffers sixteen tracks across two banks,
/// which is where thirty-two comes from.
pub const MAX_INSTANCE_COUNT: usize = 32;

/// The fixed number of instances of the wire format (kept for older callers).
pub const INSTANCE_COUNT: usize = 32;

/// Most MIDI messages one command may carry.
pub const MAX_MIDI_MESSAGES: usize = 128;

/// Longest patch path, in UTF-8 bytes, a patch request may carry.
pub const MAX_PATCH_BYTES: usize = 4096;

/// Longest effect chain (a JSON string), in UTF-8 bytes, a patch request may carry.
pub const MAX_EFFECT_CHAIN_BYTES: usize = 4096;

/// Longest payload of a request/response.
pub const MAX_RESPONSE_BYTES: usize = 16384;

/// Longest error message a standby completion carries; longer ones are cut on a
/// UTF-8 boundary when they are published.
pub const MAX_STANDBY_ERROR_BYTES: usize = 1024;

/// Longest fade-out accepted, in milliseconds.
pub const MAX_FADE_OUT_MS: u32 = 10000;

/// Largest accepted live buffer multiplier.
pub const MAX_BUFFER_MULTIPLIER: u16 = 256;

pub type InstanceId = u8;

pub type TimelineId = u64;

/// An accepted multiplier is a power of two no larger than [`MAX_BUFFER_MULTIPLIER`].
pub open spec fn spec_valid_buffer_multiplier(multiplier: u16) -> bool {
    multiplier == 1 || multiplier == 2 || multiplier == 4 || multiplier == 8 || multiplier == 16
        || multiplier == 32 || multiplier == 64 || multiplier == 128 || multiplier == 256
}

/// Whether `multiplier` is a power of two between 1 and [`MAX_BUFFER_MULTIPLIER`].
pub fn is_valid_buffer_multiplier(multiplier: u16) -> (valid: bool)
    ensures
        valid == spec_valid_buffer_multiplier(multiplier),
{
    let mut candidate: u16 = 1;
    while candidate < MAX_BUFFER_MULTIPLIER
        invariant
            1 <= candidate <= MAX_BUFFER_MULTIPLIER,
            candidate == 1 || candidate == 2 || candidate == 4 || candidate == 8 || candidate == 16
                || candidate == 32 || candidate == 64 || candidate == 128 || candidate == 256,
            forall|p: u16| #![auto] spec_valid_buffer_multiplier(p) && p < candidate ==> p != multiplier,
        decreases MAX_BUFFER_MULTIPLIER - candidate,
    {
        if candidate == multiplier {
            return true;
        }
        candidate = candidate * 2;
    }
    candidate == multiplier
}

/// Errors of the low-latency MIDI channel.
#[derive(Clone, Debug, PartialEq, Eq)]
pub enum FastIpcError {
    UnsupportedPlatform,
    NotAvailable,
    AlreadyConnected,
    ProtocolMismatch,
    ServerStopped,
    QueueFull,
    ResponseTimeout,
    RequestFailed(String),
    TooManyMidiMessages { count: usize, max: usize },
    PatchTooLong { bytes: usize, max: usize },
    EffectChainTooLong { bytes: usize, max: usize },
    ResponseTooLong { bytes: usize, max: usize },
    InvalidInstance { instance_id: InstanceId, count: usize },
    InvalidPayload(String),
    Os { operation: String, code: u32 },
}

/// The text of a count and its limit: ` (N<unit>; max M)`.
pub open spec fn limit_text(count: nat, unit: Seq<char>, max: nat) -> Seq<char> {
    " ("@ + decimal_digits(count) + unit + "; max "@ + decimal_digits(max) + ")"@
}

impl FastIpcError {
    /// The message shown for the error.
    pub open spec fn spec_message(self) -> Seq<char> {
        match self {
            FastIpcError::UnsupportedPlatform => "shared-memory MIDI is only supported on Windows"@,
            FastIpcError::NotAvailable => "shared-memory MIDI server is not available"@,
            FastIpcError::AlreadyConnected => "another shared-memory MIDI client is connected"@,
            FastIpcError::ProtocolMismatch => "shared-memory MIDI protocol mismatch"@,
            FastIpcError::ServerStopped => "shared-memory MIDI server stopped responding"@,
            FastIpcError::QueueFull => "shared-memory MIDI queue is full"@,
            FastIpcError::ResponseTimeout => "shared-memory MIDI response timed out"@,
            FastIpcError::RequestFailed(message) => "shared-memory request failed: "@ + message@,
            FastIpcError::TooManyMidiMessages { count, max } => "too many MIDI messages"@
                + limit_text(count as nat, ""@, max as nat),
            FastIpcError::PatchTooLong { bytes, max } => "patch path is too long"@ + limit_text(
                bytes as nat,
                " bytes"@,
                max as nat,
            ),
            FastIpcError::EffectChainTooLong { bytes, max } => "effect chain is too long"@
                + limit_text(bytes as nat, " bytes"@, max as nat),
            FastIpcError::ResponseTooLong { bytes, max } => "response is too long"@ + limit_text(
                bytes as nat,
                " bytes"@,
                max as nat,
            ),
            FastIpcError::InvalidInstance { instance_id, count } => "instance "@ + decimal_digits(
                instance_id as nat,
            ) + " is outside 0.."@ + decimal_digits(count as nat),
            FastIpcError::InvalidPayload(message) => "invalid shared-memory payload: "@ + message@,
            FastIpcError::Os { operation, code } => operation@ + " failed with Windows error "@
                + decimal_digits(code as nat),
        }
    }

    pub fn message(&self) -> (text: String)
        ensures
            text@ == self.spec_message(),
    {
        match self {
            FastIpcError::UnsupportedPlatform => owned("shared-memory MIDI is only supported on Windows"),
            FastIpcError::NotAvailable => owned("shared-memory MIDI server is not available"),
            FastIpcError::AlreadyConnected => owned("another shared-memory MIDI client is connected"),
            FastIpcError::ProtocolMismatch => owned("shared-memory MIDI protocol mismatch"),
            FastIpcError::ServerStopped => owned("shared-memory MIDI server stopped responding"),
            FastIpcError::QueueFull => owned("shared-memory MIDI queue is full"),
            FastIpcError::ResponseTimeout => owned("shared-memory MIDI response timed out"),
            FastIpcError::RequestFailed(message) => {
                let mut text = owned("shared-memory request failed: ");
                text.append(message.as_str());
                text
            },
            FastIpcError::TooManyMidiMessages { count, max } => {
                let mut text = owned("too many MIDI messages");
                append_limit(&mut text, *count, "", *max);
                text
            },
            FastIpcError::PatchTooLong { bytes, max } => {
                let mut text = owned("patch path is too long");
                append_limit(&mut text, *bytes, " bytes", *max);
                text
            },
            FastIpcError::EffectChainTooLong { bytes, max } => {
                let mut text = owned("effect chain is too long");
                append_limit(&mut text, *bytes, " bytes", *max);
                text
            },
            FastIpcError::ResponseTooLong { bytes, max } => {
                let mut text = owned("response is too long");
                append_limit(&mut text, *bytes, " bytes", *max);
                text
            },
            FastIpcError::InvalidInstance { instance_id, count } => {
                let mut text = owned("instance ");
                text.append(decimal_string(*instance_id as u64).as_str());
                text.append(" is outside 0..");
                text.append(decimal_string(*count as u64).as_str());
                text
            },
            FastIpcError::InvalidPayload(message) => {
                let mut text = owned("invalid shared-memory payload: ");
                text.append(message.as_str());
                text
            },
            FastIpcError::Os { operation, code } => {
                let mut text = owned(operation.as_str());
                text.append(" failed with Windows error ");
                text.append(decimal_string(*code as u64).as_str());
                text
            },
        }
    }
}

fn append_limit(text: &mut String, count: usize, unit: &str, max: usize)
    ensures
        final(text)@ == old(text)@ + limit_text(count as nat, unit@, max as nat),
{
    text.append(" (");
    text.append(decimal_string(count as u64).as_str());
    text.append(unit);
    text.append("; max ");
    text.append(decimal_string(max as u64).as_str());
    text.append(")");
}

/// Rejects instance IDs the wire format cannot address.
pub fn validate_instance_id(instance_id: InstanceId) -> (result: Result<(), FastIpcError>)
    ensures
        result is Ok <==> (instance_id as int) < INSTANCE_COUNT,
        result is Err ==> result == Err::<(), FastIpcError>(
            FastIpcError::InvalidInstance { instance_id, count: INSTANCE_COUNT },
        ),
{
    if instance_id as usize >= INSTANCE_COUNT {
        return Err(FastIpcError::InvalidInstance { instance_id, count: INSTANCE_COUNT });
    }
    Ok(())
}

/// One MIDI channel voice message for one instance, `offset_frames` into the next
/// audio chunk.
#[derive(Clone, Copy, Debug, PartialEq, Eq)]
pub struct FastMidiEvent {
    pub instance_id: InstanceId,
    pub offset_frames: u32,
    pub message: [u8; 3],
}

/// A MIDI message at an absolute time from the start of one live timeline.
///
/// The time is carried as the IEEE-754 bit pattern of the seconds (`f64::to_bits`),
/// the form in which it travels through shared memory.
#[derive(Clone, Copy, Debug, PartialEq, Eq)]
pub struct TimelineMidiEvent {
    pub timeline_id: TimelineId,
    pub instance_id: InstanceId,
    pub timeline_seconds_bits: u64,
    pub message: [u8; 3],
}

/// Start of a live timeline. Sample rate and tempo are IEEE-754 `f64` bit patterns.
#[derive(Clone, Copy, Debug, PartialEq, Eq)]
pub struct LiveTimelineConfig {
    pub timeline_id: TimelineId,
    pub sample_rate_hz_bits: u64,
    pub tempo_bpm_bits: u64,
    pub time_signature_numerator: u16,
    pub time_signature_denominator: u16,
}

/// A tempo change on the tempo map of a running timeline. Times and tempo are
/// IEEE-754 `f64` bit patterns.
#[derive(Clone, Copy, Debug, PartialEq, Eq)]
pub struct LiveTempoChange {
    pub timeline_id: TimelineId,
    pub at_seconds_bits: u64,
    pub tempo_bpm_bits: u64,
    pub time_signature_numerator: u16,
    pub time_signature_denominator: u16,
}

/// The commands a server receives.
#[derive(Clone, Debug, PartialEq, Eq)]
pub enum FastMidiCommand {
    Midi { events: Vec<FastMidiEvent> },
    BeginLiveTimeline(LiveTimelineConfig),
    /// Adds a tempo change to the running timeline without rebuilding it.
    SetLiveTempo(LiveTempoChange),
    TimelineMidi { events: Vec<TimelineMidiEvent> },
    PreparePatch {
        request_id: u32,
        instance_id: InstanceId,
        patch: Option<String>,
        /// JSON string of the effect chain after the instrument; empty for none.
        effect_chain: String,
        probe: bool,
    },
    /// Preload into a bank that is not playing; the client declares that the instance
    /// is not part of the sounding bank.
    PrepareStandbyPatch {
        request_id: u32,
        instance_id: InstanceId,
        patch: Option<String>,
        effect_chain: String,
    },
    SetBufferMultiplier { multiplier: u16 },
    /// Amplitude gain for an instance, in thousandths (1000 = unity).
    SetInstanceGain { instance_id: InstanceId, gain_milli: u32 },
    SetAutoGain { enabled: bool },
    Stop { instance_id: InstanceId },
    StopAll,
    /// Fades the given instances from their current level to silence in `fade_ms`.
    FadeOutInstances { instance_ids: Vec<InstanceId>, fade_ms: u32 },
}

} // verus!
