//! The play server's receive loop on the shared ring, one turn at a time.
//!
//! The loop must never block: timeline MIDI, tempo changes and the heartbeat all pass
//! through it. A standby preload is therefore answered in two steps: the response slot
//! only says that the player took the request, and the load's outcome is published in
//! the standby slot once the player reports it. At most one preload is in flight; a
//! second one is refused, since the completion slot holds one outcome.
use vstd::prelude::*;

use crate::ipc::{
    FastIpcError, FastMidiCommand, FastMidiEvent, InstanceId, LiveTempoChange, LiveTimelineConfig,
    TimelineMidiEvent,
};
use crate::ring::SharedRing;
use crate::server::FastMidiServer;
use crate::text::decimal_string;
use vstd::utf8::encode_utf8;

verus! {

broadcast use vstd::utf8::encode_utf8_valid_utf8;

/// What the player is asked to do for a command that is not answered on the ring;
/// its outcome is only logged.
#[derive(Clone, Debug, PartialEq, Eq)]
pub enum PlayerCall {
    SendMidi(Vec<FastMidiEvent>),
    BeginLiveTimeline(LiveTimelineConfig),
    SetLiveTempo(LiveTempoChange),
    SendTimelineMidi(Vec<TimelineMidiEvent>),
    SetBufferMultiplier(u16),
    SetInstanceGain { instance_id: InstanceId, gain_milli: u32 },
    SetAutoGain(bool),
    FadeOutInstances { instance_ids: Vec<InstanceId>, fade_ms: u32 },
    StopInstance(InstanceId),
    StopAll,
}

/// What one turn of the receive loop leaves to its caller.
#[derive(Debug)]
pub enum TurnStep {
    /// The queue was empty.
    Idle,
    /// The ring is of another layout, or the slot taken did not decode.
    ReceiveFailed(FastIpcError),
    /// Ask the player this.
    Call(PlayerCall),
    /// Load a patch into a live instance, or probe it when `probe`, and write the
    /// player's answer with [`respond`].
    PatchRequest {
        request_id: u32,
        instance_id: InstanceId,
        patch: Option<String>,
        effect_chain: String,
        probe: bool,
    },
    /// Start a preload and hand the player's answer to
    /// [`IpcReceiver::answer_standby`].
    StandbyRequest {
        request_id: u32,
        instance_id: InstanceId,
        patch: Option<String>,
        effect_chain: String,
    },
    /// A preload refused because another is in flight; the refusal was answered.
    StandbyRefused { request_id: u32, message: String },
}

/// The step for a received `command`, given the request ID of the preload in flight.
pub open spec fn step_for(step: TurnStep, command: FastMidiCommand, in_flight: Option<u32>) -> bool {
    match command {
        FastMidiCommand::Midi { events } => step == TurnStep::Call(PlayerCall::SendMidi(events)),
        FastMidiCommand::BeginLiveTimeline(config) => step == TurnStep::Call(
            PlayerCall::BeginLiveTimeline(config),
        ),
        FastMidiCommand::SetLiveTempo(change) => step == TurnStep::Call(
            PlayerCall::SetLiveTempo(change),
        ),
        FastMidiCommand::TimelineMidi { events } => step == TurnStep::Call(
            PlayerCall::SendTimelineMidi(events),
        ),
        FastMidiCommand::PreparePatch { request_id, instance_id, patch, effect_chain, probe } =>
            step == (TurnStep::PatchRequest { request_id, instance_id, patch, effect_chain, probe }),
        FastMidiCommand::PrepareStandbyPatch { request_id, instance_id, patch, effect_chain } =>
            match in_flight {
            Some(active) => step matches TurnStep::StandbyRefused { request_id: r, message }
                && r == request_id && message@ == in_flight_text(active),
            None => step == (TurnStep::StandbyRequest { request_id, instance_id, patch, effect_chain }),
        },
        FastMidiCommand::SetBufferMultiplier { multiplier } => step == TurnStep::Call(
            PlayerCall::SetBufferMultiplier(multiplier),
        ),
        FastMidiCommand::SetInstanceGain { instance_id, gain_milli } => step == TurnStep::Call(
            PlayerCall::SetInstanceGain { instance_id, gain_milli },
        ),
        FastMidiCommand::SetAutoGain { enabled } => step == TurnStep::Call(
            PlayerCall::SetAutoGain(enabled),
        ),
        FastMidiCommand::Stop { instance_id } => step == TurnStep::Call(
            PlayerCall::StopInstance(instance_id),
        ),
        FastMidiCommand::StopAll => step == TurnStep::Call(PlayerCall::StopAll),
        FastMidiCommand::FadeOutInstances { instance_ids, fade_ms } => step == TurnStep::Call(
            PlayerCall::FadeOutInstances { instance_ids, fade_ms },
        ),
    }
}

/// A preload the player took and has not finished.
pub struct PendingStandbyLoad<T> {
    pub request_id: u32,
    pub instance_id: InstanceId,
    pub ticket: T,
}

/// The state the receive loop keeps between turns.
pub struct IpcReceiver<T> {
    pub standby: Option<PendingStandbyLoad<T>>,
}

pub open spec fn in_flight_text(active: u32) -> Seq<char> {
    "standby patch load "@ + crate::text::decimal_digits(active as nat) + " is still in flight"@
}

pub open spec fn stopped_text() -> Seq<char> {
    "shared-memory MIDI server stopped before the standby patch load finished"@
}

/// The answer a patch request is read back as.
pub open spec fn response_answer(response: Result<Vec<u8>, String>) -> Result<Seq<u8>, Seq<char>> {
    match response {
        Ok(p) => Ok(p@),
        Err(m) => Err(m@),
    }
}

/// The answer `response` to request `request_id` was written, and `result` says
/// what the player answered: the ring afterwards reads it back, unless it does not
/// fit the slot, and nothing else of the ring changed.
pub open spec fn responded(
    before: SharedRing,
    after: SharedRing,
    request_id: u32,
    response: Result<Vec<u8>, String>,
    result: Result<(), String>,
) -> bool {
    &&& match response {
        Ok(_) => result is Ok,
        Err(m) => result matches Err(e) && e@ == m@,
    }
    &&& ({
        let bytes = match response {
            Ok(p) => p@,
            Err(m) => encode_utf8(m@),
        };
        bytes.len() <= crate::ipc::MAX_RESPONSE_BYTES ==> {
            &&& after.response_sequence == vstd::wrapping::u32_specs::wrapping_add(
                before.response_sequence,
                1,
            )
            &&& after.response_sequence != 0 ==> crate::ring::spec_read_response(
                after,
                request_id,
                after.response_sequence,
            ) == Ok::<Option<Result<Seq<u8>, crate::wire::IpcErrorView>>, crate::wire::IpcErrorView>(
                Some(crate::ring::answered(response_answer(response))),
            )
        }
    })
    &&& bytes_too_long(response) ==> after == before
    &&& after.slots == before.slots
    &&& after.write_index == before.write_index
    &&& after.read_index == before.read_index
    &&& after.standby == before.standby
    &&& after.standby_sequence == before.standby_sequence
    &&& after.heartbeat_ms == before.heartbeat_ms
}

/// Writes the answer to a patch request. An answer that does not fit the slot is
/// dropped (the client then times out), as a failure to respond is only logged.
pub fn respond(
    server: &FastMidiServer,
    ring: &mut SharedRing,
    request_id: u32,
    response: Result<Vec<u8>, String>,
) -> (result: Result<(), String>)
    requires
        old(ring).wf(),
    ensures
        final(ring).wf(),
        responded(*old(ring), *final(ring), request_id, response, result),
{
    match response {
        Ok(payload) => {
            let _written = server.complete_request(ring, request_id, Ok(payload.as_slice()));
            Ok(())
        },
        Err(message) => {
            let _written = server.complete_request(ring, request_id, Err(message.as_str()));
            Err(message)
        },
    }
}

pub open spec fn bytes_too_long(response: Result<Vec<u8>, String>) -> bool {
    match response {
        Ok(p) => p@.len() > crate::ipc::MAX_RESPONSE_BYTES,
        Err(m) => encode_utf8(m@).len() > crate::ipc::MAX_RESPONSE_BYTES,
    }
}

/// The refusal of a preload is short ASCII text.
proof fn lemma_in_flight_text_short(active: u32)
    ensures
    encode_utf8(in_flight_text(active)).len() <= 48,
{
    reveal_strlit("standby patch load ");
    reveal_strlit(" is still in flight");
    crate::text::lemma_u32_digits(active);
    let text = in_flight_text(active);
    assert(vstd::utf8::is_ascii_chars(text)) by {
        let digits = crate::text::decimal_digits(active as nat);
        assert forall|i: int| 0 <= i < text.len() implies '\0' <= #[trigger] text[i]
            <= '\u{7f}' by {
            if 19 <= i < 19 + digits.len() {
                assert(text[i] == digits[i - 19]);
            }
        }
    }
    vstd::utf8::is_ascii_chars_encode_utf8(text);
}

/// The refusal of a preload while `active` is in flight.
fn in_flight_message(active: u32) -> (message: String)
    ensures
        message@ == in_flight_text(active),
        encode_utf8(message@).len() <= 48,
{
    let mut message = crate::text::owned("standby patch load ");
    message.append(decimal_string(active as u64).as_str());
    message.append(" is still in flight");
    proof {
        lemma_in_flight_text_short(active);
    }
    message
}

impl<T> IpcReceiver<T> {
    pub fn new() -> (receiver: IpcReceiver<T>)
        ensures
            receiver.standby is None,
    {
        IpcReceiver { standby: None }
    }

    /// The request ID of the preload in flight, if there is one.
    pub open spec fn in_flight(self) -> Option<u32> {
        match self.standby {
            Some(load) => Some(load.request_id),
            None => None,
        }
    }

    /// A preload request was answered with the player's `answer`: refused when
    /// another is in flight; otherwise the load is held when the player took it, and
    /// the client reads back an empty payload or the player's error.
    pub open spec fn preload_answered(
        self,
        next: Self,
        before: SharedRing,
        after: SharedRing,
        request_id: u32,
        instance_id: InstanceId,
        answer: Result<T, String>,
        result: Result<(), String>,
    ) -> bool {
        let written: Result<Seq<u8>, Seq<char>> = match self.standby {
            Some(active) => Err(in_flight_text(active.request_id)),
            None => match answer {
                Ok(_) => Ok(Seq::empty()),
                Err(m) => Err(m@),
            },
        };
        &&& next.standby == (match self.standby {
            Some(_) => self.standby,
            None => match answer {
                Ok(ticket) => Some(PendingStandbyLoad { request_id, instance_id, ticket }),
                Err(_) => None,
            },
        })
        &&& exists|response: Result<Vec<u8>, String>|
            #[trigger] responded(before, after, request_id, response, result) && response_answer(
                response,
            ) == written
    }

    /// Answers a preload request with what the player said: the load is held while it
    /// runs, and the client is told at once whether it was taken.
    pub fn answer_standby(
        &mut self,
        server: &FastMidiServer,
        ring: &mut SharedRing,
        request_id: u32,
        instance_id: InstanceId,
        answer: Result<T, String>,
    ) -> (result: Result<(), String>)
        requires
            old(ring).wf(),
        ensures
            final(ring).wf(),
            old(self).preload_answered(
                *final(self),
                *old(ring),
                *final(ring),
                request_id,
                instance_id,
                answer,
                result,
            ),
    {
        if let Some(active) = &self.standby {
            let message = in_flight_message(active.request_id);
            return respond(server, ring, request_id, Err(message));
        }
        match answer {
            Ok(ticket) => {
                self.standby = Some(PendingStandbyLoad { request_id, instance_id, ticket });
                let empty: Vec<u8> = Vec::new();
                assert(empty@ =~= Seq::<u8>::empty());
                respond(server, ring, request_id, Ok(empty))
            },
            Err(error) => respond(server, ring, request_id, Err(error)),
        }
    }

    /// What publishing `outcome` of the preload in flight does: with no preload or no
    /// outcome yet nothing changes; otherwise the preload is let go and its outcome is
    /// read back from the standby slot.
    pub open spec fn outcome_published(
        self,
        next: Self,
        before: SharedRing,
        after: SharedRing,
        outcome: Option<Result<(), String>>,
    ) -> bool {
        match (self.standby, outcome) {
            (Some(load), Some(o)) => {
                &&& next.standby is None
                &&& after.standby.request_id == load.request_id
                &&& after.standby_sequence == vstd::wrapping::u64_specs::wrapping_add(
                    vstd::wrapping::u64_specs::wrapping_add(before.standby_sequence, 1),
                    1,
                )
                &&& after.same_but_standby(&before)
                &&& forall|since: u64|
                    after.standby_sequence % 2 == 0 && since < after.standby_sequence
                        ==> #[trigger] crate::ring::spec_read_standby(after, load.request_id, since)
                        == Some(
                        match o {
                            Ok(()) => Ok::<(), crate::wire::IpcErrorView>(()),
                            Err(m) => Err(
                                crate::wire::IpcErrorView::RequestFailed(
                                    crate::ring::published_message(m@),
                                ),
                            ),
                        },
                    )
            },
            _ => next.standby == self.standby && after == before,
        }
    }

    /// Publishes `outcome` of the preload in flight, as the player reported it.
    pub fn publish_standby_outcome(
        &mut self,
        server: &FastMidiServer,
        ring: &mut SharedRing,
        outcome: Option<Result<(), String>>,
    )
        requires
            old(ring).wf(),
        ensures
            final(ring).wf(),
            old(self).outcome_published(*final(self), *old(ring), *final(ring), outcome),
    {
        match outcome {
            None => {},
            Some(o) => {
                let load = match self.standby.take() {
                    Some(load) => load,
                    None => return,
                };
                publish_completion(server, ring, load.request_id, o);
            },
        }
    }

    /// On the way out, fails the preload in flight, so that no client waits forever.
    pub fn fail_pending_standby(&mut self, server: &FastMidiServer, ring: &mut SharedRing)
        requires
            old(ring).wf(),
        ensures
            final(ring).wf(),
            final(self).standby is None,
            old(self).standby is None ==> *final(ring) == *old(ring),
            old(self).standby matches Some(load) ==> {
                &&& final(ring).standby.request_id == load.request_id
                &&& forall|since: u64|
                    final(ring).standby_sequence % 2 == 0 && since < final(ring).standby_sequence
                        ==> #[trigger] crate::ring::spec_read_standby(
                        *final(ring),
                        load.request_id,
                        since,
                    ) == Some(
                        Err::<(), crate::wire::IpcErrorView>(
                            crate::wire::IpcErrorView::RequestFailed(
                                crate::ring::published_message(stopped_text()),
                            ),
                        ),
                    )
            },
    {
        if let Some(load) = self.standby.take() {
            let reason = crate::text::owned(
                "shared-memory MIDI server stopped before the standby patch load finished",
            );
            publish_completion(server, ring, load.request_id, Err(reason));
        }
    }

    /// What a received command asks for: a call of the player, a patch request or a
    /// preload to be answered with the player's reply, or a preload refused because
    /// another is in flight.
    pub fn dispatch(&self, command: FastMidiCommand) -> (step: TurnStep)
        ensures
            step_for(step, command, self.in_flight()),
    {
        match command {
            FastMidiCommand::Midi { events } => TurnStep::Call(PlayerCall::SendMidi(events)),
            FastMidiCommand::BeginLiveTimeline(config) => TurnStep::Call(
                PlayerCall::BeginLiveTimeline(config),
            ),
            FastMidiCommand::SetLiveTempo(change) => TurnStep::Call(PlayerCall::SetLiveTempo(change)),
            FastMidiCommand::TimelineMidi { events } => TurnStep::Call(
                PlayerCall::SendTimelineMidi(events),
            ),
            FastMidiCommand::PreparePatch { request_id, instance_id, patch, effect_chain, probe } =>
                TurnStep::PatchRequest { request_id, instance_id, patch, effect_chain, probe },
            FastMidiCommand::PrepareStandbyPatch { request_id, instance_id, patch, effect_chain } =>
                match &self.standby {
                Some(active) => TurnStep::StandbyRefused {
                    request_id,
                    message: in_flight_message(active.request_id),
                },
                None => TurnStep::StandbyRequest { request_id, instance_id, patch, effect_chain },
            },
            FastMidiCommand::SetBufferMultiplier { multiplier } => TurnStep::Call(
                PlayerCall::SetBufferMultiplier(multiplier),
            ),
            FastMidiCommand::SetInstanceGain { instance_id, gain_milli } => TurnStep::Call(
                PlayerCall::SetInstanceGain { instance_id, gain_milli },
            ),
            FastMidiCommand::SetAutoGain { enabled } => TurnStep::Call(
                PlayerCall::SetAutoGain(enabled),
            ),
            FastMidiCommand::Stop { instance_id } => TurnStep::Call(
                PlayerCall::StopInstance(instance_id),
            ),
            FastMidiCommand::StopAll => TurnStep::Call(PlayerCall::StopAll),
            FastMidiCommand::FadeOutInstances { instance_ids, fade_ms } => TurnStep::Call(
                PlayerCall::FadeOutInstances { instance_ids, fade_ms },
            ),
        }
    }

    /// One turn of the receive loop at `now_ms`: the outcome of the preload in flight,
    /// if the player `finished` it, is published first; then the heartbeat is stamped
    /// and at most one command is taken off the queue. A preload refused because
    /// another is in flight is answered here; every other command is left to the
    /// caller as the returned step says.
    pub fn turn(
        &mut self,
        server: &mut FastMidiServer,
        ring: &mut SharedRing,
        finished: Option<Result<(), String>>,
        now_ms: u64,
    ) -> (step: TurnStep)
        requires
            old(ring).wf(),
        ensures
            final(ring).wf(),
            exists|published: SharedRing|
                #![trigger old(self).outcome_published(*final(self), *old(ring), published, finished)]
                {
                    &&& published.wf()
                    &&& old(self).outcome_published(*final(self), *old(ring), published, finished)
                    &&& took_turn(final(self).in_flight(), published, *final(ring), now_ms, step)
                },
    {
        self.publish_standby_outcome(server, ring, finished);
        let ghost published = *ring;
        let step = match server.recv(ring, now_ms) {
            Err(e) => TurnStep::ReceiveFailed(e),
            Ok(None) => TurnStep::Idle,
            Ok(Some(command)) => {
                let ghost received = command;
                let ghost taken = *ring;
                let step = self.dispatch(command);
                match step {
                    TurnStep::StandbyRefused { request_id, message } => {
                        let copy = crate::text::owned(message.as_str());
                        proof {
                            if let Some(load) = self.in_flight() {
                                lemma_in_flight_text_short(load);
                            }
                        }
                        let _answered = respond(server, ring, request_id, Err(copy));
                        assert(ring.pending() =~= taken.pending());
                        let refused = TurnStep::StandbyRefused { request_id, message };
                        assert(step_for(refused, received, self.in_flight()));
                        refused
                    },
                    other => other,
                }
            },
        };
        assert(took_turn(self.in_flight(), published, *ring, now_ms, step));
        assert(old(self).outcome_published(*self, *old(ring), published, finished));
        step
    }
}

/// One receive at `now_ms` from `before`, with the preload `in_flight`: a ring of
/// another layout is refused, an empty queue leaves the turn idle, and otherwise the
/// oldest command is taken off the queue and stepped on as [`step_for`] says. Only a
/// refused preload is answered on the ring.
pub open spec fn took_turn(
    in_flight: Option<u32>,
    before: SharedRing,
    after: SharedRing,
    now_ms: u64,
    step: TurnStep,
) -> bool {
    &&& after.heartbeat_ms == now_ms
    &&& !before.layout_matches() ==> step == TurnStep::ReceiveFailed(FastIpcError::ProtocolMismatch)
        && after == (SharedRing { heartbeat_ms: now_ms, ..before })
    &&& before.layout_matches() && before.queue_len() == 0 ==> (step is Idle) && after == (
    SharedRing { heartbeat_ms: now_ms, ..before })
    &&& before.layout_matches() && before.queue_len() > 0 ==> {
        &&& before.queue_len() <= crate::ring::SLOT_COUNT ==> after.pending()
            == before.pending().drop_first()
        &&& match crate::wire::spec_decode_slot(before.pending()[0]) {
            Err(e) => step matches TurnStep::ReceiveFailed(f) && f@ == e,
            Ok(c) => exists|command: FastMidiCommand|
                command@ == c && #[trigger] step_for(step, command, in_flight),
        }
        &&& !(step is StandbyRefused) ==> after.same_but_queue(
            &SharedRing { heartbeat_ms: now_ms, ..before },
        )
        &&& step matches TurnStep::StandbyRefused { request_id, message } ==> {
            &&& after.response_sequence == vstd::wrapping::u32_specs::wrapping_add(
                before.response_sequence,
                1,
            )
            &&& after.response_sequence != 0 ==> crate::ring::spec_read_response(
                after,
                request_id,
                after.response_sequence,
            ) == Ok::<Option<Result<Seq<u8>, crate::wire::IpcErrorView>>, crate::wire::IpcErrorView>(
                Some(Err(crate::wire::IpcErrorView::RequestFailed(message@))),
            )
        }
    }
}

/// Publishes a preload's outcome in the standby slot.
fn publish_completion(
    server: &FastMidiServer,
    ring: &mut SharedRing,
    request_id: u32,
    outcome: Result<(), String>,
)
    requires
        old(ring).wf(),
    ensures
        final(ring).wf(),
        final(ring).standby.request_id == request_id,
        final(ring).standby_sequence == vstd::wrapping::u64_specs::wrapping_add(
            vstd::wrapping::u64_specs::wrapping_add(old(ring).standby_sequence, 1),
            1,
        ),
        final(ring).same_but_standby(old(ring)),
        forall|since: u64|
            final(ring).standby_sequence % 2 == 0 && since < final(ring).standby_sequence
                ==> #[trigger] crate::ring::spec_read_standby(*final(ring), request_id, since)
                == Some(
                match outcome {
                    Ok(()) => Ok::<(), crate::wire::IpcErrorView>(()),
                    Err(m) => Err(
                        crate::wire::IpcErrorView::RequestFailed(crate::ring::published_message(m@)),
                    ),
                },
            ),
{
    match outcome {
        Ok(()) => {
            let _sequence = server.publish_standby_completion(ring, request_id, Ok(()));
        },
        Err(message) => {
            let _sequence = server.publish_standby_completion(ring, request_id, Err(message.as_str()));
        },
    }
}

} // verus!
