//! The queue of commands for the player's worker, and the generation each belongs to.
//!
//! A generation tells the audio output which rendered frames may be thrown away: a new
//! song or a stop starts a new one; live work keeps the current one, so that preparing
//! a patch or changing the tempo does not cut off what is sounding.
use vstd::prelude::*;

use crate::ipc::{FastMidiEvent, InstanceId, LiveTempoChange, LiveTimelineConfig, TimelineMidiEvent};
use crate::live::{next_generation, spec_next_generation};
use crate::text::decimal_string;

verus! {

/// A command for the worker. `A` is what travels with it but is not decided here: the
/// schedule of a song, or the channel a result is sent back on.
#[derive(Debug)]
pub enum PlayerCommand<A> {
    Play { generation: u64, patch: Option<String>, attachment: A },
    StopAll { generation: u64 },
    StopInstance { generation: u64, instance_id: InstanceId },
    Midi { generation: u64, events: Vec<FastMidiEvent>, enter_live: bool },
    BeginLiveTimeline { generation: u64, config: LiveTimelineConfig },
    SetLiveTempo { generation: u64, change: LiveTempoChange },
    TimelineMidi { generation: u64, events: Vec<TimelineMidiEvent> },
    PrepareLivePatch {
        generation: u64,
        instance_id: InstanceId,
        patch: Option<String>,
        effect_chain: String,
        attachment: A,
    },
    PrepareStandbyLivePatch {
        generation: u64,
        instance_id: InstanceId,
        patch: Option<String>,
        effect_chain: String,
        attachment: A,
    },
    /// Fades live instances out; it belongs to no generation.
    FadeOutInstances { instance_ids: Vec<InstanceId>, fade_frames: u32 },
    ProbeLivePatch { generation: u64, instance_id: InstanceId, patch: Option<String>, attachment: A },
}

/// What the audio output is told alongside a submission.
#[derive(Clone, Copy, Debug, PartialEq, Eq, Structural)]
pub enum OutputAction {
    Nothing,
    /// Throw away frames of other generations and play this one.
    StartGeneration(u64),
    /// Throw away frames of other generations and stay silent.
    StopGeneration(u64),
    /// Stop the output for good.
    Shutdown,
}

/// The worker's queue and what it knows about the live state.
pub struct PlayerState<A> {
    pub generation: u64,
    pub pending: Vec<PlayerCommand<A>>,
    pub live_requested: bool,
    pub live_timeline_id: Option<u64>,
    pub shutdown: bool,
}

pub open spec fn stopped_text() -> Seq<char> {
    "realtime play worker is stopped"@
}

pub open spec fn no_timeline_text() -> Seq<char> {
    "no live timeline has been started"@
}

pub open spec fn mismatch_text(active: u64) -> Seq<char> {
    "timeline mismatch: active="@ + crate::text::decimal_digits(active as nat)
}

impl<A> PlayerCommand<A> {
    pub open spec fn is_fade_out(&self) -> bool {
        self is FadeOutInstances
    }
}

/// The queued commands that survive the start of a new timeline: fade-outs, which act
/// on what the previous timeline left sounding.
pub open spec fn fade_outs<A>(pending: Seq<PlayerCommand<A>>) -> Seq<PlayerCommand<A>> {
    pending.filter(|c: PlayerCommand<A>| c.is_fade_out())
}

fn stopped() -> (message: String)
    ensures
        message@ == stopped_text(),
{
    crate::text::owned("realtime play worker is stopped")
}

impl<A> PlayerState<A> {
    /// A refusal because the worker was shut down: nothing changes.
    pub open spec fn refused_stopped<R>(self, after: Self, result: Result<R, String>) -> bool {
        &&& result matches Err(e) && e@ == stopped_text()
        &&& after == self
    }

    /// The generation a patch load runs in: the current one while live play runs,
    /// a new one otherwise.
    pub open spec fn live_generation_for(self) -> u64 {
        if self.live_requested {
            self.generation
        } else {
            spec_next_generation(self.generation)
        }
    }

    /// The output action of a patch load: a new generation is started, the current
    /// one left alone.
    pub open spec fn live_action_for(self) -> OutputAction {
        if self.live_requested {
            OutputAction::Nothing
        } else {
            OutputAction::StartGeneration(spec_next_generation(self.generation))
        }
    }

    pub open spec fn play_submitted(
        self,
        after: Self,
        patch: Option<String>,
        attachment: A,
        result: Result<OutputAction, String>,
    ) -> bool {
        if self.shutdown {
            self.refused_stopped(after, result)
        } else {
            let g = spec_next_generation(self.generation);
            &&& result == Ok::<OutputAction, String>(OutputAction::StartGeneration(g))
            &&& after.generation == g
            &&& after.pending@ == seq![PlayerCommand::Play { generation: g, patch, attachment }]
            &&& !after.live_requested
            &&& after.live_timeline_id is None
            &&& !after.shutdown
        }
    }

    pub open spec fn stop_submitted(self, after: Self, result: Result<OutputAction, String>) -> bool {
        if self.shutdown {
            self.refused_stopped(after, result)
        } else {
            let g = spec_next_generation(self.generation);
            &&& result == Ok::<OutputAction, String>(OutputAction::StopGeneration(g))
            &&& after.generation == g
            &&& after.pending@ == seq![PlayerCommand::<A>::StopAll { generation: g }]
            &&& !after.live_requested
            &&& after.live_timeline_id is None
            &&& !after.shutdown
        }
    }

    pub open spec fn stop_instance_submitted(
        self,
        after: Self,
        instance_id: InstanceId,
        result: Result<OutputAction, String>,
    ) -> bool {
        if self.shutdown {
            self.refused_stopped(after, result)
        } else {
            let g = spec_next_generation(self.generation);
            &&& result == Ok::<OutputAction, String>(OutputAction::StartGeneration(g))
            &&& after.generation == g
            &&& after.pending@ == self.pending@.push(
                PlayerCommand::StopInstance { generation: g, instance_id },
            )
            &&& after.live_requested == self.live_requested
            &&& after.live_timeline_id == self.live_timeline_id
            &&& !after.shutdown
        }
    }

    pub open spec fn midi_submitted(
        self,
        after: Self,
        events: Vec<FastMidiEvent>,
        result: Result<OutputAction, String>,
    ) -> bool {
        if self.shutdown {
            self.refused_stopped(after, result)
        } else {
            let enter_live = !self.live_requested;
            let g = if enter_live {
                spec_next_generation(self.generation)
            } else {
                self.generation
            };
            let kept = if enter_live {
                Seq::empty()
            } else {
                self.pending@
            };
            &&& result == Ok::<OutputAction, String>(
                if enter_live {
                    OutputAction::StartGeneration(g)
                } else {
                    OutputAction::Nothing
                },
            )
            &&& after.generation == g
            &&& after.pending@ == kept.push(PlayerCommand::Midi { generation: g, events, enter_live })
            &&& after.live_requested
            &&& after.live_timeline_id == self.live_timeline_id
            &&& !after.shutdown
        }
    }

    pub open spec fn timeline_begun(
        self,
        after: Self,
        config: LiveTimelineConfig,
        result: Result<OutputAction, String>,
    ) -> bool {
        if self.shutdown {
            self.refused_stopped(after, result)
        } else {
            let g = self.live_generation_for();
            &&& result == Ok::<OutputAction, String>(OutputAction::StartGeneration(g))
            &&& after.generation == g
            &&& after.pending@ == fade_outs(self.pending@).push(
                PlayerCommand::BeginLiveTimeline { generation: g, config },
            )
            &&& after.live_requested
            &&& after.live_timeline_id == Some(config.timeline_id)
            &&& !after.shutdown
        }
    }

    /// The error for a command addressed to the wrong timeline, or to none.
    pub open spec fn timeline_refusal(self, timeline_id: u64) -> Option<Seq<char>> {
        match self.live_timeline_id {
            None => Some(no_timeline_text()),
            Some(active) => if timeline_id != active {
                Some(mismatch_text(active))
            } else {
                None
            },
        }
    }

    /// The state after a command was queued at the back, with nothing else changed.
    pub open spec fn queued(self, after: Self, command: PlayerCommand<A>) -> bool {
        &&& after.pending@ == self.pending@.push(command)
        &&& after.generation == self.generation
        &&& after.live_requested == self.live_requested
        &&& after.live_timeline_id == self.live_timeline_id
        &&& after.shutdown == self.shutdown
    }

    pub open spec fn tempo_submitted(self, after: Self, change: LiveTempoChange, result: Result<(), String>) -> bool {
        if self.shutdown {
            self.refused_stopped(after, result)
        } else {
            match self.timeline_refusal(change.timeline_id) {
                Some(message) => (result matches Err(e) && e@ == message) && after == self,
                None => result is Ok && self.queued(
                    after,
                    PlayerCommand::SetLiveTempo { generation: self.generation, change },
                ),
            }
        }
    }

    pub open spec fn fade_out_submitted(
        self,
        after: Self,
        instance_ids: Vec<InstanceId>,
        fade_frames: u32,
        result: Result<(), String>,
    ) -> bool {
        if self.shutdown {
            self.refused_stopped(after, result)
        } else if !self.live_requested {
            result is Ok && after == self
        } else {
            result is Ok && self.queued(
                after,
                PlayerCommand::FadeOutInstances { instance_ids, fade_frames },
            )
        }
    }

    pub open spec fn timeline_midi_submitted(
        self,
        after: Self,
        events: Vec<TimelineMidiEvent>,
        result: Result<(), String>,
    ) -> bool {
        if self.shutdown {
            self.refused_stopped(after, result)
        } else {
            match self.live_timeline_id {
                None => (result matches Err(e) && e@ == no_timeline_text()) && after == self,
                Some(active) => if exists|i: int|
                    0 <= i < events@.len() && #[trigger] events@[i].timeline_id != active {
                    (result matches Err(e) && e@ == mismatch_text(active)) && after == self
                } else {
                    result is Ok && self.queued(
                        after,
                        PlayerCommand::TimelineMidi { generation: self.generation, events },
                    )
                },
            }
        }
    }

    /// A patch load queued behind what is pending, in live mode.
    pub open spec fn live_load_queued(
        self,
        after: Self,
        command: PlayerCommand<A>,
        result: Result<OutputAction, String>,
    ) -> bool {
        &&& result == Ok::<OutputAction, String>(self.live_action_for())
        &&& after.generation == self.live_generation_for()
        &&& after.pending@ == self.pending@.push(command)
        &&& after.live_requested
        &&& after.live_timeline_id == self.live_timeline_id
        &&& !after.shutdown
    }

    pub open spec fn patch_submitted(
        self,
        after: Self,
        instance_id: InstanceId,
        patch: Option<String>,
        effect_chain: String,
        attachment: A,
        result: Result<OutputAction, String>,
    ) -> bool {
        if self.shutdown {
            self.refused_stopped(after, result)
        } else {
            self.live_load_queued(
                after,
                PlayerCommand::PrepareLivePatch {
                    generation: self.live_generation_for(),
                    instance_id,
                    patch,
                    effect_chain,
                    attachment,
                },
                result,
            )
        }
    }

    pub open spec fn standby_patch_submitted(
        self,
        after: Self,
        instance_id: InstanceId,
        patch: Option<String>,
        effect_chain: String,
        attachment: A,
        result: Result<OutputAction, String>,
    ) -> bool {
        if self.shutdown {
            self.refused_stopped(after, result)
        } else {
            self.live_load_queued(
                after,
                PlayerCommand::PrepareStandbyLivePatch {
                    generation: self.live_generation_for(),
                    instance_id,
                    patch,
                    effect_chain,
                    attachment,
                },
                result,
            )
        }
    }

    pub open spec fn probe_submitted(
        self,
        after: Self,
        instance_id: InstanceId,
        patch: Option<String>,
        attachment: A,
        result: Result<OutputAction, String>,
    ) -> bool {
        if self.shutdown {
            self.refused_stopped(after, result)
        } else {
            let g = spec_next_generation(self.generation);
            &&& result == Ok::<OutputAction, String>(OutputAction::StartGeneration(g))
            &&& after.generation == g
            &&& after.pending@ == self.pending@.push(
                PlayerCommand::ProbeLivePatch { generation: g, instance_id, patch, attachment },
            )
            &&& after.live_requested
            &&& after.live_timeline_id == self.live_timeline_id
            &&& !after.shutdown
        }
    }
}

/// Whether every event is addressed to timeline `active`.
pub fn all_on_timeline(events: &Vec<TimelineMidiEvent>, active: u64) -> (all: bool)
    ensures
        all == forall|i: int| 0 <= i < events@.len() ==> #[trigger] events@[i].timeline_id == active,
{
    let mut i: usize = 0;
    while i < events.len()
        invariant
            0 <= i <= events@.len(),
            forall|j: int| 0 <= j < i ==> #[trigger] events@[j].timeline_id == active,
        decreases events@.len() - i,
    {
        if events[i].timeline_id != active {
            return false;
        }
        i = i + 1;
    }
    true
}

impl<A> PlayerState<A> {
    pub fn new() -> (state: PlayerState<A>)
        ensures
            state.generation == 0,
            state.pending@.len() == 0,
            !state.live_requested,
            state.live_timeline_id is None,
            !state.shutdown,
    {
        PlayerState {
            generation: 0,
            pending: Vec::new(),
            live_requested: false,
            live_timeline_id: None,
            shutdown: false,
        }
    }

    /// Starts a new generation.
    fn begin_new_generation(&mut self) -> (result: Result<u64, String>)
        ensures
            old(self).shutdown ==> old(self).refused_stopped(*final(self), result),
            !old(self).shutdown ==> result == Ok::<u64, String>(final(self).generation)
                && final(self).generation == spec_next_generation(old(self).generation)
                && final(self).pending == old(self).pending && final(self).live_requested
                == old(self).live_requested && final(self).live_timeline_id
                == old(self).live_timeline_id && !final(self).shutdown,
    {
        if self.shutdown {
            return Err(stopped());
        }
        self.generation = next_generation(self.generation);
        Ok(self.generation)
    }

    /// Plays a song from the start: a new generation, and nothing queued before it
    /// still runs.
    pub fn submit_play(&mut self, patch: Option<String>, attachment: A) -> (result: Result<OutputAction, String>)
        ensures
            old(self).play_submitted(*final(self), patch, attachment, result),
    {
        let generation = match self.begin_new_generation() {
            Ok(g) => g,
            Err(e) => return Err(e),
        };
        self.live_requested = false;
        self.live_timeline_id = None;
        self.pending = Vec::new();
        self.pending.push(PlayerCommand::Play { generation, patch, attachment });
        Ok(OutputAction::StartGeneration(generation))
    }

    /// Stops everything: a new, silent generation, and nothing queued before it runs.
    pub fn submit_stop(&mut self) -> (result: Result<OutputAction, String>)
        ensures
            old(self).stop_submitted(*final(self), result),
    {
        if self.shutdown {
            return Err(stopped());
        }
        self.generation = next_generation(self.generation);
        let generation = self.generation;
        self.live_requested = false;
        self.live_timeline_id = None;
        self.pending = Vec::new();
        self.pending.push(PlayerCommand::StopAll { generation });
        Ok(OutputAction::StopGeneration(generation))
    }

    /// Silences one instance in a new generation; queued work for the others stays.
    pub fn submit_stop_instance(&mut self, instance_id: InstanceId) -> (result: Result<OutputAction, String>)
        ensures
            old(self).stop_instance_submitted(*final(self), instance_id, result),
    {
        let generation = match self.begin_new_generation() {
            Ok(g) => g,
            Err(e) => return Err(e),
        };
        self.pending.push(PlayerCommand::StopInstance { generation, instance_id });
        Ok(OutputAction::StartGeneration(generation))
    }

    /// Queues live MIDI. The first batch after anything but live play enters live mode:
    /// a new generation, and what was queued before is dropped.
    pub fn submit_midi(&mut self, events: Vec<FastMidiEvent>) -> (result: Result<OutputAction, String>)
        ensures
            old(self).midi_submitted(*final(self), events, result),
    {
        if self.shutdown {
            return Err(stopped());
        }
        let enter_live = !self.live_requested;
        let mut action = OutputAction::Nothing;
        if enter_live {
            self.generation = next_generation(self.generation);
            self.pending = Vec::new();
            self.live_requested = true;
            action = OutputAction::StartGeneration(self.generation);
        }
        let generation = self.generation;
        self.pending.push(PlayerCommand::Midi { generation, events, enter_live });
        Ok(action)
    }

    /// (Re)starts the live timeline. While live play runs the generation stays, so
    /// that the frames already rendered still sound; queued work other than fade-outs
    /// is dropped.
    pub fn submit_begin_live_timeline(&mut self, config: LiveTimelineConfig) -> (result: Result<OutputAction, String>)
        ensures
            old(self).timeline_begun(*final(self), config, result),
    {
        if self.shutdown {
            return Err(stopped());
        }
        if !self.live_requested {
            self.generation = next_generation(self.generation);
        }
        let generation = self.generation;
        let mut kept: Vec<PlayerCommand<A>> = Vec::new();
        let ghost original = self.pending@;
        let mut rest = Vec::new();
        std::mem::swap(&mut rest, &mut self.pending);
        let ghost taken: Seq<PlayerCommand<A>> = Seq::empty();
        while rest.len() > 0
            invariant
                original == taken + rest@,
                kept@ == fade_outs(taken),
            decreases rest@.len(),
        {
            let command = rest.remove(0);
            let ghost before = taken;
            proof {
                assert(original == (taken + seq![command]) + rest@);
                taken = taken.push(command);
                assert(taken.drop_last() =~= before);
                assert(taken.last() == command);
                reveal(Seq::filter);
            }
            if command.is_fade_out_command() {
                kept.push(command);
            }
        }
        proof {
            assert(taken =~= original);
        }
        self.pending = kept;
        self.live_requested = true;
        self.live_timeline_id = Some(config.timeline_id);
        self.pending.push(PlayerCommand::BeginLiveTimeline { generation, config });
        Ok(OutputAction::StartGeneration(generation))
    }

    fn mismatch(active: u64) -> (message: String)
        ensures
            message@ == mismatch_text(active),
    {
        let mut message = crate::text::owned("timeline mismatch: active=");
        message.append(decimal_string(active).as_str());
        message
    }

    /// Appends a tempo change to the running timeline's tempo map. The generation
    /// stays: a tempo change is data on the timeline, and must not cut off what
    /// was rendered.
    pub fn submit_set_live_tempo(&mut self, change: LiveTempoChange) -> (result: Result<(), String>)
        ensures
            old(self).tempo_submitted(*final(self), change, result),
    {
        if self.shutdown {
            return Err(stopped());
        }
        let active = match self.live_timeline_id {
            None => return Err(crate::text::owned("no live timeline has been started")),
            Some(id) => id,
        };
        if change.timeline_id != active {
            return Err(Self::mismatch(active));
        }
        let generation = self.generation;
        self.pending.push(PlayerCommand::SetLiveTempo { generation, change });
        Ok(())
    }

    /// Queues a fade-out of live instances. Without live play there is nothing to
    /// fade, and nothing is queued.
    pub fn submit_fade_out_instances(&mut self, instance_ids: Vec<InstanceId>, fade_frames: u32) -> (result: Result<(), String>)
        ensures
            old(self).fade_out_submitted(*final(self), instance_ids, fade_frames, result),
    {
        if self.shutdown {
            return Err(stopped());
        }
        if !self.live_requested {
            return Ok(());
        }
        self.pending.push(PlayerCommand::FadeOutInstances { instance_ids, fade_frames });
        Ok(())
    }

    /// Queues MIDI at absolute times of the running timeline; every event must be
    /// addressed to it.
    pub fn submit_timeline_midi(&mut self, events: Vec<TimelineMidiEvent>) -> (result: Result<(), String>)
        ensures
            old(self).timeline_midi_submitted(*final(self), events, result),
    {
        if self.shutdown {
            return Err(stopped());
        }
        let active = match self.live_timeline_id {
            None => return Err(crate::text::owned("no live timeline has been started")),
            Some(id) => id,
        };
        if !all_on_timeline(&events, active) {
            return Err(Self::mismatch(active));
        }
        let generation = self.generation;
        self.pending.push(PlayerCommand::TimelineMidi { generation, events });
        Ok(())
    }

    /// The generation a patch load runs in: the current one while live play runs,
    /// so that loading into an idle instance does not cut off the sounding ones;
    /// otherwise a new one.
    fn live_generation(&mut self) -> (result: Result<(u64, OutputAction), String>)
        ensures
            old(self).shutdown ==> (result matches Err(e) && e@ == stopped_text()) && *final(self)
                == *old(self),
            !old(self).shutdown && old(self).live_requested ==> result == Ok::<
                (u64, OutputAction),
                String,
            >((old(self).generation, OutputAction::Nothing)) && *final(self) == *old(self),
            !old(self).shutdown && !old(self).live_requested ==> {
                &&& final(self).generation == spec_next_generation(old(self).generation)
                &&& result == Ok::<(u64, OutputAction), String>(
                    (final(self).generation, OutputAction::StartGeneration(final(self).generation)),
                )
                &&& final(self).pending == old(self).pending
                &&& final(self).live_requested == old(self).live_requested
                &&& final(self).live_timeline_id == old(self).live_timeline_id
                &&& !final(self).shutdown
            },
    {
        if self.shutdown {
            return Err(stopped());
        }
        if self.live_requested {
            return Ok((self.generation, OutputAction::Nothing));
        }
        match self.begin_new_generation() {
            Ok(g) => Ok((g, OutputAction::StartGeneration(g))),
            Err(e) => Err(e),
        }
    }

    /// Queues loading a patch into one live instance and enters live mode.
    pub fn submit_prepare_live_patch(
        &mut self,
        instance_id: InstanceId,
        patch: Option<String>,
        effect_chain: String,
        attachment: A,
    ) -> (result: Result<OutputAction, String>)
        ensures
            old(self).patch_submitted(*final(self), instance_id, patch, effect_chain, attachment, result),
    {
        let (generation, action) = match self.live_generation() {
            Ok(pair) => pair,
            Err(e) => return Err(e),
        };
        self.live_requested = true;
        self.pending.push(
            PlayerCommand::PrepareLivePatch { generation, instance_id, patch, effect_chain, attachment },
        );
        Ok(action)
    }

    /// Queues a preload into an instance of the bank that is not playing; the
    /// generation rule is that of [`Self::submit_prepare_live_patch`].
    pub fn submit_prepare_standby_live_patch(
        &mut self,
        instance_id: InstanceId,
        patch: Option<String>,
        effect_chain: String,
        attachment: A,
    ) -> (result: Result<OutputAction, String>)
        ensures
            old(self).standby_patch_submitted(
                *final(self),
                instance_id,
                patch,
                effect_chain,
                attachment,
                result,
            ),
    {
        let (generation, action) = match self.live_generation() {
            Ok(pair) => pair,
            Err(e) => return Err(e),
        };
        self.live_requested = true;
        self.pending.push(
            PlayerCommand::PrepareStandbyLivePatch {
                generation,
                instance_id,
                patch,
                effect_chain,
                attachment,
            },
        );
        Ok(action)
    }

    /// Queues a probe of a patch's voicing, always in a new generation.
    pub fn submit_probe_live_patch(
        &mut self,
        instance_id: InstanceId,
        patch: Option<String>,
        attachment: A,
    ) -> (result: Result<OutputAction, String>)
        ensures
            old(self).probe_submitted(*final(self), instance_id, patch, attachment, result),
    {
        let generation = match self.begin_new_generation() {
            Ok(g) => g,
            Err(e) => return Err(e),
        };
        self.live_requested = true;
        self.pending.push(PlayerCommand::ProbeLivePatch { generation, instance_id, patch, attachment });
        Ok(OutputAction::StartGeneration(generation))
    }

    /// Takes the oldest queued command; none once the worker was shut down.
    pub fn take_command(&mut self) -> (command: Option<PlayerCommand<A>>)
        ensures
            old(self).shutdown || old(self).pending@.len() == 0 ==> command is None && *final(self)
                == *old(self),
            !old(self).shutdown && old(self).pending@.len() > 0 ==> {
                &&& command == Some(old(self).pending@[0])
                &&& final(self).pending@ == old(self).pending@.drop_first()
                &&& final(self).generation == old(self).generation
                &&& final(self).live_requested == old(self).live_requested
                &&& final(self).live_timeline_id == old(self).live_timeline_id
                &&& final(self).shutdown == old(self).shutdown
            },
    {
        if self.shutdown || self.pending.len() == 0 {
            return None;
        }
        let command = self.pending.remove(0);
        assert(self.pending@ =~= old(self).pending@.drop_first());
        Some(command)
    }

    /// Stops the worker: no command is taken or accepted afterwards.
    pub fn shutdown(&mut self) -> (action: OutputAction)
        ensures
            final(self).shutdown,
            final(self).pending == old(self).pending,
            final(self).generation == old(self).generation,
            final(self).live_requested == old(self).live_requested,
            final(self).live_timeline_id == old(self).live_timeline_id,
            action == OutputAction::Shutdown,
    {
        self.shutdown = true;
        OutputAction::Shutdown
    }
}

impl<A> PlayerCommand<A> {
    pub fn is_fade_out_command(&self) -> (fade: bool)
        ensures
            fade == self.is_fade_out(),
    {
        match self {
            PlayerCommand::FadeOutInstances { .. } => true,
            _ => false,
        }
    }
}

} // verus!
