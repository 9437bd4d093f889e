//! The player as its users see it: requests are checked, queued for the worker, and
//! the audio output is told which generation now plays.
use vstd::prelude::*;

use crate::audio_output::{is_supported_multiplier, multiplier_error_text, AudioOutput};
use crate::bank::{layout_error_text, range_error_text, split_sizes, BankLayout, BankSlot};
use crate::ipc::{FastMidiEvent, InstanceId, LiveTempoChange, LiveTimelineConfig, TimelineMidiEvent, INSTANCE_COUNT};
use crate::live::{
    live_range_text, option_view, resolve_live_patch, spec_resolve_live_patch,
    validate_live_instance_id, wire_range_text, PatchBases,
};
use crate::player_queue::{fade_outs, OutputAction, PlayerCommand, PlayerState};

verus! {

/// Why `instance_id` is refused for a player of `count` live instances, if it is.
pub open spec fn id_refusal(instance_id: InstanceId, count: nat) -> Option<Seq<char>> {
    if instance_id >= INSTANCE_COUNT {
        Some(wire_range_text(instance_id as nat))
    } else if instance_id >= count {
        Some(live_range_text(instance_id as nat, count))
    } else {
        None
    }
}

/// The refusal of the first refused ID, if any is.
pub open spec fn first_refusal(ids: Seq<InstanceId>, count: nat) -> Option<Seq<char>>
    decreases ids.len(),
{
    if ids.len() == 0 {
        None
    } else {
        match id_refusal(ids[0], count) {
            Some(message) => Some(message),
            None => first_refusal(ids.drop_first(), count),
        }
    }
}

pub open spec fn event_ids(events: Seq<FastMidiEvent>) -> Seq<InstanceId> {
    events.map_values(|e: FastMidiEvent| e.instance_id)
}

pub open spec fn timeline_event_ids(events: Seq<TimelineMidiEvent>) -> Seq<InstanceId> {
    events.map_values(|e: TimelineMidiEvent| e.instance_id)
}

pub open spec fn empty_midi_text() -> Seq<char> {
    "MIDI events must not be empty"@
}

pub open spec fn empty_timeline_midi_text() -> Seq<char> {
    "timeline MIDI events must not be empty"@
}

/// The output after it was told `action`.
pub open spec fn told(before: AudioOutput, action: OutputAction, after: AudioOutput) -> bool {
    &&& after.queued() == before.queued()
    &&& after.ring_capacity() == before.ring_capacity()
    &&& after.depth() == before.depth()
    &&& after.device_frames() == before.device_frames()
    &&& after.underruns() == before.underruns()
    &&& match action {
        OutputAction::Nothing => after == before,
        OutputAction::StartGeneration(g) => after.current_generation() == g && after.is_active()
            && after.is_shut_down() == before.is_shut_down(),
        OutputAction::StopGeneration(g) => after.current_generation() == g && !after.is_active()
            && after.is_shut_down() == before.is_shut_down(),
        OutputAction::Shutdown => after.current_generation() == before.current_generation()
            && !after.is_active() && after.is_shut_down(),
    }
}

proof fn lemma_first_refusal_step(ids: Seq<InstanceId>, count: nat, i: int)
    requires
        0 <= i < ids.len(),
        id_refusal(ids[i], count) is None,
    ensures
        first_refusal(ids.skip(i), count) == first_refusal(ids.skip(i + 1), count),
{
    assert(ids.skip(i).drop_first() =~= ids.skip(i + 1));
}

/// Checks the instance IDs in order; the first refused one gives the error.
fn check_ids(ids: &Vec<InstanceId>, count: usize) -> (result: Result<(), String>)
    ensures
        match first_refusal(ids@, count as nat) {
            Some(message) => result matches Err(e) && e@ == message,
            None => result is Ok,
        },
{
    let mut i: usize = 0;
    assert(ids@.skip(0) =~= ids@);
    while i < ids.len()
        invariant
            0 <= i <= ids@.len(),
            first_refusal(ids@, count as nat) == first_refusal(ids@.skip(i as int), count as nat),
        decreases ids@.len() - i,
    {
        proof {
            assert(ids@.skip(i as int)[0] == ids@[i as int]);
        }
        match validate_live_instance_id(ids[i], count) {
            Ok(()) => {},
            Err(e) => return Err(e),
        }
        proof {
            lemma_first_refusal_step(ids@, count as nat, i as int);
        }
        i = i + 1;
    }
    assert(ids@.skip(i as int).len() == 0);
    Ok(())
}

fn ids_of_events(events: &Vec<FastMidiEvent>) -> (ids: Vec<InstanceId>)
    ensures
        ids@ == event_ids(events@),
{
    let mut ids: Vec<InstanceId> = Vec::new();
    let mut i: usize = 0;
    while i < events.len()
        invariant
            0 <= i <= events@.len(),
            ids@ == event_ids(events@.take(i as int)),
        decreases events@.len() - i,
    {
        ids.push(events[i].instance_id);
        assert(events@.take(i + 1) =~= events@.take(i as int).push(events@[i as int]));
        i = i + 1;
    }
    assert(events@.take(i as int) =~= events@);
    ids
}

fn ids_of_timeline_events(events: &Vec<TimelineMidiEvent>) -> (ids: Vec<InstanceId>)
    ensures
        ids@ == timeline_event_ids(events@),
{
    let mut ids: Vec<InstanceId> = Vec::new();
    let mut i: usize = 0;
    while i < events.len()
        invariant
            0 <= i <= events@.len(),
            ids@ == timeline_event_ids(events@.take(i as int)),
        decreases events@.len() - i,
    {
        ids.push(events[i].instance_id);
        assert(events@.take(i + 1) =~= events@.take(i as int).push(events@[i as int]));
        i = i + 1;
    }
    assert(events@.take(i as int) =~= events@);
    ids
}

/// The player's queue, its audio output, and what requests are checked against.
/// `A` travels with the commands that carry something for the worker.
pub struct Player<A> {
    pub queue: PlayerState<A>,
    pub output: AudioOutput,
    pub live_instance_count: usize,
    pub patch_bases: PatchBases,
}

impl<A> Player<A> {
    /// An idle player for a device buffer of `buffer_frames` frames.
    pub fn new(buffer_frames: usize, live_instance_count: usize, patch_bases: PatchBases) -> (player: Player<A>)
        requires
            buffer_frames * crate::audio_output::MAX_BUFFER_MULTIPLIER <= usize::MAX,
        ensures
            player.queue.generation == 0,
            player.queue.pending@.len() == 0,
            !player.queue.live_requested,
            player.queue.live_timeline_id is None,
            !player.queue.shutdown,
            player.output.queued().len() == 0,
            player.output.current_generation() == 0,
            !player.output.is_active(),
            player.output.device_frames() == buffer_frames,
            !player.output.is_shut_down(),
            player.output.depth() == crate::audio_output::DEFAULT_BUFFER_MULTIPLIER,
            player.output.underruns() == 0,
            player.output.ring_capacity() == buffer_frames * crate::audio_output::MAX_BUFFER_MULTIPLIER,
            player.live_instance_count == live_instance_count,
            player.patch_bases == patch_bases,
            player.in_step(),
    {
        Player {
            queue: PlayerState::new(),
            output: AudioOutput::new(buffer_frames),
            live_instance_count,
            patch_bases,
        }
    }

    fn tell(output: &mut AudioOutput, action: OutputAction)
        ensures
            told(*old(output), action, *final(output)),
    {
        match action {
            OutputAction::Nothing => {},
            OutputAction::StartGeneration(g) => output.start_generation(g),
            OutputAction::StopGeneration(g) => output.stop_generation(g),
            OutputAction::Shutdown => output.shutdown(),
        }
    }

    /// The requests that leave the player's configuration alone.
    pub open spec fn same_setup(self, other: Self) -> bool {
        &&& self.live_instance_count == other.live_instance_count
        &&& self.patch_bases == other.patch_bases
    }

    /// The output plays the generation the queue is in.
    pub open spec fn in_step(self) -> bool {
        self.queue.generation == self.output.current_generation()
    }

    /// Applies what the queue decided to the output and hands the result on.
    fn finish(output: &mut AudioOutput, submitted: Result<OutputAction, String>) -> (result: Result<
        OutputAction,
        String,
    >)
        ensures
            result == submitted,
            told(*old(output), action_of(submitted), *final(output)),
    {
        match submitted {
            Ok(action) => {
                Self::tell(output, action);
                Ok(action)
            },
            Err(e) => Err(e),
        }
    }

    /// Plays a song: `schedule` is what the worker plays, `patch` the patch to load.
    pub fn play(&mut self, patch: Option<String>, schedule: A) -> (result: Result<OutputAction, String>)
        ensures
            old(self).queue.play_submitted(final(self).queue, patch, schedule, result),
            told(old(self).output, action_of(result), final(self).output),
            final(self).same_setup(*old(self)),
            old(self).in_step() ==> final(self).in_step(),
    {
        let submitted = self.queue.submit_play(patch, schedule);
        Self::finish(&mut self.output, submitted)
    }

    /// Live MIDI: at least one event, each for a configured live instance.
    pub fn send_midi(&mut self, events: Vec<FastMidiEvent>) -> (result: Result<OutputAction, String>)
        ensures
            ({
                let refusal = first_refusal(event_ids(events@), old(self).live_instance_count as nat);
                if events@.len() == 0 {
                    (result matches Err(e) && e@ == empty_midi_text()) && *final(self) == *old(self)
                } else if refusal is Some {
                    (result matches Err(e) && Some(e@) == refusal) && *final(self) == *old(self)
                } else {
                    old(self).queue.midi_submitted(final(self).queue, events, result) && told(
                        old(self).output,
                        action_of(result),
                        final(self).output,
                    )
                }
            }),
            final(self).same_setup(*old(self)),
            old(self).in_step() ==> final(self).in_step(),
    {
        if events.len() == 0 {
            return Err(crate::text::owned("MIDI events must not be empty"));
        }
        let ids = ids_of_events(&events);
        match check_ids(&ids, self.live_instance_count) {
            Ok(()) => {},
            Err(e) => return Err(e),
        }
        let submitted = self.queue.submit_midi(events);
        Self::finish(&mut self.output, submitted)
    }

    /// (Re)starts the live timeline. The caller has checked that the timeline's
    /// sample rate is the output's.
    pub fn begin_live_timeline(&mut self, config: LiveTimelineConfig) -> (result: Result<OutputAction, String>)
        ensures
            old(self).queue.timeline_begun(final(self).queue, config, result),
            told(old(self).output, action_of(result), final(self).output),
            final(self).same_setup(*old(self)),
            old(self).in_step() ==> final(self).in_step(),
    {
        let submitted = self.queue.submit_begin_live_timeline(config);
        Self::finish(&mut self.output, submitted)
    }

    /// A tempo change on the running timeline; the output is left alone.
    pub fn set_live_tempo(&mut self, change: LiveTempoChange) -> (result: Result<(), String>)
        ensures
            old(self).queue.tempo_submitted(final(self).queue, change, result),
            final(self).output == old(self).output,
            final(self).same_setup(*old(self)),
            old(self).in_step() ==> final(self).in_step(),
    {
        self.queue.submit_set_live_tempo(change)
    }

    /// MIDI on the running timeline: at least one event, each for a configured live
    /// instance and addressed to that timeline.
    pub fn send_timeline_midi(&mut self, events: Vec<TimelineMidiEvent>) -> (result: Result<(), String>)
        ensures
            ({
                let refusal = first_refusal(
                    timeline_event_ids(events@),
                    old(self).live_instance_count as nat,
                );
                if events@.len() == 0 {
                    (result matches Err(e) && e@ == empty_timeline_midi_text()) && *final(self)
                        == *old(self)
                } else if refusal is Some {
                    (result matches Err(e) && Some(e@) == refusal) && *final(self) == *old(self)
                } else {
                    old(self).queue.timeline_midi_submitted(final(self).queue, events, result)
                }
            }),
            final(self).output == old(self).output,
            final(self).same_setup(*old(self)),
            old(self).in_step() ==> final(self).in_step(),
    {
        if events.len() == 0 {
            return Err(crate::text::owned("timeline MIDI events must not be empty"));
        }
        let ids = ids_of_timeline_events(&events);
        match check_ids(&ids, self.live_instance_count) {
            Ok(()) => {},
            Err(e) => return Err(e),
        }
        self.queue.submit_timeline_midi(events)
    }

    /// Fades live instances out over `fade_frames` frames; ignored without live play.
    pub fn fade_out_instances(&mut self, instance_ids: Vec<InstanceId>, fade_frames: u32) -> (result: Result<(), String>)
        ensures
            old(self).queue.fade_out_submitted(final(self).queue, instance_ids, fade_frames, result),
            final(self).output == old(self).output,
            final(self).same_setup(*old(self)),
            old(self).in_step() ==> final(self).in_step(),
    {
        self.queue.submit_fade_out_instances(instance_ids, fade_frames)
    }

    /// Loads a patch into one live instance; the patch path is resolved against the
    /// base for its form. `completion` carries the result back.
    pub fn prepare_live_patch(
        &mut self,
        instance_id: InstanceId,
        patch: Option<String>,
        effect_chain: String,
        completion: A,
    ) -> (result: Result<OutputAction, String>)
        ensures
            ({
                let refusal = id_refusal(instance_id, old(self).live_instance_count as nat);
                if refusal is Some {
                    (result matches Err(e) && Some(e@) == refusal) && *final(self) == *old(self)
                } else {
                    exists|resolved: Option<String>|
                        option_view(resolved) == spec_resolve_live_patch(
                            option_view(patch),
                            old(self).patch_bases,
                        ) && #[trigger] old(self).queue.patch_submitted(
                            final(self).queue,
                            instance_id,
                            resolved,
                            effect_chain,
                            completion,
                            result,
                        )
                }
            }),
            told(old(self).output, action_of(result), final(self).output),
            final(self).same_setup(*old(self)),
            old(self).in_step() ==> final(self).in_step(),
    {
        match validate_live_instance_id(instance_id, self.live_instance_count) {
            Ok(()) => {},
            Err(e) => return Err(e),
        }
        let resolved = resolve_live_patch(patch, &self.patch_bases);
        let submitted = self.queue.submit_prepare_live_patch(instance_id, resolved, effect_chain, completion);
        Self::finish(&mut self.output, submitted)
    }

    /// Accepts a preload into an instance of the bank that is not playing. The live
    /// instance count must split into the two banks; the instance's bank position
    /// comes back with the output action.
    pub fn begin_standby_live_patch(
        &mut self,
        instance_id: InstanceId,
        patch: Option<String>,
        effect_chain: String,
        completion: A,
    ) -> (result: Result<(BankSlot, OutputAction), String>)
        ensures
            ({
                let count = old(self).live_instance_count;
                if count == 0 || count % 2 == 1 {
                    (result matches Err(e) && e@ == layout_error_text(count as nat)) && *final(self)
                        == *old(self)
                } else if instance_id >= count {
                    (result matches Err(e) && e@ == range_error_text(instance_id as nat, count as nat))
                        && *final(self) == *old(self)
                } else {
                    exists|resolved: Option<String>, submitted: Result<OutputAction, String>|
                        option_view(resolved) == spec_resolve_live_patch(
                            option_view(patch),
                            old(self).patch_bases,
                        ) && #[trigger] old(self).queue.standby_patch_submitted(
                            final(self).queue,
                            instance_id,
                            resolved,
                            effect_chain,
                            completion,
                            submitted,
                        ) && told(old(self).output, action_of(submitted), final(self).output)
                            && standby_answer(submitted, count as nat, instance_id) == result
                }
            }),
            final(self).same_setup(*old(self)),
            old(self).in_step() ==> final(self).in_step(),
    {
        let layout = match BankLayout::new(self.live_instance_count) {
            Ok(layout) => layout,
            Err(e) => return Err(e),
        };
        let slot = match layout.slot_of(instance_id) {
            Ok(slot) => slot,
            Err(e) => return Err(e),
        };
        let resolved = resolve_live_patch(patch, &self.patch_bases);
        let submitted = self.queue.submit_prepare_standby_live_patch(
            instance_id,
            resolved,
            effect_chain,
            completion,
        );
        match Self::finish(&mut self.output, submitted) {
            Ok(action) => Ok((slot, action)),
            Err(e) => Err(e),
        }
    }
    /// Loads a patch into one live instance in a new generation, to report its
    /// voicing through `completion`.
    pub fn prepare_live_patch_with_voicing(
        &mut self,
        instance_id: InstanceId,
        patch: Option<String>,
        completion: A,
    ) -> (result: Result<OutputAction, String>)
        ensures
            ({
                let refusal = id_refusal(instance_id, old(self).live_instance_count as nat);
                if refusal is Some {
                    (result matches Err(e) && Some(e@) == refusal) && *final(self) == *old(self)
                } else {
                    exists|resolved: Option<String>|
                        option_view(resolved) == spec_resolve_live_patch(
                            option_view(patch),
                            old(self).patch_bases,
                        ) && #[trigger] old(self).queue.probe_submitted(
                            final(self).queue,
                            instance_id,
                            resolved,
                            completion,
                            result,
                        )
                }
            }),
            told(old(self).output, action_of(result), final(self).output),
            final(self).same_setup(*old(self)),
            old(self).in_step() ==> final(self).in_step(),
    {
        match validate_live_instance_id(instance_id, self.live_instance_count) {
            Ok(()) => {},
            Err(e) => return Err(e),
        }
        let resolved = resolve_live_patch(patch, &self.patch_bases);
        let submitted = self.queue.submit_probe_live_patch(instance_id, resolved, completion);
        Self::finish(&mut self.output, submitted)
    }

    /// Sets the render-ahead depth; only 1, 2, 4 and 8 are accepted.
    pub fn set_live_buffer_multiplier(&mut self, multiplier: u16) -> (result: Result<(), String>)
        ensures
            is_supported_multiplier(multiplier as int) ==> result is Ok && final(self).output.depth()
                == multiplier,
            !is_supported_multiplier(multiplier as int) ==> (result matches Err(e) && e@
                == multiplier_error_text()) && final(self).output.depth() == old(self).output.depth(),
            final(self).output.queued() == old(self).output.queued(),
            final(self).output.current_generation() == old(self).output.current_generation(),
            final(self).output.is_active() == old(self).output.is_active(),
            final(self).queue == old(self).queue,
            final(self).same_setup(*old(self)),
            old(self).in_step() ==> final(self).in_step(),
    {
        if multiplier > 8 {
            return Err(crate::text::owned("live buffer multiplier must be 1, 2, 4, or 8"));
        }
        self.output.set_buffer_multiplier(multiplier as u8)
    }

    /// Silences one configured live instance.
    pub fn stop_instance(&mut self, instance_id: InstanceId) -> (result: Result<OutputAction, String>)
        ensures
            ({
                let refusal = id_refusal(instance_id, old(self).live_instance_count as nat);
                if refusal is Some {
                    (result matches Err(e) && Some(e@) == refusal) && *final(self) == *old(self)
                } else {
                    old(self).queue.stop_instance_submitted(final(self).queue, instance_id, result)
                }
            }),
            told(old(self).output, action_of(result), final(self).output),
            final(self).same_setup(*old(self)),
            old(self).in_step() ==> final(self).in_step(),
    {
        match validate_live_instance_id(instance_id, self.live_instance_count) {
            Ok(()) => {},
            Err(e) => return Err(e),
        }
        let submitted = self.queue.submit_stop_instance(instance_id);
        Self::finish(&mut self.output, submitted)
    }

    /// Stops everything.
    pub fn stop(&mut self) -> (result: Result<OutputAction, String>)
        ensures
            old(self).queue.stop_submitted(final(self).queue, result),
            told(old(self).output, action_of(result), final(self).output),
            final(self).same_setup(*old(self)),
            old(self).in_step() ==> final(self).in_step(),
    {
        let submitted = self.queue.submit_stop();
        Self::finish(&mut self.output, submitted)
    }

    /// How many frames the device found missing while the output played.
    pub fn underrun_frames(&self) -> (count: u64)
        ensures
            count == self.output.underruns(),
    {
        self.output.underrun_frames()
    }

    /// Stops the worker and the output for good.
    pub fn shutdown(&mut self)
        ensures
            final(self).queue.shutdown,
            final(self).queue.pending == old(self).queue.pending,
            final(self).queue.generation == old(self).queue.generation,
            told(old(self).output, OutputAction::Shutdown, final(self).output),
            final(self).same_setup(*old(self)),
            old(self).in_step() ==> final(self).in_step(),
    {
        let action = self.queue.shutdown();
        Self::tell(&mut self.output, action);
    }
}

/// Loading a patch while live play runs keeps the generation, so the output is left
/// exactly as it was and the frames already rendered still play.
pub proof fn law_live_patch_keeps_rendered_frames<A>(
    before: Player<A>,
    after: Player<A>,
    instance_id: InstanceId,
    patch: Option<String>,
    effect_chain: String,
    completion: A,
    result: Result<OutputAction, String>,
)
    requires
        before.queue.live_requested,
        before.queue.patch_submitted(after.queue, instance_id, patch, effect_chain, completion, result),
        told(before.output, action_of(result), after.output),
    ensures
        after.queue.generation == before.queue.generation,
        after.output == before.output,
{
}

/// A tempo change is data on the timeline: the generation and the queued work stay,
/// and the change goes behind them.
pub proof fn law_tempo_change_keeps_generation<A>(
    before: PlayerState<A>,
    after: PlayerState<A>,
    change: LiveTempoChange,
    result: Result<(), String>,
)
    requires
        before.tempo_submitted(after, change, result),
    ensures
        after.generation == before.generation,
        result is Ok ==> after.pending@ == before.pending@.push(
            PlayerCommand::SetLiveTempo { generation: before.generation, change },
        ),
        result is Err ==> after == before,
{
}

/// Starting a new timeline while live play runs keeps the generation the output
/// plays, so what was rendered for the previous timeline still sounds; the fade-outs
/// queued for it stay in front of the new timeline.
pub proof fn law_timeline_restart_keeps_rendered_frames<A>(
    before: Player<A>,
    after: Player<A>,
    config: LiveTimelineConfig,
    result: Result<OutputAction, String>,
)
    requires
        before.in_step(),
        before.queue.live_requested,
        !before.queue.shutdown,
        before.queue.timeline_begun(after.queue, config, result),
        told(before.output, action_of(result), after.output),
    ensures
        after.output.current_generation() == before.output.current_generation(),
        after.output.queued() == before.output.queued(),
        after.output.is_active(),
        after.queue.pending@.drop_last() == fade_outs(before.queue.pending@),
{
    assert(after.queue.pending@.drop_last() =~= fade_outs(before.queue.pending@));
}

/// Silencing one instance keeps the work queued for the others, in order.
pub proof fn law_stop_instance_keeps_queued_work<A>(
    before: PlayerState<A>,
    after: PlayerState<A>,
    instance_id: InstanceId,
    result: Result<OutputAction, String>,
)
    requires
        !before.shutdown,
        before.stop_instance_submitted(after, instance_id, result),
    ensures
        after.pending@.take(before.pending@.len() as int) == before.pending@,
        after.pending@.len() == before.pending@.len() + 1,
{
    assert(after.pending@.take(before.pending@.len() as int) =~= before.pending@);
}

/// Once shut down, every request is refused and changes nothing.
pub proof fn law_shutdown_refuses_everything<A>(
    before: PlayerState<A>,
    after: PlayerState<A>,
    patch: Option<String>,
    attachment: A,
    result: Result<OutputAction, String>,
    events: Vec<FastMidiEvent>,
    config: LiveTimelineConfig,
)
    requires
        before.shutdown,
    ensures
        before.play_submitted(after, patch, attachment, result) ==> result is Err && after == before,
        before.stop_submitted(after, result) ==> result is Err && after == before,
        before.midi_submitted(after, events, result) ==> result is Err && after == before,
        before.timeline_begun(after, config, result) ==> result is Err && after == before,
{
}

/// The bank position of instance `index` when `count` instances split into the banks.
pub open spec fn standby_slot(count: nat, index: int) -> BankSlot {
    let first = split_sizes(count).0;
    if index < first {
        BankSlot { bank: 0, local_index: index as usize }
    } else {
        BankSlot { bank: 1, local_index: (index - first) as usize }
    }
}

/// The answer to an accepted preload: the instance's bank position and the action.
pub open spec fn standby_answer(submitted: Result<OutputAction, String>, count: nat, instance_id: InstanceId) -> Result<(BankSlot, OutputAction), String> {
    match submitted {
        Ok(action) => Ok((standby_slot(count, instance_id as int), action)),
        Err(e) => Err(e),
    }
}

/// What the output is told after a submission: nothing when it was refused.
pub open spec fn action_of(result: Result<OutputAction, String>) -> OutputAction {
    match result {
        Ok(action) => action,
        Err(_) => OutputAction::Nothing,
    }
}

} // verus!
