//! The decisions of the player's worker loop. The loop itself waits, renders and
//! talks to the device; here is what it does next, from what it plays and what
//! happened.
use vstd::prelude::*;

use crate::audio_output::ChunkPush;
use crate::player_queue::{PlayerCommand, PlayerState};

verus! {

/// What the worker plays.
#[derive(Clone, Copy, Debug, PartialEq, Eq, Structural)]
pub enum Playback {
    Idle,
    /// A song rendered from its schedule.
    Scheduled { generation: u64 },
    /// Live play. `timeline_started` is `None` without a timeline, and `Some(false)`
    /// while a timeline waits for its first events.
    Live { generation: u64, clock_samples: u64, timeline_started: Option<bool> },
}

/// Whether the loop has nothing to render and may sleep until a command comes.
pub open spec fn spec_nothing_to_render(playback: Playback) -> bool {
    ||| playback is Idle
    ||| playback matches Playback::Live { timeline_started: Some(false), .. }
}

pub fn nothing_to_render(playback: &Playback) -> (idle: bool)
    ensures
        idle == spec_nothing_to_render(*playback),
{
    match playback {
        Playback::Idle => true,
        Playback::Live { timeline_started: Some(false), .. } => true,
        _ => false,
    }
}

/// The next thing the loop does.
#[derive(Debug)]
pub enum WorkerStep<A> {
    /// Settle the pending preload and sleep until a command comes; none means the
    /// worker was shut down and the loop ends.
    WaitForCommand,
    /// Apply a command taken from the queue.
    Apply(PlayerCommand<A>),
    /// Render the next block once the output has room for it.
    RenderWhenSpace,
}

/// Chooses the next step. Queued commands go before rendering, so that a stop or a
/// new patch takes effect before the next block.
pub fn next_step<A>(playback: &Playback, queue: &mut PlayerState<A>) -> (step: WorkerStep<A>)
    ensures
        spec_nothing_to_render(*playback) ==> step is WaitForCommand && *final(queue) == *old(
            queue,
        ),
        !spec_nothing_to_render(*playback) && !old(queue).shutdown && old(queue).pending@.len() > 0
            ==> step == WorkerStep::Apply(old(queue).pending@[0]) && final(queue).pending@ == old(
            queue,
        ).pending@.drop_first() && final(queue).generation == old(queue).generation
            && final(queue).live_requested == old(queue).live_requested
            && final(queue).live_timeline_id == old(queue).live_timeline_id
            && final(queue).shutdown == old(queue).shutdown,
        !spec_nothing_to_render(*playback) && (old(queue).shutdown || old(queue).pending@.len()
            == 0) ==> step is RenderWhenSpace && *final(queue) == *old(queue),
{
    if nothing_to_render(playback) {
        return WorkerStep::WaitForCommand;
    }
    match queue.take_command() {
        Some(command) => WorkerStep::Apply(command),
        None => WorkerStep::RenderWhenSpace,
    }
}

/// The clock at the start of the block about to be rendered: rendering advances
/// it, so it is read before.
pub fn block_start_clock(playback: &Playback) -> (clock: u64)
    ensures
        clock == (match *playback {
            Playback::Live { clock_samples, .. } => clock_samples,
            _ => 0,
        }),
{
    match playback {
        Playback::Live { clock_samples, .. } => *clock_samples,
        _ => 0,
    }
}

/// How rendering a block went.
#[derive(Clone, Copy, Debug, PartialEq, Eq, Structural)]
pub enum RenderOutcome {
    /// A block was rendered and offered to the output, which answered `push`.
    Block { push: ChunkPush },
    /// The song ended.
    Finished,
    /// The plugins failed to render.
    Failed,
}

/// What the loop does after a block.
#[derive(Clone, Copy, Debug, PartialEq, Eq, Structural)]
pub struct FollowUp {
    pub playback: Playback,
    /// Record the block on the live capture, if one is running.
    pub capture_block: bool,
    /// Feed the block's timing to the live timing window.
    pub observe_timing: bool,
    /// Write out the live capture, if one is running.
    pub finish_capture: bool,
    /// Tell the output the song ended.
    pub finish_output: bool,
    /// Reset the limiter, its meter and the automatic gains.
    pub reset_dynamics: bool,
    /// Reset every plugin instance.
    pub reset_instances: bool,
}

pub open spec fn is_live(playback: Playback) -> bool {
    playback is Live
}

/// The follow-up of a block rendered while playing `playback`.
pub open spec fn spec_after_render(playback: Playback, outcome: RenderOutcome) -> FollowUp {
    let quiet = FollowUp {
        playback: Playback::Idle,
        capture_block: false,
        observe_timing: false,
        finish_capture: true,
        finish_output: true,
        reset_dynamics: true,
        reset_instances: false,
    };
    match outcome {
        RenderOutcome::Block { push } => {
            let dropped = push is Stale;
            FollowUp {
                playback: if dropped {
                    Playback::Idle
                } else {
                    playback
                },
                capture_block: is_live(playback),
                observe_timing: is_live(playback) && !dropped,
                finish_capture: false,
                finish_output: false,
                reset_dynamics: false,
                reset_instances: false,
            }
        },
        RenderOutcome::Finished => quiet,
        RenderOutcome::Failed => FollowUp { reset_instances: true, ..quiet },
    }
}

/// Decides what follows a block. A block the output refused ends the playback, as
/// does the end of the song or a failure; those also reset the dynamics and write
/// out the capture, and a failure resets the instances.
pub fn after_render(playback: Playback, outcome: RenderOutcome) -> (follow_up: FollowUp)
    requires
        !(playback is Idle),
        outcome matches RenderOutcome::Block { push } ==> !(push is Full),
    ensures
        follow_up == spec_after_render(playback, outcome),
{
    let live = match playback {
        Playback::Live { .. } => true,
        _ => false,
    };
    let quiet = FollowUp {
        playback: Playback::Idle,
        capture_block: false,
        observe_timing: false,
        finish_capture: true,
        finish_output: true,
        reset_dynamics: true,
        reset_instances: false,
    };
    match outcome {
        RenderOutcome::Block { push } => {
            let dropped = match push {
                ChunkPush::Stale => true,
                _ => false,
            };
            FollowUp {
                playback: if dropped {
                    Playback::Idle
                } else {
                    playback
                },
                capture_block: live,
                observe_timing: live && !dropped,
                finish_capture: false,
                finish_output: false,
                reset_dynamics: false,
                reset_instances: false,
            }
        },
        RenderOutcome::Finished => quiet,
        RenderOutcome::Failed => FollowUp { reset_instances: true, ..quiet },
    }
}

/// What applying a command does to the playback, beside the plugins and the queued
/// events themselves.
#[derive(Clone, Copy, Debug, PartialEq, Eq, Structural)]
pub struct CommandEffect {
    pub playback: Playback,
    /// Drop the live queues, automatic gains and fades.
    pub clear_live: bool,
    /// Forget the song's schedule.
    pub drop_schedule: bool,
    /// Where timeline seconds are counted from, once a timeline begins.
    pub timeline_start: Option<u64>,
}

/// Live play as a live command finds it: the running one, or a fresh one at clock 0.
pub open spec fn entered_live(playback: Playback, generation: u64) -> Playback {
    if playback is Live {
        playback
    } else {
        Playback::Live { generation, clock_samples: 0, timeline_started: None }
    }
}

/// Entering live play from `playback`: whatever was not live is dropped.
pub open spec fn live_entry(playback: Playback, generation: u64) -> CommandEffect {
    CommandEffect {
        playback: entered_live(playback, generation),
        clear_live: !(playback is Live),
        drop_schedule: !(playback is Live),
        timeline_start: None,
    }
}

pub open spec fn unchanged(playback: Playback) -> CommandEffect {
    CommandEffect { playback, clear_live: false, drop_schedule: false, timeline_start: None }
}

/// The effect of `command` on `playback`; `starts_song` says whether a play command
/// carries a song to render.
pub open spec fn spec_command_effect<A>(
    playback: Playback,
    command: PlayerCommand<A>,
    starts_song: bool,
) -> CommandEffect {
    match command {
        PlayerCommand::Play { generation, .. } => if starts_song {
            CommandEffect {
                playback: Playback::Scheduled { generation },
                clear_live: true,
                drop_schedule: false,
                timeline_start: None,
            }
        } else {
            unchanged(playback)
        },
        PlayerCommand::StopAll { .. } => CommandEffect {
            playback: Playback::Idle,
            clear_live: true,
            drop_schedule: true,
            timeline_start: None,
        },
        PlayerCommand::Midi { generation, enter_live, .. } => live_entry(
            if enter_live {
                Playback::Idle
            } else {
                playback
            },
            generation,
        ),
        PlayerCommand::BeginLiveTimeline { generation, .. } => {
            let clock = match entered_live(playback, generation) {
                Playback::Live { clock_samples, .. } => clock_samples,
                _ => 0,
            };
            CommandEffect {
                playback: Playback::Live {
                    generation,
                    clock_samples: clock,
                    timeline_started: Some(false),
                },
                timeline_start: Some(clock),
                ..live_entry(playback, generation)
            }
        },
        PlayerCommand::TimelineMidi { generation, .. } => match playback {
            Playback::Live { clock_samples, .. } => unchanged(
                Playback::Live { generation, clock_samples, timeline_started: Some(true) },
            ),
            _ => unchanged(playback),
        },
        PlayerCommand::PrepareLivePatch { generation, .. } => live_entry(playback, generation),
        PlayerCommand::PrepareStandbyLivePatch { generation, .. } => live_entry(
            playback,
            generation,
        ),
        PlayerCommand::ProbeLivePatch { generation, .. } => live_entry(playback, generation),
        _ => unchanged(playback),
    }
}

fn enter_live(playback: Playback, generation: u64) -> (effect: CommandEffect)
    ensures
        effect == live_entry(playback, generation),
{
    match playback {
        Playback::Live { .. } => CommandEffect {
            playback,
            clear_live: false,
            drop_schedule: false,
            timeline_start: None,
        },
        _ => CommandEffect {
            playback: Playback::Live { generation, clock_samples: 0, timeline_started: None },
            clear_live: true,
            drop_schedule: true,
            timeline_start: None,
        },
    }
}

/// What applying `command` does to `playback`: a song replaces live play, a stop ends
/// everything, and a live command enters live play unless it is running.
pub fn command_effect<A>(playback: Playback, command: &PlayerCommand<A>, starts_song: bool) -> (effect:
    CommandEffect)
    ensures
        effect == spec_command_effect(playback, *command, starts_song),
{
    let kept = CommandEffect { playback, clear_live: false, drop_schedule: false, timeline_start: None };
    match command {
        PlayerCommand::Play { generation, .. } => if starts_song {
            CommandEffect {
                playback: Playback::Scheduled { generation: *generation },
                clear_live: true,
                drop_schedule: false,
                timeline_start: None,
            }
        } else {
            kept
        },
        PlayerCommand::StopAll { .. } => CommandEffect {
            playback: Playback::Idle,
            clear_live: true,
            drop_schedule: true,
            timeline_start: None,
        },
        PlayerCommand::Midi { generation, enter_live: fresh, .. } => {
            let base = if *fresh {
                Playback::Idle
            } else {
                playback
            };
            enter_live(base, *generation)
        },
        PlayerCommand::BeginLiveTimeline { generation, .. } => {
            let entered = enter_live(playback, *generation);
            let clock = block_start_clock(&entered.playback);
            CommandEffect {
                playback: Playback::Live {
                    generation: *generation,
                    clock_samples: clock,
                    timeline_started: Some(false),
                },
                clear_live: entered.clear_live,
                drop_schedule: entered.drop_schedule,
                timeline_start: Some(clock),
            }
        },
        PlayerCommand::TimelineMidi { generation, .. } => match playback {
            Playback::Live { clock_samples, .. } => CommandEffect {
                playback: Playback::Live {
                    generation: *generation,
                    clock_samples,
                    timeline_started: Some(true),
                },
                ..kept
            },
            _ => kept,
        },
        PlayerCommand::PrepareLivePatch { generation, .. } => enter_live(playback, *generation),
        PlayerCommand::PrepareStandbyLivePatch { generation, .. } => enter_live(playback, *generation),
        PlayerCommand::ProbeLivePatch { generation, .. } => enter_live(playback, *generation),
        _ => kept,
    }
}

/// Running live play keeps going, on the same clock, through every command but a stop,
/// a song, or a MIDI batch that asks for a fresh start; none of them drops its queues.
pub proof fn law_live_play_keeps_its_clock<A>(
    playback: Playback,
    command: PlayerCommand<A>,
    starts_song: bool,
)
    requires
        playback is Live,
        !(command is StopAll),
        !(command is Play && starts_song),
        !(command matches PlayerCommand::Midi { enter_live: true, .. }),
    ensures
        ({
            let effect = spec_command_effect(playback, command, starts_song);
            &&& effect.playback is Live
            &&& effect.playback->clock_samples == playback->clock_samples
            &&& !effect.clear_live
            &&& !effect.drop_schedule
        }),
{
}

/// Timeline events start a live timeline: live play goes on from the same clock with
/// its timeline started, so the loop renders again, whatever it was waiting for.
pub proof fn law_timeline_events_start_rendering<A>(
    playback: Playback,
    command: PlayerCommand<A>,
    starts_song: bool,
)
    requires
        playback is Live,
        command is TimelineMidi,
    ensures
        ({
            let effect = spec_command_effect(playback, command, starts_song);
            &&& effect.playback matches Playback::Live { timeline_started: Some(true), .. }
            &&& effect.playback->clock_samples == playback->clock_samples
            &&& !spec_nothing_to_render(effect.playback)
        }),
{
}

/// A timeline that begins waits for its first events: the loop renders nothing until
/// they come.
pub proof fn law_a_new_timeline_waits_for_its_events<A>(
    playback: Playback,
    command: PlayerCommand<A>,
    starts_song: bool,
)
    requires
        command is BeginLiveTimeline,
    ensures
        spec_nothing_to_render(spec_command_effect(playback, command, starts_song).playback),
        spec_command_effect(playback, command, starts_song).playback is Live,
{
}

/// A stop ends every playback and drops what live play kept; a song replaces whatever
/// played, and plays from its own generation.
pub proof fn law_stop_ends_and_a_song_replaces<A>(
    playback: Playback,
    command: PlayerCommand<A>,
    starts_song: bool,
)
    ensures
        command is StopAll ==> spec_command_effect(playback, command, starts_song).playback is Idle
            && spec_command_effect(playback, command, starts_song).clear_live && spec_command_effect(
            playback,
            command,
            starts_song,
        ).drop_schedule,
        command is Play && starts_song ==> spec_command_effect(
            playback,
            command,
            starts_song,
        ).playback == (Playback::Scheduled { generation: command->Play_generation })
            && spec_command_effect(
            playback,
            command,
            starts_song,
        ).clear_live,
{
}

/// After a command was applied: a command that ended the playback is where the
/// live capture is written out, since a stopped process would never reach the end
/// of the loop.
pub fn finishes_capture_after_command(playback: &Playback) -> (finish: bool)
    ensures
        finish == (*playback is Idle),
{
    match playback {
        Playback::Idle => true,
        _ => false,
    }
}

} // verus!
