use clap_mml_play_server::audio_output::ChunkPush;
use clap_mml_play_server::ipc::{FastMidiEvent, LiveTimelineConfig};
use clap_mml_play_server::player_queue::{PlayerCommand, PlayerState};
use clap_mml_play_server::worker_loop::{
    after_render, block_start_clock, command_effect, finishes_capture_after_command, next_step,
    nothing_to_render, CommandEffect, Playback, RenderOutcome, WorkerStep,
};

fn live(timeline_started: Option<bool>) -> Playback {
    Playback::Live {
        generation: 1,
        clock_samples: 4096,
        timeline_started,
    }
}

#[test]
fn the_worker_sleeps_only_with_nothing_to_render() {
    assert!(nothing_to_render(&Playback::Idle));
    assert!(nothing_to_render(&live(Some(false))));
    assert!(!nothing_to_render(&live(Some(true))));
    assert!(!nothing_to_render(&live(None)));
    assert!(!nothing_to_render(&Playback::Scheduled { generation: 3 }));
}

#[test]
fn queued_commands_go_before_the_next_block() {
    let mut queue: PlayerState<u32> = PlayerState::new();
    queue
        .submit_midi(vec![FastMidiEvent {
            instance_id: 0,
            offset_frames: 0,
            message: [0x90, 60, 100],
        }])
        .unwrap();
    assert!(matches!(
        next_step(&Playback::Idle, &mut queue),
        WorkerStep::WaitForCommand
    ));
    assert_eq!(queue.pending.len(), 1);
    assert!(matches!(
        next_step(&live(None), &mut queue),
        WorkerStep::Apply(PlayerCommand::Midi { generation: 1, .. })
    ));
    assert!(matches!(
        next_step(&live(None), &mut queue),
        WorkerStep::RenderWhenSpace
    ));
}

#[test]
fn the_capture_clock_is_read_before_rendering() {
    assert_eq!(block_start_clock(&live(None)), 4096);
    assert_eq!(block_start_clock(&Playback::Scheduled { generation: 2 }), 0);
}

#[test]
fn a_refused_block_ends_the_playback() {
    let follow_up = after_render(live(None), RenderOutcome::Block { push: ChunkPush::Stale });
    assert_eq!(follow_up.playback, Playback::Idle);
    assert!(follow_up.capture_block);
    assert!(!follow_up.observe_timing);

    let kept = after_render(live(None), RenderOutcome::Block { push: ChunkPush::Complete });
    assert_eq!(kept.playback, live(None));
    assert!(kept.observe_timing);
    assert!(!kept.finish_output);
}

#[test]
fn the_end_of_a_song_and_a_failure_reset_the_dynamics() {
    let song = Playback::Scheduled { generation: 5 };
    let finished = after_render(song, RenderOutcome::Finished);
    assert_eq!(finished.playback, Playback::Idle);
    assert!(finished.finish_capture && finished.finish_output && finished.reset_dynamics);
    assert!(!finished.reset_instances);

    let failed = after_render(song, RenderOutcome::Failed);
    assert!(failed.reset_instances && failed.reset_dynamics && failed.finish_output);
}

#[test]
fn a_stop_is_where_the_live_capture_is_written() {
    assert!(finishes_capture_after_command(&Playback::Idle));
    assert!(!finishes_capture_after_command(&live(Some(true))));
}

fn timeline_config() -> LiveTimelineConfig {
    LiveTimelineConfig {
        timeline_id: 9,
        sample_rate_hz_bits: 48_000f64.to_bits(),
        tempo_bpm_bits: 120f64.to_bits(),
        time_signature_numerator: 4,
        time_signature_denominator: 4,
    }
}

#[test]
fn a_timeline_begins_at_the_running_live_clock() {
    let command: PlayerCommand<()> = PlayerCommand::BeginLiveTimeline { generation: 2, config: timeline_config() };
    let effect = command_effect(live(None), &command, false);
    assert_eq!(
        effect,
        CommandEffect {
            playback: Playback::Live { generation: 2, clock_samples: 4096, timeline_started: Some(false) },
            clear_live: false,
            drop_schedule: false,
            timeline_start: Some(4096),
        }
    );
    let effect = command_effect(Playback::Scheduled { generation: 1 }, &command, false);
    assert_eq!(effect.playback, Playback::Live { generation: 2, clock_samples: 0, timeline_started: Some(false) });
    assert!(effect.clear_live && effect.drop_schedule);
    assert_eq!(effect.timeline_start, Some(0));
}

#[test]
fn stop_all_ends_every_playback_and_a_song_replaces_live_play() {
    let stop: PlayerCommand<()> = PlayerCommand::StopAll { generation: 3 };
    let effect = command_effect(live(Some(true)), &stop, false);
    assert_eq!(effect.playback, Playback::Idle);
    assert!(effect.clear_live && effect.drop_schedule);

    let play: PlayerCommand<()> = PlayerCommand::Play { generation: 4, patch: None, attachment: () };
    let effect = command_effect(live(Some(true)), &play, true);
    assert_eq!(effect.playback, Playback::Scheduled { generation: 4 });
    assert!(effect.clear_live && !effect.drop_schedule);
    assert_eq!(command_effect(Playback::Idle, &play, false).playback, Playback::Idle);
}

#[test]
fn midi_that_asks_for_a_fresh_start_restarts_live_play() {
    let fresh: PlayerCommand<()> = PlayerCommand::Midi { generation: 5, events: vec![], enter_live: true };
    let effect = command_effect(live(Some(true)), &fresh, false);
    assert_eq!(effect.playback, Playback::Live { generation: 5, clock_samples: 0, timeline_started: None });
    assert!(effect.clear_live);

    let more: PlayerCommand<()> = PlayerCommand::Midi { generation: 5, events: vec![], enter_live: false };
    let effect = command_effect(live(Some(true)), &more, false);
    assert_eq!(effect.playback, live(Some(true)));
    assert!(!effect.clear_live && !effect.drop_schedule);
}
