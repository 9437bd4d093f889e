use std::sync::mpsc::{sync_channel, SyncSender};

use clap_mml_play_server::audio_output::ChunkPush;
use clap_mml_play_server::ipc::{
    FastMidiEvent, InstanceId, LiveTempoChange, LiveTimelineConfig, TimelineMidiEvent,
    INSTANCE_COUNT,
};
use clap_mml_play_server::live::PatchBases;
use clap_mml_play_server::player::Player;
use clap_mml_play_server::player_queue::{OutputAction, PlayerCommand, PlayerState};

/// A song stands in as the number it was made from.
type Schedule = u32;
type Completion = SyncSender<Result<(), String>>;

fn player<A>(buffer_frames: usize) -> Player<A> {
    Player::new(buffer_frames, INSTANCE_COUNT, PatchBases::from_bases(None, None))
}

fn event(instance_id: InstanceId, note: u8) -> FastMidiEvent {
    FastMidiEvent {
        instance_id,
        offset_frames: 0,
        message: [0x90, note, 100],
    }
}

fn timeline_config(timeline_id: u64) -> LiveTimelineConfig {
    LiveTimelineConfig {
        timeline_id,
        sample_rate_hz_bits: 48_000.0f64.to_bits(),
        tempo_bpm_bits: 130.0f64.to_bits(),
        time_signature_numerator: 4,
        time_signature_denominator: 4,
    }
}

fn tempo_change(timeline_id: u64, tempo_bpm: f64) -> LiveTempoChange {
    LiveTempoChange {
        timeline_id,
        at_seconds_bits: 7.384_615_384_615_385f64.to_bits(),
        tempo_bpm_bits: tempo_bpm.to_bits(),
        time_signature_numerator: 4,
        time_signature_denominator: 4,
    }
}

fn bits(samples: &[f32]) -> Vec<u32> {
    samples.iter().map(|sample| sample.to_bits()).collect()
}

#[test]
fn submit_play_and_stop_replace_pending_work() {
    let mut player: Player<Schedule> = player(512);
    player.play(Some("first.fxp".to_string()), 10).unwrap();
    player.play(Some("second.fxp".to_string()), 20).unwrap();
    assert!(matches!(
        player.queue.take_command(),
        Some(PlayerCommand::Play {
            generation: 2,
            patch: Some(patch),
            ..
        }) if patch == "second.fxp"
    ));

    player.play(None, 10).unwrap();
    player.stop().unwrap();
    assert!(matches!(
        player.queue.take_command(),
        Some(PlayerCommand::StopAll { generation: 4 })
    ));
}

#[test]
fn live_batches_share_generation_and_preserve_instance_ids() {
    let mut player: Player<Schedule> = player(512);
    player.send_midi(vec![event(0, 60), event(15, 72)]).unwrap();
    player.send_midi(vec![event(7, 64)]).unwrap();

    assert_eq!(player.output.generation(), 1);
    match player.queue.take_command() {
        Some(PlayerCommand::Midi {
            generation,
            events,
            enter_live,
        }) => {
            assert_eq!(generation, 1);
            assert!(enter_live);
            assert_eq!(events[0].instance_id, 0);
            assert_eq!(events[1].instance_id, 15);
        }
        other => panic!("expected MIDI command, got {other:?}"),
    }
    assert!(matches!(
        player.queue.take_command(),
        Some(PlayerCommand::Midi {
            generation: 1,
            enter_live: false,
            ..
        })
    ));
}

#[test]
fn prepare_patch_targets_one_instance_and_returns_completion() {
    let mut player: Player<Completion> = player(512);
    let (completion_tx, completion_rx) = sync_channel(1);
    player
        .prepare_live_patch(12, Some("keys.fxp".to_string()), String::new(), completion_tx)
        .unwrap();

    match player.queue.take_command() {
        Some(PlayerCommand::PrepareLivePatch {
            generation,
            instance_id,
            patch,
            effect_chain,
            attachment: completion,
        }) => {
            assert_eq!(generation, 1);
            assert_eq!(instance_id, 12);
            assert_eq!(patch.as_deref(), Some("keys.fxp"));
            assert_eq!(effect_chain, "");
            completion.send(Ok(())).unwrap();
        }
        other => panic!("expected patch command, got {other:?}"),
    }
    assert_eq!(completion_rx.recv().unwrap(), Ok(()));
}

#[test]
fn preparing_a_patch_while_live_keeps_the_generation() {
    let mut player: Player<Completion> = player(512);
    player.send_midi(vec![event(0, 60)]).unwrap();
    assert_eq!(player.output.generation(), 1);
    assert!(matches!(
        player.queue.take_command(),
        Some(PlayerCommand::Midi { generation: 1, .. })
    ));

    let (completion_tx, _completion_rx) = sync_channel(1);
    player
        .prepare_live_patch(9, Some("shadow.fxp".to_string()), String::new(), completion_tx)
        .unwrap();

    assert_eq!(player.output.generation(), 1, "the rendered frames must stay");
    assert!(matches!(
        player.queue.take_command(),
        Some(PlayerCommand::PrepareLivePatch {
            generation: 1,
            instance_id: 9,
            ..
        })
    ));
}

#[test]
fn preparing_a_patch_before_going_live_starts_a_new_generation() {
    let mut player: Player<Completion> = player(512);
    let (completion_tx, _completion_rx) = sync_channel(1);
    player
        .prepare_live_patch(0, Some("keys.fxp".to_string()), String::new(), completion_tx)
        .unwrap();

    assert_eq!(player.output.generation(), 1);
    assert!(matches!(
        player.queue.take_command(),
        Some(PlayerCommand::PrepareLivePatch { generation: 1, .. })
    ));
}

#[test]
fn stop_instance_does_not_clear_queued_commands_for_other_instances() {
    let mut player: Player<Schedule> = player(512);
    player.send_midi(vec![event(0, 60)]).unwrap();
    player.stop_instance(0).unwrap();

    assert!(matches!(
        player.queue.take_command(),
        Some(PlayerCommand::Midi { .. })
    ));
    assert!(matches!(
        player.queue.take_command(),
        Some(PlayerCommand::StopInstance {
            instance_id: 0,
            generation: 2
        })
    ));
}

#[test]
fn setting_the_live_tempo_keeps_the_generation_and_the_rendered_ring() {
    let mut player: Player<Schedule> = player(512);
    player.begin_live_timeline(timeline_config(3)).unwrap();
    assert_eq!(player.output.generation(), 1);
    assert!(matches!(
        player.queue.take_command(),
        Some(PlayerCommand::BeginLiveTimeline { generation: 1, .. })
    ));

    player.set_live_tempo(tempo_change(3, 65.0)).unwrap();
    assert_eq!(player.output.generation(), 1);
    assert!(matches!(
        player.queue.take_command(),
        Some(PlayerCommand::SetLiveTempo {
            generation: 1,
            change,
        }) if f64::from_bits(change.tempo_bpm_bits) == 65.0
    ));
}

#[test]
fn a_tempo_change_without_a_matching_timeline_is_refused() {
    let mut player: Player<Schedule> = player(512);
    assert!(player.set_live_tempo(tempo_change(3, 65.0)).is_err());

    player.begin_live_timeline(timeline_config(3)).unwrap();
    assert!(player.set_live_tempo(tempo_change(2, 65.0)).is_err());
}

#[test]
fn commands_fail_after_shutdown() {
    let mut player: Player<Schedule> = player(512);
    player.shutdown();
    assert!(player.play(None, 10).is_err());
    assert!(player.queue.take_command().is_none());
}

#[test]
fn rebeginning_the_timeline_while_live_keeps_the_rendered_ring() {
    let mut player: Player<Schedule> = player(2);
    player.begin_live_timeline(timeline_config(1)).unwrap();
    assert_eq!(
        player.output.push_chunk(1, &bits(&[0.5, 0.5]), 0),
        ChunkPush::Complete
    );

    player.begin_live_timeline(timeline_config(2)).unwrap();

    assert_eq!(player.output.generation(), 1);
    assert_eq!(
        player.output.next_frame(),
        Some((0.5f32.to_bits(), 0.5f32.to_bits())),
        "the previous timeline's sound plays on"
    );
}

#[test]
fn beginning_a_timeline_after_a_stop_starts_a_new_generation() {
    let mut player: Player<Schedule> = player(512);
    player.begin_live_timeline(timeline_config(1)).unwrap();
    player.stop().unwrap();

    player.begin_live_timeline(timeline_config(2)).unwrap();

    assert_eq!(player.output.generation(), 3);
}

#[test]
fn a_fade_out_survives_the_next_timeline_and_keeps_the_generation() {
    let mut player: Player<Schedule> = player(512);
    player.begin_live_timeline(timeline_config(1)).unwrap();
    player.queue.take_command().unwrap();

    player.fade_out_instances(vec![0, 1], 2400).unwrap();
    player.begin_live_timeline(timeline_config(2)).unwrap();

    assert_eq!(player.output.generation(), 1);
    assert!(matches!(
        player.queue.take_command(),
        Some(PlayerCommand::FadeOutInstances { instance_ids, fade_frames: 2400 })
            if instance_ids == vec![0, 1]
    ));
    assert!(matches!(
        player.queue.take_command(),
        Some(PlayerCommand::BeginLiveTimeline { .. })
    ));
}

#[test]
fn a_fade_out_before_going_live_is_ignored() {
    let mut player: Player<Schedule> = player(512);

    player.fade_out_instances(vec![0], 2400).unwrap();

    assert!(player.queue.take_command().is_none());
}

#[test]
fn the_queue_reports_what_the_output_must_do() {
    let mut state: PlayerState<Schedule> = PlayerState::new();
    assert_eq!(state.submit_play(None, 1), Ok(OutputAction::StartGeneration(1)));
    assert_eq!(state.submit_midi(vec![event(0, 60)]), Ok(OutputAction::StartGeneration(2)));
    assert_eq!(state.submit_midi(vec![event(0, 62)]), Ok(OutputAction::Nothing));
    assert_eq!(state.submit_stop(), Ok(OutputAction::StopGeneration(3)));
    assert_eq!(state.shutdown(), OutputAction::Shutdown);
    assert_eq!(
        state.submit_stop(),
        Err("realtime play worker is stopped".to_string())
    );
}

#[test]
fn timeline_requests_name_the_running_timeline() {
    let mut player: Player<Schedule> = player(512);
    assert_eq!(
        player.send_timeline_midi(vec![timeline_event(1, 0)]),
        Err("no live timeline has been started".to_string())
    );
    player.begin_live_timeline(timeline_config(7)).unwrap();
    assert_eq!(
        player.set_live_tempo(tempo_change(6, 90.0)),
        Err("timeline mismatch: active=7".to_string())
    );
    assert_eq!(
        player.send_timeline_midi(vec![timeline_event(7, 0), timeline_event(8, 1)]),
        Err("timeline mismatch: active=7".to_string())
    );
    assert_eq!(player.send_timeline_midi(vec![timeline_event(7, 0)]), Ok(()));
}

#[test]
fn live_requests_are_checked_before_they_are_queued() {
    let mut player: Player<Schedule> = Player::new(512, 4, PatchBases::from_bases(None, None));
    assert_eq!(
        player.send_midi(vec![]),
        Err("MIDI events must not be empty".to_string())
    );
    assert_eq!(
        player.send_timeline_midi(vec![]),
        Err("timeline MIDI events must not be empty".to_string())
    );
    assert_eq!(
        player.send_midi(vec![event(1, 60), event(4, 60), event(40, 60)]),
        Err("instance 4 is outside configured live range 0..4".to_string())
    );
    assert_eq!(
        player.stop_instance(40),
        Err("instance 40 is outside 0..32".to_string())
    );
    assert!(player.queue.take_command().is_none());
    assert_eq!(player.output.generation(), 0);
}

#[test]
fn a_standby_preload_reports_its_bank_position() {
    let mut player: Player<Completion> = Player::new(512, 6, PatchBases::from_bases(None, None));
    let (tx, _rx) = sync_channel(1);
    let (slot, action) = player
        .begin_standby_live_patch(4, Some("pad.fxp".to_string()), String::new(), tx)
        .unwrap();
    assert_eq!((slot.bank, slot.local_index), (1, 1));
    assert_eq!(action, OutputAction::StartGeneration(1));

    let mut odd: Player<Completion> = Player::new(512, 3, PatchBases::from_bases(None, None));
    let (tx, _rx) = sync_channel(1);
    assert_eq!(
        odd.begin_standby_live_patch(0, None, String::new(), tx).unwrap_err(),
        "live instance count 3 cannot be split into 2 banks"
    );
}

#[test]
fn the_render_ahead_depth_accepts_only_supported_multipliers() {
    let mut player: Player<Schedule> = player(512);
    assert_eq!(player.set_live_buffer_multiplier(2), Ok(()));
    assert_eq!(player.output.buffer_multiplier(), 2);
    assert_eq!(
        player.set_live_buffer_multiplier(300),
        Err("live buffer multiplier must be 1, 2, 4, or 8".to_string())
    );
    assert_eq!(player.output.buffer_multiplier(), 2);
}

fn timeline_event(timeline_id: u64, instance_id: InstanceId) -> TimelineMidiEvent {
    TimelineMidiEvent {
        timeline_id,
        instance_id,
        timeline_seconds_bits: 0.5f64.to_bits(),
        message: [0x90, 60, 100],
    }
}
