use clap_mml_play_server::client::FastMidiClient;
use clap_mml_play_server::ipc::{
    is_valid_buffer_multiplier, validate_instance_id, FastIpcError, FastMidiCommand,
    FastMidiEvent, LiveTempoChange, LiveTimelineConfig, TimelineMidiEvent,
    MAX_BUFFER_MULTIPLIER, MAX_EFFECT_CHAIN_BYTES, MAX_FADE_OUT_MS, MAX_INSTANCE_COUNT,
    MAX_MIDI_MESSAGES, MAX_PATCH_BYTES, MAX_RESPONSE_BYTES, MAX_STANDBY_ERROR_BYTES,
};
use clap_mml_play_server::ring::{SharedRing, SLOT_COUNT, STANDBY_STATUS_ERROR, STANDBY_STATUS_SUCCESS};
use clap_mml_play_server::server::FastMidiServer;

const TEST_PORT: u16 = 12_345;
const SERVER_PID: u32 = 100;
const CLIENT_PID: u32 = 200;
const NOW: u64 = 1_000;

fn connected() -> (FastMidiServer, FastMidiClient, SharedRing) {
    let (server, mut ring) = FastMidiServer::create_ring(SERVER_PID, NOW);
    let client = FastMidiClient::attach(&mut ring, CLIENT_PID).unwrap();
    (server, client, ring)
}

fn recv(server: &mut FastMidiServer, ring: &mut SharedRing) -> Option<FastMidiCommand> {
    server.recv(ring, NOW).unwrap()
}

#[test]
fn unsupported_platform_returns_explicit_error() {
    assert!(matches!(
        FastMidiClient::connect(TEST_PORT),
        Err(FastIpcError::UnsupportedPlatform)
    ));
    assert!(matches!(
        FastMidiServer::create(TEST_PORT),
        Err(FastIpcError::UnsupportedPlatform)
    ));
}

#[test]
fn buffer_multipliers_are_powers_of_two_up_to_the_limit() {
    for m in [1u16, 2, 4, 8, 16, 32, 64, 128, 256] {
        assert!(is_valid_buffer_multiplier(m), "{m}");
    }
    for m in [0u16, 3, 6, 100, 512, 1024, u16::MAX] {
        assert!(!is_valid_buffer_multiplier(m), "{m}");
    }
}

#[test]
fn instance_ids_past_the_wire_limit_are_invalid() {
    assert!(validate_instance_id(31).is_ok());
    assert_eq!(
        validate_instance_id(32),
        Err(FastIpcError::InvalidInstance { instance_id: 32, count: 32 })
    );
}

#[test]
fn round_trip_preserves_multi_instance_events_and_controls() {
    let (mut server, client, mut ring) = connected();
    client
        .send_events(
            &mut ring,
            NOW,
            &[
                FastMidiEvent { instance_id: 0, offset_frames: 0, message: [0x90, 60, 100] },
                FastMidiEvent { instance_id: 15, offset_frames: 5538, message: [0x80, 72, 0] },
            ],
        )
        .unwrap();
    client.set_buffer_multiplier(&mut ring, NOW, MAX_BUFFER_MULTIPLIER).unwrap();
    client.set_auto_gain_enabled(&mut ring, NOW, true).unwrap();
    client.stop(&mut ring, NOW, 15).unwrap();
    client.stop_all(&mut ring, NOW).unwrap();

    assert!(matches!(
        recv(&mut server, &mut ring),
        Some(FastMidiCommand::Midi { events }) if events.len() == 2
            && events[0].instance_id == 0
            && events[1].instance_id == 15
            && events[1].offset_frames == 5538
    ));
    assert_eq!(
        recv(&mut server, &mut ring),
        Some(FastMidiCommand::SetBufferMultiplier { multiplier: MAX_BUFFER_MULTIPLIER })
    );
    assert_eq!(
        recv(&mut server, &mut ring),
        Some(FastMidiCommand::SetAutoGain { enabled: true })
    );
    assert_eq!(recv(&mut server, &mut ring), Some(FastMidiCommand::Stop { instance_id: 15 }));
    assert_eq!(recv(&mut server, &mut ring), Some(FastMidiCommand::StopAll));
    assert_eq!(recv(&mut server, &mut ring), None);
}

#[test]
fn invalid_instance_is_rejected_before_enqueue() {
    let (mut server, client, mut ring) = connected();
    let out_of_range = u8::try_from(MAX_INSTANCE_COUNT).unwrap();
    assert!(matches!(
        client.stop(&mut ring, NOW, out_of_range),
        Err(FastIpcError::InvalidInstance { .. })
    ));
    assert_eq!(recv(&mut server, &mut ring), None);
}

#[test]
fn bad_event_batches_are_refused_with_the_reason() {
    let (mut server, client, mut ring) = connected();
    assert_eq!(
        client.send_events(&mut ring, NOW, &[]),
        Err(FastIpcError::InvalidPayload("events must not be empty".to_string()))
    );
    let many = vec![FastMidiEvent { instance_id: 0, offset_frames: 0, message: [0x90, 1, 1] }; MAX_MIDI_MESSAGES + 1];
    assert_eq!(
        client.send_events(&mut ring, NOW, &many),
        Err(FastIpcError::TooManyMidiMessages { count: MAX_MIDI_MESSAGES + 1, max: MAX_MIDI_MESSAGES })
    );
    assert_eq!(
        client.send_events(
            &mut ring,
            NOW,
            &[FastMidiEvent { instance_id: 1, offset_frames: 0, message: [0xf0, 1, 2] }]
        ),
        Err(FastIpcError::InvalidPayload(
            "invalid MIDI channel voice message: [240, 1, 2]".to_string()
        ))
    );
    assert_eq!(recv(&mut server, &mut ring), None);
}

#[test]
fn a_buffer_multiplier_that_is_not_a_power_of_two_is_refused() {
    let (_server, client, mut ring) = connected();
    assert_eq!(
        client.set_buffer_multiplier(&mut ring, NOW, 3),
        Err(FastIpcError::InvalidPayload(
            "buffer multiplier must be a power of two up to 256".to_string()
        ))
    );
}

#[test]
fn underrun_frames_are_published_as_a_monotonic_snapshot() {
    let (server, client, mut ring) = connected();

    server.publish_underrun_frames(&mut ring, 1_234_567_890_123);

    assert_eq!(client.underrun_frames(&ring), 1_234_567_890_123);
    assert_eq!(client.underrun_frames(&ring), 1_234_567_890_123);
}

#[test]
fn auto_gain_db_is_published_per_instance_and_cleared_past_the_end() {
    let (server, client, mut ring) = connected();

    server.publish_auto_gain_db_bits(
        &mut ring,
        &[3.0f32.to_bits(), (-1.5f32).to_bits(), 0.0f32.to_bits()],
    );
    let gains: Vec<f32> = client.auto_gain_db_bits(&ring).into_iter().map(f32::from_bits).collect();
    assert_eq!(&gains[..3], &[3.0, -1.5, 0.0]);
    assert!(gains[3..].iter().all(|gain| *gain == 0.0));
    assert_eq!(gains.len(), MAX_INSTANCE_COUNT);

    server.publish_auto_gain_db_bits(&mut ring, &[1.0f32.to_bits()]);
    let gains: Vec<f32> = client.auto_gain_db_bits(&ring).into_iter().map(f32::from_bits).collect();
    assert_eq!(gains[0], 1.0);
    assert!(gains[1..].iter().all(|gain| *gain == 0.0));
}

#[test]
fn second_client_is_rejected_until_first_drops() {
    let (_server, mut ring) = FastMidiServer::create_ring(SERVER_PID, NOW);
    let first = FastMidiClient::attach(&mut ring, CLIENT_PID).unwrap();
    assert!(matches!(
        FastMidiClient::attach(&mut ring, CLIENT_PID + 1),
        Err(FastIpcError::AlreadyConnected)
    ));
    first.detach(&mut ring);
    assert!(FastMidiClient::attach(&mut ring, CLIENT_PID + 1).is_ok());
}

#[test]
fn a_ring_of_another_layout_is_refused() {
    let (mut server, mut ring) = FastMidiServer::create_ring(SERVER_PID, NOW);
    ring.version += 1;
    assert!(matches!(
        FastMidiClient::attach(&mut ring, CLIENT_PID),
        Err(FastIpcError::ProtocolMismatch)
    ));
    assert_eq!(server.recv(&mut ring, NOW), Err(FastIpcError::ProtocolMismatch));
}

#[test]
fn a_client_skips_what_an_earlier_client_left_queued() {
    let (mut server, mut ring) = FastMidiServer::create_ring(SERVER_PID, NOW);
    let first = FastMidiClient::attach(&mut ring, CLIENT_PID).unwrap();
    first.stop_all(&mut ring, NOW).unwrap();
    first.detach(&mut ring);
    let second = FastMidiClient::attach(&mut ring, CLIENT_PID + 1).unwrap();
    assert_eq!(recv(&mut server, &mut ring), None);
    second.stop(&mut ring, NOW, 2).unwrap();
    assert_eq!(recv(&mut server, &mut ring), Some(FastMidiCommand::Stop { instance_id: 2 }));
}

#[test]
fn a_stale_or_taken_over_server_counts_as_stopped() {
    let (_server, client, mut ring) = connected();
    assert_eq!(client.stop_all(&mut ring, NOW + 5_000), Ok(()));
    assert_eq!(client.stop_all(&mut ring, NOW + 5_001), Err(FastIpcError::ServerStopped));
    ring.client_pid = CLIENT_PID + 7;
    assert_eq!(client.stop_all(&mut ring, NOW), Err(FastIpcError::ServerStopped));
}

#[test]
fn a_full_ring_refuses_further_commands() {
    let (mut server, client, mut ring) = connected();
    for _ in 0..SLOT_COUNT {
        client.stop_all(&mut ring, NOW).unwrap();
    }
    assert_eq!(client.stop_all(&mut ring, NOW), Err(FastIpcError::QueueFull));
    assert_eq!(recv(&mut server, &mut ring), Some(FastMidiCommand::StopAll));
    assert_eq!(client.stop(&mut ring, NOW, 1), Ok(()));
}

#[test]
fn the_indices_may_wrap_around() {
    let (mut server, mut ring) = FastMidiServer::create_ring(SERVER_PID, NOW);
    ring.write_index = u32::MAX - 1;
    ring.read_index = u32::MAX - 1;
    let client = FastMidiClient::attach(&mut ring, CLIENT_PID).unwrap();
    for id in 0..4u8 {
        client.stop(&mut ring, NOW, id).unwrap();
    }
    assert_eq!(ring.write_index, 2);
    for id in 0..4u8 {
        assert_eq!(recv(&mut server, &mut ring), Some(FastMidiCommand::Stop { instance_id: id }));
    }
    assert_eq!(recv(&mut server, &mut ring), None);
}

#[test]
fn absolute_timeline_round_trip_preserves_f64_bits() {
    let (mut server, client, mut ring) = connected();
    let config = LiveTimelineConfig {
        timeline_id: 99,
        sample_rate_hz_bits: 48_000.0f64.to_bits(),
        tempo_bpm_bits: 130.0f64.to_bits(),
        time_signature_numerator: 4,
        time_signature_denominator: 4,
    };
    let at = 31_199.0f64 * 60.0 / 520.0;
    client.begin_live_timeline(&mut ring, NOW, config).unwrap();
    client
        .send_timeline_events(
            &mut ring,
            NOW,
            &[TimelineMidiEvent {
                timeline_id: 99,
                instance_id: 3,
                timeline_seconds_bits: at.to_bits(),
                message: [0x90, 64, 100],
            }],
        )
        .unwrap();

    assert_eq!(recv(&mut server, &mut ring), Some(FastMidiCommand::BeginLiveTimeline(config)));
    let Some(FastMidiCommand::TimelineMidi { events }) = recv(&mut server, &mut ring) else {
        panic!("expected timeline MIDI");
    };
    assert_eq!(events[0].timeline_seconds_bits, at.to_bits());
    assert_eq!(events[0].timeline_id, 99);
}

#[test]
fn timeline_events_must_be_finite_non_negative_and_on_one_timeline() {
    let (mut server, client, mut ring) = connected();
    let event = TimelineMidiEvent {
        timeline_id: 5,
        instance_id: 1,
        timeline_seconds_bits: 1.5f64.to_bits(),
        message: [0x90, 60, 1],
    };
    for seconds in [-1.0f64, f64::NAN, f64::INFINITY] {
        assert_eq!(
            client.send_timeline_events(
                &mut ring,
                NOW,
                &[TimelineMidiEvent { timeline_seconds_bits: seconds.to_bits(), ..event }]
            ),
            Err(FastIpcError::InvalidPayload(
                "timeline seconds must be finite and non-negative".to_string()
            ))
        );
    }
    assert_eq!(
        client.send_timeline_events(
            &mut ring,
            NOW,
            &[event, TimelineMidiEvent { timeline_id: 6, ..event }]
        ),
        Err(FastIpcError::InvalidPayload("timeline events must share one timeline".to_string()))
    );
    assert_eq!(
        client.send_timeline_events(
            &mut ring,
            NOW,
            &[TimelineMidiEvent { timeline_seconds_bits: (-0.0f64).to_bits(), ..event }]
        ),
        Ok(())
    );
    assert!(recv(&mut server, &mut ring).is_some());
    assert_eq!(recv(&mut server, &mut ring), None);
}

#[test]
fn live_tempo_changes_round_trip_and_reject_invalid_values() {
    let (mut server, client, mut ring) = connected();
    let at = 16.0f64 * 60.0 / 520.0;
    let change = LiveTempoChange {
        timeline_id: 42,
        at_seconds_bits: at.to_bits(),
        tempo_bpm_bits: 83.5f64.to_bits(),
        time_signature_numerator: 3,
        time_signature_denominator: 8,
    };
    client.set_live_tempo(&mut ring, NOW, change).unwrap();

    let Some(FastMidiCommand::SetLiveTempo(received)) = recv(&mut server, &mut ring) else {
        panic!("expected a live tempo change");
    };
    assert_eq!(received, change);
    assert_eq!(received.at_seconds_bits, at.to_bits());

    for invalid in [
        LiveTempoChange { timeline_id: 0, ..change },
        LiveTempoChange { at_seconds_bits: (-1.0f64).to_bits(), ..change },
        LiveTempoChange { at_seconds_bits: f64::NAN.to_bits(), ..change },
        LiveTempoChange { tempo_bpm_bits: 0.0f64.to_bits(), ..change },
        LiveTempoChange { time_signature_denominator: 3, ..change },
    ] {
        assert!(
            matches!(
                client.set_live_tempo(&mut ring, NOW, invalid),
                Err(FastIpcError::InvalidPayload(_))
            ),
            "{invalid:?} was accepted"
        );
    }
    assert_eq!(recv(&mut server, &mut ring), None);
}

#[test]
fn an_invalid_timeline_start_is_refused() {
    let (_server, client, mut ring) = connected();
    let config = LiveTimelineConfig {
        timeline_id: 1,
        sample_rate_hz_bits: 0.0f64.to_bits(),
        tempo_bpm_bits: 120.0f64.to_bits(),
        time_signature_numerator: 4,
        time_signature_denominator: 4,
    };
    assert_eq!(
        client.begin_live_timeline(&mut ring, NOW, config),
        Err(FastIpcError::InvalidPayload("invalid live timeline configuration".to_string()))
    );
}

#[test]
fn fade_out_carries_its_instances_and_length() {
    let (mut server, client, mut ring) = connected();
    let last = u8::try_from(MAX_INSTANCE_COUNT - 1).unwrap();

    client.fade_out_instances(&mut ring, NOW, &[0, last], 50).unwrap();
    client.fade_out_instances(&mut ring, NOW, &[3], MAX_FADE_OUT_MS).unwrap();

    assert_eq!(
        recv(&mut server, &mut ring),
        Some(FastMidiCommand::FadeOutInstances { instance_ids: vec![0, last], fade_ms: 50 })
    );
    assert_eq!(
        recv(&mut server, &mut ring),
        Some(FastMidiCommand::FadeOutInstances { instance_ids: vec![3], fade_ms: MAX_FADE_OUT_MS })
    );
}

#[test]
fn invalid_fade_out_is_rejected_before_enqueue() {
    let (mut server, client, mut ring) = connected();
    let out_of_range = u8::try_from(MAX_INSTANCE_COUNT).unwrap();

    assert!(matches!(
        client.fade_out_instances(&mut ring, NOW, &[], 50),
        Err(FastIpcError::InvalidPayload(_))
    ));
    assert!(matches!(
        client.fade_out_instances(&mut ring, NOW, &[0], 0),
        Err(FastIpcError::InvalidPayload(_))
    ));
    assert!(matches!(
        client.fade_out_instances(&mut ring, NOW, &[0], MAX_FADE_OUT_MS + 1),
        Err(FastIpcError::InvalidPayload(_))
    ));
    assert!(matches!(
        client.fade_out_instances(&mut ring, NOW, &[0, out_of_range], 50),
        Err(FastIpcError::InvalidInstance { .. })
    ));
    assert_eq!(recv(&mut server, &mut ring), None);
}

#[test]
fn prepare_patch_waits_for_success_response() {
    let (mut server, mut client, mut ring) = connected();
    let request = client.prepare_patch(&mut ring, NOW, 7, Some("Keys/Piano.fxp")).unwrap();
    assert_eq!(client.poll_response(&ring, request), Ok(None));

    let Some(FastMidiCommand::PreparePatch { request_id, instance_id, patch, effect_chain, probe }) =
        recv(&mut server, &mut ring)
    else {
        panic!("unexpected command");
    };
    assert_eq!(request_id, request);
    assert_eq!(instance_id, 7);
    assert_eq!(patch.as_deref(), Some("Keys/Piano.fxp"));
    assert_eq!(effect_chain, "");
    assert!(!probe);
    server.complete_request(&mut ring, request_id, Ok(&[])).unwrap();

    assert_eq!(client.poll_response(&ring, request), Ok(Some(Ok(vec![]))));
    assert_eq!(client.poll_response(&ring, request + 1), Ok(None));
}

#[test]
fn probe_and_error_responses_are_returned_to_the_client() {
    let (mut server, mut client, mut ring) = connected();

    let probe = client.probe_patch(&mut ring, NOW, 0, None).unwrap();
    let Some(FastMidiCommand::PreparePatch { request_id, probe: true, .. }) = recv(&mut server, &mut ring) else {
        panic!("unexpected command");
    };
    server.complete_request(&mut ring, request_id, Ok(br#"{"decision":"poly"}"#)).unwrap();
    assert_eq!(
        client.poll_response(&ring, probe),
        Ok(Some(Ok(br#"{"decision":"poly"}"#.to_vec())))
    );

    let prepare = client.prepare_patch(&mut ring, NOW, 0, None).unwrap();
    let Some(FastMidiCommand::PreparePatch { request_id, .. }) = recv(&mut server, &mut ring) else {
        panic!("unexpected command");
    };
    server.complete_request(&mut ring, request_id, Err("load failed")).unwrap();
    assert!(matches!(
        client.poll_response(&ring, prepare),
        Ok(Some(Err(FastIpcError::RequestFailed(message)))) if message == "load failed"
    ));
}

#[test]
fn request_ids_count_up_and_skip_zero() {
    let (_server, mut client, mut ring) = connected();
    assert_eq!(client.prepare_patch(&mut ring, NOW, 0, None), Ok(1));
    assert_eq!(client.prepare_patch(&mut ring, NOW, 0, None), Ok(2));
    client.next_request_id = u32::MAX;
    assert_eq!(client.prepare_patch(&mut ring, NOW, 0, None), Ok(u32::MAX));
    assert_eq!(client.next_request_id, 1);
}

#[test]
fn an_answer_too_long_for_the_slot_is_refused() {
    let (server, _client, mut ring) = connected();
    let payload = vec![0u8; MAX_RESPONSE_BYTES + 1];
    assert_eq!(
        server.complete_request(&mut ring, 1, Ok(&payload)),
        Err(FastIpcError::ResponseTooLong { bytes: MAX_RESPONSE_BYTES + 1, max: MAX_RESPONSE_BYTES })
    );
    assert_eq!(ring.response_sequence, 0);
}

#[test]
fn standby_preload_arrives_as_its_own_command_kind() {
    let (mut server, mut client, mut ring) = connected();
    let first = client.prepare_standby_patch(&mut ring, NOW, 9, Some("Keys/Piano.fxp")).unwrap();
    let Some(FastMidiCommand::PrepareStandbyPatch { request_id, instance_id, patch, .. }) =
        recv(&mut server, &mut ring)
    else {
        panic!("unexpected command");
    };
    assert_eq!(instance_id, 9);
    assert_eq!(patch.as_deref(), Some("Keys/Piano.fxp"));
    server.complete_request(&mut ring, request_id, Ok(&[])).unwrap();
    assert_eq!(client.poll_response(&ring, first), Ok(Some(Ok(vec![]))));

    let second = client.prepare_standby_patch(&mut ring, NOW, 9, None).unwrap();
    let Some(FastMidiCommand::PrepareStandbyPatch { request_id, .. }) = recv(&mut server, &mut ring) else {
        panic!("unexpected command");
    };
    server.complete_request(&mut ring, request_id, Err("standby load failed")).unwrap();
    assert!(matches!(
        client.poll_response(&ring, second),
        Ok(Some(Err(FastIpcError::RequestFailed(message)))) if message == "standby load failed"
    ));
}

#[test]
fn effect_chain_travels_with_both_patch_requests() {
    const CHAIN: &str = r#"[{"Surge XT Effects preset": "Reverb 1/Cathedral 2"}]"#;
    let (mut server, mut client, mut ring) = connected();

    client
        .prepare_patch_with_effect_chain(&mut ring, NOW, 3, Some("Keys/Piano.fxp"), CHAIN)
        .unwrap();
    client.begin_standby_patch_with_effect_chain(&mut ring, NOW, 4, None, CHAIN).unwrap();

    let Some(FastMidiCommand::PreparePatch { patch, effect_chain, .. }) = recv(&mut server, &mut ring) else {
        panic!("unexpected command");
    };
    assert_eq!(patch.as_deref(), Some("Keys/Piano.fxp"));
    assert_eq!(effect_chain, CHAIN);
    let Some(FastMidiCommand::PrepareStandbyPatch { patch, effect_chain, .. }) = recv(&mut server, &mut ring) else {
        panic!("unexpected command");
    };
    assert_eq!(patch, None);
    assert_eq!(effect_chain, CHAIN);

    let too_long = "x".repeat(MAX_EFFECT_CHAIN_BYTES + 1);
    assert_eq!(
        client.prepare_patch_with_effect_chain(&mut ring, NOW, 3, None, &too_long),
        Err(FastIpcError::EffectChainTooLong {
            bytes: MAX_EFFECT_CHAIN_BYTES + 1,
            max: MAX_EFFECT_CHAIN_BYTES,
        })
    );
    let long_patch = "p".repeat(MAX_PATCH_BYTES + 1);
    assert_eq!(
        client.begin_standby_patch(&mut ring, NOW, 3, Some(&long_patch)),
        Err(FastIpcError::PatchTooLong { bytes: MAX_PATCH_BYTES + 1, max: MAX_PATCH_BYTES })
    );
}

#[test]
fn standby_preload_rejects_out_of_range_instances_before_enqueue() {
    let (mut server, mut client, mut ring) = connected();
    let out_of_range = u8::try_from(MAX_INSTANCE_COUNT).unwrap();
    assert!(matches!(
        client.prepare_standby_patch(&mut ring, NOW, out_of_range, None),
        Err(FastIpcError::InvalidInstance { .. })
    ));
    assert_eq!(recv(&mut server, &mut ring), None);
}

#[test]
fn unpublished_slot_reports_no_completion() {
    let (_server, client, ring) = connected();
    let watermark = client.standby_watermark(&ring);
    assert_eq!(watermark, 0);
    assert!(client.poll_standby_completion(&ring, 1, watermark).is_none());
}

#[test]
fn success_is_visible_only_after_the_watermark() {
    let (server, client, mut ring) = connected();
    let watermark = client.standby_watermark(&ring);
    let sequence = server.publish_standby_completion(&mut ring, 7, Ok(())).unwrap();
    assert_eq!(sequence, 2);
    assert!(sequence > watermark);
    assert_eq!(client.poll_standby_completion(&ring, 7, watermark), Some(Ok(())));
    assert_eq!(client.poll_standby_completion(&ring, 7, watermark), Some(Ok(())));
}

#[test]
fn error_message_is_carried_by_the_completion_slot() {
    let (server, client, mut ring) = connected();
    let watermark = client.standby_watermark(&ring);
    server
        .publish_standby_completion(&mut ring, 3, Err("patch not found: Keys/Missing.fxp"))
        .unwrap();
    assert_eq!(
        client.poll_standby_completion(&ring, 3, watermark),
        Some(Err(FastIpcError::RequestFailed("patch not found: Keys/Missing.fxp".into())))
    );
}

#[test]
fn completion_for_another_request_id_is_ignored() {
    let (server, client, mut ring) = connected();
    let watermark = client.standby_watermark(&ring);
    server.publish_standby_completion(&mut ring, 41, Ok(())).unwrap();
    assert!(client.poll_standby_completion(&ring, 42, watermark).is_none());
}

#[test]
fn completion_published_before_the_watermark_is_not_reused_after_id_wrap() {
    let (server, client, mut ring) = connected();
    server.publish_standby_completion(&mut ring, 9, Ok(())).unwrap();
    let watermark = client.standby_watermark(&ring);
    assert!(client.poll_standby_completion(&ring, 9, watermark).is_none());

    server.publish_standby_completion(&mut ring, 9, Ok(())).unwrap();
    assert_eq!(client.poll_standby_completion(&ring, 9, watermark), Some(Ok(())));
}

#[test]
fn torn_write_is_never_observed_as_a_completion() {
    let (_server, client, mut ring) = connected();
    let watermark = client.standby_watermark(&ring);
    ring.standby_sequence += 1;
    ring.standby.request_id = 5;
    ring.standby.status = STANDBY_STATUS_SUCCESS;
    ring.standby.payload_len = 0;
    assert!(client.poll_standby_completion(&ring, 5, watermark).is_none());

    ring.standby_sequence += 1;
    assert_eq!(client.poll_standby_completion(&ring, 5, watermark), Some(Ok(())));
}

#[test]
fn watermark_rounds_an_in_flight_publish_into_the_past() {
    let (_server, client, mut ring) = connected();
    ring.standby_sequence += 1;
    ring.standby.request_id = 5;
    ring.standby.status = STANDBY_STATUS_SUCCESS;
    let watermark = client.standby_watermark(&ring);
    assert_eq!(watermark, 2);
    ring.standby_sequence += 1;
    assert!(client.poll_standby_completion(&ring, 5, watermark).is_none());
}

#[test]
fn oversize_error_message_is_truncated_on_a_char_boundary() {
    let (server, client, mut ring) = connected();
    let watermark = client.standby_watermark(&ring);
    let message = "あ".repeat(MAX_STANDBY_ERROR_BYTES);
    server.publish_standby_completion(&mut ring, 1, Err(&message)).unwrap();
    let Some(Err(FastIpcError::RequestFailed(observed))) =
        client.poll_standby_completion(&ring, 1, watermark)
    else {
        panic!("expected a truncated error completion");
    };
    assert!(observed.len() <= MAX_STANDBY_ERROR_BYTES);
    assert!(observed.len() > MAX_STANDBY_ERROR_BYTES - 3);
    assert!(message.starts_with(&observed));
    assert!(!observed.contains('\u{fffd}'));
}

#[test]
fn corrupt_payload_length_fails_the_request_instead_of_hanging() {
    let (server, client, mut ring) = connected();
    let watermark = client.standby_watermark(&ring);
    server.publish_standby_completion(&mut ring, 2, Ok(())).unwrap();
    ring.standby.status = STANDBY_STATUS_ERROR;
    ring.standby.payload_len = MAX_STANDBY_ERROR_BYTES as u32 + 1;
    assert!(matches!(
        client.poll_standby_completion(&ring, 2, watermark),
        Some(Err(FastIpcError::InvalidPayload(_)))
    ));
}

#[test]
fn unknown_status_fails_the_request_instead_of_hanging() {
    let (server, client, mut ring) = connected();
    let watermark = client.standby_watermark(&ring);
    server.publish_standby_completion(&mut ring, 2, Ok(())).unwrap();
    ring.standby.status = 99;
    ring.standby.payload_len = 0;
    assert!(matches!(
        client.poll_standby_completion(&ring, 2, watermark),
        Some(Err(FastIpcError::InvalidPayload(_)))
    ));
}

#[test]
fn corrupt_slots_are_refused_by_the_server() {
    let (mut server, client, mut ring) = connected();
    client.stop_all(&mut ring, NOW).unwrap();
    ring.slots[0].kind = 77;
    assert_eq!(
        server.recv(&mut ring, NOW),
        Err(FastIpcError::InvalidPayload("unknown command kind".to_string()))
    );
    assert_eq!(recv(&mut server, &mut ring), None);
}

#[test]
fn ipc_errors_read_as_the_channel_reports_them() {
    assert_eq!(
        FastIpcError::TooManyMidiMessages { count: 300, max: 256 }.message(),
        "too many MIDI messages (300; max 256)"
    );
    assert_eq!(
        FastIpcError::PatchTooLong { bytes: 300, max: 260 }.message(),
        "patch path is too long (300 bytes; max 260)"
    );
    assert_eq!(
        FastIpcError::InvalidInstance { instance_id: 40, count: 32 }.message(),
        "instance 40 is outside 0..32"
    );
    assert_eq!(
        FastIpcError::Os { operation: "CreateFileMappingW".to_string(), code: 5 }.message(),
        "CreateFileMappingW failed with Windows error 5"
    );
    assert_eq!(
        FastIpcError::RequestFailed("no such patch".to_string()).message(),
        "shared-memory request failed: no such patch"
    );
    assert_eq!(
        FastIpcError::UnsupportedPlatform.message(),
        "shared-memory MIDI is only supported on Windows"
    );
}
