use std::cell::RefCell;

use clap_mml_play_server::client::FastMidiClient;
use clap_mml_play_server::fast_ipc::{respond, IpcReceiver, PlayerCall, TurnStep};
use clap_mml_play_server::ipc::{FastIpcError, FastMidiCommand, InstanceId, TimelineMidiEvent};
use clap_mml_play_server::ring::{SharedRing, TimingMetrics};
use clap_mml_play_server::server::FastMidiServer;

const TIMELINE_ID: u64 = 4242;
const NOW: u64 = 50;

/// A player without plugins whose preloads finish when the test says so.
#[derive(Default)]
struct FakePlayer {
    standby_outcomes: RefCell<Vec<Option<Result<(), String>>>>,
    standby_requests: RefCell<Vec<u8>>,
    timeline_batches: RefCell<usize>,
    probes: RefCell<usize>,
}

impl FakePlayer {
    fn release_standby(&self, index: usize, result: Result<(), String>) {
        self.standby_outcomes.borrow_mut()[index] = Some(result);
    }
}

impl FakePlayer {
    fn send_timeline_midi(&self, _events: Vec<TimelineMidiEvent>) -> Result<(), String> {
        *self.timeline_batches.borrow_mut() += 1;
        Ok(())
    }

    fn perform(&self, call: PlayerCall) -> Result<(), String> {
        match call {
            PlayerCall::SendTimelineMidi(events) => self.send_timeline_midi(events),
            _ => Ok(()),
        }
    }

    fn prepare_live_patch(
        &self,
        _instance_id: InstanceId,
        patch: Option<String>,
        _effect_chain: String,
    ) -> Result<(), String> {
        match patch.as_deref() {
            Some("missing") => Err("patch not found".to_string()),
            _ => Ok(()),
        }
    }

    fn probe_live_patch(&self, _instance_id: InstanceId, _patch: Option<String>) -> Result<Vec<u8>, String> {
        *self.probes.borrow_mut() += 1;
        Ok(br#"{"decision":"poly"}"#.to_vec())
    }

    fn begin_standby_live_patch(
        &self,
        instance_id: InstanceId,
        _patch: Option<String>,
        _effect_chain: String,
    ) -> Result<usize, String> {
        self.standby_requests.borrow_mut().push(instance_id);
        self.standby_outcomes.borrow_mut().push(None);
        Ok(self.standby_outcomes.borrow().len() - 1)
    }

    fn poll_standby(&self, ticket: &usize) -> Option<Result<(), String>> {
        self.standby_outcomes.borrow()[*ticket].clone()
    }
}

struct Harness {
    player: FakePlayer,
    server: FastMidiServer,
    receiver: IpcReceiver<usize>,
    ring: SharedRing,
    client: FastMidiClient,
}

impl Harness {
    fn start() -> Self {
        let (server, mut ring) = FastMidiServer::create_ring(1, NOW);
        let client = FastMidiClient::attach(&mut ring, 2).unwrap();
        Harness { player: FakePlayer::default(), server, receiver: IpcReceiver::new(), ring, client }
    }

    /// Runs the receive loop until the queue is drained.
    fn pump(&mut self) {
        loop {
            let finished = match &self.receiver.standby {
                Some(load) => self.player.poll_standby(&load.ticket),
                None => None,
            };
            match self.receiver.turn(&mut self.server, &mut self.ring, finished, NOW) {
                TurnStep::Idle => break,
                TurnStep::Call(call) => {
                    let _ = self.player.perform(call);
                }
                TurnStep::PatchRequest { request_id, instance_id, patch, effect_chain, probe } => {
                    let response = if probe {
                        self.player.probe_live_patch(instance_id, patch)
                    } else {
                        self.player.prepare_live_patch(instance_id, patch, effect_chain).map(|()| Vec::new())
                    };
                    let _ = respond(&self.server, &mut self.ring, request_id, response);
                }
                TurnStep::StandbyRequest { request_id, instance_id, patch, effect_chain } => {
                    let answer = self.player.begin_standby_live_patch(instance_id, patch, effect_chain);
                    let _ = self.receiver.answer_standby(&self.server, &mut self.ring, request_id, instance_id, answer);
                }
                TurnStep::StandbyRefused { .. } | TurnStep::ReceiveFailed(_) => {}
            }
        }
    }

    fn begin_standby(&mut self, instance_id: u8) -> Result<u32, FastIpcError> {
        let request = self.client.begin_standby_patch(&mut self.ring, NOW, instance_id, None)?;
        self.pump();
        match self.client.poll_response(&self.ring, request)? {
            Some(Ok(_)) => Ok(request),
            Some(Err(e)) => Err(e),
            None => panic!("the request was never answered"),
        }
    }

    fn send_timeline_note(&mut self, seconds: f64) {
        self.client
            .send_timeline_events(
                &mut self.ring,
                NOW,
                &[TimelineMidiEvent {
                    timeline_id: TIMELINE_ID,
                    instance_id: 0,
                    timeline_seconds_bits: seconds.to_bits(),
                    message: [0x90, 60, 100],
                }],
            )
            .unwrap();
    }
}

#[test]
fn timeline_midi_reaches_the_player_while_a_standby_load_is_still_loading() {
    let mut harness = Harness::start();
    let watermark = harness.client.standby_watermark(&harness.ring);
    let request_id = harness.begin_standby(7).unwrap();
    assert_eq!(harness.player.standby_requests.borrow().as_slice(), &[7]);
    assert!(harness.client.poll_standby_completion(&harness.ring, request_id, watermark).is_none());

    for step in 0..4 {
        harness.send_timeline_note(f64::from(step) * 0.25);
    }
    harness.pump();
    assert_eq!(*harness.player.timeline_batches.borrow(), 4);
    assert!(harness.client.poll_standby_completion(&harness.ring, request_id, watermark).is_none());

    harness.player.release_standby(0, Ok(()));
    harness.pump();
    assert!(harness.receiver.standby.is_none());
    assert_eq!(
        harness.client.poll_standby_completion(&harness.ring, request_id, watermark),
        Some(Ok(()))
    );
    assert_eq!(*harness.player.timeline_batches.borrow(), 4);
}

#[test]
fn a_failed_standby_load_is_reported_through_the_completion_slot() {
    let mut harness = Harness::start();
    let watermark = harness.client.standby_watermark(&harness.ring);
    let request_id = harness.begin_standby(7).unwrap();
    harness.player.release_standby(0, Err("patch file is missing".to_string()));
    harness.pump();
    assert_eq!(
        harness.client.poll_standby_completion(&harness.ring, request_id, watermark),
        Some(Err(FastIpcError::RequestFailed("patch file is missing".into())))
    );
}

#[test]
fn a_second_standby_request_is_rejected_while_the_first_is_still_loading() {
    let mut harness = Harness::start();
    let watermark = harness.client.standby_watermark(&harness.ring);
    let first = harness.begin_standby(7).unwrap();

    let second = harness.begin_standby(8);
    assert!(
        matches!(second, Err(FastIpcError::RequestFailed(ref message)) if message.contains("still in flight")),
        "{second:?}"
    );
    assert_eq!(harness.player.standby_requests.borrow().len(), 1);

    harness.player.release_standby(0, Ok(()));
    harness.pump();
    assert_eq!(harness.client.poll_standby_completion(&harness.ring, first, watermark), Some(Ok(())));
}

#[test]
fn a_pending_standby_load_fails_when_the_receive_loop_stops() {
    let mut harness = Harness::start();
    let watermark = harness.client.standby_watermark(&harness.ring);
    let request_id = harness.begin_standby(7).unwrap();

    harness.receiver.fail_pending_standby(&harness.server, &mut harness.ring);

    let completion = harness.client.poll_standby_completion(&harness.ring, request_id, watermark);
    assert!(
        matches!(completion, Some(Err(FastIpcError::RequestFailed(ref message))) if message.contains("stopped")),
        "{completion:?}"
    );
}

#[test]
fn patch_requests_are_answered_with_the_player_outcome() {
    let mut harness = Harness::start();
    let ok = harness.client.prepare_patch(&mut harness.ring, NOW, 1, Some("Pad")).unwrap();
    harness.pump();
    assert_eq!(harness.client.poll_response(&harness.ring, ok), Ok(Some(Ok(vec![]))));

    let missing = harness.client.prepare_patch(&mut harness.ring, NOW, 1, Some("missing")).unwrap();
    harness.pump();
    assert_eq!(
        harness.client.poll_response(&harness.ring, missing),
        Ok(Some(Err(FastIpcError::RequestFailed("patch not found".to_string()))))
    );

    let probe = harness.client.probe_patch(&mut harness.ring, NOW, 1, None).unwrap();
    harness.pump();
    assert_eq!(
        harness.client.poll_response(&harness.ring, probe),
        Ok(Some(Ok(br#"{"decision":"poly"}"#.to_vec())))
    );
    assert_eq!(*harness.player.probes.borrow(), 1);
}

#[test]
fn a_reported_standby_outcome_is_published_once_and_lets_the_load_go() {
    let mut harness = Harness::start();
    let watermark = harness.client.standby_watermark(&harness.ring);
    let request_id = harness.begin_standby(7).unwrap();

    harness.receiver.publish_standby_outcome(&harness.server, &mut harness.ring, None);
    assert!(harness.receiver.standby.is_some());
    assert!(harness.client.poll_standby_completion(&harness.ring, request_id, watermark).is_none());

    harness.receiver.publish_standby_outcome(
        &harness.server,
        &mut harness.ring,
        Some(Err("bank is busy".to_string())),
    );
    assert!(harness.receiver.standby.is_none());
    assert_eq!(
        harness.client.poll_standby_completion(&harness.ring, request_id, watermark),
        Some(Err(FastIpcError::RequestFailed("bank is busy".into())))
    );
}

#[test]
fn each_command_is_handed_to_the_player_with_its_fields() {
    let receiver: IpcReceiver<usize> = IpcReceiver::new();
    let step = receiver.dispatch(FastMidiCommand::SetInstanceGain { instance_id: 2, gain_milli: 750 });
    assert!(matches!(
        step,
        TurnStep::Call(PlayerCall::SetInstanceGain { instance_id: 2, gain_milli: 750 })
    ));
    let step = receiver.dispatch(FastMidiCommand::FadeOutInstances { instance_ids: vec![1, 3], fade_ms: 40 });
    assert!(matches!(
        step,
        TurnStep::Call(PlayerCall::FadeOutInstances { ref instance_ids, fade_ms: 40 }) if instance_ids == &vec![1, 3]
    ));
    assert!(matches!(receiver.dispatch(FastMidiCommand::StopAll), TurnStep::Call(PlayerCall::StopAll)));
}

#[test]
fn a_receive_on_an_empty_queue_is_idle() {
    let mut harness = Harness::start();
    assert!(matches!(
        harness.receiver.turn(&mut harness.server, &mut harness.ring, None, NOW),
        TurnStep::Idle
    ));
}

#[test]
fn a_fresh_ring_reads_zero_db_of_automatic_gain() {
    let harness = Harness::start();
    let bits = harness.client.auto_gain_db_bits(&harness.ring);
    assert!(!bits.is_empty());
    assert!(bits.iter().all(|&b| f32::from_bits(b) == 0.0));
}

#[test]
fn the_limiter_peak_starts_again_after_each_read() {
    let mut harness = Harness::start();
    assert_eq!(harness.client.limiter_meter(&mut harness.ring), (0, 0));
    harness.server.publish_limiter_meter(&mut harness.ring, 1.5f32.to_bits(), 6.0f32.to_bits());
    assert_eq!(
        harness.client.limiter_meter(&mut harness.ring),
        (1.5f32.to_bits(), 6.0f32.to_bits())
    );
    assert_eq!(harness.client.limiter_meter(&mut harness.ring), (1.5f32.to_bits(), 0));
}

#[test]
fn timing_metrics_reach_the_client_as_published() {
    let mut harness = Harness::start();
    assert_eq!(harness.client.timing_metrics(&harness.ring), TimingMetrics::zeroed());
    let mut metrics = TimingMetrics::zeroed();
    metrics.events = 12;
    metrics.late_events = 1;
    metrics.output_lead_min_frames = 256;
    metrics.output_lead_max_frames = 1024;
    metrics.process_load_p95_bits = 37.0f32.to_bits();
    harness.server.publish_timing_metrics(&mut harness.ring, metrics);
    assert_eq!(harness.client.timing_metrics(&harness.ring), metrics);
}
