use clap_mml_play_server::ipc::FastMidiEvent;
use clap_mml_play_server::live::{
    is_cartridge_patch_path, next_generation, resolve_live_patch, validate_live_instance_id,
    PatchBases,
};
use clap_mml_play_server::live_queue::{
    enqueue_live_event, take_chunk_events, LiveMidiEvent, LiveQueuedEvent, MAX_LIVE_QUEUE_EVENTS,
};

fn test_bases() -> PatchBases {
    PatchBases::from_bases(Some("/patches"), Some("/cartridges"))
}

#[test]
fn resolve_live_patch_uses_root_only_for_relative_paths() {
    let relative = resolve_live_patch(Some("Keys/Piano.fxp".into()), &test_bases()).unwrap();
    assert_eq!(
        relative,
        std::path::Path::new("/patches").join("Keys/Piano.fxp").to_string_lossy()
    );
    assert_eq!(resolve_live_patch(Some("  ".into()), &test_bases()), None);
    assert_eq!(
        resolve_live_patch(Some("/abs/Pad.fxp".into()), &test_bases()),
        Some("/abs/Pad.fxp".to_string())
    );
    assert_eq!(resolve_live_patch(None, &test_bases()), None);
}

#[test]
fn resolve_live_patch_picks_the_base_that_matches_the_patch_form() {
    let cartridge =
        resolve_live_patch(Some("Dexed_01.syx/00 Say Again.".into()), &test_bases()).unwrap();

    assert_eq!(
        cartridge,
        std::path::Path::new("/cartridges")
            .join("Dexed_01.syx/00 Say Again.")
            .to_string_lossy()
    );
    assert!(is_cartridge_patch_path("Dexed_01.SYX/00"));
    assert!(!is_cartridge_patch_path("syx/Pad.fxp"));
}

#[test]
fn a_patch_without_a_base_stays_as_given() {
    let bases = PatchBases::from_bases(None, Some("/cartridges/"));
    assert_eq!(
        resolve_live_patch(Some("Keys/Piano.fxp".into()), &bases),
        Some("Keys/Piano.fxp".to_string())
    );
    assert_eq!(
        resolve_live_patch(Some("A.syx/1".into()), &bases),
        Some("/cartridges/A.syx/1".to_string())
    );
}

#[test]
fn configured_live_instance_count_rejects_higher_ids() {
    assert!(validate_live_instance_id(3, 4).is_ok());
    let error = validate_live_instance_id(4, 4).unwrap_err();
    assert!(error.contains("configured live range 0..4"));
    assert_eq!(validate_live_instance_id(40, 64).unwrap_err(), "instance 40 is outside 0..32");
}

#[test]
fn generations_wrap_past_zero() {
    assert_eq!(next_generation(1), 2);
    assert_eq!(next_generation(u64::MAX), 1);
}

fn event(offset_frames: u32, note: u8) -> FastMidiEvent {
    FastMidiEvent { instance_id: 0, offset_frames, message: [0x90, note, 100] }
}

#[test]
fn live_events_queue_in_time_order_and_keep_arrival_order_on_ties() {
    let mut queue = Vec::new();
    enqueue_live_event(&mut queue, 100, event(10, 1));
    enqueue_live_event(&mut queue, 100, event(5, 2));
    enqueue_live_event(&mut queue, 100, event(10, 3));
    enqueue_live_event(&mut queue, u64::MAX - 1, event(10, 4));
    let notes: Vec<u8> = queue.iter().map(|e: &LiveQueuedEvent| e.message[1]).collect();
    assert_eq!(notes, vec![2, 1, 3, 4]);
    assert_eq!(queue[3].at_sample, u64::MAX);
}

#[test]
fn a_full_live_queue_drops_new_events() {
    let mut queue = vec![LiveQueuedEvent { at_sample: 0, message: [0x90, 1, 1] }; MAX_LIVE_QUEUE_EVENTS];
    enqueue_live_event(&mut queue, 0, event(0, 2));
    assert_eq!(queue.len(), MAX_LIVE_QUEUE_EVENTS);
}

#[test]
fn a_chunk_takes_the_events_due_before_its_end() {
    let mut queue = vec![
        LiveQueuedEvent { at_sample: 90, message: [0x90, 1, 1] },
        LiveQueuedEvent { at_sample: 120, message: [0x90, 2, 1] },
        LiveQueuedEvent { at_sample: 163, message: [0x90, 3, 1] },
        LiveQueuedEvent { at_sample: 164, message: [0x90, 4, 1] },
    ];
    let events = take_chunk_events(&mut queue, 100, 64);
    assert_eq!(
        events,
        vec![
            LiveMidiEvent { offset_frames: 0, message: [0x90, 1, 1] },
            LiveMidiEvent { offset_frames: 20, message: [0x90, 2, 1] },
            LiveMidiEvent { offset_frames: 63, message: [0x90, 3, 1] },
        ]
    );
    assert_eq!(queue.len(), 1);
    assert_eq!(queue[0].at_sample, 164);
}
