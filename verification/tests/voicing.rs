use clap_mml_play_server::voicing::{
    build_voicing_report, classify_play_mode, classify_surge, record_surge_param, PatchVoicing,
    ProbeReport, SurgeParamValues, SurgeParamsReport, SurgeVoicing,
};

#[test]
fn all_documented_mono_labels_are_mono() {
    for label in [
        "Mono",
        "Mono (Single Trigger)",
        "Mono (Fingered Portamento)",
        "Mono (Single Trigger & Fingered Portamento)",
        "Latch (Monophonic)",
    ] {
        assert_eq!(classify_play_mode(label), PatchVoicing::Mono);
    }
}

#[test]
fn play_modes_are_trimmed_and_unknown_labels_stay_unknown() {
    assert_eq!(classify_play_mode("  POLY \t"), PatchVoicing::Poly);
    assert_eq!(classify_play_mode("Legato"), PatchVoicing::Unknown);
}

#[test]
fn single_uses_the_active_scene() {
    assert_eq!(classify_surge("Single", "B", "Mono", "Poly"), SurgeVoicing::Poly);
}

#[test]
fn actual_surge_display_casing_and_numeric_scene_are_supported() {
    assert_eq!(
        classify_surge("Single", "0", "Mono (single trigger)", "Poly"),
        SurgeVoicing::Mono
    );
    assert_eq!(
        classify_surge(
            "Key split",
            "1",
            "Mono (single trigger)",
            "Mono (single trigger & fingered portamento)",
        ),
        SurgeVoicing::Mono
    );
}

#[test]
fn multi_scene_reports_mixed() {
    assert_eq!(classify_surge("Dual", "A", "Mono", "Poly"), SurgeVoicing::Mixed);
}

#[test]
fn unknown_scene_modes_and_scenes_are_unknown() {
    assert_eq!(classify_surge("Triple", "A", "Mono", "Mono"), SurgeVoicing::Unknown);
    assert_eq!(classify_surge("Single", "C", "Mono", "Mono"), SurgeVoicing::Unknown);
    assert_eq!(classify_surge("Dual", "A", "Mono", "Legato"), SurgeVoicing::Unknown);
    assert_eq!(classify_surge("Channel Split", "A", "Poly", "Poly"), SurgeVoicing::Poly);
}

#[test]
fn surge_poly_or_mixed_overrides_a_mono_probe() {
    let report = build_voicing_report(
        ProbeReport {
            result: PatchVoicing::Mono,
            ended_note_ids: vec![2],
            blocks: 1,
        },
        None,
        Some(SurgeParamsReport {
            scene_mode: "Dual".into(),
            active_scene: "A".into(),
            scene_a_play_mode: "Mono".into(),
            scene_b_play_mode: "Poly".into(),
            result: SurgeVoicing::Mixed,
        }),
    );
    assert_eq!(report.decision, PatchVoicing::Poly);
    assert!(report.disagreement);
}

#[test]
fn without_surge_the_probe_decides_and_nothing_disagrees() {
    let report = build_voicing_report(
        ProbeReport {
            result: PatchVoicing::Unknown,
            ended_note_ids: vec![],
            blocks: 3,
        },
        None,
        None,
    );
    assert_eq!(report.decision, PatchVoicing::Unknown);
    assert!(!report.disagreement);
}

#[test]
fn scene_parameters_are_recorded_by_name_and_module() {
    let mut values = SurgeParamValues::new();
    record_surge_param(&mut values, "Scene Mode", "Global", "Dual".to_string());
    record_surge_param(&mut values, "Active Scene", "Global", "A".to_string());
    record_surge_param(&mut values, "Play Mode", "Scene A Common", "Mono".to_string());
    assert!(SurgeParamValues {
        scene_mode: values.scene_mode.clone(),
        active_scene: values.active_scene.clone(),
        scene_a_play_mode: values.scene_a_play_mode.clone(),
        scene_b_play_mode: values.scene_b_play_mode.clone(),
    }
    .into_report()
    .is_none());
    record_surge_param(&mut values, "Play Mode", "Scene B Common", "Poly".to_string());
    record_surge_param(&mut values, "Volume", "Scene B Common", "0 dB".to_string());
    let report = values.into_report().unwrap();
    assert_eq!(report.scene_a_play_mode, "Mono");
    assert_eq!(report.scene_b_play_mode, "Poly");
    assert_eq!(report.result, SurgeVoicing::Mixed);
}
