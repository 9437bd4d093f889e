use clap_mml_play_server::effect_presets::{
    preset_count, report, totals_line, EffectCatalog, EffectPlugin, EffectPreset,
};

fn plugin(key: u64, name: &str) -> EffectPlugin {
    EffectPlugin {
        key,
        name: name.to_string(),
        plugin_id: format!("com.example.{name}"),
        plugin_path: format!("/clap/{name}.clap"),
        json_key: format!("{name} preset"),
        preset_root: format!("/presets/{name}"),
    }
}

fn preset(plugin: u64, display: &str) -> EffectPreset {
    EffectPreset {
        plugin,
        display: display.to_string(),
        json_key: "key".to_string(),
        value: display.to_lowercase(),
        path: format!("/presets/{display}.fxp"),
    }
}

fn catalog() -> EffectCatalog {
    EffectCatalog {
        plugins: vec![plugin(1, "Reverb"), plugin(2, "Delay"), plugin(3, "Chorus")],
        presets: vec![preset(1, "Hall"), preset(2, "Echo"), preset(1, "Room")],
        skipped: vec!["broken.fxp: not a preset".to_string()],
    }
}

#[test]
fn each_plugin_reports_the_presets_found_for_it() {
    let catalog = catalog();
    assert_eq!(preset_count(&catalog.presets, 1), 2);
    let report = report(&catalog);
    let counts: Vec<usize> = report.plugins.iter().map(|p| p.preset_count).collect();
    assert_eq!(counts, vec![2, 1, 0]);
    assert_eq!(report.plugins[1].plugin_path, "/clap/Delay.clap");
    assert_eq!(report.presets.len(), 3);
    assert_eq!(report.presets[2].display, "Room");
    assert_eq!(report.presets[2].value, "room");
    assert_eq!(report.skipped, vec!["broken.fxp: not a preset".to_string()]);
}

#[test]
fn the_listing_ends_with_the_totals() {
    assert_eq!(totals_line(&catalog()), "total: 3 plugins, 3 presets, 1 skipped");
}
