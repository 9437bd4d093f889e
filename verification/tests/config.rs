use clap_mml_play_server::config::{
    normalize_patch_path, parse_live_instance_count, validate_realtime_play_server_config, supported_live_instance_counts, ConfigError,
    RealtimeServerConfig, DEFAULT_LIVE_INSTANCE_COUNT, DEFAULT_REALTIME_PLAY_SERVER_PORT,
};
use clap_mml_play_server::ipc::MAX_INSTANCE_COUNT;

#[test]
fn live_instance_count_accepts_supported_values() {
    for count in supported_live_instance_counts() {
        assert_eq!(parse_live_instance_count(&count.to_string()).unwrap(), count);
    }
    assert_eq!(parse_live_instance_count(" 16\n").unwrap(), 16);
}

#[test]
fn live_instance_count_rejects_unsupported_values() {
    for value in ["0", "3", "5", "17", "33", "64", "not-a-number"] {
        assert!(parse_live_instance_count(value).is_err(), "{value}");
    }
    assert_eq!(parse_live_instance_count("3"), Err(ConfigError::UnsupportedCount(3)));
    assert_eq!(
        parse_live_instance_count("x"),
        Err(ConfigError::NotAnInteger("x".to_string()))
    );
}

#[test]
fn every_supported_count_fits_in_the_shared_memory_protocol() {
    for count in supported_live_instance_counts() {
        assert!(count <= MAX_INSTANCE_COUNT, "{count}");
    }
}

#[test]
fn overlay_defaults_to_realtime_play_server_port() {
    let config = RealtimeServerConfig::from_overlay(DEFAULT_REALTIME_PLAY_SERVER_PORT, None).unwrap();

    assert_eq!(config.realtime_play_server_port, DEFAULT_REALTIME_PLAY_SERVER_PORT);
    assert_eq!(config.patch_path, None);
    assert_eq!(config.live_instance_count, DEFAULT_LIVE_INSTANCE_COUNT);
}

#[test]
fn overlay_reads_realtime_play_server_port_and_patch_path() {
    let config =
        RealtimeServerConfig::from_overlay(62222, Some("Pads/Pad 1.fxp".to_string())).unwrap();

    assert_eq!(config.realtime_play_server_port, 62222);
    assert_eq!(config.patch_path.as_deref(), Some("Pads/Pad 1.fxp"));
}

#[test]
fn overlay_rejects_zero_port() {
    let error = RealtimeServerConfig::from_overlay(0, None).unwrap_err();

    assert!(error.message().contains("realtime_play_server_port"));
}

#[test]
fn overlay_treats_blank_patch_path_as_none() {
    let config = RealtimeServerConfig::from_overlay(62154, Some("   ".to_string())).unwrap();

    assert_eq!(config.patch_path, None);
    assert_eq!(normalize_patch_path(Some("  a b ".to_string())), Some("a b".to_string()));
}

#[test]
fn an_unsupported_instance_count_fails_validation() {
    let config = RealtimeServerConfig {
        realtime_play_server_port: 1,
        patch_path: None,
        live_instance_count: 5,
    };
    assert_eq!(config.validate(), Err(ConfigError::UnsupportedCount(5)));
    assert!(config.validate().unwrap_err().message().contains("CMRT_LIVE_INSTANCE_COUNT"));
}

#[test]
fn the_main_configuration_must_name_a_plugin_at_the_server_sample_rate() {
    let realtime = RealtimeServerConfig::from_overlay(62154, None).unwrap();
    assert_eq!(
        validate_realtime_play_server_config("  ", true, &realtime),
        Err(ConfigError::EmptyPluginPath)
    );
    assert_eq!(
        validate_realtime_play_server_config("/clap/Surge XT.clap", false, &realtime),
        Err(ConfigError::UnsupportedSampleRate)
    );
    assert_eq!(
        ConfigError::UnsupportedSampleRate.message(),
        "realtime play server は sample_rate = 48000 の config のみ対応します"
    );
    assert_eq!(ConfigError::EmptyPluginPath.message(), "plugin_path が空です");
    assert_eq!(
        validate_realtime_play_server_config("/clap/Surge XT.clap", true, &realtime),
        Ok(())
    );
}
