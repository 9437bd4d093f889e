use clap_mml_play_server::workspace_update::{check_workspace_update_with, run_workspace_update_with};

const FAKE_ERROR_MESSAGE: &str = "network down";

fn fake_check_success(owner: &str, repo: &str, branch: &str, embedded_hash: &str) -> Result<String, String> {
    assert_eq!(owner, "cat2151");
    assert_eq!(repo, "clap-mml-play-server");
    assert_eq!(branch, "main");
    assert_eq!(embedded_hash, "embedded123");
    Ok(format!(
        "embedded: {embedded_hash}\nremote: {embedded_hash}\nresult: up-to-date"
    ))
}

fn fake_check_failure(_owner: &str, _repo: &str, _branch: &str, _hash: &str) -> Result<String, String> {
    Err(FAKE_ERROR_MESSAGE.to_string())
}

fn fake_update_success(owner: &str, repo: &str, targets: &[&'static str]) -> Result<(), String> {
    assert_eq!(owner, "cat2151");
    assert_eq!(repo, "clap-mml-play-server");
    assert_eq!(
        targets,
        ["clap-mml-render-server", "clap-mml-realtime-play-server"]
    );
    Ok(())
}

fn fake_update_failure(_owner: &str, _repo: &str, _targets: &[&'static str]) -> Result<(), String> {
    Err(FAKE_ERROR_MESSAGE.to_string())
}

#[test]
fn check_uses_workspace_repo_arguments() {
    let result = check_workspace_update_with("embedded123", fake_check_success).unwrap();

    assert_eq!(
        result,
        "embedded: embedded123\nremote: embedded123\nresult: up-to-date"
    );
}

#[test]
fn check_adds_context_to_errors() {
    let error = check_workspace_update_with("embedded123", fake_check_failure).unwrap_err();

    assert_eq!(
        error,
        format!("failed to check for workspace update: {FAKE_ERROR_MESSAGE}")
    );
}

#[test]
fn update_uses_workspace_repo_and_target_arguments() {
    run_workspace_update_with(fake_update_success).unwrap();
}

#[test]
fn update_adds_context_to_errors() {
    let error = run_workspace_update_with(fake_update_failure).unwrap_err();

    assert_eq!(error, format!("failed to update workspace: {FAKE_ERROR_MESSAGE}"));
}

#[test]
fn checker_is_called_once_per_check() {
    let calls = std::cell::Cell::new(0u32);
    let outcome = check_workspace_update_with("abc", |_o: &str, _r: &str, _b: &str, h: &str| {
        calls.set(calls.get() + 1);
        Ok(h.to_string())
    });
    assert_eq!(outcome, Ok("abc".to_string()));
    assert_eq!(calls.get(), 1);
}
