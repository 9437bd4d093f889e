//! Self-update of the workspace's programs from the project's GitHub repository.
//!
//! The repository, branch and programs are fixed here; talking to GitHub is the job of
//! the checker and updater functions that the caller hands in.
use vstd::prelude::*;

verus! {

pub const UPDATE_REPO_OWNER: &'static str = "cat2151";

pub const UPDATE_REPO_NAME: &'static str = "clap-mml-play-server";

pub const UPDATE_BRANCH: &'static str = "main";

/// The programs of the workspace, updated together.
pub open spec fn update_targets_spec() -> Seq<&'static str> {
    seq!["clap-mml-render-server", "clap-mml-realtime-play-server"]
}

/// The programs of the workspace, updated together.
pub fn update_targets() -> (targets: Vec<&'static str>)
    ensures
        targets@ == update_targets_spec(),
{
    let targets: Vec<&'static str> = vec!["clap-mml-render-server", "clap-mml-realtime-play-server"];
    targets
}

pub open spec fn check_error_text(error: Seq<char>) -> Seq<char> {
    "failed to check for workspace update: "@ + error
}

pub open spec fn update_error_text(error: Seq<char>) -> Seq<char> {
    "failed to update workspace: "@ + error
}

/// A failed check, with what was being done put in front.
pub fn check_outcome(result: Result<String, String>) -> (outcome: Result<String, String>)
    ensures
        result matches Ok(report) ==> outcome matches Ok(r) && r@ == report@,
        result matches Err(e) ==> outcome matches Err(m) && m@ == check_error_text(e@),
{
    match result {
        Ok(report) => Ok(report),
        Err(error) => {
            let mut message = crate::text::owned("failed to check for workspace update: ");
            message.append(error.as_str());
            Err(message)
        },
    }
}

/// A failed update, with what was being done put in front.
pub fn update_outcome(result: Result<(), String>) -> (outcome: Result<(), String>)
    ensures
        result is Ok ==> outcome is Ok,
        result matches Err(e) ==> outcome matches Err(m) && m@ == update_error_text(e@),
{
    match result {
        Ok(()) => Ok(()),
        Err(error) => {
            let mut message = crate::text::owned("failed to update workspace: ");
            message.append(error.as_str());
            Err(message)
        },
    }
}

/// What a check answers, with what was being done put in front of a failure.
pub open spec fn spec_check_outcome(result: Result<String, String>) -> Result<Seq<char>, Seq<char>> {
    match result {
        Ok(report) => Ok(report@),
        Err(e) => Err(check_error_text(e@)),
    }
}

/// What an update answers, with what was being done put in front of a failure.
pub open spec fn spec_update_outcome(result: Result<(), String>) -> Result<(), Seq<char>> {
    match result {
        Ok(()) => Ok(()),
        Err(e) => Err(update_error_text(e@)),
    }
}

pub open spec fn string_outcome(outcome: Result<String, String>) -> Result<Seq<char>, Seq<char>> {
    match outcome {
        Ok(s) => Ok(s@),
        Err(e) => Err(e@),
    }
}

pub open spec fn unit_outcome(outcome: Result<(), String>) -> Result<(), Seq<char>> {
    match outcome {
        Ok(()) => Ok(()),
        Err(e) => Err(e@),
    }
}

/// Compares the commit the program was built from with the head of the main branch:
/// `checker` is asked with this repository, the main branch and `build_commit_hash`,
/// and its report comes back as it is.
pub fn check_workspace_update_with<F: Fn(&str, &str, &str, &str) -> Result<String, String>>(
    build_commit_hash: &str,
    checker: F,
) -> (outcome: Result<String, String>)
    requires
        checker.requires((UPDATE_REPO_OWNER, UPDATE_REPO_NAME, UPDATE_BRANCH, build_commit_hash)),
    ensures
        exists|answer: Result<String, String>|
            #![trigger checker.ensures((UPDATE_REPO_OWNER, UPDATE_REPO_NAME, UPDATE_BRANCH, build_commit_hash), answer)]
            checker.ensures(
                (UPDATE_REPO_OWNER, UPDATE_REPO_NAME, UPDATE_BRANCH, build_commit_hash),
                answer,
            ) && string_outcome(outcome) == spec_check_outcome(answer),
{
    let answer = checker(UPDATE_REPO_OWNER, UPDATE_REPO_NAME, UPDATE_BRANCH, build_commit_hash);
    let ghost asked = answer;
    let outcome = check_outcome(answer);
    assert(string_outcome(outcome) == spec_check_outcome(asked));
    outcome
}

/// Updates every program of the workspace at once: `updater` is asked with this
/// repository and the targets, and a failure comes back with context.
pub fn run_workspace_update_with<F: Fn(&str, &str, &[&'static str]) -> Result<(), String>>(
    updater: F,
) -> (outcome: Result<(), String>)
    requires
        forall|targets: &[&'static str]|
            targets@ == update_targets_spec() ==> #[trigger] updater.requires(
                (UPDATE_REPO_OWNER, UPDATE_REPO_NAME, targets),
            ),
    ensures
        exists|targets: &[&'static str], answer: Result<(), String>|
            #![trigger updater.ensures((UPDATE_REPO_OWNER, UPDATE_REPO_NAME, targets), answer)]
            targets@ == update_targets_spec() && updater.ensures(
                (UPDATE_REPO_OWNER, UPDATE_REPO_NAME, targets),
                answer,
            ) && unit_outcome(outcome) == spec_update_outcome(answer),
{
    let targets = update_targets();
    let answer = updater(UPDATE_REPO_OWNER, UPDATE_REPO_NAME, targets.as_slice());
    let ghost asked = answer;
    let outcome = update_outcome(answer);
    assert(unit_outcome(outcome) == spec_update_outcome(asked));
    outcome
}

} // verus!
