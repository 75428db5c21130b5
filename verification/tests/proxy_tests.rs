use metl::commits::{
    commit_invocation, commit_manifest, git_add_result, CommitMetlManifestError, CommitProgress,
    CommitStage, StageFailure,
};
use metl::install::install;
use metl::manifest::PackageManager;
use metl::outcome::{CommandOutcome, RunError};
use metl::proxies::{classify_proxy, has_verbose, pacman_compatible_proxy, ProxyDecision};
use metl::remove::remove;

fn outcome_with_code(code: i32) -> CommandOutcome {
    CommandOutcome { exit_code: Some(code), stdout: vec![], stderr: vec![], signaled: false }
}

fn signaled_outcome() -> CommandOutcome {
    CommandOutcome { exit_code: None, stdout: vec![], stderr: vec![], signaled: true }
}

fn spawn_error() -> RunError {
    RunError { message: "missing".to_string() }
}

#[test]
fn single_bare_install_gets_default_flags() {
    // `yay -S --noconfirm ripgrep`: one bare argument gets the defaults.
    let plan = install(&PackageManager::Yay, &vec!["ripgrep".to_string()]);
    assert_eq!(plan.invocation.program, "yay");
    assert_eq!(
        plan.invocation.args,
        vec!["-S".to_string(), "--noconfirm".to_string(), "ripgrep".to_string()]
    );
    assert_eq!(plan.invocation.working_dir, None);
    assert_eq!(plan.proxied_cmd, "ripgrep");
}

#[test]
fn exit_zero_cascades_and_exit_two_does_not() {
    assert!(matches!(classify_proxy(&outcome_with_code(0)), ProxyDecision::Success));
    assert!(matches!(classify_proxy(&outcome_with_code(2)), ProxyDecision::Failed { code: 2 }));
}

#[test]
fn missing_exit_code_counts_as_failure_one() {
    assert!(matches!(classify_proxy(&signaled_outcome()), ProxyDecision::Failed { code: 1 }));
}

#[test]
fn single_bare_remove_gets_default_flags() {
    let plan = remove(&PackageManager::Pacman, &vec!["ripgrep".to_string()]);
    assert_eq!(
        plan.invocation.args,
        vec!["-R".to_string(), "--noconfirm".to_string(), "ripgrep".to_string()]
    );
    assert_eq!(plan.proxied_cmd, "ripgrep");
}

#[test]
fn explicit_flags_pass_through_verbatim() {
    let args = vec!["-Syu".to_string(), "--noconfirm".to_string()];
    let plan = install(&PackageManager::Paru, &args);
    assert_eq!(plan.invocation.args, args);
    assert_eq!(plan.proxied_cmd, "-Syu --noconfirm");
}

#[test]
fn empty_args_pass_through_verbatim() {
    let plan = pacman_compatible_proxy(
        &PackageManager::Pacman,
        &vec![],
        &vec!["-S".to_string(), "--noconfirm".to_string()],
    );
    assert!(plan.invocation.args.is_empty());
    assert_eq!(plan.proxied_cmd, "");
}

#[test]
fn verbose_is_detected_in_raw_args() {
    assert!(has_verbose(&vec!["-S".to_string(), "-v".to_string()]));
    assert!(has_verbose(&vec!["--verbose".to_string()]));
    assert!(!has_verbose(&vec!["ripgrep".to_string()]));
    assert!(!has_verbose(&vec![]));
}

#[test]
fn commit_stages_build_their_git_invocations() {
    let add = commit_invocation(&CommitStage::Add, "/home/u/.config/metl", &PackageManager::Yay, "ripgrep");
    assert_eq!(add.program, "git");
    assert_eq!(add.working_dir, Some("/home/u/.config/metl".to_string()));
    assert_eq!(add.args, vec!["add".to_string(), ".".to_string()]);

    let commit =
        commit_invocation(&CommitStage::Commit, "/home/u/.config/metl", &PackageManager::Yay, "ripgrep");
    assert_eq!(
        commit.args,
        vec!["commit".to_string(), "-m".to_string(), "Updated with: yay ripgrep".to_string()]
    );

    let push =
        commit_invocation(&CommitStage::Push, "/home/u/.config/metl", &PackageManager::Yay, "ripgrep");
    assert_eq!(push.args, vec!["push".to_string(), "origin".to_string(), "master".to_string()]);
}

#[test]
fn commit_flow_advances_on_success() {
    assert!(matches!(
        commit_manifest(&CommitStage::Add, &Ok(outcome_with_code(0))),
        CommitProgress::Next { stage: CommitStage::Commit }
    ));
    assert!(matches!(
        commit_manifest(&CommitStage::Commit, &Ok(outcome_with_code(0))),
        CommitProgress::Next { stage: CommitStage::Push }
    ));
    assert!(matches!(
        commit_manifest(&CommitStage::Push, &Ok(outcome_with_code(0))),
        CommitProgress::Done
    ));
}

#[test]
fn commit_flow_stops_on_any_failure() {
    match commit_manifest(&CommitStage::Add, &Ok(outcome_with_code(1))) {
        CommitProgress::Stopped { stage, failure } => {
            assert_eq!(stage, CommitStage::Add);
            assert!(matches!(failure, StageFailure::Exit { code: 1 }));
        }
        _ => panic!("a failed stage must stop the flow"),
    }
    match commit_manifest(&CommitStage::Commit, &Err(spawn_error())) {
        CommitProgress::Stopped { stage, failure } => {
            assert_eq!(stage, CommitStage::Commit);
            assert!(matches!(failure, StageFailure::NotRun { .. }));
        }
        _ => panic!("a failed stage must stop the flow"),
    }
    match commit_manifest(&CommitStage::Push, &Ok(signaled_outcome())) {
        CommitProgress::Stopped { stage, failure } => {
            assert_eq!(stage, CommitStage::Push);
            assert!(matches!(failure, StageFailure::Interrupted));
        }
        _ => panic!("a failed stage must stop the flow"),
    }
}

#[test]
fn staging_errors_are_typed_per_cause() {
    assert_eq!(git_add_result(&Ok(outcome_with_code(0))), Ok(()));
    assert_eq!(
        git_add_result(&Ok(outcome_with_code(3))),
        Err(CommitMetlManifestError::AddFailed { code: 3 })
    );
    assert_eq!(git_add_result(&Ok(signaled_outcome())), Err(CommitMetlManifestError::AddSigInt));
    assert_eq!(
        git_add_result(&Err(spawn_error())),
        Err(CommitMetlManifestError::AddError { message: "missing".to_string() })
    );
}
