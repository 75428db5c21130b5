use metl::codec::save_manifest;
use metl::config::Config;
use metl::generate::{generate, plan_package_query, snapshot_gate, GenerateError};
use metl::manifest::{Manifest, Package, PackageManager};
use metl::outcome::{check_binary_availability, plan_which, CommandOutcome, RunError};
use metl::sync::{
    classify_apply, classify_clone, classify_package_sync, plan_copy, plan_symlink,
    restore_dotfiles, restore_packages, select_copy_children, select_dotfile_entries, sync,
    ApplyReport, DirEntryInfo, DotfilesStart, PackagePlan, PackageSyncReport, RestoreError,
    SyncPlan,
};

fn outcome_with_code(code: i32) -> CommandOutcome {
    CommandOutcome { exit_code: Some(code), stdout: vec![], stderr: vec![], signaled: false }
}

fn signaled_outcome() -> CommandOutcome {
    CommandOutcome { exit_code: None, stdout: vec![], stderr: vec![], signaled: true }
}

fn spawn_error() -> RunError {
    RunError { message: "no such binary".to_string() }
}

fn pacman_config(locked: bool) -> Config {
    Config {
        package_manager: PackageManager::Pacman,
        locked_versions: locked,
        dotfiles_repo: None,
        dotfiles_symlink: false,
    }
}

#[test]
fn snapshot_keeps_well_formed_lines_and_warns_on_malformed() {
    // Lock mode on; the manager reports one well-formed and one malformed line.
    let config = pacman_config(true);
    let (manifest, warnings) = generate(&config, "foo 1.2\nbar");
    assert_eq!(
        manifest.packages,
        vec![Package { name: "foo".to_string(), version: Some("1.2".to_string()) }]
    );
    assert_eq!(warnings, vec!["bar".to_string()]);
    assert!(manifest.locked_versions);
    assert_eq!(manifest.dotfiles_repo, None);
    assert!(!manifest.dotfiles_symlink);
}

#[test]
fn snapshot_without_lock_mode_drops_versions() {
    let config = pacman_config(false);
    let (manifest, warnings) = generate(&config, "foo 1.2\nzsh 5.9");
    assert_eq!(
        manifest.packages,
        vec![
            Package { name: "foo".to_string(), version: None },
            Package { name: "zsh".to_string(), version: None },
        ]
    );
    assert!(warnings.is_empty());
}

#[test]
fn snapshot_drops_blank_lines_silently() {
    let config = pacman_config(true);
    let (manifest, warnings) = generate(&config, "foo 1.2\n\n \t\n");
    assert_eq!(manifest.packages.len(), 1);
    assert!(warnings.is_empty());
}

#[test]
fn snapshot_twice_writes_identical_documents() {
    let config = Config {
        package_manager: PackageManager::Paru,
        locked_versions: true,
        dotfiles_repo: Some("url".to_string()),
        dotfiles_symlink: true,
    };
    let listing = "foo 1.2\nbar 3.4\nbad-line\n";
    let (m1, _) = generate(&config, listing);
    let (m2, _) = generate(&config, listing);
    assert_eq!(save_manifest(&m1), save_manifest(&m2));
}

#[test]
fn package_query_lists_explicitly_installed() {
    let inv = plan_package_query(&PackageManager::Paru);
    assert_eq!(inv.program, "paru");
    assert_eq!(inv.args, vec!["-Qe".to_string()]);
    assert_eq!(inv.working_dir, None);
}

#[test]
fn snapshot_gate_only_passes_a_clean_query() {
    assert_eq!(snapshot_gate(&Ok(outcome_with_code(0))), Ok(()));
    assert_eq!(snapshot_gate(&Ok(outcome_with_code(2))), Err(GenerateError::QueryFailed));
    assert_eq!(snapshot_gate(&Ok(signaled_outcome())), Err(GenerateError::QueryFailed));
    assert_eq!(snapshot_gate(&Err(spawn_error())), Err(GenerateError::QueryNotRun));
}

fn manifest_with(packages: Vec<Package>, locked: bool) -> Manifest {
    Manifest { packages, dotfiles_repo: None, dotfiles_symlink: false, locked_versions: locked }
}

#[test]
fn empty_manifest_gets_only_base_flags() {
    // An empty package list yields the base flags and no package arguments.
    let manifest = manifest_with(vec![], true);
    match restore_packages(&PackageManager::Pacman, &manifest, false) {
        PackagePlan::Run { invocation } => {
            assert_eq!(invocation.program, "pacman");
            assert_eq!(
                invocation.args,
                vec!["-S".to_string(), "--needed".to_string(), "--noconfirm".to_string()]
            );
            assert_eq!(invocation.working_dir, None);
        }
        PackagePlan::Preview { .. } => panic!("a real run must not be a preview"),
    }
}

#[test]
fn locked_restore_pins_versions() {
    let manifest = manifest_with(
        vec![
            Package { name: "foo".to_string(), version: Some("1.2".to_string()) },
            Package { name: "bar".to_string(), version: None },
        ],
        true,
    );
    match restore_packages(&PackageManager::Yay, &manifest, false) {
        PackagePlan::Run { invocation } => {
            assert_eq!(
                invocation.args,
                vec![
                    "-S".to_string(),
                    "--needed".to_string(),
                    "--noconfirm".to_string(),
                    "foo=1.2".to_string(),
                    "bar".to_string(),
                ]
            );
        }
        PackagePlan::Preview { .. } => panic!("a real run must not be a preview"),
    }
}

#[test]
fn unlocked_restore_uses_bare_names() {
    let manifest = manifest_with(
        vec![Package { name: "foo".to_string(), version: Some("1.2".to_string()) }],
        false,
    );
    match restore_packages(&PackageManager::Pacman, &manifest, false) {
        PackagePlan::Run { invocation } => {
            assert_eq!(invocation.args[3], "foo");
        }
        PackagePlan::Preview { .. } => panic!("a real run must not be a preview"),
    }
}

#[test]
fn dry_run_previews_instead_of_installing() {
    // Under dry run no install invocation is produced, only a preview.
    let manifest = manifest_with(
        vec![
            Package { name: "foo".to_string(), version: Some("1.2".to_string()) },
            Package { name: "bar".to_string(), version: None },
        ],
        true,
    );
    match restore_packages(&PackageManager::Pacman, &manifest, true) {
        PackagePlan::Preview { command } => {
            assert_eq!(command, "pacman -Sp foo=1.2 bar");
        }
        PackagePlan::Run { .. } => panic!("dry run must not plan an invocation"),
    }
}

#[test]
fn package_sync_outcomes_are_classified() {
    assert!(matches!(classify_package_sync(&outcome_with_code(0)), PackageSyncReport::Synced));
    assert!(matches!(
        classify_package_sync(&outcome_with_code(4)),
        PackageSyncReport::BatchFailed { code: 4 }
    ));
    assert!(matches!(classify_package_sync(&signaled_outcome()), PackageSyncReport::Interrupted));
}

fn manifest_with_repo(repo: Option<&str>, symlink: bool) -> Manifest {
    Manifest {
        packages: vec![],
        dotfiles_repo: repo.map(|r| r.to_string()),
        dotfiles_symlink: symlink,
        locked_versions: false,
    }
}

#[test]
fn missing_repo_means_not_configured() {
    // Without a repository the dotfiles flow performs no invocation at all.
    let manifest = manifest_with_repo(None, true);
    assert!(matches!(
        restore_dotfiles(&manifest, "/home/u", false),
        DotfilesStart::NotConfigured
    ));
    assert!(matches!(restore_dotfiles(&manifest, "/home/u", true), DotfilesStart::NotConfigured));
}

#[test]
fn clone_goes_to_dotfiles_under_home() {
    let manifest = manifest_with_repo(Some("https://example.com/d.git"), true);
    match restore_dotfiles(&manifest, "/home/u", false) {
        DotfilesStart::Clone { invocation } => {
            assert_eq!(invocation.program, "git");
            assert_eq!(
                invocation.args,
                vec![
                    "clone".to_string(),
                    "https://example.com/d.git".to_string(),
                    "/home/u/dotfiles".to_string(),
                ]
            );
            assert_eq!(invocation.working_dir, None);
        }
        _ => panic!("a configured repo must be cloned"),
    }
}

#[test]
fn dry_run_previews_the_clone() {
    let manifest = manifest_with_repo(Some("url"), true);
    match restore_dotfiles(&manifest, "/home/u", true) {
        DotfilesStart::ClonePreview { repo, destination } => {
            assert_eq!(repo, "url");
            assert_eq!(destination, "/home/u/dotfiles");
        }
        _ => panic!("dry run must only preview the clone"),
    }
}

#[test]
fn clone_failure_is_typed() {
    assert_eq!(classify_clone(&Ok(outcome_with_code(0))), Ok(()));
    assert_eq!(classify_clone(&Ok(outcome_with_code(128))), Err(RestoreError::DotfileClone));
    assert_eq!(classify_clone(&Ok(signaled_outcome())), Err(RestoreError::DotfileClone));
    assert_eq!(classify_clone(&Err(spawn_error())), Err(RestoreError::DotfileClone));
}

fn dir(name: &str) -> DirEntryInfo {
    DirEntryInfo { name: name.to_string(), is_dir: true }
}

fn file(name: &str) -> DirEntryInfo {
    DirEntryInfo { name: name.to_string(), is_dir: false }
}

#[test]
fn link_mode_skips_metadata_and_dot_directories() {
    // Only `zsh` is passed to the link tool; `.git` is skipped.
    let entries = vec![dir(".git"), dir("zsh")];
    assert_eq!(select_dotfile_entries(&entries, true), vec!["zsh".to_string()]);
}

#[test]
fn copy_mode_keeps_dot_directories_except_metadata() {
    let entries = vec![dir(".git"), dir("zsh"), dir(".config"), file("README.md")];
    assert_eq!(
        select_dotfile_entries(&entries, false),
        vec!["zsh".to_string(), ".config".to_string()]
    );
}

#[test]
fn only_directories_are_applied() {
    let entries = vec![file("zsh"), dir("nvim")];
    assert_eq!(select_dotfile_entries(&entries, true), vec!["nvim".to_string()]);
}

#[test]
fn copy_children_skip_metadata() {
    let names = vec![".git".to_string(), ".zshrc".to_string(), "bin".to_string()];
    assert_eq!(select_copy_children(&names), vec![".zshrc".to_string(), "bin".to_string()]);
}

#[test]
fn link_invocation_runs_from_dotfiles_root() {
    let inv = plan_symlink("zsh", "/home/u", false, false);
    assert_eq!(inv.program, "stow");
    assert_eq!(inv.working_dir, Some("/home/u/dotfiles".to_string()));
    assert_eq!(inv.args, vec!["-S".to_string(), "zsh".to_string()]);
}

#[test]
fn dry_run_link_simulates() {
    let inv = plan_symlink("zsh", "/home/u", true, true);
    assert_eq!(
        inv.args,
        vec![
            "-S".to_string(),
            "zsh".to_string(),
            "--simulate".to_string(),
            "--verbose".to_string(),
        ]
    );
}

#[test]
fn copy_invocation_never_overwrites() {
    let inv = plan_copy("/home/u/dotfiles/zsh/conf", "/home/u", false, false);
    assert_eq!(inv.program, "rsync");
    assert_eq!(inv.working_dir, Some("/home/u/dotfiles/zsh/conf".to_string()));
    assert_eq!(
        inv.args,
        vec![
            "--ignore-existing".to_string(),
            "-a".to_string(),
            "--atimes".to_string(),
            "./".to_string(),
            "/home/u".to_string(),
        ]
    );
}

#[test]
fn dry_run_copy_carries_the_dry_run_flag() {
    let inv = plan_copy("/src", "/dst", true, false);
    assert!(inv.args.contains(&"--dry-run".to_string()));
}

#[test]
fn apply_outcomes_are_classified_separately() {
    assert!(matches!(classify_apply(&Ok(outcome_with_code(0))), ApplyReport::Applied));
    assert!(matches!(
        classify_apply(&Ok(outcome_with_code(3))),
        ApplyReport::NonZero { code: 3 }
    ));
    assert!(matches!(classify_apply(&Ok(signaled_outcome())), ApplyReport::Interrupted));
    assert!(matches!(classify_apply(&Err(spawn_error())), ApplyReport::SpawnFailed { .. }));
}

#[test]
fn sync_plans_packages_then_dotfiles() {
    let manifest = Manifest {
        packages: vec![Package { name: "foo".to_string(), version: None }],
        dotfiles_repo: Some("url".to_string()),
        dotfiles_symlink: true,
        locked_versions: false,
    };
    let SyncPlan { package_step, dotfiles_step } =
        sync(&PackageManager::Pacman, &manifest, "/home/u", false);
    assert!(matches!(package_step, PackagePlan::Run { .. }));
    assert!(matches!(dotfiles_step, DotfilesStart::Clone { .. }));
}

#[test]
fn restore_plans_like_sync() {
    let manifest = manifest_with_repo(None, false);
    let plan = metl::restore::restore(&PackageManager::Pacman, &manifest, "/home/u", true);
    assert!(matches!(plan.package_step, PackagePlan::Preview { .. }));
    assert!(matches!(plan.dotfiles_step, DotfilesStart::NotConfigured));
}

#[test]
fn binary_availability_needs_a_clean_probe() {
    let inv = plan_which("stow");
    assert_eq!(inv.program, "which");
    assert_eq!(inv.args, vec!["stow".to_string()]);
    assert!(check_binary_availability(&Ok(outcome_with_code(0))));
    assert!(!check_binary_availability(&Ok(outcome_with_code(1))));
    assert!(!check_binary_availability(&Ok(signaled_outcome())));
    assert!(!check_binary_availability(&Err(spawn_error())));
}
