use vstd::prelude::*;

use crate::manifest::{Manifest, ManifestView, Package, PackageManager, PackageView};
use crate::outcome::{CommandOutcome, Invocation, RunError, spec_ran_successfully};
use crate::text::{join_with, push_str, push_string, spec_join};

verus! {

/// How the dotfiles flow can fail as a whole: the repository could not be
/// cloned, so nothing after the clone is meaningful.
#[derive(Clone, Copy, Debug, PartialEq, Eq, Structural)]
pub enum RestoreError {
    DotfileClone,
}

/// The base flags of the batched install: one call installs every declared
/// package, letting the underlying tool dedupe and resolve together.
pub open spec fn spec_install_base_args() -> Seq<Seq<char>> {
    seq!["-S"@, "--needed"@, "--noconfirm"@]
}

/// The argument that one package contributes to the batched install:
/// `name=version` when lock mode is on and a version is pinned, plain `name`
/// otherwise.
pub open spec fn spec_package_arg(p: PackageView, locked: bool) -> Seq<char> {
    match p.version {
        Some(v) => if locked {
            p.name + "="@ + v
        } else {
            p.name
        },
        None => p.name,
    }
}

/// The package arguments of the batched install, in manifest order.
pub open spec fn spec_package_args(ps: Seq<PackageView>, locked: bool) -> Seq<Seq<char>> {
    ps.map_values(|p: PackageView| spec_package_arg(p, locked))
}

/// Writes the install argument of one package.
fn package_arg(p: &Package, locked: bool) -> (r: String)
    ensures
        r@ == spec_package_arg(p@, locked),
{
    match &p.version {
        Some(v) => {
            if locked {
                p.name.clone().concat("=").concat(v.as_str())
            } else {
                p.name.clone()
            }
        },
        None => p.name.clone(),
    }
}

/// What the package reconciliation step will do: a descriptive preview under
/// dry run, else one batched install invocation.
pub enum PackagePlan {
    Preview { command: String },
    Run { invocation: Invocation },
}

/// The preview text of a dry-run package step.
pub open spec fn spec_package_preview(manager: PackageManager, m: ManifestView) -> Seq<char> {
    manager.spec_name() + " -Sp "@ + spec_join(
        spec_package_args(m.packages, m.locked_versions),
        ' ',
    )
}

/// What the package step owes for given inputs: under dry run a preview of
/// the command and no invocation; otherwise one batched invocation of the
/// manager with the base flags followed by every package argument.
pub open spec fn package_plan_matches(
    r: PackagePlan,
    manager: PackageManager,
    m: ManifestView,
    dry_run: bool,
) -> bool {
    match r {
        PackagePlan::Preview { command } => dry_run && command@ == spec_package_preview(manager, m),
        PackagePlan::Run { invocation } => {
            &&& !dry_run
            &&& invocation@.program == manager.spec_name()
            &&& invocation@.args == spec_install_base_args() + spec_package_args(
                m.packages,
                m.locked_versions,
            )
            &&& invocation@.working_dir is None
        },
    }
}

/// Plans the package reconciliation step of a restore: one batched install of
/// every declared package, or its preview under dry run.
pub fn restore_packages(manager: &PackageManager, manifest: &Manifest, dry_run: bool) -> (r:
    PackagePlan)
    ensures
        package_plan_matches(r, *manager, manifest@, dry_run),
        dry_run <==> r is Preview,
{
    let ghost ps = manifest@.packages;
    let ghost locked = manifest@.locked_versions;
    let mut args: Vec<String> = Vec::new();
    let mut k: usize = 0;
    proof {
        assert(args.deep_view() =~~= spec_package_args(ps.take(0), locked));
    }
    while k < manifest.packages.len()
        invariant
            0 <= k <= manifest.packages@.len(),
            ps == manifest@.packages,
            locked == manifest@.locked_versions,
            ps.len() == manifest.packages@.len(),
            args.deep_view() == spec_package_args(ps.take(k as int), locked),
        decreases manifest.packages@.len() - k,
    {
        push_string(&mut args, package_arg(&manifest.packages[k], manifest.locked_versions));
        proof {
            assert(ps.take(k + 1) =~= ps.take(k as int).push(ps[k as int]));
            assert(spec_package_args(ps.take(k + 1), locked) =~~= spec_package_args(
                ps.take(k as int),
                locked,
            ).push(spec_package_arg(ps[k as int], locked)));
        }
        k += 1;
    }
    proof {
        assert(ps.take(manifest.packages@.len() as int) =~= ps);
    }
    if dry_run {
        proof {
            reveal_strlit(" ");
            assert(" "@ =~= seq![' ']);
        }
        let joined = join_with(&args, ' ', " ");
        let command = manifest_preview_head(manager).concat(joined.as_str());
        PackagePlan::Preview { command }
    } else {
        let mut full: Vec<String> = Vec::new();
        push_str(&mut full, "-S");
        push_str(&mut full, "--needed");
        push_str(&mut full, "--noconfirm");
        proof {
            assert(full.deep_view() =~~= spec_install_base_args());
        }
        let mut k2: usize = 0;
        while k2 < args.len()
            invariant
                0 <= k2 <= args@.len(),
                args.deep_view() == spec_package_args(ps, locked),
                args.deep_view().len() == args@.len(),
                full.deep_view() == spec_install_base_args() + spec_package_args(ps, locked).take(
                    k2 as int,
                ),
            decreases args@.len() - k2,
        {
            push_str(&mut full, args[k2].as_str());
            proof {
                assert(args.deep_view()[k2 as int] == args@[k2 as int]@);
                assert(spec_package_args(ps, locked).take(k2 + 1) =~= spec_package_args(
                    ps,
                    locked,
                ).take(k2 as int).push(args.deep_view()[k2 as int]));
                assert(full.deep_view() =~~= spec_install_base_args() + spec_package_args(
                    ps,
                    locked,
                ).take(k2 + 1));
            }
            k2 += 1;
        }
        proof {
            assert(spec_package_args(ps, locked).take(args@.len() as int) =~= spec_package_args(
                ps,
                locked,
            ));
        }
        let invocation = Invocation {
            program: manager.to_string(),
            args: full,
            working_dir: None,
        };
        PackagePlan::Run { invocation }
    }
}

/// The head of the dry-run preview text: `<manager> -Sp `.
fn manifest_preview_head(manager: &PackageManager) -> (r: String)
    ensures
        r@ == manager.spec_name() + " -Sp "@,
{
    manager.to_string().concat(" -Sp ")
}

/// With an empty package list, the batched install carries exactly the base
/// flags (`-S --needed --noconfirm`) and no package arguments.
pub proof fn lemma_empty_package_list(ps: Seq<PackageView>, locked: bool)
    requires
        ps.len() == 0,
    ensures
        spec_install_base_args() + spec_package_args(ps, locked) == spec_install_base_args(),
{
    assert(spec_install_base_args() + spec_package_args(ps, locked) =~~= spec_install_base_args());
}

/// With an empty package list, any planned (non-dry-run) package step is one
/// invocation holding only the base flags.
pub proof fn lemma_empty_manifest_only_base_flags(
    r: PackagePlan,
    manager: PackageManager,
    m: ManifestView,
)
    requires
        package_plan_matches(r, manager, m, false),
        m.packages.len() == 0,
    ensures
        match r {
            PackagePlan::Run { invocation } => invocation@.args == spec_install_base_args(),
            PackagePlan::Preview { .. } => false,
        },
{
    lemma_empty_package_list(m.packages, m.locked_versions);
}

/// Dry-run invariant: under dry run, no process that mutates system state is
/// planned. The package step and the clone come out as previews, never as
/// invocations; the per-entry link and copy steps carry their tools' simulate
/// flags, as their own contracts state.
pub proof fn lemma_dry_run_plans_no_mutation(
    package_step: PackagePlan,
    dotfiles_step: DotfilesStart,
    manager: PackageManager,
    m: ManifestView,
    home: Seq<char>,
)
    requires
        package_plan_matches(package_step, manager, m, true),
        dotfiles_start_matches(dotfiles_step, m, home, true),
    ensures
        !(package_step is Run),
        !(dotfiles_step is Clone),
{
}

/// The reported outcome of the batched install: exit code zero is success; a
/// non-zero exit is one batch failure (the underlying tool does not attribute
/// partial failures to packages); termination by signal is distinct from
/// both.
pub enum PackageSyncReport {
    Synced,
    BatchFailed { code: i32 },
    Interrupted,
}

/// Classifies the batched install's outcome.
pub fn classify_package_sync(outcome: &CommandOutcome) -> (r: PackageSyncReport)
    ensures
        match r {
            PackageSyncReport::Synced => outcome.exit_code == Some(0i32),
            PackageSyncReport::BatchFailed { code } => outcome.exit_code == Some(code) && code != 0,
            PackageSyncReport::Interrupted => outcome.exit_code is None,
        },
{
    match outcome.exit_code {
        Some(code) => {
            if code == 0 {
                PackageSyncReport::Synced
            } else {
                PackageSyncReport::BatchFailed { code }
            }
        },
        None => PackageSyncReport::Interrupted,
    }
}

/// The fixed location of the dotfiles clone: `dotfiles` under the home
/// directory.
pub fn dotfiles_path(home: &str) -> (r: String)
    ensures
        r@ == home@ + "/dotfiles"@,
{
    String::from_str(home).concat("/dotfiles")
}

/// The first move of the dotfiles flow: nothing when no repository is
/// configured, a previewed clone under dry run, else a real clone.
pub enum DotfilesStart {
    /// No repository configured: a notice is emitted and nothing further
    /// happens. This is not an error.
    NotConfigured,
    /// Dry run: the clone is previewed and skipped, and applying may still be
    /// previewed afterwards.
    ClonePreview { repo: String, destination: String },
    /// Clone the repository into the dotfiles path under home.
    Clone { invocation: Invocation },
}

/// What the start of the dotfiles flow owes for given inputs.
pub open spec fn dotfiles_start_matches(
    r: DotfilesStart,
    m: ManifestView,
    home: Seq<char>,
    dry_run: bool,
) -> bool {
    match r {
        DotfilesStart::NotConfigured => m.dotfiles_repo is None,
        DotfilesStart::ClonePreview { repo, destination } => {
            &&& dry_run
            &&& m.dotfiles_repo == Some(repo@)
            &&& destination@ == home + "/dotfiles"@
        },
        DotfilesStart::Clone { invocation } => {
            &&& !dry_run
            &&& m.dotfiles_repo is Some
            &&& invocation@.program == "git"@
            &&& invocation@.args == seq!["clone"@, m.dotfiles_repo.unwrap(), home + "/dotfiles"@]
            &&& invocation@.working_dir is None
        },
    }
}

/// Plans the start of the dotfiles flow. A manifest without a repository
/// legitimately performs nothing; under dry run the clone is only previewed.
pub fn restore_dotfiles(manifest: &Manifest, home: &str, dry_run: bool) -> (r: DotfilesStart)
    ensures
        dotfiles_start_matches(r, manifest@, home@, dry_run),
        (manifest@.dotfiles_repo is None) <==> (r is NotConfigured),
{
    match &manifest.dotfiles_repo {
        None => DotfilesStart::NotConfigured,
        Some(repo) => {
            let destination = dotfiles_path(home);
            if dry_run {
                DotfilesStart::ClonePreview { repo: repo.clone(), destination }
            } else {
                let mut args: Vec<String> = Vec::new();
                push_str(&mut args, "clone");
                push_string(&mut args, repo.clone());
                push_string(&mut args, destination);
                let invocation = Invocation {
                    program: String::from_str("git"),
                    args,
                    working_dir: None,
                };
                proof {
                    assert(invocation@.args =~~= seq![
                        "clone"@,
                        manifest@.dotfiles_repo.unwrap(),
                        home@ + "/dotfiles"@,
                    ]);
                }
                DotfilesStart::Clone { invocation }
            }
        },
    }
}

/// Classifies the clone's outcome: anything but a normal exit with code zero
/// is a typed clone failure, which aborts the whole dotfiles flow.
pub fn classify_clone(outcome: &Result<CommandOutcome, RunError>) -> (r: Result<(), RestoreError>)
    ensures
        match r {
            Ok(_) => spec_ran_successfully(*outcome),
            Err(e) => !spec_ran_successfully(*outcome) && e == RestoreError::DotfileClone,
        },
{
    match outcome {
        Ok(o) => {
            if o.success() {
                Ok(())
            } else {
                Err(RestoreError::DotfileClone)
            }
        },
        Err(_) => Err(RestoreError::DotfileClone),
    }
}

/// One entry of the dotfiles directory listing, as the library sees it.
#[derive(Debug, Clone, PartialEq, Eq)]
pub struct DirEntryInfo {
    pub name: String,
    pub is_dir: bool,
}

/// The mathematical content of a `DirEntryInfo`.
pub struct DirEntryView {
    pub name: Seq<char>,
    pub is_dir: bool,
}

impl View for DirEntryInfo {
    type V = DirEntryView;

    open spec fn view(&self) -> DirEntryView {
        DirEntryView { name: self.name@, is_dir: self.is_dir }
    }
}

impl DeepView for DirEntryInfo {
    type V = DirEntryView;

    open spec fn deep_view(&self) -> DirEntryView {
        self.view()
    }
}

/// Whether a directory entry is applied: only directories are applied, never
/// the version-control metadata directory; in link mode any dot-prefixed
/// directory is skipped as a non-application group.
pub open spec fn spec_entry_selected(e: DirEntryView, symlink: bool) -> bool {
    &&& e.is_dir
    &&& e.name != ".git"@
    &&& (symlink ==> !(e.name.len() > 0 && e.name[0] == '.'))
}

/// The names of the entries that are applied, in listing order.
pub open spec fn spec_selected_names(entries: Seq<DirEntryView>, symlink: bool) -> Seq<Seq<char>>
    decreases entries.len(),
{
    if entries.len() == 0 {
        Seq::empty()
    } else {
        let rest = spec_selected_names(entries.skip(1), symlink);
        if spec_entry_selected(entries[0], symlink) {
            seq![entries[0].name] + rest
        } else {
            rest
        }
    }
}

proof fn lemma_selected_names_take(entries: Seq<DirEntryView>, symlink: bool, k: int)
    requires
        0 <= k < entries.len(),
    ensures
        spec_selected_names(entries.take(k + 1), symlink) == spec_selected_names(
            entries.take(k),
            symlink,
        ) + (if spec_entry_selected(entries[k], symlink) {
            seq![entries[k].name]
        } else {
            Seq::<Seq<char>>::empty()
        }),
    decreases k,
{
    if k == 0 {
        assert(entries.take(1) =~= seq![entries[0]]);
        assert(entries.take(1).skip(1) =~= Seq::<DirEntryView>::empty());
        assert(entries.take(0) =~= Seq::<DirEntryView>::empty());
        if spec_entry_selected(entries[0], symlink) {
            assert(spec_selected_names(entries.take(1), symlink) =~~= seq![entries[0].name]);
            assert(spec_selected_names(entries.take(0), symlink) + seq![entries[0].name]
                =~~= seq![entries[0].name]);
        }
    } else {
        lemma_selected_names_take(entries.skip(1), symlink, k - 1);
        assert(entries.take(k + 1)[0] == entries[0]);
        assert(entries.take(k)[0] == entries[0]);
        assert(entries.take(k + 1).skip(1) =~= entries.skip(1).take(k));
        assert(entries.take(k).skip(1) =~= entries.skip(1).take(k - 1));
        assert(entries.skip(1)[k - 1] == entries[k]);
        if spec_entry_selected(entries[0], symlink) {
            assert(spec_selected_names(entries.take(k + 1), symlink) =~~= spec_selected_names(
                entries.take(k),
                symlink,
            ) + (if spec_entry_selected(entries[k], symlink) {
                seq![entries[k].name]
            } else {
                Seq::<Seq<char>>::empty()
            }));
        } else {
            assert(spec_selected_names(entries.take(k + 1), symlink) =~~= spec_selected_names(
                entries.take(k),
                symlink,
            ) + (if spec_entry_selected(entries[k], symlink) {
                seq![entries[k].name]
            } else {
                Seq::<Seq<char>>::empty()
            }));
        }
    }
}

/// Whether one entry of the listing is applied.
fn entry_selected(e: &DirEntryInfo, symlink: bool) -> (r: bool)
    ensures
        r == spec_entry_selected(e@, symlink),
{
    if !e.is_dir {
        return false;
    }
    if e.name == String::from_str(".git") {
        return false;
    }
    if symlink {
        let n = e.name.as_str();
        if n.unicode_len() > 0 && n.get_char(0) == '.' {
            return false;
        }
    }
    true
}

/// Selects, in order, the listed entries that the apply step will touch:
/// directories other than version-control metadata, and in link mode only
/// those not starting with a dot.
pub fn select_dotfile_entries(entries: &Vec<DirEntryInfo>, symlink: bool) -> (r: Vec<String>)
    ensures
        r.deep_view() == spec_selected_names(entries.deep_view(), symlink),
{
    let ghost ev = entries.deep_view();
    let mut r: Vec<String> = Vec::new();
    let mut k: usize = 0;
    proof {
        assert(ev.take(0) =~= Seq::<DirEntryView>::empty());
        assert(r.deep_view() =~~= spec_selected_names(ev.take(0), symlink));
    }
    while k < entries.len()
        invariant
            0 <= k <= entries@.len(),
            ev == entries.deep_view(),
            ev.len() == entries@.len(),
            r.deep_view() == spec_selected_names(ev.take(k as int), symlink),
        decreases entries@.len() - k,
    {
        proof {
            assert(ev[k as int] == entries@[k as int]@);
        }
        if entry_selected(&entries[k], symlink) {
            push_string(&mut r, entries[k].name.clone());
            proof {
                lemma_selected_names_take(ev, symlink, k as int);
                assert(r.deep_view() =~~= spec_selected_names(ev.take(k + 1), symlink));
            }
        } else {
            proof {
                lemma_selected_names_take(ev, symlink, k as int);
                assert(r.deep_view() =~~= spec_selected_names(ev.take(k + 1), symlink));
            }
        }
        k += 1;
    }
    proof {
        assert(ev.take(entries@.len() as int) =~= ev);
    }
    r
}

/// Whether a child of an applied directory is copied: everything except
/// version-control metadata.
pub open spec fn spec_copy_child_selected(name: Seq<char>) -> bool {
    name != ".git"@
}

/// The children that copy mode will copy, in listing order.
pub open spec fn spec_copy_children(names: Seq<Seq<char>>) -> Seq<Seq<char>>
    decreases names.len(),
{
    if names.len() == 0 {
        Seq::empty()
    } else {
        let rest = spec_copy_children(names.skip(1));
        if spec_copy_child_selected(names[0]) {
            seq![names[0]] + rest
        } else {
            rest
        }
    }
}

proof fn lemma_copy_children_take(names: Seq<Seq<char>>, k: int)
    requires
        0 <= k < names.len(),
    ensures
        spec_copy_children(names.take(k + 1)) == spec_copy_children(names.take(k)) + (
        if spec_copy_child_selected(names[k]) {
            seq![names[k]]
        } else {
            Seq::<Seq<char>>::empty()
        }),
    decreases k,
{
    if k == 0 {
        assert(names.take(1) =~= seq![names[0]]);
        assert(names.take(1).skip(1) =~= Seq::<Seq<char>>::empty());
        assert(names.take(0) =~= Seq::<Seq<char>>::empty());
        assert(spec_copy_children(names.take(k + 1)) =~~= spec_copy_children(names.take(k)) + (
        if spec_copy_child_selected(names[k]) {
            seq![names[k]]
        } else {
            Seq::<Seq<char>>::empty()
        }));
    } else {
        lemma_copy_children_take(names.skip(1), k - 1);
        assert(names.take(k + 1)[0] == names[0]);
        assert(names.take(k)[0] == names[0]);
        assert(names.take(k + 1).skip(1) =~= names.skip(1).take(k));
        assert(names.take(k).skip(1) =~= names.skip(1).take(k - 1));
        assert(names.skip(1)[k - 1] == names[k]);
        assert(spec_copy_children(names.take(k + 1)) =~~= spec_copy_children(names.take(k)) + (
        if spec_copy_child_selected(names[k]) {
            seq![names[k]]
        } else {
            Seq::<Seq<char>>::empty()
        }));
    }
}

/// Selects, in order, the children of one applied directory that copy mode
/// copies into the home directory.
pub fn select_copy_children(names: &Vec<String>) -> (r: Vec<String>)
    ensures
        r.deep_view() == spec_copy_children(names.deep_view()),
{
    let ghost nv = names.deep_view();
    let mut r: Vec<String> = Vec::new();
    let mut k: usize = 0;
    proof {
        assert(nv.take(0) =~= Seq::<Seq<char>>::empty());
        assert(r.deep_view() =~~= spec_copy_children(nv.take(0)));
    }
    while k < names.len()
        invariant
            0 <= k <= names@.len(),
            nv == names.deep_view(),
            nv.len() == names@.len(),
            r.deep_view() == spec_copy_children(nv.take(k as int)),
        decreases names@.len() - k,
    {
        proof {
            assert(nv[k as int] == names@[k as int]@);
        }
        if names[k] != String::from_str(".git") {
            push_string(&mut r, names[k].clone());
        }
        proof {
            lemma_copy_children_take(nv, k as int);
            assert(r.deep_view() =~~= spec_copy_children(nv.take(k + 1)));
        }
        k += 1;
    }
    proof {
        assert(nv.take(names@.len() as int) =~= nv);
    }
    r
}

/// The link step for one selected entry: the link tool is run from the
/// dotfiles root against the entry's name, told to simulate under dry run and
/// to be verbose when asked.
pub fn plan_symlink(entry_name: &str, home: &str, dry_run: bool, verbose: bool) -> (r: Invocation)
    ensures
        r@.program == "stow"@,
        r@.working_dir == Some(home@ + "/dotfiles"@),
        r@.args == seq!["-S"@, entry_name@] + (if dry_run {
            seq!["--simulate"@]
        } else {
            Seq::<Seq<char>>::empty()
        }) + (if verbose {
            seq!["--verbose"@]
        } else {
            Seq::<Seq<char>>::empty()
        }),
        dry_run ==> r@.args.contains("--simulate"@),
{
    let mut args: Vec<String> = Vec::new();
    push_str(&mut args, "-S");
    push_str(&mut args, entry_name);
    if dry_run {
        push_str(&mut args, "--simulate");
    }
    if verbose {
        push_str(&mut args, "--verbose");
    }
    let r = Invocation {
        program: String::from_str("stow"),
        args,
        working_dir: Some(dotfiles_path(home)),
    };
    proof {
        assert(r@.args =~~= seq!["-S"@, entry_name@] + (if dry_run {
            seq!["--simulate"@]
        } else {
            Seq::<Seq<char>>::empty()
        }) + (if verbose {
            seq!["--verbose"@]
        } else {
            Seq::<Seq<char>>::empty()
        }));
        if dry_run {
            assert(r@.args[2] == "--simulate"@);
        }
    }
    r
}

/// The copy step for one child: a one-way, archive-mode copy from the child
/// into the destination that never overwrites a file already present, run
/// from inside the child, told to do a dry run when asked.
pub fn plan_copy(source: &str, dest: &str, dry_run: bool, verbose: bool) -> (r: Invocation)
    ensures
        r@.program == "rsync"@,
        r@.working_dir == Some(source@),
        r@.args == seq!["--ignore-existing"@, "-a"@, "--atimes"@] + (if dry_run {
            seq!["--dry-run"@]
        } else {
            Seq::<Seq<char>>::empty()
        }) + (if verbose {
            seq!["-v"@]
        } else {
            Seq::<Seq<char>>::empty()
        }) + seq!["./"@, dest@],
        dry_run ==> r@.args.contains("--dry-run"@),
{
    let mut args: Vec<String> = Vec::new();
    push_str(&mut args, "--ignore-existing");
    push_str(&mut args, "-a");
    push_str(&mut args, "--atimes");
    if dry_run {
        push_str(&mut args, "--dry-run");
    }
    if verbose {
        push_str(&mut args, "-v");
    }
    push_str(&mut args, "./");
    push_str(&mut args, dest);
    let r = Invocation {
        program: String::from_str("rsync"),
        args,
        working_dir: Some(String::from_str(source)),
    };
    proof {
        assert(r@.args =~~= seq!["--ignore-existing"@, "-a"@, "--atimes"@] + (if dry_run {
            seq!["--dry-run"@]
        } else {
            Seq::<Seq<char>>::empty()
        }) + (if verbose {
            seq!["-v"@]
        } else {
            Seq::<Seq<char>>::empty()
        }) + seq!["./"@, dest@]);
        if dry_run {
            assert(r@.args[3] == "--dry-run"@);
        }
    }
    r
}

/// The reported outcome of one per-entry apply attempt. A spawn failure, a
/// signal-terminated exit and a non-zero exit are three distinct non-fatal
/// outcomes: processing continues with the next entry.
pub enum ApplyReport {
    Applied,
    SpawnFailed { message: String },
    Interrupted,
    NonZero { code: i32 },
}

/// Classifies one per-entry apply attempt.
pub fn classify_apply(outcome: &Result<CommandOutcome, RunError>) -> (r: ApplyReport)
    ensures
        match r {
            ApplyReport::Applied => outcome is Ok && outcome->Ok_0.exit_code == Some(0i32),
            ApplyReport::SpawnFailed { message } => outcome is Err && message@
                == outcome->Err_0.message@,
            ApplyReport::Interrupted => outcome is Ok && outcome->Ok_0.exit_code is None,
            ApplyReport::NonZero { code } => outcome is Ok && outcome->Ok_0.exit_code == Some(code)
                && code != 0,
        },
{
    match outcome {
        Err(e) => ApplyReport::SpawnFailed { message: e.message.clone() },
        Ok(o) => match o.exit_code {
            None => ApplyReport::Interrupted,
            Some(code) => {
                if code == 0 {
                    ApplyReport::Applied
                } else {
                    ApplyReport::NonZero { code }
                }
            },
        },
    }
}

/// One sync run: the package step, then the dotfiles step. Package
/// reconciliation always precedes dotfiles reconciliation.
pub struct SyncPlan {
    pub package_step: PackagePlan,
    pub dotfiles_step: DotfilesStart,
}

/// Plans one sync run over a loaded manifest. The manifest is read once and
/// both steps observe the same snapshot of it.
pub fn sync(manager: &PackageManager, manifest: &Manifest, home: &str, dry_run: bool) -> (r:
    SyncPlan)
    ensures
        package_plan_matches(r.package_step, *manager, manifest@, dry_run),
        dotfiles_start_matches(r.dotfiles_step, manifest@, home@, dry_run),
        dry_run <==> r.package_step is Preview,
        (manifest@.dotfiles_repo is None) <==> (r.dotfiles_step is NotConfigured),
{
    let package_step = restore_packages(manager, manifest, dry_run);
    let dotfiles_step = restore_dotfiles(manifest, home, dry_run);
    SyncPlan { package_step, dotfiles_step }
}

} // verus!
