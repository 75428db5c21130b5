use vstd::prelude::*;

use crate::codec::spec_manifest_text;
use crate::config::{Config, ConfigView};
use crate::manifest::{Manifest, ManifestView, Package, PackageManager, PackageView};
use crate::outcome::{CommandOutcome, Invocation, RunError, spec_ran_successfully};
use crate::text::{free_of, push_str, push_string, spec_split, split_char};

verus! {

/// The query that lists the explicitly installed packages of a
/// pacman-compatible manager.
pub fn plan_package_query(manager: &PackageManager) -> (r: Invocation)
    ensures
        r@.program == manager.spec_name(),
        r@.args == seq!["-Qe"@],
        r@.working_dir is None,
{
    let mut args: Vec<String> = Vec::new();
    push_str(&mut args, "-Qe");
    let r = Invocation { program: manager.to_string(), args, working_dir: None };
    proof {
        assert(r@.args =~~= seq!["-Qe"@]);
    }
    r
}

/// How the snapshot flow can fail. Every failure is fatal to the snapshot: a
/// partial or empty snapshot must never overwrite a good manifest, so the
/// write step only runs after a successful query.
#[derive(Clone, Copy, Debug, PartialEq, Eq, Structural)]
pub enum GenerateError {
    /// The package query could not be started: an environment fault.
    QueryNotRun,
    /// The package query ran and did not exit with code zero.
    QueryFailed,
    /// The package query's output was not text.
    OutputNotText,
}

/// Decides whether snapshotting may proceed: only a query that ran and exited
/// zero yields a listing worth persisting.
pub fn snapshot_gate(outcome: &Result<CommandOutcome, RunError>) -> (r: Result<
    (),
    GenerateError,
>)
    ensures
        match r {
            Ok(_) => spec_ran_successfully(*outcome),
            Err(GenerateError::QueryNotRun) => outcome is Err,
            Err(GenerateError::QueryFailed) => outcome is Ok && !spec_ran_successfully(*outcome),
            Err(GenerateError::OutputNotText) => false,
        },
{
    match outcome {
        Err(_) => Err(GenerateError::QueryNotRun),
        Ok(o) => {
            if o.success() {
                Ok(())
            } else {
                Err(GenerateError::QueryFailed)
            }
        },
    }
}

/// A line with nothing but spacing in it, dropped from the listing without a
/// warning.
pub open spec fn spec_is_blank(s: Seq<char>) -> bool {
    forall|i: int| 0 <= i < s.len() ==> s[i] == ' ' || s[i] == '\t' || s[i] == '\r'
}

/// Whether a line holds nothing but spacing.
pub fn is_blank(s: &str) -> (r: bool)
    ensures
        r == spec_is_blank(s@),
{
    let len = s.unicode_len();
    let mut i: usize = 0;
    while i < len
        invariant
            0 <= i <= len,
            len == s@.len(),
            forall|j: int| 0 <= j < i ==> s@[j] == ' ' || s@[j] == '\t' || s@[j] == '\r',
        decreases len - i,
    {
        let c = s.get_char(i);
        if !(c == ' ' || c == '\t' || c == '\r') {
            return false;
        }
        i += 1;
    }
    true
}

/// Splitting at the first occurrence of `sep`: the text before it and the
/// text after it, or nothing when `sep` does not occur.
pub open spec fn spec_split_first(s: Seq<char>, sep: char) -> Option<(Seq<char>, Seq<char>)>
    decreases s.len(),
{
    if s.len() == 0 {
        None
    } else if s[0] == sep {
        Some((Seq::empty(), s.skip(1)))
    } else {
        match spec_split_first(s.skip(1), sep) {
            None => None,
            Some((a, b)) => Some((seq![s[0]] + a, b)),
        }
    }
}

proof fn lemma_split_first_free(s: Seq<char>, sep: char)
    requires
        free_of(s, sep),
    ensures
        spec_split_first(s, sep) is None,
    decreases s.len(),
{
    if s.len() != 0 {
        assert(forall|i: int| 0 <= i < s.skip(1).len() ==> s.skip(1)[i] == s[i + 1]);
        lemma_split_first_free(s.skip(1), sep);
    }
}

proof fn lemma_split_first_at(s: Seq<char>, sep: char, i: int)
    requires
        0 <= i < s.len(),
        s[i] == sep,
        forall|j: int| 0 <= j < i ==> s[j] != sep,
    ensures
        spec_split_first(s, sep) == Some((s.take(i), s.skip(i + 1))),
    decreases i,
{
    if i == 0 {
        assert(s.take(0) =~= Seq::<char>::empty());
    } else {
        assert(s[0] != sep);
        assert(forall|j: int| 0 <= j < s.skip(1).len() ==> s.skip(1)[j] == s[j + 1]);
        lemma_split_first_at(s.skip(1), sep, i - 1);
        assert(seq![s[0]] + s.skip(1).take(i - 1) =~= s.take(i));
        assert(s.skip(1).skip(i) =~= s.skip(i + 1));
    }
}

/// Splits at the first occurrence of `sep`.
pub fn split_first(s: &str, sep: char) -> (r: Option<(String, String)>)
    ensures
        match r {
            Some((a, b)) => spec_split_first(s@, sep) == Some((a@, b@)),
            None => spec_split_first(s@, sep) is None,
        },
{
    let len = s.unicode_len();
    let mut i: usize = 0;
    while i < len && s.get_char(i) != sep
        invariant
            0 <= i <= len,
            len == s@.len(),
            forall|j: int| 0 <= j < i ==> s@[j] != sep,
        decreases len - i,
    {
        i += 1;
    }
    if i == len {
        proof {
            lemma_split_first_free(s@, sep);
        }
        None
    } else {
        let head = s.substring_char(0, i);
        let tail = s.substring_char(i + 1, len);
        proof {
            lemma_split_first_at(s@, sep, i as int);
        }
        Some((String::from_str(head), String::from_str(tail)))
    }
}

/// Reads one listing line as a package: the name before the first space, the
/// version after it. The version is recorded only in lock mode. A line
/// without a space is malformed.
pub open spec fn spec_line_package(line: Seq<char>, locked: bool) -> Option<PackageView> {
    match spec_split_first(line, ' ') {
        None => None,
        Some((name, version)) => Some(
            PackageView {
                name,
                version: if locked {
                    Some(version)
                } else {
                    None
                },
            },
        ),
    }
}

/// The packages read from a listing's lines: blank lines are dropped,
/// malformed lines are skipped, the rest become one package each, in order.
pub open spec fn spec_listing_packages(lines: Seq<Seq<char>>, locked: bool) -> Seq<PackageView>
    decreases lines.len(),
{
    if lines.len() == 0 {
        Seq::empty()
    } else {
        let rest = spec_listing_packages(lines.skip(1), locked);
        if spec_is_blank(lines[0]) {
            rest
        } else {
            match spec_line_package(lines[0], locked) {
                Some(p) => seq![p] + rest,
                None => rest,
            }
        }
    }
}

/// The malformed lines of a listing, in order: the non-blank lines without a
/// separating space. Each is warned about and skipped, never fatal.
pub open spec fn spec_listing_malformed(lines: Seq<Seq<char>>) -> Seq<Seq<char>>
    decreases lines.len(),
{
    if lines.len() == 0 {
        Seq::empty()
    } else {
        let rest = spec_listing_malformed(lines.skip(1));
        if !spec_is_blank(lines[0]) && spec_split_first(lines[0], ' ') is None {
            seq![lines[0]] + rest
        } else {
            rest
        }
    }
}

proof fn lemma_listing_take(lines: Seq<Seq<char>>, locked: bool, k: int)
    requires
        0 <= k < lines.len(),
    ensures
        spec_listing_packages(lines.take(k + 1), locked) == spec_listing_packages(
            lines.take(k),
            locked,
        ) + (if spec_is_blank(lines[k]) {
            Seq::<PackageView>::empty()
        } else {
            match spec_line_package(lines[k], locked) {
                Some(p) => seq![p],
                None => Seq::<PackageView>::empty(),
            }
        }),
        spec_listing_malformed(lines.take(k + 1)) == spec_listing_malformed(lines.take(k)) + (
        if !spec_is_blank(lines[k]) && spec_split_first(lines[k], ' ') is None {
            seq![lines[k]]
        } else {
            Seq::<Seq<char>>::empty()
        }),
    decreases k,
{
    if k == 0 {
        assert(lines.take(1) =~= seq![lines[0]]);
        assert(lines.take(1).skip(1) =~= Seq::<Seq<char>>::empty());
        assert(lines.take(0) =~= Seq::<Seq<char>>::empty());
        assert(spec_listing_packages(lines.take(k + 1), locked) =~~= spec_listing_packages(
            lines.take(k),
            locked,
        ) + (if spec_is_blank(lines[k]) {
            Seq::<PackageView>::empty()
        } else {
            match spec_line_package(lines[k], locked) {
                Some(p) => seq![p],
                None => Seq::<PackageView>::empty(),
            }
        }));
        assert(spec_listing_malformed(lines.take(k + 1)) =~~= spec_listing_malformed(lines.take(k))
            + (if !spec_is_blank(lines[k]) && spec_split_first(lines[k], ' ') is None {
            seq![lines[k]]
        } else {
            Seq::<Seq<char>>::empty()
        }));
    } else {
        lemma_listing_take(lines.skip(1), locked, k - 1);
        assert(lines.take(k + 1)[0] == lines[0]);
        assert(lines.take(k)[0] == lines[0]);
        assert(lines.take(k + 1).skip(1) =~= lines.skip(1).take(k));
        assert(lines.take(k).skip(1) =~= lines.skip(1).take(k - 1));
        assert(lines.skip(1)[k - 1] == lines[k]);
        assert(spec_listing_packages(lines.take(k + 1), locked) =~~= spec_listing_packages(
            lines.take(k),
            locked,
        ) + (if spec_is_blank(lines[k]) {
            Seq::<PackageView>::empty()
        } else {
            match spec_line_package(lines[k], locked) {
                Some(p) => seq![p],
                None => Seq::<PackageView>::empty(),
            }
        }));
        assert(spec_listing_malformed(lines.take(k + 1)) =~~= spec_listing_malformed(lines.take(k))
            + (if !spec_is_blank(lines[k]) && spec_split_first(lines[k], ' ') is None {
            seq![lines[k]]
        } else {
            Seq::<Seq<char>>::empty()
        }));
    }
}

/// Appends one package to a package list.
fn push_package(v: &mut Vec<Package>, p: Package)
    ensures
        final(v).deep_view() == old(v).deep_view().push(p@),
{
    let ghost pre = v.deep_view();
    let ghost pv = p@;
    v.push(p);
    proof {
        assert forall|i: int| 0 <= i < v.deep_view().len() implies v.deep_view()[i] == pre.push(
            pv,
        )[i] by {
            assert(v.deep_view()[i] == v@[i]@);
            if i < pre.len() {
                assert(v@[i] == v@.take(pre.len() as int)[i]);
            }
        }
        assert(v.deep_view() =~~= pre.push(pv));
    }
}

/// Reads a manager's listing: one package per well-formed line, and the
/// malformed lines beside them so each can be warned about. A malformed line
/// never aborts the snapshot.
pub fn parse_package_listing(listing: &str, locked: bool) -> (r: (Vec<Package>, Vec<String>))
    ensures
        r.0.deep_view() == spec_listing_packages(spec_split(listing@, '\n'), locked),
        r.1.deep_view() == spec_listing_malformed(spec_split(listing@, '\n')),
{
    let lines = split_char(listing, '\n');
    let ghost lv = lines.deep_view();
    let mut packages: Vec<Package> = Vec::new();
    let mut malformed: Vec<String> = Vec::new();
    let mut k: usize = 0;
    proof {
        assert(lv.take(0) =~= Seq::<Seq<char>>::empty());
        assert(packages.deep_view() =~~= spec_listing_packages(lv.take(0), locked));
        assert(malformed.deep_view() =~~= spec_listing_malformed(lv.take(0)));
    }
    while k < lines.len()
        invariant
            0 <= k <= lines@.len(),
            lv == lines.deep_view(),
            lv.len() == lines@.len(),
            lv == spec_split(listing@, '\n'),
            packages.deep_view() == spec_listing_packages(lv.take(k as int), locked),
            malformed.deep_view() == spec_listing_malformed(lv.take(k as int)),
        decreases lines@.len() - k,
    {
        proof {
            assert(lv[k as int] == lines@[k as int]@);
        }
        let line = lines[k].as_str();
        if !is_blank(line) {
            match split_first(line, ' ') {
                Some((name, version)) => {
                    let p = Package {
                        name,
                        version: if locked {
                            Some(version)
                        } else {
                            None
                        },
                    };
                    push_package(&mut packages, p);
                },
                None => {
                    push_string(&mut malformed, lines[k].clone());
                },
            }
        }
        proof {
            lemma_listing_take(lv, locked, k as int);
            assert(packages.deep_view() =~~= spec_listing_packages(lv.take(k + 1), locked));
            assert(malformed.deep_view() =~~= spec_listing_malformed(lv.take(k + 1)));
        }
        k += 1;
    }
    proof {
        assert(lv.take(lines@.len() as int) =~= lv);
    }
    (packages, malformed)
}

/// The manifest that a snapshot writes: the listing's packages wholesale (a
/// snapshot is authoritative, not a merge), and the configuration's dotfiles
/// settings and lock mode carried over.
pub open spec fn spec_generate(c: ConfigView, listing: Seq<char>) -> ManifestView {
    ManifestView {
        packages: spec_listing_packages(spec_split(listing, '\n'), c.locked_versions),
        dotfiles_repo: c.dotfiles_repo,
        dotfiles_symlink: c.dotfiles_symlink,
        locked_versions: c.locked_versions,
    }
}

/// Builds the snapshot manifest from the configuration and a successful
/// listing, along with the malformed listing lines to warn about.
pub fn generate(config: &Config, listing: &str) -> (r: (Manifest, Vec<String>))
    ensures
        r.0@ == spec_generate(config@, listing@),
        r.1.deep_view() == spec_listing_malformed(spec_split(listing@, '\n')),
{
    let (packages, malformed) = parse_package_listing(listing, config.locked_versions);
    let dotfiles_repo = match &config.dotfiles_repo {
        Some(r) => Some(r.clone()),
        None => None,
    };
    let m = Manifest {
        packages,
        dotfiles_repo,
        dotfiles_symlink: config.dotfiles_symlink,
        locked_versions: config.locked_versions,
    };
    (m, malformed)
}

proof fn lemma_listing_packages_unlocked(lines: Seq<Seq<char>>)
    ensures
        forall|i: int|
            0 <= i < spec_listing_packages(lines, false).len() ==> (#[trigger] spec_listing_packages(
                lines,
                false,
            )[i]).version is None,
    decreases lines.len(),
{
    if lines.len() > 0 {
        lemma_listing_packages_unlocked(lines.skip(1));
    }
}

/// A snapshot pins a version only under lock mode: without it every package
/// entry of the written manifest is unversioned.
pub proof fn lemma_generate_pins_only_under_lock(c: ConfigView, listing: Seq<char>)
    ensures
        forall|i: int|
            0 <= i < spec_generate(c, listing).packages.len() && (#[trigger] spec_generate(
                c,
                listing,
            ).packages[i]).version is Some ==> c.locked_versions,
{
    if !c.locked_versions {
        lemma_listing_packages_unlocked(spec_split(listing, '\n'));
    }
}

/// Snapshotting is a function of the configuration and the manager's listing
/// alone: two snapshots over one unchanged system write byte-identical
/// manifest documents.
pub proof fn lemma_snapshot_idempotent(
    c: ConfigView,
    listing: Seq<char>,
    m1: ManifestView,
    m2: ManifestView,
)
    requires
        m1 == spec_generate(c, listing),
        m2 == spec_generate(c, listing),
    ensures
        spec_manifest_text(m1) == spec_manifest_text(m2),
{
}

} // verus!
