use vstd::prelude::*;

use crate::manifest::{Manifest, ManifestView, Package, PackageView};
use crate::text::{
    bool_line, free_of, join_with, lemma_join_push, lemma_parse_bool_line, lemma_parse_str_line,
    lemma_split_join, parse_bool_line, parse_str_line, spec_bool_line, spec_join,
    spec_parse_bool_line, spec_parse_str_line, spec_split, spec_str_line, split_char, str_line,
    text_safe,
};

verus! {

/// How loading a manifest document can fail. Reading the file and parsing its
/// content are distinct failures, so the caller can give distinct
/// diagnostics.
#[derive(Clone, Copy, Debug, PartialEq, Eq, Structural)]
pub enum ManifestError {
    /// The manifest file could not be read at all.
    MissingFile,
    /// The manifest file was read but its content does not parse.
    MalformedContent,
}

/// The lines that one package contributes to the manifest document: a blank
/// separator, the table header, the name, and the version when one is pinned.
pub open spec fn spec_package_lines(p: PackageView) -> Seq<Seq<char>> {
    let head = seq![
        Seq::<char>::empty(),
        "[[packages]]"@,
        spec_str_line("name"@, p.name),
    ];
    match p.version {
        Some(v) => head.push(spec_str_line("version"@, v)),
        None => head,
    }
}

/// The lines that a package list contributes to the manifest document.
pub open spec fn spec_packages_lines(ps: Seq<PackageView>) -> Seq<Seq<char>>
    decreases ps.len(),
{
    if ps.len() == 0 {
        Seq::empty()
    } else {
        spec_package_lines(ps[0]) + spec_packages_lines(ps.skip(1))
    }
}

/// The header lines of the manifest document: the two mode flags, and the
/// dotfiles repository when one is configured.
pub open spec fn spec_header_lines(v: ManifestView) -> Seq<Seq<char>> {
    let base = seq![
        spec_bool_line("locked_versions"@, v.locked_versions),
        spec_bool_line("dotfiles_symlink"@, v.dotfiles_symlink),
    ];
    match v.dotfiles_repo {
        Some(r) => base.push(spec_str_line("dotfiles_repo"@, r)),
        None => base,
    }
}

/// All lines of the manifest document.
pub open spec fn spec_manifest_lines(v: ManifestView) -> Seq<Seq<char>> {
    spec_header_lines(v) + spec_packages_lines(v.packages)
}

/// The manifest document as one text.
pub open spec fn spec_manifest_text(v: ManifestView) -> Seq<char> {
    spec_join(spec_manifest_lines(v), '\n')
}

/// Reads a package list from the lines that follow the manifest header.
pub open spec fn spec_parse_packages(lines: Seq<Seq<char>>) -> Option<Seq<PackageView>>
    decreases lines.len(),
{
    if lines.len() == 0 {
        Some(Seq::empty())
    } else if lines.len() < 3 {
        None
    } else if lines[0] != Seq::<char>::empty() || lines[1] != "[[packages]]"@ {
        None
    } else {
        match spec_parse_str_line(lines[2], "name"@) {
            None => None,
            Some(name) => {
                if lines.len() >= 4 && spec_parse_str_line(lines[3], "version"@) is Some {
                    match (spec_parse_str_line(lines[3], "version"@), spec_parse_packages(
                        lines.skip(4),
                    )) {
                        (Some(version), Some(rest)) => Some(
                            seq![PackageView { name, version: Some(version) }] + rest,
                        ),
                        _ => None,
                    }
                } else {
                    match spec_parse_packages(lines.skip(3)) {
                        None => None,
                        Some(rest) => Some(seq![PackageView { name, version: None }] + rest),
                    }
                }
            }
        }
    }
}

/// Reads a manifest from the lines of its document.
pub open spec fn spec_parse_manifest_lines(lines: Seq<Seq<char>>) -> Option<ManifestView> {
    if lines.len() < 2 {
        None
    } else {
        match (
            spec_parse_bool_line(lines[0], "locked_versions"@),
            spec_parse_bool_line(lines[1], "dotfiles_symlink"@),
        ) {
            (Some(locked), Some(symlink)) => {
                let has_repo = lines.len() >= 3 && spec_parse_str_line(lines[2], "dotfiles_repo"@)
                    is Some;
                let repo = if has_repo {
                    spec_parse_str_line(lines[2], "dotfiles_repo"@)
                } else {
                    None
                };
                let rest = if has_repo {
                    lines.skip(3)
                } else {
                    lines.skip(2)
                };
                match spec_parse_packages(rest) {
                    None => None,
                    Some(ps) => Some(
                        ManifestView {
                            packages: ps,
                            dotfiles_repo: repo,
                            dotfiles_symlink: symlink,
                            locked_versions: locked,
                        },
                    ),
                }
            },
            _ => None,
        }
    }
}

/// Reads a manifest from its document text.
pub open spec fn spec_parse_manifest_text(s: Seq<char>) -> Option<ManifestView> {
    spec_parse_manifest_lines(spec_split(s, '\n'))
}

proof fn lemma_parse_packages_roundtrip(ps: Seq<PackageView>)
    requires
        forall|i: int| 0 <= i < ps.len() ==> (#[trigger] ps[i]).text_safe(),
    ensures
        spec_parse_packages(spec_packages_lines(ps)) == Some(ps),
    decreases ps.len(),
{
    if ps.len() == 0 {
    } else {
        let p = ps[0];
        let lines = spec_packages_lines(ps);
        let head = spec_package_lines(p);
        let rest = spec_packages_lines(ps.skip(1));
        assert(lines == head + rest);
        assert(forall|i: int| 0 <= i < ps.skip(1).len() ==> ps.skip(1)[i] == ps[i + 1]);
        lemma_parse_packages_roundtrip(ps.skip(1));
        lemma_parse_str_line("name"@, p.name);
        assert(lines[0] == Seq::<char>::empty());
        assert(lines[1] == "[[packages]]"@);
        assert(lines[2] == spec_str_line("name"@, p.name));
        if ps.skip(1).len() > 0 {
            assert(rest[0] == Seq::<char>::empty());
        }
        match p.version {
            Some(v) => {
                lemma_parse_str_line("version"@, v);
                assert(lines.len() == 4 + rest.len());
                assert(lines[3] == spec_str_line("version"@, v));
                assert(lines.skip(4) =~= rest);
                assert(seq![PackageView { name: p.name, version: Some(v) }] + ps.skip(1) =~= ps);
            },
            None => {
                assert(lines.len() == 3 + rest.len());
                if lines.len() >= 4 {
                    assert(lines[3] == rest[0]);
                    assert(lines[3] == Seq::<char>::empty());
                    assert(spec_parse_str_line(lines[3], "version"@) is None);
                }
                assert(lines.skip(3) =~= rest);
                assert(seq![PackageView { name: p.name, version: None }] + ps.skip(1) =~= ps);
            },
        }
    }
}

proof fn lemma_parse_manifest_lines_roundtrip(v: ManifestView)
    requires
        v.text_safe(),
    ensures
        spec_parse_manifest_lines(spec_manifest_lines(v)) == Some(v),
{
    let lines = spec_manifest_lines(v);
    let header = spec_header_lines(v);
    let body = spec_packages_lines(v.packages);
    lemma_parse_bool_line("locked_versions"@, v.locked_versions);
    lemma_parse_bool_line("dotfiles_symlink"@, v.dotfiles_symlink);
    lemma_parse_packages_roundtrip(v.packages);
    assert(lines[0] == spec_bool_line("locked_versions"@, v.locked_versions));
    assert(lines[1] == spec_bool_line("dotfiles_symlink"@, v.dotfiles_symlink));
    if v.packages.len() > 0 {
        assert(body[0] == Seq::<char>::empty());
    }
    match v.dotfiles_repo {
        Some(r) => {
            lemma_parse_str_line("dotfiles_repo"@, r);
            assert(lines.len() >= 3);
            assert(lines[2] == spec_str_line("dotfiles_repo"@, r));
            assert(lines.skip(3) =~= body);
        },
        None => {
            if lines.len() >= 3 {
                assert(lines[2] == body[0]);
                assert(spec_parse_str_line(lines[2], "dotfiles_repo"@) is None);
            }
            assert(lines.skip(2) =~= body);
        },
    }
}

proof fn lemma_free_concat(a: Seq<char>, b: Seq<char>, sep: char)
    requires
        free_of(a, sep),
        free_of(b, sep),
    ensures
        free_of(a + b, sep),
{
    assert(forall|i: int|
        0 <= i < (a + b).len() ==> (a + b)[i] == (if i < a.len() {
            a[i]
        } else {
            b[i - a.len()]
        }));
}

proof fn lemma_key_literals_free()
    ensures
        free_of("locked_versions"@, '\n'),
        free_of("dotfiles_symlink"@, '\n'),
        free_of("dotfiles_repo"@, '\n'),
        free_of("name"@, '\n'),
        free_of("version"@, '\n'),
        free_of("[[packages]]"@, '\n'),
        free_of(" = true"@, '\n'),
        free_of(" = false"@, '\n'),
        free_of(" = \""@, '\n'),
        free_of("\""@, '\n'),
{
    reveal_strlit("locked_versions");
    reveal_strlit("dotfiles_symlink");
    reveal_strlit("dotfiles_repo");
    reveal_strlit("name");
    reveal_strlit("version");
    reveal_strlit("[[packages]]");
    reveal_strlit(" = true");
    reveal_strlit(" = false");
    reveal_strlit(" = \"");
    reveal_strlit("\"");
}

proof fn lemma_bool_line_free(key: Seq<char>, b: bool)
    requires
        free_of(key, '\n'),
    ensures
        free_of(spec_bool_line(key, b), '\n'),
{
    lemma_key_literals_free();
    if b {
        lemma_free_concat(key, " = true"@, '\n');
    } else {
        lemma_free_concat(key, " = false"@, '\n');
    }
}

proof fn lemma_str_line_free(key: Seq<char>, s: Seq<char>)
    requires
        free_of(key, '\n'),
        free_of(s, '\n'),
    ensures
        free_of(spec_str_line(key, s), '\n'),
{
    lemma_key_literals_free();
    lemma_free_concat(key, " = \""@, '\n');
    lemma_free_concat(key + " = \""@, s, '\n');
    lemma_free_concat(key + " = \""@ + s, "\""@, '\n');
}

proof fn lemma_packages_lines_free(ps: Seq<PackageView>)
    requires
        forall|i: int| 0 <= i < ps.len() ==> (#[trigger] ps[i]).text_safe(),
    ensures
        forall|i: int|
            0 <= i < spec_packages_lines(ps).len() ==> free_of(
                #[trigger] spec_packages_lines(ps)[i],
                '\n',
            ),
    decreases ps.len(),
{
    if ps.len() > 0 {
        let p = ps[0];
        let head = spec_package_lines(p);
        lemma_key_literals_free();
        lemma_str_line_free("name"@, p.name);
        match p.version {
            Some(ver) => {
                lemma_str_line_free("version"@, ver);
            },
            None => {},
        }
        assert(forall|i: int| 0 <= i < head.len() ==> free_of(#[trigger] head[i], '\n'));
        assert(forall|i: int| 0 <= i < ps.skip(1).len() ==> ps.skip(1)[i] == ps[i + 1]);
        lemma_packages_lines_free(ps.skip(1));
        let lines = spec_packages_lines(ps);
        assert(forall|i: int|
            0 <= i < lines.len() ==> lines[i] == (if i < head.len() {
                head[i]
            } else {
                spec_packages_lines(ps.skip(1))[i - head.len()]
            }));
    }
}

proof fn lemma_manifest_lines_free(v: ManifestView)
    requires
        v.text_safe(),
    ensures
        forall|i: int|
            0 <= i < spec_manifest_lines(v).len() ==> free_of(
                #[trigger] spec_manifest_lines(v)[i],
                '\n',
            ),
{
    let header = spec_header_lines(v);
    let body = spec_packages_lines(v.packages);
    lemma_key_literals_free();
    lemma_bool_line_free("locked_versions"@, v.locked_versions);
    lemma_bool_line_free("dotfiles_symlink"@, v.dotfiles_symlink);
    match v.dotfiles_repo {
        Some(r) => {
            lemma_str_line_free("dotfiles_repo"@, r);
        },
        None => {},
    }
    assert(forall|i: int| 0 <= i < header.len() ==> free_of(#[trigger] header[i], '\n'));
    lemma_packages_lines_free(v.packages);
    let lines = spec_manifest_lines(v);
    assert(forall|i: int|
        0 <= i < lines.len() ==> lines[i] == (if i < header.len() {
            header[i]
        } else {
            body[i - header.len()]
        }));
}

/// Round trip: reading back a written manifest document gives exactly the
/// manifest that was written, for every manifest whose names, versions and
/// repository hold neither quotes nor line breaks.
pub proof fn lemma_manifest_roundtrip(v: ManifestView)
    requires
        v.text_safe(),
    ensures
        spec_parse_manifest_text(spec_manifest_text(v)) == Some(v),
{
    lemma_manifest_lines_free(v);
    assert(spec_manifest_lines(v).len() >= 2);
    lemma_split_join(spec_manifest_lines(v), '\n');
    lemma_parse_manifest_lines_roundtrip(v);
}

proof fn lemma_packages_lines_push(ps: Seq<PackageView>, k: int)
    requires
        0 <= k < ps.len(),
    ensures
        spec_packages_lines(ps.take(k + 1)) == spec_packages_lines(ps.take(k))
            + spec_package_lines(ps[k]),
    decreases k,
{
    if k == 0 {
        assert(ps.take(1) =~= seq![ps[0]]);
        assert(ps.take(1)[0] == ps[0]);
        assert(ps.take(1).skip(1) =~= Seq::<PackageView>::empty());
        assert(spec_packages_lines(Seq::<PackageView>::empty()) =~= Seq::<Seq<char>>::empty());
        assert(spec_packages_lines(ps.take(1)) == spec_package_lines(ps[0]) + spec_packages_lines(
            ps.take(1).skip(1),
        ));
        assert(spec_packages_lines(ps.take(1)) =~~= spec_package_lines(ps[0]));
        assert(spec_packages_lines(ps.take(0)) =~= Seq::<Seq<char>>::empty());
        assert(spec_packages_lines(ps.take(k + 1)) =~~= spec_packages_lines(ps.take(k))
            + spec_package_lines(ps[k]));
    } else {
        lemma_packages_lines_push(ps.skip(1), k - 1);
        assert(ps.take(k + 1)[0] == ps[0]);
        assert(ps.take(k + 1).skip(1) =~= ps.skip(1).take(k));
        assert(ps.take(k).skip(1) =~= ps.skip(1).take(k - 1));
        assert(ps.take(k)[0] == ps[0]);
        assert(ps.skip(1)[k - 1] == ps[k]);
        assert(spec_packages_lines(ps.take(k + 1)) =~~= spec_packages_lines(ps.take(k))
            + spec_package_lines(ps[k]));
    }
}

/// Writes a manifest as its document text.
pub fn save_manifest(m: &Manifest) -> (r: String)
    ensures
        r@ == spec_manifest_text(m@),
{
    let mut lines: Vec<String> = Vec::new();
    lines.push(bool_line("locked_versions", m.locked_versions));
    lines.push(bool_line("dotfiles_symlink", m.dotfiles_symlink));
    match &m.dotfiles_repo {
        Some(r) => {
            lines.push(str_line("dotfiles_repo", r.as_str()));
        },
        None => {},
    }
    proof {
        assert(lines.deep_view() =~~= spec_header_lines(m@));
    }
    let ghost header = spec_header_lines(m@);
    let mut k: usize = 0;
    while k < m.packages.len()
        invariant
            0 <= k <= m.packages.len(),
            m@.packages.len() == m.packages@.len(),
            lines.deep_view() == header + spec_packages_lines(m@.packages.take(k as int)),
        decreases m.packages.len() - k,
    {
        let ghost dv_pre = lines.deep_view();
        let p = &m.packages[k];
        lines.push(String::new());
        lines.push(String::from_str("[[packages]]"));
        lines.push(str_line("name", p.name.as_str()));
        match &p.version {
            Some(v) => {
                lines.push(str_line("version", v.as_str()));
            },
            None => {},
        }
        proof {
            lemma_packages_lines_push(m@.packages, k as int);
            assert(m@.packages[k as int] == p@);
            let block = spec_package_lines(p@);
            assert forall|i: int| 0 <= i < lines.deep_view().len() implies lines.deep_view()[i] == (
            dv_pre + block)[i] by {
                assert(lines.deep_view()[i] == lines@[i]@);
                if i < dv_pre.len() {
                    assert(lines@[i] == lines@.take(dv_pre.len() as int)[i]);
                }
            }
            assert(lines.deep_view() =~~= dv_pre + block);
            assert(lines.deep_view() =~~= header + spec_packages_lines(
                m@.packages.take(k + 1),
            ));
        }
        k += 1;
    }
    proof {
        assert(m@.packages.take(m.packages@.len() as int) =~= m@.packages);
        assert(lines.deep_view() =~~= spec_manifest_lines(m@));
        reveal_strlit("\n");
        assert("\n"@ =~= seq!['\n']);
    }
    join_with(&lines, '\n', "\n")
}

/// Reads a manifest back from its document text. The read fails exactly on
/// texts that are not a well-formed manifest document.
pub fn load_manifest(text: &str) -> (r: Result<Manifest, ManifestError>)
    ensures
        match r {
            Ok(m) => spec_parse_manifest_text(text@) == Some(m@),
            Err(e) => spec_parse_manifest_text(text@) is None && e
                == ManifestError::MalformedContent,
        },
{
    let lines = split_char(text, '\n');
    let ghost lv = lines.deep_view();
    if lines.len() < 2 {
        return Err(ManifestError::MalformedContent);
    }
    proof {
        assert(lv[0] == lines@[0]@);
        assert(lv[1] == lines@[1]@);
    }
    let locked = match parse_bool_line(lines[0].as_str(), "locked_versions") {
        Some(b) => b,
        None => {
            return Err(ManifestError::MalformedContent);
        },
    };
    let symlink = match parse_bool_line(lines[1].as_str(), "dotfiles_symlink") {
        Some(b) => b,
        None => {
            return Err(ManifestError::MalformedContent);
        },
    };
    let mut idx: usize = 2;
    let mut repo: Option<String> = None;
    if lines.len() >= 3 {
        proof {
            assert(lv[2] == lines@[2]@);
        }
        match parse_str_line(lines[2].as_str(), "dotfiles_repo") {
            Some(r) => {
                repo = Some(r);
                idx = 3;
            },
            None => {},
        }
    }
    let ghost start = idx as int;
    let ghost rest0 = lv.skip(start);
    proof {
        // The header has been read; what remains of the document decides the
        // whole read.
        match spec_parse_packages(rest0) {
            Some(ps) => {
                assert(spec_parse_manifest_lines(lv) == Some(
                    ManifestView {
                        packages: ps,
                        dotfiles_repo: repo.deep_view(),
                        dotfiles_symlink: symlink,
                        locked_versions: locked,
                    },
                ));
            },
            None => {
                assert(spec_parse_manifest_lines(lv) is None);
            },
        }
    }
    let mut packages: Vec<Package> = Vec::new();
    while idx < lines.len()
        invariant
            2 <= start <= idx <= lines@.len(),
            lv == lines.deep_view(),
            lv.len() == lines@.len(),
            lv == spec_split(text@, '\n'),
            rest0 == lv.skip(start),
            spec_parse_packages(rest0) == spec_prepend(
                packages.deep_view(),
                spec_parse_packages(lv.skip(idx as int)),
            ),
            match spec_parse_packages(rest0) {
                Some(ps) => spec_parse_manifest_lines(lv) == Some(
                    ManifestView {
                        packages: ps,
                        dotfiles_repo: repo.deep_view(),
                        dotfiles_symlink: symlink,
                        locked_versions: locked,
                    },
                ),
                None => spec_parse_manifest_lines(lv) is None,
            },
        decreases lines@.len() - idx,
    {
        let ghost here = lv.skip(idx as int);
        let ghost acc_pre = packages.deep_view();
        proof {
            assert(here[0] == lv[idx as int]);
            assert(lv[idx as int] == lines@[idx as int]@);
        }
        if lines.len() - idx < 3 {
            proof {
                assert(here.len() >= 1 && here.len() < 3);
                assert(spec_parse_packages(here) is None);
            }
            return Err(ManifestError::MalformedContent);
        }
        proof {
            assert(here[1] == lv[idx as int + 1]);
            assert(here[2] == lv[idx as int + 2]);
            assert(lv[idx as int + 1] == lines@[idx as int + 1]@);
            assert(lv[idx as int + 2] == lines@[idx as int + 2]@);
        }
        if !lines[idx].as_str().is_empty() {
            proof {
                assert(here[0].len() != 0);
                assert(spec_parse_packages(here) is None);
            }
            return Err(ManifestError::MalformedContent);
        }
        proof {
            assert(here[0] =~= Seq::<char>::empty());
        }
        if String::from_str(lines[idx + 1].as_str()) != String::from_str("[[packages]]") {
            proof {
                assert(spec_parse_packages(here) is None);
            }
            return Err(ManifestError::MalformedContent);
        }
        let name = match parse_str_line(lines[idx + 2].as_str(), "name") {
            Some(n) => n,
            None => {
                proof {
                    assert(spec_parse_packages(here) is None);
                }
                return Err(ManifestError::MalformedContent);
            },
        };
        let ghost namev = name@;
        let mut consumed: usize = 3;
        let mut version: Option<String> = None;
        if idx + 3 < lines.len() {
            proof {
                assert(here[3] == lv[idx as int + 3]);
                assert(lv[idx as int + 3] == lines@[idx as int + 3]@);
            }
            match parse_str_line(lines[idx + 3].as_str(), "version") {
                Some(v) => {
                    version = Some(v);
                    consumed = 4;
                },
                None => {},
            }
        }
        let ghost pv = PackageView { name: namev, version: version.deep_view() };
        proof {
            assert(here.skip(3) =~= lv.skip(idx as int + 3));
            if consumed == 4 {
                assert(here.len() >= 4);
                assert(here.skip(4) =~= lv.skip(idx as int + 4));
                assert(spec_parse_str_line(here[3], "version"@) == Some(pv.version.unwrap()));
            } else {
                if here.len() >= 4 {
                    assert(spec_parse_str_line(here[3], "version"@) is None);
                }
            }
            assert(spec_parse_packages(here) == spec_prepend(
                seq![pv],
                spec_parse_packages(lv.skip(idx + consumed)),
            ));
        }
        packages.push(Package { name, version });
        proof {
            assert forall|i: int| 0 <= i < packages.deep_view().len() implies packages.deep_view()[i]
                == acc_pre.push(pv)[i] by {
                assert(packages.deep_view()[i] == packages@[i]@);
                if i < acc_pre.len() {
                    assert(packages@[i] == packages@.take(acc_pre.len() as int)[i]);
                }
            }
            assert(packages.deep_view() =~= acc_pre.push(pv));
            assert(spec_prepend(acc_pre, spec_parse_packages(here)) == spec_prepend(
                packages.deep_view(),
                spec_parse_packages(lv.skip(idx + consumed)),
            )) by {
                match spec_parse_packages(lv.skip(idx + consumed)) {
                    Some(t) => {
                        assert(acc_pre + (seq![pv] + t) =~= acc_pre.push(pv) + t);
                    },
                    None => {},
                }
            }
        }
        idx += consumed;
    }
    proof {
        assert(lv.skip(idx as int) =~= Seq::<Seq<char>>::empty());
        assert(spec_parse_packages(lv.skip(idx as int)) == Some(Seq::<PackageView>::empty()));
        assert(packages.deep_view() + Seq::<PackageView>::empty() =~= packages.deep_view());
        assert(spec_parse_packages(rest0) == Some(packages.deep_view()));
    }
    let m = Manifest {
        packages,
        dotfiles_repo: repo,
        dotfiles_symlink: symlink,
        locked_versions: locked,
    };
    proof {
        assert(spec_parse_manifest_lines(lv) == Some(m@));
    }
    Ok(m)
}

/// Prepends already-read packages to the outcome of reading the remaining
/// lines; a failed remainder stays a failure.
spec fn spec_prepend(
    acc: Seq<PackageView>,
    rest: Option<Seq<PackageView>>,
) -> Option<Seq<PackageView>> {
    match rest {
        None => None,
        Some(t) => Some(acc + t),
    }
}

} // verus!
