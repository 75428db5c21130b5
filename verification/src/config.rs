use vstd::prelude::*;

use crate::manifest::PackageManager;
use crate::text::{
    parse_bool_line, parse_str_line, spec_parse_bool_line, spec_parse_str_line, spec_split,
    split_char,
};

verus! {

/// How loading the configuration document can fail. A missing file and
/// malformed content are distinct failures, so the caller can give distinct
/// diagnostics.
#[derive(Clone, Copy, Debug, PartialEq, Eq, Structural)]
pub enum ConfigError {
    /// The configuration file could not be read at all.
    MissingFile,
    /// The configuration file was read but its content does not parse.
    MalformedContent,
}

/// The read-only configuration: which package manager to drive, whether to
/// pin versions, and where and how dotfiles are kept.
#[derive(Debug, Clone, PartialEq, Eq)]
pub struct Config {
    pub package_manager: PackageManager,
    pub locked_versions: bool,
    pub dotfiles_repo: Option<String>,
    pub dotfiles_symlink: bool,
}

/// The mathematical content of a `Config`.
pub struct ConfigView {
    pub package_manager: PackageManager,
    pub locked_versions: bool,
    pub dotfiles_repo: Option<Seq<char>>,
    pub dotfiles_symlink: bool,
}

impl View for Config {
    type V = ConfigView;

    open spec fn view(&self) -> ConfigView {
        ConfigView {
            package_manager: self.package_manager,
            locked_versions: self.locked_versions,
            dotfiles_repo: self.dotfiles_repo.deep_view(),
            dotfiles_symlink: self.dotfiles_symlink,
        }
    }
}

/// The configuration fields read so far while walking the document's lines.
pub struct PartialConfig {
    pub package_manager: Option<PackageManager>,
    pub locked_versions: Option<bool>,
    pub dotfiles_repo: Option<Seq<char>>,
    pub dotfiles_symlink: Option<bool>,
}

/// Reading one line of the configuration document. An empty line changes
/// nothing; a key/value line fills its field, and may appear only once; any
/// other line is malformed.
pub open spec fn spec_config_step(p: PartialConfig, line: Seq<char>) -> Option<PartialConfig> {
    if line.len() == 0 {
        Some(p)
    } else if spec_parse_str_line(line, "package_manager"@) is Some {
        match spec_parse_str_line(line, "package_manager"@) {
            Some(name) => match PackageManager::spec_from_name(name) {
                Some(mg) => if p.package_manager is None {
                    Some(PartialConfig { package_manager: Some(mg), ..p })
                } else {
                    None
                },
                None => None,
            },
            None => None,
        }
    } else if spec_parse_bool_line(line, "locked_versions"@) is Some {
        if p.locked_versions is None {
            Some(
                PartialConfig {
                    locked_versions: spec_parse_bool_line(line, "locked_versions"@),
                    ..p
                },
            )
        } else {
            None
        }
    } else if spec_parse_bool_line(line, "dotfiles_symlink"@) is Some {
        if p.dotfiles_symlink is None {
            Some(
                PartialConfig {
                    dotfiles_symlink: spec_parse_bool_line(line, "dotfiles_symlink"@),
                    ..p
                },
            )
        } else {
            None
        }
    } else if spec_parse_str_line(line, "dotfiles_repo"@) is Some {
        if p.dotfiles_repo is None {
            Some(PartialConfig { dotfiles_repo: spec_parse_str_line(line, "dotfiles_repo"@), ..p })
        } else {
            None
        }
    } else {
        None
    }
}

/// Reading the configuration document's lines in order, from an earlier
/// partial state.
pub open spec fn spec_config_fold(p: PartialConfig, lines: Seq<Seq<char>>) -> Option<PartialConfig>
    decreases lines.len(),
{
    if lines.len() == 0 {
        Some(p)
    } else {
        match spec_config_step(p, lines[0]) {
            None => None,
            Some(q) => spec_config_fold(q, lines.skip(1)),
        }
    }
}

/// The partial state with no field read yet.
pub open spec fn spec_config_empty() -> PartialConfig {
    PartialConfig {
        package_manager: None,
        locked_versions: None,
        dotfiles_repo: None,
        dotfiles_symlink: None,
    }
}

/// Reads a configuration from its document text. The manager, the lock flag
/// and the symlink flag must each be given exactly once; the dotfiles
/// repository may be omitted.
pub open spec fn spec_parse_config_text(s: Seq<char>) -> Option<ConfigView> {
    match spec_config_fold(spec_config_empty(), spec_split(s, '\n')) {
        None => None,
        Some(p) => match (p.package_manager, p.locked_versions, p.dotfiles_symlink) {
            (Some(mg), Some(locked), Some(symlink)) => Some(
                ConfigView {
                    package_manager: mg,
                    locked_versions: locked,
                    dotfiles_repo: p.dotfiles_repo,
                    dotfiles_symlink: symlink,
                },
            ),
            _ => None,
        },
    }
}

/// The partial state that the executable parser has built.
spec fn spec_partial_of(
    manager: Option<PackageManager>,
    locked: Option<bool>,
    repo: Option<Seq<char>>,
    symlink: Option<bool>,
) -> PartialConfig {
    PartialConfig {
        package_manager: manager,
        locked_versions: locked,
        dotfiles_repo: repo,
        dotfiles_symlink: symlink,
    }
}

/// Reads a configuration back from its document text. The read fails exactly
/// on texts that are not a well-formed configuration document.
pub fn load_config(text: &str) -> (r: Result<Config, ConfigError>)
    ensures
        match r {
            Ok(c) => spec_parse_config_text(text@) == Some(c@),
            Err(e) => spec_parse_config_text(text@) is None && e == ConfigError::MalformedContent,
        },
{
    let lines = split_char(text, '\n');
    let ghost lv = lines.deep_view();
    let mut manager: Option<PackageManager> = None;
    let mut locked: Option<bool> = None;
    let mut repo: Option<String> = None;
    let mut symlink: Option<bool> = None;
    let mut i: usize = 0;
    proof {
        assert(lv.skip(0) =~= lv);
        assert(spec_partial_of(manager, locked, repo.deep_view(), symlink)
            == spec_config_empty());
    }
    while i < lines.len()
        invariant
            0 <= i <= lines@.len(),
            lv == lines.deep_view(),
            lv.len() == lines@.len(),
            lv == spec_split(text@, '\n'),
            spec_config_fold(spec_config_empty(), lv) == spec_config_fold(
                spec_partial_of(manager, locked, repo.deep_view(), symlink),
                lv.skip(i as int),
            ),
        decreases lines@.len() - i,
    {
        let ghost p_pre = spec_partial_of(manager, locked, repo.deep_view(), symlink);
        let ghost here = lv.skip(i as int);
        proof {
            assert(here[0] == lv[i as int]);
            assert(lv[i as int] == lines@[i as int]@);
            assert(here.skip(1) =~= lv.skip(i as int + 1));
        }
        let line = lines[i].as_str();
        if line.is_empty() {
            i += 1;
            continue ;
        }
        if let Some(name) = parse_str_line(line, "package_manager") {
            match PackageManager::from_name(name.as_str()) {
                Some(mg) => {
                    if manager.is_some() {
                        return Err(ConfigError::MalformedContent);
                    }
                    manager = Some(mg);
                },
                None => {
                    return Err(ConfigError::MalformedContent);
                },
            }
            i += 1;
            continue ;
        }
        if let Some(b) = parse_bool_line(line, "locked_versions") {
            if locked.is_some() {
                return Err(ConfigError::MalformedContent);
            }
            locked = Some(b);
            i += 1;
            continue ;
        }
        if let Some(b) = parse_bool_line(line, "dotfiles_symlink") {
            if symlink.is_some() {
                return Err(ConfigError::MalformedContent);
            }
            symlink = Some(b);
            i += 1;
            continue ;
        }
        if let Some(r) = parse_str_line(line, "dotfiles_repo") {
            if repo.is_some() {
                return Err(ConfigError::MalformedContent);
            }
            repo = Some(r);
            i += 1;
            continue ;
        }
        return Err(ConfigError::MalformedContent);
    }
    proof {
        assert(lv.skip(i as int) =~= Seq::<Seq<char>>::empty());
    }
    let c = match (manager, locked, symlink) {
        (Some(mg), Some(l), Some(sy)) => Config {
            package_manager: mg,
            locked_versions: l,
            dotfiles_repo: repo,
            dotfiles_symlink: sy,
        },
        _ => {
            return Err(ConfigError::MalformedContent);
        },
    };
    Ok(c)
}

/// The per-user configuration directory: `.config/metl` under the home
/// directory.
pub fn get_config_path(home: &str) -> (r: String)
    ensures
        r@ == home@ + "/.config/metl"@,
{
    String::from_str(home).concat("/.config/metl")
}

} // verus!
