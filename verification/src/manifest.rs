use vstd::prelude::*;

use crate::text::text_safe;

verus! {

/// The closed set of supported package managers. All members are part of the
/// pacman-compatible family: they share one invocation shape and differ only
/// by binary name.
#[derive(Clone, Copy, Debug, PartialEq, Eq, Structural)]
pub enum PackageManager {
    Pacman,
    Paru,
    Yay,
}

impl PackageManager {
    /// The name of the manager's binary, as a sequence of characters.
    pub open spec fn spec_name(self) -> Seq<char> {
        match self {
            PackageManager::Pacman => "pacman"@,
            PackageManager::Paru => "paru"@,
            PackageManager::Yay => "yay"@,
        }
    }

    /// The manager named by `name`, when `name` is one of the supported
    /// binary names.
    pub open spec fn spec_from_name(name: Seq<char>) -> Option<PackageManager> {
        if name == "pacman"@ {
            Some(PackageManager::Pacman)
        } else if name == "paru"@ {
            Some(PackageManager::Paru)
        } else if name == "yay"@ {
            Some(PackageManager::Yay)
        } else {
            None
        }
    }

    /// The name of the manager's binary, used both as the executable to
    /// invoke and as the value stored in the configuration file.
    pub fn to_string(&self) -> (r: String)
        ensures
            r@ == self.spec_name(),
    {
        match self {
            PackageManager::Pacman => String::from_str("pacman"),
            PackageManager::Paru => String::from_str("paru"),
            PackageManager::Yay => String::from_str("yay"),
        }
    }

    /// Reads a manager back from its binary name.
    pub fn from_name(name: &str) -> (r: Option<PackageManager>)
        ensures
            r == Self::spec_from_name(name@),
    {
        let n = String::from_str(name);
        if n == String::from_str("pacman") {
            Some(PackageManager::Pacman)
        } else if n == String::from_str("paru") {
            Some(PackageManager::Paru)
        } else if n == String::from_str("yay") {
            Some(PackageManager::Yay)
        } else {
            None
        }
    }
}

/// One declared package: its name, and the pinned version recorded when lock
/// mode was active at snapshot time.
#[derive(Debug, Clone, PartialEq, Eq)]
pub struct Package {
    pub name: String,
    pub version: Option<String>,
}

/// The mathematical content of a `Package`.
pub struct PackageView {
    pub name: Seq<char>,
    pub version: Option<Seq<char>>,
}

impl View for Package {
    type V = PackageView;

    open spec fn view(&self) -> PackageView {
        PackageView { name: self.name@, version: self.version.deep_view() }
    }
}

impl DeepView for Package {
    type V = PackageView;

    open spec fn deep_view(&self) -> PackageView {
        self.view()
    }
}

impl PackageView {
    /// The name, and the version when one is present, can sit inside the
    /// quoted value of one line of the manifest document.
    pub open spec fn text_safe(self) -> bool {
        &&& text_safe(self.name)
        &&& match self.version {
            Some(v) => text_safe(v),
            None => true,
        }
    }
}

/// The persisted declarative state: which packages should be installed, and
/// where and how dotfiles should be applied.
#[derive(Debug, Clone, PartialEq, Eq)]
pub struct Manifest {
    /// Ordered list of declared packages.
    pub packages: Vec<Package>,
    /// URL or path of a git repository holding dotfile directories, when one
    /// is configured.
    pub dotfiles_repo: Option<String>,
    /// True selects link mode (an external stow-like tool); false selects
    /// copy mode (an external sync-like tool).
    pub dotfiles_symlink: bool,
    /// Whether package entries pin an exact version.
    pub locked_versions: bool,
}

/// The mathematical content of a `Manifest`.
pub struct ManifestView {
    pub packages: Seq<PackageView>,
    pub dotfiles_repo: Option<Seq<char>>,
    pub dotfiles_symlink: bool,
    pub locked_versions: bool,
}

impl View for Manifest {
    type V = ManifestView;

    open spec fn view(&self) -> ManifestView {
        ManifestView {
            packages: self.packages.deep_view(),
            dotfiles_repo: self.dotfiles_repo.deep_view(),
            dotfiles_symlink: self.dotfiles_symlink,
            locked_versions: self.locked_versions,
        }
    }
}

impl ManifestView {
    /// Every quoted value of the manifest can sit inside one line of the
    /// manifest document.
    pub open spec fn text_safe(self) -> bool {
        &&& forall|i: int| 0 <= i < self.packages.len() ==> (#[trigger] self.packages[i]).text_safe()
        &&& match self.dotfiles_repo {
            Some(r) => text_safe(r),
            None => true,
        }
    }

    /// Invariants of a written manifest: package names are unique, and a
    /// pinned version is only recorded when lock mode is on.
    pub open spec fn wf(self) -> bool {
        &&& forall|i: int, j: int|
            0 <= i < j < self.packages.len() ==> (#[trigger] self.packages[i]).name != (
            #[trigger] self.packages[j]).name
        &&& forall|i: int|
            0 <= i < self.packages.len() && (#[trigger] self.packages[i]).version is Some
                ==> self.locked_versions
    }
}

} // verus!
