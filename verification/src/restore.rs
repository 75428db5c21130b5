use vstd::prelude::*;

use crate::manifest::{Manifest, PackageManager};
use crate::sync::{SyncPlan, dotfiles_start_matches, package_plan_matches};

verus! {

/// How the plain restore flow can fail as a whole: the dotfiles repository
/// could not be cloned.
#[derive(Clone, Copy, Debug, PartialEq, Eq, Structural)]
pub enum RestoreError {
    DotfileClone,
}

/// Plans one restore run over a loaded manifest: the package step, then the
/// dotfiles step. This is the plain entry without verbose echoing; it plans
/// exactly what a sync run plans.
pub fn restore(manager: &PackageManager, manifest: &Manifest, home: &str, dry_run: bool) -> (r:
    SyncPlan)
    ensures
        package_plan_matches(r.package_step, *manager, manifest@, dry_run),
        dotfiles_start_matches(r.dotfiles_step, manifest@, home@, dry_run),
        dry_run <==> r.package_step is Preview,
        (manifest@.dotfiles_repo is None) <==> (r.dotfiles_step is NotConfigured),
{
    crate::sync::sync(manager, manifest, home, dry_run)
}

} // verus!
