use vstd::prelude::*;

use crate::manifest::PackageManager;
use crate::proxies::{ProxyPlan, pacman_compatible_proxy, proxy_plan_matches};
use crate::text::push_str;

verus! {

/// The defaulted flags of an ad-hoc removal.
pub open spec fn spec_remove_defaults() -> Seq<Seq<char>> {
    seq!["-R"@, "--noconfirm"@]
}

/// Plans the ad-hoc removal passthrough: a single bare package name gets
/// `-R --noconfirm` prepended; anything else goes to the manager verbatim.
pub fn remove(manager: &PackageManager, args: &Vec<String>) -> (r: ProxyPlan)
    ensures
        proxy_plan_matches(r, *manager, args.deep_view(), spec_remove_defaults()),
{
    let mut defaults: Vec<String> = Vec::new();
    push_str(&mut defaults, "-R");
    push_str(&mut defaults, "--noconfirm");
    proof {
        assert(defaults.deep_view() =~~= spec_remove_defaults());
    }
    pacman_compatible_proxy(manager, args, &defaults)
}

} // verus!
