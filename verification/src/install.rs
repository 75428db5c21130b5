use vstd::prelude::*;

use crate::manifest::PackageManager;
use crate::proxies::{ProxyPlan, pacman_compatible_proxy, proxy_plan_matches};
use crate::text::push_str;

verus! {

/// The defaulted flags of an ad-hoc install.
pub open spec fn spec_install_defaults() -> Seq<Seq<char>> {
    seq!["-S"@, "--noconfirm"@]
}

/// Plans the ad-hoc install passthrough: a single bare package name gets
/// `-S --noconfirm` prepended; anything else goes to the manager verbatim.
pub fn install(manager: &PackageManager, args: &Vec<String>) -> (r: ProxyPlan)
    ensures
        proxy_plan_matches(r, *manager, args.deep_view(), spec_install_defaults()),
{
    let mut defaults: Vec<String> = Vec::new();
    push_str(&mut defaults, "-S");
    push_str(&mut defaults, "--noconfirm");
    proof {
        assert(defaults.deep_view() =~~= spec_install_defaults());
    }
    pacman_compatible_proxy(manager, args, &defaults)
}

} // verus!
