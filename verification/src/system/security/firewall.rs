//! The firewall: its package, its first rules and its service.
use vstd::prelude::*;
use crate::plan::{Plan, PlanView};
use crate::system::network::{allow_service, allow_step};
use crate::system::package_manager::{install_plan, PackageManager};
use crate::system::services::{enable_step, start_step, ServiceManager};
use crate::text::views;

verus! {

/// The package of the firewall.
pub const FIREWALL_PACKAGES: [&'static str; 1] = ["firewalld"];

/// Builds the plan that sets up the firewall.
#[derive(Debug)]
pub struct FirewallManager {}

/// The whole setup: the package, the rules for remote shell and address
/// configuration, and the service enabled and started.
pub open spec fn firewall_plan() -> PlanView {
    PlanView::of(
        install_plan(views(FIREWALL_PACKAGES@)).steps + seq![
            allow_step("ssh"@),
            allow_step("dhcpv6-client"@),
            enable_step("firewalld"@),
            start_step("firewalld"@),
        ],
    )
}

impl FirewallManager {
    /// A manager of the firewall.
    pub fn new() -> (r: Self) {
        FirewallManager {}
    }

    /// The plan that sets up the firewall.
    pub fn setup(&self) -> (plan: Plan)
        ensures
            plan@ == firewall_plan(),
    {
        let mut plan = PackageManager::new().install_packages(&FIREWALL_PACKAGES);
        plan.push(allow_service("ssh"));
        plan.push(allow_service("dhcpv6-client"));
        let services = ServiceManager::new();
        plan.push(services.enable_service("firewalld"));
        plan.push(services.start_service("firewalld"));
        proof {
            assert(plan@.steps =~= firewall_plan().steps);
        }
        plan
    }
}

} // verus!
