//! Security: the firewall, mandatory access control, and the verification
//! of packages.
use vstd::prelude::*;
use crate::plan::{Plan, PlanView};

pub mod apparmor;
pub mod firewall;
pub mod package_verifier;

verus! {

/// Builds the plan that secures the system.
#[derive(Debug)]
pub struct SecurityManager {
    pub firewall: firewall::FirewallManager,
    pub apparmor: apparmor::AppArmorManager,
    pub package_verifier: package_verifier::PackageVerifier,
}

/// The whole setup: firewall, access control, package verification.
pub open spec fn security_plan() -> PlanView {
    PlanView::of(
        firewall::firewall_plan().steps + apparmor::apparmor_plan().steps
            + package_verifier::verifier_plan().steps,
    )
}

impl SecurityManager {
    /// A security manager with its three parts.
    pub fn new() -> (r: Self) {
        SecurityManager {
            firewall: firewall::FirewallManager::new(),
            apparmor: apparmor::AppArmorManager::new(),
            package_verifier: package_verifier::PackageVerifier::new(),
        }
    }

    /// The plan that sets up the firewall, then access control, then the
    /// verification of packages.
    pub fn setup_security(&self) -> (plan: Plan)
        ensures
            plan@ == security_plan(),
    {
        let mut plan = self.firewall.setup();
        plan.extend(self.apparmor.setup());
        plan.extend(self.package_verifier.setup());
        plan
    }
}

} // verus!
