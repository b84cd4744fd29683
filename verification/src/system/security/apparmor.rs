//! Mandatory access control: its packages, its profiles and its service.
use vstd::prelude::*;
use crate::plan::{Plan, PlanView, Unwind};
use crate::system::package_manager::{install_plan, PackageManager};
use crate::system::services::{enable_step, start_step, ServiceManager};
use crate::text::views;

verus! {

/// The packages of access control.
pub const APPARMOR_PACKAGES: [&'static str; 2] = ["apparmor", "apparmor-utils"];

/// Builds the plan that sets up access control.
#[derive(Debug)]
pub struct AppArmorManager {}

/// The whole setup: the packages, and the service enabled and started. No
/// profile is installed beyond those of the packages.
pub open spec fn apparmor_plan() -> PlanView {
    PlanView::of(
        install_plan(views(APPARMOR_PACKAGES@)).steps + seq![enable_step("apparmor"@), start_step("apparmor"@)],
    )
}

impl AppArmorManager {
    /// A manager of access control.
    pub fn new() -> (r: Self) {
        AppArmorManager {}
    }

    /// The plan that sets up access control.
    pub fn setup(&self) -> (plan: Plan)
        ensures
            plan@ == apparmor_plan(),
    {
        let mut plan = PackageManager::new().install_packages(&APPARMOR_PACKAGES);
        plan.extend(self.setup_base_profiles());
        let services = ServiceManager::new();
        plan.push(services.enable_service("apparmor"));
        plan.push(services.start_service("apparmor"));
        proof {
            assert(plan@.steps =~= apparmor_plan().steps);
        }
        plan
    }

    /// The plan that installs the base profiles: there are none of the
    /// system's own, so the plan is empty.
    pub fn setup_base_profiles(&self) -> (plan: Plan)
        ensures
            plan@ == PlanView::empty(Unwind::Never),
    {
        Plan::new(Unwind::Never)
    }
}

} // verus!
