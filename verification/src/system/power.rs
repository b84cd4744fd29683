//! Power management: its packages, its configuration and its services.
use vstd::prelude::*;
use crate::plan::{Plan, PlanView, Step, StepView, Unwind};
use crate::system::services::{enable_steps, ServiceManager};
use crate::system::package_manager::{install_plan, PackageManager};
use crate::text::{join_path, path_under, views};

verus! {

/// The packages of power management.
pub const POWER_PACKAGES: [&'static str; 6] = ["tlp", "tlp-rdw", "powertop", "acpi", "acpi_call", "thermald"];

/// The services of power management.
pub const POWER_SERVICES: [&'static str; 2] = ["tlp", "thermald"];

/// The power policy.
pub const TLP_CONFIG: &'static str = r#"
# CPU frequency scaling
CPU_SCALING_GOVERNOR_ON_AC=performance
CPU_SCALING_GOVERNOR_ON_BAT=powersave

# CPU energy performance preferences
CPU_ENERGY_PERF_POLICY_ON_AC=performance
CPU_ENERGY_PERF_POLICY_ON_BAT=power

# Disk devices
DISK_DEVICES="nvme0n1 sda"
DISK_IOSCHED="mq-deadline"

# Battery care
START_CHARGE_THRESH_BAT0=75
STOP_CHARGE_THRESH_BAT0=80

# Platform specific settings
PLATFORM_PROFILE_ON_AC=performance
PLATFORM_PROFILE_ON_BAT=low-power
"#;

/// Builds the plan that sets up power management.
#[derive(Debug)]
pub struct PowerManager {
    pub config_path: String,
}

/// The steps that write the power policy below `config_path`.
pub open spec fn tlp_steps(config_path: Seq<char>) -> Seq<StepView> {
    seq![StepView::mkdir(config_path), StepView::write(path_under(config_path, "01-custom.conf"@), TLP_CONFIG@)]
}

/// The whole setup: packages, policy, services.
pub open spec fn power_plan(config_path: Seq<char>) -> PlanView {
    PlanView::of(
        install_plan(views(POWER_PACKAGES@)).steps + tlp_steps(config_path) + enable_steps(
            views(POWER_SERVICES@),
        ),
    )
}

impl PowerManager {
    /// A power manager that writes below `/etc/tlp.d`.
    pub fn new() -> (r: Self)
        ensures
            r.config_path@ == "/etc/tlp.d"@,
    {
        PowerManager { config_path: String::from_str("/etc/tlp.d") }
    }

    /// The plan that installs the packages, writes the power policy and
    /// enables the services.
    pub fn setup_power_management(&self) -> (plan: Plan)
        ensures
            plan@ == power_plan(self.config_path@),
    {
        let mut plan = PackageManager::new().install_packages(&POWER_PACKAGES);
        plan.extend(self.setup_tlp_config());
        plan.extend(ServiceManager::new().enable_services(&POWER_SERVICES));
        plan
    }

    /// The plan that writes the power policy.
    pub fn setup_tlp_config(&self) -> (plan: Plan)
        ensures
            plan@ == PlanView::of(tlp_steps(self.config_path@)),
    {
        let mut plan = Plan::new(Unwind::Never);
        plan.push(Step::mkdir(self.config_path.as_str()));
        let file = join_path(self.config_path.as_str(), "01-custom.conf");
        plan.push(Step::write(file.as_str(), TLP_CONFIG));
        proof {
            assert(plan@.steps =~= tlp_steps(self.config_path@));
        }
        plan
    }
}

} // verus!
