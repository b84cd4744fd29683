//! Networking: its packages, its configuration, its services and the
//! firewall rules.
use vstd::prelude::*;
use crate::command::{Command, CommandView};
use crate::plan::{Plan, PlanView, Step, StepView, Unwind};
use crate::system::services::{enable_steps, ServiceManager};
use crate::system::package_manager::{install_plan, PackageManager};
use crate::text::{join_path, path_under, views};

verus! {

/// The packages of networking.
pub const NETWORK_PACKAGES: [&'static str; 6] = [
    "networkmanager",
    "network-manager-applet",
    "iwd",
    "dhcpcd",
    "openssh",
    "firewalld",
];

/// The services of networking.
pub const NETWORK_SERVICES: [&'static str; 3] = ["NetworkManager", "iwd", "firewalld"];

/// The configuration of the network manager.
pub const NETWORKMANAGER_CONFIG: &'static str = r#"
[device]
wifi.backend=iwd

[connection]
wifi.powersave=2

[connectivity]
uri=http://networkcheck.gnome.org/
interval=300
"#;

/// Builds the plan that sets up networking.
#[derive(Debug)]
pub struct NetworkManager {
    pub config_path: String,
}

/// The steps that write the configuration of the network manager.
pub open spec fn networkmanager_steps(config_path: Seq<char>) -> Seq<StepView> {
    seq![
        StepView::mkdir(config_path),
        StepView::write(path_under(config_path, "00-custom.conf"@), NETWORKMANAGER_CONFIG@),
    ]
}

/// The step that permanently opens the firewall for `service`.
pub open spec fn allow_step(service: Seq<char>) -> StepView {
    StepView::attempt(CommandView::new("firewall-cmd"@).arg("--permanent"@).arg("--add-service="@ + service))
}

/// The firewall rules: remote shell and address configuration are let in,
/// then the rules are loaded.
pub open spec fn firewall_steps() -> Seq<StepView> {
    seq![
        allow_step("ssh"@),
        allow_step("dhcpv6-client"@),
        StepView::attempt(CommandView::new("firewall-cmd"@).arg("--reload"@)),
    ]
}

/// The whole setup: packages, configuration, services, firewall.
pub open spec fn network_plan(config_path: Seq<char>) -> PlanView {
    PlanView::of(
        install_plan(views(NETWORK_PACKAGES@)).steps + networkmanager_steps(config_path) + enable_steps(
            views(NETWORK_SERVICES@),
        ) + firewall_steps(),
    )
}

/// The step that permanently opens the firewall for `service`.
pub fn allow_service(service: &str) -> (step: Step)
    ensures
        step@ == allow_step(service@),
{
    let rule = crate::text::chain("--add-service=", service);
    Step::attempt(Command::new("firewall-cmd").arg("--permanent").arg(rule.as_str()))
}

impl NetworkManager {
    /// A network manager that writes below `/etc/NetworkManager/conf.d`.
    pub fn new() -> (r: Self)
        ensures
            r.config_path@ == "/etc/NetworkManager/conf.d"@,
    {
        NetworkManager { config_path: String::from_str("/etc/NetworkManager/conf.d") }
    }

    /// The plan that installs the packages, writes the configuration,
    /// enables the services and sets the firewall rules.
    pub fn setup_networking(&self) -> (plan: Plan)
        ensures
            plan@ == network_plan(self.config_path@),
    {
        let mut plan = PackageManager::new().install_packages(&NETWORK_PACKAGES);
        plan.extend(self.setup_networkmanager_config());
        plan.extend(ServiceManager::new().enable_services(&NETWORK_SERVICES));
        plan.extend(self.setup_firewall());
        plan
    }

    /// The plan that writes the configuration of the network manager.
    pub fn setup_networkmanager_config(&self) -> (plan: Plan)
        ensures
            plan@ == PlanView::of(networkmanager_steps(self.config_path@)),
    {
        let mut plan = Plan::new(Unwind::Never);
        plan.push(Step::mkdir(self.config_path.as_str()));
        let file = join_path(self.config_path.as_str(), "00-custom.conf");
        plan.push(Step::write(file.as_str(), NETWORKMANAGER_CONFIG));
        proof {
            assert(plan@.steps =~= networkmanager_steps(self.config_path@));
        }
        plan
    }

    /// The plan that sets the firewall rules.
    pub fn setup_firewall(&self) -> (plan: Plan)
        ensures
            plan@ == PlanView::of(firewall_steps()),
    {
        let mut plan = Plan::new(Unwind::Never);
        plan.push(allow_service("ssh"));
        plan.push(allow_service("dhcpv6-client"));
        plan.push(Step::attempt(Command::new("firewall-cmd").arg("--reload")));
        proof {
            assert(plan@.steps =~= firewall_steps());
        }
        plan
    }
}

} // verus!
