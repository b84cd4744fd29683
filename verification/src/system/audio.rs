//! The sound system: its packages, its configuration and its services.
use vstd::prelude::*;
use crate::plan::{Plan, PlanView, Step, StepView, Unwind};
use crate::system::package_manager::{install_plan, PackageManager};
use crate::system::services::{enable_steps, ServiceManager};
use crate::text::{join_path, path_under, views};

verus! {

/// The packages of the sound system.
pub const AUDIO_PACKAGES: [&'static str; 6] = [
    "pipewire-audio",
    "pipewire-alsa",
    "pipewire-jack",
    "wireplumber",
    "pavucontrol",
    "easyeffects",
];

/// The services of the sound system.
pub const AUDIO_SERVICES: [&'static str; 3] = ["pipewire", "pipewire-pulse", "wireplumber"];

/// The configuration of the sound server.
pub const PIPEWIRE_CONFIG: &'static str = r#"
context.properties = {
    default.clock.rate = 48000
    default.clock.quantum = 1024
    default.clock.min-quantum = 32
    default.clock.max-quantum = 8192
}

context.modules = [
    { name = libpipewire-module-protocol-native }
    { name = libpipewire-module-profiler }
    { name = libpipewire-module-metadata }
    { name = libpipewire-module-spa-device-factory }
    { name = libpipewire-module-spa-node-factory }
    { name = libpipewire-module-client-node }
    { name = libpipewire-module-client-device }
    { name = libpipewire-module-portal }
    { name = libpipewire-module-access }
    { name = libpipewire-module-adapter }
    { name = libpipewire-module-link-factory }
    { name = libpipewire-module-session-manager }
]
"#;

/// Builds the plan that sets up sound.
#[derive(Debug)]
pub struct AudioManager {
    pub config_path: String,
}

/// The steps that write the configuration of the sound server below
/// `config_path`.
pub open spec fn pipewire_steps(config_path: Seq<char>) -> Seq<StepView> {
    seq![
        StepView::mkdir(config_path),
        StepView::write(path_under(config_path, "pipewire.conf"@), PIPEWIRE_CONFIG@),
    ]
}

/// The whole sound setup: packages, configuration, services.
pub open spec fn audio_plan(config_path: Seq<char>) -> PlanView {
    PlanView::of(
        install_plan(views(AUDIO_PACKAGES@)).steps + pipewire_steps(config_path) + enable_steps(
            views(AUDIO_SERVICES@),
        ),
    )
}

impl AudioManager {
    /// An audio manager that writes below `/etc/pipewire`.
    pub fn new() -> (r: Self)
        ensures
            r.config_path@ == "/etc/pipewire"@,
    {
        AudioManager { config_path: String::from_str("/etc/pipewire") }
    }

    /// The plan that installs the sound packages, writes the configuration
    /// of the sound server and enables its services.
    pub fn setup_audio(&self) -> (plan: Plan)
        ensures
            plan@ == audio_plan(self.config_path@),
    {
        let mut plan = PackageManager::new().install_packages(&AUDIO_PACKAGES);
        plan.extend(self.setup_pipewire_config());
        plan.extend(ServiceManager::new().enable_services(&AUDIO_SERVICES));
        plan
    }

    /// The plan that writes the configuration of the sound server.
    pub fn setup_pipewire_config(&self) -> (plan: Plan)
        ensures
            plan@ == PlanView::of(pipewire_steps(self.config_path@)),
    {
        let mut plan = Plan::new(Unwind::Never);
        plan.push(Step::mkdir(self.config_path.as_str()));
        let file = join_path(self.config_path.as_str(), "pipewire.conf");
        plan.push(Step::write(file.as_str(), PIPEWIRE_CONFIG));
        proof {
            assert(plan@.steps =~= pipewire_steps(self.config_path@));
        }
        plan
    }
}

} // verus!
