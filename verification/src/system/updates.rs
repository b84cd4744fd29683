//! Automatic updates: a service that updates the system and a timer that
//! starts it once a day.
use vstd::prelude::*;
use crate::plan::{Plan, PlanView, Step, StepView, Unwind};
use crate::system::services::{enable_step, ServiceManager};
use crate::text::{join_path, path_under};

verus! {

/// The unit that updates the system.
pub const UPDATE_SERVICE: &'static str = r#"
[Unit]
Description=xBitOS System Update Service
After=network-online.target
Wants=network-online.target

[Service]
Type=oneshot
ExecStart=/usr/bin/pacman -Syu --noconfirm
ExecStartPost=/usr/bin/snapper create -c timeline -d "Auto Update"

[Install]
WantedBy=multi-user.target
"#;

/// The unit that starts the update once a day.
pub const UPDATE_TIMER: &'static str = r#"
[Unit]
Description=xBitOS Daily System Update Timer

[Timer]
OnCalendar=daily
RandomizedDelaySec=1h
Persistent=true

[Install]
WantedBy=timers.target
"#;

/// Builds the plan that sets up automatic updates.
#[derive(Debug)]
pub struct UpdateManager {
    pub config_path: String,
}

/// The step that writes the update service below `config_path`.
pub open spec fn update_service_step(config_path: Seq<char>) -> StepView {
    StepView::write(path_under(config_path, "xbitos-update.service"@), UPDATE_SERVICE@)
}

/// The step that writes the update timer below `config_path`.
pub open spec fn update_timer_step(config_path: Seq<char>) -> StepView {
    StepView::write(path_under(config_path, "xbitos-update.timer"@), UPDATE_TIMER@)
}

/// The whole setup: the service, the timer, and the timer enabled.
pub open spec fn updates_plan(config_path: Seq<char>) -> PlanView {
    PlanView::of(
        seq![
            update_service_step(config_path),
            update_timer_step(config_path),
            enable_step("xbitos-update.timer"@),
        ],
    )
}

impl UpdateManager {
    /// An update manager that writes below `/etc/systemd/system`.
    pub fn new() -> (r: Self)
        ensures
            r.config_path@ == "/etc/systemd/system"@,
    {
        UpdateManager { config_path: String::from_str("/etc/systemd/system") }
    }

    /// The plan that writes the update service and its timer and enables
    /// the timer.
    pub fn setup_auto_updates(&self) -> (plan: Plan)
        ensures
            plan@ == updates_plan(self.config_path@),
    {
        let mut plan = Plan::new(Unwind::Never);
        plan.push(self.create_update_service());
        plan.push(self.create_update_timer());
        plan.push(ServiceManager::new().enable_service("xbitos-update.timer"));
        proof {
            assert(plan@.steps =~= updates_plan(self.config_path@).steps);
        }
        plan
    }

    /// The step that writes the update service.
    pub fn create_update_service(&self) -> (step: Step)
        ensures
            step@ == update_service_step(self.config_path@),
    {
        let file = join_path(self.config_path.as_str(), "xbitos-update.service");
        Step::write(file.as_str(), UPDATE_SERVICE)
    }

    /// The step that writes the update timer.
    pub fn create_update_timer(&self) -> (step: Step)
        ensures
            step@ == update_timer_step(self.config_path@),
    {
        let file = join_path(self.config_path.as_str(), "xbitos-update.timer");
        Step::write(file.as_str(), UPDATE_TIMER)
    }
}

} // verus!
