//! The login manager: its configuration and the session that it offers.
use vstd::prelude::*;
use crate::plan::{Plan, PlanView, Step, StepView, Unwind};
use crate::text::{join_path, path_under};

verus! {

/// The configuration of the login manager.
pub const SDDM_CONFIG: &'static str = r#"[Wayland]
SessionDir=/usr/share/wayland-sessions

[Theme]
Current=breeze
CursorTheme=breeze_cursors

[Users]
MaximumUid=60000
MinimumUid=1000

[General]
InputMethod=
Numlock=on
"#;

/// The session that the login manager offers.
pub const WAYLAND_SESSION: &'static str = r#"[Desktop Entry]
Name=Hyprland
Comment=Highly customizable dynamic tiling Wayland compositor
Exec=/usr/local/bin/start-hyprland
Type=Application
"#;

/// Where sessions are registered.
pub const SESSION_DIR: &'static str = "/usr/share/wayland-sessions";

/// Builds the plan that sets up the login manager.
#[derive(Debug)]
pub struct LoginManager {
    pub config_path: String,
}

/// The steps that register the session.
pub open spec fn wayland_session_steps() -> Seq<StepView> {
    seq![
        StepView::mkdir(SESSION_DIR@),
        StepView::write(path_under(SESSION_DIR@, "hyprland.desktop"@), WAYLAND_SESSION@),
    ]
}

/// The whole setup: the configuration, then the session.
pub open spec fn sddm_plan(config_path: Seq<char>) -> PlanView {
    PlanView::of(
        seq![
            StepView::mkdir(config_path),
            StepView::write(path_under(config_path, "10-wayland.conf"@), SDDM_CONFIG@),
        ] + wayland_session_steps(),
    )
}

impl LoginManager {
    /// A login manager that writes below `/etc/sddm.conf.d`.
    pub fn new() -> (r: Self)
        ensures
            r.config_path@ == "/etc/sddm.conf.d"@,
    {
        LoginManager { config_path: String::from_str("/etc/sddm.conf.d") }
    }

    /// The plan that writes the configuration of the login manager and
    /// registers the session.
    pub fn setup_sddm(&self) -> (plan: Plan)
        ensures
            plan@ == sddm_plan(self.config_path@),
    {
        let mut plan = Plan::new(Unwind::Never);
        plan.push(Step::mkdir(self.config_path.as_str()));
        let file = join_path(self.config_path.as_str(), "10-wayland.conf");
        plan.push(Step::write(file.as_str(), SDDM_CONFIG));
        plan.extend(self.create_wayland_session());
        proof {
            assert(plan@.steps =~= sddm_plan(self.config_path@).steps);
        }
        plan
    }

    /// The plan that registers the session.
    pub fn create_wayland_session(&self) -> (plan: Plan)
        ensures
            plan@ == PlanView::of(wayland_session_steps()),
    {
        let mut plan = Plan::new(Unwind::Never);
        plan.push(Step::mkdir(SESSION_DIR));
        let file = join_path(SESSION_DIR, "hyprland.desktop");
        plan.push(Step::write(file.as_str(), WAYLAND_SESSION));
        proof {
            assert(plan@.steps =~= wayland_session_steps());
        }
        plan
    }
}

} // verus!
