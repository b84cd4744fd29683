//! Enabling and starting services through the init system.
use vstd::prelude::*;
use crate::command::{Command, CommandView};
use crate::plan::{Failure, FailureView, Plan, PlanView, Step, StepView, Unwind};
use crate::text::views;

verus! {

/// The init systems that are supported.
#[derive(Debug, PartialEq, Eq, Clone, Copy)]
pub enum InitSystem {
    Systemd,
}

/// Builds the steps that enable and start services.
#[derive(Debug)]
pub struct ServiceManager {
    pub init_system: InitSystem,
}

/// The services that every installation runs.
pub const ESSENTIAL_SERVICES: [&'static str; 5] = [
    "NetworkManager",
    "bluetooth",
    "pipewire",
    "pipewire-pulse",
    "sddm",
];

/// The step that enables `service` at boot.
pub open spec fn enable_step(service: Seq<char>) -> StepView {
    StepView::run(CommandView::new("systemctl"@).arg("enable"@).arg(service), FailureView::Command)
}

/// The step that starts `service` now.
pub open spec fn start_step(service: Seq<char>) -> StepView {
    StepView::run(CommandView::new("systemctl"@).arg("start"@).arg(service), FailureView::Command)
}

/// One enable step for each service, in order.
pub open spec fn enable_steps(services: Seq<Seq<char>>) -> Seq<StepView> {
    Seq::new(services.len(), |i: int| enable_step(services[i]))
}

/// For each service in order: enable it, then start it.
pub open spec fn enable_and_start(services: Seq<Seq<char>>) -> Seq<StepView> {
    Seq::new(
        2 * services.len(),
        |i: int|
            if i % 2 == 0 {
                enable_step(services[i / 2])
            } else {
                start_step(services[i / 2])
            },
    )
}

impl ServiceManager {
    /// A service manager over the one supported init system.
    pub fn new() -> (r: Self)
        ensures
            r.init_system == InitSystem::Systemd,
    {
        ServiceManager { init_system: InitSystem::Systemd }
    }

    /// The step that enables `service` at boot.
    pub fn enable_service(&self, service: &str) -> (step: Step)
        ensures
            step@ == enable_step(service@),
    {
        match self.init_system {
            InitSystem::Systemd => Step::run(Command::new("systemctl").arg("enable").arg(service), Failure::Command),
        }
    }

    /// The step that starts `service` now.
    pub fn start_service(&self, service: &str) -> (step: Step)
        ensures
            step@ == start_step(service@),
    {
        match self.init_system {
            InitSystem::Systemd => Step::run(Command::new("systemctl").arg("start").arg(service), Failure::Command),
        }
    }

    /// The plan that enables each of `services` at boot, in order.
    pub fn enable_services(&self, services: &[&str]) -> (plan: Plan)
        ensures
            plan@ == PlanView::of(enable_steps(views(services@))),
    {
        let mut plan = Plan::new(Unwind::Never);
        let mut i: usize = 0;
        proof {
            assert(enable_steps(views(services@).take(0)) =~= Seq::<StepView>::empty());
        }
        while i < services.len()
            invariant
                i <= services.len(),
                plan@ == PlanView::of(enable_steps(views(services@).take(i as int))),
            decreases services.len() - i,
        {
            plan.push(self.enable_service(services[i]));
            proof {
                let all = views(services@);
                assert(enable_steps(all.take(i + 1)) =~= enable_steps(all.take(i as int)).push(
                    enable_step(all[i as int]),
                ));
            }
            i += 1;
        }
        proof {
            assert(views(services@).take(services.len() as int) =~= views(services@));
        }
        plan
    }

    /// The plan that enables and starts each essential service in turn.
    pub fn setup_essential_services(&self) -> (plan: Plan)
        ensures
            plan@ == PlanView::of(enable_and_start(views(ESSENTIAL_SERVICES@))),
    {
        let mut plan = Plan::new(Unwind::Never);
        let mut i: usize = 0;
        while i < ESSENTIAL_SERVICES.len()
            invariant
                i <= ESSENTIAL_SERVICES@.len(),
                plan@.unwind == Unwind::Never,
                plan@.check is None,
                plan@.steps == enable_and_start(views(ESSENTIAL_SERVICES@)).take(2 * i),
            decreases ESSENTIAL_SERVICES@.len() - i,
        {
            let ghost before = plan@.steps;
            plan.push(self.enable_service(ESSENTIAL_SERVICES[i]));
            plan.push(self.start_service(ESSENTIAL_SERVICES[i]));
            proof {
                let all = enable_and_start(views(ESSENTIAL_SERVICES@));
                assert(all[2 * i] == enable_step(views(ESSENTIAL_SERVICES@)[i as int]));
                assert(all[2 * i + 1] == start_step(views(ESSENTIAL_SERVICES@)[i as int]));
                assert(before.push(all[2 * i]).push(all[2 * i + 1]) =~= all.take(2 * (i + 1)));
            }
            i += 1;
        }
        proof {
            let all = enable_and_start(views(ESSENTIAL_SERVICES@));
            assert(all.take(2 * i) =~= all);
        }
        plan
    }
}

} // verus!
