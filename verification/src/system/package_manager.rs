//! Installing and updating packages through the system's package manager.
use vstd::prelude::*;
use crate::command::{Command, CommandView};
use crate::plan::{Failure, FailureView, Plan, PlanView, Step, StepView, Unwind};
use crate::text::views;

verus! {

/// The package managers that are supported.
#[derive(Debug, PartialEq, Eq, Clone, Copy)]
pub enum PackageBackend {
    Pacman,
}

/// Builds the plans that install and update packages.
#[derive(Debug)]
pub struct PackageManager {
    pub backend: PackageBackend,
}

/// The step that installs one package without asking for confirmation.
pub open spec fn install_step(package: Seq<char>) -> StepView {
    StepView::run(
        CommandView::new("pacman"@).arg("-S"@).arg("--noconfirm"@).arg(package),
        FailureView::Command,
    )
}

/// One install step for each package, in the order of the list.
pub open spec fn install_plan(packages: Seq<Seq<char>>) -> PlanView {
    PlanView::of(Seq::new(packages.len(), |i: int| install_step(packages[i])))
}

/// The step that brings every installed package up to date.
pub open spec fn update_step() -> StepView {
    StepView::run(CommandView::new("pacman"@).arg("-Syu"@).arg("--noconfirm"@), FailureView::Command)
}

impl PackageManager {
    /// A package manager over the one supported backend.
    pub fn new() -> (r: Self)
        ensures
            r.backend == PackageBackend::Pacman,
    {
        PackageManager { backend: PackageBackend::Pacman }
    }

    /// The plan that installs `packages` one by one, in order. A package
    /// that fails to install ends the plan.
    pub fn install_packages(&self, packages: &[&str]) -> (plan: Plan)
        ensures
            plan@ == install_plan(views(packages@)),
    {
        let mut plan = Plan::new(Unwind::Never);
        let mut i: usize = 0;
        proof {
            assert(install_plan(views(packages@).take(0)).steps =~= Seq::<StepView>::empty());
        }
        while i < packages.len()
            invariant
                i <= packages.len(),
                plan@ == install_plan(views(packages@).take(i as int)),
            decreases packages.len() - i,
        {
            match self.backend {
                PackageBackend::Pacman => {
                    let command = Command::new("pacman").arg("-S").arg("--noconfirm").arg(packages[i]);
                    plan.push(Step::run(command, Failure::Command));
                },
            }
            proof {
                let names = views(packages@);
                assert(install_plan(names.take(i + 1)).steps =~= install_plan(names.take(i as int)).steps.push(
                    install_step(names[i as int]),
                ));
            }
            i += 1;
        }
        proof {
            assert(views(packages@).take(packages.len() as int) =~= views(packages@));
        }
        plan
    }

    /// The plan that installs the packages of a list one by one, in order.
    pub fn install_list(&self, packages: &Vec<String>) -> (plan: Plan)
        ensures
            plan@ == install_plan(views(packages@)),
    {
        let mut plan = Plan::new(Unwind::Never);
        let mut i: usize = 0;
        proof {
            assert(install_plan(views(packages@).take(0)).steps =~= Seq::<StepView>::empty());
        }
        while i < packages.len()
            invariant
                i <= packages.len(),
                plan@ == install_plan(views(packages@).take(i as int)),
            decreases packages.len() - i,
        {
            match self.backend {
                PackageBackend::Pacman => {
                    let command = Command::new("pacman").arg("-S").arg("--noconfirm").arg(packages[i].as_str());
                    plan.push(Step::run(command, Failure::Command));
                },
            }
            proof {
                let names = views(packages@);
                assert(install_plan(names.take(i + 1)).steps =~= install_plan(names.take(i as int)).steps.push(
                    install_step(names[i as int]),
                ));
            }
            i += 1;
        }
        proof {
            assert(views(packages@).take(packages.len() as int) =~= views(packages@));
        }
        plan
    }

    /// The plan that updates the whole system.
    pub fn update_system(&self) -> (plan: Plan)
        ensures
            plan@ == PlanView::of(seq![update_step()]),
    {
        let mut plan = Plan::new(Unwind::Never);
        match self.backend {
            PackageBackend::Pacman => {
                let command = Command::new("pacman").arg("-Syu").arg("--noconfirm");
                plan.push(Step::run(command, Failure::Command));
            },
        }
        proof {
            assert(plan@.steps =~= seq![update_step()]);
        }
        plan
    }
}

} // verus!
