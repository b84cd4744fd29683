//! The verification of packages before they are installed.
use vstd::prelude::*;
use crate::error::InstallError;
use crate::plan::{Plan, PlanView, StepView, Unwind};

verus! {

/// Verifies packages.
#[derive(Debug)]
pub struct PackageVerifier {}

/// The setup of package verification: signing keys and checksums need no
/// action of their own, so the plan is empty.
pub open spec fn verifier_plan() -> PlanView {
    PlanView::empty(Unwind::Never)
}

impl PackageVerifier {
    /// A verifier of packages.
    pub fn new() -> (r: Self) {
        PackageVerifier {}
    }

    /// The plan that sets up package verification.
    pub fn setup(&self) -> (plan: Plan)
        ensures
            plan@ == verifier_plan(),
    {
        let mut plan = self.setup_package_signing();
        plan.extend(self.setup_checksum_verification());
        proof {
            assert(plan@.steps =~= Seq::<StepView>::empty());
        }
        plan
    }

    /// The plan that sets up the signing keys of the repository.
    pub fn setup_package_signing(&self) -> (plan: Plan)
        ensures
            plan@ == PlanView::empty(Unwind::Never),
    {
        Plan::new(Unwind::Never)
    }

    /// The plan that sets up the verification of checksums.
    pub fn setup_checksum_verification(&self) -> (plan: Plan)
        ensures
            plan@ == PlanView::empty(Unwind::Never),
    {
        Plan::new(Unwind::Never)
    }

    /// Whether the package at `package_path` passes verification. Every
    /// package passes.
    pub fn verify_package(&self, package_path: &str) -> (r: Result<bool, InstallError>)
        ensures
            r == Ok::<bool, InstallError>(true),
    {
        Ok(true)
    }
}

} // verus!
