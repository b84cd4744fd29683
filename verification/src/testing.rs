//! The self-tests of an installed system.
use vstd::prelude::*;
use crate::plan::{Plan, PlanView, StepView, Unwind};

verus! {

/// Builds the plan that runs the self-tests.
#[derive(Debug)]
pub struct TestRunner {
    pub test_dir: String,
}

impl TestRunner {
    /// A runner over the test directory of the system.
    pub fn new() -> (r: Self)
        ensures
            r.test_dir@ == "/var/lib/xbitos/tests"@,
    {
        TestRunner { test_dir: String::from_str("/var/lib/xbitos/tests") }
    }

    /// The plan that runs the system tests, the package tests and the
    /// security tests, in this order. No suite holds a test yet, so it is
    /// empty.
    pub fn run_all_tests(&self) -> (plan: Plan)
        ensures
            plan@ == PlanView::empty(Unwind::Never),
    {
        let mut plan = self.run_system_tests();
        plan.extend(self.run_package_tests());
        plan.extend(self.run_security_tests());
        proof {
            assert(plan@.steps =~= Seq::<StepView>::empty());
        }
        plan
    }

    /// The plan that runs the system tests.
    pub fn run_system_tests(&self) -> (plan: Plan)
        ensures
            plan@ == PlanView::empty(Unwind::Never),
    {
        Plan::new(Unwind::Never)
    }

    /// The plan that runs the package tests.
    pub fn run_package_tests(&self) -> (plan: Plan)
        ensures
            plan@ == PlanView::empty(Unwind::Never),
    {
        Plan::new(Unwind::Never)
    }

    /// The plan that runs the security tests.
    pub fn run_security_tests(&self) -> (plan: Plan)
        ensures
            plan@ == PlanView::empty(Unwind::Never),
    {
        Plan::new(Unwind::Never)
    }
}

} // verus!
