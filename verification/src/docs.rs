//! The documentation of the system.
use vstd::prelude::*;
use crate::plan::{Plan, PlanView, StepView, Unwind};

verus! {

/// Builds the plan that builds the documentation.
#[derive(Debug)]
pub struct DocumentationBuilder {
    pub docs_dir: String,
    pub output_dir: String,
}

impl DocumentationBuilder {
    /// A builder that reads `docs` and writes below the documentation
    /// directory of the system.
    pub fn new() -> (r: Self)
        ensures
            r.docs_dir@ == "docs"@,
            r.output_dir@ == "/usr/share/doc/xbitos"@,
    {
        DocumentationBuilder {
            docs_dir: String::from_str("docs"),
            output_dir: String::from_str("/usr/share/doc/xbitos"),
        }
    }

    /// The plan that builds the user guide, the developer guide and the
    /// installation guide. None of them needs an action, so it is empty.
    pub fn build_docs(&self) -> (plan: Plan)
        ensures
            plan@ == PlanView::empty(Unwind::Never),
    {
        let mut plan = self.build_user_guide();
        plan.extend(self.build_developer_guide());
        plan.extend(self.build_installation_guide());
        proof {
            assert(plan@.steps =~= Seq::<StepView>::empty());
        }
        plan
    }

    /// The plan that builds the user guide.
    pub fn build_user_guide(&self) -> (plan: Plan)
        ensures
            plan@ == PlanView::empty(Unwind::Never),
    {
        Plan::new(Unwind::Never)
    }

    /// The plan that builds the developer guide.
    pub fn build_developer_guide(&self) -> (plan: Plan)
        ensures
            plan@ == PlanView::empty(Unwind::Never),
    {
        Plan::new(Unwind::Never)
    }

    /// The plan that builds the installation guide.
    pub fn build_installation_guide(&self) -> (plan: Plan)
        ensures
            plan@ == PlanView::empty(Unwind::Never),
    {
        Plan::new(Unwind::Never)
    }

    /// The directory that is read and the directory that is written.
    pub fn get_paths(&self) -> (r: (&String, &String))
        ensures
            r.0@ == self.docs_dir@,
            r.1@ == self.output_dir@,
    {
        (&self.docs_dir, &self.output_dir)
    }
}

} // verus!
