//! Plans: ordered lists of steps, each an action together with the rule by
//! which its outcome is judged and the action that undoes it.
use vstd::prelude::*;
use crate::command::{Action, ActionView, Command, Outcome, OutcomeView};
use crate::error::{ErrorView, InstallError};
use crate::text::{lemma_views_add, lemma_views_push, views};

verus! {

/// The exit status with which the unlocking tool reports wrong credentials.
pub const STATUS_BAD_CREDENTIALS: i32 = 2;

/// The class of error that a failed step raises.
#[derive(Debug, PartialEq, Eq)]
pub enum Failure {
    /// A partition, format or mount operation.
    Device,
    /// Any other external command.
    Command,
    /// The boot manager.
    Bootloader,
    /// The command at `index` of a list run inside the target root.
    Chroot { index: usize, command: String },
}

/// A failure class as plain values.
pub enum FailureView {
    Device,
    Command,
    Bootloader,
    Chroot { index: nat, command: Seq<char> },
}

impl View for Failure {
    type V = FailureView;

    open spec fn view(&self) -> FailureView {
        match *self {
            Failure::Device => FailureView::Device,
            Failure::Command => FailureView::Command,
            Failure::Bootloader => FailureView::Bootloader,
            Failure::Chroot { index, command } => FailureView::Chroot { index: index as nat, command: command@ },
        }
    }
}

impl FailureView {
    /// The error raised when the action described by `line` ended with the
    /// non-zero `status` after printing `output`.
    pub open spec fn error(self, line: Seq<char>, status: int, output: Seq<char>) -> ErrorView {
        match self {
            FailureView::Device => ErrorView::DeviceError { command: line, status, output },
            FailureView::Command => ErrorView::CommandFailed { command: line, status, output },
            FailureView::Bootloader => ErrorView::BootloaderError { command: line, status, output },
            FailureView::Chroot { index, command } => ErrorView::ChrootCommandFailed { index, command, status },
        }
    }
}

impl Failure {
    /// Builds the error for an action that ended with a non-zero status.
    pub fn error(&self, line: String, status: i32, output: &str) -> (r: InstallError)
        ensures
            r@ == self@.error(line@, status as int, output@),
    {
        match self {
            Failure::Device => InstallError::DeviceError { command: line, status, output: String::from_str(output) },
            Failure::Command => InstallError::CommandFailed { command: line, status, output: String::from_str(output) },
            Failure::Bootloader => InstallError::BootloaderError {
                command: line,
                status,
                output: String::from_str(output),
            },
            Failure::Chroot { index, command } => InstallError::ChrootCommandFailed {
                index: *index,
                command: command.clone(),
                status,
            },
        }
    }
}

/// How the outcome of a step is judged.
#[derive(Debug, PartialEq, Eq)]
pub enum Expect {
    /// The action has to report success; any other status fails the step.
    Success(Failure),
    /// The exit status is not examined; only a missing program fails the step.
    Any,
    /// The action probes for a condition that forbids going on. Status zero
    /// says that the condition holds, and the step fails with the refusal.
    Absent(InstallError),
    /// The action unlocks `partition` with credentials that the operator
    /// supplies to the tool.
    Unlock { partition: String },
}

/// A judging rule as plain values.
pub enum ExpectView {
    Success(FailureView),
    Any,
    Absent(ErrorView),
    Unlock { partition: Seq<char> },
}

impl View for Expect {
    type V = ExpectView;

    open spec fn view(&self) -> ExpectView {
        match *self {
            Expect::Success(failure) => ExpectView::Success(failure@),
            Expect::Any => ExpectView::Any,
            Expect::Absent(refusal) => ExpectView::Absent(refusal@),
            Expect::Unlock { partition } => ExpectView::Unlock { partition: partition@ },
        }
    }
}

/// One step of a plan.
#[derive(Debug, PartialEq, Eq)]
pub struct Step {
    /// What the host is asked to do.
    pub action: Action,
    /// How its outcome is judged.
    pub expect: Expect,
    /// What releases the resource that the action acquires, if it acquires one.
    pub undo: Option<Action>,
}

/// A step as plain values.
pub struct StepView {
    pub action: ActionView,
    pub expect: ExpectView,
    pub undo: Option<ActionView>,
}

/// The view of an optional action.
pub open spec fn view_action(action: Option<Action>) -> Option<ActionView> {
    match action {
        Some(a) => Some(a@),
        None => None,
    }
}

impl View for Step {
    type V = StepView;

    open spec fn view(&self) -> StepView {
        StepView { action: self.action@, expect: self.expect@, undo: view_action(self.undo) }
    }
}

impl StepView {
    /// A step that acquires nothing.
    pub open spec fn plain(action: ActionView, expect: ExpectView) -> StepView {
        StepView { action, expect, undo: None }
    }

    /// A program that has to succeed.
    pub open spec fn run(command: crate::command::CommandView, failure: FailureView) -> StepView {
        StepView::plain(ActionView::Run(command), ExpectView::Success(failure))
    }

    /// A program whose exit status is not examined.
    pub open spec fn attempt(command: crate::command::CommandView) -> StepView {
        StepView::plain(ActionView::Run(command), ExpectView::Any)
    }

    /// A file operation that has to succeed.
    pub open spec fn file(action: ActionView) -> StepView {
        StepView::plain(action, ExpectView::Success(FailureView::Command))
    }

    /// A directory that has to be there.
    pub open spec fn mkdir(path: Seq<char>) -> StepView {
        StepView::file(ActionView::CreateDir { path })
    }

    /// A file that has to be written.
    pub open spec fn write(path: Seq<char>, content: Seq<char>) -> StepView {
        StepView::file(ActionView::WriteFile { path, content })
    }

    /// Whether an outcome of this step can be judged as wrong credentials.
    pub open spec fn asks_credentials(self) -> bool {
        self.expect is Unlock || (self.expect matches ExpectView::Absent(refusal) && refusal is AuthenticationFailed)
    }

    /// What the outcome of this step means: `None` where the plan goes on,
    /// the error where the step fails.
    pub open spec fn verdict(self, outcome: OutcomeView) -> Option<ErrorView> {
        match outcome {
            OutcomeView::Missing => Some(ErrorView::ToolMissing { program: self.action.tool() }),
            OutcomeView::Exited { status, output } => match self.expect {
                ExpectView::Success(failure) => if status == 0 {
                    None
                } else {
                    Some(failure.error(self.action.describe(), status, output))
                },
                ExpectView::Any => None,
                ExpectView::Absent(refusal) => if status == 0 {
                    Some(refusal)
                } else {
                    None
                },
                ExpectView::Unlock { partition } => if status == 0 {
                    None
                } else if status == STATUS_BAD_CREDENTIALS {
                    Some(ErrorView::AuthenticationFailed { partition })
                } else {
                    Some(ErrorView::DeviceError { command: self.action.describe(), status, output })
                },
            },
        }
    }
}

/// No step of the list asks for credentials.
pub open spec fn credential_free(steps: Seq<StepView>) -> bool {
    forall|i: int| 0 <= i < steps.len() ==> !(#[trigger] steps[i]).asks_credentials()
}

/// Lists that ask for no credentials ask for none when put together.
pub proof fn lemma_credential_free_add(left: Seq<StepView>, right: Seq<StepView>)
    requires
        credential_free(left),
        credential_free(right),
    ensures
        credential_free(left + right),
{
    assert forall|i: int| 0 <= i < (left + right).len() implies !(#[trigger] (left + right)[i]).asks_credentials() by {
        if i < left.len() {
            assert((left + right)[i] == left[i]);
        } else {
            assert((left + right)[i] == right[i - left.len()]);
        }
    }
}

/// Only a step that asks for credentials can fail with
/// `AuthenticationFailed`.
pub proof fn lemma_authentication_needs_credentials(step: StepView, outcome: OutcomeView)
    requires
        step.verdict(outcome) matches Some(error) && error is AuthenticationFailed,
    ensures
        step.asks_credentials(),
{
}

/// The view of an optional error.
pub open spec fn view_error(error: Option<InstallError>) -> Option<ErrorView> {
    match error {
        Some(e) => Some(e@),
        None => None,
    }
}

impl Step {
    /// A step that acquires nothing.
    pub fn plain(action: Action, expect: Expect) -> (r: Step)
        ensures
            r@ == StepView::plain(action@, expect@),
    {
        Step { action, expect, undo: None }
    }

    /// A program that has to succeed.
    pub fn run(command: Command, failure: Failure) -> (r: Step)
        ensures
            r@ == StepView::run(command@, failure@),
    {
        Step { action: Action::Run(command), expect: Expect::Success(failure), undo: None }
    }

    /// A program whose exit status is not examined.
    pub fn attempt(command: Command) -> (r: Step)
        ensures
            r@ == StepView::attempt(command@),
    {
        Step { action: Action::Run(command), expect: Expect::Any, undo: None }
    }

    /// A file operation that has to succeed.
    pub fn file(action: Action) -> (r: Step)
        ensures
            r@ == StepView::file(action@),
    {
        Step { action, expect: Expect::Success(Failure::Command), undo: None }
    }

    /// A directory that has to be there.
    pub fn mkdir(path: &str) -> (r: Step)
        ensures
            r@ == StepView::mkdir(path@),
    {
        Step::file(Action::create_dir(path))
    }

    /// A file that has to be written.
    pub fn write(path: &str, content: &str) -> (r: Step)
        ensures
            r@ == StepView::write(path@, content@),
    {
        Step::file(Action::write_file(path, content))
    }

    /// Judges the outcome of this step.
    pub fn verdict(&self, outcome: &Outcome) -> (r: Option<InstallError>)
        ensures
            view_error(r) == self@.verdict(outcome@),
    {
        match outcome {
            Outcome::Missing => Some(InstallError::ToolMissing { program: self.action.tool() }),
            Outcome::Exited { status, output } => match &self.expect {
                Expect::Success(failure) => {
                    if *status == 0 {
                        None
                    } else {
                        Some(failure.error(self.action.describe(), *status, output.as_str()))
                    }
                },
                Expect::Any => None,
                Expect::Absent(refusal) => {
                    if *status == 0 {
                        Some(refusal.clone())
                    } else {
                        None
                    }
                },
                Expect::Unlock { partition } => {
                    if *status == 0 {
                        None
                    } else if *status == STATUS_BAD_CREDENTIALS {
                        Some(InstallError::AuthenticationFailed { partition: partition.clone() })
                    } else {
                        Some(InstallError::DeviceError {
                            command: self.action.describe(),
                            status: *status,
                            output: output.clone(),
                        })
                    }
                },
            },
        }
    }
}

/// When the undo actions of a plan's completed steps are performed.
#[derive(Debug, PartialEq, Eq, Clone, Copy)]
pub enum Unwind {
    /// Never: what the plan acquires stays.
    Never,
    /// Only when a step fails: a plan that succeeds keeps what it acquired.
    OnFailure,
    /// On every way out, after the last step or after the step that failed.
    Always,
}

/// An ordered list of steps.
#[derive(Debug, PartialEq, Eq)]
pub struct Plan {
    /// The steps, in the order in which they are performed.
    pub steps: Vec<Step>,
    /// When the undo actions are performed.
    pub unwind: Unwind,
    /// A probe for the condition that the plan establishes. Status zero says
    /// that it already holds, and then no step is performed.
    pub check: Option<Action>,
}

/// A plan as plain values.
pub struct PlanView {
    pub steps: Seq<StepView>,
    pub unwind: Unwind,
    pub check: Option<ActionView>,
}

impl View for Plan {
    type V = PlanView;

    open spec fn view(&self) -> PlanView {
        PlanView { steps: views(self.steps@), unwind: self.unwind, check: view_action(self.check) }
    }
}

impl PlanView {
    /// The plan without steps.
    pub open spec fn empty(unwind: Unwind) -> PlanView {
        PlanView { steps: Seq::empty(), unwind, check: None }
    }

    /// The plan made of `steps`, which keeps nothing to undo.
    pub open spec fn of(steps: Seq<StepView>) -> PlanView {
        PlanView { steps, unwind: Unwind::Never, check: None }
    }

    /// With one more step at the end.
    pub open spec fn push(self, step: StepView) -> PlanView {
        PlanView { steps: self.steps.push(step), ..self }
    }

    /// With the steps of `other` at the end.
    pub open spec fn extend(self, other: PlanView) -> PlanView {
        PlanView { steps: self.steps + other.steps, ..self }
    }

    /// With `probe` as the check for the plan's target condition.
    pub open spec fn checked_by(self, probe: ActionView) -> PlanView {
        PlanView { check: Some(probe), ..self }
    }

    /// The actions of the steps, in order.
    pub open spec fn actions(self) -> Seq<ActionView> {
        Seq::new(self.steps.len(), |i: int| self.steps[i].action)
    }
}

impl Plan {
    /// A plan without steps.
    pub fn new(unwind: Unwind) -> (r: Plan)
        ensures
            r@ == PlanView::empty(unwind),
    {
        let r = Plan { steps: Vec::new(), unwind, check: None };
        proof {
            assert(views(r.steps@) =~= Seq::<StepView>::empty());
        }
        r
    }

    /// The number of steps.
    pub fn len(&self) -> (r: usize)
        ensures
            r == self@.steps.len(),
    {
        self.steps.len()
    }

    /// Adds a step at the end.
    pub fn push(&mut self, step: Step)
        ensures
            final(self)@ == old(self)@.push(step@),
    {
        let ghost before = self.steps@;
        self.steps.push(step);
        proof {
            lemma_views_push(before, step);
        }
    }

    /// Adds the steps of `other` at the end, in their order. The unwind rule
    /// and the check of `other` are dropped.
    pub fn extend(&mut self, other: Plan)
        ensures
            final(self)@ == old(self)@.extend(other@),
    {
        let ghost before = self.steps@;
        let mut other = other;
        let ghost added = other.steps@;
        self.steps.append(&mut other.steps);
        proof {
            lemma_views_add(before, added);
        }
    }

    /// Sets the probe for the plan's target condition.
    pub fn set_check(&mut self, probe: Action)
        ensures
            final(self)@ == old(self)@.checked_by(probe@),
    {
        self.check = Some(probe);
    }
}

} // verus!
