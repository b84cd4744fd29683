//! The machine that runs a plan. It performs nothing itself: it says which
//! action is due, takes the outcome that the host reports, and decides what
//! is due next. Steps are performed in order, the first failing step ends the
//! forward run, and the undo actions of the completed steps are then issued
//! in reverse order, each once.
use vstd::prelude::*;
use crate::command::{Action, ActionView, Outcome, OutcomeView};
use crate::error::{ErrorView, InstallError};
use crate::plan::{view_error, Plan, PlanView, StepView, Unwind};
use crate::text::views;

verus! {

/// Where a run stands.
#[derive(Debug, PartialEq, Eq, Clone, Copy)]
pub enum Phase {
    /// The plan's check is due.
    Checking,
    /// The step at the cursor is due.
    Forward,
    /// The undo action of the step just before the cursor is due.
    Unwinding,
    /// Nothing is due any more.
    Done,
}

/// The state of a run as plain values.
pub struct RunnerView {
    pub plan: PlanView,
    pub phase: Phase,
    pub cursor: nat,
    /// The number of steps whose action was performed.
    pub performed: nat,
    /// The error of the step that failed.
    pub failure: Option<ErrorView>,
    /// The check found the target condition in place, so no step was performed.
    pub skipped: bool,
    /// At least one undo action was performed.
    pub cleaned: bool,
    /// An undo action did not report success.
    pub cleanup_failed: bool,
}

/// The largest `j` in `1..=n` such that step `j - 1` has an undo action, or
/// zero where no step before `n` has one.
pub open spec fn last_undo(steps: Seq<StepView>, n: nat) -> nat
    decreases n,
{
    if n == 0 {
        0
    } else if n <= steps.len() && steps[n - 1].undo is Some {
        n
    } else {
        last_undo(steps, (n - 1) as nat)
    }
}

/// The undo actions of the first `n` steps, the last step's first.
pub open spec fn undos(steps: Seq<StepView>, n: nat) -> Seq<ActionView>
    decreases n,
{
    if n == 0 {
        Seq::empty()
    } else if n <= steps.len() && steps[n - 1].undo is Some {
        seq![steps[n - 1].undo->0] + undos(steps, (n - 1) as nat)
    } else {
        undos(steps, (n - 1) as nat)
    }
}

/// Whether some outcome of `step` is judged as `error`.
pub open spec fn raised_by(step: StepView, error: ErrorView) -> bool {
    exists|outcome: OutcomeView| #[trigger] step.verdict(outcome) == Some(error)
}

impl RunnerView {
    /// The run goes on to release what the first `n` steps acquired.
    pub open spec fn unwind_from(self, n: nat) -> RunnerView {
        let j = last_undo(self.plan.steps, n);
        if j == 0 {
            RunnerView { phase: Phase::Done, cursor: 0, ..self }
        } else {
            RunnerView { phase: Phase::Unwinding, cursor: j, ..self }
        }
    }

    /// The run starts on the steps.
    pub open spec fn forward(self) -> RunnerView {
        if self.plan.steps.len() == 0 {
            RunnerView { phase: Phase::Done, cursor: 0, ..self }
        } else {
            RunnerView { phase: Phase::Forward, cursor: 0, ..self }
        }
    }

    /// The state in which a run of `plan` starts.
    pub open spec fn initial(plan: PlanView) -> RunnerView {
        let fresh = RunnerView {
            plan,
            phase: Phase::Checking,
            cursor: 0,
            performed: 0,
            failure: None,
            skipped: false,
            cleaned: false,
            cleanup_failed: false,
        };
        if plan.check is Some {
            fresh
        } else {
            fresh.forward()
        }
    }

    /// The action that is due, or `None` where the run is over.
    pub open spec fn pending(self) -> Option<ActionView> {
        match self.phase {
            Phase::Checking => self.plan.check,
            Phase::Forward => if self.cursor < self.plan.steps.len() {
                Some(self.plan.steps[self.cursor as int].action)
            } else {
                None
            },
            Phase::Unwinding => if 1 <= self.cursor <= self.plan.steps.len() {
                self.plan.steps[self.cursor - 1].undo
            } else {
                None
            },
            Phase::Done => None,
        }
    }

    /// The state after the host reported `outcome` for the pending action.
    pub open spec fn step(self, outcome: OutcomeView) -> RunnerView {
        match self.phase {
            Phase::Checking => if outcome.succeeded() {
                RunnerView { phase: Phase::Done, skipped: true, ..self }
            } else {
                self.forward()
            },
            Phase::Forward => if self.cursor < self.plan.steps.len() {
                let done = RunnerView { performed: self.cursor + 1, ..self };
                match self.plan.steps[self.cursor as int].verdict(outcome) {
                    None => if self.cursor + 1 < self.plan.steps.len() {
                        RunnerView { cursor: self.cursor + 1, ..done }
                    } else if self.plan.unwind == Unwind::Always {
                        done.unwind_from(self.cursor + 1)
                    } else {
                        RunnerView { phase: Phase::Done, cursor: 0, ..done }
                    },
                    Some(error) => {
                        let failed = RunnerView { failure: Some(error), ..done };
                        if self.plan.unwind == Unwind::Never {
                            RunnerView { phase: Phase::Done, cursor: 0, ..failed }
                        } else {
                            failed.unwind_from(self.cursor)
                        }
                    },
                }
            } else {
                RunnerView { phase: Phase::Done, cursor: 0, ..self }
            },
            Phase::Unwinding => if self.cursor >= 1 {
                RunnerView {
                    cleaned: true,
                    cleanup_failed: self.cleanup_failed || !outcome.succeeded(),
                    ..self
                }.unwind_from((self.cursor - 1) as nat)
            } else {
                RunnerView { phase: Phase::Done, cursor: 0, ..self }
            },
            Phase::Done => self,
        }
    }

    /// The state after the host reported `outcomes`, one after the other.
    pub open spec fn replay(self, outcomes: Seq<OutcomeView>) -> RunnerView
        decreases outcomes.len(),
    {
        if outcomes.len() == 0 {
            self
        } else {
            self.replay(outcomes.drop_last()).step(outcomes.last())
        }
    }

    /// The actions that were due, and so performed, while the host reported
    /// `outcomes`, in the order in which they were performed.
    pub open spec fn journal(self, outcomes: Seq<OutcomeView>) -> Seq<ActionView>
        decreases outcomes.len(),
    {
        if outcomes.len() == 0 {
            Seq::empty()
        } else {
            let before = self.replay(outcomes.drop_last());
            match before.pending() {
                Some(action) => self.journal(outcomes.drop_last()).push(action),
                None => self.journal(outcomes.drop_last()),
            }
        }
    }

    /// The run is over.
    pub open spec fn finished(self) -> bool {
        self.phase == Phase::Done
    }

    /// The number of steps whose resources are held: the steps that were
    /// performed and did not fail.
    pub open spec fn held(self) -> nat {
        if self.failure is Some && self.performed >= 1 {
            (self.performed - 1) as nat
        } else {
            self.performed
        }
    }

    /// Whether this run releases what it holds when it ends.
    pub open spec fn releases(self) -> bool {
        self.plan.unwind == Unwind::Always || (self.plan.unwind == Unwind::OnFailure && self.failure is Some)
    }

    /// The check, if the plan has one.
    pub open spec fn check_part(self) -> Seq<ActionView> {
        match self.plan.check {
            Some(probe) => seq![probe],
            None => Seq::empty(),
        }
    }

    /// Every action of a finished run: the check, the steps up to and
    /// including the one that failed, and the undo actions of the steps that
    /// completed, in reverse order.
    pub open spec fn whole(self) -> Seq<ActionView> {
        if self.skipped {
            self.check_part()
        } else if self.releases() {
            self.check_part() + self.plan.actions().take(self.performed as int) + undos(
                self.plan.steps,
                self.held(),
            )
        } else {
            self.check_part() + self.plan.actions().take(self.performed as int)
        }
    }

    /// What holds of every state that a run can reach.
    pub open spec fn inv(self) -> bool {
        &&& self.performed <= self.plan.steps.len()
        &&& self.phase == Phase::Checking ==> self.plan.check is Some && self.performed == 0 && self.failure is None
            && !self.skipped
        &&& self.phase == Phase::Forward ==> self.cursor < self.plan.steps.len() && self.performed == self.cursor
            && self.failure is None && !self.skipped
        &&& self.phase == Phase::Unwinding ==> 1 <= self.cursor <= self.held() && self.plan.steps[self.cursor
            - 1].undo is Some && self.releases() && !self.skipped && self.finished_forward()
        &&& self.phase == Phase::Done && !self.skipped ==> self.finished_forward()
        &&& self.skipped ==> self.phase == Phase::Done && self.plan.check is Some && self.performed == 0
            && self.failure is None
        &&& self.failure is Some ==> self.performed >= 1 && raised_by(
            self.plan.steps[self.performed - 1],
            self.failure->0,
        )
    }

    /// The forward run is over: a step failed, or every step was performed.
    pub open spec fn finished_forward(self) -> bool {
        self.failure is Some || self.performed == self.plan.steps.len()
    }

    /// An upper bound on the number of outcomes that the run still takes.
    pub open spec fn fuel(self) -> nat {
        match self.phase {
            Phase::Checking => 2 * self.plan.steps.len() + 1,
            Phase::Forward => (2 * self.plan.steps.len() - self.cursor) as nat,
            Phase::Unwinding => self.cursor,
            Phase::Done => 0,
        }
    }
}

/// No step at or after the last one with an undo action, below `n`, has one.
pub proof fn lemma_last_undo(steps: Seq<StepView>, n: nat)
    requires
        n <= steps.len(),
    ensures
        last_undo(steps, n) <= n,
        last_undo(steps, n) >= 1 ==> steps[last_undo(steps, n) - 1].undo is Some,
        undos(steps, n) == undos(steps, last_undo(steps, n)),
    decreases n,
{
    if n == 0 {
    } else if steps[n - 1].undo is Some {
    } else {
        lemma_last_undo(steps, (n - 1) as nat);
    }
}

/// Steps that acquire nothing leave nothing to undo: in front of other
/// steps they add nothing to the undo actions of those.
pub proof fn lemma_undos_after_prefix(prefix: Seq<StepView>, rest: Seq<StepView>, n: nat)
    requires
        forall|i: int| 0 <= i < prefix.len() ==> (#[trigger] prefix[i]).undo is None,
        n <= prefix.len() + rest.len(),
    ensures
        n <= prefix.len() ==> undos(prefix + rest, n) == Seq::<ActionView>::empty(),
        n >= prefix.len() ==> undos(prefix + rest, n) == undos(rest, (n - prefix.len()) as nat),
    decreases n,
{
    let steps = prefix + rest;
    if n == 0 {
    } else {
        lemma_undos_after_prefix(prefix, rest, (n - 1) as nat);
        if n <= prefix.len() {
            assert(steps[n - 1] == prefix[n - 1]);
        } else {
            assert(steps[n - 1] == rest[n - 1 - prefix.len()]);
        }
    }
}

/// A run starts in a state that satisfies the invariant.
pub proof fn lemma_initial_inv(plan: PlanView)
    ensures
        RunnerView::initial(plan).inv(),
        RunnerView::initial(plan).plan == plan,
{
}

/// Every outcome leads from a state that satisfies the invariant to another,
/// over the same plan, and uses up fuel unless the run is over.
pub proof fn lemma_step_inv(state: RunnerView, outcome: OutcomeView)
    requires
        state.inv(),
    ensures
        state.step(outcome).inv(),
        state.step(outcome).plan == state.plan,
        !state.finished() ==> state.step(outcome).fuel() < state.fuel(),
        !state.finished() ==> state.pending() is Some,
        state.finished() ==> state.step(outcome) == state,
{
    let steps = state.plan.steps;
    match state.phase {
        Phase::Checking => {},
        Phase::Forward => {
            lemma_last_undo(steps, state.cursor);
            lemma_last_undo(steps, state.cursor + 1);
        },
        Phase::Unwinding => {
            lemma_last_undo(steps, (state.cursor - 1) as nat);
        },
        Phase::Done => {},
    }
}

/// Every state that a run reaches satisfies the invariant.
pub proof fn lemma_replay_inv(plan: PlanView, outcomes: Seq<OutcomeView>)
    ensures
        RunnerView::initial(plan).replay(outcomes).inv(),
        RunnerView::initial(plan).replay(outcomes).plan == plan,
    decreases outcomes.len(),
{
    if outcomes.len() == 0 {
        lemma_initial_inv(plan);
    } else {
        lemma_replay_inv(plan, outcomes.drop_last());
        lemma_step_inv(RunnerView::initial(plan).replay(outcomes.drop_last()), outcomes.last());
    }
}

/// The actions performed so far, followed by the undo actions that are still
/// due, are the whole of the run as far as it has come.
pub open spec fn journal_matches(state: RunnerView, journal: Seq<ActionView>) -> bool {
    match state.phase {
        Phase::Checking => journal == Seq::<ActionView>::empty(),
        Phase::Forward => journal == state.check_part() + state.plan.actions().take(state.cursor as int),
        Phase::Unwinding => journal + undos(state.plan.steps, state.cursor) == state.whole(),
        Phase::Done => journal == state.whole(),
    }
}

proof fn lemma_step_journal(state: RunnerView, outcome: OutcomeView, journal: Seq<ActionView>)
    requires
        state.inv(),
        journal_matches(state, journal),
    ensures
        journal_matches(
            state.step(outcome),
            match state.pending() {
                Some(action) => journal.push(action),
                None => journal,
            },
        ),
{
    let steps = state.plan.steps;
    let actions = state.plan.actions();
    let next = state.step(outcome);
    lemma_step_inv(state, outcome);
    match state.phase {
        Phase::Checking => {
            let probe = state.plan.check->0;
            assert(Seq::<ActionView>::empty().push(probe) =~= seq![probe]);
            assert(actions.take(0) =~= Seq::<ActionView>::empty());
            assert(seq![probe] + Seq::<ActionView>::empty() =~= seq![probe]);
            if !outcome.succeeded() && steps.len() == 0 {
                assert(undos(steps, 0) =~= Seq::<ActionView>::empty());
            }
        },
        Phase::Forward => {
            let i = state.cursor;
            let grown = journal.push(actions[i as int]);
            assert(actions.take((i + 1) as int) =~= actions.take(i as int).push(actions[i as int]));
            assert(grown =~= state.check_part() + actions.take((i + 1) as int));
            lemma_last_undo(steps, i);
            lemma_last_undo(steps, i + 1);
            if next.phase == Phase::Done && next.releases() {
                assert(undos(steps, next.held()) =~= Seq::<ActionView>::empty());
                assert(grown + Seq::<ActionView>::empty() =~= grown);
            }
        },
        Phase::Unwinding => {
            let j = state.cursor;
            let undo = steps[j - 1].undo->0;
            lemma_last_undo(steps, (j - 1) as nat);
            assert(undos(steps, j) == seq![undo] + undos(steps, (j - 1) as nat));
            assert(journal.push(undo) + undos(steps, (j - 1) as nat) =~= journal + undos(steps, j));
            if next.phase == Phase::Done {
                assert(undos(steps, next.cursor) =~= Seq::<ActionView>::empty());
                assert(journal.push(undo) + Seq::<ActionView>::empty() =~= journal.push(undo));
            }
        },
        Phase::Done => {},
    }
}

/// While a run lasts, the actions performed are the check, then the steps in
/// order, then the undo actions in reverse order.
pub proof fn lemma_journal_matches(plan: PlanView, outcomes: Seq<OutcomeView>)
    ensures
        journal_matches(RunnerView::initial(plan).replay(outcomes), RunnerView::initial(plan).journal(outcomes)),
    decreases outcomes.len(),
{
    let start = RunnerView::initial(plan);
    if outcomes.len() == 0 {
        assert(plan.actions().take(0) =~= Seq::<ActionView>::empty());
        assert(start.check_part() + Seq::<ActionView>::empty() =~= start.check_part());
        if start.phase == Phase::Done {
            assert(undos(plan.steps, 0) =~= Seq::<ActionView>::empty());
        }
    } else {
        lemma_journal_matches(plan, outcomes.drop_last());
        lemma_replay_inv(plan, outcomes.drop_last());
        lemma_step_journal(start.replay(outcomes.drop_last()), outcomes.last(), start.journal(outcomes.drop_last()));
    }
}

/// Of a run that is over, whatever the host reported: the actions performed
/// are the check, the steps in order up to and including the one that failed
/// and no step after it, and then, where the plan releases what it holds, the
/// undo action of every completed step, once each, the last step's first.
pub proof fn lemma_finished_run(plan: PlanView, outcomes: Seq<OutcomeView>)
    requires
        RunnerView::initial(plan).replay(outcomes).finished(),
    ensures
        ({
            let end = RunnerView::initial(plan).replay(outcomes);
            &&& RunnerView::initial(plan).journal(outcomes) == end.whole()
            &&& end.plan == plan
            &&& end.performed <= plan.steps.len()
            &&& end.failure is None && !end.skipped ==> end.performed == plan.steps.len()
            &&& end.failure is Some ==> 1 <= end.performed && raised_by(
                plan.steps[end.performed - 1],
                end.failure->0,
            )
        }),
{
    lemma_journal_matches(plan, outcomes);
    lemma_replay_inv(plan, outcomes);
}

/// A run of a plan.
#[derive(Debug)]
pub struct Runner {
    plan: Plan,
    phase: Phase,
    cursor: usize,
    performed: usize,
    failure: Option<InstallError>,
    skipped: bool,
    cleaned: bool,
    cleanup_failed: bool,
}

impl View for Runner {
    type V = RunnerView;

    closed spec fn view(&self) -> RunnerView {
        RunnerView {
            plan: self.plan@,
            phase: self.phase,
            cursor: self.cursor as nat,
            performed: self.performed as nat,
            failure: view_error(self.failure),
            skipped: self.skipped,
            cleaned: self.cleaned,
            cleanup_failed: self.cleanup_failed,
        }
    }
}

impl Runner {
    /// Starts a run of `plan`. Nothing has been performed yet.
    pub fn start(plan: Plan) -> (r: Runner)
        ensures
            r@ == RunnerView::initial(plan@),
    {
        let phase = if plan.check.is_some() {
            Phase::Checking
        } else if plan.steps.len() == 0 {
            Phase::Done
        } else {
            Phase::Forward
        };
        Runner {
            plan,
            phase,
            cursor: 0,
            performed: 0,
            failure: None,
            skipped: false,
            cleaned: false,
            cleanup_failed: false,
        }
    }

    /// The action that the host has to perform now, or `None` where the run
    /// is over.
    pub fn next_action(&self) -> (r: Option<&Action>)
        ensures
            match r {
                Some(action) => self@.pending() == Some(action@),
                None => self@.pending() is None,
            },
    {
        match self.phase {
            Phase::Checking => self.plan.check.as_ref(),
            Phase::Forward => {
                if self.cursor < self.plan.steps.len() {
                    Some(&self.plan.steps[self.cursor].action)
                } else {
                    None
                }
            },
            Phase::Unwinding => {
                if 1 <= self.cursor && self.cursor <= self.plan.steps.len() {
                    self.plan.steps[self.cursor - 1].undo.as_ref()
                } else {
                    None
                }
            },
            Phase::Done => None,
        }
    }

    fn find_undo(&self, n: usize) -> (j: usize)
        ensures
            j == last_undo(self.plan@.steps, n as nat),
    {
        let mut j: usize = n;
        while j > 0
            invariant
                j <= n,
                last_undo(self.plan@.steps, j as nat) == last_undo(self.plan@.steps, n as nat),
            decreases j,
        {
            if j <= self.plan.steps.len() && self.plan.steps[j - 1].undo.is_some() {
                return j;
            }
            j -= 1;
        }
        j
    }

    fn unwind_from(&mut self, n: usize)
        ensures
            final(self)@ == old(self)@.unwind_from(n as nat),
    {
        let j = self.find_undo(n);
        if j == 0 {
            self.phase = Phase::Done;
            self.cursor = 0;
        } else {
            self.phase = Phase::Unwinding;
            self.cursor = j;
        }
    }

    /// Takes the outcome that the host reports for the action that was due,
    /// and moves on.
    pub fn record(&mut self, outcome: &Outcome)
        ensures
            final(self)@ == old(self)@.step(outcome@),
    {
        match self.phase {
            Phase::Checking => {
                if outcome.succeeded() {
                    self.phase = Phase::Done;
                    self.skipped = true;
                } else if self.plan.steps.len() == 0 {
                    self.phase = Phase::Done;
                    self.cursor = 0;
                } else {
                    self.phase = Phase::Forward;
                    self.cursor = 0;
                }
            },
            Phase::Forward => {
                if self.cursor < self.plan.steps.len() {
                    let at = self.cursor;
                    let verdict = self.plan.steps[at].verdict(outcome);
                    self.performed = at + 1;
                    match verdict {
                        None => {
                            if at + 1 < self.plan.steps.len() {
                                self.cursor = at + 1;
                            } else {
                                match self.plan.unwind {
                                    Unwind::Always => {
                                        self.unwind_from(at + 1);
                                    },
                                    _ => {
                                        self.phase = Phase::Done;
                                        self.cursor = 0;
                                    },
                                }
                            }
                        },
                        Some(error) => {
                            self.failure = Some(error);
                            match self.plan.unwind {
                                Unwind::Never => {
                                    self.phase = Phase::Done;
                                    self.cursor = 0;
                                },
                                _ => {
                                    self.unwind_from(at);
                                },
                            }
                        },
                    }
                } else {
                    self.phase = Phase::Done;
                    self.cursor = 0;
                }
            },
            Phase::Unwinding => {
                if self.cursor >= 1 {
                    let below = self.cursor - 1;
                    self.cleaned = true;
                    if !outcome.succeeded() {
                        self.cleanup_failed = true;
                    }
                    self.unwind_from(below);
                } else {
                    self.phase = Phase::Done;
                    self.cursor = 0;
                }
            },
            Phase::Done => {},
        }
    }

    /// Whether the run is over.
    pub fn finished(&self) -> (r: bool)
        ensures
            r == self@.finished(),
    {
        match self.phase {
            Phase::Done => true,
            _ => false,
        }
    }

    /// The phase of the run.
    pub fn phase(&self) -> (r: Phase)
        ensures
            r == self@.phase,
    {
        self.phase
    }

    /// The error of the step that failed, if one did.
    pub fn failure(&self) -> (r: Option<&InstallError>)
        ensures
            match r {
                Some(error) => self@.failure == Some(error@),
                None => self@.failure is None,
            },
    {
        self.failure.as_ref()
    }

    /// The number of steps whose action was performed.
    pub fn performed(&self) -> (r: usize)
        ensures
            r == self@.performed,
    {
        self.performed
    }

    /// Whether the check found the plan's target condition in place.
    pub fn skipped(&self) -> (r: bool)
        ensures
            r == self@.skipped,
    {
        self.skipped
    }

    /// Whether at least one undo action was performed.
    pub fn cleaned(&self) -> (r: bool)
        ensures
            r == self@.cleaned,
    {
        self.cleaned
    }

    /// Whether an undo action did not report success.
    pub fn cleanup_failed(&self) -> (r: bool)
        ensures
            r == self@.cleanup_failed,
    {
        self.cleanup_failed
    }

    /// The plan that is run.
    pub fn plan(&self) -> (r: &Plan)
        ensures
            r@ == self@.plan,
    {
        &self.plan
    }

    /// Runs `plan` to its end: hands each action that is due to `execute`
    /// and takes what it returns as the outcome. The result is the state
    /// that the returned outcomes lead to, and the run is over.
    pub fn run_with<F: Fn(&Action) -> Outcome>(plan: Plan, execute: &F) -> (r: Runner)
        requires
            forall|action: &Action| execute.requires((action,)),
        ensures
            r@.finished(),
            exists|actions: Seq<Action>, results: Seq<Outcome>|
                {
                    &&& r@ == RunnerView::initial(plan@).replay(views(results))
                    &&& views(actions) == RunnerView::initial(plan@).journal(views(results))
                    &&& actions.len() == results.len()
                    &&& forall|i: int|
                        0 <= i < actions.len() ==> execute.ensures((&#[trigger] actions[i],), results[i])
                },
    {
        let ghost start = RunnerView::initial(plan@);
        let mut runner = Runner::start(plan);
        let ghost mut actions: Seq<Action> = Seq::empty();
        let ghost mut results: Seq<Outcome> = Seq::empty();
        proof {
            lemma_initial_inv(start.plan);
            assert(views(results) =~= Seq::<OutcomeView>::empty());
            assert(views(actions) =~= Seq::<ActionView>::empty());
        }
        loop
            invariant
                forall|action: &Action| execute.requires((action,)),
                runner@.inv(),
                runner@ == start.replay(views(results)),
                views(actions) == start.journal(views(results)),
                actions.len() == results.len(),
                forall|i: int| 0 <= i < actions.len() ==> execute.ensures((&#[trigger] actions[i],), results[i]),
            ensures
                runner@.finished(),
            decreases runner@.fuel(),
        {
            let ghost before = runner@;
            match runner.next_action() {
                None => {
                    proof {
                        lemma_step_inv(before, OutcomeView::Missing);
                    }
                    break ;
                },
                Some(action) => {
                    let outcome = execute(action);
                    let ghost performed = *action;
                    runner.record(&outcome);
                    proof {
                        lemma_step_inv(before, outcome@);
                        let grown = results.push(outcome);
                        crate::text::lemma_views_push(results, outcome);
                        crate::text::lemma_views_push(actions, performed);
                        assert(views(grown).drop_last() =~= views(results));
                        actions = actions.push(performed);
                        results = grown;
                    }
                },
            }
        }
        runner
    }
}

} // verus!
