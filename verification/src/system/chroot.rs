//! Running commands inside the target root. The host's virtual filesystems
//! are bound into the target before the first command and unbound on every
//! way out.
use vstd::prelude::*;
use crate::command::{Action, ActionView, Command, CommandView, OutcomeView};
use crate::error::ErrorView;
use crate::plan::{
    credential_free,
    Expect,
    ExpectView,
    Failure,
    FailureView,
    Plan,
    PlanView,
    Step,
    StepView,
    Unwind,
};
use crate::runner::{lemma_finished_run, lemma_replay_inv, raised_by, undos, RunnerView};
use crate::system::filesystem::umount_command;
use crate::text::{chain, view_opt, views};

verus! {

/// The filesystems of the host that are bound into the target root.
pub const VIRTUAL_FILESYSTEMS: [&'static str; 3] = ["/proc", "/sys", "/dev"];

/// A command line for the shell inside the target root, with the text that
/// is fed to it on standard input. What must stay out of diagnostics goes
/// into the input, never into the line.
#[derive(Debug, PartialEq, Eq)]
pub struct ChrootCommand {
    pub line: String,
    pub stdin: Option<String>,
}

/// A command for the target root as plain values.
pub struct ChrootCommandView {
    pub line: Seq<char>,
    pub stdin: Option<Seq<char>>,
}

impl View for ChrootCommand {
    type V = ChrootCommandView;

    open spec fn view(&self) -> ChrootCommandView {
        ChrootCommandView { line: self.line@, stdin: view_opt(self.stdin) }
    }
}

impl ChrootCommand {
    /// A command without input.
    pub fn new(line: &str) -> (r: ChrootCommand)
        ensures
            r@ == (ChrootCommandView { line: line@, stdin: None }),
    {
        ChrootCommand { line: String::from_str(line), stdin: None }
    }

    /// A command that reads `input`.
    pub fn with_input(line: &str, input: &str) -> (r: ChrootCommand)
        ensures
            r@ == (ChrootCommandView { line: line@, stdin: Some(input@) }),
    {
        ChrootCommand { line: String::from_str(line), stdin: Some(String::from_str(input)) }
    }
}

/// The names of the bound filesystems, as plain text.
pub open spec fn virtual_filesystems() -> Seq<Seq<char>> {
    views(VIRTUAL_FILESYSTEMS@)
}

/// The step that binds the host's `filesystem` into the target root;
/// unmounting it there undoes the step.
pub open spec fn bind_step(mount_point: Seq<char>, filesystem: Seq<char>) -> StepView {
    StepView {
        action: ActionView::Run(
            CommandView::new("mount"@).arg("--bind"@).arg(filesystem).arg(mount_point + filesystem),
        ),
        expect: ExpectView::Success(FailureView::Device),
        undo: Some(ActionView::Run(umount_command(mount_point + filesystem))),
    }
}

/// The command that runs `command` in a shell inside the target root.
pub open spec fn chroot_command(mount_point: Seq<char>, command: ChrootCommandView) -> CommandView {
    let base = CommandView::new("chroot"@).arg(mount_point).arg("sh"@).arg("-c"@).arg(command.line);
    match command.stdin {
        Some(input) => base.with_stdin(input),
        None => base,
    }
}

/// The step that runs the command at `index` of a list.
pub open spec fn command_step(mount_point: Seq<char>, index: nat, command: ChrootCommandView) -> StepView {
    StepView::run(chroot_command(mount_point, command), FailureView::Chroot { index, command: command.line })
}

/// The binds, in the order in which they are made.
pub open spec fn bind_steps(mount_point: Seq<char>) -> Seq<StepView> {
    Seq::new(virtual_filesystems().len(), |i: int| bind_step(mount_point, virtual_filesystems()[i]))
}

/// The plan that runs `commands` inside the target root at `mount_point`:
/// the binds, then the commands in order, and the unbinds on every way out.
pub open spec fn chroot_plan(mount_point: Seq<char>, commands: Seq<ChrootCommandView>) -> PlanView {
    PlanView {
        steps: bind_steps(mount_point) + Seq::new(
            commands.len(),
            |i: int| command_step(mount_point, i as nat, commands[i]),
        ),
        unwind: Unwind::Always,
        check: None,
    }
}

/// The unbinds of the first `count` binds, the last bind's first.
pub open spec fn unbinds(mount_point: Seq<char>, count: nat) -> Seq<ActionView>
    decreases count,
{
    if count == 0 || count > virtual_filesystems().len() {
        Seq::empty()
    } else {
        seq![ActionView::Run(umount_command(mount_point + virtual_filesystems()[count - 1]))] + unbinds(
            mount_point,
            (count - 1) as nat,
        )
    }
}

/// The smaller of two numbers.
pub open spec fn at_most(n: nat, limit: nat) -> nat {
    if n <= limit {
        n
    } else {
        limit
    }
}

/// What is left to undo after the first `n` steps of a run inside the
/// target root are the unbinds of the binds among them, the last bind's
/// first.
pub proof fn lemma_chroot_undos(mount_point: Seq<char>, commands: Seq<ChrootCommandView>, n: nat)
    requires
        n <= chroot_plan(mount_point, commands).steps.len(),
    ensures
        undos(chroot_plan(mount_point, commands).steps, n) == unbinds(
            mount_point,
            at_most(n, virtual_filesystems().len()),
        ),
    decreases n,
{
    let steps = chroot_plan(mount_point, commands).steps;
    let binds = virtual_filesystems().len();
    assert(binds == 3);
    if n == 0 {
    } else {
        lemma_chroot_undos(mount_point, commands, (n - 1) as nat);
        if n <= binds {
            assert(steps[n - 1] == bind_step(mount_point, virtual_filesystems()[n - 1]));
        } else {
            assert(steps[n - 1] == command_step(mount_point, (n - 1 - binds) as nat, commands[n - 1 - binds]));
        }
    }
}

/// Running commands inside the target root asks for no credentials.
pub proof fn lemma_chroot_plan_credential_free(mount_point: Seq<char>, commands: Seq<ChrootCommandView>)
    ensures
        credential_free(chroot_plan(mount_point, commands).steps),
{
    let steps = chroot_plan(mount_point, commands).steps;
    let binds = virtual_filesystems().len();
    assert forall|i: int| 0 <= i < steps.len() implies !(#[trigger] steps[i]).asks_credentials() by {
        if i < binds {
            assert(steps[i] == bind_step(mount_point, virtual_filesystems()[i]));
        } else {
            assert(steps[i] == command_step(mount_point, (i - binds) as nat, commands[i - binds]));
        }
    }
}

/// Of commands run inside the target root, whatever the host reports: the
/// actions performed are the binds and the commands in order, up to and
/// including the first that fails, and then the unbind of every bind that
/// was made, once each, the last bind's first. Where the command at `index`
/// fails, exactly the commands up to `index` were run, and none after it.
pub proof fn lemma_chroot_run(
    mount_point: Seq<char>,
    commands: Seq<ChrootCommandView>,
    outcomes: Seq<OutcomeView>,
)
    requires
        RunnerView::initial(chroot_plan(mount_point, commands)).replay(outcomes).finished(),
    ensures
        ({
            let plan = chroot_plan(mount_point, commands);
            let binds = virtual_filesystems().len();
            let end = RunnerView::initial(plan).replay(outcomes);
            &&& RunnerView::initial(plan).journal(outcomes) == plan.actions().take(end.performed as int) + unbinds(
                mount_point,
                at_most(end.held(), binds),
            )
            &&& end.performed <= binds + commands.len()
            &&& end.failure is None ==> end.performed == binds + commands.len()
            &&& forall|index: nat, command: Seq<char>, status: int|
                end.failure == Some(ErrorView::ChrootCommandFailed { index, command, status }) ==> {
                    &&& index < commands.len()
                    &&& command == commands[index as int].line
                    &&& status != 0
                    &&& end.performed == binds + index + 1
                }
        }),
{
    let plan = chroot_plan(mount_point, commands);
    let binds = virtual_filesystems().len();
    let end = RunnerView::initial(plan).replay(outcomes);
    lemma_finished_run(plan, outcomes);
    lemma_replay_inv(plan, outcomes);
    lemma_chroot_undos(mount_point, commands, end.held());
    assert(plan.steps.len() == binds + commands.len());
    assert(end.check_part() =~= Seq::<ActionView>::empty());
    assert(end.check_part() + plan.actions().take(end.performed as int) =~= plan.actions().take(
        end.performed as int,
    ));
    assert forall|index: nat, command: Seq<char>, status: int|
        end.failure == Some(ErrorView::ChrootCommandFailed { index, command, status }) implies {
        &&& index < commands.len()
        &&& command == commands[index as int].line
        &&& status != 0
        &&& end.performed == binds + index + 1
    } by {
        let at = end.performed - 1;
        let error = ErrorView::ChrootCommandFailed { index, command, status };
        assert(raised_by(plan.steps[at], error));
        let outcome = choose|outcome: OutcomeView| #[trigger] plan.steps[at].verdict(outcome) == Some(error);
        if at < binds {
            assert(plan.steps[at] == bind_step(mount_point, virtual_filesystems()[at]));
        } else {
            assert(plan.steps[at] == command_step(mount_point, (at - binds) as nat, commands[at - binds]));
        }
    }
}

/// Builds the plans that run commands inside a target root.
#[derive(Debug)]
pub struct ChrootExecutor {}

impl ChrootExecutor {
    /// The plan that runs `commands`, in order, inside the target root
    /// mounted at `mount_point`. The first command that fails ends the run
    /// with `ChrootCommandFailed`, which names its index and its line.
    pub fn run(mount_point: &str, commands: &Vec<ChrootCommand>) -> (plan: Plan)
        ensures
            plan@ == chroot_plan(mount_point@, views(commands@)),
    {
        let mut plan = Plan::new(Unwind::Always);
        let mut b: usize = 0;
        while b < VIRTUAL_FILESYSTEMS.len()
            invariant
                b <= VIRTUAL_FILESYSTEMS@.len(),
                plan@.unwind == Unwind::Always,
                plan@.check is None,
                plan@.steps == bind_steps(mount_point@).take(b as int),
            decreases VIRTUAL_FILESYSTEMS@.len() - b,
        {
            let filesystem = VIRTUAL_FILESYSTEMS[b];
            let target = chain(mount_point, filesystem);
            let ghost before = plan@.steps;
            plan.push(
                Step {
                    action: Action::Run(Command::new("mount").arg("--bind").arg(filesystem).arg(target.as_str())),
                    expect: Expect::Success(Failure::Device),
                    undo: Some(Action::Run(Command::new("umount").arg(target.as_str()))),
                },
            );
            proof {
                assert(before.push(bind_step(mount_point@, virtual_filesystems()[b as int])) =~= bind_steps(
                    mount_point@,
                ).take(b + 1));
            }
            b += 1;
        }
        let mut i: usize = 0;
        proof {
            assert(bind_steps(mount_point@).take(b as int) =~= bind_steps(mount_point@));
            assert(plan@.steps =~= chroot_plan(mount_point@, views(commands@).take(0)).steps);
        }
        while i < commands.len()
            invariant
                i <= commands.len(),
                plan@ == chroot_plan(mount_point@, views(commands@).take(i as int)),
            decreases commands.len() - i,
        {
            let command = &commands[i];
            let base = Command::new("chroot").arg(mount_point).arg("sh").arg("-c").arg(command.line.as_str());
            let full = match &command.stdin {
                Some(input) => base.with_stdin(input.as_str()),
                None => base,
            };
            plan.push(Step::run(full, Failure::Chroot { index: i, command: command.line.clone() }));
            proof {
                let all = views(commands@);
                assert(chroot_plan(mount_point@, all.take(i + 1)).steps =~= chroot_plan(
                    mount_point@,
                    all.take(i as int),
                ).steps.push(command_step(mount_point@, i as nat, all[i as int])));
            }
            i += 1;
        }
        proof {
            assert(views(commands@).take(commands.len() as int) =~= views(commands@));
        }
        plan
    }
}

} // verus!
