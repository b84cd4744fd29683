use std::cell::RefCell;

use xbitos::command::{Action, Command, Outcome};
use xbitos::error::InstallError;
use xbitos::plan::{Expect, Failure, Plan, Step, Unwind};
use xbitos::runner::{Phase, Runner};

fn acquire(name: &str) -> Step {
    Step {
        action: Action::Run(Command::new("take").arg(name)),
        expect: Expect::Success(Failure::Device),
        undo: Some(Action::Run(Command::new("give").arg(name))),
    }
}

fn work(name: &str) -> Step {
    Step::run(Command::new("work").arg(name), Failure::Command)
}

fn plan(unwind: Unwind) -> Plan {
    let mut plan = Plan::new(unwind);
    plan.push(acquire("a"));
    plan.push(work("1"));
    plan.push(acquire("b"));
    plan.push(work("2"));
    plan
}

fn run(plan: Plan, failing: Option<&str>) -> (Vec<String>, Runner) {
    let log = RefCell::new(Vec::new());
    let end = Runner::run_with(plan, &|action: &Action| {
        let line = action.describe();
        log.borrow_mut().push(line.clone());
        if Some(line.as_str()) == failing {
            Outcome::exited(3, "no")
        } else {
            Outcome::success()
        }
    });
    (log.into_inner(), end)
}

#[test]
fn steps_run_in_order_and_nothing_is_released_by_default() {
    let (log, end) = run(plan(Unwind::Never), None);
    assert_eq!(log, vec!["take a", "work 1", "take b", "work 2"]);
    assert!(end.finished());
    assert!(end.failure().is_none());
    assert_eq!(end.performed(), 4);
    assert!(!end.cleaned());
    assert!(!end.skipped());
}

#[test]
fn first_failure_ends_the_run() {
    let (log, end) = run(plan(Unwind::Never), Some("work 1"));
    assert_eq!(log, vec!["take a", "work 1"]);
    assert_eq!(
        end.failure(),
        Some(&InstallError::CommandFailed { command: "work 1".to_string(), status: 3, output: "no".to_string() })
    );
    assert_eq!(end.performed(), 2);
    assert!(!end.cleaned());
}

#[test]
fn release_on_failure_only() {
    let (log, end) = run(plan(Unwind::OnFailure), None);
    assert_eq!(log, vec!["take a", "work 1", "take b", "work 2"]);
    assert!(!end.cleaned());
    let (log, end) = run(plan(Unwind::OnFailure), Some("work 2"));
    assert_eq!(log, vec!["take a", "work 1", "take b", "work 2", "give b", "give a"]);
    assert!(end.cleaned());
    assert!(!end.cleanup_failed());
    assert!(end.failure().is_some());
}

#[test]
fn a_failed_acquisition_is_not_released() {
    let (log, _) = run(plan(Unwind::OnFailure), Some("take b"));
    assert_eq!(log, vec!["take a", "work 1", "take b", "give a"]);
    let (log, end) = run(plan(Unwind::Always), Some("take a"));
    assert_eq!(log, vec!["take a"]);
    assert!(!end.cleaned());
    assert_eq!(
        end.failure(),
        Some(&InstallError::DeviceError { command: "take a".to_string(), status: 3, output: "no".to_string() })
    );
}

#[test]
fn release_always() {
    let (log, end) = run(plan(Unwind::Always), None);
    assert_eq!(log, vec!["take a", "work 1", "take b", "work 2", "give b", "give a"]);
    assert!(end.failure().is_none());
    assert!(end.cleaned());
}

#[test]
fn a_failing_release_does_not_stop_the_others() {
    let (log, end) = run(plan(Unwind::Always), Some("give b"));
    assert_eq!(log, vec!["take a", "work 1", "take b", "work 2", "give b", "give a"]);
    assert!(end.failure().is_none());
    assert!(end.cleanup_failed());
}

#[test]
fn empty_plan_is_over_at_once() {
    let runner = Runner::start(Plan::new(Unwind::Always));
    assert!(runner.finished());
    assert!(runner.next_action().is_none());
    assert_eq!(runner.phase(), Phase::Done);
}

#[test]
fn check_that_succeeds_skips_the_plan() {
    let mut checked = plan(Unwind::Always);
    checked.set_check(Action::Run(Command::new("test").arg("-e").arg("/done")));
    let (log, end) = run(checked, None);
    assert_eq!(log, vec!["test -e /done"]);
    assert!(end.skipped());
    assert!(end.failure().is_none());
    assert_eq!(end.performed(), 0);
}

#[test]
fn check_that_fails_lets_the_plan_run() {
    let mut checked = plan(Unwind::Never);
    checked.set_check(Action::Run(Command::new("test").arg("-e").arg("/done")));
    let (log, end) = run(checked, Some("test -e /done"));
    assert_eq!(log, vec!["test -e /done", "take a", "work 1", "take b", "work 2"]);
    assert!(!end.skipped());
    assert!(end.failure().is_none());
}

#[test]
fn the_machine_can_be_driven_step_by_step() {
    let mut runner = Runner::start(plan(Unwind::OnFailure));
    assert_eq!(runner.phase(), Phase::Forward);
    assert_eq!(runner.next_action().unwrap().describe(), "take a");
    // asking again changes nothing
    assert_eq!(runner.next_action().unwrap().describe(), "take a");
    runner.record(&Outcome::success());
    assert_eq!(runner.next_action().unwrap().describe(), "work 1");
    runner.record(&Outcome::Missing);
    assert_eq!(runner.phase(), Phase::Unwinding);
    assert_eq!(runner.failure(), Some(&InstallError::ToolMissing { program: "work".to_string() }));
    assert_eq!(runner.next_action().unwrap().describe(), "give a");
    runner.record(&Outcome::success());
    assert!(runner.finished());
    // an outcome reported after the end changes nothing
    runner.record(&Outcome::exited(1, ""));
    assert!(runner.finished());
    assert_eq!(runner.performed(), 2);
    assert_eq!(runner.plan().len(), 4);
}

#[test]
fn outcomes_are_judged_by_the_rule_of_the_step() {
    let any = Step::attempt(Command::new("snapper").arg("create-config").arg("/"));
    assert_eq!(any.verdict(&Outcome::exited(1, "x")), None);
    assert_eq!(any.verdict(&Outcome::Missing), Some(InstallError::ToolMissing { program: "snapper".to_string() }));
    let probe = Step::plain(
        Action::Run(Command::new("grep").arg("-q").arg("x")),
        Expect::Absent(InstallError::DeviceBusy { device: "/dev/sda".to_string() }),
    );
    assert_eq!(probe.verdict(&Outcome::exited(1, "")), None);
    assert_eq!(probe.verdict(&Outcome::success()), Some(InstallError::DeviceBusy { device: "/dev/sda".to_string() }));
    let boot = Step::run(Command::new("bootctl").arg("update"), Failure::Bootloader);
    assert_eq!(
        boot.verdict(&Outcome::exited(1, "no esp")),
        Some(InstallError::BootloaderError {
            command: "bootctl update".to_string(),
            status: 1,
            output: "no esp".to_string(),
        })
    );
    let file = Step::write("/etc/hostname", "box");
    assert_eq!(file.verdict(&Outcome::success()), None);
    assert_eq!(
        file.verdict(&Outcome::exited(13, "denied")),
        Some(InstallError::CommandFailed {
            command: "write /etc/hostname".to_string(),
            status: 13,
            output: "denied".to_string(),
        })
    );
    assert_eq!(
        file.verdict(&Outcome::Missing),
        Some(InstallError::ToolMissing { program: "write /etc/hostname".to_string() })
    );
}

#[test]
fn command_lines_and_descriptions() {
    assert_eq!(Command::new("sync").line(), "sync");
    assert_eq!(Command::new("a").arg("b").arg("c d").line(), "a b c d");
    let fed = Command::new("chpasswd").with_stdin("u:p").in_dir("/tmp");
    assert_eq!(fed.line(), "chpasswd");
    assert_eq!(fed.stdin.as_deref(), Some("u:p"));
    assert_eq!(fed.dir.as_deref(), Some("/tmp"));
    assert_eq!(Action::create_dir("/x").describe(), "mkdir /x");
    assert_eq!(Action::write_file("/x", "secret").describe(), "write /x");
    assert_eq!(Action::copy_file("/a", "/b").describe(), "copy /a /b");
    assert_eq!(Action::symlink("/a", "/b").describe(), "link /a /b");
    assert_eq!(Action::Run(Command::new("ls").arg("-l")).tool(), "ls");
    assert!(Outcome::success().succeeded());
    assert!(!Outcome::exited(1, "").succeeded());
    assert!(!Outcome::Missing.succeeded());
}

#[test]
fn plans_can_be_joined() {
    let mut first = plan(Unwind::OnFailure);
    let mut second = Plan::new(Unwind::Always);
    second.push(work("3"));
    second.set_check(Action::create_dir("/x"));
    first.extend(second);
    assert_eq!(first.len(), 5);
    assert_eq!(first.unwind, Unwind::OnFailure);
    assert!(first.check.is_none());
    assert_eq!(first.steps[4].action.describe(), "work 3");
}

#[test]
fn commands_that_write_to_the_package_database_are_told_apart() {
    assert!(Command::new("pacman").arg("-S").arg("vim").uses_package_database());
    assert!(Command::new("pacstrap").arg("/mnt").uses_package_database());
    assert!(Command::new("makepkg").uses_package_database());
    assert!(Command::new("sudo").arg("pacman").arg("-Sy").uses_package_database());
    assert!(!Command::new("sudo").uses_package_database());
    assert!(!Command::new("sudo").arg("ls").uses_package_database());
    assert!(!Command::new("echo").arg("pacman").uses_package_database());
    assert!(Action::Run(Command::new("pacman")).uses_package_database());
    assert!(!Action::write_file("/var/lib/pacman/local", "").uses_package_database());
}
