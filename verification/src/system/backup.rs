//! Backups: the tools, the configuration, the daily schedule, and the
//! commands that create and restore an archive.
use vstd::prelude::*;
use crate::command::{Command, CommandView};
use crate::plan::{Plan, PlanView, Step, StepView, Unwind};
use crate::system::iso_builder::with_args;
use crate::system::package_manager::{install_plan, PackageManager};
use crate::system::services::{enable_step, ServiceManager};
use crate::text::{chain, chain3, views};

verus! {

/// The tools that backups need.
pub const BACKUP_PACKAGES: [&'static str; 3] = ["rsync", "borg", "snapper"];

/// The configuration of the backups.
pub const BACKUP_CONFIG: &'static str = r#"
# xBitOS Backup Configuration

# Backup Settings
BACKUP_RETENTION_DAYS=30
BACKUP_COMPRESSION=zstd
BACKUP_ENCRYPTION=repokey

# Schedule
BACKUP_SCHEDULE="daily"
BACKUP_TIME="03:00"

# Locations
BACKUP_PATHS="/etc /home /root /var/lib/xbitos"
BACKUP_EXCLUDE="/home/*/.cache/* /home/*/.local/share/Trash/*"

# Notifications
NOTIFY_ON_SUCCESS=true
NOTIFY_ON_FAILURE=true
"#;

/// The unit that makes a backup.
pub const BACKUP_SERVICE: &'static str = r#"
[Unit]
Description=xBitOS Backup Service
After=network.target

[Service]
Type=oneshot
ExecStart=/usr/bin/xbitos-backup

[Install]
WantedBy=multi-user.target
"#;

/// The unit that starts a backup once a day.
pub const BACKUP_TIMER: &'static str = r#"
[Unit]
Description=Daily xBitOS Backup

[Timer]
OnCalendar=daily
Persistent=true

[Install]
WantedBy=timers.target
"#;

/// What a backup leaves out, each path behind its option.
pub const BACKUP_EXCLUDES: [&'static str; 14] = [
    "--exclude",
    "/proc",
    "--exclude",
    "/sys",
    "--exclude",
    "/tmp",
    "--exclude",
    "/run",
    "--exclude",
    "/mnt",
    "--exclude",
    "/media",
    "--exclude",
    "/lost+found",
];

/// How the time of a backup is written into the name of its archive.
pub const STAMP_FORMAT: &'static str = "%Y-%m-%d_%H-%M-%S";

/// Builds the plans that set up, create and restore backups.
#[derive(Debug)]
pub struct BackupManager {
    pub backup_dir: String,
    pub config_path: String,
}

/// A backup manager as plain values.
pub struct BackupView {
    pub backup_dir: Seq<char>,
    pub config_path: Seq<char>,
}

impl View for BackupManager {
    type V = BackupView;

    open spec fn view(&self) -> BackupView {
        BackupView { backup_dir: self.backup_dir@, config_path: self.config_path@ }
    }
}

/// The steps that write the schedule and enable it.
pub open spec fn schedule_steps() -> Seq<StepView> {
    seq![
        StepView::write("/etc/systemd/system/xbitos-backup.service"@, BACKUP_SERVICE@),
        StepView::write("/etc/systemd/system/xbitos-backup.timer"@, BACKUP_TIMER@),
        enable_step("xbitos-backup.timer"@),
    ]
}

impl BackupView {
    /// The archive `name` in the repository.
    pub open spec fn archive(self, name: Seq<char>) -> Seq<char> {
        self.backup_dir + "::"@ + name
    }

    /// The step that writes the configuration.
    pub open spec fn config_steps(self) -> Seq<StepView> {
        seq![StepView::write(self.config_path, BACKUP_CONFIG@)]
    }

    /// The whole setup: tools, directory, configuration, schedule.
    pub open spec fn setup_plan(self) -> PlanView {
        PlanView::of(
            install_plan(views(BACKUP_PACKAGES@)).steps + seq![StepView::mkdir(self.backup_dir)]
                + self.config_steps() + schedule_steps(),
        )
    }

    /// The plan that archives the whole system, but for what is left out,
    /// under the name made of `stamp`.
    pub open spec fn create_plan(self, stamp: Seq<char>) -> PlanView {
        PlanView::of(
            seq![
                StepView::attempt(
                    CommandView::new("borg"@).arg("create"@).arg(self.archive("backup_"@ + stamp)).arg("/"@).args(
                        views(BACKUP_EXCLUDES@),
                    ),
                ),
            ],
        )
    }

    /// The plan that extracts the archive `name`.
    pub open spec fn restore_plan(self, name: Seq<char>) -> PlanView {
        PlanView::of(seq![StepView::attempt(CommandView::new("borg"@).arg("extract"@).arg(self.archive(name)))])
    }
}

/// Asks `chrono::Local::now` for the local time and has it written in
/// `format`. The result depends on the clock and the time zone, so nothing
/// is claimed of it. Only the one format that is known to be well formed is
/// admitted.
#[verifier::external_body]
fn local_time(format: &str) -> (text: String)
    requires
        format@ == STAMP_FORMAT@,
{
    chrono::Local::now().format(format).to_string()
}

impl BackupManager {
    /// A backup manager over the paths that the system uses.
    pub fn new() -> (r: Self)
        ensures
            r@.backup_dir == "/var/lib/xbitos/backups"@,
            r@.config_path == "/etc/xbitos/backup.conf"@,
    {
        BackupManager {
            backup_dir: String::from_str("/var/lib/xbitos/backups"),
            config_path: String::from_str("/etc/xbitos/backup.conf"),
        }
    }

    /// The plan that installs the tools, creates the directory, writes the
    /// configuration and schedules the daily backup.
    pub fn setup(&self) -> (plan: Plan)
        ensures
            plan@ == self@.setup_plan(),
    {
        let mut plan = PackageManager::new().install_packages(&BACKUP_PACKAGES);
        plan.push(Step::mkdir(self.backup_dir.as_str()));
        plan.extend(self.setup_config());
        plan.extend(self.setup_scheduled_backups());
        proof {
            assert(plan@.steps =~= self@.setup_plan().steps);
        }
        plan
    }

    fn archive(&self, name: &str) -> (r: String)
        ensures
            r@ == self@.archive(name@),
    {
        chain3(self.backup_dir.as_str(), "::", name)
    }

    /// The plan that archives the system under a name made of the local
    /// time at which the plan is made.
    pub fn create_backup(&self) -> (plan: Plan)
        ensures
            exists|stamp: Seq<char>| plan@ == self@.create_plan(stamp),
    {
        let stamp = local_time(STAMP_FORMAT);
        self.create_backup_at(stamp.as_str())
    }

    /// The plan that archives the system under the name made of `stamp`.
    pub fn create_backup_at(&self, stamp: &str) -> (plan: Plan)
        ensures
            plan@ == self@.create_plan(stamp@),
    {
        let name = chain("backup_", stamp);
        let archive = self.archive(name.as_str());
        let command = with_args(Command::new("borg").arg("create").arg(archive.as_str()).arg("/"), &BACKUP_EXCLUDES);
        let mut plan = Plan::new(Unwind::Never);
        plan.push(Step::attempt(command));
        proof {
            assert(plan@.steps =~= self@.create_plan(stamp@).steps);
        }
        plan
    }

    /// The plan that extracts the archive `backup_name`.
    pub fn restore_backup(&self, backup_name: &str) -> (plan: Plan)
        ensures
            plan@ == self@.restore_plan(backup_name@),
    {
        let archive = self.archive(backup_name);
        let mut plan = Plan::new(Unwind::Never);
        plan.push(Step::attempt(Command::new("borg").arg("extract").arg(archive.as_str())));
        proof {
            assert(plan@.steps =~= self@.restore_plan(backup_name@).steps);
        }
        plan
    }

    /// The plan that writes the configuration.
    pub fn setup_config(&self) -> (plan: Plan)
        ensures
            plan@ == PlanView::of(self@.config_steps()),
    {
        let mut plan = Plan::new(Unwind::Never);
        plan.push(Step::write(self.config_path.as_str(), BACKUP_CONFIG));
        proof {
            assert(plan@.steps =~= self@.config_steps());
        }
        plan
    }

    /// The plan that writes the schedule and enables it.
    pub fn setup_scheduled_backups(&self) -> (plan: Plan)
        ensures
            plan@ == PlanView::of(schedule_steps()),
    {
        let mut plan = Plan::new(Unwind::Never);
        plan.push(Step::write("/etc/systemd/system/xbitos-backup.service", BACKUP_SERVICE));
        plan.push(Step::write("/etc/systemd/system/xbitos-backup.timer", BACKUP_TIMER));
        plan.push(ServiceManager::new().enable_service("xbitos-backup.timer"));
        proof {
            assert(plan@.steps =~= schedule_steps());
        }
        plan
    }
}

} // verus!
