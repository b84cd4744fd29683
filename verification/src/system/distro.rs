//! The distribution: its directories, its package repository, its
//! configuration, and the build of its base system.
use vstd::prelude::*;
use crate::plan::{Plan, PlanView, Step, StepView, Unwind};
use crate::system::builder::{BuilderView, SystemBuilder};
use crate::text::{join_path, path_under};

verus! {

/// The configuration of the package manager, with the local repository.
pub const PACMAN_CONF: &'static str = r#"
[options]
HoldPkg     = pacman glibc
Architecture = auto

CheckSpace
Color
ILoveCandy
ParallelDownloads = 5

SigLevel    = Required DatabaseOptional
LocalFileSigLevel = Optional

[xbitos]
SigLevel = Optional TrustAll
Server = file:///var/lib/xbitos/repo

[core]
Include = /etc/pacman.d/mirrorlist

[extra]
Include = /etc/pacman.d/mirrorlist

[community]
Include = /etc/pacman.d/mirrorlist
"#;

/// The configuration of the distribution.
pub const DISTRO_CONF: &'static str = r#"
# xBitOS Configuration

# System
DISTRO_NAME="xBitOS"
DISTRO_VERSION="1.0.0"
DISTRO_CODENAME="Genesis"
DISTRO_DESCRIPTION="A modern Arch-based Linux distribution with Hyprland"

# Repository
REPO_NAME="xbitos"
REPO_URL="https://repo.xbitos.org"

# Updates
UPDATE_INTERVAL="daily"
BACKUP_ENABLED="yes"
BACKUP_KEEP_DAYS="30"

# Desktop
DEFAULT_SESSION="hyprland"
DEFAULT_THEME="breeze"
DEFAULT_ICON_THEME="papirus"
"#;

/// Builds the plan that sets up the distribution.
#[derive(Debug)]
pub struct DistroManager {
    pub config_path: String,
    pub repo_path: String,
}

/// A distribution manager as plain values.
pub struct DistroView {
    pub config_path: Seq<char>,
    pub repo_path: Seq<char>,
}

impl View for DistroManager {
    type V = DistroView;

    open spec fn view(&self) -> DistroView {
        DistroView { config_path: self.config_path@, repo_path: self.repo_path@ }
    }
}

impl DistroView {
    /// The directories of the distribution.
    pub open spec fn directory_steps(self) -> Seq<StepView> {
        seq![
            StepView::mkdir(self.config_path),
            StepView::mkdir(self.repo_path),
            StepView::mkdir("/etc/xbitos/hooks"@),
            StepView::mkdir("/var/lib/xbitos/cache"@),
            StepView::mkdir("/var/log/xbitos"@),
        ]
    }

    /// The step that writes the configuration of the package manager.
    pub open spec fn repository_steps(self) -> Seq<StepView> {
        seq![StepView::write("/etc/pacman.conf"@, PACMAN_CONF@)]
    }

    /// The step that writes the configuration of the distribution.
    pub open spec fn configuration_steps(self) -> Seq<StepView> {
        seq![StepView::write(path_under(self.config_path, "xbitos.conf"@), DISTRO_CONF@)]
    }

    /// The whole setup: directories, repository, configuration, and the
    /// build of the base system.
    pub open spec fn plan(self) -> PlanView {
        PlanView::of(
            self.directory_steps() + self.repository_steps() + self.configuration_steps() + (BuilderView {
                build_path: "/var/lib/xbitos/build"@,
                packages_path: "/var/lib/xbitos/packages"@,
            }).plan().steps,
        )
    }
}

impl DistroManager {
    /// A distribution manager over the directories that the system uses.
    pub fn new() -> (r: Self)
        ensures
            r@.config_path == "/etc/xbitos"@,
            r@.repo_path == "/var/lib/xbitos/repo"@,
    {
        DistroManager {
            config_path: String::from_str("/etc/xbitos"),
            repo_path: String::from_str("/var/lib/xbitos/repo"),
        }
    }

    /// The plan that sets up the distribution.
    pub fn setup_distro(&self) -> (plan: Plan)
        ensures
            plan@ == self@.plan(),
    {
        let mut plan = self.create_directories();
        plan.extend(self.setup_repository());
        plan.extend(self.setup_configuration());
        plan.extend(SystemBuilder::new().build_base_system());
        plan
    }

    /// The plan that creates the directories.
    pub fn create_directories(&self) -> (plan: Plan)
        ensures
            plan@ == PlanView::of(self@.directory_steps()),
    {
        let mut plan = Plan::new(Unwind::Never);
        plan.push(Step::mkdir(self.config_path.as_str()));
        plan.push(Step::mkdir(self.repo_path.as_str()));
        plan.push(Step::mkdir("/etc/xbitos/hooks"));
        plan.push(Step::mkdir("/var/lib/xbitos/cache"));
        plan.push(Step::mkdir("/var/log/xbitos"));
        proof {
            assert(plan@.steps =~= self@.directory_steps());
        }
        plan
    }

    /// The plan that writes the configuration of the package manager.
    pub fn setup_repository(&self) -> (plan: Plan)
        ensures
            plan@ == PlanView::of(self@.repository_steps()),
    {
        let mut plan = Plan::new(Unwind::Never);
        plan.push(Step::write("/etc/pacman.conf", PACMAN_CONF));
        proof {
            assert(plan@.steps =~= self@.repository_steps());
        }
        plan
    }

    /// The plan that writes the configuration of the distribution.
    pub fn setup_configuration(&self) -> (plan: Plan)
        ensures
            plan@ == PlanView::of(self@.configuration_steps()),
    {
        let mut plan = Plan::new(Unwind::Never);
        let file = join_path(self.config_path.as_str(), "xbitos.conf");
        plan.push(Step::write(file.as_str(), DISTRO_CONF));
        proof {
            assert(plan@.steps =~= self@.configuration_steps());
        }
        plan
    }
}

} // verus!
