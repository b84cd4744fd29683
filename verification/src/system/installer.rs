//! The installation pipeline: the stages, the plan of each stage, and the
//! session that moves from stage to stage as the host reports outcomes.
use vstd::prelude::*;
use crate::command::{Action, ActionView, Command, CommandView, Outcome, OutcomeView};
use crate::error::{ErrorView, InstallError};
use crate::plan::{
    credential_free,
    lemma_authentication_needs_credentials,
    lemma_credential_free_add,
    view_error,
    Failure,
    FailureView,
    Plan,
    PlanView,
    Step,
    StepView,
    Unwind,
};
use crate::runner::{lemma_initial_inv, lemma_step_inv, lemma_undos_after_prefix, raised_by, Runner, RunnerView};
use crate::system::bootloader::{
    bootloader_plan,
    finalize_step,
    install_verdict,
    lemma_bootloader_plan_credential_free,
    BootManager,
};
use crate::system::chroot::{
    bind_step,
    chroot_plan,
    command_step,
    lemma_chroot_plan_credential_free,
    lemma_chroot_undos,
    unbinds,
    virtual_filesystems,
    ChrootCommand,
    ChrootCommandView,
    ChrootExecutor,
};
use crate::system::display::{hyprland_plan, lemma_desktop_plan_credential_free, DisplayManager};
use crate::system::encryption::{close_step, EncryptedVolume, VolumeView};
use crate::system::filesystem::{teardown_of, MountPlan, MountsView};
use crate::system::storage::{
    lemma_plain_storage_credential_free,
    lemma_unlock_before_use,
    view_volume,
    StorageManager,
    StorageSetup,
    StorageView,
};
use crate::text::{
    chain,
    chain3,
    contains_text,
    join_path,
    lemma_views_push,
    lemma_without,
    path_under,
    remove_text,
    same,
    views,
    without,
};

verus! {

/// What the operator asks for. It holds the password, so it cannot be
/// printed.
#[derive(PartialEq, Eq)]
pub struct InstallConfig {
    pub hostname: String,
    pub username: String,
    pub password: String,
    pub timezone: String,
    pub locale: String,
    pub keyboard: String,
    pub disk: String,
    pub use_encryption: bool,
    pub desktop_environment: String,
}

/// A configuration as plain values.
pub struct ConfigView {
    pub hostname: Seq<char>,
    pub username: Seq<char>,
    pub password: Seq<char>,
    pub timezone: Seq<char>,
    pub locale: Seq<char>,
    pub keyboard: Seq<char>,
    pub disk: Seq<char>,
    pub use_encryption: bool,
    pub desktop_environment: Seq<char>,
}

impl View for InstallConfig {
    type V = ConfigView;

    open spec fn view(&self) -> ConfigView {
        ConfigView {
            hostname: self.hostname@,
            username: self.username@,
            password: self.password@,
            timezone: self.timezone@,
            locale: self.locale@,
            keyboard: self.keyboard@,
            disk: self.disk@,
            use_encryption: self.use_encryption,
            desktop_environment: self.desktop_environment@,
        }
    }
}

/// The phases of an installation, in their order.
#[derive(Debug, PartialEq, Eq, Clone, Copy, Structural)]
pub enum Stage {
    PrepareStorage,
    InstallBase,
    ConfigureSystem,
    InstallDesktop,
    CreateUser,
    InstallBootloader,
    Finalize,
}

/// The number of stages.
pub const STAGE_COUNT: usize = 7;

impl Stage {
    /// The position of the stage in the pipeline.
    pub open spec fn index(self) -> nat {
        match self {
            Stage::PrepareStorage => 0,
            Stage::InstallBase => 1,
            Stage::ConfigureSystem => 2,
            Stage::InstallDesktop => 3,
            Stage::CreateUser => 4,
            Stage::InstallBootloader => 5,
            Stage::Finalize => 6,
        }
    }

    /// The stage at a position.
    pub open spec fn at(index: nat) -> Stage {
        if index == 0 {
            Stage::PrepareStorage
        } else if index == 1 {
            Stage::InstallBase
        } else if index == 2 {
            Stage::ConfigureSystem
        } else if index == 3 {
            Stage::InstallDesktop
        } else if index == 4 {
            Stage::CreateUser
        } else if index == 5 {
            Stage::InstallBootloader
        } else {
            Stage::Finalize
        }
    }

    /// The stage that follows, if there is one.
    pub open spec fn following(self) -> Option<Stage> {
        match self {
            Stage::PrepareStorage => Some(Stage::InstallBase),
            Stage::InstallBase => Some(Stage::ConfigureSystem),
            Stage::ConfigureSystem => Some(Stage::InstallDesktop),
            Stage::InstallDesktop => Some(Stage::CreateUser),
            Stage::CreateUser => Some(Stage::InstallBootloader),
            Stage::InstallBootloader => Some(Stage::Finalize),
            Stage::Finalize => None,
        }
    }

    /// The stages before this one, in their order.
    pub open spec fn earlier(self) -> Seq<Stage> {
        Seq::new(self.index(), |i: int| Stage::at(i as nat))
    }

    /// The stage that follows, if there is one.
    pub fn next(self) -> (r: Option<Stage>)
        ensures
            r == self.following(),
    {
        match self {
            Stage::PrepareStorage => Some(Stage::InstallBase),
            Stage::InstallBase => Some(Stage::ConfigureSystem),
            Stage::ConfigureSystem => Some(Stage::InstallDesktop),
            Stage::InstallDesktop => Some(Stage::CreateUser),
            Stage::CreateUser => Some(Stage::InstallBootloader),
            Stage::InstallBootloader => Some(Stage::Finalize),
            Stage::Finalize => None,
        }
    }

    /// The name of the stage.
    pub fn name(self) -> (r: &'static str)
        ensures
            r@ == self.name_text(),
    {
        match self {
            Stage::PrepareStorage => "PrepareStorage",
            Stage::InstallBase => "InstallBase",
            Stage::ConfigureSystem => "ConfigureSystem",
            Stage::InstallDesktop => "InstallDesktop",
            Stage::CreateUser => "CreateUser",
            Stage::InstallBootloader => "InstallBootloader",
            Stage::Finalize => "Finalize",
        }
    }

    /// The name of the stage.
    pub open spec fn name_text(self) -> Seq<char> {
        match self {
            Stage::PrepareStorage => "PrepareStorage"@,
            Stage::InstallBase => "InstallBase"@,
            Stage::ConfigureSystem => "ConfigureSystem"@,
            Stage::InstallDesktop => "InstallDesktop"@,
            Stage::CreateUser => "CreateUser"@,
            Stage::InstallBootloader => "InstallBootloader"@,
            Stage::Finalize => "Finalize"@,
        }
    }
}

/// The packages of the base system.
pub const BASE_PACKAGES: [&'static str; 5] = [
    "base",
    "base-devel",
    "linux-zen",
    "linux-zen-headers",
    "linux-firmware",
];

/// The one desktop that can be installed.
pub const SUPPORTED_DESKTOP: &'static str = "hyprland";

/// Runs an installation from its configuration.
pub struct SystemInstaller {
    pub config: InstallConfig,
    pub mount_point: String,
}

/// An installer as plain values.
pub struct InstallerView {
    pub config: ConfigView,
    pub mount_point: Seq<char>,
}

impl View for SystemInstaller {
    type V = InstallerView;

    open spec fn view(&self) -> InstallerView {
        InstallerView { config: self.config@, mount_point: self.mount_point@ }
    }
}

/// The probe that succeeds where something exists at `path`.
pub open spec fn exists_probe(path: Seq<char>) -> ActionView {
    ActionView::Run(CommandView::new("test"@).arg("-e"@).arg(path))
}

impl InstallerView {
    /// The storage of the installation.
    pub open spec fn storage(self) -> StorageView {
        StorageView {
            root_device: self.config.disk,
            esp_path: "/boot/efi"@,
            mount_point: self.mount_point,
            encrypt: self.config.use_encryption,
        }
    }

    /// The device that holds the system volume.
    pub open spec fn root_source(self) -> Seq<char> {
        self.storage().root_source(self.config.use_encryption)
    }

    /// What is mounted once the storage is prepared.
    pub open spec fn mounts(self) -> MountsView {
        MountsView { entries: self.storage().mounted(self.root_source()) }
    }

    /// The steps that install the base system into the target root and
    /// print its filesystem table.
    pub open spec fn base_steps(self) -> Seq<StepView> {
        seq![
            StepView::run(
                CommandView::new("pacstrap"@).arg(self.mount_point).args(views(BASE_PACKAGES@)),
                FailureView::Command,
            ),
            StepView::run(CommandView::new("genfstab"@).arg("-U"@).arg(self.mount_point), FailureView::Command),
        ]
    }

    /// The plan of the stage that installs the base system.
    pub open spec fn base_plan(self) -> PlanView {
        PlanView::of(self.base_steps()).checked_by(
            exists_probe(path_under(self.mount_point, "boot/vmlinuz-linux-zen"@)),
        )
    }

    /// The step that links the time zone into the target root.
    pub open spec fn timezone_step(self) -> StepView {
        StepView::file(
            ActionView::Symlink {
                target: "/usr/share/zoneinfo/"@ + self.config.timezone,
                link: path_under(self.mount_point, "etc/localtime"@),
            },
        )
    }

    /// The files written into the target root before it is entered.
    pub open spec fn configure_files(self) -> Seq<StepView> {
        seq![
            self.timezone_step(),
            StepView::file(
                ActionView::WriteFile {
                    path: path_under(self.mount_point, "etc/locale.gen"@),
                    content: self.config.locale + " UTF-8"@,
                },
            ),
            StepView::file(
                ActionView::WriteFile {
                    path: path_under(self.mount_point, "etc/hostname"@),
                    content: self.config.hostname,
                },
            ),
        ]
    }

    /// The commands that configure the system inside the target root.
    pub open spec fn configure_commands(self) -> Seq<ChrootCommandView> {
        seq![
            ChrootCommandView { line: "locale-gen"@, stdin: None },
            ChrootCommandView { line: "hwclock --systohc"@, stdin: None },
            ChrootCommandView {
                line: "echo LANG="@ + self.config.locale + ".UTF-8 > /etc/locale.conf"@,
                stdin: None,
            },
            ChrootCommandView {
                line: "echo KEYMAP="@ + self.config.keyboard + " > /etc/vconsole.conf"@,
                stdin: None,
            },
        ]
    }

    /// The plan of the stage that configures the system.
    pub open spec fn configure_plan(self) -> PlanView {
        PlanView {
            steps: self.configure_files() + chroot_plan(self.mount_point, self.configure_commands()).steps,
            unwind: Unwind::Always,
            check: Some(exists_probe(path_under(self.mount_point, "etc/vconsole.conf"@))),
        }
    }

    /// The commands that create the user inside the target root. The
    /// password is fed to the password tool on its input and appears in no
    /// command line.
    pub open spec fn user_commands(self) -> Seq<ChrootCommandView> {
        seq![
            ChrootCommandView { line: "useradd -m -G wheel -s /bin/bash "@ + self.config.username, stdin: None },
            ChrootCommandView {
                line: "chpasswd"@,
                stdin: Some(self.config.username + ":"@ + self.config.password + "\n"@),
            },
            ChrootCommandView { line: "echo '%wheel ALL=(ALL) ALL' > /etc/sudoers.d/wheel"@, stdin: None },
        ]
    }

    /// The plan of the stage that creates the user.
    pub open spec fn user_plan(self) -> PlanView {
        chroot_plan(self.mount_point, self.user_commands()).checked_by(
            exists_probe(path_under(self.mount_point, "etc/sudoers.d/wheel"@)),
        )
    }

    /// The plan of the stage that installs the desktop, or the refusal of a
    /// desktop that is not supported.
    pub open spec fn desktop_plan(self) -> Result<PlanView, ErrorView> {
        if self.config.desktop_environment == SUPPORTED_DESKTOP@ {
            Ok(hyprland_plan().checked_by(exists_probe("/etc/dunst/dunstrc"@)))
        } else {
            Err(ErrorView::UnsupportedDesktop { name: self.config.desktop_environment })
        }
    }

    /// The plan of the stage that installs the boot manager into the EFI
    /// system partition of the target, or the refusal where that partition
    /// is not recorded as mounted or the base system is not installed.
    pub open spec fn boot_plan(self, mounts: MountsView, completed: Seq<Stage>) -> Result<PlanView, ErrorView> {
        let esp = self.storage().efi_mount();
        match install_verdict(esp, mounts, completed.contains(Stage::InstallBase)) {
            Ok(_) => Ok(
                bootloader_plan(esp).checked_by(exists_probe(path_under(esp, "loader/entries/xbitos.conf"@))),
            ),
            Err(error) => Err(error),
        }
    }

    /// The plan of the last stage.
    pub open spec fn finalize_plan(self) -> PlanView {
        PlanView::of(seq![finalize_step()])
    }

    /// The probe that succeeds where the system volume is mounted at the
    /// mount point: the storage was prepared by an earlier run.
    pub open spec fn prepared_probe(self) -> ActionView {
        ActionView::Run(
            CommandView::new("findmnt"@).arg("--source"@).arg(self.root_source()).arg("--mountpoint"@).arg(
                self.mount_point,
            ),
        )
    }

    /// The plan of the stage that prepares the storage, or the refusal of a
    /// mount point that is not an absolute path.
    pub open spec fn storage_plan(self) -> Result<PlanView, ErrorView> {
        if self.storage().absolute() {
            Ok(self.storage().storage_plan(self.config.use_encryption).checked_by(self.prepared_probe()))
        } else {
            Err(ErrorView::MountOrder { target: self.mount_point })
        }
    }

    /// The plan of each stage, given what is recorded as mounted and which
    /// stages have been carried out.
    pub open spec fn stage_plan(self, stage: Stage, mounts: MountsView, completed: Seq<Stage>) -> Result<
        PlanView,
        ErrorView,
    > {
        match stage {
            Stage::PrepareStorage => self.storage_plan(),
            Stage::InstallBase => Ok(self.base_plan()),
            Stage::ConfigureSystem => Ok(self.configure_plan()),
            Stage::InstallDesktop => self.desktop_plan(),
            Stage::CreateUser => Ok(self.user_plan()),
            Stage::InstallBootloader => self.boot_plan(mounts, completed),
            Stage::Finalize => Ok(self.finalize_plan()),
        }
    }
}

/// Whether `stage` is among `stages`.
pub fn has_stage(stages: &Vec<Stage>, stage: Stage) -> (r: bool)
    ensures
        r == stages@.contains(stage),
{
    let mut i: usize = 0;
    while i < stages.len()
        invariant
            i <= stages.len(),
            forall|k: int| 0 <= k < i ==> stages@[k] != stage,
        decreases stages.len() - i,
    {
        if stages[i] == stage {
            return true;
        }
        i += 1;
    }
    false
}

/// The view of a plan or a refusal.
pub open spec fn view_result(r: Result<Plan, InstallError>) -> Result<PlanView, ErrorView> {
    match r {
        Ok(plan) => Ok(plan@),
        Err(error) => Err(error@),
    }
}

impl SystemInstaller {
    /// An installer for `config`, with the target root at `/mnt`.
    pub fn new(config: InstallConfig) -> (r: Self)
        ensures
            r@.config == config@,
            r@.mount_point == crate::system::storage::MOUNT_POINT@,
    {
        SystemInstaller { config, mount_point: String::from_str(crate::system::storage::MOUNT_POINT) }
    }

    fn storage_manager(&self) -> (r: StorageManager)
        ensures
            r@ == self@.storage(),
    {
        StorageManager {
            root_device: self.config.disk.clone(),
            esp_path: String::from_str("/boot/efi"),
            mount_point: self.mount_point.clone(),
            encrypt: self.config.use_encryption,
        }
    }

    fn exists_probe(path: &str) -> (r: Action)
        ensures
            r@ == exists_probe(path@),
    {
        Action::Run(Command::new("test").arg("-e").arg(path))
    }

    /// The storage of the installation: the plan that prepares it, encrypted
    /// where the configuration says so, and what it mounts. The plan is
    /// not performed where the system volume is found mounted already.
    pub fn prepare_storage(&self) -> (r: Result<StorageSetup, InstallError>)
        ensures
            match r {
                Ok(setup) => {
                    &&& self@.storage_plan() == Ok::<PlanView, ErrorView>(setup.plan@)
                    &&& setup.mounts@ == self@.mounts()
                    &&& setup.mounts@.wf()
                    &&& view_volume(setup.volume) == (if self@.config.use_encryption {
                        Some(self@.storage().volume())
                    } else {
                        None
                    })
                    &&& setup.root_source@ == self@.root_source()
                },
                Err(error) => self@.storage_plan() == Err::<PlanView, ErrorView>(error@),
            },
    {
        let storage = self.storage_manager();
        let prepared = if self.config.use_encryption {
            storage.setup_encrypted_storage()
        } else {
            storage.setup_storage()
        };
        match prepared {
            Ok(setup) => {
                let mut setup = setup;
                let probe = Action::Run(
                    Command::new("findmnt").arg("--source").arg(setup.root_source.as_str()).arg("--mountpoint").arg(
                        self.mount_point.as_str(),
                    ),
                );
                setup.plan.set_check(probe);
                Ok(setup)
            },
            Err(error) => Err(error),
        }
    }

    /// The plan that installs the base system into the target root.
    pub fn install_base_system(&self) -> (plan: Plan)
        ensures
            plan@ == self@.base_plan(),
    {
        let mount_point = self.mount_point.as_str();
        let mut pacstrap = Command::new("pacstrap").arg(mount_point);
        let mut i: usize = 0;
        while i < BASE_PACKAGES.len()
            invariant
                i <= BASE_PACKAGES@.len(),
                pacstrap@ == CommandView::new("pacstrap"@).arg(mount_point@).args(views(BASE_PACKAGES@).take(i as int)),
            decreases BASE_PACKAGES@.len() - i,
        {
            let ghost before = pacstrap@;
            pacstrap = pacstrap.arg(BASE_PACKAGES[i]);
            proof {
                let all = views(BASE_PACKAGES@);
                assert(before.args.push(all[i as int]) =~= CommandView::new("pacstrap"@).arg(mount_point@).args(
                    all.take(i + 1),
                ).args);
            }
            i += 1;
        }
        proof {
            assert(views(BASE_PACKAGES@).take(BASE_PACKAGES@.len() as int) =~= views(BASE_PACKAGES@));
        }
        let mut plan = Plan::new(Unwind::Never);
        plan.push(Step::run(pacstrap, Failure::Command));
        plan.push(Step::run(Command::new("genfstab").arg("-U").arg(mount_point), Failure::Command));
        let kernel = join_path(mount_point, "boot/vmlinuz-linux-zen");
        plan.set_check(Self::exists_probe(kernel.as_str()));
        proof {
            assert(plan@.steps =~= self@.base_steps());
        }
        plan
    }

    /// The step that links the configured time zone into the target root.
    pub fn setup_timezone(&self) -> (step: Step)
        ensures
            step@ == self@.timezone_step(),
    {
        let zone = chain("/usr/share/zoneinfo/", self.config.timezone.as_str());
        let link = join_path(self.mount_point.as_str(), "etc/localtime");
        Step::file(Action::symlink(zone.as_str(), link.as_str()))
    }

    /// The plan that runs `commands` inside the target root.
    pub fn chroot_execute(&self, commands: &Vec<ChrootCommand>) -> (plan: Plan)
        ensures
            plan@ == chroot_plan(self@.mount_point, views(commands@)),
    {
        ChrootExecutor::run(self.mount_point.as_str(), commands)
    }

    /// The plan that writes time zone, locale and host name into the target
    /// root and then configures the system inside it.
    pub fn configure_system(&self) -> (plan: Plan)
        ensures
            plan@ == self@.configure_plan(),
    {
        let mount_point = self.mount_point.as_str();
        let mut plan = Plan::new(Unwind::Always);
        plan.push(self.setup_timezone());
        let locale_gen = chain(self.config.locale.as_str(), " UTF-8");
        let locale_path = join_path(mount_point, "etc/locale.gen");
        plan.push(Step::file(Action::write_file(locale_path.as_str(), locale_gen.as_str())));
        let host_path = join_path(mount_point, "etc/hostname");
        plan.push(Step::file(Action::write_file(host_path.as_str(), self.config.hostname.as_str())));
        proof {
            assert(plan@.steps =~= self@.configure_files());
        }
        let mut commands: Vec<ChrootCommand> = Vec::new();
        commands.push(ChrootCommand::new("locale-gen"));
        commands.push(ChrootCommand::new("hwclock --systohc"));
        let lang = chain3("echo LANG=", self.config.locale.as_str(), ".UTF-8 > /etc/locale.conf");
        commands.push(ChrootCommand::new(lang.as_str()));
        let keymap = chain3("echo KEYMAP=", self.config.keyboard.as_str(), " > /etc/vconsole.conf");
        commands.push(ChrootCommand::new(keymap.as_str()));
        proof {
            assert(views(commands@) =~= self@.configure_commands());
        }
        plan.extend(self.chroot_execute(&commands));
        let marker = join_path(mount_point, "etc/vconsole.conf");
        plan.set_check(Self::exists_probe(marker.as_str()));
        plan
    }

    /// The plan that installs the configured desktop. A desktop other than
    /// the supported one is refused with `UnsupportedDesktop`.
    pub fn install_desktop(&self) -> (r: Result<Plan, InstallError>)
        ensures
            view_result(r) == self@.desktop_plan(),
    {
        if same(self.config.desktop_environment.as_str(), SUPPORTED_DESKTOP) {
            let mut plan = DisplayManager::new().setup_hyprland();
            plan.set_check(Self::exists_probe("/etc/dunst/dunstrc"));
            Ok(plan)
        } else {
            Err(InstallError::UnsupportedDesktop { name: self.config.desktop_environment.clone() })
        }
    }

    /// The plan that creates the user account inside the target root.
    pub fn setup_user(&self) -> (plan: Plan)
        ensures
            plan@ == self@.user_plan(),
    {
        let mut commands: Vec<ChrootCommand> = Vec::new();
        let add = chain("useradd -m -G wheel -s /bin/bash ", self.config.username.as_str());
        commands.push(ChrootCommand::new(add.as_str()));
        let mut secret = chain3(self.config.username.as_str(), ":", self.config.password.as_str());
        secret.append("\n");
        commands.push(ChrootCommand::with_input("chpasswd", secret.as_str()));
        commands.push(ChrootCommand::new("echo '%wheel ALL=(ALL) ALL' > /etc/sudoers.d/wheel"));
        proof {
            assert(views(commands@) =~= self@.user_commands());
        }
        let mut plan = self.chroot_execute(&commands);
        let marker = join_path(self.mount_point.as_str(), "etc/sudoers.d/wheel");
        plan.set_check(Self::exists_probe(marker.as_str()));
        plan
    }

    /// The plan that installs the boot manager into the EFI system partition
    /// of the target. It is refused with `NotMounted` unless `mounts`
    /// records that partition as mounted, and with `BaseMissing` unless
    /// the stage that installs the base system is among `completed`.
    pub fn setup_bootloader(&self, mounts: &MountPlan, completed: &Vec<Stage>) -> (r: Result<Plan, InstallError>)
        ensures
            view_result(r) == self@.boot_plan(mounts@, completed@),
    {
        let boot_mount = join_path(self.mount_point.as_str(), "boot");
        let esp = join_path(boot_mount.as_str(), "efi");
        let boot_manager = BootManager::at(esp.as_str());
        match boot_manager.install(mounts, has_stage(completed, Stage::InstallBase)) {
            Ok(_) => {
                let mut plan = boot_manager.setup_bootloader();
                let entry = join_path(esp.as_str(), "loader/entries/xbitos.conf");
                plan.set_check(Self::exists_probe(entry.as_str()));
                Ok(plan)
            },
            Err(error) => Err(error),
        }
    }

    /// The plan of the last stage: the boot manager is brought in line with
    /// its entries.
    pub fn finalize(&self) -> (plan: Plan)
        ensures
            plan@ == self@.finalize_plan(),
    {
        BootManager::new().update_boot_configuration()
    }

    /// The plan of `stage`, given what is recorded as mounted and which
    /// stages have been carried out.
    pub fn stage_plan(&self, stage: Stage, mounts: &MountPlan, completed: &Vec<Stage>) -> (r: Result<
        Plan,
        InstallError,
    >)
        ensures
            view_result(r) == self@.stage_plan(stage, mounts@, completed@),
    {
        match stage {
            Stage::PrepareStorage => match self.prepare_storage() {
                Ok(setup) => Ok(setup.plan),
                Err(error) => Err(error),
            },
            Stage::InstallBase => Ok(self.install_base_system()),
            Stage::ConfigureSystem => Ok(self.configure_system()),
            Stage::InstallDesktop => self.install_desktop(),
            Stage::CreateUser => Ok(self.setup_user()),
            Stage::InstallBootloader => self.setup_bootloader(mounts, completed),
            Stage::Finalize => Ok(self.finalize()),
        }
    }
}

/// The devices that running installations own. A device belongs to one
/// installation at a time.
#[derive(Debug)]
pub struct DeviceRegistry {
    claimed: Vec<String>,
}

impl View for DeviceRegistry {
    type V = Seq<Seq<char>>;

    closed spec fn view(&self) -> Seq<Seq<char>> {
        views(self.claimed@)
    }
}

impl DeviceRegistry {
    /// A registry in which no device is owned.
    pub fn new() -> (r: DeviceRegistry)
        ensures
            r@.len() == 0,
    {
        DeviceRegistry { claimed: Vec::new() }
    }

    /// Whether an installation owns `device`.
    pub fn is_claimed(&self, device: &str) -> (r: bool)
        ensures
            r == self@.contains(device@),
    {
        contains_text(&self.claimed, device)
    }

    /// Gives `device` to an installation, unless another owns it already:
    /// then the claim is refused with `DeviceBusy`, and nothing changes.
    pub fn claim(&mut self, device: &str) -> (r: Result<(), InstallError>)
        ensures
            match r {
                Ok(_) => !old(self)@.contains(device@) && final(self)@ == old(self)@.push(device@),
                Err(error) => old(self)@.contains(device@) && final(self)@ == old(self)@ && error@ == (
                ErrorView::DeviceBusy { device: device@ }),
            },
    {
        if contains_text(&self.claimed, device) {
            return Err(InstallError::DeviceBusy { device: String::from_str(device) });
        }
        let ghost before = self.claimed@;
        let owned = String::from_str(device);
        self.claimed.push(owned);
        proof {
            lemma_views_push(before, owned);
        }
        Ok(())
    }

    /// Takes `device` back, so that another installation can own it.
    pub fn release(&mut self, device: &str)
        ensures
            final(self)@ == without(old(self)@, device@),
            !final(self)@.contains(device@),
    {
        proof {
            lemma_without(self@, device@);
        }
        self.claimed = remove_text(&self.claimed, device);
    }
}

/// Where an installation stands.
#[derive(Debug, PartialEq, Eq, Clone, Copy, Structural)]
pub enum SessionState {
    /// The stage is being carried out.
    Running(Stage),
    /// The stage failed; nothing after it was started.
    Failed(Stage),
    /// The run was cancelled before the stage was started.
    Cancelled(Stage),
    /// Every stage was carried out.
    Completed,
}

impl SessionState {
    /// The number of stages that are still to be carried out.
    pub open spec fn remaining(self) -> nat {
        match self {
            SessionState::Running(stage) => (STAGE_COUNT - stage.index()) as nat,
            _ => 0,
        }
    }

    /// No action will be due any more.
    pub open spec fn over(self) -> bool {
        !(self is Running)
    }
}

/// The state of one installation run as plain values.
pub struct SessionView {
    pub state: SessionState,
    /// The stages that were carried out, in their order.
    pub completed: Seq<Stage>,
    /// The run of the current stage's plan.
    pub runner: RunnerView,
    /// Why the run failed.
    pub failure: Option<ErrorView>,
    /// The operator asked to stop before the next stage.
    pub cancel_requested: bool,
    /// What is mounted once the storage is prepared.
    pub mounts: MountsView,
    /// The encrypted volume, where the storage is encrypted.
    pub volume: Option<VolumeView>,
    /// Where the target root is mounted.
    pub mount_point: Seq<char>,
    /// The device of the unlocked volume, where the storage is encrypted.
    pub encrypted_device: Option<Seq<char>>,
}

impl SessionView {
    /// The action that is due, or `None` where the run is over.
    pub open spec fn pending(self) -> Option<ActionView> {
        match self.state {
            SessionState::Running(_) => self.runner.pending(),
            _ => None,
        }
    }

    /// The session with the request to stop before the next stage.
    pub open spec fn cancel(self) -> SessionView {
        SessionView { cancel_requested: true, ..self }
    }

    /// Whether the run of the stage that failed released anything.
    pub open spec fn cleanup_performed(self) -> bool {
        self.state is Failed && self.runner.cleaned
    }

    /// What the operator is told: the stage, and for a failed run the kind
    /// of failure, the failing command with what it printed, and whether
    /// anything was cleaned up.
    pub open spec fn summary(self) -> Seq<char> {
        match self.state {
            SessionState::Completed => "installation completed"@,
            SessionState::Running(stage) => "stage "@ + stage.name_text() + " is running"@,
            SessionState::Cancelled(stage) => "cancelled before stage "@ + stage.name_text(),
            SessionState::Failed(stage) => "stage "@ + stage.name_text() + " failed: "@ + (match self.failure {
                Some(error) => error.report(),
                None => "unknown"@,
            }) + (if self.cleanup_performed() {
                ", cleanup performed"@
            } else {
                ", no cleanup performed"@
            }),
        }
    }

    /// The plan that takes the installation down: everything that is
    /// mounted is unmounted, the last mount first, and then the encrypted
    /// volume is locked. Before the storage is prepared there is nothing to
    /// take down.
    pub open spec fn teardown_plan(self) -> PlanView {
        if self.completed.len() == 0 {
            PlanView::empty(Unwind::Never)
        } else {
            match self.volume {
                Some(volume) => PlanView::of(
                    self.mounts.teardown_plan().steps.push(close_step(volume.mapper_name)),
                ),
                None => PlanView::of(self.mounts.teardown_plan().steps),
            }
        }
    }
}

/// What happens in a run: the host reports the outcome of the action
/// that was due, and the operator may have asked to stop meanwhile.
pub struct Event {
    pub outcome: OutcomeView,
    pub stop: bool,
}

/// The events made of outcomes and of the answers to the question
/// whether to stop, pair by pair.
pub open spec fn paired(outcomes: Seq<OutcomeView>, stops: Seq<bool>) -> Seq<Event> {
    Seq::new(outcomes.len(), |i: int| Event { outcome: outcomes[i], stop: stops[i] })
}

/// No event brings a request to stop.
pub open spec fn uninterrupted(events: Seq<Event>) -> bool {
    forall|i: int| 0 <= i < events.len() ==> !(#[trigger] events[i]).stop
}

impl InstallerView {
    /// The session at the start of `stage`: the run of its plan begins, or
    /// the stage fails at once where its plan is refused.
    pub open spec fn enter(self, session: SessionView, stage: Stage) -> SessionView {
        match self.stage_plan(stage, session.mounts, session.completed) {
            Ok(plan) => SessionView {
                state: SessionState::Running(stage),
                runner: RunnerView::initial(plan),
                ..session
            },
            Err(error) => SessionView { state: SessionState::Failed(stage), failure: Some(error), ..session },
        }
    }

    /// The session after `stage` succeeded: the stage is logged, and the
    /// next stage begins unless there is none or the operator asked to stop.
    pub open spec fn complete(self, session: SessionView, stage: Stage) -> SessionView {
        let logged = SessionView { completed: session.completed.push(stage), ..session };
        match stage.following() {
            None => SessionView { state: SessionState::Completed, ..logged },
            Some(next) => if logged.cancel_requested {
                SessionView { state: SessionState::Cancelled(next), ..logged }
            } else {
                self.enter(logged, next)
            },
        }
    }

    /// The session in which nothing has been done yet. Where another
    /// installation owns the device, the session fails at once, at the
    /// first stage, with `DeviceBusy`.
    pub open spec fn begin(self, claimed: Seq<Seq<char>>) -> SessionView {
        let fresh = SessionView {
            state: SessionState::Running(Stage::PrepareStorage),
            completed: Seq::empty(),
            runner: RunnerView::initial(PlanView::empty(Unwind::Never)),
            failure: None,
            cancel_requested: false,
            mounts: MountsView { entries: Seq::empty() },
            volume: None,
            mount_point: self.mount_point,
            encrypted_device: None,
        };
        if claimed.contains(self.config.disk) {
            SessionView {
                state: SessionState::Failed(Stage::PrepareStorage),
                failure: Some(ErrorView::DeviceBusy { device: self.config.disk }),
                ..fresh
            }
        } else {
            self.begin_owned(fresh)
        }
    }

    /// The start of a session that owns its device.
    pub open spec fn begin_owned(self, fresh: SessionView) -> SessionView {
        match self.storage_plan() {
            Ok(plan) => SessionView {
                runner: RunnerView::initial(plan),
                mounts: self.mounts(),
                volume: if self.config.use_encryption {
                    Some(self.storage().volume())
                } else {
                    None
                },
                encrypted_device: if self.config.use_encryption {
                    Some(self.root_source())
                } else {
                    None
                },
                ..fresh
            },
            Err(error) => SessionView {
                state: SessionState::Failed(Stage::PrepareStorage),
                failure: Some(error),
                ..fresh
            },
        }
    }

    /// The session after the host reported `outcome` for the pending
    /// action. While the plan of the stage runs, the state stays. When it
    /// ends with a failure, the session is frozen as failed at that stage.
    /// When it ends without one, the stage is complete.
    pub open spec fn advance(self, session: SessionView, outcome: OutcomeView) -> SessionView {
        match session.state {
            SessionState::Running(stage) => {
                let runner = session.runner.step(outcome);
                let moved = SessionView { runner, ..session };
                if !runner.finished() {
                    moved
                } else {
                    match runner.failure {
                        Some(error) => SessionView {
                            state: SessionState::Failed(stage),
                            failure: Some(error),
                            ..moved
                        },
                        None => self.complete(moved, stage),
                    }
                }
            },
            _ => session,
        }
    }

    /// The session after one event: the request to stop, if the event
    /// brings one, is noted first, and then the outcome is taken.
    pub open spec fn take(self, session: SessionView, event: Event) -> SessionView {
        self.advance(
            if event.stop {
                session.cancel()
            } else {
                session
            },
            event.outcome,
        )
    }

    /// The session after `events`, one after the other, in a run that
    /// started while the devices `claimed` were owned.
    pub open spec fn replay(self, claimed: Seq<Seq<char>>, events: Seq<Event>) -> SessionView
        decreases events.len(),
    {
        if events.len() == 0 {
            self.begin(claimed)
        } else {
            self.take(self.replay(claimed, events.drop_last()), events.last())
        }
    }

    /// Where the failure of a session that failed at `stage` comes from:
    /// the plan of the stage was refused, or another installation owned the
    /// device, or a step of the plan of the stage failed.
    pub open spec fn failure_source(self, session: SessionView, stage: Stage) -> bool {
        ||| self.stage_plan(stage, session.mounts, session.completed) == Err::<PlanView, ErrorView>(session.failure->0)
        ||| session.failure == Some(ErrorView::DeviceBusy { device: self.config.disk })
        ||| {
            &&& self.stage_plan(stage, session.mounts, session.completed) == Ok::<PlanView, ErrorView>(session.runner.plan)
            &&& session.runner.inv()
            &&& session.runner.failure == session.failure
        }
    }

    /// What holds of every session that a run can reach: the log holds
    /// exactly the stages before the current one, in their order; while a
    /// stage runs, the plan that is run is the plan of that stage and an
    /// action is due; and a failed session names its cause.
    pub open spec fn inv(self, session: SessionView) -> bool {
        &&& match session.state {
            SessionState::Running(stage) => {
                &&& session.completed == stage.earlier()
                &&& session.runner.inv()
                &&& !session.runner.finished()
                &&& self.stage_plan(stage, session.mounts, session.completed) == Ok::<PlanView, ErrorView>(session.runner.plan)
                &&& session.failure is None
            },
            SessionState::Failed(stage) => session.completed == stage.earlier() && session.failure is Some
                && self.failure_source(session, stage),
            SessionState::Cancelled(stage) => session.completed == stage.earlier() && session.failure is None
                && session.cancel_requested,
            SessionState::Completed => session.completed == Stage::Finalize.earlier().push(Stage::Finalize)
                && session.failure is None,
        }
        &&& session.mounts.entries.len() > 0 ==> session.mounts == self.mounts()
        &&& session.mount_point == self.mount_point
    }
}

/// The plan of every stage has at least one step.
pub proof fn lemma_stage_plans_nonempty(
    installer: InstallerView,
    stage: Stage,
    mounts: MountsView,
    completed: Seq<Stage>,
)
    ensures
        installer.stage_plan(stage, mounts, completed) matches Ok(plan) ==> plan.steps.len() > 0,
{
    match stage {
        Stage::PrepareStorage => {},
        Stage::InstallBase => {},
        Stage::ConfigureSystem => {},
        Stage::InstallDesktop => {},
        Stage::CreateUser => {
            assert(crate::system::chroot::virtual_filesystems().len() == 3);
        },
        Stage::InstallBootloader => {},
        Stage::Finalize => {},
    }
}

/// The stage after a stage is the next in the order, and the stages before
/// it are the stages before this one and this one.
pub proof fn lemma_stage_order(stage: Stage)
    ensures
        stage.index() < STAGE_COUNT,
        Stage::at(stage.index()) == stage,
        stage.following() matches Some(next) ==> next.index() == stage.index() + 1 && next.earlier()
            == stage.earlier().push(stage),
        stage.following() is None ==> stage == Stage::Finalize,
{
    match stage.following() {
        Some(next) => {
            assert(next.earlier() =~= stage.earlier().push(stage));
        },
        None => {},
    }
}

proof fn lemma_enter_inv(installer: InstallerView, session: SessionView, stage: Stage)
    requires
        session.completed == stage.earlier(),
        session.failure is None,
        session.mounts.entries.len() > 0 ==> session.mounts == installer.mounts(),
        session.mount_point == installer.mount_point,
    ensures
        installer.inv(installer.enter(session, stage)),
        installer.enter(session, stage).state.remaining() <= STAGE_COUNT - stage.index(),
{
    lemma_stage_plans_nonempty(installer, stage, session.mounts, session.completed);
    match installer.stage_plan(stage, session.mounts, session.completed) {
        Ok(plan) => {
            lemma_initial_inv(plan);
        },
        Err(_) => {},
    }
}

/// A run starts in a session that satisfies the invariant.
pub proof fn lemma_begin_inv(installer: InstallerView, claimed: Seq<Seq<char>>)
    ensures
        installer.inv(installer.begin(claimed)),
{
    lemma_stage_plans_nonempty(installer, Stage::PrepareStorage, installer.mounts(), Seq::empty());
    assert(Stage::PrepareStorage.earlier() =~= Seq::<Stage>::empty());
    match installer.storage_plan() {
        Ok(plan) => {
            lemma_initial_inv(plan);
        },
        Err(_) => {},
    }
}

/// Every outcome leads from a session that satisfies the invariant to
/// another, and brings the run closer to its end.
pub proof fn lemma_advance_inv(installer: InstallerView, session: SessionView, outcome: OutcomeView)
    requires
        installer.inv(session),
    ensures
        installer.inv(installer.advance(session, outcome)),
        session.state.over() ==> installer.advance(session, outcome) == session,
        !session.state.over() ==> session.pending() is Some,
        !session.state.over() ==> {
            let next = installer.advance(session, outcome);
            next.state.remaining() < session.state.remaining() || (next.state.remaining()
                == session.state.remaining() && next.runner.fuel() < session.runner.fuel())
        },
{
    match session.state {
        SessionState::Running(stage) => {
            lemma_step_inv(session.runner, outcome);
            lemma_stage_order(stage);
            let runner = session.runner.step(outcome);
            let moved = SessionView { runner, ..session };
            if runner.finished() && runner.failure is None {
                let logged = SessionView { completed: session.completed.push(stage), ..moved };
                match stage.following() {
                    Some(next) => {
                        if !logged.cancel_requested {
                            lemma_enter_inv(installer, logged, next);
                        }
                    },
                    None => {},
                }
            }
        },
        _ => {},
    }
}

/// Every event leads from a session that satisfies the invariant to
/// another, and brings the run closer to its end. A request to stop
/// changes neither the stage nor what is due.
pub proof fn lemma_take_inv(installer: InstallerView, session: SessionView, event: Event)
    requires
        installer.inv(session),
    ensures
        installer.inv(installer.take(session, event)),
        installer.inv(session.cancel()),
        session.cancel().state == session.state,
        session.cancel().pending() == session.pending(),
        session.state.over() ==> installer.take(session, event).state == session.state,
        !session.state.over() ==> session.pending() is Some,
        !session.state.over() ==> {
            let next = installer.take(session, event);
            next.state.remaining() < session.state.remaining() || (next.state.remaining()
                == session.state.remaining() && next.runner.fuel() < session.runner.fuel())
        },
{
    lemma_advance_inv(installer, session, event.outcome);
    lemma_advance_inv(installer, session.cancel(), event.outcome);
}

/// Every session that a run reaches satisfies the invariant.
pub proof fn lemma_replay_inv(installer: InstallerView, claimed: Seq<Seq<char>>, events: Seq<Event>)
    ensures
        installer.inv(installer.replay(claimed, events)),
    decreases events.len(),
{
    if events.len() == 0 {
        lemma_begin_inv(installer, claimed);
    } else {
        lemma_replay_inv(installer, claimed, events.drop_last());
        lemma_take_inv(installer, installer.replay(claimed, events.drop_last()), events.last());
    }
}

/// The boot manager is never refused in a run: with what prepared storage
/// mounts, and with the log as it stands when the stage is reached, the
/// EFI system partition is mounted where the boot manager expects it and
/// the base system is installed.
pub proof fn lemma_boot_plan_admitted(installer: InstallerView)
    ensures
        installer.boot_plan(installer.mounts(), Stage::InstallBootloader.earlier()) is Ok,
        installer.mounts().has_target(installer.storage().efi_mount()),
        Stage::InstallBootloader.earlier().contains(Stage::PrepareStorage),
        Stage::InstallBootloader.earlier().contains(Stage::InstallBase),
{
    let mounts = installer.mounts();
    assert(mounts.entries[2].target == installer.storage().efi_mount());
    let log = Stage::InstallBootloader.earlier();
    assert(log[0] == Stage::PrepareStorage);
    assert(log[1] == Stage::InstallBase);
}

/// A session that is over stays as it is: no outcome moves a run that has
/// completed, failed or been cancelled, so nothing is retried and nothing
/// is done after a failure.
pub proof fn lemma_over_is_final(installer: InstallerView, session: SessionView, outcome: OutcomeView)
    requires
        session.state.over(),
    ensures
        installer.advance(session, outcome) == session,
{
}

/// A run moves from a stage to the stage that follows it and to no
/// other. One outcome leaves the session at its stage, running or failed,
/// or completes the stage: then the log grows by that stage alone, and the
/// session is at the following stage, running, failed or cancelled, or the
/// run is complete where no stage follows.
pub proof fn lemma_one_stage_at_a_time(installer: InstallerView, session: SessionView, outcome: OutcomeView)
    requires
        installer.inv(session),
    ensures
        ({
            let next = installer.advance(session, outcome);
            session.state matches SessionState::Running(stage) ==> {
                ||| next.completed == session.completed && (next.state == SessionState::Running(stage) || next.state
                    == SessionState::Failed(stage))
                ||| next.completed == session.completed.push(stage) && (match stage.following() {
                    Some(following) => next.state == SessionState::Running(following) || next.state
                        == SessionState::Failed(following) || next.state == SessionState::Cancelled(following),
                    None => next.state == SessionState::Completed,
                })
            }
        }),
{
}

/// A request to stop waits for the end of the stage: it changes neither
/// the stage nor the action that is due, and once it is made, the stage
/// that is under way is the last that runs. When that stage succeeds, the
/// session is cancelled before the following stage, or complete where
/// none follows.
pub proof fn lemma_cancel_between_stages(installer: InstallerView, session: SessionView, outcome: OutcomeView)
    requires
        installer.inv(session),
        session.cancel_requested,
    ensures
        ({
            let next = installer.advance(session, outcome);
            session.state matches SessionState::Running(stage) ==> {
                ||| next.state == SessionState::Running(stage) && next.completed == session.completed
                ||| next.state == SessionState::Failed(stage) && next.completed == session.completed
                ||| next.completed == session.completed.push(stage) && (match stage.following() {
                    Some(following) => next.state == SessionState::Cancelled(following),
                    None => next.state == SessionState::Completed,
                })
            }
        }),
{
}

/// A run that nobody cancels ends completed or failed, and a completed
/// run has carried out every stage, in order. Whatever the host reports,
/// the session is running, or has failed with a cause, or has completed
/// with all seven stages in its log.
pub proof fn lemma_run_ends_completed_or_failed(
    installer: InstallerView,
    claimed: Seq<Seq<char>>,
    events: Seq<Event>,
)
    requires
        uninterrupted(events),
    ensures
        ({
            let session = installer.replay(claimed, events);
            &&& !session.cancel_requested
            &&& !(session.state is Cancelled)
            &&& session.state is Failed <==> session.failure is Some
            &&& session.state == SessionState::Completed ==> session.completed == seq![
                Stage::PrepareStorage,
                Stage::InstallBase,
                Stage::ConfigureSystem,
                Stage::InstallDesktop,
                Stage::CreateUser,
                Stage::InstallBootloader,
                Stage::Finalize,
            ]
        }),
    decreases events.len(),
{
    lemma_replay_inv(installer, claimed, events);
    if events.len() > 0 {
        assert(!events[events.len() - 1].stop);
        assert(uninterrupted(events.drop_last())) by {
            assert forall|i: int| 0 <= i < events.drop_last().len() implies !(
            #[trigger] events.drop_last()[i]).stop by {
                assert(events.drop_last()[i] == events[i]);
            }
        }
        lemma_run_ends_completed_or_failed(installer, claimed, events.drop_last());
    }
    let session = installer.replay(claimed, events);
    if session.state == SessionState::Completed {
        assert(session.completed =~= seq![
            Stage::PrepareStorage,
            Stage::InstallBase,
            Stage::ConfigureSystem,
            Stage::InstallDesktop,
            Stage::CreateUser,
            Stage::InstallBootloader,
            Stage::Finalize,
        ]);
    }
}

/// Only the plan that prepares encrypted storage asks for credentials.
pub proof fn lemma_stage_plans_credential_free(
    installer: InstallerView,
    stage: Stage,
    mounts: MountsView,
    completed: Seq<Stage>,
)
    requires
        !(stage == Stage::PrepareStorage && installer.config.use_encryption),
    ensures
        installer.stage_plan(stage, mounts, completed) matches Ok(plan) ==> credential_free(plan.steps),
{
    match stage {
        Stage::PrepareStorage => {
            lemma_plain_storage_credential_free(installer.storage());
        },
        Stage::InstallBase => {},
        Stage::ConfigureSystem => {
            lemma_chroot_plan_credential_free(installer.mount_point, installer.configure_commands());
            lemma_credential_free_add(
                installer.configure_files(),
                chroot_plan(installer.mount_point, installer.configure_commands()).steps,
            );
        },
        Stage::InstallDesktop => {
            lemma_desktop_plan_credential_free(crate::system::display::DisplayView::standard());
        },
        Stage::CreateUser => {
            lemma_chroot_plan_credential_free(installer.mount_point, installer.user_commands());
        },
        Stage::InstallBootloader => {
            lemma_bootloader_plan_credential_free(installer.storage().efi_mount());
        },
        Stage::Finalize => {},
    }
}

/// Wrong credentials can end a run in one place only. Whatever the host
/// reports: a run without encryption never fails with
/// `AuthenticationFailed`; and a run that fails with it has failed at the
/// first stage, at the step that unlocks the encrypted volume, so that no
/// filesystem was made or mounted, no later step of the stage was
/// performed, and no later stage was begun.
pub proof fn lemma_authentication_failure(installer: InstallerView, claimed: Seq<Seq<char>>, events: Seq<Event>)
    ensures
        ({
            let session = installer.replay(claimed, events);
            session.failure matches Some(error) && error is AuthenticationFailed ==> {
                &&& installer.config.use_encryption
                &&& session.state == SessionState::Failed(Stage::PrepareStorage)
                &&& session.completed.len() == 0
                &&& session.runner.performed == installer.storage().unlock_position() + 1
                &&& session.pending() is None
            }
        }),
{
    let session = installer.replay(claimed, events);
    lemma_replay_inv(installer, claimed, events);
    if session.failure is Some && session.failure->0 is AuthenticationFailed {
        let error = session.failure->0;
        let stage = session.state->Failed_0;
        assert(session.state == SessionState::Failed(stage));
        let plan = session.runner.plan;
        assert(installer.stage_plan(stage, session.mounts, session.completed) == Ok::<PlanView, ErrorView>(plan));
        let at = session.runner.performed - 1;
        assert(raised_by(plan.steps[at], error));
        let outcome = choose|outcome: OutcomeView| #[trigger] plan.steps[at].verdict(outcome) == Some(error);
        lemma_authentication_needs_credentials(plan.steps[at], outcome);
        if !(stage == Stage::PrepareStorage && installer.config.use_encryption) {
            lemma_stage_plans_credential_free(installer, stage, session.mounts, session.completed);
        }
        lemma_unlock_before_use(installer.storage());
        assert(Stage::PrepareStorage.earlier().len() == 0);
    }
}

/// A command that fails while the system is configured freezes the
/// session there and leaves the target root mounted. Whatever the host
/// reports: where the session has failed at that stage with
/// `ChrootCommandFailed` for the command at `index`, the commands up to
/// `index` were run and none after it, and all that the stage did after
/// the failure was to unbind the virtual filesystems, once each, the last
/// bind's first. The stage performed no other action, so what storage
/// preparation mounted stays mounted.
pub proof fn lemma_configure_failure(installer: InstallerView, claimed: Seq<Seq<char>>, events: Seq<Event>)
    ensures
        ({
            let session = installer.replay(claimed, events);
            let plan = installer.configure_plan();
            let files = installer.configure_files().len();
            let binds = virtual_filesystems().len();
            forall|index: nat, command: Seq<char>, status: int|
                session.state == SessionState::Failed(Stage::ConfigureSystem) && session.failure == Some(
                    ErrorView::ChrootCommandFailed { index, command, status },
                ) ==> {
                    &&& index < installer.configure_commands().len()
                    &&& command == installer.configure_commands()[index as int].line
                    &&& session.runner.performed == files + binds + index + 1
                    &&& session.runner.whole() == seq![plan.check->0] + plan.actions().take(
                        session.runner.performed as int,
                    ) + unbinds(installer.mount_point, binds)
                    &&& session.completed == seq![Stage::PrepareStorage, Stage::InstallBase]
                    &&& session.pending() is None
                }
        }),
{
    let session = installer.replay(claimed, events);
    let plan = installer.configure_plan();
    let files = installer.configure_files();
    let commands = installer.configure_commands();
    let inner = chroot_plan(installer.mount_point, commands).steps;
    let binds = virtual_filesystems().len();
    lemma_replay_inv(installer, claimed, events);
    assert forall|index: nat, command: Seq<char>, status: int|
        session.state == SessionState::Failed(Stage::ConfigureSystem) && session.failure == Some(
            ErrorView::ChrootCommandFailed { index, command, status },
        ) implies {
        &&& index < commands.len()
        &&& command == commands[index as int].line
        &&& session.runner.performed == files.len() + binds + index + 1
        &&& session.runner.whole() == seq![plan.check->0] + plan.actions().take(session.runner.performed as int)
            + unbinds(installer.mount_point, binds)
        &&& session.completed == seq![Stage::PrepareStorage, Stage::InstallBase]
        &&& session.pending() is None
    } by {
        let error = ErrorView::ChrootCommandFailed { index, command, status };
        let runner = session.runner;
        assert(runner.plan == plan);
        assert(runner.failure == Some(error));
        let at = runner.performed - 1;
        assert(raised_by(plan.steps[at], error));
        let outcome = choose|outcome: OutcomeView| #[trigger] plan.steps[at].verdict(outcome) == Some(error);
        assert(binds == 3);
        assert(files.len() == 3);
        assert(inner.len() == binds + commands.len());
        if at < files.len() {
            assert(plan.steps[at] == files[at]);
        } else if at < files.len() + binds {
            assert(plan.steps[at] == inner[at - files.len()]);
            assert(inner[at - files.len()] == bind_step(
                installer.mount_point,
                virtual_filesystems()[at - files.len()],
            ));
        } else {
            assert(plan.steps[at] == inner[at - files.len()]);
            assert(inner[at - files.len()] == command_step(
                installer.mount_point,
                (at - files.len() - binds) as nat,
                commands[at - files.len() - binds],
            ));
        }
        lemma_undos_after_prefix(files, inner, runner.held());
        lemma_chroot_undos(installer.mount_point, commands, (runner.held() - files.len()) as nat);
        assert(session.completed =~= seq![Stage::PrepareStorage, Stage::InstallBase]);
    }
}

/// A device belongs to one installation at a time: once an installation
/// has claimed its device, a second one for the same device is refused at
/// the first stage with `DeviceBusy`, and no action is ever due in it,
/// whatever the configurations are otherwise.
pub proof fn lemma_second_session_refused(
    first: InstallerView,
    second: InstallerView,
    claimed: Seq<Seq<char>>,
    events: Seq<Event>,
)
    requires
        first.config.disk == second.config.disk,
    ensures
        ({
            let session = second.replay(claimed.push(first.config.disk), events);
            &&& session.state == SessionState::Failed(Stage::PrepareStorage)
            &&& session.failure == Some(ErrorView::DeviceBusy { device: second.config.disk })
            &&& session.pending() is None
            &&& session.completed.len() == 0
        }),
    decreases events.len(),
{
    let owned = claimed.push(first.config.disk);
    assert(owned.last() == first.config.disk);
    assert(owned.contains(second.config.disk));
    if events.len() > 0 {
        lemma_second_session_refused(first, second, claimed, events.drop_last());
    }
}

/// The stages are carried out in their order, none is skipped, and none
/// begins before every stage before it has succeeded. Whatever the host
/// reports: while a stage runs, fails or is cancelled, the log of stages
/// that succeeded holds exactly the stages before it, and the only actions
/// handed out are those of the plan of the running stage. So the boot
/// manager is installed only after the storage was prepared and the base
/// system installed.
pub proof fn lemma_stage_ordering(installer: InstallerView, claimed: Seq<Seq<char>>, events: Seq<Event>)
    ensures
        ({
            let session = installer.replay(claimed, events);
            &&& forall|stage: Stage|
                (session.state == SessionState::Running(stage) || session.state == SessionState::Failed(stage)
                    || session.state == SessionState::Cancelled(stage)) ==> session.completed == stage.earlier()
            &&& forall|stage: Stage|
                session.state == SessionState::Running(stage) ==> installer.stage_plan(stage, session.mounts, session.completed)
                    == Ok::<PlanView, ErrorView>(session.runner.plan)
            &&& session.state == SessionState::Running(Stage::InstallBootloader) ==> {
                &&& session.completed.len() == 5
                &&& session.completed[0] == Stage::PrepareStorage
                &&& session.completed[1] == Stage::InstallBase
            }
            &&& !(session.state is Running) ==> session.pending() is None
        }),
{
    lemma_replay_inv(installer, claimed, events);
}

/// Replaying one more event is taking that event.
pub proof fn lemma_replay_push(installer: InstallerView, claimed: Seq<Seq<char>>, events: Seq<Event>, event: Event)
    ensures
        installer.replay(claimed, events.push(event)) == installer.take(installer.replay(claimed, events), event),
{
    assert(events.push(event).drop_last() =~= events);
}

proof fn lemma_install_step(
    installer: InstallerView,
    claimed: Seq<Seq<char>>,
    actions: Seq<Action>,
    results: Seq<Outcome>,
    stops: Seq<bool>,
    action: Action,
    outcome: Outcome,
    stop: bool,
)
    requires
        actions.len() == results.len(),
        stops.len() == results.len(),
        forall|i: int|
            0 <= i < actions.len() ==> installer.replay(claimed, paired(views(results), stops).take(i)).pending()
                == Some((#[trigger] actions[i])@),
        installer.replay(claimed, paired(views(results), stops)).pending() == Some(action@),
    ensures
        installer.replay(claimed, paired(views(results.push(outcome)), stops.push(stop))) == installer.take(
            installer.replay(claimed, paired(views(results), stops)),
            Event { outcome: outcome@, stop },
        ),
        forall|i: int|
            0 <= i < actions.len() + 1 ==> installer.replay(
                claimed,
                paired(views(results.push(outcome)), stops.push(stop)).take(i),
            ).pending() == Some((#[trigger] actions.push(action)[i])@),
{
    lemma_views_push(results, outcome);
    let before = paired(views(results), stops);
    let event = Event { outcome: outcome@, stop };
    let grown = paired(views(results.push(outcome)), stops.push(stop));
    assert(grown =~= before.push(event));
    lemma_replay_push(installer, claimed, before, event);
    assert forall|i: int| 0 <= i < actions.len() + 1 implies installer.replay(claimed, grown.take(i)).pending()
        == Some((#[trigger] actions.push(action)[i])@) by {
        assert(grown.take(i) =~= before.take(i));
        if i < actions.len() {
            assert(actions.push(action)[i] == actions[i]);
        } else {
            assert(before.take(i) =~= before);
        }
    }
}

/// One run of an installation: the current stage, the log of the stages
/// that succeeded, what is mounted and unlocked, and the cause of a failure.
#[derive(Debug)]
pub struct InstallationSession {
    state: SessionState,
    completed: Vec<Stage>,
    runner: Runner,
    failure: Option<InstallError>,
    cancel_requested: bool,
    mounts: MountPlan,
    volume: Option<EncryptedVolume>,
    mount_point: String,
    encrypted_device: Option<String>,
}

impl View for InstallationSession {
    type V = SessionView;

    closed spec fn view(&self) -> SessionView {
        SessionView {
            state: self.state,
            completed: self.completed@,
            runner: self.runner@,
            failure: view_error(self.failure),
            cancel_requested: self.cancel_requested,
            mounts: self.mounts@,
            volume: view_volume(self.volume),
            mount_point: self.mount_point@,
            encrypted_device: crate::text::view_opt(self.encrypted_device),
        }
    }
}

impl InstallationSession {
    /// Where the installation stands.
    pub fn state(&self) -> (r: SessionState)
        ensures
            r == self@.state,
    {
        self.state
    }

    /// Whether no action will be due any more.
    pub fn is_over(&self) -> (r: bool)
        ensures
            r == self@.state.over(),
    {
        match self.state {
            SessionState::Running(_) => false,
            _ => true,
        }
    }

    /// The stages that were carried out, in their order.
    pub fn completed(&self) -> (r: &Vec<Stage>)
        ensures
            r@ == self@.completed,
    {
        &self.completed
    }

    /// Why the run failed, if it did.
    pub fn failure(&self) -> (r: Option<&InstallError>)
        ensures
            match r {
                Some(error) => self@.failure == Some(error@),
                None => self@.failure is None,
            },
    {
        self.failure.as_ref()
    }

    /// The action that the host has to perform now, or `None` where the
    /// run is over.
    pub fn next_action(&self) -> (r: Option<&Action>)
        ensures
            match r {
                Some(action) => self@.pending() == Some(action@),
                None => self@.pending() is None,
            },
    {
        match self.state {
            SessionState::Running(_) => self.runner.next_action(),
            _ => None,
        }
    }

    /// Asks the run to stop before the next stage. The stage that is under
    /// way is carried on to its end.
    pub fn request_cancel(&mut self)
        ensures
            final(self)@ == old(self)@.cancel(),
    {
        self.cancel_requested = true;
    }

    /// Whether the run of the stage that failed released anything.
    pub fn cleanup_performed(&self) -> (r: bool)
        ensures
            r == self@.cleanup_performed(),
    {
        match self.state {
            SessionState::Failed(_) => self.runner.cleaned(),
            _ => false,
        }
    }

    /// What the operator is told of the run.
    pub fn summary(&self) -> (r: String)
        ensures
            r@ == self@.summary(),
    {
        match self.state {
            SessionState::Completed => String::from_str("installation completed"),
            SessionState::Running(stage) => chain3("stage ", stage.name(), " is running"),
            SessionState::Cancelled(stage) => chain("cancelled before stage ", stage.name()),
            SessionState::Failed(stage) => {
                let mut r = chain3("stage ", stage.name(), " failed: ");
                match &self.failure {
                    Some(error) => {
                        let report = error.report();
                        r.append(report.as_str());
                    },
                    None => {
                        r.append("unknown");
                    },
                }
                if self.cleanup_performed() {
                    r.append(", cleanup performed");
                } else {
                    r.append(", no cleanup performed");
                }
                r
            },
        }
    }

    /// What is mounted once the storage is prepared.
    pub fn mounts(&self) -> (r: &MountPlan)
        ensures
            r@ == self@.mounts,
    {
        &self.mounts
    }

    /// The encrypted volume, where the storage is encrypted.
    pub fn volume(&self) -> (r: Option<&EncryptedVolume>)
        ensures
            match r {
                Some(volume) => self@.volume == Some(volume@),
                None => self@.volume is None,
            },
    {
        self.volume.as_ref()
    }

    /// Where the target root is mounted.
    pub fn mount_point(&self) -> (r: &String)
        ensures
            r@ == self@.mount_point,
    {
        &self.mount_point
    }

    /// The device of the unlocked volume, where the storage is encrypted.
    pub fn encrypted_device(&self) -> (r: Option<&String>)
        ensures
            match r {
                Some(device) => self@.encrypted_device == Some(device@),
                None => self@.encrypted_device is None,
            },
    {
        self.encrypted_device.as_ref()
    }

    /// The run of the current stage's plan.
    pub fn runner(&self) -> (r: &Runner)
        ensures
            r@ == self@.runner,
    {
        &self.runner
    }

    /// The plan that takes the installation down.
    pub fn teardown(&self) -> (plan: Plan)
        ensures
            plan@ == self@.teardown_plan(),
    {
        if self.completed.len() == 0 {
            return Plan::new(Unwind::Never);
        }
        let mut plan = teardown_of(&self.mounts);
        match &self.volume {
            Some(volume) => {
                plan.push(
                    Step::run(
                        Command::new("cryptsetup").arg("close").arg(volume.mapper_name.as_str()),
                        Failure::Device,
                    ),
                );
            },
            None => {},
        }
        plan
    }
}

impl SystemInstaller {
    fn refused(&self, error: InstallError) -> (session: InstallationSession)
        ensures
            session@ == (SessionView {
                state: SessionState::Failed(Stage::PrepareStorage),
                completed: Seq::empty(),
                runner: RunnerView::initial(PlanView::empty(Unwind::Never)),
                failure: Some(error@),
                cancel_requested: false,
                mounts: MountsView { entries: Seq::empty() },
                volume: None,
                mount_point: self@.mount_point,
                encrypted_device: None,
            }),
    {
        let mounts = MountPlan::new();
        proof {
            assert(mounts@.entries =~= Seq::<crate::system::filesystem::EntryView>::empty());
        }
        InstallationSession {
            state: SessionState::Failed(Stage::PrepareStorage),
            completed: Vec::new(),
            runner: Runner::start(Plan::new(Unwind::Never)),
            failure: Some(error),
            cancel_requested: false,
            mounts,
            volume: None,
            mount_point: self.mount_point.clone(),
            encrypted_device: None,
        }
    }

    /// Starts an installation and has it own its device in `registry`.
    /// Nothing has been performed yet; the first action of the first stage
    /// is due. Where another installation owns the device, or the storage
    /// plan is refused, the session has failed at the first stage and
    /// nothing is due. The device is owned from now on, unless another
    /// installation owned it.
    pub fn begin(&self, registry: &mut DeviceRegistry) -> (session: InstallationSession)
        ensures
            session@ == self@.begin(old(registry)@),
            final(registry)@ == (if old(registry)@.contains(self@.config.disk) {
                old(registry)@
            } else {
                old(registry)@.push(self@.config.disk)
            }),
    {
        match registry.claim(self.config.disk.as_str()) {
            Ok(_) => {},
            Err(busy) => {
                return self.refused(busy);
            },
        }
        match self.prepare_storage() {
            Ok(setup) => {
                let encrypted_device = if self.config.use_encryption {
                    Some(setup.root_source)
                } else {
                    None
                };
                InstallationSession {
                    state: SessionState::Running(Stage::PrepareStorage),
                    completed: Vec::new(),
                    runner: Runner::start(setup.plan),
                    failure: None,
                    cancel_requested: false,
                    mounts: setup.mounts,
                    volume: setup.volume,
                    mount_point: self.mount_point.clone(),
                    encrypted_device,
                }
            },
            Err(error) => self.refused(error),
        }
    }

    fn enter(&self, session: &mut InstallationSession, stage: Stage)
        ensures
            final(session)@ == self@.enter(old(session)@, stage),
    {
        match self.stage_plan(stage, &session.mounts, &session.completed) {
            Ok(plan) => {
                session.state = SessionState::Running(stage);
                session.runner = Runner::start(plan);
            },
            Err(error) => {
                session.state = SessionState::Failed(stage);
                session.failure = Some(error);
            },
        }
    }

    /// Takes the outcome that the host reports for the action that was
    /// due, and moves the session on.
    pub fn advance(&self, session: &mut InstallationSession, outcome: &Outcome)
        ensures
            final(session)@ == self@.advance(old(session)@, outcome@),
    {
        match session.state {
            SessionState::Running(stage) => {
                session.runner.record(outcome);
                if !session.runner.finished() {
                    return ;
                }
                match session.runner.failure() {
                    Some(error) => {
                        let cause = error.clone();
                        session.state = SessionState::Failed(stage);
                        session.failure = Some(cause);
                    },
                    None => {
                        session.completed.push(stage);
                        match stage.next() {
                            None => {
                                session.state = SessionState::Completed;
                            },
                            Some(next) => {
                                if session.cancel_requested {
                                    session.state = SessionState::Cancelled(next);
                                } else {
                                    self.enter(session, next);
                                }
                            },
                        }
                    },
                }
            },
            _ => {},
        }
    }

    /// Runs the whole installation: hands each action that is due to
    /// `execute` and takes what it returns as the outcome, until the last
    /// stage is done or a stage fails. After each action it asks
    /// `cancelled` whether to stop; a yes takes effect when the stage that
    /// is under way has ended. The installation owns its device in
    /// `registry` while it runs and gives it back at the end. The result is
    /// the session that the outcomes and answers lead to, and each action
    /// handed out was the one due after the events before it.
    pub fn install_system<F: Fn(&Action) -> Outcome, G: Fn() -> bool>(
        &self,
        registry: &mut DeviceRegistry,
        execute: &F,
        cancelled: &G,
    ) -> (session: InstallationSession)
        requires
            forall|action: &Action| execute.requires((action,)),
            cancelled.requires(()),
        ensures
            session@.state.over(),
            final(registry)@ == (if old(registry)@.contains(self@.config.disk) {
                old(registry)@
            } else {
                without(old(registry)@.push(self@.config.disk), self@.config.disk)
            }),
            exists|actions: Seq<Action>, results: Seq<Outcome>, stops: Seq<bool>|
                {
                    &&& session@ == self@.replay(old(registry)@, paired(views(results), stops))
                    &&& actions.len() == results.len()
                    &&& stops.len() == results.len()
                    &&& forall|i: int|
                        0 <= i < actions.len() ==> execute.ensures((&#[trigger] actions[i],), results[i])
                    &&& forall|i: int| 0 <= i < stops.len() ==> cancelled.ensures((), #[trigger] stops[i])
                    &&& forall|i: int|
                        0 <= i < actions.len() ==> self@.replay(
                            old(registry)@,
                            paired(views(results), stops).take(i),
                        ).pending() == Some((#[trigger] actions[i])@)
                },
    {
        let ghost claimed = registry@;
        let owned_before = registry.is_claimed(self.config.disk.as_str());
        let mut session = self.begin(registry);
        let ghost mut actions: Seq<Action> = Seq::empty();
        let ghost mut results: Seq<Outcome> = Seq::empty();
        let ghost mut stops: Seq<bool> = Seq::empty();
        proof {
            lemma_begin_inv(self@, claimed);
            assert(paired(views(results), stops) =~= Seq::<Event>::empty());
        }
        loop
            invariant
                forall|action: &Action| execute.requires((action,)),
                cancelled.requires(()),
                self@.inv(session@),
                session@ == self@.replay(claimed, paired(views(results), stops)),
                actions.len() == results.len(),
                stops.len() == results.len(),
                forall|i: int| 0 <= i < actions.len() ==> execute.ensures((&#[trigger] actions[i],), results[i]),
                forall|i: int| 0 <= i < stops.len() ==> cancelled.ensures((), #[trigger] stops[i]),
                forall|i: int|
                    0 <= i < actions.len() ==> self@.replay(
                        claimed,
                        paired(views(results), stops).take(i),
                    ).pending() == Some((#[trigger] actions[i])@),
            ensures
                session@.state.over(),
            decreases session@.state.remaining(), session@.runner.fuel(),
        {
            let ghost before = session@;
            match session.next_action() {
                None => {
                    proof {
                        lemma_take_inv(self@, before, Event { outcome: OutcomeView::Missing, stop: false });
                    }
                    break ;
                },
                Some(action) => {
                    let outcome = execute(action);
                    let ghost performed = *action;
                    let stop = cancelled();
                    if stop {
                        session.request_cancel();
                    }
                    self.advance(&mut session, &outcome);
                    proof {
                        lemma_take_inv(self@, before, Event { outcome: outcome@, stop });
                        lemma_install_step(self@, claimed, actions, results, stops, performed, outcome, stop);
                        actions = actions.push(performed);
                        results = results.push(outcome);
                        stops = stops.push(stop);
                    }
                },
            }
        }
        if !owned_before {
            registry.release(self.config.disk.as_str());
        }
        session
    }
}

} // verus!
