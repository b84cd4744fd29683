//! Building the installation image: the working directories, the image
//! profile, the base files, the installer and the image itself.
use vstd::prelude::*;
use crate::command::{Action, ActionView, Command, CommandView};
use crate::error::{ErrorView, InstallError};
use crate::plan::{Plan, PlanView, Step, StepView, Unwind};
use crate::system::builder::IMAGE_WORK_DIR;
use crate::text::{chain3, interleave, interleaved, join, join_path, joined, lemma_views_push, path_under, remove_char, views, without_char};

verus! {

/// The image profile, cut where the label and the version go.
pub const PROFILE_PIECES: [&'static str; 3] = [
    "\n#!/usr/bin/env bash\niso_name=\"xbitos\"\niso_label=\"XBITOS_",
    "\"\niso_publisher=\"xBitOS <https://xbitos.org>\"\niso_application=\"xBitOS Live/Rescue CD\"\niso_version=\"",
    "\"\ninstall_dir=\"xbitos\"\nbuildmodes=('iso')\nbootmodes=('bios.syslinux.mbr' 'bios.syslinux.eltorito' 'uefi-x64.systemd-boot.esp' 'uefi-x64.systemd-boot.eltorito')\narch=\"x86_64\"\npacman_conf=\"pacman.conf\"\nairootfs_image_type=\"squashfs\"\nairootfs_image_tool_options=('-comp' 'xz' '-Xbcj' 'x86' '-b' '1M' '-Xdict-size' '1M')\n",
];

/// The entry that starts the installer when the live system comes up.
pub const INSTALLER_AUTOSTART: &'static str = r#"
[Desktop Entry]
Type=Application
Name=Install xBitOS
Exec=xbitos-installer
Icon=system-software-install
"#;

/// The packages of the live system.
pub const LIVE_PACKAGES: [&'static str; 6] = [
    "base",
    "linux-zen",
    "linux-firmware",
    "hyprland",
    "networkmanager",
    "xbitos-desktop",
];

/// The packages that every image carries.
pub const ESSENTIAL_PACKAGES: [&'static str; 24] = [
    "base",
    "base-devel",
    "linux-zen",
    "linux-firmware",
    "hyprland",
    "waybar",
    "alacritty",
    "wofi",
    "dunst",
    "polkit-kde-agent",
    "networkmanager",
    "network-manager-applet",
    "pipewire",
    "pipewire-pulse",
    "firefox",
    "git",
    "nano",
    "vim",
    "noto-fonts",
    "ttf-jetbrains-mono-nerd",
    "papirus-icon-theme",
    "gparted",
    "htop",
    "neofetch",
];

/// The tools without which no image can be built.
pub const REQUIRED_TOOLS: [&'static str; 3] = ["mkarchiso", "pacstrap", "arch-chroot"];

/// Where the installer is taken from.
pub const INSTALLER_BINARY: &'static str = "/usr/bin/xbitos-installer";

/// Builds the plan that builds an installation image.
#[derive(Debug)]
pub struct IsoBuilder {
    pub work_dir: String,
    pub output_dir: String,
    pub version: String,
}

/// An image builder as plain values.
pub struct IsoView {
    pub work_dir: Seq<char>,
    pub output_dir: Seq<char>,
    pub version: Seq<char>,
}

impl View for IsoBuilder {
    type V = IsoView;

    open spec fn view(&self) -> IsoView {
        IsoView { work_dir: self.work_dir@, output_dir: self.output_dir@, version: self.version@ }
    }
}

impl IsoView {
    /// The root of the live system.
    pub open spec fn airootfs(self) -> Seq<char> {
        path_under(self.work_dir, "airootfs"@)
    }

    /// The working directories.
    pub open spec fn directory_steps(self) -> Seq<StepView> {
        seq![
            StepView::mkdir(self.work_dir),
            StepView::mkdir(self.output_dir),
            StepView::mkdir(self.airootfs()),
            StepView::mkdir(path_under(self.work_dir, "boot"@)),
            StepView::mkdir(path_under(self.work_dir, "efiboot"@)),
        ]
    }

    /// The image profile: the label is the version without its dots.
    pub open spec fn profile(self) -> Seq<char> {
        interleaved(views(PROFILE_PIECES@), seq![without_char(self.version, '.'), self.version])
    }

    /// The step that writes the image profile.
    pub open spec fn config_steps(self) -> Seq<StepView> {
        seq![StepView::write(path_under(self.work_dir, "profiledef.sh"@), self.profile())]
    }

    /// The step that installs the live system into its root.
    pub open spec fn base_steps(self) -> Seq<StepView> {
        seq![StepView::attempt(CommandView::new("pacstrap"@).arg(self.airootfs()).args(views(LIVE_PACKAGES@)))]
    }

    /// The steps that put the installer into the live system.
    pub open spec fn installer_steps(self) -> Seq<StepView> {
        seq![
            StepView::file(
                ActionView::CopyFile {
                    from: INSTALLER_BINARY@,
                    to: path_under(self.work_dir, "airootfs/usr/bin/xbitos-installer"@),
                },
            ),
            StepView::write(
                path_under(self.work_dir, "airootfs/etc/xdg/autostart/installer.desktop"@),
                INSTALLER_AUTOSTART@,
            ),
        ]
    }

    /// The step that builds the image.
    pub open spec fn image_steps(self) -> Seq<StepView> {
        seq![
            StepView::attempt(
                CommandView::new("mkarchiso"@).arg("-v"@).arg("-w"@).arg(IMAGE_WORK_DIR@).arg("-o"@).arg(
                    self.output_dir,
                ).arg(self.work_dir),
            ),
        ]
    }

    /// The step that installs the essential packages, named in one
    /// argument, into the root of the live system.
    pub open spec fn package_steps(self) -> Seq<StepView> {
        seq![
            StepView::attempt(
                CommandView::new("pacstrap"@).arg(self.airootfs()).arg(joined(views(ESSENTIAL_PACKAGES@), " "@)),
            ),
        ]
    }

    /// The name of the image file.
    pub open spec fn iso_name(self) -> Seq<char> {
        "xbitos-"@ + self.version + "-x86_64.iso"@
    }

    /// The whole build: directories, profile, base files, installer, image.
    pub open spec fn plan(self) -> PlanView {
        PlanView::of(
            self.directory_steps() + self.config_steps() + self.base_steps() + self.installer_steps()
                + self.image_steps(),
        )
    }
}

/// The verdict on the required tools, given which of them were found: the
/// first that is missing is reported.
pub open spec fn requirements_verdict(required: Seq<Seq<char>>, found: Seq<bool>) -> Result<(), ErrorView>
    decreases required.len(),
{
    if required.len() == 0 {
        Ok(())
    } else {
        match requirements_verdict(required.drop_last(), found) {
            Err(error) => Err(error),
            Ok(_) => if required.len() - 1 < found.len() && !found[required.len() - 1] {
                Err(ErrorView::ToolMissing { program: required.last() })
            } else {
                Ok(())
            },
        }
    }
}

/// The steps that install what building an image requires.
pub open spec fn requirement_steps() -> Seq<StepView> {
    seq![
        StepView::attempt(CommandView::new("sudo"@).arg("pacman"@).arg("-Sy"@)),
        StepView::attempt(
            CommandView::new("sudo"@).arg("pacman"@).arg("-S"@).arg("--noconfirm"@).arg("archiso"@).arg(
                "arch-install-scripts"@,
            ),
        ),
    ]
}

/// Asks `which::which` whether a program of this name can be found on the
/// search path. The answer depends on what is on disk, so nothing is
/// claimed of it.
#[verifier::external_body]
fn tool_on_path(name: &str) -> (found: bool) {
    match which::which(name) {
        Ok(_) => true,
        Err(_) => false,
    }
}

/// Judges which of `required` is missing, given which were found. The
/// first tool that was looked for and not found is reported as
/// `ToolMissing`.
pub fn judge_requirements(required: &[&str], found: &Vec<bool>) -> (r: Result<(), InstallError>)
    ensures
        match r {
            Ok(_) => requirements_verdict(views(required@), found@) is Ok,
            Err(error) => requirements_verdict(views(required@), found@) == Err::<(), ErrorView>(error@),
        },
{
    let mut i: usize = 0;
    while i < required.len()
        invariant
            i <= required.len(),
            requirements_verdict(views(required@).take(i as int), found@) is Ok,
        decreases required.len() - i,
    {
        proof {
            let all = views(required@);
            assert(all.take(i + 1).drop_last() =~= all.take(i as int));
            assert(all.take(i + 1).last() == required[i as int]@);
        }
        if i < found.len() && !found[i] {
            proof {
                lemma_verdict_stays(views(required@), found@, (i + 1) as int);
            }
            return Err(InstallError::ToolMissing { program: String::from_str(required[i]) });
        }
        i += 1;
    }
    proof {
        assert(views(required@).take(required.len() as int) =~= views(required@));
    }
    Ok(())
}

/// Once a tool is reported missing, looking at more tools changes nothing.
proof fn lemma_verdict_stays(required: Seq<Seq<char>>, found: Seq<bool>, n: int)
    requires
        0 <= n <= required.len(),
        requirements_verdict(required.take(n), found) is Err,
    ensures
        requirements_verdict(required, found) == requirements_verdict(required.take(n), found),
    decreases required.len() - n,
{
    if n == required.len() {
        assert(required.take(n) =~= required);
    } else {
        assert(required.take(n + 1).drop_last() =~= required.take(n));
        lemma_verdict_stays(required, found, n + 1);
    }
}

/// Looks for each required tool on the search path and reports the first
/// that is missing. Whatever is found, the result is the verdict on what
/// was found.
pub fn check_requirements() -> (r: Result<(), InstallError>)
    ensures
        exists|found: Seq<bool>|
            found.len() == REQUIRED_TOOLS@.len() && match r {
                Ok(_) => requirements_verdict(views(REQUIRED_TOOLS@), found) is Ok,
                Err(error) => requirements_verdict(views(REQUIRED_TOOLS@), found) == Err::<(), ErrorView>(error@),
            },
{
    let mut found: Vec<bool> = Vec::new();
    let mut i: usize = 0;
    while i < REQUIRED_TOOLS.len()
        invariant
            i <= REQUIRED_TOOLS@.len(),
            found@.len() == i,
        decreases REQUIRED_TOOLS@.len() - i,
    {
        found.push(tool_on_path(REQUIRED_TOOLS[i]));
        i += 1;
    }
    judge_requirements(&REQUIRED_TOOLS, &found)
}

/// The plan that installs what building an image requires.
pub fn install_requirements() -> (plan: Plan)
    ensures
        plan@ == PlanView::of(requirement_steps()),
{
    let mut plan = Plan::new(Unwind::Never);
    plan.push(Step::attempt(Command::new("sudo").arg("pacman").arg("-Sy")));
    plan.push(
        Step::attempt(
            Command::new("sudo").arg("pacman").arg("-S").arg("--noconfirm").arg("archiso").arg(
                "arch-install-scripts",
            ),
        ),
    );
    proof {
        assert(plan@.steps =~= requirement_steps());
    }
    plan
}

/// A command with each of `values` added as an argument, in order.
pub fn with_args(command: Command, values: &[&str]) -> (r: Command)
    ensures
        r@ == command@.args(views(values@)),
{
    let mut r = command;
    let mut i: usize = 0;
    proof {
        assert(command@.args + views(values@).take(0) =~= command@.args);
    }
    while i < values.len()
        invariant
            i <= values.len(),
            r@ == command@.args(views(values@).take(i as int)),
        decreases values.len() - i,
    {
        let ghost before = r@;
        r = r.arg(values[i]);
        proof {
            let all = views(values@);
            assert(before.args.push(all[i as int]) =~= command@.args + all.take(i + 1));
        }
        i += 1;
    }
    proof {
        assert(views(values@).take(values.len() as int) =~= views(values@));
    }
    r
}

impl IsoBuilder {
    /// A builder for the image of `version`, over the directories that the
    /// system uses.
    pub fn new(version: &str) -> (r: Self)
        ensures
            r@.work_dir == "/var/lib/xbitos/iso"@,
            r@.output_dir == "/var/lib/xbitos/releases"@,
            r@.version == version@,
    {
        IsoBuilder {
            work_dir: String::from_str("/var/lib/xbitos/iso"),
            output_dir: String::from_str("/var/lib/xbitos/releases"),
            version: String::from_str(version),
        }
    }

    /// The plan that builds the image.
    pub fn build_iso(&self) -> (plan: Plan)
        ensures
            plan@ == self@.plan(),
    {
        let mut plan = self.setup_directories();
        plan.extend(self.setup_config_files());
        plan.extend(self.copy_base_files());
        plan.extend(self.setup_installer());
        plan.extend(self.create_iso());
        plan
    }

    /// The plan that creates the working directories.
    pub fn setup_directories(&self) -> (plan: Plan)
        ensures
            plan@ == PlanView::of(self@.directory_steps()),
    {
        let work_dir = self.work_dir.as_str();
        let mut plan = Plan::new(Unwind::Never);
        plan.push(Step::mkdir(work_dir));
        plan.push(Step::mkdir(self.output_dir.as_str()));
        plan.push(Step::mkdir(join_path(work_dir, "airootfs").as_str()));
        plan.push(Step::mkdir(join_path(work_dir, "boot").as_str()));
        plan.push(Step::mkdir(join_path(work_dir, "efiboot").as_str()));
        proof {
            assert(plan@.steps =~= self@.directory_steps());
        }
        plan
    }

    /// The text of the image profile.
    pub fn profile(&self) -> (r: String)
        ensures
            r@ == self@.profile(),
    {
        let mut values: Vec<String> = Vec::new();
        values.push(remove_char(self.version.as_str(), '.'));
        values.push(self.version.clone());
        proof {
            assert(views(values@) =~= seq![without_char(self@.version, '.'), self@.version]);
        }
        interleave(&PROFILE_PIECES, &values)
    }

    /// The plan that writes the image profile.
    pub fn setup_config_files(&self) -> (plan: Plan)
        ensures
            plan@ == PlanView::of(self@.config_steps()),
    {
        let mut plan = Plan::new(Unwind::Never);
        let file = join_path(self.work_dir.as_str(), "profiledef.sh");
        let profile = self.profile();
        plan.push(Step::write(file.as_str(), profile.as_str()));
        proof {
            assert(plan@.steps =~= self@.config_steps());
        }
        plan
    }

    /// The plan that installs the live system into its root.
    pub fn copy_base_files(&self) -> (plan: Plan)
        ensures
            plan@ == PlanView::of(self@.base_steps()),
    {
        let root = join_path(self.work_dir.as_str(), "airootfs");
        let mut plan = Plan::new(Unwind::Never);
        plan.push(Step::attempt(with_args(Command::new("pacstrap").arg(root.as_str()), &LIVE_PACKAGES)));
        proof {
            assert(plan@.steps =~= self@.base_steps());
        }
        plan
    }

    /// The plan that puts the installer into the live system.
    pub fn setup_installer(&self) -> (plan: Plan)
        ensures
            plan@ == PlanView::of(self@.installer_steps()),
    {
        let work_dir = self.work_dir.as_str();
        let mut plan = Plan::new(Unwind::Never);
        let target = join_path(work_dir, "airootfs/usr/bin/xbitos-installer");
        plan.push(Step::file(Action::copy_file(INSTALLER_BINARY, target.as_str())));
        let entry = join_path(work_dir, "airootfs/etc/xdg/autostart/installer.desktop");
        plan.push(Step::write(entry.as_str(), INSTALLER_AUTOSTART));
        proof {
            assert(plan@.steps =~= self@.installer_steps());
        }
        plan
    }

    /// The name of the image file.
    pub fn iso_name(&self) -> (r: String)
        ensures
            r@ == self@.iso_name(),
    {
        chain3("xbitos-", self.version.as_str(), "-x86_64.iso")
    }

    /// The plan that builds the image.
    pub fn create_iso(&self) -> (plan: Plan)
        ensures
            plan@ == PlanView::of(self@.image_steps()),
    {
        let mut plan = Plan::new(Unwind::Never);
        plan.push(
            Step::attempt(
                Command::new("mkarchiso").arg("-v").arg("-w").arg(IMAGE_WORK_DIR).arg("-o").arg(
                    self.output_dir.as_str(),
                ).arg(self.work_dir.as_str()),
            ),
        );
        proof {
            assert(plan@.steps =~= self@.image_steps());
        }
        plan
    }

    /// The plan that installs the essential packages into the root of the
    /// live system.
    pub fn setup_packages(&self) -> (plan: Plan)
        ensures
            plan@ == PlanView::of(self@.package_steps()),
    {
        let root = join_path(self.work_dir.as_str(), "airootfs");
        let mut names: Vec<String> = Vec::new();
        let mut i: usize = 0;
        proof {
            assert(views(names@) =~= views(ESSENTIAL_PACKAGES@).take(0));
        }
        while i < ESSENTIAL_PACKAGES.len()
            invariant
                i <= ESSENTIAL_PACKAGES@.len(),
                views(names@) == views(ESSENTIAL_PACKAGES@).take(i as int),
            decreases ESSENTIAL_PACKAGES@.len() - i,
        {
            let ghost before = names@;
            let name = String::from_str(ESSENTIAL_PACKAGES[i]);
            names.push(name);
            proof {
                lemma_views_push(before, name);
                assert(views(before).push(name@) =~= views(ESSENTIAL_PACKAGES@).take(i + 1));
            }
            i += 1;
        }
        proof {
            assert(views(ESSENTIAL_PACKAGES@).take(ESSENTIAL_PACKAGES@.len() as int) =~= views(ESSENTIAL_PACKAGES@));
        }
        let all = join(&names, " ");
        let mut plan = Plan::new(Unwind::Never);
        plan.push(Step::attempt(Command::new("pacstrap").arg(root.as_str()).arg(all.as_str())));
        proof {
            assert(plan@.steps =~= self@.package_steps());
        }
        plan
    }
}

} // verus!
