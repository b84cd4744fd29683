//! Building the base system: the build tools, the list of core packages,
//! the local repository and the system image.
use vstd::prelude::*;
use crate::command::{Command, CommandView};
use crate::plan::{Plan, PlanView, Step, StepView, Unwind};
use crate::system::package_manager::{install_plan, PackageManager};
use crate::text::{join_path, path_under, views};

verus! {

/// The tools that building needs.
pub const BUILD_TOOLS: [&'static str; 6] = [
    "base-devel",
    "git",
    "archiso",
    "mkinitcpio-archiso",
    "squashfs-tools",
    "pacman-contrib",
];

/// The list of the core packages.
pub const CORE_PACKAGES: &'static str = r#"
# النظام الأساسي
base
base-devel
linux-zen
linux-zen-headers
linux-firmware

# أدوات النظام
sudo
systemd
systemd-sysvcompat
e2fsprogs
btrfs-progs
xfsprogs
dosfstools
networkmanager
wpa_supplicant

# الأدوات الأساسية
vim
nano
git
wget
curl
tar
gzip
unzip

# واجهة المستخدم
hyprland
waybar
alacritty
wofi
light
xdg-desktop-portal-hyprland
polkit
gtk3
gtk4
qt5-wayland
qt6-wayland
sddm

# الصوت
pipewire
pipewire-pulse
pipewire-alsa
pipewire-jack
wireplumber

# الشبكة
networkmanager
network-manager-applet
iwd
dhcpcd
openssh
firewalld

# الأدوات المساعدة
gparted
htop
neofetch
"#;

/// The profile of the system image.
pub const IMAGE_PROFILE: &'static str = r#"
#!/usr/bin/env bash

# إعدادات الصورة
iso_name="xbitos"
iso_label="XBITOS_$(date +%Y%m)"
iso_publisher="xBitOS <https://xbitos.org>"
iso_application="xBitOS Live/Rescue CD"
iso_version="$(date +%Y.%m.%d)"
install_dir="xbitos"
buildmodes=('iso')
bootmodes=('bios.syslinux.mbr' 'bios.syslinux.eltorito' 'uefi-x64.systemd-boot.esp' 'uefi-x64.systemd-boot.eltorito')
arch="x86_64"
pacman_conf="pacman.conf"
airootfs_image_type="squashfs"
airootfs_image_tool_options=('-comp' 'xz' '-Xbcj' 'x86' '-b' '1M' '-Xdict-size' '1M')

# حزم إضافية للصورة الحية
packages=(
    'memtest86+'
    'mkinitcpio-nfs-utils'
    'nbd'
    'edk2-shell'
    'grub'
)

# نسخ الملفات الإضافية
file_permissions=(
    ["/etc/shadow"]="0:0:400"
    ["/etc/gshadow"]="0:0:400"
    ["/root"]="0:0:750"
    ["/root/.automated_script.sh"]="0:0:755"
    ["/usr/local/bin/choose-mirror"]="0:0:755"
    ["/usr/local/bin/Installation_guide"]="0:0:755"
)
"#;

/// Where the image builder keeps its working files.
pub const IMAGE_WORK_DIR: &'static str = "/tmp/archiso-tmp";

/// Builds the plan that builds the base system.
#[derive(Debug)]
pub struct SystemBuilder {
    pub build_path: String,
    pub packages_path: String,
}

/// A system builder as plain values.
pub struct BuilderView {
    pub build_path: Seq<char>,
    pub packages_path: Seq<char>,
}

impl View for SystemBuilder {
    type V = BuilderView;

    open spec fn view(&self) -> BuilderView {
        BuilderView { build_path: self.build_path@, packages_path: self.packages_path@ }
    }
}

impl BuilderView {
    /// The steps that write the package list and fill the local repository.
    pub open spec fn core_steps(self) -> Seq<StepView> {
        seq![
            StepView::write(path_under(self.build_path, "packages.txt"@), CORE_PACKAGES@),
            StepView::attempt(
                CommandView::new("repo-add"@).arg(path_under(self.packages_path, "xbitos.db.tar.gz"@)).arg(
                    path_under(self.packages_path, "*.pkg.tar.zst"@),
                ),
            ),
        ]
    }

    /// The steps that write the image profile and build the image.
    pub open spec fn image_steps(self) -> Seq<StepView> {
        seq![
            StepView::write(path_under(self.build_path, "profiledef.sh"@), IMAGE_PROFILE@),
            StepView::attempt(
                CommandView::new("mkarchiso"@).arg("-v"@).arg("-w"@).arg(IMAGE_WORK_DIR@).arg(self.build_path),
            ),
        ]
    }

    /// The whole build: directories, tools, core packages, image.
    pub open spec fn plan(self) -> PlanView {
        PlanView::of(
            seq![StepView::mkdir(self.build_path), StepView::mkdir(self.packages_path)] + install_plan(
                views(BUILD_TOOLS@),
            ).steps + self.core_steps() + self.image_steps(),
        )
    }
}

impl SystemBuilder {
    /// A builder over the directories that the system uses.
    pub fn new() -> (r: Self)
        ensures
            r@.build_path == "/var/lib/xbitos/build"@,
            r@.packages_path == "/var/lib/xbitos/packages"@,
    {
        SystemBuilder {
            build_path: String::from_str("/var/lib/xbitos/build"),
            packages_path: String::from_str("/var/lib/xbitos/packages"),
        }
    }

    /// The plan that builds the base system.
    pub fn build_base_system(&self) -> (plan: Plan)
        ensures
            plan@ == self@.plan(),
    {
        let mut plan = Plan::new(Unwind::Never);
        plan.push(Step::mkdir(self.build_path.as_str()));
        plan.push(Step::mkdir(self.packages_path.as_str()));
        proof {
            assert(plan@.steps =~= seq![StepView::mkdir(self@.build_path), StepView::mkdir(self@.packages_path)]);
        }
        plan.extend(self.install_build_tools());
        plan.extend(self.build_core_packages());
        plan.extend(self.create_system_image());
        plan
    }

    /// The plan that installs the build tools.
    pub fn install_build_tools(&self) -> (plan: Plan)
        ensures
            plan@ == install_plan(views(BUILD_TOOLS@)),
    {
        PackageManager::new().install_packages(&BUILD_TOOLS)
    }

    /// The plan that writes the package list and fills the local repository.
    pub fn build_core_packages(&self) -> (plan: Plan)
        ensures
            plan@ == PlanView::of(self@.core_steps()),
    {
        let mut plan = Plan::new(Unwind::Never);
        let list = join_path(self.build_path.as_str(), "packages.txt");
        plan.push(Step::write(list.as_str(), CORE_PACKAGES));
        let database = join_path(self.packages_path.as_str(), "xbitos.db.tar.gz");
        let packages = join_path(self.packages_path.as_str(), "*.pkg.tar.zst");
        plan.push(Step::attempt(Command::new("repo-add").arg(database.as_str()).arg(packages.as_str())));
        proof {
            assert(plan@.steps =~= self@.core_steps());
        }
        plan
    }

    /// The plan that writes the image profile and builds the image.
    pub fn create_system_image(&self) -> (plan: Plan)
        ensures
            plan@ == PlanView::of(self@.image_steps()),
    {
        let mut plan = Plan::new(Unwind::Never);
        let profile = join_path(self.build_path.as_str(), "profiledef.sh");
        plan.push(Step::write(profile.as_str(), IMAGE_PROFILE));
        plan.push(
            Step::attempt(
                Command::new("mkarchiso").arg("-v").arg("-w").arg(IMAGE_WORK_DIR).arg(self.build_path.as_str()),
            ),
        );
        proof {
            assert(plan@.steps =~= self@.image_steps());
        }
        plan
    }
}

} // verus!
