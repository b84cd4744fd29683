use xbitos::command::{Action, Command};
use xbitos::docs::DocumentationBuilder;
use xbitos::error::InstallError;
use xbitos::plan::{Expect, Failure, Plan, Unwind};
use xbitos::system::audio::AudioManager;
use xbitos::system::backup::BackupManager;
use xbitos::system::bootloader::BootManager;
use xbitos::system::builder::SystemBuilder;
use xbitos::system::display::DisplayManager;
use xbitos::system::distro::DistroManager;
use xbitos::system::filesystem::{FilesystemManager, MountRole};
use xbitos::system::init::initialize_system;
use xbitos::system::installer::{InstallConfig, Stage, SystemInstaller};
use xbitos::system::iso_builder::{
    check_requirements, install_requirements, judge_requirements, with_args, IsoBuilder,
};
use xbitos::system::kernel::KernelManager;
use xbitos::system::login::LoginManager;
use xbitos::system::network::NetworkManager;
use xbitos::system::package_manager::PackageManager;
use xbitos::system::packaging::builder::{PackageBuilder, PackageConfig};
use xbitos::system::power::PowerManager;
use xbitos::system::security::apparmor::AppArmorManager;
use xbitos::system::security::firewall::FirewallManager;
use xbitos::system::security::package_verifier::PackageVerifier;
use xbitos::system::security::SecurityManager;
use xbitos::system::services::ServiceManager;
use xbitos::system::setup::{setup_system, setup_system_for, setup_system_with};
use xbitos::system::theming::ThemeManager;
use xbitos::system::updates::UpdateManager;
use xbitos::testing::TestRunner;

fn lines(plan: &Plan) -> Vec<String> {
    plan.steps.iter().map(|step| step.action.describe()).collect()
}

fn content_of(plan: &Plan, path: &str) -> String {
    for step in &plan.steps {
        if let Action::WriteFile { path: written, content } = &step.action {
            if written == path {
                return content.clone();
            }
        }
    }
    panic!("nothing is written to {}", path);
}

#[test]
fn packages_are_installed_one_by_one() {
    let manager = PackageManager::new();
    let plan = manager.install_packages(&["vim", "git"]);
    assert_eq!(lines(&plan), vec!["pacman -S --noconfirm vim", "pacman -S --noconfirm git"]);
    assert!(plan.steps.iter().all(|step| step.expect == Expect::Success(Failure::Command)));
    assert!(manager.install_packages(&[]).steps.is_empty());
    let list = vec!["a".to_string(), "b".to_string()];
    assert_eq!(lines(&manager.install_list(&list)), vec!["pacman -S --noconfirm a", "pacman -S --noconfirm b"]);
    assert_eq!(lines(&manager.update_system()), vec!["pacman -Syu --noconfirm"]);
}

#[test]
fn services_are_enabled_and_started() {
    let manager = ServiceManager::new();
    assert_eq!(manager.enable_service("sddm").action.describe(), "systemctl enable sddm");
    assert_eq!(manager.start_service("sddm").action.describe(), "systemctl start sddm");
    assert_eq!(
        lines(&manager.setup_essential_services()),
        vec![
            "systemctl enable NetworkManager",
            "systemctl start NetworkManager",
            "systemctl enable bluetooth",
            "systemctl start bluetooth",
            "systemctl enable pipewire",
            "systemctl start pipewire",
            "systemctl enable pipewire-pulse",
            "systemctl start pipewire-pulse",
            "systemctl enable sddm",
            "systemctl start sddm",
        ]
    );
    assert_eq!(
        lines(&manager.enable_services(&["a", "b"])),
        vec!["systemctl enable a", "systemctl enable b"]
    );
}

#[test]
fn kernel_setup() {
    let manager = KernelManager::new();
    assert_eq!(
        manager.get_kernel_parameters(),
        "root=PARTUUID=XXXX rw quiet splash nvidia-drm.modeset=1 amd_iommu=on iommu=pt threadirqs mitigations=off"
    );
    let plan = manager.setup_kernel();
    let all = lines(&plan);
    assert_eq!(all.len(), 11);
    assert_eq!(all[0], "pacman -S --noconfirm linux-zen");
    assert_eq!(all[7], "pacman -S --noconfirm intel-ucode");
    assert_eq!(&all[8..], ["mkdir /etc/mkinitcpio.conf.d", "write /etc/mkinitcpio.conf.d/custom.conf", "mkinitcpio -P"]);
    let config = content_of(&plan, "/etc/mkinitcpio.conf.d/custom.conf");
    assert!(config.contains("MODULES=(amdgpu nvidia i915 btrfs)\n"));
    assert!(config.contains("COMPRESSION=\"zstd\"\n"));
    assert!(config.ends_with("MODULES_DECOMPRESS=\"yes\"\n"));
}

#[test]
fn boot_entry_is_written_with_the_parameters_as_given() {
    let text = BootManager::entry_text("root=/dev/mapper/cryptroot rw  quiet", &["/a.img", "/b.img"]);
    assert_eq!(
        text,
        "\ntitle   xBitOS\nlinux   /vmlinuz-linux-zen\ninitrd  /a.img\ninitrd  /b.img\noptions root=/dev/mapper/cryptroot rw  quiet\n"
    );
    assert_eq!(
        BootManager::entry_text("", &[]),
        "\ntitle   xBitOS\nlinux   /vmlinuz-linux-zen\noptions \n"
    );
}

#[test]
fn bootloader_setup() {
    let manager = BootManager::new();
    assert_eq!(manager.esp_path, "/boot/efi");
    let plan = manager.setup_bootloader();
    assert_eq!(
        lines(&plan),
        vec![
            "pacman -S --noconfirm systemd-boot",
            "pacman -S --noconfirm efibootmgr",
            "pacman -S --noconfirm efivar",
            "pacman -S --noconfirm efitools",
            "bootctl install --path /boot/efi",
            "write /boot/efi/loader/loader.conf",
            "write /boot/efi/loader/entries/xbitos.conf",
        ]
    );
    assert_eq!(
        content_of(&plan, "/boot/efi/loader/loader.conf"),
        "\ndefault  xbitos.conf\ntimeout  4\nconsole-mode max\neditor   no\n"
    );
    assert_eq!(
        content_of(&plan, "/boot/efi/loader/entries/xbitos.conf"),
        "\ntitle   xBitOS\nlinux   /vmlinuz-linux-zen\ninitrd  /amd-ucode.img\ninitrd  /intel-ucode.img\ninitrd  /initramfs-linux-zen.img\noptions root=PARTUUID=XXXX rw quiet splash nvidia-drm.modeset=1 amd_iommu=on iommu=pt threadirqs mitigations=off\n"
    );
    assert_eq!(plan.steps[4].expect, Expect::Success(Failure::Bootloader));
    assert_eq!(plan.steps[5].expect, Expect::Success(Failure::Bootloader));
    assert_eq!(lines(&manager.update_boot_configuration()), vec!["bootctl update"]);
    // the last step is the same however often it is asked for
    assert_eq!(manager.finalize(), manager.finalize());
    assert_eq!(manager.finalize().action, Action::Run(Command::new("bootctl").arg("update")));
}

#[test]
fn boot_manager_needs_its_partition_mounted() {
    let manager = BootManager::at("/mnt/boot/efi");
    let mut filesystems = FilesystemManager::new();
    assert_eq!(
        manager.install(filesystems.mounts(), true),
        Err(InstallError::NotMounted { path: "/mnt/boot/efi".to_string() })
    );
    filesystems.mount(MountRole::Root, "/dev/sda3", "/mnt", "").unwrap();
    assert!(manager.install(filesystems.mounts(), true).is_err());
    filesystems.mount(MountRole::Efi, "/dev/sda1", "/mnt/boot/efi", "").unwrap();
    assert_eq!(manager.install(filesystems.mounts(), false), Err(InstallError::BaseMissing));
    assert_eq!(
        manager.install(filesystems.mounts(), true).unwrap().action.describe(),
        "bootctl install --path /mnt/boot/efi"
    );
}

fn installer() -> SystemInstaller {
    SystemInstaller::new(InstallConfig {
        hostname: "box".to_string(),
        username: "alice".to_string(),
        password: "pw".to_string(),
        timezone: "UTC".to_string(),
        locale: "de_DE".to_string(),
        keyboard: "de".to_string(),
        disk: "/dev/sda".to_string(),
        use_encryption: false,
        desktop_environment: "hyprland".to_string(),
    })
}

#[test]
fn stage_plans_of_the_installer() {
    let installer = installer();
    assert_eq!(installer.mount_point, "/mnt");
    let base = installer.install_base_system();
    assert_eq!(
        lines(&base),
        vec!["pacstrap /mnt base base-devel linux-zen linux-zen-headers linux-firmware", "genfstab -U /mnt"]
    );
    assert_eq!(base.check.as_ref().unwrap().describe(), "test -e /mnt/boot/vmlinuz-linux-zen");
    let configure = installer.configure_system();
    assert_eq!(configure.unwind, Unwind::Always);
    assert_eq!(
        lines(&configure),
        vec![
            "link /usr/share/zoneinfo/UTC /mnt/etc/localtime",
            "write /mnt/etc/locale.gen",
            "write /mnt/etc/hostname",
            "mount --bind /proc /mnt/proc",
            "mount --bind /sys /mnt/sys",
            "mount --bind /dev /mnt/dev",
            "chroot /mnt sh -c locale-gen",
            "chroot /mnt sh -c hwclock --systohc",
            "chroot /mnt sh -c echo LANG=de_DE.UTF-8 > /etc/locale.conf",
            "chroot /mnt sh -c echo KEYMAP=de > /etc/vconsole.conf",
        ]
    );
    assert_eq!(content_of(&configure, "/mnt/etc/locale.gen"), "de_DE UTF-8");
    assert_eq!(content_of(&configure, "/mnt/etc/hostname"), "box");
    assert_eq!(
        configure.steps[7].expect,
        Expect::Success(Failure::Chroot { index: 1, command: "hwclock --systohc".to_string() })
    );
    let user = installer.setup_user();
    assert_eq!(
        lines(&user)[3..],
        [
            "chroot /mnt sh -c useradd -m -G wheel -s /bin/bash alice",
            "chroot /mnt sh -c chpasswd",
            "chroot /mnt sh -c echo '%wheel ALL=(ALL) ALL' > /etc/sudoers.d/wheel",
        ]
    );
    assert_eq!(lines(&installer.finalize()), vec!["bootctl update"]);
    assert_eq!(installer.setup_timezone().action.describe(), "link /usr/share/zoneinfo/UTC /mnt/etc/localtime");
    let desktop = installer.install_desktop().unwrap();
    assert_eq!(lines(&desktop), lines(&DisplayManager::new().setup_hyprland()));
    let setup = installer.prepare_storage().unwrap();
    assert!(setup.volume.is_none());
    assert_eq!(setup.plan.check.as_ref().unwrap().describe(), "findmnt --source /dev/sda3 --mountpoint /mnt");
    let done = vec![Stage::PrepareStorage, Stage::InstallBase];
    let boot = installer.setup_bootloader(&setup.mounts, &done).unwrap();
    assert_eq!(boot.steps[4].action.describe(), "bootctl install --path /mnt/boot/efi");
    assert_eq!(boot.check.as_ref().unwrap().describe(), "test -e /mnt/boot/efi/loader/entries/xbitos.conf");
    assert_eq!(
        installer.setup_bootloader(FilesystemManager::new().mounts(), &done),
        Err(InstallError::NotMounted { path: "/mnt/boot/efi".to_string() })
    );
    assert_eq!(
        installer.setup_bootloader(&setup.mounts, &vec![Stage::PrepareStorage]),
        Err(InstallError::BaseMissing)
    );
    assert_eq!(
        installer.stage_plan(Stage::InstallBootloader, &setup.mounts, &vec![]).err(),
        Some(InstallError::BaseMissing)
    );
    assert_eq!(installer.stage_plan(Stage::Finalize, &setup.mounts, &vec![]).unwrap().steps.len(), 1);
}

#[test]
fn desktop_setup() {
    let manager = DisplayManager::new();
    let plan = manager.setup_hyprland();
    let all = lines(&plan);
    assert_eq!(all.len(), 20 + 5 + 1 + 2 + 1 + 2 + 2 + 2 + 2 + 5 + 2 + 2 + 2);
    assert_eq!(all[0], "pacman -S --noconfirm hyprland");
    assert_eq!(all[19], "pacman -S --noconfirm hyprpaper");
    assert_eq!(
        &all[20..25],
        ["mkdir /etc/xbitos/display", "mkdir /etc/hypr", "mkdir /etc/xdg/waybar", "mkdir /etc/xdg/alacritty", "mkdir /etc/xdg/wofi"]
    );
    assert_eq!(all[25], "write /etc/hypr/hyprland.conf");
    assert_eq!(all[33], "write /usr/local/bin/start-hyprland");
    assert_eq!(all[34], "chmod +x /usr/local/bin/start-hyprland");
    assert_eq!(all[37], "pacman -S --noconfirm ttf-jetbrains-mono-nerd");
    assert_eq!(all[all.len() - 1], "write /etc/dunst/dunstrc");
    let hyprland = content_of(&plan, "/etc/hypr/hyprland.conf");
    assert!(hyprland.starts_with("\n# xBitOS Hyprland Configuration\n"));
    assert!(hyprland.contains("bind = $mainMod, Return, exec, $terminal\n"));
    assert!(content_of(&plan, "/usr/local/bin/start-hyprland").starts_with("#!/bin/bash\n"));
    assert!(content_of(&plan, "/etc/xdg/waybar/config").starts_with("{\n    \"layer\": \"top\","));
    assert_eq!(lines(&manager.install_required_fonts()).len(), 5);
}

#[test]
fn sound_power_network_updates_login() {
    let audio = AudioManager::new().setup_audio();
    assert_eq!(
        lines(&audio)[6..],
        [
            "mkdir /etc/pipewire",
            "write /etc/pipewire/pipewire.conf",
            "systemctl enable pipewire",
            "systemctl enable pipewire-pulse",
            "systemctl enable wireplumber",
        ]
    );
    assert!(content_of(&audio, "/etc/pipewire/pipewire.conf").contains("default.clock.rate = 48000"));
    let power = PowerManager::new().setup_power_management();
    assert_eq!(
        lines(&power)[6..],
        ["mkdir /etc/tlp.d", "write /etc/tlp.d/01-custom.conf", "systemctl enable tlp", "systemctl enable thermald"]
    );
    let network = NetworkManager::new().setup_networking();
    assert_eq!(
        lines(&network)[6..],
        [
            "mkdir /etc/NetworkManager/conf.d",
            "write /etc/NetworkManager/conf.d/00-custom.conf",
            "systemctl enable NetworkManager",
            "systemctl enable iwd",
            "systemctl enable firewalld",
            "firewall-cmd --permanent --add-service=ssh",
            "firewall-cmd --permanent --add-service=dhcpv6-client",
            "firewall-cmd --reload",
        ]
    );
    assert!(network.steps[11..].iter().all(|step| step.expect == Expect::Any));
    let updates = UpdateManager::new().setup_auto_updates();
    assert_eq!(
        lines(&updates),
        [
            "write /etc/systemd/system/xbitos-update.service",
            "write /etc/systemd/system/xbitos-update.timer",
            "systemctl enable xbitos-update.timer",
        ]
    );
    assert!(content_of(&updates, "/etc/systemd/system/xbitos-update.timer").contains("OnCalendar=daily"));
    let login = LoginManager::new().setup_sddm();
    assert_eq!(
        lines(&login),
        [
            "mkdir /etc/sddm.conf.d",
            "write /etc/sddm.conf.d/10-wayland.conf",
            "mkdir /usr/share/wayland-sessions",
            "write /usr/share/wayland-sessions/hyprland.desktop",
        ]
    );
    assert!(content_of(&login, "/etc/sddm.conf.d/10-wayland.conf").starts_with("[Wayland]\n"));
}

#[test]
fn themes_need_a_home_directory() {
    assert_eq!(ThemeManager::for_home(None).err(), Some(InstallError::HomeUnknown));
    let manager = ThemeManager::for_home(Some("/home/alice".to_string())).unwrap();
    assert_eq!(manager.home_dir, "/home/alice");
    assert_eq!(
        lines(&manager.setup_themes())[4..],
        [
            "write /etc/environment.d/99-theming.conf",
            "mkdir /home/alice/.config/gtk-3.0",
            "write /home/alice/.config/gtk-3.0/settings.ini",
        ]
    );
}

#[test]
fn theme_manager_for_the_current_user() {
    // what comes back depends on the machine: either a home directory or the one error
    match ThemeManager::new() {
        Ok(manager) => {
            assert!(!manager.home_dir.is_empty());
            assert_eq!(manager.setup_themes().steps.len(), 7);
        }
        Err(error) => assert_eq!(error, InstallError::HomeUnknown),
    }
}

#[test]
fn distribution_and_base_system() {
    let distro = DistroManager::new().setup_distro();
    let all = lines(&distro);
    assert_eq!(
        &all[..7],
        [
            "mkdir /etc/xbitos",
            "mkdir /var/lib/xbitos/repo",
            "mkdir /etc/xbitos/hooks",
            "mkdir /var/lib/xbitos/cache",
            "mkdir /var/log/xbitos",
            "write /etc/pacman.conf",
            "write /etc/xbitos/xbitos.conf",
        ]
    );
    assert_eq!(all[7..], lines(&SystemBuilder::new().build_base_system()));
    let builder = lines(&SystemBuilder::new().build_base_system());
    assert_eq!(builder[0], "mkdir /var/lib/xbitos/build");
    assert_eq!(builder[1], "mkdir /var/lib/xbitos/packages");
    assert_eq!(builder[2], "pacman -S --noconfirm base-devel");
    assert_eq!(
        &builder[8..],
        [
            "write /var/lib/xbitos/build/packages.txt",
            "repo-add /var/lib/xbitos/packages/xbitos.db.tar.gz /var/lib/xbitos/packages/*.pkg.tar.zst",
            "write /var/lib/xbitos/build/profiledef.sh",
            "mkarchiso -v -w /tmp/archiso-tmp /var/lib/xbitos/build",
        ]
    );
    assert!(content_of(&distro, "/etc/xbitos/xbitos.conf").contains("DISTRO_NAME=\"xBitOS\""));
}

#[test]
fn image_builder() {
    let builder = IsoBuilder::new("1.0.0");
    assert_eq!(builder.iso_name(), "xbitos-1.0.0-x86_64.iso");
    let profile = builder.profile();
    assert!(profile.starts_with("\n#!/usr/bin/env bash\niso_name=\"xbitos\"\niso_label=\"XBITOS_100\"\niso_publisher="));
    assert!(profile.contains("\niso_version=\"1.0.0\"\ninstall_dir=\"xbitos\"\n"));
    assert!(profile.ends_with("airootfs_image_tool_options=('-comp' 'xz' '-Xbcj' 'x86' '-b' '1M' '-Xdict-size' '1M')\n"));
    let plan = builder.build_iso();
    assert_eq!(
        lines(&plan),
        vec![
            "mkdir /var/lib/xbitos/iso",
            "mkdir /var/lib/xbitos/releases",
            "mkdir /var/lib/xbitos/iso/airootfs",
            "mkdir /var/lib/xbitos/iso/boot",
            "mkdir /var/lib/xbitos/iso/efiboot",
            "write /var/lib/xbitos/iso/profiledef.sh",
            "pacstrap /var/lib/xbitos/iso/airootfs base linux-zen linux-firmware hyprland networkmanager xbitos-desktop",
            "copy /usr/bin/xbitos-installer /var/lib/xbitos/iso/airootfs/usr/bin/xbitos-installer",
            "write /var/lib/xbitos/iso/airootfs/etc/xdg/autostart/installer.desktop",
            "mkarchiso -v -w /tmp/archiso-tmp -o /var/lib/xbitos/releases /var/lib/xbitos/iso",
        ]
    );
    assert_eq!(content_of(&plan, "/var/lib/xbitos/iso/profiledef.sh"), profile);
    let packages = builder.setup_packages();
    match &packages.steps[0].action {
        Action::Run(command) => {
            assert_eq!(command.args.len(), 2);
            assert!(command.args[1].starts_with("base base-devel linux-zen linux-firmware hyprland "));
            assert!(command.args[1].ends_with(" gparted htop neofetch"));
            assert_eq!(command.args[1].split(' ').count(), 24);
        }
        other => panic!("not a command: {:?}", other),
    }
    assert_eq!(with_args(Command::new("x").arg("a"), &["b", "c"]).line(), "x a b c");
}

#[test]
fn requirements_of_the_image_builder() {
    let tools = ["mkarchiso", "pacstrap", "arch-chroot"];
    assert_eq!(judge_requirements(&tools, &vec![true, true, true]), Ok(()));
    assert_eq!(
        judge_requirements(&tools, &vec![true, false, false]),
        Err(InstallError::ToolMissing { program: "pacstrap".to_string() })
    );
    assert_eq!(
        judge_requirements(&tools, &vec![false, true, true]),
        Err(InstallError::ToolMissing { program: "mkarchiso".to_string() })
    );
    assert_eq!(
        judge_requirements(&tools, &vec![true, true, false]),
        Err(InstallError::ToolMissing { program: "arch-chroot".to_string() })
    );
    // a tool that was not looked for is not reported
    assert_eq!(judge_requirements(&tools, &vec![true]), Ok(()));
    assert_eq!(judge_requirements(&[], &vec![false]), Ok(()));
    // on this machine: whatever is found, a failure names one of the tools
    match check_requirements() {
        Ok(()) => {}
        Err(InstallError::ToolMissing { program }) => assert!(tools.contains(&program.as_str())),
        Err(other) => panic!("unexpected failure: {:?}", other),
    }
    assert_eq!(
        lines(&install_requirements()),
        vec!["sudo pacman -Sy", "sudo pacman -S --noconfirm archiso arch-install-scripts"]
    );
}

#[test]
fn backups() {
    let manager = BackupManager::new();
    let setup = manager.setup();
    assert_eq!(
        lines(&setup),
        vec![
            "pacman -S --noconfirm rsync",
            "pacman -S --noconfirm borg",
            "pacman -S --noconfirm snapper",
            "mkdir /var/lib/xbitos/backups",
            "write /etc/xbitos/backup.conf",
            "write /etc/systemd/system/xbitos-backup.service",
            "write /etc/systemd/system/xbitos-backup.timer",
            "systemctl enable xbitos-backup.timer",
        ]
    );
    assert_eq!(
        lines(&manager.create_backup_at("2024-01-31_23-59-58")),
        vec![
            "borg create /var/lib/xbitos/backups::backup_2024-01-31_23-59-58 / --exclude /proc --exclude /sys --exclude /tmp --exclude /run --exclude /mnt --exclude /media --exclude /lost+found"
        ]
    );
    assert_eq!(
        lines(&manager.restore_backup("backup_x")),
        vec!["borg extract /var/lib/xbitos/backups::backup_x"]
    );
}

#[test]
fn backup_made_now_is_named_after_the_local_time() {
    let plan = BackupManager::new().create_backup();
    assert_eq!(plan.steps.len(), 1);
    match &plan.steps[0].action {
        Action::Run(command) => {
            let prefix = "/var/lib/xbitos/backups::backup_";
            assert!(command.args[1].starts_with(prefix));
            let stamp: Vec<char> = command.args[1][prefix.len()..].chars().collect();
            // year-month-day_hour-minute-second: digits but for the separators
            assert!(stamp.len() >= 19);
            let tail = &stamp[stamp.len() - 15..];
            assert_eq!(tail[0], '-');
            assert_eq!(tail[3], '-');
            assert_eq!(tail[6], '_');
            assert_eq!(tail[9], '-');
            assert_eq!(tail[12], '-');
            for at in [1, 2, 4, 5, 7, 8, 10, 11, 13, 14] {
                assert!(tail[at].is_ascii_digit());
            }
            assert_eq!(command.args[2], "/");
        }
        other => panic!("not a command: {:?}", other),
    }
}

fn package() -> PackageConfig {
    PackageConfig {
        name: "hello".to_string(),
        version: "2.12".to_string(),
        release: "1".to_string(),
        description: "prints a greeting".to_string(),
        dependencies: vec!["glibc".to_string(), "bash".to_string()],
        build_dependencies: vec!["gcc".to_string(), "make".to_string()],
        source: vec!["https://example.org/hello-2.12.tar.gz".to_string()],
    }
}

#[test]
fn build_description_of_a_package() {
    assert_eq!(
        PackageBuilder::pkgbuild(&package()),
        "\n# Maintainer: xBitOS Team <team@xbitos.org>\npkgname=hello\npkgver=2.12\npkgrel=1\npkgdesc=\"prints a greeting\"\narch=('x86_64')\ndepends=(glibc bash)\nmakedepends=(gcc make)\nsource=(https://example.org/hello-2.12.tar.gz)\nsha256sums=('SKIP')\n\nbuild() {\n    cd \"$srcdir/$pkgname-$pkgver\"\n    ./configure --prefix=/usr\n    make\n}\n\npackage() {\n    cd \"$srcdir/$pkgname-$pkgver\"\n    make DESTDIR=\"$pkgdir/\" install\n}\n"
    );
}

#[test]
fn packages_are_built_and_taken_into_the_repository() {
    let builder = PackageBuilder::new();
    let plan = builder.build_package(&package());
    assert_eq!(
        lines(&plan),
        vec![
            "mkdir /var/lib/xbitos/build/hello",
            "write /var/lib/xbitos/build/hello/PKGBUILD",
            "pacman -S --noconfirm gcc",
            "pacman -S --noconfirm make",
            "makepkg -sf --noconfirm",
        ]
    );
    match &plan.steps[4].action {
        Action::Run(command) => assert_eq!(command.dir.as_deref(), Some("/var/lib/xbitos/build/hello")),
        other => panic!("not a command: {:?}", other),
    }
    assert_eq!(lines(&builder.install_build_deps(&package())).len(), 2);
    let files = vec![
        "PKGBUILD".to_string(),
        "hello-2.12-1-x86_64.pkg.tar.zst".to_string(),
        "hello-2.12.tar.gz".to_string(),
        "hello-debug-2.12-1-x86_64.pkg.tar.zst".to_string(),
        "hello-2.12-1-x86_64.pkg.tar.zst.sig".to_string(),
    ];
    assert_eq!(
        lines(&builder.add_to_repo("/var/lib/xbitos/build/hello", &files)),
        vec![
            "copy /var/lib/xbitos/build/hello/hello-2.12-1-x86_64.pkg.tar.zst /var/lib/xbitos/repo/hello-2.12-1-x86_64.pkg.tar.zst",
            "copy /var/lib/xbitos/build/hello/hello-debug-2.12-1-x86_64.pkg.tar.zst /var/lib/xbitos/repo/hello-debug-2.12-1-x86_64.pkg.tar.zst",
            "repo-add /var/lib/xbitos/repo/xbitos.db.tar.gz *.pkg.tar.zst",
        ]
    );
    assert_eq!(lines(&builder.add_to_repo("/b", &vec![])), vec!["repo-add /var/lib/xbitos/repo/xbitos.db.tar.gz *.pkg.tar.zst"]);
    assert_eq!(
        lines(&builder.build_aur_package("yay")),
        vec!["git clone https://aur.archlinux.org/yay.git /var/cache/xbitos/aur/yay", "makepkg -si --noconfirm"]
    );
}

#[test]
fn security_setup() {
    assert_eq!(
        lines(&FirewallManager::new().setup()),
        vec![
            "pacman -S --noconfirm firewalld",
            "firewall-cmd --permanent --add-service=ssh",
            "firewall-cmd --permanent --add-service=dhcpv6-client",
            "systemctl enable firewalld",
            "systemctl start firewalld",
        ]
    );
    assert_eq!(
        lines(&AppArmorManager::new().setup()),
        vec![
            "pacman -S --noconfirm apparmor",
            "pacman -S --noconfirm apparmor-utils",
            "systemctl enable apparmor",
            "systemctl start apparmor",
        ]
    );
    assert!(AppArmorManager::new().setup_base_profiles().steps.is_empty());
    let verifier = PackageVerifier::new();
    assert!(verifier.setup().steps.is_empty());
    assert_eq!(verifier.verify_package("/tmp/x.pkg.tar.zst"), Ok(true));
    assert_eq!(lines(&SecurityManager::new().setup_security()).len(), 9);
}

#[test]
fn documentation_tests_and_initialisation() {
    let docs = DocumentationBuilder::new();
    let (from, to) = docs.get_paths();
    assert_eq!(from, "docs");
    assert_eq!(to, "/usr/share/doc/xbitos");
    assert!(docs.build_docs().steps.is_empty());
    let runner = TestRunner::new();
    assert_eq!(runner.test_dir, "/var/lib/xbitos/tests");
    assert!(runner.run_all_tests().steps.is_empty());
    assert_eq!(initialize_system(), Ok(()));
}

#[test]
fn system_setup_puts_every_part_in_order() {
    let themes = ThemeManager::for_home(Some("/root".to_string())).unwrap();
    let plans = setup_system_with(&themes);
    assert_eq!(plans.len(), 15);
    let firsts: Vec<String> = plans.iter().map(|plan| plan.steps[0].action.describe()).collect();
    assert_eq!(
        firsts,
        vec![
            "mkdir /etc/xbitos",
            "pacman -Syu --noconfirm",
            "pacman -S --noconfirm base-devel",
            "systemctl enable NetworkManager",
            "mkdir /etc/sddm.conf.d",
            "pacman -S --noconfirm hyprland",
            "pacman -S --noconfirm papirus-icon-theme",
            "pacman -S --noconfirm pipewire-audio",
            "pacman -S --noconfirm tlp",
            "pacman -S --noconfirm networkmanager",
            "pacman -S --noconfirm linux-zen",
            "pacman -S --noconfirm systemd-boot",
            "bootctl update",
            "pacman -S --noconfirm btrfs-progs",
            "write /etc/systemd/system/xbitos-update.service",
        ]
    );
    assert_eq!(plans[2].steps.len(), 17);
    assert_eq!(plans[13].unwind, Unwind::OnFailure);
    assert!(lines(&plans[13]).contains(&"cryptsetup open /dev/sda3 cryptroot".to_string()));
    let (plans, failure) = setup_system_for(Some("/root".to_string()));
    assert_eq!(plans.len(), 15);
    assert_eq!(failure, None);
    let (plans, failure) = setup_system_for(None);
    assert_eq!(plans.len(), 1);
    assert_eq!(plans[0].steps[0].action.describe(), "mkdir /etc/xbitos");
    assert_eq!(failure, Some(InstallError::HomeUnknown));
    let (plans, failure) = setup_system();
    match failure {
        None => assert_eq!(plans.len(), 15),
        Some(error) => {
            assert_eq!(error, InstallError::HomeUnknown);
            assert_eq!(plans.len(), 1);
        }
    }
}
