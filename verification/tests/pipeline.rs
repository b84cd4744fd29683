use std::cell::RefCell;

use xbitos::command::{Action, Command, Outcome};
use xbitos::error::InstallError;
use xbitos::system::installer::{DeviceRegistry, InstallConfig, SessionState, Stage, SystemInstaller};

fn config(use_encryption: bool, desktop: &str) -> InstallConfig {
    InstallConfig {
        hostname: "box".to_string(),
        username: "alice".to_string(),
        password: "s3cret".to_string(),
        timezone: "Europe/Paris".to_string(),
        locale: "en_US".to_string(),
        keyboard: "us".to_string(),
        disk: "/dev/sdX".to_string(),
        use_encryption,
        desktop_environment: desktop.to_string(),
    }
}

fn line(action: &Action) -> String {
    action.describe()
}

/// A host on which nothing is installed yet: probes for existing files and
/// for mounted partitions find nothing, everything else succeeds, unless
/// `fails` names the command line and its exit status.
fn fresh_host<'a>(
    log: &'a RefCell<Vec<String>>,
    fails: Option<(&'a str, i32)>,
) -> impl Fn(&Action) -> Outcome + 'a {
    move |action: &Action| {
        let text = line(action);
        log.borrow_mut().push(text.clone());
        if let Some((failing, status)) = fails {
            if text == failing {
                return Outcome::exited(status, "it failed");
            }
        }
        match action {
            Action::Run(command) => {
                let probe = (command.program == "test" && command.args[0] == "-e")
                    || command.program == "findmnt"
                    || command.program == "grep"
                    || (command.program == "cryptsetup" && command.args[0] == "isLuks");
                if probe {
                    Outcome::exited(1, "")
                } else {
                    Outcome::success()
                }
            }
            _ => Outcome::success(),
        }
    }
}

fn all_stages() -> Vec<Stage> {
    vec![
        Stage::PrepareStorage,
        Stage::InstallBase,
        Stage::ConfigureSystem,
        Stage::InstallDesktop,
        Stage::CreateUser,
        Stage::InstallBootloader,
        Stage::Finalize,
    ]
}

#[test]
fn plain_installation_completes_every_stage_in_order() {
    let installer = SystemInstaller::new(config(false, "hyprland"));
    let log = RefCell::new(Vec::new());
    let session = installer.install_system(&mut DeviceRegistry::new(), &fresh_host(&log, None), &|| false);
    assert_eq!(session.state(), SessionState::Completed);
    assert_eq!(session.completed(), &all_stages());
    assert!(session.failure().is_none());
    assert!(session.encrypted_device().is_none());
    assert!(session.volume().is_none());
    let log = log.borrow();
    assert!(log.iter().all(|entry| !entry.starts_with("cryptsetup")));
    let position = |wanted: &str| log.iter().position(|entry| entry == wanted).unwrap();
    let storage = position("parted /dev/sdX mklabel gpt");
    let base = position("pacstrap /mnt base base-devel linux-zen linux-zen-headers linux-firmware");
    let configure = position("chroot /mnt sh -c locale-gen");
    let desktop = position("write /etc/hypr/hyprland.conf");
    let user = position("chroot /mnt sh -c useradd -m -G wheel -s /bin/bash alice");
    let boot = position("bootctl install --path /mnt/boot/efi");
    let last = position("bootctl update");
    assert!(storage < base && base < configure && configure < desktop);
    assert!(desktop < user && user < boot && boot < last);
    assert_eq!(last, log.len() - 1);
}

#[test]
fn plain_installation_mounts_the_root_partition() {
    let installer = SystemInstaller::new(config(false, "hyprland"));
    let log = RefCell::new(Vec::new());
    let session = installer.install_system(&mut DeviceRegistry::new(), &fresh_host(&log, None), &|| false);
    let targets: Vec<String> = session.mounts().entries().iter().map(|e| e.target.clone()).collect();
    assert_eq!(targets, vec!["/mnt", "/mnt/boot", "/mnt/boot/efi"]);
    let sources: Vec<String> = session.mounts().entries().iter().map(|e| e.source.clone()).collect();
    assert_eq!(sources, vec!["/dev/sdX3", "/dev/sdX2", "/dev/sdX1"]);
    assert_eq!(session.mount_point(), "/mnt");
    assert!(log.borrow().contains(&"mount /dev/sdX3 /mnt".to_string()));
}

#[test]
fn wrong_passphrase_halts_at_prepare_storage() {
    let installer = SystemInstaller::new(config(true, "hyprland"));
    let log = RefCell::new(Vec::new());
    let host = fresh_host(&log, Some(("cryptsetup open /dev/sdX3 cryptroot", 2)));
    let session = installer.install_system(&mut DeviceRegistry::new(), &host, &|| false);
    assert_eq!(session.state(), SessionState::Failed(Stage::PrepareStorage));
    assert_eq!(
        session.failure(),
        Some(&InstallError::AuthenticationFailed { partition: "/dev/sdX3".to_string() })
    );
    assert!(session.failure().unwrap().recoverable());
    assert!(session.completed().is_empty());
    let log = log.borrow();
    assert_eq!(log.last().unwrap(), "cryptsetup open /dev/sdX3 cryptroot");
    for entry in log.iter() {
        assert!(!entry.starts_with("mkfs"));
        assert!(!entry.starts_with("mount"));
        assert!(!entry.starts_with("chroot"));
        assert!(!entry.starts_with("pacstrap"));
        assert!(!entry.starts_with("btrfs"));
    }
}

#[test]
fn unlock_failure_of_another_kind_is_a_device_error() {
    let installer = SystemInstaller::new(config(true, "hyprland"));
    let log = RefCell::new(Vec::new());
    let host = fresh_host(&log, Some(("cryptsetup open /dev/sdX3 cryptroot", 4)));
    let session = installer.install_system(&mut DeviceRegistry::new(), &host, &|| false);
    assert_eq!(session.state(), SessionState::Failed(Stage::PrepareStorage));
    assert_eq!(
        session.failure(),
        Some(&InstallError::DeviceError {
            command: "cryptsetup open /dev/sdX3 cryptroot".to_string(),
            status: 4,
            output: "it failed".to_string(),
        })
    );
    assert!(!session.failure().unwrap().recoverable());
}

#[test]
fn failing_locale_gen_freezes_the_session_at_configure_system() {
    let installer = SystemInstaller::new(config(false, "hyprland"));
    let log = RefCell::new(Vec::new());
    let host = fresh_host(&log, Some(("chroot /mnt sh -c locale-gen", 1)));
    let session = installer.install_system(&mut DeviceRegistry::new(), &host, &|| false);
    assert_eq!(session.state(), SessionState::Failed(Stage::ConfigureSystem));
    assert_eq!(
        session.failure(),
        Some(&InstallError::ChrootCommandFailed { index: 0, command: "locale-gen".to_string(), status: 1 })
    );
    assert_eq!(session.completed(), &vec![Stage::PrepareStorage, Stage::InstallBase]);
    let log = log.borrow();
    assert!(log.iter().all(|entry| !entry.contains("hwclock")));
    // the target root stays mounted for inspection
    assert!(!log.contains(&"umount /mnt".to_string()));
    assert!(!log.contains(&"umount /mnt/boot".to_string()));
    assert!(!log.contains(&"umount /mnt/boot/efi".to_string()));
    // the virtual filesystems are unbound once each, the last bind first
    let tail: Vec<&str> = log[log.len() - 3..].iter().map(|s| s.as_str()).collect();
    assert_eq!(tail, vec!["umount /mnt/dev", "umount /mnt/sys", "umount /mnt/proc"]);
    for unbind in ["umount /mnt/dev", "umount /mnt/sys", "umount /mnt/proc"] {
        assert_eq!(log.iter().filter(|entry| entry.as_str() == unbind).count(), 1);
    }
    assert!(session.cleanup_performed());
}

#[test]
fn failure_in_prepare_storage_releases_what_was_acquired() {
    let installer = SystemInstaller::new(config(true, "hyprland"));
    let log = RefCell::new(Vec::new());
    let host = fresh_host(&log, Some(("mount /dev/sdX2 /mnt/boot", 32)));
    let session = installer.install_system(&mut DeviceRegistry::new(), &host, &|| false);
    assert_eq!(session.state(), SessionState::Failed(Stage::PrepareStorage));
    assert_eq!(
        session.failure(),
        Some(&InstallError::DeviceError {
            command: "mount /dev/sdX2 /mnt/boot".to_string(),
            status: 32,
            output: "it failed".to_string(),
        })
    );
    let log = log.borrow();
    let tail: Vec<&str> = log[log.len() - 2..].iter().map(|s| s.as_str()).collect();
    assert_eq!(tail, vec!["umount /mnt", "cryptsetup close cryptroot"]);
    assert!(session.cleanup_performed());
    assert!(session.teardown().steps.is_empty());
}

#[test]
fn busy_device_is_refused_before_the_partition_table_is_touched() {
    let installer = SystemInstaller::new(config(false, "hyprland"));
    let log = RefCell::new(Vec::new());
    let host = fresh_host(&log, Some(("grep -q ^/dev/sdX /proc/mounts", 0)));
    let session = installer.install_system(&mut DeviceRegistry::new(), &host, &|| false);
    assert_eq!(session.state(), SessionState::Failed(Stage::PrepareStorage));
    assert_eq!(session.failure(), Some(&InstallError::DeviceBusy { device: "/dev/sdX".to_string() }));
    assert!(log.borrow().iter().all(|entry| !entry.starts_with("parted")));
    assert!(!session.cleanup_performed());
}

#[test]
fn missing_partitioning_tool_is_reported_as_such() {
    let installer = SystemInstaller::new(config(false, "hyprland"));
    let host = |action: &Action| match action {
        Action::Run(command) if command.program == "parted" => Outcome::Missing,
        Action::Run(command) if command.program == "grep" || command.program == "findmnt" => {
            Outcome::exited(1, "")
        }
        _ => Outcome::success(),
    };
    let session = installer.install_system(&mut DeviceRegistry::new(), &host, &|| false);
    assert_eq!(session.state(), SessionState::Failed(Stage::PrepareStorage));
    assert_eq!(session.failure(), Some(&InstallError::ToolMissing { program: "parted".to_string() }));
    assert!(session.failure().unwrap().recoverable());
}

#[test]
fn partition_failure_carries_the_captured_output() {
    let installer = SystemInstaller::new(config(false, "hyprland"));
    let log = RefCell::new(Vec::new());
    let host = fresh_host(&log, Some(("parted /dev/sdX mkpart boot 513MiB 1025MiB", 1)));
    let session = installer.install_system(&mut DeviceRegistry::new(), &host, &|| false);
    assert_eq!(
        session.failure(),
        Some(&InstallError::CommandFailed {
            command: "parted /dev/sdX mkpart boot 513MiB 1025MiB".to_string(),
            status: 1,
            output: "it failed".to_string(),
        })
    );
    assert_eq!(session.failure().unwrap().kind(), "CommandFailed");
}

#[test]
fn unsupported_desktop_fails_when_its_stage_is_reached() {
    let installer = SystemInstaller::new(config(false, "gnome"));
    let log = RefCell::new(Vec::new());
    let session = installer.install_system(&mut DeviceRegistry::new(), &fresh_host(&log, None), &|| false);
    assert_eq!(session.state(), SessionState::Failed(Stage::InstallDesktop));
    assert_eq!(session.failure(), Some(&InstallError::UnsupportedDesktop { name: "gnome".to_string() }));
    assert_eq!(
        session.completed(),
        &vec![Stage::PrepareStorage, Stage::InstallBase, Stage::ConfigureSystem]
    );
}

#[test]
fn encrypted_installation_unlocks_before_any_filesystem_is_made() {
    let installer = SystemInstaller::new(config(true, "hyprland"));
    let log = RefCell::new(Vec::new());
    let session = installer.install_system(&mut DeviceRegistry::new(), &fresh_host(&log, None), &|| false);
    assert_eq!(session.state(), SessionState::Completed);
    assert_eq!(session.encrypted_device().map(|s| s.as_str()), Some("/dev/mapper/cryptroot"));
    assert_eq!(session.volume().unwrap().partition, "/dev/sdX3");
    assert_eq!(session.volume().unwrap().mapper_path(), "/dev/mapper/cryptroot");
    let log = log.borrow();
    let position = |wanted: &str| log.iter().position(|entry| entry == wanted).unwrap();
    let format = position(
        "cryptsetup luksFormat --type luks2 --cipher aes-xts-plain64 --key-size 512 --hash sha512 --iter-time 5000 /dev/sdX3",
    );
    let open = position("cryptsetup open /dev/sdX3 cryptroot");
    let mkfs = position("mkfs.btrfs /dev/mapper/cryptroot");
    let mount = position("mount /dev/mapper/cryptroot /mnt");
    assert!(position("cryptsetup isLuks /dev/sdX3") < format);
    assert!(format < open && open < mkfs && mkfs < mount);
}

#[test]
fn an_existing_header_is_never_overwritten() {
    let installer = SystemInstaller::new(config(true, "hyprland"));
    let log = RefCell::new(Vec::new());
    let host = fresh_host(&log, Some(("cryptsetup isLuks /dev/sdX3", 0)));
    let session = installer.install_system(&mut DeviceRegistry::new(), &host, &|| false);
    assert_eq!(session.state(), SessionState::Failed(Stage::PrepareStorage));
    assert_eq!(
        session.failure(),
        Some(&InstallError::AlreadyEncrypted { partition: "/dev/sdX3".to_string() })
    );
    assert!(log.borrow().iter().all(|entry| !entry.contains("luksFormat")));
}

#[test]
fn stages_whose_target_is_in_place_are_not_repeated() {
    let installer = SystemInstaller::new(config(false, "hyprland"));
    let log = RefCell::new(Vec::new());
    // every probe for an existing file succeeds: the run is a second run
    let host = |action: &Action| {
        log.borrow_mut().push(action.describe());
        match action {
            Action::Run(command) if command.program == "grep" => Outcome::exited(1, ""),
            _ => Outcome::success(),
        }
    };
    let session = installer.install_system(&mut DeviceRegistry::new(), &host, &|| false);
    assert_eq!(session.state(), SessionState::Completed);
    assert_eq!(session.completed(), &all_stages());
    let log = log.borrow();
    assert_eq!(log[0], "findmnt --source /dev/sdX3 --mountpoint /mnt");
    assert!(log.iter().all(|entry| !entry.starts_with("parted")));
    assert!(log.iter().all(|entry| !entry.starts_with("mkfs")));
    assert!(log.contains(&"test -e /mnt/boot/vmlinuz-linux-zen".to_string()));
    assert!(log.iter().all(|entry| !entry.starts_with("pacstrap")));
    assert!(log.iter().all(|entry| !entry.starts_with("chroot")));
    assert!(log.iter().all(|entry| !entry.starts_with("bootctl install")));
    assert_eq!(log.last().unwrap(), "bootctl update");
}

#[test]
fn cancellation_takes_effect_between_stages() {
    let installer = SystemInstaller::new(config(false, "hyprland"));
    let mut session = installer.begin(&mut DeviceRegistry::new());
    assert_eq!(session.state(), SessionState::Running(Stage::PrepareStorage));
    let log = RefCell::new(Vec::new());
    let host = fresh_host(&log, None);
    // one action of the first stage, then the request to stop
    assert_eq!(session.next_action().unwrap().describe(), "findmnt --source /dev/sdX3 --mountpoint /mnt");
    let first = host(session.next_action().unwrap());
    installer.advance(&mut session, &first);
    session.request_cancel();
    assert_eq!(session.state(), SessionState::Running(Stage::PrepareStorage));
    let mut steps = 0;
    while let Some(action) = session.next_action() {
        let outcome = host(action);
        installer.advance(&mut session, &outcome);
        steps += 1;
        assert!(steps < 1000);
    }
    assert_eq!(session.state(), SessionState::Cancelled(Stage::InstallBase));
    assert_eq!(session.completed(), &vec![Stage::PrepareStorage]);
    assert!(session.is_over());
    assert!(log.borrow().iter().all(|entry| !entry.starts_with("pacstrap")));
    assert_eq!(log.borrow().last().unwrap(), "write /etc/snapper/configs/root");
}

#[test]
fn teardown_unmounts_in_reverse_and_locks_the_volume() {
    let installer = SystemInstaller::new(config(true, "hyprland"));
    let log = RefCell::new(Vec::new());
    let session = installer.install_system(&mut DeviceRegistry::new(), &fresh_host(&log, None), &|| false);
    let plan = session.teardown();
    let lines: Vec<String> = plan.steps.iter().map(|step| step.action.describe()).collect();
    assert_eq!(
        lines,
        vec!["umount /mnt/boot/efi", "umount /mnt/boot", "umount /mnt", "cryptsetup close cryptroot"]
    );
}

#[test]
fn teardown_before_storage_is_ready_does_nothing() {
    let installer = SystemInstaller::new(config(true, "hyprland"));
    let session = installer.begin(&mut DeviceRegistry::new());
    assert!(session.teardown().steps.is_empty());
}

#[test]
fn password_appears_in_no_command_line() {
    let installer = SystemInstaller::new(config(false, "hyprland"));
    let log = RefCell::new(Vec::new());
    let inputs = RefCell::new(Vec::new());
    let host = |action: &Action| {
        log.borrow_mut().push(action.describe());
        if let Action::Run(Command { stdin: Some(text), .. }) = action {
            inputs.borrow_mut().push(text.clone());
        }
        match action {
            Action::Run(command) if command.program == "grep" || command.program == "findmnt" => {
                Outcome::exited(1, "")
            }
            Action::Run(command) if command.program == "test" && command.args[0] == "-e" => {
                Outcome::exited(1, "")
            }
            Action::Run(command) if command.args.last().map(|a| a.as_str()) == Some("chpasswd") => {
                Outcome::exited(9, "")
            }
            _ => Outcome::success(),
        }
    };
    let session = installer.install_system(&mut DeviceRegistry::new(), &host, &|| false);
    assert_eq!(session.state(), SessionState::Failed(Stage::CreateUser));
    assert_eq!(
        session.failure(),
        Some(&InstallError::ChrootCommandFailed { index: 1, command: "chpasswd".to_string(), status: 9 })
    );
    assert!(log.borrow().iter().all(|entry| !entry.contains("s3cret")));
    assert_eq!(inputs.borrow().as_slice(), ["alice:s3cret\n"]);
}

#[test]
fn mount_point_that_is_no_absolute_path_is_refused_at_once() {
    let mut installer = SystemInstaller::new(config(false, "hyprland"));
    installer.mount_point = "mnt".to_string();
    let session = installer.begin(&mut DeviceRegistry::new());
    assert_eq!(session.state(), SessionState::Failed(Stage::PrepareStorage));
    assert_eq!(session.failure(), Some(&InstallError::MountOrder { target: "mnt".to_string() }));
    assert!(session.next_action().is_none());
}

#[test]
fn stage_names_and_order() {
    assert_eq!(Stage::PrepareStorage.next(), Some(Stage::InstallBase));
    assert_eq!(Stage::InstallBootloader.next(), Some(Stage::Finalize));
    assert_eq!(Stage::Finalize.next(), None);
    assert_eq!(Stage::ConfigureSystem.name(), "ConfigureSystem");
    let mut stage = Some(Stage::PrepareStorage);
    let mut seen = Vec::new();
    while let Some(current) = stage {
        seen.push(current);
        stage = current.next();
    }
    assert_eq!(seen, all_stages());
}

#[test]
fn a_device_belongs_to_one_session_at_a_time() {
    let mut registry = DeviceRegistry::new();
    let first = SystemInstaller::new(config(false, "hyprland"));
    let second = SystemInstaller::new(config(true, "hyprland"));
    let running = first.begin(&mut registry);
    assert_eq!(running.state(), SessionState::Running(Stage::PrepareStorage));
    assert!(registry.is_claimed("/dev/sdX"));
    let refused = second.begin(&mut registry);
    assert_eq!(refused.state(), SessionState::Failed(Stage::PrepareStorage));
    assert_eq!(refused.failure(), Some(&InstallError::DeviceBusy { device: "/dev/sdX".to_string() }));
    assert!(refused.next_action().is_none());
    // another device is free
    let mut other = config(false, "hyprland");
    other.disk = "/dev/sdY".to_string();
    let third = SystemInstaller::new(other).begin(&mut registry);
    assert_eq!(third.state(), SessionState::Running(Stage::PrepareStorage));
    // once the first session has given the device back, it can be had again
    registry.release("/dev/sdX");
    assert!(!registry.is_claimed("/dev/sdX"));
    assert!(registry.is_claimed("/dev/sdY"));
    assert_eq!(second.begin(&mut registry).state(), SessionState::Running(Stage::PrepareStorage));
}

#[test]
fn a_whole_run_gives_the_device_back() {
    let mut registry = DeviceRegistry::new();
    let installer = SystemInstaller::new(config(false, "hyprland"));
    let log = RefCell::new(Vec::new());
    let session = installer.install_system(&mut registry, &fresh_host(&log, None), &|| false);
    assert_eq!(session.state(), SessionState::Completed);
    assert!(!registry.is_claimed("/dev/sdX"));
    // a run against a device that another session owns performs nothing and leaves the claim
    assert_eq!(registry.claim("/dev/sdX"), Ok(()));
    assert_eq!(registry.claim("/dev/sdX"), Err(InstallError::DeviceBusy { device: "/dev/sdX".to_string() }));
    let log = RefCell::new(Vec::new());
    let session = installer.install_system(&mut registry, &fresh_host(&log, None), &|| false);
    assert_eq!(session.state(), SessionState::Failed(Stage::PrepareStorage));
    assert!(log.borrow().is_empty());
    assert!(registry.is_claimed("/dev/sdX"));
}

#[test]
fn the_operator_is_told_what_happened() {
    let installer = SystemInstaller::new(config(false, "hyprland"));
    let log = RefCell::new(Vec::new());
    let done = installer.install_system(&mut DeviceRegistry::new(), &fresh_host(&log, None), &|| false);
    assert_eq!(done.summary(), "installation completed");
    let fresh = installer.begin(&mut DeviceRegistry::new());
    assert_eq!(fresh.summary(), "stage PrepareStorage is running");
    let host = fresh_host(&log, Some(("chroot /mnt sh -c locale-gen", 1)));
    let failed = installer.install_system(&mut DeviceRegistry::new(), &host, &|| false);
    assert_eq!(
        failed.summary(),
        "stage ConfigureSystem failed: ChrootCommandFailed, command: locale-gen, cleanup performed"
    );
    let host = fresh_host(&log, Some(("parted /dev/sdX mklabel gpt", 1)));
    let failed = installer.install_system(&mut DeviceRegistry::new(), &host, &|| false);
    assert_eq!(
        failed.summary(),
        "stage PrepareStorage failed: CommandFailed, command: parted /dev/sdX mklabel gpt, output: it failed, no cleanup performed"
    );
    let mut cancelled = installer.begin(&mut DeviceRegistry::new());
    cancelled.request_cancel();
    let host = fresh_host(&log, None);
    while let Some(action) = cancelled.next_action() {
        let outcome = host(action);
        installer.advance(&mut cancelled, &outcome);
    }
    assert_eq!(cancelled.summary(), "cancelled before stage InstallBase");
}

#[test]
fn failures_are_reported_in_one_line() {
    assert_eq!(InstallError::InvalidLayout.report(), "InvalidLayout");
    assert_eq!(InstallError::ToolMissing { program: "parted".to_string() }.report(), "ToolMissing");
    assert_eq!(
        InstallError::BootloaderError { command: "bootctl update".to_string(), status: 1, output: "x".to_string() }
            .report(),
        "BootloaderError, command: bootctl update, output: x"
    );
    let failed = InstallError::ChrootCommandFailed { index: 2, command: "true".to_string(), status: 1 };
    assert_eq!(failed.command().map(|c| c.as_str()), Some("true"));
    assert_eq!(failed.output(), None);
    let kinds: Vec<&str> = vec![
        InstallError::ToolMissing { program: String::new() },
        InstallError::DeviceBusy { device: String::new() },
        InstallError::DeviceError { command: String::new(), status: 1, output: String::new() },
        InstallError::CommandFailed { command: String::new(), status: 1, output: String::new() },
        InstallError::AuthenticationFailed { partition: String::new() },
        InstallError::AlreadyEncrypted { partition: String::new() },
        InstallError::ChrootCommandFailed { index: 0, command: String::new(), status: 1 },
        InstallError::BootloaderError { command: String::new(), status: 1, output: String::new() },
        InstallError::InvalidLayout,
        InstallError::NotMounted { path: String::new() },
        InstallError::UnsupportedDesktop { name: String::new() },
        InstallError::MountOrder { target: String::new() },
        InstallError::PackageNotFound { name: String::new() },
        InstallError::HomeUnknown,
        InstallError::BaseMissing,
    ]
    .iter()
    .map(|error| error.kind())
    .collect();
    assert_eq!(
        kinds,
        vec![
            "ToolMissing",
            "DeviceBusy",
            "DeviceError",
            "CommandFailed",
            "AuthenticationFailed",
            "AlreadyEncrypted",
            "ChrootCommandFailed",
            "BootloaderError",
            "InvalidLayout",
            "NotMounted",
            "UnsupportedDesktop",
            "MountOrder",
            "PackageNotFound",
            "HomeUnknown",
            "BaseMissing",
        ]
    );
    let only: Vec<bool> = vec![
        InstallError::ToolMissing { program: String::new() }.recoverable(),
        InstallError::AuthenticationFailed { partition: String::new() }.recoverable(),
        InstallError::DeviceBusy { device: String::new() }.recoverable(),
        InstallError::AlreadyEncrypted { partition: String::new() }.recoverable(),
        InstallError::InvalidLayout.recoverable(),
    ];
    assert_eq!(only, vec![true, true, false, false, false]);
}

#[test]
fn a_whole_run_can_be_asked_to_stop() {
    let installer = SystemInstaller::new(config(false, "hyprland"));
    let log = RefCell::new(Vec::new());
    let host = fresh_host(&log, None);
    // the operator asks to stop as soon as the base system is being installed
    let stop = || log.borrow().iter().any(|entry| entry.starts_with("pacstrap"));
    let session = installer.install_system(&mut DeviceRegistry::new(), &host, &stop);
    assert_eq!(session.state(), SessionState::Cancelled(Stage::ConfigureSystem));
    assert_eq!(session.completed(), &vec![Stage::PrepareStorage, Stage::InstallBase]);
    assert!(session.failure().is_none());
    // the stage under way was carried on to its end, and nothing after it was begun
    assert_eq!(log.borrow().last().unwrap(), "genfstab -U /mnt");
    assert_eq!(session.summary(), "cancelled before stage ConfigureSystem");
    // what was mounted can be taken down
    assert_eq!(session.teardown().steps.len(), 3);
}

#[test]
fn a_request_to_stop_in_the_last_stage_changes_nothing() {
    let installer = SystemInstaller::new(config(false, "hyprland"));
    let log = RefCell::new(Vec::new());
    let host = fresh_host(&log, None);
    let stop = || log.borrow().iter().any(|entry| entry == "bootctl update");
    let session = installer.install_system(&mut DeviceRegistry::new(), &host, &stop);
    assert_eq!(session.state(), SessionState::Completed);
}

#[test]
fn whichever_step_fails_the_run_stops_there() {
    let installer = SystemInstaller::new(config(true, "hyprland"));
    let log = RefCell::new(Vec::new());
    let full = installer.install_system(&mut DeviceRegistry::new(), &fresh_host(&log, None), &|| false);
    assert_eq!(full.state(), SessionState::Completed);
    let all: Vec<String> = log.borrow().clone();
    assert!(all.len() > 100);
    let mut stages_seen = Vec::new();
    for (at, failing) in all.iter().enumerate() {
        // probes and releases do not fail a run, and a repeated line would fail at its first place
        let probe = failing.starts_with("test -e")
            || failing.starts_with("findmnt")
            || failing.starts_with("grep")
            || failing.starts_with("cryptsetup isLuks");
        if probe || failing.starts_with("umount") || all[..at].contains(failing) {
            continue;
        }
        let log = RefCell::new(Vec::new());
        let host = |action: &Action| {
            let text = action.describe();
            log.borrow_mut().push(text.clone());
            if &text == failing {
                return Outcome::Missing;
            }
            match action {
                Action::Run(command) => {
                    let probe = (command.program == "test" && command.args[0] == "-e")
                        || command.program == "findmnt"
                        || command.program == "grep"
                        || (command.program == "cryptsetup" && command.args[0] == "isLuks");
                    if probe {
                        Outcome::exited(1, "")
                    } else {
                        Outcome::success()
                    }
                }
                _ => Outcome::success(),
            }
        };
        let session = installer.install_system(&mut DeviceRegistry::new(), &host, &|| false);
        let stage = match session.state() {
            SessionState::Failed(stage) => stage,
            other => panic!("{} did not fail the run: {:?}", failing, other),
        };
        assert!(matches!(session.failure(), Some(InstallError::ToolMissing { .. })));
        let log = log.borrow();
        // everything up to the failing step happened as in the full run
        assert_eq!(&log[..=at], &all[..=at]);
        // and nothing after it but releases
        for entry in &log[at + 1..] {
            assert!(entry.starts_with("umount") || entry.starts_with("cryptsetup close"), "{}", entry);
        }
        // the log of stages holds exactly the stages before the one that failed
        let expected: Vec<Stage> = all_stages().into_iter().take_while(|s| *s != stage).collect();
        assert_eq!(session.completed(), &expected);
        if !stages_seen.contains(&stage) {
            stages_seen.push(stage);
        }
    }
    assert_eq!(stages_seen, all_stages());
}
