use std::cell::RefCell;

use xbitos::command::{Action, Outcome};
use xbitos::error::InstallError;
use xbitos::plan::{Expect, Plan, Unwind};
use xbitos::runner::Runner;
use xbitos::system::chroot::{ChrootCommand, ChrootExecutor};
use xbitos::system::encryption::{CipherParams, EncryptionManager};
use xbitos::system::filesystem::{FilesystemManager, FsType, MountRole};
use xbitos::system::layout::{
    DeviceLayout, DeviceProvisioner, PartitionRole, PartitionScheme, PartitionSize, PartitionSpec,
};
use xbitos::system::storage::StorageManager;

fn lines(plan: &Plan) -> Vec<String> {
    plan.steps.iter().map(|step| step.action.describe()).collect()
}

fn part(role: PartitionRole, offset: u64, size: PartitionSize) -> PartitionSpec {
    PartitionSpec { role, offset, size }
}

fn layout(partitions: Vec<PartitionSpec>) -> DeviceLayout {
    DeviceLayout { device: "/dev/vda".to_string(), partitions }
}

#[test]
fn standard_layout_has_three_partitions_with_the_rest_last() {
    let layout = DeviceProvisioner::create_layout("/dev/sda", PartitionScheme::EfiBootRoot);
    assert_eq!(layout.device, "/dev/sda");
    assert_eq!(
        layout.partitions,
        vec![
            part(PartitionRole::Efi, 1, PartitionSize::Fixed(512)),
            part(PartitionRole::Boot, 513, PartitionSize::Fixed(512)),
            part(PartitionRole::Root, 1025, PartitionSize::Rest),
        ]
    );
    assert!(DeviceProvisioner::is_valid(&layout));
}

#[test]
fn layout_without_boot_partition_is_valid_too() {
    let layout = DeviceProvisioner::create_layout("/dev/sda", PartitionScheme::EfiRoot);
    assert_eq!(
        layout.partitions,
        vec![
            part(PartitionRole::Efi, 1, PartitionSize::Fixed(512)),
            part(PartitionRole::Root, 513, PartitionSize::Rest),
        ]
    );
    assert!(DeviceProvisioner::is_valid(&layout));
}

#[test]
fn valid_layouts_have_increasing_offsets_and_at_most_one_rest_at_the_end() {
    for scheme in [PartitionScheme::EfiBootRoot, PartitionScheme::EfiRoot] {
        let layout = DeviceProvisioner::create_layout("/dev/sda", scheme);
        let parts = &layout.partitions;
        for pair in parts.windows(2) {
            assert!(pair[0].offset < pair[1].offset);
        }
        let rests: Vec<usize> =
            (0..parts.len()).filter(|&i| parts[i].size == PartitionSize::Rest).collect();
        assert!(rests.len() <= 1);
        assert!(rests.iter().all(|&i| i == parts.len() - 1));
    }
}

#[test]
fn layout_rules_are_enforced() {
    // offsets that do not increase
    assert!(!DeviceProvisioner::is_valid(&layout(vec![
        part(PartitionRole::Efi, 513, PartitionSize::Fixed(512)),
        part(PartitionRole::Root, 513, PartitionSize::Rest),
    ])));
    // the rest in the middle
    assert!(!DeviceProvisioner::is_valid(&layout(vec![
        part(PartitionRole::Efi, 1, PartitionSize::Rest),
        part(PartitionRole::Root, 513, PartitionSize::Fixed(10)),
    ])));
    // two partitions that take the rest
    assert!(!DeviceProvisioner::is_valid(&layout(vec![
        part(PartitionRole::Efi, 1, PartitionSize::Rest),
        part(PartitionRole::Root, 513, PartitionSize::Rest),
    ])));
    // no EFI system partition
    assert!(!DeviceProvisioner::is_valid(&layout(vec![
        part(PartitionRole::Boot, 1, PartitionSize::Fixed(512)),
        part(PartitionRole::Root, 513, PartitionSize::Rest),
    ])));
    // no root partition
    assert!(!DeviceProvisioner::is_valid(&layout(vec![
        part(PartitionRole::Efi, 1, PartitionSize::Fixed(512)),
        part(PartitionRole::Boot, 513, PartitionSize::Rest),
    ])));
    // two root partitions
    assert!(!DeviceProvisioner::is_valid(&layout(vec![
        part(PartitionRole::Efi, 1, PartitionSize::Fixed(512)),
        part(PartitionRole::Root, 513, PartitionSize::Fixed(512)),
        part(PartitionRole::Root, 1025, PartitionSize::Rest),
    ])));
    // nothing at all
    assert!(!DeviceProvisioner::is_valid(&layout(vec![])));
    // an end that cannot be written down
    assert!(!DeviceProvisioner::is_valid(&layout(vec![
        part(PartitionRole::Efi, 1, PartitionSize::Fixed(512)),
        part(PartitionRole::Root, 513, PartitionSize::Fixed(u64::MAX)),
    ])));
    // all fixed sizes are fine
    assert!(DeviceProvisioner::is_valid(&layout(vec![
        part(PartitionRole::Efi, 1, PartitionSize::Fixed(512)),
        part(PartitionRole::Root, 513, PartitionSize::Fixed(4096)),
    ])));
}

#[test]
fn invalid_layout_is_refused_without_any_plan() {
    let bad = layout(vec![part(PartitionRole::Root, 1, PartitionSize::Rest)]);
    assert_eq!(DeviceProvisioner::apply(&bad), Err(InstallError::InvalidLayout));
}

#[test]
fn apply_probes_first_and_then_partitions_in_order() {
    let layout = DeviceProvisioner::create_layout("/dev/sda", PartitionScheme::EfiBootRoot);
    let plan = DeviceProvisioner::apply(&layout).unwrap();
    assert_eq!(
        lines(&plan),
        vec![
            "test -b /dev/sda",
            "grep -q ^/dev/sda /proc/mounts",
            "parted /dev/sda mklabel gpt",
            "parted /dev/sda mkpart ESP fat32 1MiB 513MiB",
            "parted /dev/sda mkpart boot 513MiB 1025MiB",
            "parted /dev/sda mkpart root 1025MiB 100%",
        ]
    );
    assert_eq!(plan.unwind, Unwind::Never);
    assert_eq!(plan.steps[1].expect, Expect::Absent(InstallError::DeviceBusy { device: "/dev/sda".to_string() }));
}

#[test]
fn partition_paths_are_the_device_and_the_number() {
    assert_eq!(DeviceProvisioner::partition_path("/dev/sda", 1), "/dev/sda1");
    assert_eq!(DeviceProvisioner::partition_path("/dev/sda", 3), "/dev/sda3");
    assert_eq!(DeviceProvisioner::partition_path("/dev/nvme0n1p", 12), "/dev/nvme0n1p12");
}

#[test]
fn formatting_twice_is_refused_the_second_time() {
    let mut manager = EncryptionManager::new();
    let params = CipherParams::standard();
    assert!(!manager.carries_header("/dev/sda3"));
    let first = manager.format("/dev/sda3", &params, false).unwrap();
    assert_eq!(
        lines(&first),
        vec![
            "cryptsetup isLuks /dev/sda3",
            "cryptsetup luksFormat --type luks2 --cipher aes-xts-plain64 --key-size 512 --hash sha512 --iter-time 5000 /dev/sda3",
        ]
    );
    assert!(manager.carries_header("/dev/sda3"));
    assert_eq!(
        manager.format("/dev/sda3", &params, false),
        Err(InstallError::AlreadyEncrypted { partition: "/dev/sda3".to_string() })
    );
    // and again
    assert_eq!(
        manager.format("/dev/sda3", &params, false),
        Err(InstallError::AlreadyEncrypted { partition: "/dev/sda3".to_string() })
    );
    // another partition is not affected
    assert!(manager.format("/dev/sda4", &params, false).is_ok());
}

#[test]
fn forced_formatting_skips_the_probe() {
    let mut manager = EncryptionManager::new();
    let params = CipherParams {
        format: "luks1".to_string(),
        cipher: "serpent-xts-plain64".to_string(),
        key_size: 256,
        hash: "sha256".to_string(),
        iter_time: 2000,
    };
    manager.format("/dev/sda3", &params, false).unwrap();
    let forced = manager.format("/dev/sda3", &params, true).unwrap();
    assert_eq!(
        lines(&forced),
        vec!["cryptsetup luksFormat --type luks1 --cipher serpent-xts-plain64 --key-size 256 --hash sha256 --iter-time 2000 /dev/sda3"]
    );
    // after a forced format the partition still counts as encrypted
    assert!(manager.format("/dev/sda3", &params, false).is_err());
}

#[test]
fn header_found_by_the_probe_refuses_the_format() {
    let mut manager = EncryptionManager::new();
    let plan = manager.format("/dev/sda3", &CipherParams::standard(), false).unwrap();
    let log = RefCell::new(Vec::new());
    let end = Runner::run_with(plan, &|action: &Action| {
        log.borrow_mut().push(action.describe());
        Outcome::success()
    });
    assert_eq!(end.failure(), Some(&InstallError::AlreadyEncrypted { partition: "/dev/sda3".to_string() }));
    assert_eq!(log.borrow().as_slice(), ["cryptsetup isLuks /dev/sda3"]);
}

#[test]
fn open_and_close_keep_track_of_the_volume() {
    let mut manager = EncryptionManager::new();
    let (step, path) = manager.open("/dev/sda3", "cryptroot");
    assert_eq!(path, "/dev/mapper/cryptroot");
    assert_eq!(step.action.describe(), "cryptsetup open /dev/sda3 cryptroot");
    assert_eq!(step.expect, Expect::Unlock { partition: "/dev/sda3".to_string() });
    assert_eq!(step.undo.as_ref().unwrap().describe(), "cryptsetup close cryptroot");
    assert!(manager.is_open("cryptroot"));
    manager.open("/dev/sda4", "crypthome");
    manager.open("/dev/sda3", "cryptroot");
    assert_eq!(manager.open_volumes(), &vec!["cryptroot".to_string(), "crypthome".to_string()]);
    let close = manager.close("cryptroot");
    assert_eq!(close.action.describe(), "cryptsetup close cryptroot");
    assert!(!manager.is_open("cryptroot"));
    assert!(manager.is_open("crypthome"));
}

#[test]
fn unlock_outcomes_are_told_apart() {
    let mut manager = EncryptionManager::new();
    let (step, _) = manager.open("/dev/sda3", "cryptroot");
    assert_eq!(step.verdict(&Outcome::success()), None);
    assert_eq!(
        step.verdict(&Outcome::exited(2, "No key available with this passphrase.")),
        Some(InstallError::AuthenticationFailed { partition: "/dev/sda3".to_string() })
    );
    assert_eq!(
        step.verdict(&Outcome::exited(1, "bad")),
        Some(InstallError::DeviceError {
            command: "cryptsetup open /dev/sda3 cryptroot".to_string(),
            status: 1,
            output: "bad".to_string(),
        })
    );
    assert_eq!(
        step.verdict(&Outcome::Missing),
        Some(InstallError::ToolMissing { program: "cryptsetup".to_string() })
    );
}

#[test]
fn filesystems_are_made_by_the_tool_of_their_type() {
    let manager = FilesystemManager::new();
    assert_eq!(manager.format("/dev/sda1", FsType::Fat32).action.describe(), "mkfs.fat -F32 /dev/sda1");
    assert_eq!(manager.format("/dev/sda2", FsType::Ext4).action.describe(), "mkfs.ext4 /dev/sda2");
    assert_eq!(manager.format("/dev/sda3", FsType::Btrfs).action.describe(), "mkfs.btrfs /dev/sda3");
}

#[test]
fn mounts_are_recorded_and_taken_down_in_reverse() {
    let mut manager = FilesystemManager::new();
    let root = manager.mount(MountRole::Root, "/dev/sda3", "/mnt", "").unwrap();
    assert_eq!(root.action.describe(), "mount /dev/sda3 /mnt");
    assert_eq!(root.undo.as_ref().unwrap().describe(), "umount /mnt");
    let home = manager.mount(MountRole::Subvolume, "/dev/sda3", "/mnt/home", "subvol=@home,compress=zstd").unwrap();
    assert_eq!(home.action.describe(), "mount -o subvol=@home,compress=zstd /dev/sda3 /mnt/home");
    manager.mount(MountRole::Boot, "/dev/sda2", "/mnt/boot", "").unwrap();
    manager.mount(MountRole::Efi, "/dev/sda1", "/mnt/boot/efi", "").unwrap();
    assert_eq!(manager.mounts().len(), 4);
    assert!(manager.mounts().has_target("/mnt/boot"));
    assert!(!manager.mounts().has_target("/mnt/var"));
    let plan = manager.teardown();
    assert_eq!(
        lines(&plan),
        vec!["umount /mnt/boot/efi", "umount /mnt/boot", "umount /mnt/home", "umount /mnt"]
    );
    assert!(plan.steps.iter().all(|step| step.expect == Expect::Any));
    // nothing is left, so a second teardown unmounts nothing
    assert_eq!(manager.mounts().len(), 0);
    assert!(manager.teardown().steps.is_empty());
}

#[test]
fn teardown_tolerates_what_is_not_mounted() {
    let mut manager = FilesystemManager::new();
    manager.mount(MountRole::Root, "/dev/sda3", "/mnt", "").unwrap();
    manager.mount(MountRole::Boot, "/dev/sda2", "/mnt/boot", "").unwrap();
    let log = RefCell::new(Vec::new());
    let end = Runner::run_with(manager.teardown(), &|action: &Action| {
        log.borrow_mut().push(action.describe());
        Outcome::exited(32, "umount: not mounted.")
    });
    assert!(end.failure().is_none());
    assert_eq!(log.borrow().as_slice(), ["umount /mnt/boot", "umount /mnt"]);
}

#[test]
fn mount_order_is_enforced() {
    let mut manager = FilesystemManager::new();
    // nothing before the root
    assert_eq!(
        manager.mount(MountRole::Boot, "/dev/sda2", "/mnt/boot", ""),
        Err(InstallError::MountOrder { target: "/mnt/boot".to_string() })
    );
    // the root at an absolute path only
    assert_eq!(
        manager.mount(MountRole::Root, "/dev/sda3", "mnt", ""),
        Err(InstallError::MountOrder { target: "mnt".to_string() })
    );
    assert_eq!(manager.mounts().len(), 0);
    manager.mount(MountRole::Root, "/dev/sda3", "/mnt", "").unwrap();
    // no second root
    assert!(manager.mount(MountRole::Root, "/dev/sda4", "/mnt/other", "").is_err());
    // nothing outside the root
    assert!(manager.mount(MountRole::Boot, "/dev/sda2", "/boot", "").is_err());
    assert!(manager.mount(MountRole::Boot, "/dev/sda2", "/mntx/boot", "").is_err());
    // no target twice
    assert!(manager.mount(MountRole::Boot, "/dev/sda2", "/mnt", "").is_err());
    manager.mount(MountRole::Efi, "/dev/sda1", "/mnt/boot/efi", "").unwrap();
    // no parent after its child
    assert_eq!(
        manager.mount(MountRole::Boot, "/dev/sda2", "/mnt/boot", ""),
        Err(InstallError::MountOrder { target: "/mnt/boot".to_string() })
    );
    assert!(manager.mount(MountRole::Efi, "/dev/sda1", "/mnt/boot/efi", "").is_err());
    assert_eq!(manager.mounts().len(), 2);
}

#[test]
fn subvolumes_need_a_mounted_volume_and_keep_their_order() {
    let mut manager = FilesystemManager::new();
    assert_eq!(
        manager.create_subvolumes("/mnt", &["@", "@home"]),
        Err(InstallError::NotMounted { path: "/mnt".to_string() })
    );
    manager.mount(MountRole::Root, "/dev/sda3", "/mnt", "").unwrap();
    let plan = manager.create_subvolumes("/mnt", &["@", "@snapshots", "@home"]).unwrap();
    assert_eq!(
        lines(&plan),
        vec![
            "btrfs subvolume create /mnt/@",
            "btrfs subvolume create /mnt/@snapshots",
            "btrfs subvolume create /mnt/@home",
        ]
    );
    assert!(manager.create_subvolumes("/mnt", &[]).unwrap().steps.is_empty());
    assert!(manager.create_subvolumes("/mnt/boot", &["@"]).is_err());
}

fn commands(lines: &[&str]) -> Vec<ChrootCommand> {
    lines.iter().map(|line| ChrootCommand::new(line)).collect()
}

#[test]
fn chroot_plan_binds_runs_and_releases() {
    let plan = ChrootExecutor::run("/mnt", &commands(&["A", "B"]));
    assert_eq!(plan.unwind, Unwind::Always);
    assert_eq!(
        lines(&plan),
        vec![
            "mount --bind /proc /mnt/proc",
            "mount --bind /sys /mnt/sys",
            "mount --bind /dev /mnt/dev",
            "chroot /mnt sh -c A",
            "chroot /mnt sh -c B",
        ]
    );
    let undos: Vec<Option<String>> =
        plan.steps.iter().map(|step| step.undo.as_ref().map(|undo| undo.describe())).collect();
    assert_eq!(
        undos,
        vec![
            Some("umount /mnt/proc".to_string()),
            Some("umount /mnt/sys".to_string()),
            Some("umount /mnt/dev".to_string()),
            None,
            None,
        ]
    );
}

fn run_chroot(lines: &[&str], failing: Option<&str>) -> (Vec<String>, Option<InstallError>) {
    let plan = ChrootExecutor::run("/mnt", &commands(lines));
    let log = RefCell::new(Vec::new());
    let end = Runner::run_with(plan, &|action: &Action| {
        let line = action.describe();
        log.borrow_mut().push(line.clone());
        if Some(line.as_str()) == failing {
            Outcome::exited(7, "boom")
        } else {
            Outcome::success()
        }
    });
    assert!(end.finished());
    let failure = end.failure().cloned();
    (log.into_inner(), failure)
}

#[test]
fn failing_command_stops_the_list_and_unbinds_once() {
    let (log, failure) = run_chroot(&["A", "B", "C"], Some("chroot /mnt sh -c B"));
    assert_eq!(
        log,
        vec![
            "mount --bind /proc /mnt/proc",
            "mount --bind /sys /mnt/sys",
            "mount --bind /dev /mnt/dev",
            "chroot /mnt sh -c A",
            "chroot /mnt sh -c B",
            "umount /mnt/dev",
            "umount /mnt/sys",
            "umount /mnt/proc",
        ]
    );
    assert_eq!(
        failure,
        Some(InstallError::ChrootCommandFailed { index: 1, command: "B".to_string(), status: 7 })
    );
}

#[test]
fn successful_commands_are_followed_by_the_unbinds() {
    let (log, failure) = run_chroot(&["A", "B", "C"], None);
    assert_eq!(failure, None);
    assert_eq!(log.len(), 9);
    assert_eq!(&log[3..6], ["chroot /mnt sh -c A", "chroot /mnt sh -c B", "chroot /mnt sh -c C"]);
    assert_eq!(&log[6..], ["umount /mnt/dev", "umount /mnt/sys", "umount /mnt/proc"]);
}

#[test]
fn failing_bind_releases_only_what_was_bound() {
    let (log, failure) = run_chroot(&["A"], Some("mount --bind /sys /mnt/sys"));
    assert_eq!(
        log,
        vec!["mount --bind /proc /mnt/proc", "mount --bind /sys /mnt/sys", "umount /mnt/proc"]
    );
    assert_eq!(
        failure,
        Some(InstallError::DeviceError {
            command: "mount --bind /sys /mnt/sys".to_string(),
            status: 7,
            output: "boom".to_string(),
        })
    );
}

#[test]
fn empty_command_list_still_binds_and_unbinds() {
    let (log, failure) = run_chroot(&[], None);
    assert_eq!(failure, None);
    assert_eq!(log.len(), 6);
}

#[test]
fn storage_plan_puts_everything_in_order() {
    let mut manager = StorageManager::new("/dev/sda");
    assert!(manager.encrypt);
    manager.encrypt = false;
    let setup = manager.setup_storage().unwrap();
    assert_eq!(setup.plan.unwind, Unwind::OnFailure);
    assert!(setup.volume.is_none());
    assert_eq!(setup.root_source, "/dev/sda3");
    assert_eq!(
        lines(&setup.plan),
        vec![
            "pacman -S --noconfirm btrfs-progs",
            "pacman -S --noconfirm cryptsetup",
            "pacman -S --noconfirm lvm2",
            "pacman -S --noconfirm dosfstools",
            "pacman -S --noconfirm e2fsprogs",
            "pacman -S --noconfirm snapper",
            "test -b /dev/sda",
            "grep -q ^/dev/sda /proc/mounts",
            "parted /dev/sda mklabel gpt",
            "parted /dev/sda mkpart ESP fat32 1MiB 513MiB",
            "parted /dev/sda mkpart boot 513MiB 1025MiB",
            "parted /dev/sda mkpart root 1025MiB 100%",
            "mkfs.fat -F32 /dev/sda1",
            "mkfs.ext4 /dev/sda2",
            "mkfs.btrfs /dev/sda3",
            "mount /dev/sda3 /mnt",
            "btrfs subvolume create /mnt/@",
            "btrfs subvolume create /mnt/@home",
            "btrfs subvolume create /mnt/@snapshots",
            "btrfs subvolume create /mnt/@var",
            "btrfs subvolume create /mnt/@tmp",
            "mkdir /mnt/boot",
            "mount /dev/sda2 /mnt/boot",
            "mkdir /mnt/boot/efi",
            "mount /dev/sda1 /mnt/boot/efi",
            "snapper create-config /",
            "write /etc/snapper/configs/root",
        ]
    );
}

#[test]
fn encrypted_storage_plan_adds_the_volume() {
    let setup = StorageManager::new("/dev/sda").setup_storage().unwrap();
    let all = lines(&setup.plan);
    assert_eq!(all.len(), 30);
    assert_eq!(
        &all[12..15],
        [
            "cryptsetup isLuks /dev/sda3",
            "cryptsetup luksFormat --type luks2 --cipher aes-xts-plain64 --key-size 512 --hash sha512 --iter-time 5000 /dev/sda3",
            "cryptsetup open /dev/sda3 cryptroot",
        ]
    );
    assert_eq!(all[17], "mkfs.btrfs /dev/mapper/cryptroot");
    assert_eq!(all[18], "mount /dev/mapper/cryptroot /mnt");
    let volume = setup.volume.unwrap();
    assert_eq!(volume.partition, "/dev/sda3");
    assert_eq!(volume.mapper_name, "cryptroot");
    assert_eq!(volume.params, CipherParams::standard());
    assert_eq!(setup.root_source, "/dev/mapper/cryptroot");
    let same = StorageManager::new("/dev/sda").setup_encrypted_storage().unwrap();
    assert_eq!(lines(&same.plan), all);
}

#[test]
fn storage_steps_can_be_had_one_by_one() {
    let manager = StorageManager::new("/dev/sdb");
    assert_eq!(manager.create_partitions().steps.len(), 6);
    let mut encryption = EncryptionManager::new();
    let (plan, path) = manager.setup_encryption(&mut encryption).unwrap();
    assert_eq!(path, "/dev/mapper/cryptroot");
    assert_eq!(plan.steps.len(), 3);
    assert_eq!(
        manager.setup_encryption(&mut encryption).err(),
        Some(InstallError::AlreadyEncrypted { partition: "/dev/sdb3".to_string() })
    );
    let mut filesystems = FilesystemManager::new();
    let plan = manager.setup_filesystems(&mut filesystems, "/dev/mapper/cryptroot").unwrap();
    assert_eq!(plan.steps.len(), 13);
    assert_eq!(
        manager.setup_filesystems(&mut filesystems, "/dev/mapper/cryptroot").err(),
        Some(InstallError::MountOrder { target: "/mnt".to_string() })
    );
    assert_eq!(filesystems.mounts().len(), 3);
    assert_eq!(lines(&manager.setup_snapper()), vec!["snapper create-config /", "write /etc/snapper/configs/root"]);
}
