//! Storage for a new installation: partitions, the optional encrypted
//! volume, filesystems, subvolumes and mounts, put together in one plan.
use vstd::prelude::*;
use crate::command::{Action, ActionView, Command, CommandView};
use crate::error::{ErrorView, InstallError};
use crate::plan::{credential_free, lemma_credential_free_add, Plan, PlanView, Step, StepView, Unwind};
use crate::system::encryption::{
    format_plan,
    mapper_path,
    open_step,
    CipherParams,
    CipherView,
    EncryptedVolume,
    EncryptionManager,
    VolumeView,
};
use crate::system::filesystem::{
    mkfs_step,
    mount_step,
    subvolume_plan,
    EntryView,
    FilesystemManager,
    FsType,
    MountPlan,
    MountRole,
    MountsView,
};
use crate::system::layout::{
    partition_path,
    scheme_partitions,
    DeviceProvisioner,
    LayoutView,
    PartitionScheme,
};
use crate::system::package_manager::{install_plan, PackageManager};
use crate::text::{join_path, path_under, under, views};

verus! {

/// The tools that storage setup needs.
pub const STORAGE_PACKAGES: [&'static str; 6] = [
    "btrfs-progs",
    "cryptsetup",
    "lvm2",
    "dosfstools",
    "e2fsprogs",
    "snapper",
];

/// The subvolumes of the system volume, in the order in which they are created.
pub const SUBVOLUMES: [&'static str; 5] = ["@", "@home", "@snapshots", "@var", "@tmp"];

/// The name under which the encrypted system volume is unlocked.
pub const MAPPER_NAME: &'static str = "cryptroot";

/// Where the target root is mounted.
pub const MOUNT_POINT: &'static str = "/mnt";

/// Where the snapshot tool keeps the configuration of the root volume.
pub const SNAPPER_CONFIG_PATH: &'static str = "/etc/snapper/configs/root";

/// The snapshot policy of the root volume.
pub const SNAPPER_CONFIG: &'static str = r#"
# تكوين Snapper
TIMELINE_MIN_AGE="1800"
TIMELINE_LIMIT_HOURLY="5"
TIMELINE_LIMIT_DAILY="7"
TIMELINE_LIMIT_WEEKLY="2"
TIMELINE_LIMIT_MONTHLY="2"
TIMELINE_LIMIT_YEARLY="0"

# النسخ الاحتياطية قبل التحديثات
ALLOW_USERS="root"
SYNC_ACL="yes"
"#;

/// Builds the plan that prepares the storage of one device.
#[derive(Debug)]
pub struct StorageManager {
    pub root_device: String,
    pub esp_path: String,
    pub mount_point: String,
    /// Whether the system volume is encrypted.
    pub encrypt: bool,
}

/// A storage manager as plain values.
pub struct StorageView {
    pub root_device: Seq<char>,
    pub esp_path: Seq<char>,
    pub mount_point: Seq<char>,
    pub encrypt: bool,
}

impl View for StorageManager {
    type V = StorageView;

    open spec fn view(&self) -> StorageView {
        StorageView {
            root_device: self.root_device@,
            esp_path: self.esp_path@,
            mount_point: self.mount_point@,
            encrypt: self.encrypt,
        }
    }
}

/// What storage setup hands to the rest of an installation.
#[derive(Debug)]
pub struct StorageSetup {
    /// The plan that prepares the storage. What it has unlocked and mounted
    /// when a step fails, it locks and unmounts again.
    pub plan: Plan,
    /// What is mounted once the plan has succeeded.
    pub mounts: MountPlan,
    /// The encrypted volume, where the storage is encrypted.
    pub volume: Option<EncryptedVolume>,
    /// The device that holds the system volume.
    pub root_source: String,
}

/// The view of an optional volume.
pub open spec fn view_volume(volume: Option<EncryptedVolume>) -> Option<VolumeView> {
    match volume {
        Some(v) => Some(v@),
        None => None,
    }
}

/// The steps that configure snapshots of the root volume.
pub open spec fn snapper_steps() -> Seq<StepView> {
    seq![
        StepView::attempt(CommandView::new("snapper"@).arg("create-config"@).arg("/"@)),
        StepView::file(ActionView::WriteFile { path: SNAPPER_CONFIG_PATH@, content: SNAPPER_CONFIG@ }),
    ]
}

impl StorageView {
    /// The EFI system partition: the first on the device.
    pub open spec fn efi_partition(self) -> Seq<char> {
        partition_path(self.root_device, 1)
    }

    /// The boot partition: the second on the device.
    pub open spec fn boot_partition(self) -> Seq<char> {
        partition_path(self.root_device, 2)
    }

    /// The root partition: the third on the device.
    pub open spec fn root_partition(self) -> Seq<char> {
        partition_path(self.root_device, 3)
    }

    /// Where the boot partition is mounted.
    pub open spec fn boot_mount(self) -> Seq<char> {
        path_under(self.mount_point, "boot"@)
    }

    /// Where the EFI system partition is mounted.
    pub open spec fn efi_mount(self) -> Seq<char> {
        path_under(self.boot_mount(), "efi"@)
    }

    /// The layout that is written to the device.
    pub open spec fn layout(self) -> LayoutView {
        LayoutView { device: self.root_device, partitions: scheme_partitions(PartitionScheme::EfiBootRoot) }
    }

    /// The steps that encrypt the root partition and unlock it.
    pub open spec fn encryption_steps(self) -> Seq<StepView> {
        format_plan(self.root_partition(), CipherView::standard(), false).steps.push(
            open_step(self.root_partition(), MAPPER_NAME@),
        )
    }

    /// The steps that create the filesystems, mount the system volume at the
    /// mount point, create its subvolumes, and mount the boot partition and
    /// the EFI system partition below it.
    pub open spec fn filesystem_steps(self, root_source: Seq<char>) -> Seq<StepView> {
        seq![
            mkfs_step(self.efi_partition(), FsType::Fat32),
            mkfs_step(self.boot_partition(), FsType::Ext4),
            mkfs_step(root_source, FsType::Btrfs),
            mount_step(root_source, self.mount_point, ""@),
        ] + subvolume_plan(self.mount_point, views(SUBVOLUMES@)).steps + seq![
            StepView::file(ActionView::CreateDir { path: self.boot_mount() }),
            mount_step(self.boot_partition(), self.boot_mount(), ""@),
            StepView::file(ActionView::CreateDir { path: self.efi_mount() }),
            mount_step(self.efi_partition(), self.efi_mount(), ""@),
        ]
    }

    /// What is mounted after the filesystem steps.
    pub open spec fn mounted(self, root_source: Seq<char>) -> Seq<EntryView> {
        seq![
            EntryView { role: MountRole::Root, source: root_source, target: self.mount_point, options: ""@ },
            EntryView {
                role: MountRole::Boot,
                source: self.boot_partition(),
                target: self.boot_mount(),
                options: ""@,
            },
            EntryView {
                role: MountRole::Efi,
                source: self.efi_partition(),
                target: self.efi_mount(),
                options: ""@,
            },
        ]
    }

    /// The device that holds the system volume.
    pub open spec fn root_source(self, encrypted: bool) -> Seq<char> {
        if encrypted {
            mapper_path(MAPPER_NAME@)
        } else {
            self.root_partition()
        }
    }

    /// The whole plan: tools, partitions, the encrypted volume where one is
    /// asked for, filesystems and mounts, snapshots.
    pub open spec fn storage_plan(self, encrypted: bool) -> PlanView {
        PlanView {
            steps: install_plan(views(STORAGE_PACKAGES@)).steps + self.layout().apply_plan().steps + (if encrypted {
                self.encryption_steps()
            } else {
                Seq::empty()
            }) + self.filesystem_steps(self.root_source(encrypted)) + snapper_steps(),
            unwind: Unwind::OnFailure,
            check: None,
        }
    }

    /// The encrypted volume of the device.
    pub open spec fn volume(self) -> VolumeView {
        VolumeView { partition: self.root_partition(), mapper_name: MAPPER_NAME@, params: CipherView::standard() }
    }

    /// Whether the mount point is an absolute path.
    pub open spec fn absolute(self) -> bool {
        "/"@.is_prefix_of(self.mount_point)
    }
}

/// The mounts below the mount point are admitted after the root mount.
proof fn lemma_nested_mounts(storage: StorageView, root_source: Seq<char>)
    ensures
        ({
            let root = MountsView { entries: storage.mounted(root_source).take(1) };
            let boot = MountsView { entries: storage.mounted(root_source).take(2) };
            &&& root.admits(MountRole::Boot, storage.boot_mount())
            &&& boot.admits(MountRole::Efi, storage.efi_mount())
        }),
{
    reveal_strlit("boot");
    reveal_strlit("efi");
    reveal_strlit("/");
    let mnt = storage.mount_point;
    let boot = storage.boot_mount();
    let efi = storage.efi_mount();
    assert(boot.len() == mnt.len() + 5);
    assert(efi.len() == mnt.len() + 9);
    assert((mnt + "/"@) =~= boot.subrange(0, mnt.len() + 1 as int));
    assert((mnt + "/"@) =~= efi.subrange(0, mnt.len() + 1 as int));
    assert(under(boot, mnt));
    assert(under(efi, mnt));
    let entries = storage.mounted(root_source);
    assert(entries.take(1)[0] == entries[0]);
    assert(entries.take(2)[0] == entries[0]);
    assert(entries.take(2)[1] == entries[1]);
}

/// The parts of the storage plan that come before and after the
/// encrypted volume ask for no credentials.
proof fn lemma_storage_parts_credential_free(storage: StorageView, root_source: Seq<char>)
    ensures
        credential_free(install_plan(views(STORAGE_PACKAGES@)).steps + storage.layout().apply_plan().steps),
        credential_free(storage.filesystem_steps(root_source) + snapper_steps()),
{
    let packages = install_plan(views(STORAGE_PACKAGES@)).steps;
    let partitions = storage.layout().apply_plan().steps;
    assert(credential_free(partitions)) by {
        let prelude = crate::system::layout::apply_prelude(storage.root_device);
        let made = Seq::new(
            storage.layout().partitions.len(),
            |i: int| crate::system::layout::mkpart_step(storage.root_device, storage.layout().partitions[i]),
        );
        lemma_credential_free_add(prelude, made);
    }
    lemma_credential_free_add(packages, partitions);
    let head = seq![
        mkfs_step(storage.efi_partition(), FsType::Fat32),
        mkfs_step(storage.boot_partition(), FsType::Ext4),
        mkfs_step(root_source, FsType::Btrfs),
        mount_step(root_source, storage.mount_point, ""@),
    ];
    let subvolumes = subvolume_plan(storage.mount_point, views(SUBVOLUMES@)).steps;
    let tail = seq![
        StepView::file(ActionView::CreateDir { path: storage.boot_mount() }),
        mount_step(storage.boot_partition(), storage.boot_mount(), ""@),
        StepView::file(ActionView::CreateDir { path: storage.efi_mount() }),
        mount_step(storage.efi_partition(), storage.efi_mount(), ""@),
    ];
    lemma_credential_free_add(head, subvolumes);
    lemma_credential_free_add(head + subvolumes, tail);
    lemma_credential_free_add(head + subvolumes + tail, snapper_steps());
}

/// Preparing storage without encryption asks for no credentials.
pub proof fn lemma_plain_storage_credential_free(storage: StorageView)
    ensures
        credential_free(storage.storage_plan(false).steps),
{
    let before = install_plan(views(STORAGE_PACKAGES@)).steps + storage.layout().apply_plan().steps;
    let after = storage.filesystem_steps(storage.root_partition()) + snapper_steps();
    lemma_storage_parts_credential_free(storage, storage.root_partition());
    lemma_credential_free_add(before, Seq::empty());
    lemma_credential_free_add(before + Seq::<StepView>::empty(), storage.filesystem_steps(storage.root_partition()));
    lemma_credential_free_add(
        before + Seq::<StepView>::empty() + storage.filesystem_steps(storage.root_partition()),
        snapper_steps(),
    );
}

impl StorageView {
    /// The position of the step that unlocks the encrypted volume in the
    /// plan for encrypted storage.
    pub open spec fn unlock_position(self) -> int {
        (install_plan(views(STORAGE_PACKAGES@)).steps.len() + self.layout().apply_plan().steps.len() + 2) as int
    }
}

/// The encrypted volume is unlocked before anything touches it. In the
/// plan for encrypted storage, the step at the unlock position unlocks the
/// root partition, no other step asks for credentials, and every step
/// that names the unlocked device, the first of them the one that creates
/// its filesystem, comes after it.
pub proof fn lemma_unlock_before_use(storage: StorageView)
    ensures
        ({
            let steps = storage.storage_plan(true).steps;
            let at = storage.unlock_position();
            &&& 0 <= at < steps.len()
            &&& steps[at] == open_step(storage.root_partition(), MAPPER_NAME@)
            &&& forall|i: int| 0 <= i < steps.len() && i != at ==> !(#[trigger] steps[i]).asks_credentials()
            &&& steps.subrange(at + 1, steps.len() as int) == storage.filesystem_steps(mapper_path(MAPPER_NAME@))
                + snapper_steps()
            &&& credential_free(steps.subrange(0, at))
        }),
{
    let root_source = mapper_path(MAPPER_NAME@);
    let before = install_plan(views(STORAGE_PACKAGES@)).steps + storage.layout().apply_plan().steps;
    let volume = storage.encryption_steps();
    let after = storage.filesystem_steps(root_source) + snapper_steps();
    let steps = storage.storage_plan(true).steps;
    let at = storage.unlock_position();
    lemma_storage_parts_credential_free(storage, root_source);
    assert(steps =~= before + volume + after);
    assert(volume.len() == 3);
    assert(before.len() == at - 2);
    assert(steps[at] == volume[2]);
    assert(steps.subrange(at + 1, steps.len() as int) =~= after);
    assert forall|i: int| 0 <= i < steps.len() && i != at implies !(#[trigger] steps[i]).asks_credentials() by {
        if i < before.len() {
            assert(steps[i] == before[i]);
        } else if i < at {
            assert(steps[i] == volume[i - before.len()]);
        } else {
            assert(steps[i] == after[i - at - 1]);
        }
    }
    assert(credential_free(steps.subrange(0, at))) by {
        assert forall|i: int| 0 <= i < at implies !(#[trigger] steps.subrange(0, at)[i]).asks_credentials() by {
            assert(steps.subrange(0, at)[i] == steps[i]);
        }
    }
}

impl StorageManager {
    /// A storage manager for `device`, with the target root at `/mnt` and
    /// the system volume encrypted.
    pub fn new(device: &str) -> (r: Self)
        ensures
            r@.root_device == device@,
            r@.esp_path == "/boot/efi"@,
            r@.mount_point == MOUNT_POINT@,
            r@.encrypt,
    {
        StorageManager {
            root_device: String::from_str(device),
            esp_path: String::from_str("/boot/efi"),
            mount_point: String::from_str(MOUNT_POINT),
            encrypt: true,
        }
    }

    /// The plan for the storage, encrypted or not as this manager says,
    /// with what it mounts. It is refused with `MountOrder` unless the mount
    /// point is an absolute path.
    pub fn setup_storage(&self) -> (r: Result<StorageSetup, InstallError>)
        ensures
            match r {
                Ok(setup) => {
                    &&& self@.absolute()
                    &&& setup.plan@ == self@.storage_plan(self@.encrypt)
                    &&& setup.mounts@.entries == self@.mounted(self@.root_source(self@.encrypt))
                    &&& setup.mounts@.wf()
                    &&& view_volume(setup.volume) == (if self@.encrypt {
                        Some(self@.volume())
                    } else {
                        None
                    })
                    &&& setup.root_source@ == self@.root_source(self@.encrypt)
                },
                Err(error) => !self@.absolute() && error@ == (ErrorView::MountOrder { target: self@.mount_point }),
            },
    {
        self.prepare(self.encrypt)
    }

    /// The plan for storage on an encrypted volume, with what it mounts and
    /// the volume. It is refused with `MountOrder` unless the mount point is
    /// an absolute path.
    pub fn setup_encrypted_storage(&self) -> (r: Result<StorageSetup, InstallError>)
        ensures
            match r {
                Ok(setup) => {
                    &&& self@.absolute()
                    &&& setup.plan@ == self@.storage_plan(true)
                    &&& setup.mounts@.entries == self@.mounted(mapper_path(MAPPER_NAME@))
                    &&& setup.mounts@.wf()
                    &&& view_volume(setup.volume) == Some(self@.volume())
                    &&& setup.root_source@ == mapper_path(MAPPER_NAME@)
                },
                Err(error) => !self@.absolute() && error@ == (ErrorView::MountOrder { target: self@.mount_point }),
            },
    {
        self.prepare(true)
    }

    fn prepare(&self, encrypted: bool) -> (r: Result<StorageSetup, InstallError>)
        ensures
            match r {
                Ok(setup) => {
                    &&& self@.absolute()
                    &&& setup.plan@ == self@.storage_plan(encrypted)
                    &&& setup.mounts@.entries == self@.mounted(self@.root_source(encrypted))
                    &&& setup.mounts@.wf()
                    &&& view_volume(setup.volume) == (if encrypted {
                        Some(self@.volume())
                    } else {
                        None
                    })
                    &&& setup.root_source@ == self@.root_source(encrypted)
                },
                Err(error) => !self@.absolute() && error@ == (ErrorView::MountOrder { target: self@.mount_point }),
            },
    {
        let mut plan = Plan::new(Unwind::OnFailure);
        plan.extend(PackageManager::new().install_packages(&STORAGE_PACKAGES));
        plan.extend(self.create_partitions());
        let mut volume: Option<EncryptedVolume> = None;
        let root_source = if encrypted {
            let mut encryption = EncryptionManager::new();
            match self.setup_encryption(&mut encryption) {
                Ok(unlocked) => {
                    plan.extend(unlocked.0);
                    volume = Some(
                        EncryptedVolume {
                            partition: DeviceProvisioner::partition_path(self.root_device.as_str(), 3),
                            mapper_name: String::from_str(MAPPER_NAME),
                            params: CipherParams::standard(),
                        },
                    );
                    unlocked.1
                },
                // a manager that knows of no header refuses nothing, so this does not occur
                Err(error) => {
                    proof {
                        assert(!Seq::<Seq<char>>::empty().contains(self@.root_partition()));
                        assert(encryption@.formatted =~= Seq::<Seq<char>>::empty());
                    }
                    return Err(error);
                },
            }
        } else {
            DeviceProvisioner::partition_path(self.root_device.as_str(), 3)
        };
        let mut filesystems = FilesystemManager::new();
        match self.setup_filesystems(&mut filesystems, root_source.as_str()) {
            Ok(steps) => {
                plan.extend(steps);
            },
            Err(error) => {
                return Err(error);
            },
        }
        plan.extend(self.setup_snapper());
        proof {
            assert(plan@.steps =~= self@.storage_plan(encrypted).steps);
        }
        Ok(StorageSetup { plan, mounts: filesystems.into_mounts(), volume, root_source })
    }

    /// The plan that writes the partition table: EFI system partition, boot
    /// partition, and the system on the rest of the device.
    pub fn create_partitions(&self) -> (plan: Plan)
        ensures
            plan@ == self@.layout().apply_plan(),
    {
        let layout = DeviceProvisioner::create_layout(self.root_device.as_str(), PartitionScheme::EfiBootRoot);
        match DeviceProvisioner::apply(&layout) {
            Ok(plan) => plan,
            // a ready-made layout keeps the layout rules, so this does not occur
            Err(_) => Plan::new(Unwind::Never),
        }
    }

    /// The plan that encrypts the root partition and unlocks it, and the
    /// device under which the unlocked volume appears. It is refused with
    /// `AlreadyEncrypted` where `encryption` knows the root partition to
    /// carry a header.
    pub fn setup_encryption(&self, encryption: &mut EncryptionManager) -> (r: Result<(Plan, String), InstallError>)
        ensures
            match r {
                Ok(unlocked) => {
                    &&& !old(encryption)@.formatted.contains(self@.root_partition())
                    &&& unlocked.0@ == PlanView::of(self@.encryption_steps())
                    &&& unlocked.1@ == mapper_path(MAPPER_NAME@)
                    &&& final(encryption)@.formatted == old(encryption)@.formatted.push(self@.root_partition())
                    &&& final(encryption)@.open == crate::system::encryption::with_text(
                        old(encryption)@.open,
                        MAPPER_NAME@,
                    )
                },
                Err(error) => {
                    &&& old(encryption)@.formatted.contains(self@.root_partition())
                    &&& error@ == (ErrorView::AlreadyEncrypted { partition: self@.root_partition() })
                    &&& final(encryption)@ == old(encryption)@
                },
            },
    {
        let root_partition = DeviceProvisioner::partition_path(self.root_device.as_str(), 3);
        let params = CipherParams::standard();
        match encryption.format(root_partition.as_str(), &params, false) {
            Ok(plan) => {
                let mut plan = plan;
                let unlocked = encryption.open(root_partition.as_str(), MAPPER_NAME);
                plan.push(unlocked.0);
                Ok((plan, unlocked.1))
            },
            Err(error) => Err(error),
        }
    }

    /// The plan that creates the filesystems and mounts them, recorded in
    /// `filesystems`. It is refused with `MountOrder` unless nothing is
    /// recorded yet and the mount point is an absolute path.
    pub fn setup_filesystems(&self, filesystems: &mut FilesystemManager, root_source: &str) -> (r: Result<
        Plan,
        InstallError,
    >)
        ensures
            match r {
                Ok(plan) => {
                    &&& old(filesystems)@.entries.len() == 0
                    &&& self@.absolute()
                    &&& plan@ == PlanView::of(self@.filesystem_steps(root_source@))
                    &&& final(filesystems)@.entries == self@.mounted(root_source@)
                    &&& final(filesystems)@.wf()
                },
                Err(error) => {
                    &&& !(old(filesystems)@.entries.len() == 0 && self@.absolute())
                    &&& error@ == (ErrorView::MountOrder { target: self@.mount_point })
                    &&& final(filesystems)@ == old(filesystems)@
                },
            },
    {
        let mount_point = self.mount_point.as_str();
        let root_mount = match filesystems.mount(MountRole::Root, root_source, mount_point, "") {
            Ok(step) => step,
            Err(error) => {
                return Err(error);
            },
        };
        proof {
            lemma_nested_mounts(self@, root_source@);
            assert(filesystems@.entries =~= self@.mounted(root_source@).take(1));
            crate::system::filesystem::lemma_mount_keeps_order(
                MountsView { entries: Seq::empty() },
                MountRole::Root,
                root_source@,
                mount_point@,
                ""@,
            );
            assert("/"@.is_prefix_of(mount_point@));
            assert(filesystems@.entries[0].target == mount_point@);
            assert(filesystems@.has_target(mount_point@));
        }
        let efi_partition = DeviceProvisioner::partition_path(self.root_device.as_str(), 1);
        let boot_partition = DeviceProvisioner::partition_path(self.root_device.as_str(), 2);
        let mut plan = Plan::new(Unwind::Never);
        plan.push(filesystems.format(efi_partition.as_str(), FsType::Fat32));
        plan.push(filesystems.format(boot_partition.as_str(), FsType::Ext4));
        plan.push(filesystems.format(root_source, FsType::Btrfs));
        plan.push(root_mount);
        match filesystems.create_subvolumes(mount_point, &SUBVOLUMES) {
            Ok(subvolumes) => {
                plan.extend(subvolumes);
            },
            // the volume is recorded as mounted, so this does not occur
            Err(_) => {},
        }
        let boot_mount = join_path(mount_point, "boot");
        let efi_mount = join_path(boot_mount.as_str(), "efi");
        plan.push(Step::file(Action::create_dir(boot_mount.as_str())));
        match filesystems.mount(MountRole::Boot, boot_partition.as_str(), boot_mount.as_str(), "") {
            Ok(step) => {
                plan.push(step);
            },
            // a mount below the root and above nothing is admitted, so this does not occur
            Err(_) => {},
        }
        proof {
            assert(filesystems@.entries =~= self@.mounted(root_source@).take(2));
        }
        plan.push(Step::file(Action::create_dir(efi_mount.as_str())));
        match filesystems.mount(MountRole::Efi, efi_partition.as_str(), efi_mount.as_str(), "") {
            Ok(step) => {
                plan.push(step);
            },
            // as above
            Err(_) => {},
        }
        proof {
            assert(filesystems@.entries =~= self@.mounted(root_source@));
            assert(plan@.steps =~= self@.filesystem_steps(root_source@));
        }
        Ok(plan)
    }

    /// The plan that configures snapshots of the root volume.
    pub fn setup_snapper(&self) -> (plan: Plan)
        ensures
            plan@ == PlanView::of(snapper_steps()),
    {
        let mut plan = Plan::new(Unwind::Never);
        plan.push(Step::attempt(Command::new("snapper").arg("create-config").arg("/")));
        plan.push(Step::file(Action::write_file(SNAPPER_CONFIG_PATH, SNAPPER_CONFIG)));
        proof {
            assert(plan@.steps =~= snapper_steps());
        }
        plan
    }
}

} // verus!
