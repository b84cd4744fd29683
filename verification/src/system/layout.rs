//! Partition layouts and the plan that writes one to a device.
use vstd::prelude::*;
use crate::command::{Command, CommandView};
use crate::error::{ErrorView, InstallError};
use crate::plan::{Expect, ExpectView, Failure, FailureView, Plan, PlanView, Step, StepView, Unwind};
use crate::command::{Action, ActionView};
use crate::text::{chain, decimal, decimal_text};

verus! {

/// What a partition is for.
#[derive(Debug, PartialEq, Eq, Clone, Copy, Structural)]
pub enum PartitionRole {
    /// The EFI system partition.
    Efi,
    /// The partition that holds kernels and initial ramdisks.
    Boot,
    /// The partition that holds the system.
    Root,
}

/// How large a partition is.
#[derive(Debug, PartialEq, Eq, Clone, Copy, Structural)]
pub enum PartitionSize {
    /// This many MiB.
    Fixed(u64),
    /// Whatever is left of the device.
    Rest,
}

/// One partition of a layout. Offsets and sizes are in MiB.
#[derive(Debug, PartialEq, Eq, Clone, Copy, Structural)]
pub struct PartitionSpec {
    pub role: PartitionRole,
    pub offset: u64,
    pub size: PartitionSize,
}

/// The partitions that a device is to carry, in the order of their numbers.
#[derive(Debug, PartialEq, Eq)]
pub struct DeviceLayout {
    pub device: String,
    pub partitions: Vec<PartitionSpec>,
}

/// A layout as plain values.
pub struct LayoutView {
    pub device: Seq<char>,
    pub partitions: Seq<PartitionSpec>,
}

impl View for DeviceLayout {
    type V = LayoutView;

    open spec fn view(&self) -> LayoutView {
        LayoutView { device: self.device@, partitions: self.partitions@ }
    }
}

/// The ready-made layouts.
#[derive(Debug, PartialEq, Eq, Clone, Copy, Structural)]
pub enum PartitionScheme {
    /// EFI system partition, boot partition, and the system on the rest.
    EfiBootRoot,
    /// EFI system partition, and the system on the rest.
    EfiRoot,
}

/// The first MiB that a partition may use.
pub const FIRST_OFFSET: u64 = 1;

/// The size of the EFI system partition and of the boot partition, in MiB.
pub const SMALL_PARTITION: u64 = 512;

/// How many of the first `n` partitions have the role `role`.
pub open spec fn count_role(partitions: Seq<PartitionSpec>, role: PartitionRole, n: nat) -> nat
    decreases n,
{
    if n == 0 || n > partitions.len() {
        0
    } else if partitions[n - 1].role == role {
        count_role(partitions, role, (n - 1) as nat) + 1
    } else {
        count_role(partitions, role, (n - 1) as nat)
    }
}

/// The partitions of a scheme.
pub open spec fn scheme_partitions(scheme: PartitionScheme) -> Seq<PartitionSpec> {
    match scheme {
        PartitionScheme::EfiBootRoot => seq![
            PartitionSpec { role: PartitionRole::Efi, offset: 1, size: PartitionSize::Fixed(512) },
            PartitionSpec { role: PartitionRole::Boot, offset: 513, size: PartitionSize::Fixed(512) },
            PartitionSpec { role: PartitionRole::Root, offset: 1025, size: PartitionSize::Rest },
        ],
        PartitionScheme::EfiRoot => seq![
            PartitionSpec { role: PartitionRole::Efi, offset: 1, size: PartitionSize::Fixed(512) },
            PartitionSpec { role: PartitionRole::Root, offset: 513, size: PartitionSize::Rest },
        ],
    }
}

/// The path of the partition with the number `number` on `device`.
pub open spec fn partition_path(device: Seq<char>, number: nat) -> Seq<char> {
    device + decimal(number)
}

/// A size in MiB as the partitioning tool reads it.
pub open spec fn mib(n: nat) -> Seq<char> {
    decimal(n) + "MiB"@
}

/// Where a partition ends, as the partitioning tool reads it.
pub open spec fn end_of(partition: PartitionSpec) -> Seq<char> {
    match partition.size {
        PartitionSize::Fixed(size) => mib((partition.offset + size) as nat),
        PartitionSize::Rest => "100%"@,
    }
}

/// The end of a partition of fixed size can be written down in 64 bits.
pub open spec fn end_fits(partition: PartitionSpec) -> bool {
    partition.size matches PartitionSize::Fixed(size) ==> partition.offset + size <= u64::MAX
}

/// The command that creates one partition on `device`.
pub open spec fn mkpart_command(device: Seq<char>, partition: PartitionSpec) -> CommandView {
    let start = mib(partition.offset as nat);
    let base = CommandView::new("parted"@).arg(device).arg("mkpart"@);
    match partition.role {
        PartitionRole::Efi => base.arg("ESP"@).arg("fat32"@).arg(start).arg(end_of(partition)),
        PartitionRole::Boot => base.arg("boot"@).arg(start).arg(end_of(partition)),
        PartitionRole::Root => base.arg("root"@).arg(start).arg(end_of(partition)),
    }
}

/// The probe that succeeds where `device` is a block device.
pub open spec fn block_device_step(device: Seq<char>) -> StepView {
    StepView::run(CommandView::new("test"@).arg("-b"@).arg(device), FailureView::Device)
}

/// The probe that succeeds where the device or one of its partitions is mounted.
pub open spec fn busy_step(device: Seq<char>) -> StepView {
    StepView::plain(
        ActionView::Run(CommandView::new("grep"@).arg("-q"@).arg("^"@ + device).arg("/proc/mounts"@)),
        ExpectView::Absent(ErrorView::DeviceBusy { device }),
    )
}

/// The step that writes an empty partition table.
pub open spec fn mklabel_step(device: Seq<char>) -> StepView {
    StepView::run(CommandView::new("parted"@).arg(device).arg("mklabel"@).arg("gpt"@), FailureView::Command)
}

/// The step that creates one partition.
pub open spec fn mkpart_step(device: Seq<char>, partition: PartitionSpec) -> StepView {
    StepView::run(mkpart_command(device, partition), FailureView::Command)
}

/// The steps that come before any partition is created.
pub open spec fn apply_prelude(device: Seq<char>) -> Seq<StepView> {
    seq![block_device_step(device), busy_step(device), mklabel_step(device)]
}

impl LayoutView {
    /// The layout rules: offsets increase strictly, only the last partition
    /// may take the rest of the device, there is exactly one EFI system
    /// partition and exactly one root partition, and the end of every
    /// partition of fixed size can be written down.
    pub open spec fn valid(self) -> bool {
        &&& forall|i: int, j: int|
            0 <= i < j < self.partitions.len() ==> self.partitions[i].offset < self.partitions[j].offset
        &&& forall|i: int|
            0 <= i < self.partitions.len() && self.partitions[i].size is Rest ==> i == self.partitions.len() - 1
        &&& count_role(self.partitions, PartitionRole::Efi, self.partitions.len()) == 1
        &&& count_role(self.partitions, PartitionRole::Root, self.partitions.len()) == 1
        &&& forall|i: int| 0 <= i < self.partitions.len() ==> end_fits(#[trigger] self.partitions[i])
    }

    /// The plan that writes this layout to its device: two probes, the
    /// partition table, then one partition after the other.
    pub open spec fn apply_plan(self) -> PlanView {
        PlanView::of(
            apply_prelude(self.device) + Seq::new(
                self.partitions.len(),
                |i: int| mkpart_step(self.device, self.partitions[i]),
            ),
        )
    }
}

/// In a valid layout the offsets increase strictly, at most one partition
/// takes the rest of the device, and that partition is the last.
pub proof fn lemma_valid_layout(layout: LayoutView)
    requires
        layout.valid(),
    ensures
        forall|i: int, j: int|
            0 <= i < j < layout.partitions.len() ==> layout.partitions[i].offset < layout.partitions[j].offset,
        forall|i: int, j: int|
            0 <= i < layout.partitions.len() && 0 <= j < layout.partitions.len() && layout.partitions[i].size is Rest
                && layout.partitions[j].size is Rest ==> i == j,
        forall|i: int|
            0 <= i < layout.partitions.len() && layout.partitions[i].size is Rest ==> i == layout.partitions.len()
                - 1,
        layout.partitions.len() >= 2,
{
    let parts = layout.partitions;
    if parts.len() < 2 {
        if parts.len() == 1 {
            assert(count_role(parts, PartitionRole::Efi, 0) == 0);
            assert(count_role(parts, PartitionRole::Root, 0) == 0);
        }
    }
}

/// Creates layouts and the plans that write them to a device.
#[derive(Debug)]
pub struct DeviceProvisioner {}

impl DeviceProvisioner {
    /// The layout of `scheme` for `device`. It satisfies the layout rules.
    pub fn create_layout(device: &str, scheme: PartitionScheme) -> (layout: DeviceLayout)
        ensures
            layout@.device == device@,
            layout@.partitions == scheme_partitions(scheme),
            layout@.valid(),
    {
        let mut partitions: Vec<PartitionSpec> = Vec::new();
        partitions.push(
            PartitionSpec {
                role: PartitionRole::Efi,
                offset: FIRST_OFFSET,
                size: PartitionSize::Fixed(SMALL_PARTITION),
            },
        );
        match scheme {
            PartitionScheme::EfiBootRoot => {
                partitions.push(
                    PartitionSpec {
                        role: PartitionRole::Boot,
                        offset: FIRST_OFFSET + SMALL_PARTITION,
                        size: PartitionSize::Fixed(SMALL_PARTITION),
                    },
                );
                partitions.push(
                    PartitionSpec {
                        role: PartitionRole::Root,
                        offset: FIRST_OFFSET + 2 * SMALL_PARTITION,
                        size: PartitionSize::Rest,
                    },
                );
            },
            PartitionScheme::EfiRoot => {
                partitions.push(
                    PartitionSpec {
                        role: PartitionRole::Root,
                        offset: FIRST_OFFSET + SMALL_PARTITION,
                        size: PartitionSize::Rest,
                    },
                );
            },
        }
        let layout = DeviceLayout { device: String::from_str(device), partitions };
        proof {
            let parts = layout@.partitions;
            assert(parts =~= scheme_partitions(scheme));
            reveal_with_fuel(count_role, 4);
        }
        layout
    }

    /// Whether `layout` satisfies the layout rules.
    pub fn is_valid(layout: &DeviceLayout) -> (ok: bool)
        ensures
            ok == layout@.valid(),
    {
        let parts = &layout.partitions;
        let n = parts.len();
        let mut efi: usize = 0;
        let mut root: usize = 0;
        let mut i: usize = 0;
        while i < n
            invariant
                n == parts@.len(),
                parts@ == layout@.partitions,
                i <= n,
                efi == count_role(parts@, PartitionRole::Efi, i as nat),
                root == count_role(parts@, PartitionRole::Root, i as nat),
                efi <= i,
                root <= i,
                forall|a: int, b: int| 0 <= a < b < i ==> parts@[a].offset < parts@[b].offset,
                forall|a: int| 0 <= a < i && parts@[a].size is Rest ==> a == n - 1,
                forall|a: int| 0 <= a < i ==> end_fits(#[trigger] parts@[a]),
            decreases n - i,
        {
            let p = parts[i];
            if i > 0 && parts[i - 1].offset >= p.offset {
                return false;
            }
            match p.size {
                PartitionSize::Rest => {
                    if i + 1 != n {
                        return false;
                    }
                },
                PartitionSize::Fixed(size) => {
                    if size > u64::MAX - p.offset {
                        return false;
                    }
                },
            }
            match p.role {
                PartitionRole::Efi => {
                    efi += 1;
                },
                PartitionRole::Root => {
                    root += 1;
                },
                PartitionRole::Boot => {},
            }
            i += 1;
        }
        efi == 1 && root == 1
    }

    /// The path of the partition with the number `number` on `device`.
    pub fn partition_path(device: &str, number: u64) -> (r: String)
        ensures
            r@ == partition_path(device@, number as nat),
    {
        let digits = decimal_text(number);
        chain(device, digits.as_str())
    }

    fn mib(n: u64) -> (r: String)
        ensures
            r@ == mib(n as nat),
    {
        let mut r = decimal_text(n);
        r.append("MiB");
        r
    }

    fn mkpart(device: &str, partition: &PartitionSpec) -> (r: Step)
        requires
            end_fits(*partition),
        ensures
            r@ == mkpart_step(device@, *partition),
    {
        let start = Self::mib(partition.offset);
        let end = match partition.size {
            PartitionSize::Fixed(size) => Self::mib(partition.offset + size),
            PartitionSize::Rest => String::from_str("100%"),
        };
        let base = Command::new("parted").arg(device).arg("mkpart");
        let named = match partition.role {
            PartitionRole::Efi => base.arg("ESP").arg("fat32"),
            PartitionRole::Boot => base.arg("boot"),
            PartitionRole::Root => base.arg("root"),
        };
        Step::run(named.arg(start.as_str()).arg(end.as_str()), Failure::Command)
    }

    /// The plan that writes `layout` to its device. A layout that breaks the
    /// layout rules is refused, and then there is no plan at all. The plan
    /// first makes sure that the device is a block device and that nothing on
    /// it is mounted, and only then rewrites the partition table.
    pub fn apply(layout: &DeviceLayout) -> (r: Result<Plan, InstallError>)
        ensures
            match r {
                Ok(plan) => layout@.valid() && plan@ == layout@.apply_plan(),
                Err(error) => !layout@.valid() && error@ == ErrorView::InvalidLayout,
            },
    {
        if !Self::is_valid(layout) {
            return Err(InstallError::InvalidLayout);
        }
        let device = layout.device.as_str();
        let mut plan = Plan::new(Unwind::Never);
        plan.push(Step::run(Command::new("test").arg("-b").arg(device), Failure::Device));
        let pattern = chain("^", device);
        plan.push(
            Step::plain(
                Action::Run(Command::new("grep").arg("-q").arg(pattern.as_str()).arg("/proc/mounts")),
                Expect::Absent(InstallError::DeviceBusy { device: layout.device.clone() }),
            ),
        );
        plan.push(Step::run(Command::new("parted").arg(device).arg("mklabel").arg("gpt"), Failure::Command));
        proof {
            assert(plan@.steps =~= apply_prelude(layout@.device));
        }
        let mut i: usize = 0;
        while i < layout.partitions.len()
            invariant
                i <= layout.partitions.len(),
                layout@.valid(),
                device@ == layout@.device,
                plan@ == PlanView::of(
                    apply_prelude(layout@.device) + Seq::new(
                        i as nat,
                        |k: int| mkpart_step(layout@.device, layout@.partitions[k]),
                    ),
                ),
            decreases layout.partitions.len() - i,
        {
            let ghost before = plan@.steps;
            plan.push(Self::mkpart(device, &layout.partitions[i]));
            proof {
                let dev = layout@.device;
                let parts = layout@.partitions;
                assert(before.push(mkpart_step(dev, parts[i as int])) =~= apply_prelude(dev) + Seq::new(
                    (i + 1) as nat,
                    |k: int| mkpart_step(dev, parts[k]),
                ));
            }
            i += 1;
        }
        Ok(plan)
    }
}

} // verus!
