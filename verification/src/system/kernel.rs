//! The kernel: its packages, the configuration of the initial ramdisk, and
//! the parameters it is booted with.
use vstd::prelude::*;
use crate::command::{Action, ActionView, Command, CommandView};
use crate::plan::{Failure, FailureView, Plan, PlanView, Step, StepView, Unwind};
use crate::system::package_manager::{install_plan, PackageManager};
use crate::text::{join_path, path_under, views};

verus! {

/// The kernel, its firmware and the tools that build its modules and ramdisk.
pub const KERNEL_PACKAGES: [&'static str; 8] = [
    "linux-zen",
    "linux-zen-headers",
    "linux-firmware",
    "mkinitcpio",
    "dkms",
    "nvidia-dkms",
    "amd-ucode",
    "intel-ucode",
];

/// The configuration of the initial ramdisk.
pub const INITRAMFS_CONFIG: &'static str = r#"
# مكونات صورة النواة الأولية
MODULES=(amdgpu nvidia i915 btrfs)

# الخطافات المطلوبة
HOOKS=(base udev autodetect modconf block keyboard keymap consolefont filesystems fsck)

# ضغط صورة النواة
COMPRESSION="zstd"
COMPRESSION_OPTIONS=(-19)

# إعدادات متقدمة
MODULES_DECOMPRESS="yes"
"#;

/// The parameters that the kernel is booted with.
pub const KERNEL_PARAMETERS: &'static str =
    "root=PARTUUID=XXXX rw quiet splash nvidia-drm.modeset=1 amd_iommu=on iommu=pt threadirqs mitigations=off";

/// Builds the plans that install and configure the kernel.
#[derive(Debug)]
pub struct KernelManager {
    pub config_path: String,
}

/// The steps that write the configuration of the initial ramdisk below
/// `config_path`.
pub open spec fn kernel_config_steps(config_path: Seq<char>) -> Seq<StepView> {
    seq![
        StepView::file(ActionView::CreateDir { path: config_path }),
        StepView::file(
            ActionView::WriteFile { path: path_under(config_path, "custom.conf"@), content: INITRAMFS_CONFIG@ },
        ),
    ]
}

/// The step that builds the initial ramdisks of all presets.
pub open spec fn initramfs_step() -> StepView {
    StepView::run(CommandView::new("mkinitcpio"@).arg("-P"@), FailureView::Command)
}

/// The whole kernel setup: packages, configuration, initial ramdisk.
pub open spec fn kernel_plan(config_path: Seq<char>) -> PlanView {
    PlanView::of(
        install_plan(views(KERNEL_PACKAGES@)).steps + kernel_config_steps(config_path) + seq![initramfs_step()],
    )
}

impl KernelManager {
    /// A kernel manager that writes below `/etc/mkinitcpio.conf.d`.
    pub fn new() -> (r: Self)
        ensures
            r.config_path@ == "/etc/mkinitcpio.conf.d"@,
    {
        KernelManager { config_path: String::from_str("/etc/mkinitcpio.conf.d") }
    }

    /// The plan that installs the kernel packages, writes the configuration
    /// of the initial ramdisk and builds it.
    pub fn setup_kernel(&self) -> (plan: Plan)
        ensures
            plan@ == kernel_plan(self.config_path@),
    {
        let mut plan = PackageManager::new().install_packages(&KERNEL_PACKAGES);
        plan.extend(self.setup_kernel_config());
        plan.push(self.generate_initramfs());
        proof {
            assert(plan@.steps =~= kernel_plan(self.config_path@).steps);
        }
        plan
    }

    /// The plan that writes the configuration of the initial ramdisk.
    pub fn setup_kernel_config(&self) -> (plan: Plan)
        ensures
            plan@ == PlanView::of(kernel_config_steps(self.config_path@)),
    {
        let mut plan = Plan::new(Unwind::Never);
        plan.push(Step::file(Action::create_dir(self.config_path.as_str())));
        let file = join_path(self.config_path.as_str(), "custom.conf");
        plan.push(Step::file(Action::write_file(file.as_str(), INITRAMFS_CONFIG)));
        proof {
            assert(plan@.steps =~= kernel_config_steps(self.config_path@));
        }
        plan
    }

    /// The step that builds the initial ramdisks.
    pub fn generate_initramfs(&self) -> (step: Step)
        ensures
            step@ == initramfs_step(),
    {
        Step::run(Command::new("mkinitcpio").arg("-P"), Failure::Command)
    }

    /// The parameters that the kernel is booted with.
    pub fn get_kernel_parameters(&self) -> (r: String)
        ensures
            r@ == KERNEL_PARAMETERS@,
    {
        String::from_str(KERNEL_PARAMETERS)
    }
}

} // verus!
