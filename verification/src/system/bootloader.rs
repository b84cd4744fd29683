//! The boot manager: installing it into the EFI system partition, writing
//! the loader configuration and the boot entry, and refreshing it at the end.
use vstd::prelude::*;
use crate::command::{Action, ActionView, Command, CommandView};
use crate::error::{ErrorView, InstallError};
use crate::plan::{
    credential_free,
    lemma_credential_free_add,
    Expect,
    ExpectView,
    Failure,
    FailureView,
    Plan,
    PlanView,
    Step,
    StepView,
    Unwind,
};
use crate::system::filesystem::{view_step_result, MountPlan, MountsView};
use crate::system::kernel::KERNEL_PARAMETERS;
use crate::system::package_manager::{install_plan, PackageManager};
use crate::text::{join_path, path_under, views};

verus! {

/// The boot manager and the tools around it.
pub const BOOTLOADER_PACKAGES: [&'static str; 4] = ["systemd-boot", "efibootmgr", "efivar", "efitools"];

/// The loader configuration: default entry, timeout, console mode.
pub const LOADER_CONF: &'static str = r#"
default  xbitos.conf
timeout  4
console-mode max
editor   no
"#;

/// The head of the boot entry: its title and its kernel image.
pub const ENTRY_HEAD: &'static str = "\ntitle   xBitOS\nlinux   /vmlinuz-linux-zen\n";

/// The initial ramdisks of the boot entry, in the order in which they are loaded.
pub const DEFAULT_INITRDS: [&'static str; 3] = ["/amd-ucode.img", "/intel-ucode.img", "/initramfs-linux-zen.img"];

/// Builds the steps that install and configure the boot manager.
#[derive(Debug)]
pub struct BootManager {
    pub esp_path: String,
}

/// One `initrd` line for each path, in order.
pub open spec fn initrd_lines(paths: Seq<Seq<char>>) -> Seq<char>
    decreases paths.len(),
{
    if paths.len() == 0 {
        Seq::empty()
    } else {
        initrd_lines(paths.drop_last()) + "initrd  "@ + paths.last() + "\n"@
    }
}

/// The text of the boot entry: the head, the initial ramdisks, and the
/// kernel parameters as they were handed in.
pub open spec fn entry_text(kernel_params: Seq<char>, initrd_paths: Seq<Seq<char>>) -> Seq<char> {
    ENTRY_HEAD@ + initrd_lines(initrd_paths) + "options "@ + kernel_params + "\n"@
}

/// A file written for the boot manager.
pub open spec fn boot_file(path: Seq<char>, content: Seq<char>) -> StepView {
    StepView::plain(ActionView::WriteFile { path, content }, ExpectView::Success(FailureView::Bootloader))
}

/// The steps that write the loader configuration and the boot entry below
/// the EFI system partition.
pub open spec fn entry_steps(esp_path: Seq<char>, kernel_params: Seq<char>, initrd_paths: Seq<Seq<char>>) -> Seq<
    StepView,
> {
    seq![
        boot_file(path_under(esp_path, "loader/loader.conf"@), LOADER_CONF@),
        boot_file(path_under(esp_path, "loader/entries/xbitos.conf"@), entry_text(kernel_params, initrd_paths)),
    ]
}

/// The step that installs the boot manager into the EFI system partition.
pub open spec fn install_step(esp_path: Seq<char>) -> StepView {
    StepView::run(
        CommandView::new("bootctl"@).arg("install"@).arg("--path"@).arg(esp_path),
        FailureView::Bootloader,
    )
}

/// What a request to install the boot manager leads to: the step, or the
/// refusal where the EFI system partition is not mounted at `esp_path` or
/// the base system is not installed.
pub open spec fn install_verdict(esp_path: Seq<char>, mounts: MountsView, base_installed: bool) -> Result<
    StepView,
    ErrorView,
> {
    if !mounts.has_target(esp_path) {
        Err(ErrorView::NotMounted { path: esp_path })
    } else if !base_installed {
        Err(ErrorView::BaseMissing)
    } else {
        Ok(install_step(esp_path))
    }
}

/// The step that brings the installed boot manager in line with its entries.
pub open spec fn finalize_step() -> StepView {
    StepView::run(CommandView::new("bootctl"@).arg("update"@), FailureView::Bootloader)
}

/// The whole setup: packages, installation, entries.
pub open spec fn bootloader_plan(esp_path: Seq<char>) -> PlanView {
    PlanView::of(
        install_plan(views(BOOTLOADER_PACKAGES@)).steps + seq![install_step(esp_path)] + entry_steps(
            esp_path,
            KERNEL_PARAMETERS@,
            views(DEFAULT_INITRDS@),
        ),
    )
}

/// Setting up the boot manager asks for no credentials.
pub proof fn lemma_bootloader_plan_credential_free(esp_path: Seq<char>)
    ensures
        credential_free(bootloader_plan(esp_path).steps),
{
    let packages = install_plan(views(BOOTLOADER_PACKAGES@)).steps;
    let head = packages + seq![install_step(esp_path)];
    lemma_credential_free_add(packages, seq![install_step(esp_path)]);
    lemma_credential_free_add(head, entry_steps(esp_path, KERNEL_PARAMETERS@, views(DEFAULT_INITRDS@)));
}

impl BootManager {
    /// A boot manager for the EFI system partition at `/boot/efi`.
    pub fn new() -> (r: Self)
        ensures
            r.esp_path@ == "/boot/efi"@,
    {
        BootManager { esp_path: String::from_str("/boot/efi") }
    }

    /// A boot manager for the EFI system partition at `esp_path`.
    pub fn at(esp_path: &str) -> (r: Self)
        ensures
            r.esp_path@ == esp_path@,
    {
        BootManager { esp_path: String::from_str(esp_path) }
    }

    /// The plan that installs the packages and the boot manager and writes
    /// its entries.
    pub fn setup_bootloader(&self) -> (plan: Plan)
        ensures
            plan@ == bootloader_plan(self.esp_path@),
    {
        let mut plan = PackageManager::new().install_packages(&BOOTLOADER_PACKAGES);
        plan.push(self.install_systemd_boot());
        plan.extend(self.configure_boot_entries());
        proof {
            assert(plan@.steps =~= bootloader_plan(self.esp_path@).steps);
        }
        plan
    }

    /// The step that installs the boot manager into the EFI system partition.
    pub fn install_systemd_boot(&self) -> (step: Step)
        ensures
            step@ == install_step(self.esp_path@),
    {
        Step::run(
            Command::new("bootctl").arg("install").arg("--path").arg(self.esp_path.as_str()),
            Failure::Bootloader,
        )
    }

    /// The step that installs the boot manager, given the record of what is
    /// mounted and whether the base system, with its kernel and initial
    /// ramdisk, has been installed. It is refused with `NotMounted` unless
    /// the EFI system partition is recorded as mounted at this manager's
    /// path, and with `BaseMissing` unless the base system is installed.
    pub fn install(&self, mounts: &MountPlan, base_installed: bool) -> (r: Result<Step, InstallError>)
        ensures
            view_step_result(r) == install_verdict(self.esp_path@, mounts@, base_installed),
    {
        if !mounts.has_target(self.esp_path.as_str()) {
            Err(InstallError::NotMounted { path: self.esp_path.clone() })
        } else if !base_installed {
            Err(InstallError::BaseMissing)
        } else {
            Ok(self.install_systemd_boot())
        }
    }

    /// The text of the boot entry for `kernel_params` and `initrd_paths`.
    /// The parameters are taken as they are.
    pub fn entry_text(kernel_params: &str, initrd_paths: &[&str]) -> (r: String)
        ensures
            r@ == entry_text(kernel_params@, views(initrd_paths@)),
    {
        let mut r = String::from_str(ENTRY_HEAD);
        let ghost mut lines: Seq<char> = Seq::empty();
        let mut i: usize = 0;
        proof {
            assert(r@ =~= ENTRY_HEAD@ + lines);
        }
        while i < initrd_paths.len()
            invariant
                i <= initrd_paths.len(),
                lines == initrd_lines(views(initrd_paths@).take(i as int)),
                r@ == ENTRY_HEAD@ + lines,
            decreases initrd_paths.len() - i,
        {
            r.append("initrd  ");
            r.append(initrd_paths[i]);
            r.append("\n");
            proof {
                let all = views(initrd_paths@);
                assert(all.take(i + 1).drop_last() =~= all.take(i as int));
                assert(all.take(i + 1).last() == initrd_paths[i as int]@);
                let grown = lines + "initrd  "@ + initrd_paths[i as int]@ + "\n"@;
                assert(r@ =~= ENTRY_HEAD@ + grown);
                lines = grown;
            }
            i += 1;
        }
        r.append("options ");
        r.append(kernel_params);
        r.append("\n");
        proof {
            assert(views(initrd_paths@).take(initrd_paths.len() as int) =~= views(initrd_paths@));
            assert(r@ =~= entry_text(kernel_params@, views(initrd_paths@)));
        }
        r
    }

    /// The plan that writes the loader configuration and the boot entry.
    pub fn write_entries(&self, kernel_params: &str, initrd_paths: &[&str]) -> (plan: Plan)
        ensures
            plan@ == PlanView::of(entry_steps(self.esp_path@, kernel_params@, views(initrd_paths@))),
    {
        let mut plan = Plan::new(Unwind::Never);
        let loader = join_path(self.esp_path.as_str(), "loader/loader.conf");
        plan.push(Step::plain(Action::write_file(loader.as_str(), LOADER_CONF), Expect::Success(Failure::Bootloader)));
        let entry = join_path(self.esp_path.as_str(), "loader/entries/xbitos.conf");
        let text = Self::entry_text(kernel_params, initrd_paths);
        plan.push(
            Step::plain(Action::write_file(entry.as_str(), text.as_str()), Expect::Success(Failure::Bootloader)),
        );
        proof {
            assert(plan@.steps =~= entry_steps(self.esp_path@, kernel_params@, views(initrd_paths@)));
        }
        plan
    }

    /// The plan that writes the entry for the standard kernel parameters and
    /// initial ramdisks.
    pub fn configure_boot_entries(&self) -> (plan: Plan)
        ensures
            plan@ == PlanView::of(entry_steps(self.esp_path@, KERNEL_PARAMETERS@, views(DEFAULT_INITRDS@))),
    {
        self.write_entries(KERNEL_PARAMETERS, &DEFAULT_INITRDS)
    }

    /// The step that brings the boot manager in line with its entries. It
    /// depends on nothing but the boot manager itself, so it is the same
    /// step however often it is asked for, and can be run again.
    pub fn finalize(&self) -> (step: Step)
        ensures
            step@ == finalize_step(),
    {
        Step::run(Command::new("bootctl").arg("update"), Failure::Bootloader)
    }

    /// The plan that refreshes the boot configuration.
    pub fn update_boot_configuration(&self) -> (plan: Plan)
        ensures
            plan@ == PlanView::of(seq![finalize_step()]),
    {
        let mut plan = Plan::new(Unwind::Never);
        plan.push(self.finalize());
        proof {
            assert(plan@.steps =~= seq![finalize_step()]);
        }
        plan
    }
}

} // verus!
