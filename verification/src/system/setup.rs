//! The setup of a running system: every part in its order.
use vstd::prelude::*;
use crate::error::{ErrorView, InstallError};
use crate::plan::{view_error, Plan, PlanView};
use crate::system::audio::{audio_plan, AudioManager};
use crate::system::bootloader::{bootloader_plan, finalize_step, BootManager};
use crate::system::display::{hyprland_plan, DisplayManager};
use crate::system::distro::{DistroManager, DistroView};
use crate::system::kernel::{kernel_plan, KernelManager};
use crate::system::login::{sddm_plan, LoginManager};
use crate::system::network::{network_plan, NetworkManager};
use crate::system::package_manager::{install_plan, update_step, PackageManager};
use crate::system::power::{power_plan, PowerManager};
use crate::system::services::{enable_and_start, ServiceManager, ESSENTIAL_SERVICES};
use crate::system::storage::{StorageManager, StorageView, MOUNT_POINT};
use crate::system::theming::{themes_plan, ThemeManager};
use crate::system::updates::{updates_plan, UpdateManager};
use crate::text::{view_opt, views};

verus! {

/// The packages of the desktop system.
pub const SYSTEM_PACKAGES: [&'static str; 17] = [
    "base-devel",
    "hyprland",
    "waybar",
    "alacritty",
    "wofi",
    "light",
    "networkmanager",
    "pipewire",
    "xdg-desktop-portal-hyprland",
    "polkit",
    "gtk3",
    "gtk4",
    "qt5-wayland",
    "qt6-wayland",
    "sddm",
    "noto-fonts",
    "noto-fonts-emoji",
];

/// The device that holds the system.
pub const SYSTEM_DEVICE: &'static str = "/dev/sda";

/// The storage of the system.
pub open spec fn system_storage() -> StorageView {
    StorageView { root_device: SYSTEM_DEVICE@, esp_path: "/boot/efi"@, mount_point: MOUNT_POINT@, encrypt: true }
}

/// The setup of the distribution, which comes before everything else.
pub open spec fn distro_plan() -> PlanView {
    (DistroView { config_path: "/etc/xbitos"@, repo_path: "/var/lib/xbitos/repo"@ }).plan()
}

/// The plans that follow the setup of the distribution, for the home
/// directory `home`, in their order: update, packages, services, login
/// manager, desktop, themes, sound, power, network, kernel, boot manager
/// and its refresh, storage, automatic updates.
pub open spec fn later_plans(home: Seq<char>) -> Seq<PlanView> {
    seq![
        PlanView::of(seq![update_step()]),
        install_plan(views(SYSTEM_PACKAGES@)),
        PlanView::of(enable_and_start(views(ESSENTIAL_SERVICES@))),
        sddm_plan("/etc/sddm.conf.d"@),
        hyprland_plan(),
        themes_plan(home),
        audio_plan("/etc/pipewire"@),
        power_plan("/etc/tlp.d"@),
        network_plan("/etc/NetworkManager/conf.d"@),
        kernel_plan("/etc/mkinitcpio.conf.d"@),
        bootloader_plan("/boot/efi"@),
        PlanView::of(seq![finalize_step()]),
        system_storage().storage_plan(true),
        updates_plan("/etc/systemd/system"@),
    ]
}

/// The plans of the system setup and the failure that ends it early. The
/// distribution is set up first. Without a home directory nothing more can
/// be planned, and the setup ends with `HomeUnknown` after that plan.
pub open spec fn system_plans(home: Option<Seq<char>>) -> (Seq<PlanView>, Option<ErrorView>) {
    match home {
        Some(dir) => (seq![distro_plan()] + later_plans(dir), None),
        None => (seq![distro_plan()], Some(ErrorView::HomeUnknown)),
    }
}

/// The plans of the system setup for the theme manager `themes`.
pub fn setup_system_with(themes: &ThemeManager) -> (plans: Vec<Plan>)
    ensures
        views(plans@) == seq![distro_plan()] + later_plans(themes.home_dir@),
{
    let mut plans: Vec<Plan> = Vec::new();
    plans.push(DistroManager::new().setup_distro());
    let packages = PackageManager::new();
    plans.push(packages.update_system());
    plans.push(packages.install_packages(&SYSTEM_PACKAGES));
    plans.push(ServiceManager::new().setup_essential_services());
    plans.push(LoginManager::new().setup_sddm());
    plans.push(DisplayManager::new().setup_hyprland());
    plans.push(themes.setup_themes());
    plans.push(AudioManager::new().setup_audio());
    plans.push(PowerManager::new().setup_power_management());
    plans.push(NetworkManager::new().setup_networking());
    plans.push(KernelManager::new().setup_kernel());
    let boot = BootManager::new();
    plans.push(boot.setup_bootloader());
    plans.push(boot.update_boot_configuration());
    let storage = StorageManager::new(SYSTEM_DEVICE);
    proof {
        reveal_strlit("/mnt");
        reveal_strlit("/");
        assert("/"@ =~= MOUNT_POINT@.subrange(0, 1));
        assert(storage@ == system_storage());
    }
    match storage.setup_storage() {
        Ok(setup) => {
            plans.push(setup.plan);
        },
        // the mount point is an absolute path, so this does not occur
        Err(_) => {},
    }
    plans.push(UpdateManager::new().setup_auto_updates());
    proof {
        assert(views(plans@) =~= seq![distro_plan()] + later_plans(themes.home_dir@));
    }
    plans
}

/// The plans of the system setup for the home directory `home`, and the
/// failure that ends the setup early where there is none.
pub fn setup_system_for(home: Option<String>) -> (r: (Vec<Plan>, Option<InstallError>))
    ensures
        (views(r.0@), view_error(r.1)) == system_plans(view_opt(home)),
{
    match ThemeManager::for_home(home) {
        Ok(themes) => (setup_system_with(&themes), None),
        Err(error) => {
            let mut plans: Vec<Plan> = Vec::new();
            plans.push(DistroManager::new().setup_distro());
            proof {
                assert(views(plans@) =~= seq![distro_plan()]);
            }
            (plans, Some(error))
        },
    }
}

/// The plans of the system setup for the current user, and the failure
/// that ends the setup early where the home directory of that user cannot
/// be determined. Whatever the home directory turns out to be, the result
/// is the setup for it.
pub fn setup_system() -> (r: (Vec<Plan>, Option<InstallError>))
    ensures
        exists|home: Option<Seq<char>>| (views(r.0@), view_error(r.1)) == system_plans(home),
{
    match ThemeManager::new() {
        Ok(themes) => {
            let plans = setup_system_with(&themes);
            proof {
                assert((views(plans@), None::<ErrorView>) == system_plans(Some(themes.home_dir@)));
            }
            (plans, None)
        },
        Err(error) => {
            let mut plans: Vec<Plan> = Vec::new();
            plans.push(DistroManager::new().setup_distro());
            proof {
                assert(views(plans@) =~= seq![distro_plan()]);
                assert((views(plans@), Some(error@)) == system_plans(None));
            }
            (plans, Some(error))
        },
    }
}

} // verus!
