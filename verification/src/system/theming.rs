//! Themes: their packages, the environment that selects them, and the
//! settings of the toolkit in the home directory of the current user.
use vstd::prelude::*;
use crate::error::{ErrorView, InstallError};
use crate::plan::{Plan, PlanView, Step, StepView, Unwind};
use crate::system::package_manager::{install_plan, PackageManager};
use crate::text::{join_path, path_under, views};

verus! {

/// The theme packages.
pub const THEME_PACKAGES: [&'static str; 4] = ["papirus-icon-theme", "breeze", "qt5ct", "kvantum"];

/// The environment that selects the themes.
pub const THEME_ENVIRONMENT: &'static str = r#"
export QT_QPA_PLATFORMTHEME=qt5ct
export GTK_THEME=Breeze
export ICON_THEME=Papirus
export XCURSOR_THEME=breeze_cursors
"#;

/// The settings of the toolkit.
pub const GTK_THEME: &'static str = r#"[Settings]
gtk-theme-name=Breeze
gtk-icon-theme-name=Papirus
gtk-font-name=Noto Sans 10
gtk-cursor-theme-name=breeze_cursors
gtk-cursor-theme-size=24
"#;

/// Where the environment is written.
pub const THEME_ENVIRONMENT_PATH: &'static str = "/etc/environment.d/99-theming.conf";

/// Builds the plan that sets up the themes.
#[derive(Debug)]
pub struct ThemeManager {
    pub home_dir: String,
}

/// The step that writes the environment.
pub open spec fn environment_steps() -> Seq<StepView> {
    seq![StepView::write(THEME_ENVIRONMENT_PATH@, THEME_ENVIRONMENT@)]
}

/// The steps that write the settings of the toolkit below `home_dir`.
pub open spec fn gtk_theme_steps(home_dir: Seq<char>) -> Seq<StepView> {
    seq![
        StepView::mkdir(path_under(home_dir, ".config/gtk-3.0"@)),
        StepView::write(path_under(home_dir, ".config/gtk-3.0/settings.ini"@), GTK_THEME@),
    ]
}

/// The whole setup: packages, environment, settings.
pub open spec fn themes_plan(home_dir: Seq<char>) -> PlanView {
    PlanView::of(install_plan(views(THEME_PACKAGES@)).steps + environment_steps() + gtk_theme_steps(home_dir))
}

/// The theme manager for a home directory, or the refusal where there is none.
pub open spec fn for_home_spec(home: Option<Seq<char>>) -> Result<Seq<char>, ErrorView> {
    match home {
        Some(dir) => Ok(dir),
        None => Err(ErrorView::HomeUnknown),
    }
}

/// Asks `dirs::home_dir` for the home directory of the current user. The
/// answer depends on the environment and on the user database, so nothing
/// is claimed of it.
#[verifier::external_body]
fn home_dir() -> (home: Option<String>) {
    match dirs::home_dir() {
        Some(path) => Some(path.to_string_lossy().into_owned()),
        None => None,
    }
}

impl ThemeManager {
    /// The theme manager for the home directory of the current user. Where
    /// that directory cannot be determined, the result is `HomeUnknown`;
    /// no other error occurs.
    pub fn new() -> (r: Result<Self, InstallError>)
        ensures
            r matches Err(error) ==> error@ == ErrorView::HomeUnknown,
    {
        Self::for_home(home_dir())
    }

    /// The theme manager for `home`, or `HomeUnknown` where there is none.
    pub fn for_home(home: Option<String>) -> (r: Result<Self, InstallError>)
        ensures
            match r {
                Ok(manager) => for_home_spec(crate::text::view_opt(home)) == Ok::<Seq<char>, ErrorView>(
                    manager.home_dir@,
                ),
                Err(error) => for_home_spec(crate::text::view_opt(home)) == Err::<Seq<char>, ErrorView>(error@),
            },
    {
        match home {
            Some(dir) => Ok(ThemeManager { home_dir: dir }),
            None => Err(InstallError::HomeUnknown),
        }
    }

    /// The plan that installs the themes, writes the environment and the
    /// settings of the toolkit.
    pub fn setup_themes(&self) -> (plan: Plan)
        ensures
            plan@ == themes_plan(self.home_dir@),
    {
        let mut plan = PackageManager::new().install_packages(&THEME_PACKAGES);
        plan.extend(self.setup_environment_vars());
        plan.extend(self.setup_gtk_theme());
        plan
    }

    /// The plan that writes the environment.
    pub fn setup_environment_vars(&self) -> (plan: Plan)
        ensures
            plan@ == PlanView::of(environment_steps()),
    {
        let mut plan = Plan::new(Unwind::Never);
        plan.push(Step::write(THEME_ENVIRONMENT_PATH, THEME_ENVIRONMENT));
        proof {
            assert(plan@.steps =~= environment_steps());
        }
        plan
    }

    /// The plan that writes the settings of the toolkit.
    pub fn setup_gtk_theme(&self) -> (plan: Plan)
        ensures
            plan@ == PlanView::of(gtk_theme_steps(self.home_dir@)),
    {
        let mut plan = Plan::new(Unwind::Never);
        let dir = join_path(self.home_dir.as_str(), ".config/gtk-3.0");
        plan.push(Step::mkdir(dir.as_str()));
        let file = join_path(self.home_dir.as_str(), ".config/gtk-3.0/settings.ini");
        plan.push(Step::write(file.as_str(), GTK_THEME));
        proof {
            assert(plan@.steps =~= gtk_theme_steps(self.home_dir@));
        }
        plan
    }
}

} // verus!
