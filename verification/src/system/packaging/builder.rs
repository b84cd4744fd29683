//! Building a package: its build directory, its build description, its
//! build dependencies, the build itself, and the way into the repository.
use vstd::prelude::*;
use crate::command::{Action, ActionView, Command, CommandView};
use crate::plan::{Plan, PlanView, Step, StepView, Unwind};
use crate::system::package_manager::{install_plan, PackageManager};
use crate::text::{chain3, ends_with, has_suffix, interleave, interleaved, join, join_path, joined, path_under, views};

verus! {

/// The build description, cut where the values of a package go: name,
/// version, release, description, dependencies, build dependencies, sources.
pub const PKGBUILD_PIECES: [&'static str; 8] = [
    "\n# Maintainer: xBitOS Team <team@xbitos.org>\npkgname=",
    "\npkgver=",
    "\npkgrel=",
    "\npkgdesc=\"",
    "\"\narch=('x86_64')\ndepends=(",
    ")\nmakedepends=(",
    ")\nsource=(",
    ")\nsha256sums=('SKIP')\n\nbuild() {\n    cd \"$srcdir/$pkgname-$pkgver\"\n    ./configure --prefix=/usr\n    make\n}\n\npackage() {\n    cd \"$srcdir/$pkgname-$pkgver\"\n    make DESTDIR=\"$pkgdir/\" install\n}\n",
];

/// The ending of the name of a built package.
pub const PACKAGE_SUFFIX: &'static str = ".pkg.tar.zst";

/// The description of a package.
#[derive(Debug, PartialEq, Eq)]
pub struct PackageConfig {
    pub name: String,
    pub version: String,
    pub release: String,
    pub description: String,
    pub dependencies: Vec<String>,
    pub build_dependencies: Vec<String>,
    pub source: Vec<String>,
}

/// The description of a package as plain values.
pub struct PackageConfigView {
    pub name: Seq<char>,
    pub version: Seq<char>,
    pub release: Seq<char>,
    pub description: Seq<char>,
    pub dependencies: Seq<Seq<char>>,
    pub build_dependencies: Seq<Seq<char>>,
    pub source: Seq<Seq<char>>,
}

impl View for PackageConfig {
    type V = PackageConfigView;

    open spec fn view(&self) -> PackageConfigView {
        PackageConfigView {
            name: self.name@,
            version: self.version@,
            release: self.release@,
            description: self.description@,
            dependencies: views(self.dependencies@),
            build_dependencies: views(self.build_dependencies@),
            source: views(self.source@),
        }
    }
}

impl PackageConfigView {
    /// The build description of the package. The lists are written with
    /// their parts separated by single spaces.
    pub open spec fn pkgbuild(self) -> Seq<char> {
        interleaved(
            views(PKGBUILD_PIECES@),
            seq![
                self.name,
                self.version,
                self.release,
                self.description,
                joined(self.dependencies, " "@),
                joined(self.build_dependencies, " "@),
                joined(self.source, " "@),
            ],
        )
    }
}

/// Builds the plans that build packages.
#[derive(Debug)]
pub struct PackageBuilder {
    pub build_root: String,
    pub repo_path: String,
    pub aur_cache: String,
}

/// A package builder as plain values.
pub struct PackageBuilderView {
    pub build_root: Seq<char>,
    pub repo_path: Seq<char>,
    pub aur_cache: Seq<char>,
}

impl View for PackageBuilder {
    type V = PackageBuilderView;

    open spec fn view(&self) -> PackageBuilderView {
        PackageBuilderView { build_root: self.build_root@, repo_path: self.repo_path@, aur_cache: self.aur_cache@ }
    }
}

/// The step that writes the build description of `config` into `build_dir`.
pub open spec fn pkgbuild_step(build_dir: Seq<char>, config: PackageConfigView) -> StepView {
    StepView::write(path_under(build_dir, "PKGBUILD"@), config.pkgbuild())
}

/// One copy into the repository for each file whose name ends as the name
/// of a built package does, in the order of the list.
pub open spec fn copy_steps(build_dir: Seq<char>, repo_path: Seq<char>, files: Seq<Seq<char>>) -> Seq<StepView>
    decreases files.len(),
{
    if files.len() == 0 {
        Seq::empty()
    } else if has_suffix(files.last(), PACKAGE_SUFFIX@) {
        copy_steps(build_dir, repo_path, files.drop_last()).push(
            StepView::file(
                ActionView::CopyFile {
                    from: path_under(build_dir, files.last()),
                    to: path_under(repo_path, files.last()),
                },
            ),
        )
    } else {
        copy_steps(build_dir, repo_path, files.drop_last())
    }
}

impl PackageBuilderView {
    /// Where the package `name` is built.
    pub open spec fn build_dir(self, name: Seq<char>) -> Seq<char> {
        path_under(self.build_root, name)
    }

    /// The step that builds the package in `build_dir`.
    pub open spec fn make_step(build_dir: Seq<char>) -> StepView {
        StepView::attempt(CommandView::new("makepkg"@).arg("-sf"@).arg("--noconfirm"@).in_dir(build_dir))
    }

    /// The plan that builds the package: the build directory, the build
    /// description, the build dependencies, the build.
    pub open spec fn build_plan(self, config: PackageConfigView) -> PlanView {
        PlanView::of(
            seq![
                StepView::mkdir(self.build_dir(config.name)),
                pkgbuild_step(self.build_dir(config.name), config),
            ] + install_plan(config.build_dependencies).steps + seq![Self::make_step(self.build_dir(config.name))],
        )
    }

    /// The step that brings the database of the repository up to date.
    pub open spec fn repo_step(self) -> StepView {
        StepView::attempt(
            CommandView::new("repo-add"@).arg(path_under(self.repo_path, "xbitos.db.tar.gz"@)).arg(
                "*.pkg.tar.zst"@,
            ).in_dir(self.repo_path),
        )
    }

    /// The plan that takes the built packages among `files` into the
    /// repository.
    pub open spec fn repo_plan(self, build_dir: Seq<char>, files: Seq<Seq<char>>) -> PlanView {
        PlanView::of(copy_steps(build_dir, self.repo_path, files).push(self.repo_step()))
    }

    /// The plan that fetches the package `name` from the user repository
    /// and builds and installs it.
    pub open spec fn aur_plan(self, name: Seq<char>) -> PlanView {
        PlanView::of(
            seq![
                StepView::attempt(
                    CommandView::new("git"@).arg("clone"@).arg("https://aur.archlinux.org/"@ + name + ".git"@).arg(
                        path_under(self.aur_cache, name),
                    ),
                ),
                StepView::attempt(
                    CommandView::new("makepkg"@).arg("-si"@).arg("--noconfirm"@).in_dir(
                        path_under(self.aur_cache, name),
                    ),
                ),
            ],
        )
    }
}

impl PackageBuilder {
    /// A builder over the directories that the system uses.
    pub fn new() -> (r: Self)
        ensures
            r@.build_root == "/var/lib/xbitos/build"@,
            r@.repo_path == "/var/lib/xbitos/repo"@,
            r@.aur_cache == "/var/cache/xbitos/aur"@,
    {
        PackageBuilder {
            build_root: String::from_str("/var/lib/xbitos/build"),
            repo_path: String::from_str("/var/lib/xbitos/repo"),
            aur_cache: String::from_str("/var/cache/xbitos/aur"),
        }
    }

    /// The plan that builds the package that `config` describes. What the
    /// build leaves in the build directory goes to `add_to_repo`.
    pub fn build_package(&self, config: &PackageConfig) -> (plan: Plan)
        ensures
            plan@ == self@.build_plan(config@),
    {
        let build_dir = join_path(self.build_root.as_str(), config.name.as_str());
        let mut plan = Plan::new(Unwind::Never);
        plan.push(Step::mkdir(build_dir.as_str()));
        plan.push(self.create_pkgbuild(build_dir.as_str(), config));
        let ghost head = plan@.steps;
        plan.extend(self.install_build_deps(config));
        plan.push(Step::attempt(Command::new("makepkg").arg("-sf").arg("--noconfirm").in_dir(build_dir.as_str())));
        proof {
            assert(head =~= seq![
                StepView::mkdir(self@.build_dir(config@.name)),
                pkgbuild_step(self@.build_dir(config@.name), config@),
            ]);
            assert(plan@.steps =~= self@.build_plan(config@).steps);
        }
        plan
    }

    /// The plan that fetches a package from the user repository and builds
    /// and installs it.
    pub fn build_aur_package(&self, package_name: &str) -> (plan: Plan)
        ensures
            plan@ == self@.aur_plan(package_name@),
    {
        let aur_dir = join_path(self.aur_cache.as_str(), package_name);
        let url = chain3("https://aur.archlinux.org/", package_name, ".git");
        let mut plan = Plan::new(Unwind::Never);
        plan.push(Step::attempt(Command::new("git").arg("clone").arg(url.as_str()).arg(aur_dir.as_str())));
        plan.push(Step::attempt(Command::new("makepkg").arg("-si").arg("--noconfirm").in_dir(aur_dir.as_str())));
        proof {
            assert(plan@.steps =~= self@.aur_plan(package_name@).steps);
        }
        plan
    }

    /// The text of the build description of `config`.
    pub fn pkgbuild(config: &PackageConfig) -> (r: String)
        ensures
            r@ == config@.pkgbuild(),
    {
        let mut values: Vec<String> = Vec::new();
        values.push(config.name.clone());
        values.push(config.version.clone());
        values.push(config.release.clone());
        values.push(config.description.clone());
        values.push(join(&config.dependencies, " "));
        values.push(join(&config.build_dependencies, " "));
        values.push(join(&config.source, " "));
        proof {
            assert(views(values@) =~= seq![
                config@.name,
                config@.version,
                config@.release,
                config@.description,
                joined(config@.dependencies, " "@),
                joined(config@.build_dependencies, " "@),
                joined(config@.source, " "@),
            ]);
        }
        interleave(&PKGBUILD_PIECES, &values)
    }

    /// The step that writes the build description into `build_dir`.
    pub fn create_pkgbuild(&self, build_dir: &str, config: &PackageConfig) -> (step: Step)
        ensures
            step@ == pkgbuild_step(build_dir@, config@),
    {
        let file = join_path(build_dir, "PKGBUILD");
        let text = Self::pkgbuild(config);
        Step::write(file.as_str(), text.as_str())
    }

    /// The plan that installs the build dependencies of `config`.
    pub fn install_build_deps(&self, config: &PackageConfig) -> (plan: Plan)
        ensures
            plan@ == install_plan(config@.build_dependencies),
    {
        PackageManager::new().install_list(&config.build_dependencies)
    }

    /// The plan that copies the built packages among `files`, the names of
    /// the files in `build_dir`, into the repository and brings its
    /// database up to date.
    pub fn add_to_repo(&self, build_dir: &str, files: &Vec<String>) -> (plan: Plan)
        ensures
            plan@ == self@.repo_plan(build_dir@, views(files@)),
    {
        let mut plan = Plan::new(Unwind::Never);
        let mut i: usize = 0;
        proof {
            assert(views(files@).take(0) =~= Seq::<Seq<char>>::empty());
        }
        while i < files.len()
            invariant
                i <= files.len(),
                plan@ == PlanView::of(copy_steps(build_dir@, self@.repo_path, views(files@).take(i as int))),
            decreases files.len() - i,
        {
            let name = files[i].as_str();
            proof {
                let all = views(files@);
                assert(all.take(i + 1).drop_last() =~= all.take(i as int));
                assert(all.take(i + 1).last() == name@);
            }
            if ends_with(name, PACKAGE_SUFFIX) {
                let from = join_path(build_dir, name);
                let to = join_path(self.repo_path.as_str(), name);
                plan.push(Step::file(Action::copy_file(from.as_str(), to.as_str())));
            }
            i += 1;
        }
        proof {
            assert(views(files@).take(files.len() as int) =~= views(files@));
        }
        let database = join_path(self.repo_path.as_str(), "xbitos.db.tar.gz");
        plan.push(
            Step::attempt(
                Command::new("repo-add").arg(database.as_str()).arg("*.pkg.tar.zst").in_dir(self.repo_path.as_str()),
            ),
        );
        plan
    }
}

} // verus!
