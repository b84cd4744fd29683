//! The software catalogue: what is known of each package, searching it,
//! and bringing it in line with the list of installed packages that the
//! package manager prints.
use vstd::prelude::*;
use crate::command::{Command, CommandView};
use crate::error::{ErrorView, InstallError};
use crate::plan::{Plan, PlanView, Step, StepView, Unwind};
use crate::text::{contains, has_substring, lemma_views_push, same, views};

verus! {

/// What is known of one package.
#[derive(Debug, PartialEq, Eq)]
pub struct SoftwarePackage {
    pub name: String,
    pub description: String,
    pub version: String,
    pub category: String,
    pub dependencies: Vec<String>,
    pub optional_deps: Vec<String>,
    pub size: u64,
    pub installed: bool,
}

/// A package as plain values.
pub struct PackageView {
    pub name: Seq<char>,
    pub description: Seq<char>,
    pub version: Seq<char>,
    pub category: Seq<char>,
    pub dependencies: Seq<Seq<char>>,
    pub optional_deps: Seq<Seq<char>>,
    pub size: nat,
    pub installed: bool,
}

impl View for SoftwarePackage {
    type V = PackageView;

    open spec fn view(&self) -> PackageView {
        PackageView {
            name: self.name@,
            description: self.description@,
            version: self.version@,
            category: self.category@,
            dependencies: views(self.dependencies@),
            optional_deps: views(self.optional_deps@),
            size: self.size as nat,
            installed: self.installed,
        }
    }
}

impl PackageView {
    /// Whether `query` occurs in the name or in the description.
    pub open spec fn hit(self, query: Seq<char>) -> bool {
        has_substring(self.name, query) || has_substring(self.description, query)
    }

    /// The package as installed in `version`.
    pub open spec fn installed_as(self, version: Seq<char>) -> PackageView {
        PackageView { installed: true, version, ..self }
    }
}

/// The characters that separate the words of a line.
pub open spec fn is_space(c: char) -> bool {
    c == ' ' || c == '\t' || c == '\n' || c == '\r' || c == '\x0b' || c == '\x0c'
}

/// The first position at or after `from` whose character is a space, if
/// `spaces` is false, or is none, if `spaces` is true; the length of the
/// text where there is no such position.
pub open spec fn skip(text: Seq<char>, from: int, spaces: bool) -> int
    decreases text.len() - from,
{
    if from < 0 || from >= text.len() {
        text.len() as int
    } else if is_space(text[from]) != spaces {
        from
    } else {
        skip(text, from + 1, spaces)
    }
}

/// The first position at or after `from` that holds a line break; the
/// length of the text where there is none.
pub open spec fn line_end(text: Seq<char>, from: int) -> int
    decreases text.len() - from,
{
    if from < 0 || from >= text.len() {
        text.len() as int
    } else if text[from] == '\n' {
        from
    } else {
        line_end(text, from + 1)
    }
}

/// The first two words of a line: a package name and its version. A line
/// with fewer than two words says nothing.
pub open spec fn entry(line: Seq<char>) -> Option<(Seq<char>, Seq<char>)> {
    let a = skip(line, 0, true);
    let b = skip(line, a, false);
    let c = skip(line, b, true);
    let d = skip(line, c, false);
    if a < b && c < d {
        Some((line.subrange(a, b), line.subrange(c, d)))
    } else {
        None
    }
}

/// The entries of the lines of `text` from position `from` on, in order.
pub open spec fn entries(text: Seq<char>, from: int) -> Seq<(Seq<char>, Seq<char>)>
    decreases text.len() - from,
{
    if from < 0 || from >= text.len() {
        Seq::empty()
    } else {
        let end = line_end(text, from);
        let rest = if from <= end < text.len() {
            entries(text, end + 1)
        } else {
            Seq::empty()
        };
        match entry(text.subrange(from, end)) {
            Some(found) => seq![found] + rest,
            None => rest,
        }
    }
}

/// The packages with every package named `name` marked as installed in
/// `version`.
pub open spec fn marked(packages: Seq<PackageView>, name: Seq<char>, version: Seq<char>) -> Seq<PackageView> {
    Seq::new(
        packages.len(),
        |i: int|
            if packages[i].name == name {
                packages[i].installed_as(version)
            } else {
                packages[i]
            },
    )
}

/// The packages after each of `found` has been marked, in order.
pub open spec fn synced(packages: Seq<PackageView>, found: Seq<(Seq<char>, Seq<char>)>) -> Seq<PackageView>
    decreases found.len(),
{
    if found.len() == 0 {
        packages
    } else {
        synced(marked(packages, found[0].0, found[0].1), found.drop_first())
    }
}

/// The packages that `query` hits, in the order of the catalogue.
pub open spec fn matching(packages: Seq<PackageView>, query: Seq<char>) -> Seq<PackageView>
    decreases packages.len(),
{
    if packages.len() == 0 {
        Seq::empty()
    } else if packages.last().hit(query) {
        matching(packages.drop_last(), query).push(packages.last())
    } else {
        matching(packages.drop_last(), query)
    }
}

/// The position of the first package named `name` at or after `from`; the
/// number of packages where there is none.
pub open spec fn position(packages: Seq<PackageView>, name: Seq<char>, from: int) -> int
    decreases packages.len() - from,
{
    if from < 0 || from >= packages.len() {
        packages.len() as int
    } else if packages[from].name == name {
        from
    } else {
        position(packages, name, from + 1)
    }
}

/// The catalogue as plain values.
pub struct CatalogueView {
    pub db_path: Seq<char>,
    pub cache_path: Seq<char>,
    pub packages: Seq<PackageView>,
}

impl CatalogueView {
    /// Whether the catalogue holds a package named `name`.
    pub open spec fn knows(self, name: Seq<char>) -> bool {
        position(self.packages, name, 0) < self.packages.len()
    }

    /// The steps that create the directories of the catalogue.
    pub open spec fn directory_steps(self) -> Seq<StepView> {
        seq![StepView::mkdir(self.db_path), StepView::mkdir(self.cache_path)]
    }
}

/// The step that has the package manager print the installed packages, one
/// name and version to a line.
pub open spec fn list_step() -> StepView {
    StepView::attempt(CommandView::new("pacman"@).arg("-Q"@))
}

/// The steps that refresh the repositories and list what is installed.
pub open spec fn update_steps() -> Seq<StepView> {
    seq![StepView::attempt(CommandView::new("pacman"@).arg("-Sy"@)), list_step()]
}

/// The steps that install `name` and list what is installed.
pub open spec fn install_steps(name: Seq<char>) -> Seq<StepView> {
    seq![
        StepView::attempt(CommandView::new("pacman"@).arg("-S"@).arg("--noconfirm"@).arg(name)),
        list_step(),
    ]
}

/// The steps that remove `name` and list what is installed.
pub open spec fn remove_steps(name: Seq<char>) -> Seq<StepView> {
    seq![
        StepView::attempt(CommandView::new("pacman"@).arg("-R"@).arg("--noconfirm"@).arg(name)),
        list_step(),
    ]
}

/// The catalogue of packages.
#[derive(Debug)]
pub struct SoftwareCenter {
    db_path: String,
    cache_path: String,
    packages: Vec<SoftwarePackage>,
}

impl View for SoftwareCenter {
    type V = CatalogueView;

    closed spec fn view(&self) -> CatalogueView {
        CatalogueView { db_path: self.db_path@, cache_path: self.cache_path@, packages: views(self.packages@) }
    }
}

fn is_space_char(c: char) -> (r: bool)
    ensures
        r == is_space(c),
{
    c == ' ' || c == '\t' || c == '\n' || c == '\r' || c == '\x0b' || c == '\x0c'
}

fn skip_in(line: &str, len: usize, from: usize, spaces: bool) -> (r: usize)
    requires
        len == line@.len(),
        from <= len,
    ensures
        r == skip(line@, from as int, spaces),
        from <= r <= len,
{
    let mut i: usize = from;
    while i < len
        invariant
            len == line@.len(),
            from <= i <= len,
            skip(line@, i as int, spaces) == skip(line@, from as int, spaces),
        decreases len - i,
    {
        if is_space_char(line.get_char(i)) != spaces {
            return i;
        }
        i += 1;
    }
    i
}

fn line_end_in(text: &str, len: usize, from: usize) -> (r: usize)
    requires
        len == text@.len(),
        from <= len,
    ensures
        r == line_end(text@, from as int),
        from <= r <= len,
{
    let mut i: usize = from;
    while i < len
        invariant
            len == text@.len(),
            from <= i <= len,
            line_end(text@, i as int) == line_end(text@, from as int),
        decreases len - i,
    {
        if text.get_char(i) == '\n' {
            return i;
        }
        i += 1;
    }
    i
}

/// Reads the first two words of a line.
pub fn parse_entry(line: &str) -> (r: Option<(String, String)>)
    ensures
        match r {
            Some(found) => entry(line@) == Some((found.0@, found.1@)),
            None => entry(line@) is None,
        },
{
    let len = line.unicode_len();
    let a = skip_in(line, len, 0, true);
    let b = skip_in(line, len, a, false);
    let c = skip_in(line, len, b, true);
    let d = skip_in(line, len, c, false);
    if a < b && c < d {
        let name = String::from_str(line.substring_char(a, b));
        let version = String::from_str(line.substring_char(c, d));
        Some((name, version))
    } else {
        None
    }
}

impl SoftwareCenter {
    /// An empty catalogue over the directories that the system uses.
    pub fn new() -> (r: Self)
        ensures
            r@.db_path == "/var/lib/xbitos/software"@,
            r@.cache_path == "/var/cache/xbitos/packages"@,
            r@.packages.len() == 0,
    {
        SoftwareCenter {
            db_path: String::from_str("/var/lib/xbitos/software"),
            cache_path: String::from_str("/var/cache/xbitos/packages"),
            packages: Vec::new(),
        }
    }

    /// The packages of the catalogue, in its order.
    pub fn packages(&self) -> (r: &Vec<SoftwarePackage>)
        ensures
            views(r@) == self@.packages,
    {
        &self.packages
    }

    /// The plan that creates the directories of the catalogue and
    /// refreshes it.
    pub fn initialize(&self) -> (plan: Plan)
        ensures
            plan@ == PlanView::of(self@.directory_steps() + update_steps()),
    {
        let mut plan = Plan::new(Unwind::Never);
        plan.push(Step::mkdir(self.db_path.as_str()));
        plan.push(Step::mkdir(self.cache_path.as_str()));
        proof {
            assert(plan@.steps =~= self@.directory_steps());
        }
        plan.extend(self.update_database());
        plan
    }

    /// The plan that refreshes the repositories and lists what is
    /// installed. The list goes to `sync_local_database`.
    pub fn update_database(&self) -> (plan: Plan)
        ensures
            plan@ == PlanView::of(update_steps()),
    {
        let mut plan = Plan::new(Unwind::Never);
        plan.push(Step::attempt(Command::new("pacman").arg("-Sy")));
        plan.push(Step::attempt(Command::new("pacman").arg("-Q")));
        proof {
            assert(plan@.steps =~= update_steps());
        }
        plan
    }

    fn find(&self, name: &str) -> (r: usize)
        ensures
            r == position(self@.packages, name@, 0),
            r <= self@.packages.len(),
            r < self@.packages.len() ==> self@.packages[r as int].name == name@,
    {
        let mut i: usize = 0;
        while i < self.packages.len()
            invariant
                i <= self.packages.len(),
                position(self@.packages, name@, i as int) == position(self@.packages, name@, 0),
            decreases self.packages.len() - i,
        {
            if same(self.packages[i].name.as_str(), name) {
                return i;
            }
            i += 1;
        }
        i
    }

    /// The plan that installs the package `package_name` and lists what is
    /// installed. A package that the catalogue does not hold is refused
    /// with `PackageNotFound`.
    pub fn install_package(&self, package_name: &str) -> (r: Result<Plan, InstallError>)
        ensures
            match r {
                Ok(plan) => self@.knows(package_name@) && plan@ == PlanView::of(install_steps(package_name@)),
                Err(error) => !self@.knows(package_name@) && error@ == (ErrorView::PackageNotFound {
                    name: package_name@,
                }),
            },
    {
        if self.find(package_name) >= self.packages.len() {
            return Err(InstallError::PackageNotFound { name: String::from_str(package_name) });
        }
        let mut plan = Plan::new(Unwind::Never);
        plan.push(Step::attempt(Command::new("pacman").arg("-S").arg("--noconfirm").arg(package_name)));
        plan.push(Step::attempt(Command::new("pacman").arg("-Q")));
        proof {
            assert(plan@.steps =~= install_steps(package_name@));
        }
        Ok(plan)
    }

    /// The plan that removes the package `package_name` and lists what is
    /// installed.
    pub fn remove_package(&self, package_name: &str) -> (plan: Plan)
        ensures
            plan@ == PlanView::of(remove_steps(package_name@)),
    {
        let mut plan = Plan::new(Unwind::Never);
        plan.push(Step::attempt(Command::new("pacman").arg("-R").arg("--noconfirm").arg(package_name)));
        plan.push(Step::attempt(Command::new("pacman").arg("-Q")));
        proof {
            assert(plan@.steps =~= remove_steps(package_name@));
        }
        plan
    }

    /// The packages whose name or description holds `query`, in the order
    /// of the catalogue.
    pub fn search_packages(&self, query: &str) -> (r: Vec<&SoftwarePackage>)
        ensures
            views(r@) == matching(self@.packages, query@),
    {
        let mut found: Vec<&SoftwarePackage> = Vec::new();
        let mut i: usize = 0;
        proof {
            assert(self@.packages.take(0) =~= Seq::<PackageView>::empty());
            assert(views(found@) =~= Seq::<PackageView>::empty());
        }
        while i < self.packages.len()
            invariant
                i <= self.packages.len(),
                views(found@) == matching(self@.packages.take(i as int), query@),
            decreases self.packages.len() - i,
        {
            let package = &self.packages[i];
            proof {
                let all = self@.packages;
                assert(all.take(i + 1).drop_last() =~= all.take(i as int));
                assert(all.take(i + 1).last() == package@);
            }
            if contains(package.name.as_str(), query) || contains(package.description.as_str(), query) {
                let ghost before = found@;
                found.push(package);
                proof {
                    lemma_views_push(before, package);
                }
            }
            i += 1;
        }
        proof {
            assert(self@.packages.take(self.packages.len() as int) =~= self@.packages);
        }
        found
    }

    /// The first package named `package_name`, if the catalogue holds one.
    pub fn get_package_info(&self, package_name: &str) -> (r: Option<&SoftwarePackage>)
        ensures
            match r {
                Some(package) => self@.knows(package_name@) && package@ == self@.packages[position(
                    self@.packages,
                    package_name@,
                    0,
                )],
                None => !self@.knows(package_name@),
            },
    {
        let at = self.find(package_name);
        if at < self.packages.len() {
            Some(&self.packages[at])
        } else {
            None
        }
    }

    /// Puts `package` into the catalogue: in the place of the first package
    /// of its name, or at the end where there is none.
    pub fn add_package(&mut self, package: SoftwarePackage)
        ensures
            final(self)@.db_path == old(self)@.db_path,
            final(self)@.cache_path == old(self)@.cache_path,
            old(self)@.knows(package@.name) ==> final(self)@.packages == old(self)@.packages.update(
                position(old(self)@.packages, package@.name, 0),
                package@,
            ),
            !old(self)@.knows(package@.name) ==> final(self)@.packages == old(self)@.packages.push(package@),
    {
        let at = self.find(package.name.as_str());
        let ghost before = self.packages@;
        if at < self.packages.len() {
            let _ = self.packages.remove(at);
            self.packages.insert(at, package);
            proof {
                assert(views(self.packages@) =~= views(before).update(at as int, package@));
            }
        } else {
            self.packages.push(package);
            proof {
                lemma_views_push(before, package);
            }
        }
    }

    fn mark(&mut self, name: &str, version: &str)
        ensures
            final(self)@.db_path == old(self)@.db_path,
            final(self)@.cache_path == old(self)@.cache_path,
            final(self)@.packages == marked(old(self)@.packages, name@, version@),
    {
        let n = self.packages.len();
        let mut i: usize = 0;
        while i < n
            invariant
                i <= n,
                n == self.packages@.len(),
                self@.db_path == old(self)@.db_path,
                self@.cache_path == old(self)@.cache_path,
                self@.packages.len() == old(self)@.packages.len(),
                forall|k: int| 0 <= k < i ==> self@.packages[k] == marked(old(self)@.packages, name@, version@)[k],
                forall|k: int| i <= k < n ==> self@.packages[k] == old(self)@.packages[k],
            decreases n - i,
        {
            if same(self.packages[i].name.as_str(), name) {
                let ghost before = self.packages@;
                let mut package = self.packages.remove(i);
                package.installed = true;
                package.version = String::from_str(version);
                self.packages.insert(i, package);
                proof {
                    assert(views(self.packages@) =~= views(before).update(
                        i as int,
                        views(before)[i as int].installed_as(version@),
                    ));
                }
            }
            i += 1;
        }
        proof {
            assert(self@.packages =~= marked(old(self)@.packages, name@, version@));
        }
    }

    /// Brings the catalogue in line with `listing`, the list of installed
    /// packages as the package manager prints it: each line that holds at
    /// least two words names a package and its version, and every package
    /// of that name in the catalogue is marked as installed in that
    /// version. Nothing else changes.
    pub fn sync_local_database(&mut self, listing: &str)
        ensures
            final(self)@.db_path == old(self)@.db_path,
            final(self)@.cache_path == old(self)@.cache_path,
            final(self)@.packages == synced(old(self)@.packages, entries(listing@, 0)),
    {
        let len = listing.unicode_len();
        let mut from: usize = 0;
        while from < len
            invariant
                len == listing@.len(),
                from <= len,
                self@.db_path == old(self)@.db_path,
                self@.cache_path == old(self)@.cache_path,
                synced(self@.packages, entries(listing@, from as int)) == synced(
                    old(self)@.packages,
                    entries(listing@, 0),
                ),
            decreases len - from,
        {
            let end = line_end_in(listing, len, from);
            let line = listing.substring_char(from, end);
            let ghost rest = entries(listing@, if end < len {
                end + 1
            } else {
                len as int
            });
            match parse_entry(line) {
                Some(found) => {
                    proof {
                        let head = (found.0@, found.1@);
                        assert((seq![head] + rest)[0] == head);
                        assert((seq![head] + rest).drop_first() =~= rest);
                    }
                    self.mark(found.0.as_str(), found.1.as_str());
                },
                None => {},
            }
            if end < len {
                from = end + 1;
            } else {
                from = len;
            }
        }
    }
}

} // verus!
