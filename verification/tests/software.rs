use xbitos::error::InstallError;
use xbitos::plan::Plan;
use xbitos::system::software::{parse_entry, SoftwareCenter, SoftwarePackage};

fn package(name: &str, description: &str) -> SoftwarePackage {
    SoftwarePackage {
        name: name.to_string(),
        description: description.to_string(),
        version: "0".to_string(),
        category: "tools".to_string(),
        dependencies: vec![],
        optional_deps: vec![],
        size: 1,
        installed: false,
    }
}

fn catalogue() -> SoftwareCenter {
    let mut center = SoftwareCenter::new();
    center.add_package(package("firefox", "web browser"));
    center.add_package(package("vim", "text editor"));
    center.add_package(package("gvim", "text editor with a window"));
    center.add_package(package("fox-tools", "tools for the browser"));
    center
}

fn lines(plan: &Plan) -> Vec<String> {
    plan.steps.iter().map(|step| step.action.describe()).collect()
}

fn names(found: &[&SoftwarePackage]) -> Vec<String> {
    found.iter().map(|package| package.name.clone()).collect()
}

#[test]
fn catalogue_starts_empty() {
    let center = SoftwareCenter::new();
    assert!(center.packages().is_empty());
    assert!(center.search_packages("").is_empty());
    assert!(center.get_package_info("vim").is_none());
    assert_eq!(
        lines(&center.initialize()),
        vec!["mkdir /var/lib/xbitos/software", "mkdir /var/cache/xbitos/packages", "pacman -Sy", "pacman -Q"]
    );
}

#[test]
fn packages_are_found_by_name_or_description() {
    let center = catalogue();
    assert_eq!(names(&center.search_packages("fox")), vec!["firefox", "fox-tools"]);
    assert_eq!(names(&center.search_packages("editor")), vec!["vim", "gvim"]);
    assert_eq!(names(&center.search_packages("browser")), vec!["firefox", "fox-tools"]);
    assert_eq!(names(&center.search_packages("vim")), vec!["vim", "gvim"]);
    assert_eq!(names(&center.search_packages("")).len(), 4);
    assert!(center.search_packages("emacs").is_empty());
    assert_eq!(center.get_package_info("gvim").unwrap().description, "text editor with a window");
    assert!(center.get_package_info("gvi").is_none());
}

#[test]
fn a_package_of_the_same_name_takes_the_place_of_the_old_one() {
    let mut center = catalogue();
    center.add_package(package("vim", "the editor"));
    let all: Vec<String> = center.packages().iter().map(|p| p.name.clone()).collect();
    assert_eq!(all, vec!["firefox", "vim", "gvim", "fox-tools"]);
    assert_eq!(center.get_package_info("vim").unwrap().description, "the editor");
}

#[test]
fn only_known_packages_are_installed() {
    let center = catalogue();
    assert_eq!(
        center.install_package("emacs"),
        Err(InstallError::PackageNotFound { name: "emacs".to_string() })
    );
    assert_eq!(
        lines(&center.install_package("vim").unwrap()),
        vec!["pacman -S --noconfirm vim", "pacman -Q"]
    );
    assert_eq!(lines(&center.remove_package("emacs")), vec!["pacman -R --noconfirm emacs", "pacman -Q"]);
    assert_eq!(lines(&center.update_database()), vec!["pacman -Sy", "pacman -Q"]);
}

#[test]
fn lines_of_the_listing_are_read_word_by_word() {
    assert_eq!(parse_entry("vim 9.1.0-1"), Some(("vim".to_string(), "9.1.0-1".to_string())));
    assert_eq!(parse_entry("  vim \t 9.1  extra words\r"), Some(("vim".to_string(), "9.1".to_string())));
    assert_eq!(parse_entry("vim"), None);
    assert_eq!(parse_entry("vim   "), None);
    assert_eq!(parse_entry(""), None);
    assert_eq!(parse_entry(" \t "), None);
}

#[test]
fn catalogue_follows_the_listing() {
    let mut center = catalogue();
    center.sync_local_database("firefox 126.0-1\nnot-in-catalogue 1.0\n\nvim\ngvim 9.1 again\r\nfox-tools");
    let state: Vec<(String, String, bool)> = center
        .packages()
        .iter()
        .map(|p| (p.name.clone(), p.version.clone(), p.installed))
        .collect();
    assert_eq!(
        state,
        vec![
            ("firefox".to_string(), "126.0-1".to_string(), true),
            ("vim".to_string(), "0".to_string(), false),
            ("gvim".to_string(), "9.1".to_string(), true),
            ("fox-tools".to_string(), "0".to_string(), false),
        ]
    );
    // a later line for the same package wins
    center.sync_local_database("vim 1\nvim 2\n");
    assert_eq!(center.get_package_info("vim").unwrap().version, "2");
    assert!(center.get_package_info("vim").unwrap().installed);
    // an empty listing changes nothing
    center.sync_local_database("");
    assert_eq!(center.get_package_info("firefox").unwrap().version, "126.0-1");
    // words on two lines are not put together
    let mut other = catalogue();
    other.sync_local_database("vim\n9.1\n");
    assert!(!other.get_package_info("vim").unwrap().installed);
}
