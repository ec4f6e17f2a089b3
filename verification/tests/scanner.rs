use project_cleaner::cleanup::{clean_action, mark_cleaned, CleanAction};
use project_cleaner::fs_tree::DirEntry;
use project_cleaner::project::{Project, ProjectType};
use project_cleaner::scan::scan_folder;

fn file(name: &str) -> DirEntry {
    DirEntry::File { name: name.to_string() }
}

fn dir(name: &str, entries: Vec<DirEntry>) -> DirEntry {
    DirEntry::Dir { name: name.to_string(), entries }
}

fn scan(path: &str, listing: &Vec<DirEntry>) -> (Vec<Project>, Vec<String>) {
    let mut projects: Vec<Project> = Vec::new();
    let mut warnings: Vec<String> = Vec::new();
    scan_folder(&path.to_string(), listing, &mut projects, &mut warnings);
    (projects, warnings)
}

#[test]
fn js_project_discovered_and_cleaned() {
    let listing = vec![dir(".git", vec![]), file(".gitignore"), dir("node_modules", vec![])];
    let (mut projects, warnings) = scan("proj", &listing);
    assert_eq!(projects.len(), 1);
    assert_eq!(projects[0].path, "proj");
    assert!(projects[0].has_git);
    assert!(matches!(projects[0].language, ProjectType::JavaScript));
    assert!(!projects[0].cleaned);
    assert!(warnings.is_empty());

    let action = clean_action(&projects[0]);
    assert_eq!(action, CleanAction::DeleteDir("proj/node_modules".to_string()));
    mark_cleaned(&mut projects, 0);
    assert!(projects[0].cleaned);
}

#[test]
fn bare_root_warns_and_stops() {
    // The root has the version-control marker but no ignore file and no
    // ecosystem marker; a project deeper down must not be found.
    let listing = vec![
        dir(".git", vec![]),
        dir("sub", vec![dir(".git", vec![]), file(".gitignore"), file("Cargo.toml")]),
    ];
    let (projects, warnings) = scan("proj", &listing);
    assert!(projects.is_empty());
    assert_eq!(warnings, vec!["proj".to_string()]);
}

#[test]
fn no_marker_recurses_into_every_subdirectory() {
    let listing = vec![
        dir("a", vec![dir(".git", vec![]), file(".gitignore"), dir("vendor", vec![])]),
        file("x"),
        dir("b", vec![dir("c", vec![dir(".git", vec![]), dir("node_modules", vec![])])]),
    ];
    let (projects, warnings) = scan("root", &listing);
    assert_eq!(projects.len(), 2);
    assert_eq!(projects[0].path, "root/a");
    assert!(matches!(projects[0].language, ProjectType::PHP));
    assert!(projects[0].has_git);
    assert_eq!(projects[1].path, "root/b/c");
    assert!(matches!(projects[1].language, ProjectType::JavaScript));
    assert!(!projects[1].has_git);
    assert_eq!(warnings, vec!["root/b/c".to_string()]);
}

#[test]
fn one_project_per_marker_at_the_same_path() {
    let listing = vec![
        dir(".git", vec![]),
        file(".gitignore"),
        dir("vendor", vec![]),
        dir("node_modules", vec![]),
        file("Cargo.toml"),
    ];
    let (projects, _) = scan("proj", &listing);
    assert_eq!(projects.len(), 3);
    for p in &projects {
        assert_eq!(p.path, "proj");
        assert!(p.has_git);
        assert!(!p.cleaned);
    }
    assert!(matches!(projects[0].language, ProjectType::PHP));
    assert!(matches!(projects[1].language, ProjectType::JavaScript));
    assert!(matches!(projects[2].language, ProjectType::Rust));
}

#[test]
fn root_with_marker_hides_nested_projects() {
    // vendor itself holds what looks like another project; a root halts the
    // descent, so only the PHP project at the root is reported.
    let listing = vec![
        dir(".git", vec![]),
        file(".gitignore"),
        dir("vendor", vec![dir(".git", vec![]), dir("node_modules", vec![])]),
    ];
    let (projects, warnings) = scan("proj", &listing);
    assert_eq!(projects.len(), 1);
    assert!(matches!(projects[0].language, ProjectType::PHP));
    assert!(warnings.is_empty());
}
