use project_cleaner::display::{display_rows, project_row, usize_to_string, yes_no_label};
use project_cleaner::project::{Project, ProjectType};

#[test]
fn numbers_in_decimal() {
    assert_eq!(usize_to_string(0), "0");
    assert_eq!(usize_to_string(7), "7");
    assert_eq!(usize_to_string(42), "42");
    assert_eq!(usize_to_string(100), "100");
    assert_eq!(usize_to_string(usize::MAX), usize::MAX.to_string());
}

#[test]
fn flag_labels() {
    assert_eq!(yes_no_label(true), "Yes");
    assert_eq!(yes_no_label(false), "No");
}

#[test]
fn ecosystem_names() {
    assert_eq!(ProjectType::JavaScript.name(), "JavaScript");
    assert_eq!(ProjectType::Rust.name(), "Rust");
    assert_eq!(ProjectType::PHP.name(), "PHP");
    assert_eq!(ProjectType::Unknown.name(), "Unknown");
    assert_eq!(ProjectType::default().name(), "Unknown");
}

#[test]
fn one_row_per_project() {
    let p = Project::new("proj".to_string(), true, ProjectType::JavaScript);
    let row = project_row(3, &p);
    assert_eq!(row, vec!["3", "JavaScript", "Yes", "No", "proj"]);

    let mut q = Project::new("other".to_string(), false, ProjectType::Rust);
    q.cleaned = true;
    let rows = display_rows(&vec![p, q]);
    assert_eq!(rows.len(), 2);
    assert_eq!(rows[0], vec!["0", "JavaScript", "Yes", "No", "proj"]);
    assert_eq!(rows[1], vec!["1", "Rust", "No", "Yes", "other"]);
}
