use project_cleaner::cleanup::{clean_action, mark_cleaned, plan_batch, CleanAction, CleanStep};
use project_cleaner::input::{interpret_input, UserInput};
use project_cleaner::project::{Project, ProjectType};

#[test]
fn cancel_in_any_spelling() {
    assert_eq!(interpret_input("c"), UserInput::Cancel);
    assert_eq!(interpret_input("C\n"), UserInput::Cancel);
    assert_eq!(interpret_input("  c  "), UserInput::Cancel);
}

#[test]
fn all_in_any_spelling() {
    assert_eq!(interpret_input("a"), UserInput::All);
    assert_eq!(interpret_input("A\r\n"), UserInput::All);
    assert_eq!(interpret_input("\ta "), UserInput::All);
}

#[test]
fn index_lists_are_parsed() {
    assert_eq!(interpret_input("0,5\n"), UserInput::SelectedProjects(vec![0, 5]));
    assert_eq!(interpret_input("1, 2"), UserInput::SelectedProjects(vec![1, 2]));
    assert_eq!(interpret_input("7"), UserInput::SelectedProjects(vec![7]));
    assert_eq!(interpret_input(""), UserInput::SelectedProjects(vec![]));
}

#[test]
fn bad_lines_are_invalid() {
    assert_eq!(interpret_input("x"), UserInput::Invalid);
    assert_eq!(interpret_input("1;2"), UserInput::Invalid);
    assert_eq!(interpret_input("-1"), UserInput::Invalid);
    assert_eq!(interpret_input("1.5"), UserInput::Invalid);
    assert_eq!(interpret_input("1,,2"), UserInput::Invalid);
    assert_eq!(interpret_input("1,2,"), UserInput::Invalid);
}

fn three_projects() -> Vec<Project> {
    vec![
        Project::new("p0".to_string(), true, ProjectType::PHP),
        Project::new("p1".to_string(), true, ProjectType::JavaScript),
        Project::new("p2".to_string(), false, ProjectType::Rust),
    ]
}

#[test]
fn all_plans_every_project_in_order() {
    let mut projects = three_projects();
    let plan = plan_batch(&interpret_input("a"), projects.len());
    assert_eq!(plan, vec![CleanStep::Clean(0), CleanStep::Clean(1), CleanStep::Clean(2)]);
    for step in &plan {
        if let CleanStep::Clean(i) = step {
            mark_cleaned(&mut projects, *i);
        }
    }
    assert!(projects.iter().all(|p| p.cleaned));
}

#[test]
fn out_of_range_index_is_reported_not_fatal() {
    let mut projects = three_projects();
    let plan = plan_batch(&interpret_input("0,5"), projects.len());
    assert_eq!(plan, vec![CleanStep::Clean(0), CleanStep::InvalidIndex(5)]);
    for step in &plan {
        if let CleanStep::Clean(i) = step {
            mark_cleaned(&mut projects, *i);
        }
    }
    assert!(projects[0].cleaned);
    assert!(!projects[1].cleaned);
    assert!(!projects[2].cleaned);
}

#[test]
fn cancel_and_invalid_plan_nothing() {
    assert!(plan_batch(&UserInput::Cancel, 4).is_empty());
    assert!(plan_batch(&UserInput::Invalid, 4).is_empty());
}

#[test]
fn actions_per_ecosystem() {
    let php = Project::new("p".to_string(), true, ProjectType::PHP);
    let js = Project::new("p".to_string(), true, ProjectType::JavaScript);
    let rust = Project::new("p".to_string(), true, ProjectType::Rust);
    let unknown = Project::new("p".to_string(), true, ProjectType::Unknown);
    assert_eq!(clean_action(&php), CleanAction::DeleteDir("p/vendor".to_string()));
    assert_eq!(clean_action(&js), CleanAction::DeleteDir("p/node_modules".to_string()));
    assert_eq!(clean_action(&rust), CleanAction::CargoClean("p".to_string()));
    assert_eq!(clean_action(&unknown), CleanAction::NoCleaner);
}
