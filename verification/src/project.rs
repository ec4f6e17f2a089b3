//! The record kept for every discovered project root.

use vstd::prelude::*;

verus! {

/// The ecosystem a project was classified into, from the markers found in its
/// directory listing.
#[derive(Debug, Clone, Copy, PartialEq, Eq, Structural)]
pub enum ProjectType {
    JavaScript,
    Rust,
    PHP,
    Unknown,
}

impl Default for ProjectType {
    fn default() -> (r: Self)
        ensures
            r == ProjectType::Unknown,
    {
        ProjectType::Unknown
    }
}

/// The display name of each ecosystem.
pub open spec fn type_name_spec(t: ProjectType) -> Seq<char> {
    match t {
        ProjectType::JavaScript => "JavaScript"@,
        ProjectType::Rust => "Rust"@,
        ProjectType::PHP => "PHP"@,
        ProjectType::Unknown => "Unknown"@,
    }
}

impl ProjectType {
    /// The ecosystem's display name.
    pub fn name(&self) -> (r: &'static str)
        ensures
            r@ == type_name_spec(*self),
    {
        match *self {
            ProjectType::JavaScript => "JavaScript",
            ProjectType::Rust => "Rust",
            ProjectType::PHP => "PHP",
            ProjectType::Unknown => "Unknown",
        }
    }
}

/// The mathematical model of a [`Project`]: its path as a character sequence
/// and its three flags.
pub ghost struct ProjectModel {
    pub path: Seq<char>,
    pub has_git: bool,
    pub language: ProjectType,
    pub cleaned: bool,
}

/// One discovered project root: the directory's path, whether an ignore file
/// accompanied the version-control marker, the classified ecosystem, and
/// whether its artifacts have been cleaned in this run.
#[derive(Debug, Clone)]
pub struct Project {
    pub path: String,
    pub has_git: bool,
    pub language: ProjectType,
    pub cleaned: bool,
}

impl View for Project {
    type V = ProjectModel;

    open spec fn view(&self) -> ProjectModel {
        ProjectModel {
            path: self.path@,
            has_git: self.has_git,
            language: self.language,
            cleaned: self.cleaned,
        }
    }
}

/// The model of a freshly discovered project: never cleaned yet.
pub open spec fn fresh_project(path: Seq<char>, has_git: bool, language: ProjectType) -> ProjectModel {
    ProjectModel { path, has_git, language, cleaned: false }
}

impl Project {
    /// Records a newly discovered project root; a project starts out uncleaned.
    pub fn new(path: String, has_git: bool, language: ProjectType) -> (p: Project)
        ensures
            p@ == fresh_project(path@, has_git, language),
    {
        Project { path, has_git, language, cleaned: false }
    }
}

/// The models of a sequence of projects, element by element.
pub open spec fn views_of(s: Seq<Project>) -> Seq<ProjectModel> {
    s.map_values(|p: Project| p@)
}

/// The character sequences behind a sequence of strings, element by element.
pub open spec fn strs_of(s: Seq<String>) -> Seq<Seq<char>> {
    s.map_values(|t: String| t@)
}

} // verus!
