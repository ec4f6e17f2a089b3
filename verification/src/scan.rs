//! The classifier and the scanner.
//!
//! A directory is a project root when its immediate listing holds the
//! version-control marker `.git`. A root is classified once, from its listing
//! alone: each ecosystem marker present (`vendor`, `node_modules`, the Rust
//! manifest) yields one project record for the same path. The scanner walks
//! the tree depth first, stops at every root, and otherwise descends into
//! every subdirectory.

use vstd::prelude::*;

use crate::fs_tree::{has_name, contains_name, DirEntry};
use crate::project::{fresh_project, views_of, strs_of, Project, ProjectModel, ProjectType};
use vstd::string::StringExecFns;

verus! {

/// The version-control marker that makes a directory a project root.
pub open spec fn git_name() -> Seq<char> {
    ".git"@
}

/// The ignore file expected beside the version-control marker.
pub open spec fn ignore_name() -> Seq<char> {
    ".gitignore"@
}

/// The dependency-vendor directory that marks a PHP project.
pub open spec fn php_marker() -> Seq<char> {
    "vendor"@
}

/// The package-cache directory that marks a JavaScript project.
pub open spec fn js_marker() -> Seq<char> {
    "node_modules"@
}

/// The manifest file that marks a Rust project.
pub open spec fn rust_marker() -> Seq<char> {
    "Cargo.toml"@
}

/// The path of a directory entry, under the path of the directory holding it.
pub open spec fn child_path(parent: Seq<char>, name: Seq<char>) -> Seq<char> {
    parent + "/"@ + name
}

/// What a scan yields: the discovered projects and the paths of roots that
/// lack the ignore file, each in discovery order.
pub ghost struct ScanResult {
    pub projects: Seq<ProjectModel>,
    pub warnings: Seq<Seq<char>>,
}

/// A scan that found nothing.
pub open spec fn empty_result() -> ScanResult {
    ScanResult { projects: Seq::empty(), warnings: Seq::empty() }
}

/// Two scan results, one after the other.
pub open spec fn cat(a: ScanResult, b: ScanResult) -> ScanResult {
    ScanResult { projects: a.projects + b.projects, warnings: a.warnings + b.warnings }
}

/// The projects a directory listing yields: none without the version-control
/// marker; with it, one per ecosystem marker present, in the order PHP,
/// JavaScript, Rust, each carrying the same path and the same ignore-file flag.
pub open spec fn classify_projects(path: Seq<char>, listing: Seq<DirEntry>) -> Seq<ProjectModel> {
    if !has_name(listing, git_name()) {
        Seq::empty()
    } else {
        let hg = has_name(listing, ignore_name());
        (if has_name(listing, php_marker()) {
            seq![fresh_project(path, hg, ProjectType::PHP)]
        } else {
            Seq::empty()
        }) + (if has_name(listing, js_marker()) {
            seq![fresh_project(path, hg, ProjectType::JavaScript)]
        } else {
            Seq::empty()
        }) + (if has_name(listing, rust_marker()) {
            seq![fresh_project(path, hg, ProjectType::Rust)]
        } else {
            Seq::empty()
        })
    }
}

/// The warning a directory listing yields: its path, exactly when it is a
/// project root whose listing lacks the ignore file.
pub open spec fn classify_warnings(path: Seq<char>, listing: Seq<DirEntry>) -> Seq<Seq<char>> {
    if has_name(listing, git_name()) && !has_name(listing, ignore_name()) {
        seq![path]
    } else {
        Seq::empty()
    }
}

/// What scanning a directory with the given listing yields: at a project root,
/// the classification of the listing itself and nothing from below; elsewhere,
/// whatever the subdirectories yield, in listing order.
pub open spec fn scan_spec(path: Seq<char>, listing: Seq<DirEntry>) -> ScanResult
    decreases listing, 1int, 0int,
{
    if has_name(listing, git_name()) {
        ScanResult {
            projects: classify_projects(path, listing),
            warnings: classify_warnings(path, listing),
        }
    } else {
        scan_children_spec(path, listing, 0)
    }
}

/// What the entries of a listing from position `i` on yield.
pub open spec fn scan_children_spec(path: Seq<char>, listing: Seq<DirEntry>, i: int) -> ScanResult
    decreases listing, 0int, listing.len() - i,
{
    if i < 0 || i >= listing.len() {
        empty_result()
    } else {
        cat(scan_child_spec(path, listing[i]), scan_children_spec(path, listing, i + 1))
    }
}

/// What one entry yields: nothing for a plain file, a full scan for a
/// subdirectory.
pub open spec fn scan_child_spec(path: Seq<char>, e: DirEntry) -> ScanResult
    decreases e, 2int, 0int,
{
    match e {
        DirEntry::File { .. } => empty_result(),
        DirEntry::Dir { name, entries } => scan_spec(child_path(path, name@), entries@),
    }
}

/// What the classifier decided for one directory listing.
pub struct Classification {
    /// The listing holds the version-control marker.
    pub is_project_root: bool,
    /// The listing holds the version-control marker but not the ignore file.
    pub missing_ignore: bool,
    /// The projects the listing yields.
    pub projects: Vec<Project>,
}

/// Classifies one directory from its immediate listing alone.
pub fn classify(path: &String, listing: &Vec<DirEntry>) -> (c: Classification)
    ensures
        c.is_project_root == has_name(listing@, git_name()),
        c.missing_ignore == (has_name(listing@, git_name()) && !has_name(listing@, ignore_name())),
        views_of(c.projects@) == classify_projects(path@, listing@),
{
    let is_root = contains_name(listing, ".git");
    let mut projects: Vec<Project> = Vec::new();
    let mut missing_ignore = false;
    if is_root {
        let hg = contains_name(listing, ".gitignore");
        missing_ignore = !hg;
        if contains_name(listing, "vendor") {
            projects.push(Project::new(path.clone(), hg, ProjectType::PHP));
        }
        if contains_name(listing, "node_modules") {
            projects.push(Project::new(path.clone(), hg, ProjectType::JavaScript));
        }
        if contains_name(listing, "Cargo.toml") {
            projects.push(Project::new(path.clone(), hg, ProjectType::Rust));
        }
    }
    proof {
        assert(views_of(projects@) =~= classify_projects(path@, listing@));
    }
    Classification { is_project_root: is_root, missing_ignore, projects }
}

/// The path of a directory entry, built from the path of the directory
/// holding it.
pub fn join_path(parent: &String, name: &String) -> (r: String)
    ensures
        r@ == child_path(parent@, name@),
{
    let mut r = parent.clone();
    r.append("/");
    r.append(name.as_str());
    r
}

/// Scans the directory at `path` whose immediate listing is `listing`,
/// appending every discovered project and every warning path to the two
/// accumulators.
pub fn scan_folder(
    path: &String,
    listing: &Vec<DirEntry>,
    projects: &mut Vec<Project>,
    warnings: &mut Vec<String>,
)
    ensures
        views_of(final(projects)@) == views_of(old(projects)@) + scan_spec(
            path@,
            listing@,
        ).projects,
        strs_of(final(warnings)@) == strs_of(old(warnings)@) + scan_spec(
            path@,
            listing@,
        ).warnings,
    decreases listing@,
{
    let c = classify(path, listing);
    if c.is_project_root {
        if c.missing_ignore {
            warnings.push(path.clone());
        }
        let mut found = c.projects;
        projects.append(&mut found);
        proof {
            assert(views_of(final(projects)@) =~= views_of(old(projects)@) + scan_spec(
                path@,
                listing@,
            ).projects);
            assert(strs_of(final(warnings)@) =~= strs_of(old(warnings)@) + scan_spec(
                path@,
                listing@,
            ).warnings);
        }
    } else {
        let ghost all = scan_children_spec(path@, listing@, 0);
        let mut i: usize = 0;
        while i < listing.len()
            invariant
                i <= listing@.len(),
                !has_name(listing@, git_name()),
                all == scan_children_spec(path@, listing@, 0),
                views_of(projects@) + scan_children_spec(path@, listing@, i as int).projects
                    =~= views_of(old(projects)@) + all.projects,
                strs_of(warnings@) + scan_children_spec(path@, listing@, i as int).warnings
                    =~= strs_of(old(warnings)@) + all.warnings,
            decreases listing@.len() - i,
        {
            let ghost rest = scan_children_spec(path@, listing@, i + 1);
            let ghost here = scan_child_spec(path@, listing@[i as int]);
            match &listing[i] {
                DirEntry::File { .. } => {
                    proof {
                        assert(here == empty_result());
                        assert(views_of(projects@) + rest.projects =~= views_of(old(projects)@)
                            + all.projects);
                        assert(strs_of(warnings@) + rest.warnings =~= strs_of(old(warnings)@)
                            + all.warnings);
                    }
                }
                DirEntry::Dir { name, entries } => {
                    let ghost before_p = views_of(projects@);
                    let ghost before_w = strs_of(warnings@);
                    let cp = join_path(path, name);
                    scan_folder(&cp, entries, projects, warnings);
                    proof {
                        assert(here == scan_spec(child_path(path@, name@), entries@));
                        assert(views_of(projects@) =~= before_p + here.projects);
                        assert(strs_of(warnings@) =~= before_w + here.warnings);
                        assert(views_of(projects@) + rest.projects =~= views_of(old(projects)@)
                            + all.projects);
                        assert(strs_of(warnings@) + rest.warnings =~= strs_of(old(warnings)@)
                            + all.warnings);
                    }
                }
            }
            i += 1;
        }
        proof {
            assert(scan_children_spec(path@, listing@, listing@.len() as int) == empty_result());
            assert(views_of(final(projects)@) =~= views_of(old(projects)@) + scan_spec(
                path@,
                listing@,
            ).projects);
            assert(strs_of(final(warnings)@) =~= strs_of(old(warnings)@) + scan_spec(
                path@,
                listing@,
            ).warnings);
        }
    }
}

/// Every project a scan discovers lies at the scanned path or below it: its
/// path is never shorter than the scanned one.
pub proof fn lemma_scan_paths(path: Seq<char>, listing: Seq<DirEntry>)
    ensures
        forall|j: int|
            0 <= j < scan_spec(path, listing).projects.len() ==> (#[trigger] scan_spec(
                path,
                listing,
            ).projects[j]).path.len() >= path.len(),
    decreases listing, 1int, 0int,
{
    if !has_name(listing, git_name()) {
        lemma_children_paths(path, listing, 0);
    }
}

/// Every project the subdirectories of a listing yield lies strictly below
/// the listing's own path.
pub proof fn lemma_children_paths(path: Seq<char>, listing: Seq<DirEntry>, i: int)
    ensures
        forall|j: int|
            0 <= j < scan_children_spec(path, listing, i).projects.len() ==> (
            #[trigger] scan_children_spec(path, listing, i).projects[j]).path.len() > path.len(),
    decreases listing, 0int, listing.len() - i,
{
    if 0 <= i < listing.len() {
        lemma_child_paths(path, listing[i]);
        lemma_children_paths(path, listing, i + 1);
    }
}

/// Every project one entry yields lies strictly below the path of the
/// directory holding the entry.
pub proof fn lemma_child_paths(path: Seq<char>, e: DirEntry)
    ensures
        forall|j: int|
            0 <= j < scan_child_spec(path, e).projects.len() ==> (#[trigger] scan_child_spec(
                path,
                e,
            ).projects[j]).path.len() > path.len(),
    decreases e, 2int, 0int,
{
    match e {
        DirEntry::File { .. } => {
        }
        DirEntry::Dir { name, entries } => {
            lemma_scan_paths(child_path(path, name@), entries@);
            reveal_strlit("/");
            assert(child_path(path, name@).len() == path.len() + 1 + name@.len());
        }
    }
}

/// Without the version-control marker a directory yields no project of its
/// own: the scan is exactly the scan of its subdirectories, and every
/// discovered project bears a path other than the directory's.
pub proof fn lemma_no_marker_recurses(path: Seq<char>, listing: Seq<DirEntry>)
    requires
        !has_name(listing, git_name()),
    ensures
        scan_spec(path, listing) == scan_children_spec(path, listing, 0),
        forall|j: int|
            0 <= j < scan_spec(path, listing).projects.len() ==> (#[trigger] scan_spec(
                path,
                listing,
            ).projects[j]).path != path,
{
    lemma_children_paths(path, listing, 0);
}

/// Without the version-control marker the scan takes in every subdirectory:
/// whatever scanning one of them yields appears in the directory's own scan.
pub proof fn lemma_no_marker_covers_children(
    path: Seq<char>,
    listing: Seq<DirEntry>,
    i: int,
    j: int,
)
    requires
        !has_name(listing, git_name()),
        0 <= i < listing.len(),
        0 <= j < scan_child_spec(path, listing[i]).projects.len(),
    ensures
        scan_spec(path, listing).projects.contains(scan_child_spec(path, listing[i]).projects[j]),
{
    lemma_children_contain(path, listing, 0, i, j);
}

/// The scan of the entries from position `k` on holds every project that the
/// entry at position `i >= k` yields.
pub proof fn lemma_children_contain(
    path: Seq<char>,
    listing: Seq<DirEntry>,
    k: int,
    i: int,
    j: int,
)
    requires
        0 <= k <= i < listing.len(),
        0 <= j < scan_child_spec(path, listing[i]).projects.len(),
    ensures
        scan_children_spec(path, listing, k).projects.contains(
            scan_child_spec(path, listing[i]).projects[j],
        ),
    decreases i - k,
{
    let target = scan_child_spec(path, listing[i]).projects[j];
    let here = scan_child_spec(path, listing[k]).projects;
    let rest = scan_children_spec(path, listing, k + 1).projects;
    if k == i {
        assert((here + rest)[j] == target);
    } else {
        lemma_children_contain(path, listing, k + 1, i, j);
        let w = choose|w: int| 0 <= w < rest.len() && rest[w] == target;
        assert((here + rest)[here.len() + w] == target);
    }
}

/// A project root with at least one ecosystem marker yields exactly one
/// project per marker present — all sharing the root's path and its
/// ignore-file flag, none cleaned yet — and nothing from its subtree.
pub proof fn lemma_marker_classifies(path: Seq<char>, listing: Seq<DirEntry>)
    requires
        has_name(listing, git_name()),
        has_name(listing, php_marker()) || has_name(listing, js_marker()) || has_name(
            listing,
            rust_marker(),
        ),
    ensures
        scan_spec(path, listing).projects == classify_projects(path, listing),
        scan_spec(path, listing).projects.len() == (
        if has_name(listing, php_marker()) {
            1int
        } else {
            0int
        }) + (
        if has_name(listing, js_marker()) {
            1int
        } else {
            0int
        }) + (
        if has_name(listing, rust_marker()) {
            1int
        } else {
            0int
        }),
        has_name(listing, php_marker()) <==> scan_spec(path, listing).projects.contains(
            fresh_project(path, has_name(listing, ignore_name()), ProjectType::PHP),
        ),
        has_name(listing, js_marker()) <==> scan_spec(path, listing).projects.contains(
            fresh_project(path, has_name(listing, ignore_name()), ProjectType::JavaScript),
        ),
        has_name(listing, rust_marker()) <==> scan_spec(path, listing).projects.contains(
            fresh_project(path, has_name(listing, ignore_name()), ProjectType::Rust),
        ),
        forall|j1: int, j2: int|
            0 <= j1 < scan_spec(path, listing).projects.len() && 0 <= j2 < scan_spec(
                path,
                listing,
            ).projects.len() && scan_spec(path, listing).projects[j1] == scan_spec(
                path,
                listing,
            ).projects[j2] ==> j1 == j2,
        forall|j: int|
            0 <= j < scan_spec(path, listing).projects.len() ==> (#[trigger] scan_spec(
                path,
                listing,
            ).projects[j]).path == path && scan_spec(path, listing).projects[j].has_git
                == has_name(listing, ignore_name()) && !scan_spec(path, listing).projects[j].cleaned,
{
    let hg = has_name(listing, ignore_name());
    let a = if has_name(listing, php_marker()) {
        seq![fresh_project(path, hg, ProjectType::PHP)]
    } else {
        Seq::<ProjectModel>::empty()
    };
    let b = if has_name(listing, js_marker()) {
        seq![fresh_project(path, hg, ProjectType::JavaScript)]
    } else {
        Seq::<ProjectModel>::empty()
    };
    let c = if has_name(listing, rust_marker()) {
        seq![fresh_project(path, hg, ProjectType::Rust)]
    } else {
        Seq::<ProjectModel>::empty()
    };
    let ps = scan_spec(path, listing).projects;
    assert(ps == a + b + c);
    if has_name(listing, php_marker()) {
        assert(ps[0] == fresh_project(path, hg, ProjectType::PHP));
    }
    if has_name(listing, js_marker()) {
        assert(ps[a.len() as int] == fresh_project(path, hg, ProjectType::JavaScript));
    }
    if has_name(listing, rust_marker()) {
        assert(ps[a.len() + b.len() as int] == fresh_project(path, hg, ProjectType::Rust));
    }
}

/// A project root without any ecosystem marker yields nothing at all — no
/// project from the root and none from its subtree — and a warning about the
/// root's path exactly when the ignore file is missing.
pub proof fn lemma_bare_root_yields_nothing(path: Seq<char>, listing: Seq<DirEntry>)
    requires
        has_name(listing, git_name()),
        !has_name(listing, php_marker()),
        !has_name(listing, js_marker()),
        !has_name(listing, rust_marker()),
    ensures
        scan_spec(path, listing).projects == Seq::<ProjectModel>::empty(),
        !has_name(listing, ignore_name()) ==> scan_spec(path, listing).warnings == seq![path],
        has_name(listing, ignore_name()) ==> scan_spec(path, listing).warnings == Seq::<
            Seq<char>,
        >::empty(),
{
    assert(scan_spec(path, listing).projects =~= Seq::<ProjectModel>::empty());
}

/// At a project root the scan reads nothing below the directory: any listing
/// with the same entry names, whatever stands in its subdirectories, scans to
/// the same result.
pub proof fn lemma_root_ignores_subtree(path: Seq<char>, l1: Seq<DirEntry>, l2: Seq<DirEntry>)
    requires
        has_name(l1, git_name()),
        l1.map_values(|e: DirEntry| e.name_spec()) == l2.map_values(|e: DirEntry| e.name_spec()),
    ensures
        scan_spec(path, l1) == scan_spec(path, l2),
{
    assert forall|n: Seq<char>| #[trigger] has_name(l2, n) == has_name(l1, n) by {
        lemma_same_names(l1, l2, n);
    }
}

/// Two listings with the same entry names agree on every name test.
proof fn lemma_same_names(l1: Seq<DirEntry>, l2: Seq<DirEntry>, n: Seq<char>)
    requires
        l1.map_values(|e: DirEntry| e.name_spec()) == l2.map_values(|e: DirEntry| e.name_spec()),
    ensures
        has_name(l1, n) == has_name(l2, n),
{
    let m1 = l1.map_values(|e: DirEntry| e.name_spec());
    let m2 = l2.map_values(|e: DirEntry| e.name_spec());
    assert(l1.len() == m1.len());
    assert(l2.len() == m2.len());
    if has_name(l1, n) {
        let i = choose|i: int| 0 <= i < l1.len() && l1[i].name_spec() == n;
        assert(m2[i] == m1[i]);
        assert(l2[i].name_spec() == n);
    }
    if has_name(l2, n) {
        let i = choose|i: int| 0 <= i < l2.len() && l2[i].name_spec() == n;
        assert(m1[i] == m2[i]);
        assert(l1[i].name_spec() == n);
    }
}

} // verus!
