//! Deciding and planning cleanup.
//!
//! The library decides what cleaning a project means — which artifact
//! directory to delete, or that the Rust clean subcommand must run — and in
//! which order a selection is worked through. Carrying the decisions out
//! (deleting, spawning) is left to the surrounding binary, which reports
//! back so the cleaned flag can be set.

use vstd::prelude::*;

use crate::input::UserInput;
use crate::project::{Project, ProjectModel, ProjectType};
use crate::scan::child_path;
use vstd::string::StringExecFns;

verus! {

/// The cleanup a single project calls for.
#[derive(Debug, Clone, PartialEq, Eq)]
pub enum CleanAction {
    /// Delete this directory recursively.
    DeleteDir(String),
    /// Run the Rust clean subcommand with this directory as working
    /// directory.
    CargoClean(String),
    /// No cleaner applies to this project.
    NoCleaner,
}

/// Decides how the project is cleaned: its artifact directory for the
/// directory-deletion ecosystems, the clean subcommand for Rust, nothing for
/// an unknown ecosystem.
pub fn clean_action(p: &Project) -> (a: CleanAction)
    ensures
        p@.language == ProjectType::PHP ==> (a matches CleanAction::DeleteDir(d) && d@
            == child_path(p@.path, "vendor"@)),
        p@.language == ProjectType::JavaScript ==> (a matches CleanAction::DeleteDir(d) && d@
            == child_path(p@.path, "node_modules"@)),
        p@.language == ProjectType::Rust ==> (a matches CleanAction::CargoClean(d) && d@
            == p@.path),
        p@.language == ProjectType::Unknown ==> a == CleanAction::NoCleaner,
{
    match p.language {
        ProjectType::PHP => {
            let mut d = p.path.clone();
            d.append("/");
            d.append("vendor");
            CleanAction::DeleteDir(d)
        }
        ProjectType::JavaScript => {
            let mut d = p.path.clone();
            d.append("/");
            d.append("node_modules");
            CleanAction::DeleteDir(d)
        }
        ProjectType::Rust => CleanAction::CargoClean(p.path.clone()),
        ProjectType::Unknown => CleanAction::NoCleaner,
    }
}

/// Records that the project at `i` was cleaned: its flag becomes true and
/// nothing else in the list changes.
pub fn mark_cleaned(projects: &mut Vec<Project>, i: usize)
    requires
        i < old(projects)@.len(),
    ensures
        final(projects)@.len() == old(projects)@.len(),
        final(projects)@[i as int]@ == (ProjectModel {
            cleaned: true,
            ..old(projects)@[i as int]@
        }),
        forall|j: int|
            0 <= j < old(projects)@.len() && j != i ==> final(projects)@[j] == old(projects)@[j],
{
    let p = &mut projects[i];
    p.cleaned = true;
}

/// One step of a cleanup batch.
#[derive(Debug, Clone, Copy, PartialEq, Eq, Structural)]
pub enum CleanStep {
    /// Clean the project at this index.
    Clean(usize),
    /// The selection named this index, but the list has no such project:
    /// report it and carry on.
    InvalidIndex(usize),
}

/// The step a selected index turns into, against a list of `n` projects.
pub open spec fn step_of(id: usize, n: nat) -> CleanStep {
    if (id as nat) < n {
        CleanStep::Clean(id)
    } else {
        CleanStep::InvalidIndex(id)
    }
}

/// The batch of steps an interpreted input line calls for, against a list of
/// `n` projects: every project in order for `All`, one step per selected
/// index for a selection, nothing for cancel or invalid input.
pub open spec fn plan_spec(input: UserInput, n: nat) -> Seq<CleanStep> {
    match input {
        UserInput::All => Seq::new(n, |i: int| CleanStep::Clean(i as usize)),
        UserInput::SelectedProjects(ids) => ids@.map_values(|id: usize| step_of(id, n)),
        UserInput::Cancel => Seq::empty(),
        UserInput::Invalid => Seq::empty(),
    }
}

/// Turns an interpreted input line into the batch of cleanup steps to carry
/// out, in order, against a list of `count` projects.
pub fn plan_batch(input: &UserInput, count: usize) -> (plan: Vec<CleanStep>)
    ensures
        plan@ == plan_spec(*input, count as nat),
{
    let mut plan: Vec<CleanStep> = Vec::new();
    match input {
        UserInput::All => {
            let mut i: usize = 0;
            while i < count
                invariant
                    i <= count,
                    plan@ =~= Seq::new(i as nat, |k: int| CleanStep::Clean(k as usize)),
                decreases count - i,
            {
                plan.push(CleanStep::Clean(i));
                i += 1;
            }
            proof {
                assert(plan@ =~= plan_spec(*input, count as nat));
            }
        }
        UserInput::SelectedProjects(ids) => {
            let mut i: usize = 0;
            while i < ids.len()
                invariant
                    i <= ids@.len(),
                    plan@ =~= ids@.subrange(0, i as int).map_values(
                        |id: usize| step_of(id, count as nat),
                    ),
                decreases ids@.len() - i,
            {
                let id: usize = ids[i];
                if id < count {
                    plan.push(CleanStep::Clean(id));
                } else {
                    plan.push(CleanStep::InvalidIndex(id));
                }
                proof {
                    assert(ids@.subrange(0, i + 1).map_values(
                        |id: usize| step_of(id, count as nat),
                    ) =~= ids@.subrange(0, i as int).map_values(
                        |id: usize| step_of(id, count as nat),
                    ).push(step_of(ids@[i as int], count as nat)));
                }
                i += 1;
            }
            proof {
                assert(ids@.subrange(0, ids@.len() as int) =~= ids@);
                assert(plan@ =~= plan_spec(*input, count as nat));
            }
        }
        UserInput::Cancel => {
        }
        UserInput::Invalid => {
        }
    }
    plan
}

/// Asking to clean everything plans exactly one cleaning step per project in
/// the list, in list order, and never reports an invalid index.
pub proof fn lemma_all_cleans_each_once(n: nat)
    requires
        n <= usize::MAX,
    ensures
        plan_spec(UserInput::All, n).len() == n,
        forall|i: int|
            0 <= i < n ==> #[trigger] plan_spec(UserInput::All, n)[i] == CleanStep::Clean(
                i as usize,
            ),
        forall|i: int, j: int|
            0 <= i < n && 0 <= j < n && plan_spec(UserInput::All, n)[i] == plan_spec(
                UserInput::All,
                n,
            )[j] ==> i == j,
{
    assert forall|i: int, j: int|
        0 <= i < n && 0 <= j < n && plan_spec(UserInput::All, n)[i] == plan_spec(
            UserInput::All,
            n,
        )[j] implies i == j by {
        assert(plan_spec(UserInput::All, n)[i] == CleanStep::Clean(i as usize));
        assert(plan_spec(UserInput::All, n)[j] == CleanStep::Clean(j as usize));
    }
}

/// A cancelled or invalid line plans no cleanup at all.
pub proof fn lemma_cancel_cleans_nothing(n: nat)
    ensures
        plan_spec(UserInput::Cancel, n) == Seq::<CleanStep>::empty(),
        plan_spec(UserInput::Invalid, n) == Seq::<CleanStep>::empty(),
{
}

} // verus!
