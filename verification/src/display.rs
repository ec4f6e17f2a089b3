//! The text of the project table.
//!
//! The library computes every cell shown for a project — its row index in
//! decimal, the ecosystem name, the two Yes/No flags and the path. Drawing
//! the table borders and printing is left to the surrounding binary.

use vstd::prelude::*;

use crate::project::{strs_of, Project, ProjectModel, type_name_spec};
use vstd::string::StringExecFns;

verus! {

/// The character for one decimal digit.
pub open spec fn digit_char(d: nat) -> char {
    if d == 0 {
        '0'
    } else if d == 1 {
        '1'
    } else if d == 2 {
        '2'
    } else if d == 3 {
        '3'
    } else if d == 4 {
        '4'
    } else if d == 5 {
        '5'
    } else if d == 6 {
        '6'
    } else if d == 7 {
        '7'
    } else if d == 8 {
        '8'
    } else {
        '9'
    }
}

/// The decimal digits of a number, most significant first.
pub open spec fn dec_str(n: nat) -> Seq<char>
    decreases n,
{
    if n < 10 {
        seq![digit_char(n)]
    } else {
        dec_str(n / 10).push(digit_char(n % 10))
    }
}

/// Writes a number in decimal.
pub fn usize_to_string(n: usize) -> (r: String)
    ensures
        r@ == dec_str(n as nat),
    decreases n,
{
    let digits = "0123456789";
    proof {
        reveal_strlit("0123456789");
    }
    let d: usize = n % 10;
    let ds = digits.substring_char(d, d + 1);
    proof {
        assert(ds@ =~= seq![digit_char((n % 10) as nat)]);
    }
    if n < 10 {
        ds.to_owned()
    } else {
        let mut r = usize_to_string(n / 10);
        r.append(ds);
        proof {
            assert(dec_str((n / 10) as nat) + seq![digit_char((n % 10) as nat)] =~= dec_str(
                n as nat,
            ));
        }
        r
    }
}

/// The text shown for a flag.
pub open spec fn yes_no(b: bool) -> Seq<char> {
    if b {
        "Yes"@
    } else {
        "No"@
    }
}

/// The text shown for a flag.
pub fn yes_no_label(b: bool) -> (r: &'static str)
    ensures
        r@ == yes_no(b),
{
    if b {
        "Yes"
    } else {
        "No"
    }
}

/// The table row shown for one project: its index in decimal, the ecosystem
/// name, the version-control flag, the cleaned flag, and the path.
pub open spec fn row_model(i: nat, p: ProjectModel) -> Seq<Seq<char>> {
    seq![dec_str(i), type_name_spec(p.language), yes_no(p.has_git), yes_no(p.cleaned), p.path]
}

/// The cells of the table row for the project at index `i`.
pub fn project_row(i: usize, p: &Project) -> (r: Vec<String>)
    ensures
        strs_of(r@) == row_model(i as nat, p@),
{
    let mut r: Vec<String> = Vec::new();
    r.push(usize_to_string(i));
    r.push(p.language.name().to_owned());
    r.push(yes_no_label(p.has_git).to_owned());
    r.push(yes_no_label(p.cleaned).to_owned());
    r.push(p.path.clone());
    proof {
        assert(strs_of(r@) =~= row_model(i as nat, p@));
    }
    r
}

/// The cells of every row of the table, one row per project, in list order.
pub fn display_rows(projects: &Vec<Project>) -> (r: Vec<Vec<String>>)
    ensures
        r@.len() == projects@.len(),
        forall|i: int|
            0 <= i < r@.len() ==> strs_of((#[trigger] r@[i])@) == row_model(
                i as nat,
                projects@[i]@,
            ),
{
    let mut r: Vec<Vec<String>> = Vec::new();
    let mut i: usize = 0;
    while i < projects.len()
        invariant
            i <= projects@.len(),
            r@.len() == i,
            forall|j: int|
                0 <= j < i ==> strs_of((#[trigger] r@[j])@) == row_model(
                    j as nat,
                    projects@[j]@,
                ),
        decreases projects@.len() - i,
    {
        r.push(project_row(i, &projects[i]));
        i += 1;
    }
    r
}

} // verus!
