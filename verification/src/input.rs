//! Interpretation of one line of user input.
//!
//! A line is trimmed of surrounding whitespace and then read as one of:
//! cancel (`c`), clean everything (`a`), or a comma-separated list of
//! project indices, read with the JSON grammar. Anything else is invalid
//! and asks for another line.

use vstd::prelude::*;

verus! {

/// Whether the character counts as whitespace when trimming input.
pub uninterp spec fn is_space(c: char) -> bool;

/// Relies on char::is_whitespace: whether a character is whitespace depends
/// on the character alone.
#[verifier::external_body]
fn char_is_space(c: char) -> (r: bool)
    ensures
        r == is_space(c),
{
    c.is_whitespace()
}

/// The sequence with its leading whitespace removed.
pub open spec fn trim_start_spec(s: Seq<char>) -> Seq<char>
    decreases s.len(),
{
    if s.len() > 0 && is_space(s[0]) {
        trim_start_spec(s.drop_first())
    } else {
        s
    }
}

/// The sequence with its trailing whitespace removed.
pub open spec fn trim_end_spec(s: Seq<char>) -> Seq<char>
    decreases s.len(),
{
    if s.len() > 0 && is_space(s[s.len() - 1]) {
        trim_end_spec(s.drop_last())
    } else {
        s
    }
}

/// The sequence with whitespace removed from both ends.
pub open spec fn trim_spec(s: Seq<char>) -> Seq<char> {
    trim_end_spec(trim_start_spec(s))
}

/// Dropping leading whitespace keeps exactly the part from the first
/// non-whitespace position on.
proof fn lemma_trim_start_range(s: Seq<char>, k: int)
    requires
        0 <= k <= s.len(),
        forall|j: int| 0 <= j < k ==> is_space(s[j]),
        k < s.len() ==> !is_space(s[k]),
    ensures
        trim_start_spec(s) == s.subrange(k, s.len() as int),
    decreases k,
{
    if k == 0 {
        assert(trim_start_spec(s) =~= s.subrange(0, s.len() as int));
    } else {
        assert(is_space(s[0]));
        let d = s.drop_first();
        assert(forall|j: int| 0 <= j < k - 1 ==> is_space(#[trigger] d[j]));
        lemma_trim_start_range(d, k - 1);
        assert(d.subrange(k - 1, d.len() as int) =~= s.subrange(k, s.len() as int));
    }
}

/// Dropping trailing whitespace keeps exactly the part up to the last
/// non-whitespace position.
proof fn lemma_trim_end_range(s: Seq<char>, k: int)
    requires
        0 <= k <= s.len(),
        forall|j: int| k <= j < s.len() ==> is_space(s[j]),
        k > 0 ==> !is_space(s[k - 1]),
    ensures
        trim_end_spec(s) == s.subrange(0, k),
    decreases s.len(),
{
    if k == s.len() {
        assert(trim_end_spec(s) =~= s.subrange(0, k));
    } else {
        assert(is_space(s[s.len() - 1]));
        let d = s.drop_last();
        assert(forall|j: int| k <= j < d.len() ==> is_space(#[trigger] d[j]));
        lemma_trim_end_range(d, k);
        assert(d.subrange(0, k) =~= s.subrange(0, k));
    }
}

/// Removes the whitespace on both ends of the text.
pub fn trim_str(s: &str) -> (r: String)
    ensures
        r@ == trim_spec(s@),
{
    let len: usize = s.unicode_len();
    let mut start: usize = 0;
    while start < len
        invariant
            start <= len,
            len == s@.len(),
            forall|j: int| 0 <= j < start ==> is_space(s@[j]),
        ensures
            start <= len,
            forall|j: int| 0 <= j < start ==> is_space(s@[j]),
            start < len ==> !is_space(s@[start as int]),
        decreases len - start,
    {
        if char_is_space(s.get_char(start)) {
            start += 1;
        } else {
            break ;
        }
    }
    let mut end: usize = len;
    while end > start
        invariant
            start <= end <= len,
            len == s@.len(),
            forall|j: int| end <= j < len ==> is_space(s@[j]),
        ensures
            start <= end <= len,
            forall|j: int| end <= j < len ==> is_space(s@[j]),
            end > start ==> !is_space(s@[end - 1]),
        decreases end,
    {
        if char_is_space(s.get_char(end - 1)) {
            end -= 1;
        } else {
            break ;
        }
    }
    proof {
        lemma_trim_start_range(s@, start as int);
        let u = s@.subrange(start as int, len as int);
        if start == len {
            lemma_trim_end_range(u, 0);
        } else if !is_space(s@[start as int]) && end == start {
            // cannot happen: position start is not whitespace but would lie in
            // the trailing run
            assert(false);
        } else {
            assert(forall|j: int|
                end - start <= j < u.len() ==> is_space(#[trigger] u[j]));
            lemma_trim_end_range(u, end - start);
        }
        assert(u.subrange(0, end - start) =~= s@.subrange(start as int, end as int));
    }
    s.substring_char(start, end).to_owned()
}

/// Whether the trimmed line asks to cancel.
pub open spec fn is_cancel_word(t: Seq<char>) -> bool {
    t.len() == 1 && (t[0] == 'c' || t[0] == 'C')
}

/// Whether the trimmed line asks to clean every project.
pub open spec fn is_all_word(t: Seq<char>) -> bool {
    t.len() == 1 && (t[0] == 'a' || t[0] == 'A')
}

/// The trimmed line surrounded by JSON list brackets.
pub open spec fn bracketed(t: Seq<char>) -> Seq<char> {
    "["@ + t + "]"@
}

/// What serde_json::from_str::<Vec<usize>> returns on the given text: the
/// list of unsigned integers if the text is a JSON list of them, nothing
/// otherwise.
pub uninterp spec fn json_usize_list(s: Seq<char>) -> Option<Seq<usize>>;

/// serde_json's error type, declared opaquely so the parse wrapper below can
/// return it; verified code only discards it.
#[verifier::external_type_specification]
#[verifier::external_body]
pub struct ExSerdeJsonError(serde_json::Error);

/// Relies on serde_json::from_str::<Vec<usize>>: whether the text parses as
/// a JSON list of unsigned integers, and to which list, depends on the text
/// alone.
#[verifier::external_body]
fn parse_usize_list(s: &str) -> (r: Result<Vec<usize>, serde_json::Error>)
    ensures
        r is Ok <==> json_usize_list(s@) is Some,
        r matches Ok(ids) ==> json_usize_list(s@) == Some(ids@),
{
    serde_json::from_str(s)
}

/// One interpreted line of user input.
#[derive(Debug, Clone, PartialEq, Eq)]
pub enum UserInput {
    /// Clean every project in the list.
    All,
    /// Clean the projects at these indices, in this order.
    SelectedProjects(Vec<usize>),
    /// Stop: print a farewell and exit.
    Cancel,
    /// None of the above: ask for another line.
    Invalid,
}

/// How one line of input, once trimmed, must be read.
pub open spec fn reading_of(s: Seq<char>, r: UserInput) -> bool {
    let t = trim_spec(s);
    if is_cancel_word(t) {
        r == UserInput::Cancel
    } else if is_all_word(t) {
        r == UserInput::All
    } else {
        match r {
            UserInput::SelectedProjects(ids) => json_usize_list(bracketed(t)) == Some(ids@),
            UserInput::Invalid => json_usize_list(bracketed(t)) is None,
            _ => false,
        }
    }
}

/// Reads one line of user input: cancel, all, a JSON-style list of indices,
/// or invalid.
pub fn interpret_input(line: &str) -> (r: UserInput)
    ensures
        reading_of(line@, r),
{
    let t = trim_str(line);
    let ts = t.as_str();
    let n: usize = ts.unicode_len();
    if n == 1 {
        let c0 = ts.get_char(0);
        if c0 == 'c' || c0 == 'C' {
            return UserInput::Cancel;
        }
        if c0 == 'a' || c0 == 'A' {
            return UserInput::All;
        }
    }
    let mut payload = "[".to_owned();
    payload.append(ts);
    payload.append("]");
    match parse_usize_list(payload.as_str()) {
        Ok(ids) => UserInput::SelectedProjects(ids),
        Err(_) => UserInput::Invalid,
    }
}

} // verus!
