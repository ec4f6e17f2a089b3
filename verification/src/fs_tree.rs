//! A value model of a directory tree: what one `read_dir` listing holds,
//! with subdirectories carried recursively.

use vstd::prelude::*;

verus! {

/// One entry of a directory listing: a plain file, or a subdirectory with its
/// own listing. Entries keep the order in which the directory was read.
pub enum DirEntry {
    File { name: String },
    Dir { name: String, entries: Vec<DirEntry> },
}

impl DirEntry {
    /// The entry's file name, whatever its kind.
    pub open spec fn name_spec(self) -> Seq<char> {
        match self {
            DirEntry::File { name } => name@,
            DirEntry::Dir { name, .. } => name@,
        }
    }

    /// The entry's file name, whatever its kind.
    pub fn name(&self) -> (r: &String)
        ensures
            r@ == self.name_spec(),
    {
        match self {
            DirEntry::File { name } => name,
            DirEntry::Dir { name, .. } => name,
        }
    }
}

/// Whether some entry of the listing bears the given name.
pub open spec fn has_name(listing: Seq<DirEntry>, name: Seq<char>) -> bool {
    exists|i: int| 0 <= i < listing.len() && (#[trigger] listing[i].name_spec()) == name
}

/// Whether some entry of the listing bears the given name.
pub fn contains_name(listing: &Vec<DirEntry>, name: &str) -> (r: bool)
    ensures
        r == has_name(listing@, name@),
{
    let mut i: usize = 0;
    while i < listing.len()
        invariant
            i <= listing@.len(),
            forall|j: int| 0 <= j < i ==> (#[trigger] listing@[j].name_spec()) != name@,
        decreases listing@.len() - i,
    {
        if str_eq(listing[i].name().as_str(), name) {
            return true;
        }
        i += 1;
    }
    false
}

/// Whether two string slices hold the same characters.
pub fn str_eq(a: &str, b: &str) -> (r: bool)
    ensures
        r == (a@ == b@),
{
    let sa = a.to_owned();
    let sb = b.to_owned();
    sa == sb
}

} // verus!
