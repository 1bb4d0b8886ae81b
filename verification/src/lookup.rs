//! Lookup of a file under several directories, by precedence.

use vstd::prelude::*;

verus! {

/// Given, for each directory in order of precedence, whether the file exists
/// under it, returns the index of the directory to take the file from: the
/// first under which it exists, and `None` where it exists under none.
pub fn first_file_from_dirs(present: &[bool]) -> (r: Option<usize>)
    ensures
        match r {
            Some(i) => i < present@.len() && present@[i as int] && forall|j: int|
                0 <= j < i ==> !present@[j],
            None => forall|j: int| 0 <= j < present@.len() ==> !present@[j],
        },
{
    let mut i: usize = 0;
    while i < present.len()
        invariant
            i <= present@.len(),
            forall|j: int| 0 <= j < i ==> !present@[j],
        decreases present@.len() - i,
    {
        if present[i] {
            return Some(i);
        }
        i = i + 1;
    }
    None
}

} // verus!
