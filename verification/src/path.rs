//! Filesystem path construction for cgroup directories and control files.

use vstd::prelude::*;
use vstd::string::*;

verus! {

/// The joining of a base path with a relative child segment: a `/` separator
/// is inserted, except that an empty child leaves the base path unchanged.
pub open spec fn spec_join(base: Seq<char>, child: Seq<char>) -> Seq<char> {
    if child.len() == 0 {
        base
    } else {
        base + seq!['/'] + child
    }
}

/// Joins a base path with a relative child segment.
pub fn join_path(base: &str, child: &str) -> (r: String)
    ensures
        r@ == spec_join(base@, child@),
{
    if child.unicode_len() == 0 {
        base.to_owned()
    } else {
        let mut s = base.to_owned();
        s.append("/");
        s.append(child);
        proof {
            reveal_strlit("/");
            assert(s@ =~= base@ + seq!['/'] + child@);
        }
        s
    }
}

} // verus!
