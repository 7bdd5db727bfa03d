//! Paths as plain text, joined the way Unix-like systems join them.

use crate::text::chars_of;
use vstd::prelude::*;

verus! {

/// The separator between the components of a path.
pub const SEPARATOR: char = '/';

/// `child` placed under `base`: an absolute `child` stands for itself; otherwise
/// it follows `base`, with one separator in between unless `base` is empty or
/// already ends in one.
pub open spec fn joined(base: Seq<char>, child: Seq<char>) -> Seq<char> {
    if child.len() > 0 && child[0] == SEPARATOR {
        child
    } else if base.len() == 0 || base.last() == SEPARATOR {
        base + child
    } else {
        base + seq![SEPARATOR] + child
    }
}

/// Joins `child` onto `base`.
pub fn join_path(base: &str, child: &str) -> (path: String)
    ensures
        path@ == joined(base@, child@),
{
    let tail = chars_of(child);
    if tail.len() > 0 && tail[0] == SEPARATOR {
        return String::from_str(child);
    }
    let head = chars_of(base);
    let mut path = String::from_str(base);
    if head.len() > 0 && head[head.len() - 1] != SEPARATOR {
        proof {
            reveal_strlit("/");
        }
        path.append("/");
    }
    path.append(child);
    path
}

} // verus!
