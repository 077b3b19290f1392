//! Text shown by the command line: paths relative to the project root.
use vstd::prelude::*;

use crate::paths::{slashify, slashify_vec, strip_prefix, strip_prefix_vec};
use crate::text::{chars_of, string_from, string_of};

verus! {

/// Path relative to root when possible; forward slashes; `.` for the root itself.
pub open spec fn display_path_spec(root: Seq<char>, path: Seq<char>) -> Seq<char> {
    let rel = match strip_prefix(root, path) {
        Some(s) => s,
        None => path,
    };
    if slashify(rel).len() == 0 {
        "."@
    } else {
        slashify(rel)
    }
}

/// Path relative to root when possible; forward slashes.
pub fn display_path(root: &str, path: &str) -> (r: String)
    ensures
        r@ == display_path_spec(root@, path@),
{
    let p = chars_of(path);
    let rel = match strip_prefix_vec(&chars_of(root), &p) {
        Some(s) => s,
        None => p,
    };
    let s = slashify_vec(&rel);
    if s.len() == 0 {
        string_from(".")
    } else {
        string_of(&s)
    }
}

} // verus!
