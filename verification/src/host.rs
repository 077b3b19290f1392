//! Looking up programs on the host's `PATH`.
use vstd::prelude::*;

use crate::text::{contains, lower_seq};

verus! {

/// A program name `which` looks up on `PATH`: not empty, and no path separator in it.
pub open spec fn bare_name(n: Seq<char>) -> bool {
    n.len() > 0 && forall|i: int| 0 <= i < n.len() ==> #[trigger] n[i] != '/' && n[i] != '\\'
}

/// `which::which(name)`: the first executable called `name` on `PATH`, as a path string, or
/// `None` when the lookup fails. What it finds depends on the environment and on the disk;
/// what is stated is that a bare name found on `PATH` is the last component of the path it
/// returns (`<dir>/<name>`, with a Windows `PATHEXT` extension appended and its ASCII case
/// taken from the disk on Windows), so the path text holds the name, ignoring ASCII case.
#[verifier::external_body]
pub(crate) fn which_tool(name: &str) -> (r: Option<String>)
    ensures
        bare_name(name@) ==> (r matches Some(p) ==> contains(lower_seq(p@), lower_seq(name@))),
{
    match which::which(name) {
        Ok(p) => Some(p.to_string_lossy().into_owned()),
        Err(_) => None,
    }
}

/// Whether `which_tool(name)` finds anything.
pub(crate) fn on_path(name: &str) -> (r: bool) {
    which_tool(name).is_some()
}

} // verus!
