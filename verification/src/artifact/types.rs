//! Shared artifact record for discover → sign → sums → release.
use vstd::prelude::*;

use super::kind::{classify_explicit_spec, kind_id, signable_on, ArtifactKind};
use crate::paths::{file_name, file_name_vec};
use crate::text::{chars_of, push_str, string_from, string_of};

verus! {

#[derive(Debug, Clone, PartialEq, Eq)]
pub struct Artifact {
    pub path: String,
    pub kind: ArtifactKind,
    /// Basename (or unique release asset name) used in SHA256SUMS / GitHub.
    pub name_for_sums: String,
}

/// An artifact as plain values: path, kind, name used in SHA256SUMS.
pub struct ArtifactV {
    pub path: Seq<char>,
    pub kind: ArtifactKind,
    pub name: Seq<char>,
}

impl View for Artifact {
    type V = ArtifactV;

    open spec fn view(&self) -> ArtifactV {
        ArtifactV { path: self.path@, kind: self.kind, name: self.name_for_sums@ }
    }
}

pub open spec fn artifacts_view(v: Seq<Artifact>) -> Seq<ArtifactV> {
    v.map_values(|a: Artifact| a@)
}

/// The name an artifact gets in SHA256SUMS: the path's file name, else `artifact`.
pub open spec fn sums_name(p: Seq<char>) -> Seq<char> {
    match file_name(p) {
        Some(f) => f,
        None => "artifact"@,
    }
}

/// The record `Artifact::new` builds.
pub open spec fn new_artifact(p: Seq<char>, k: ArtifactKind) -> ArtifactV {
    ArtifactV { path: p, kind: k, name: sums_name(p) }
}

/// JSON string escaping used for artifact paths and names: `\` and `"` get a backslash.
pub open spec fn json_escape(s: Seq<char>) -> Seq<char>
    decreases s.len(),
{
    if s.len() == 0 {
        Seq::empty()
    } else {
        let c = s.last();
        json_escape(s.drop_last()) + if c == '\\' {
            seq!['\\', '\\']
        } else if c == '"' {
            seq!['\\', '"']
        } else {
            seq![c]
        }
    }
}

/// One JSON object of `artifacts_json`.
pub open spec fn artifact_json(a: ArtifactV) -> Seq<char> {
    "{\"path\":\""@ + json_escape(a.path) + "\",\"kind\":\""@ + kind_id(a.kind)
        + "\",\"name_for_sums\":\""@ + json_escape(a.name) + "\"}"@
}

/// Objects separated by commas.
pub open spec fn json_items(v: Seq<ArtifactV>) -> Seq<char>
    decreases v.len(),
{
    if v.len() == 0 {
        Seq::empty()
    } else if v.len() == 1 {
        artifact_json(v[0])
    } else {
        json_items(v.drop_last()) + ","@ + artifact_json(v.last())
    }
}

pub open spec fn artifacts_json_spec(v: Seq<ArtifactV>) -> Seq<char> {
    "["@ + json_items(v) + "]"@
}

/// Appends `json_escape(t)` to `s`.
pub fn push_json_escaped(s: &mut String, t: &str)
    ensures
        final(s)@ == old(s)@ + json_escape(t@),
{
    let v = chars_of(t);
    let ghost start = s@;
    let mut i: usize = 0;
    while i < v.len()
        invariant
            i <= v.len(),
            s@ == start + json_escape(v@.take(i as int)),
        decreases v.len() - i,
    {
        let c = v[i];
        proof {
            assert(v@.take(i + 1).drop_last() =~= v@.take(i as int));
        }
        if c == '\\' {
            crate::text::push_char(s, '\\');
            crate::text::push_char(s, '\\');
        } else if c == '"' {
            crate::text::push_char(s, '\\');
            crate::text::push_char(s, '"');
        } else {
            crate::text::push_char(s, c);
        }
        i = i + 1;
        assert(s@ =~= start + json_escape(v@.take(i as int)));
    }
    assert(v@.take(v.len() as int) =~= v@);
}

impl Artifact {
    pub fn new(path: String, kind: ArtifactKind) -> (r: Self)
        ensures
            r@ == new_artifact(path@, kind),
    {
        let name_for_sums = match file_name_vec(&chars_of(path.as_str())) {
            Some(f) => string_of(&f),
            None => string_from("artifact"),
        };
        Artifact { path, kind, name_for_sums }
    }

    pub fn from_path(path: &str) -> (r: Self)
        ensures
            r@ == new_artifact(path@, classify_explicit_spec(path@)),
    {
        let kind = ArtifactKind::classify_explicit(path);
        Self::new(string_from(path), kind)
    }
}

/// Compact JSON array for agents / future `--json` discover.
pub fn artifacts_json(artifacts: &[Artifact]) -> (r: String)
    ensures
        r@ == artifacts_json_spec(artifacts_view(artifacts@)),
{
    let mut out = string_from("[");
    let ghost open = out@;
    let mut i: usize = 0;
    while i < artifacts.len()
        invariant
            i <= artifacts.len(),
            open == "["@,
            out@ == open + json_items(artifacts_view(artifacts@.take(i as int))),
        decreases artifacts.len() - i,
    {
        let a = &artifacts[i];
        let ghost before = out@;
        if i > 0 {
            push_str(&mut out, ",");
        }
        push_str(&mut out, "{\"path\":\"");
        push_json_escaped(&mut out, a.path.as_str());
        push_str(&mut out, "\",\"kind\":\"");
        push_str(&mut out, a.kind.as_str());
        push_str(&mut out, "\",\"name_for_sums\":\"");
        push_json_escaped(&mut out, a.name_for_sums.as_str());
        push_str(&mut out, "\"}");
        proof {
            let pre = artifacts_view(artifacts@.take(i as int));
            let now = artifacts_view(artifacts@.take(i + 1));
            assert(now.drop_last() =~= pre);
            assert(now.last() == a@);
            if i == 0 {
                assert(now =~= seq![a@]);
                assert(out@ =~= open + json_items(now));
            } else {
                assert(out@ =~= open + json_items(now));
            }
        }
        i = i + 1;
    }
    assert(artifacts@.take(artifacts.len() as int) =~= artifacts@);
    push_str(&mut out, "]");
    out
}

/// Keeps the artifacts that the host OS `os` signs with its own tools, in order.
pub open spec fn host_signable_spec(v: Seq<ArtifactV>, os: Seq<char>) -> Seq<ArtifactV> {
    v.filter(|a: ArtifactV| signable_on(a.kind, os))
}

/// Filter artifacts host-signable on `os` (the current OS id, as `std::env::consts::OS`).
pub fn host_signable(artifacts: &[Artifact], os: &str) -> (r: Vec<Artifact>)
    ensures
        artifacts_view(r@) == host_signable_spec(artifacts_view(artifacts@), os@),
{
    let mut out: Vec<Artifact> = Vec::new();
    let mut i: usize = 0;
    while i < artifacts.len()
        invariant
            i <= artifacts.len(),
            artifacts_view(out@) == host_signable_spec(artifacts_view(artifacts@.take(i as int)), os@),
        decreases artifacts.len() - i,
    {
        let a = &artifacts[i];
        proof {
            let pre = artifacts_view(artifacts@.take(i as int));
            let now = artifacts_view(artifacts@.take(i + 1));
            assert(now =~= pre.push(a@));
            reveal(Seq::filter);
            assert(pre.push(a@).drop_last() =~= pre);
        }
        if a.kind.host_signable_on(os) {
            let c = Artifact { path: a.path.clone(), kind: a.kind, name_for_sums: a.name_for_sums.clone() };
            let ghost before = artifacts_view(out@);
            out.push(c);
            assert(artifacts_view(out@) =~= before.push(a@));
        }
        i = i + 1;
    }
    assert(artifacts@.take(artifacts.len() as int) =~= artifacts@);
    out
}

} // verus!
