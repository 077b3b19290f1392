//! Rust CLI / binary adapter: `cargo build`, then host binaries under `target/<profile>/`.
use vstd::prelude::*;

use super::adapter::{app_root_of, around, ctx_app_root, FrameworkAdapter};
use super::electron::{plan_view, tail_then};
use super::kind::{classify_explicit_spec, ArtifactKind};
use super::types::{artifacts_view, Artifact, ArtifactV};
use crate::argv::{split_whitespace, string_views, whitespace_words};
use crate::fs::{fs_is_dir, listing, EntryV, FsEntry, FsSnapshot};
use crate::host::on_path;
use crate::paths::{file_name, file_name_vec, join, join_str, parent, parent_vec};
use crate::project::ProjectCtx;
use crate::text::{
    chars_of, contains, ends_with, lower_seq, lower_vec, push_str, starts_with, string_from,
    string_of, trim, trim_vec, vec_contains, vec_ends_with, vec_eq, vec_starts_with,
};

verus! {

/// Finds host binaries; `host_windows` says whether the host is Windows, where only `.exe`
/// files are binaries.
#[derive(Debug, Default, Clone, Copy)]
pub struct CliAdapter {
    pub host_windows: bool,
}

/// Build-output noise that is never a shipped binary.
pub open spec fn noise_name(l: Seq<char>) -> bool {
    ends_with(l, ".pdb"@) || ends_with(l, ".d"@) || ends_with(l, ".rlib"@) || ends_with(l, ".rmeta"@)
        || ends_with(l, ".dll"@) || ends_with(l, ".so"@) || ends_with(l, ".dylib"@) || ends_with(
        l,
        ".lib"@,
    ) || ends_with(l, ".exp"@) || starts_with(l, "."@)
}

/// Whether a file called `name` is a host binary: not noise, no extension but `.exe`, and
/// `.exe` on Windows hosts, executable or `.exe` elsewhere.
pub open spec fn host_bin_name(name: Seq<char>, executable: bool, host_windows: bool) -> bool {
    let l = lower_seq(name);
    &&& !noise_name(l)
    &&& !(contains(name, "."@) && !ends_with(l, ".exe"@))
    &&& if host_windows {
        ends_with(l, ".exe"@)
    } else {
        ends_with(l, ".exe"@) || executable
    }
}

pub open spec fn bin_entry(e: EntryV, host_windows: bool) -> Seq<ArtifactV> {
    if e.is_dir {
        Seq::empty()
    } else {
        match file_name(e.path) {
            Some(n) => if host_bin_name(n, e.executable, host_windows) {
                seq![ArtifactV { path: e.path, kind: classify_explicit_spec(e.path), name: n }]
            } else {
                Seq::empty()
            },
            None => Seq::empty(),
        }
    }
}

pub open spec fn bins_list(es: Seq<EntryV>, host_windows: bool) -> Seq<ArtifactV>
    decreases es.len(),
{
    if es.len() == 0 {
        Seq::empty()
    } else {
        bins_list(es.drop_last(), host_windows) + bin_entry(es.last(), host_windows)
    }
}

/// `dir/target/<profile>`.
pub open spec fn target_dir(dir: Seq<char>, profile: Seq<char>) -> Seq<char> {
    join(join(dir, "target"@), profile)
}

/// The binaries of the first `target/<profile>` that has any, looking in `dir` and then up
/// through its parents, `steps` directories in all.
pub open spec fn cli_search(fs: Seq<EntryV>, dir: Seq<char>, profile: Seq<char>, host_windows: bool, steps: nat) -> Seq<ArtifactV>
    decreases steps,
{
    if steps == 0 {
        Seq::empty()
    } else {
        let cand = target_dir(dir, profile);
        let found = if fs_is_dir(fs, cand) {
            bins_list(listing(fs, cand), host_windows)
        } else {
            Seq::empty()
        };
        if found.len() > 0 {
            found
        } else {
            match parent(dir) {
                Some(p) => cli_search(fs, p, profile, host_windows, (steps - 1) as nat),
                None => Seq::empty(),
            }
        }
    }
}

pub open spec fn cli_hint(root: Seq<char>, profile: Seq<char>) -> Seq<char> {
    "no host binaries found under "@ + root + "/target/"@ + profile + "\nhint: run `cargo build --"@
        + profile + "` (or set build_command), then retry; or pass --artifact <path>"@
}

/// `cargo build` arguments for a profile: none extra for `debug` / `dev`, `--release`, or
/// `--profile <p>`.
pub open spec fn cargo_profile_args(profile: Seq<char>) -> Seq<Seq<char>> {
    if profile == "debug"@ || profile == "dev"@ {
        seq!["build"@]
    } else if profile == "release"@ {
        seq!["build"@, "--release"@]
    } else {
        seq!["build"@, "--profile"@, profile]
    }
}

/// The CLI build: `cargo build` for the profile by default (when cargo is on `PATH`), else
/// the whitespace-separated words of `build_command`; then `extra_args`.
pub open spec fn cli_build_plan(
    build_command: Seq<char>,
    profile: Seq<char>,
    extra_args: Seq<Seq<char>>,
    cargo_found: bool,
) -> Result<(Seq<char>, Seq<Seq<char>>), Seq<char>> {
    let t = trim(build_command);
    if t.len() == 0 {
        if cargo_found {
            Ok(("cargo"@, cargo_profile_args(profile) + extra_args))
        } else {
            Err("cargo not found on PATH — install Rust from https://rustup.rs/"@)
        }
    } else {
        let parts = whitespace_words(t);
        if parts.len() == 0 {
            Err("[project].build_command is empty after parse"@)
        } else {
            Ok((parts[0], parts.drop_first() + extra_args))
        }
    }
}

fn is_noise(l: &Vec<char>) -> (r: bool)
    ensures
        r == noise_name(l@),
{
    vec_ends_with(l, &chars_of(".pdb")) || vec_ends_with(l, &chars_of(".d")) || vec_ends_with(
        l,
        &chars_of(".rlib"),
    ) || vec_ends_with(l, &chars_of(".rmeta")) || vec_ends_with(l, &chars_of(".dll"))
        || vec_ends_with(l, &chars_of(".so")) || vec_ends_with(l, &chars_of(".dylib"))
        || vec_ends_with(l, &chars_of(".lib")) || vec_ends_with(l, &chars_of(".exp"))
        || vec_starts_with(l, &chars_of("."))
}

/// Whether a file called `name` is a host binary (see `host_bin_name`).
pub fn is_host_bin(name: &Vec<char>, executable: bool, host_windows: bool) -> (r: bool)
    ensures
        r == host_bin_name(name@, executable, host_windows),
{
    let l = lower_vec(name);
    if is_noise(&l) {
        return false;
    }
    let exe = vec_ends_with(&l, &chars_of(".exe"));
    if vec_contains(name, &chars_of(".")) && !exe {
        return false;
    }
    if host_windows {
        exe
    } else {
        exe || executable
    }
}

/// Host binaries directly in `dir`.
pub fn collect_bins_in_dir(fs: &FsSnapshot, dir: &str, host_windows: bool) -> (r: Vec<Artifact>)
    ensures
        artifacts_view(r@) == bins_list(listing(fs@, dir@), host_windows),
{
    let es = fs.read_dir(dir);
    let ghost esv = es@.map_values(|e: FsEntry| e@);
    let mut out: Vec<Artifact> = Vec::new();
    let mut i: usize = 0;
    assert(esv.take(0) =~= Seq::<EntryV>::empty());
    assert(artifacts_view(out@) =~= bins_list(esv.take(0), host_windows));
    while i < es.len()
        invariant
            i <= es.len(),
            esv == es@.map_values(|e: FsEntry| e@),
            artifacts_view(out@) == bins_list(esv.take(i as int), host_windows),
        decreases es.len() - i,
    {
        let e = &es[i];
        proof {
            assert(esv[i as int] == e@);
            assert(esv.take(i + 1).drop_last() =~= esv.take(i as int));
            assert(esv.take(i + 1).last() == e@);
        }
        let ghost mid = artifacts_view(out@);
        if e.is_dir {
            assert(artifacts_view(out@) =~= mid + Seq::<ArtifactV>::empty());
        } else {
            match file_name_vec(&chars_of(e.path.as_str())) {
                Some(n) => {
                    if is_host_bin(&n, e.executable, host_windows) {
                        let kind = ArtifactKind::classify_explicit(e.path.as_str());
                        out.push(Artifact { path: e.path.clone(), kind, name_for_sums: string_of(&n) });
                        assert(artifacts_view(out@) =~= mid + seq![
                            ArtifactV { path: e.path@, kind: classify_explicit_spec(e.path@), name: n@ },
                        ]);
                    } else {
                        assert(artifacts_view(out@) =~= mid + Seq::<ArtifactV>::empty());
                    }
                },
                None => {
                    assert(artifacts_view(out@) =~= mid + Seq::<ArtifactV>::empty());
                },
            }
        }
        i = i + 1;
        assert(artifacts_view(out@) =~= bins_list(esv.take(i as int), host_windows));
    }
    assert(esv.take(es.len() as int) =~= esv);
    out
}

fn search(fs: &FsSnapshot, dir: &Vec<char>, profile: &str, host_windows: bool, steps: usize) -> (r: Vec<Artifact>)
    ensures
        artifacts_view(r@) == cli_search(fs@, dir@, profile@, host_windows, steps as nat),
    decreases steps,
{
    if steps == 0 {
        let out: Vec<Artifact> = Vec::new();
        assert(artifacts_view(out@) =~= Seq::<ArtifactV>::empty());
        return out;
    }
    let d = string_of(dir);
    let t = join_str(d.as_str(), "target");
    let cand = join_str(t.as_str(), profile);
    if fs.is_dir(cand.as_str()) {
        let found = collect_bins_in_dir(fs, cand.as_str(), host_windows);
        if found.len() > 0 {
            return found;
        }
    }
    match parent_vec(dir) {
        Some(p) => search(fs, &p, profile, host_windows, steps - 1),
        None => {
            let out: Vec<Artifact> = Vec::new();
            assert(artifacts_view(out@) =~= Seq::<ArtifactV>::empty());
            out
        },
    }
}

/// Host binaries under `app_root/target/<profile>`, or, when there are none, under the
/// first `target/<profile>` of an enclosing directory that has some (six directories in all).
pub fn discover_cli_binaries(app_root: &str, profile: &str, host_windows: bool, fs: &FsSnapshot) -> (r: Vec<Artifact>)
    ensures
        artifacts_view(r@) == cli_search(fs@, app_root@, profile@, host_windows, 6),
{
    search(fs, &chars_of(app_root), profile, host_windows, 6)
}

/// The decision part of the CLI build, given whether `cargo` is on `PATH`.
pub fn cli_build_argv(build_command: &str, profile: &str, extra_args: &[String], cargo_found: bool) -> (r: Result<(String, Vec<String>), String>)
    ensures
        plan_view(r) == cli_build_plan(build_command@, profile@, string_views(extra_args@), cargo_found),
{
    let t = trim_vec(&chars_of(build_command));
    if t.len() == 0 {
        if !cargo_found {
            return Err(string_from("cargo not found on PATH — install Rust from https://rustup.rs/"));
        }
        let mut words: Vec<String> = Vec::new();
        words.push(string_from("cargo"));
        words.push(string_from("build"));
        let p = chars_of(profile);
        if !vec_eq(&p, &chars_of("debug")) && !vec_eq(&p, &chars_of("dev")) {
            if vec_eq(&p, &chars_of("release")) {
                words.push(string_from("--release"));
            } else {
                words.push(string_from("--profile"));
                words.push(string_from(profile));
            }
        }
        assert(string_views(words@).drop_first() =~= cargo_profile_args(profile@));
        let args = tail_then(&words, extra_args);
        return Ok((string_from("cargo"), args));
    }
    let ts = string_of(&t);
    let parts = split_whitespace(ts.as_str());
    if parts.len() == 0 {
        return Err(string_from("[project].build_command is empty after parse"));
    }
    let args = tail_then(&parts, extra_args);
    Ok((parts[0].clone(), args))
}

impl CliAdapter {
    pub fn app_root(&self, ctx: &ProjectCtx) -> (r: String)
        ensures
            r@ == ctx_app_root(*ctx),
    {
        app_root_of(ctx)
    }

    /// The build to run in the app root; `cargo` is looked up on `PATH` only for the
    /// default build.
    pub fn build_plan(&self, build_command: &str, profile: &str, extra_args: &[String]) -> (r: Result<(String, Vec<String>), String>)
        ensures
            plan_view(r) == cli_build_plan(build_command@, profile@, string_views(extra_args@), true)
                || plan_view(r) == cli_build_plan(build_command@, profile@, string_views(extra_args@), false),
            trim(build_command@).len() > 0 ==> plan_view(r) == cli_build_plan(
                build_command@,
                profile@,
                string_views(extra_args@),
                true,
            ),
    {
        let t = trim_vec(&chars_of(build_command));
        let found = if t.len() == 0 {
            on_path("cargo")
        } else {
            true
        };
        cli_build_argv(build_command, profile, extra_args, found)
    }
}

impl FrameworkAdapter for CliAdapter {
    fn id(&self) -> (r: &'static str)
        ensures
            r@ == "cli"@,
    {
        "cli"
    }

    fn label_root(&self, ctx: &ProjectCtx) -> (r: String)
        ensures
            r@ == ctx_app_root(*ctx),
    {
        app_root_of(ctx)
    }

    fn discover(&self, ctx: &ProjectCtx, profile: &str, fs: &FsSnapshot) -> (r: Vec<Artifact>)
        ensures
            artifacts_view(r@) == cli_search(fs@, ctx_app_root(*ctx), profile@, self.host_windows, 6),
    {
        let root = app_root_of(ctx);
        discover_cli_binaries(root.as_str(), profile, self.host_windows, fs)
    }

    fn empty_hint(&self, ctx: &ProjectCtx, profile: &str) -> (r: String)
        ensures
            r@ == cli_hint(ctx_app_root(*ctx), profile@),
    {
        let root = app_root_of(ctx);
        let mut s = around("no host binaries found under ", root.as_str(), "/target/");
        push_str(&mut s, profile);
        push_str(&mut s, "\nhint: run `cargo build --");
        push_str(&mut s, profile);
        push_str(&mut s, "` (or set build_command), then retry; or pass --artifact <path>");
        s
    }
}

} // verus!
