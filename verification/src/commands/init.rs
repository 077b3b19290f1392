//! `signet init`: the config it writes and the `.gitignore` line that keeps secrets out of git.
use vstd::prelude::*;

use crate::config::{config_error_text, Config, ConfigError, defaults_except_project};
use crate::text::{chars_of, ends_with, lines, lines_vec, push_str, string_from, string_of, trim, trim_vec, vec_eq};

verus! {

/// Arguments of `signet init`.
#[derive(Debug)]
pub struct Args {
    /// Application / release name written into signet.toml
    pub name: String,
    /// Path to Tauri app root (directory containing src-tauri), relative to cwd
    pub tauri_root: String,
    /// Framework adapter id (tauri, electron, flutter, …)
    pub framework: String,
    /// Optional build argv (required for some hybrid / iOS adapters)
    pub build_command: String,
    /// Directory to write config into (default: current directory)
    pub path: String,
    /// Overwrite existing signet.toml
    pub force: bool,
}

/// Refuses to overwrite an existing config without `--force`.
pub fn check_overwrite(config_path: &str, present: bool, force: bool) -> (r: Result<(), String>)
    ensures
        r is Ok <==> (!present || force),
        r matches Err(e) ==> e@ == config_path@ + " already exists (pass --force to overwrite)"@,
{
    if present && !force {
        let mut m = string_from(config_path);
        push_str(&mut m, " already exists (pass --force to overwrite)");
        Err(m)
    } else {
        Ok(())
    }
}

/// The config `init` writes: the example config for `name` / `tauri_root`, with the
/// trimmed framework (`tauri` when blank) and the build command.
pub fn init_config(name: &str, tauri_root: &str, framework: &str, build_command: String) -> (r: Config)
    ensures
        r.project.name@ == name@,
        r.project.app_root@ == tauri_root@,
        r.project.framework@ == (if trim(framework@).len() == 0 {
            "tauri"@
        } else {
            trim(framework@)
        }),
        r.project.build_command@ == build_command@,
        defaults_except_project(r),
{
    let mut config = Config::example(name, tauri_root);
    let f = trim_vec(&chars_of(framework));
    config.project.framework = if f.len() == 0 {
        string_from("tauri")
    } else {
        string_of(&f)
    };
    config.project.build_command = build_command;
    config
}

/// A line of `.gitignore` that already covers the secrets directory `dir`.
pub open spec fn covers_dir(line: Seq<char>, dir: Seq<char>) -> bool {
    trim(line) == dir || trim(line) == dir + "/"@
}

pub open spec fn has_cover(ls: Seq<Seq<char>>, dir: Seq<char>) -> bool {
    exists|i: int| 0 <= i < ls.len() && covers_dir(#[trigger] ls[i], dir)
}

/// The new `.gitignore` text, or `None` when the secrets directory is already ignored.
/// A missing file gets `header` then `<dir>/`; an existing one gets `<dir>/` appended on a
/// line of its own.
pub open spec fn gitignore_update_spec(existing: Option<Seq<char>>, dir: Seq<char>, header: Seq<char>) -> Option<Seq<char>> {
    match existing {
        None => Some(header + dir + "/\n"@),
        Some(c) => if has_cover(lines(c), dir) {
            None
        } else {
            Some(
                c + (if c.len() > 0 && !ends_with(c, "\n"@) {
                    "\n"@
                } else {
                    Seq::empty()
                }) + dir + "/\n"@,
            )
        },
    }
}

pub fn gitignore_update(existing: &Option<String>, dir: &str, header: &str) -> (r: Option<String>)
    ensures
        match (r, gitignore_update_spec(
            match existing {
                Some(s) => Some(s@),
                None => None,
            },
            dir@,
            header@,
        )) {
            (Some(a), Some(b)) => a@ == b,
            (None, None) => true,
            _ => false,
        },
{
    match existing {
        None => {
            let mut t = string_from(header);
            push_str(&mut t, dir);
            push_str(&mut t, "/\n");
            Some(t)
        },
        Some(c) => {
            let cv = chars_of(c.as_str());
            let ls = lines_vec(&cv);
            let ghost lv = ls@.map_values(|l: Vec<char>| l@);
            let d = chars_of(dir);
            let mut with_slash = chars_of(dir);
            with_slash.push('/');
            proof {
                reveal_strlit("/");
            }
            assert(with_slash@ =~= dir@ + "/"@);
            let mut i: usize = 0;
            while i < ls.len()
                invariant
                    i <= ls.len(),
                    lv == ls@.map_values(|l: Vec<char>| l@),
                    lv == lines(c@),
                    *existing == Some::<String>(*c),
                    d@ == dir@,
                    with_slash@ == dir@ + "/"@,
                    forall|j: int| 0 <= j < i ==> !covers_dir(#[trigger] lv[j], dir@),
                decreases ls.len() - i,
            {
                let t = trim_vec(&ls[i]);
                assert(lv[i as int] == ls@[i as int]@);
                if vec_eq(&t, &d) || vec_eq(&t, &with_slash) {
                    assert(covers_dir(lv[i as int], dir@));
                    assert(has_cover(lines(c@), dir@));
                    return None;
                }
                i = i + 1;
            }
            assert(!has_cover(lines(c@), dir@));
            let mut next = c.clone();
            if cv.len() > 0 && !crate::text::vec_ends_with(&cv, &chars_of("\n")) {
                push_str(&mut next, "\n");
            }
            push_str(&mut next, dir);
            push_str(&mut next, "/\n");
            Some(next)
        },
    }
}

/// The README placed in a new secrets directory.
pub fn secrets_readme_text() -> (r: &'static str)
    ensures
        r@ == "# signet secrets\n\nThis directory holds private key material. Do not commit it.\n\nSee `docs/secrets-layout.md` in the signet repository for the layout.\nRun `signet identity create` to generate a local signing cert + key.\n"@,
{
    "# signet secrets\n\nThis directory holds private key material. Do not commit it.\n\nSee `docs/secrets-layout.md` in the signet repository for the layout.\nRun `signet identity create` to generate a local signing cert + key.\n"
}

/// The config at the resolved path, given what loading it gave; the error as text.
pub fn load_config(config_path: String, loaded: Result<Config, ConfigError>) -> (r: Result<(String, Config), String>)
    ensures
        match (r, loaded) {
            (Ok((p, c)), Ok(l)) => p@ == config_path@ && c == l,
            (Err(e), Err(le)) => e@ == config_error_text(le),
            _ => false,
        },
{
    match loaded {
        Ok(c) => Ok((config_path, c)),
        Err(e) => Err(e.message()),
    }
}

} // verus!
