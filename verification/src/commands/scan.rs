//! `signet scan`: the subcommand's arguments, and what `--apply` makes of the suggestion.
use vstd::prelude::*;

use crate::argv::string_views;
use crate::commands::doctor::{join_comma, join_comma_vec};
use crate::config::{
    default_sections, defaults_except_project, same_but_project, same_but_project_platforms, targets_view, Config,
    Platforms, Project, Target, TargetV,
};
use crate::scan::report::{relativize, relativize_spec};
use crate::text::{decimal, push_decimal, push_str, string_from, trim, trim_vec, chars_of};

verus! {

/// Arguments of `signet scan`.
#[derive(Debug)]
pub struct Args {
    /// Repository root to scan (default: current directory)
    pub path: String,
    /// Print JSON report
    pub json: bool,
    /// Write / update signet.toml from the suggested desktop signing config
    pub apply: bool,
    /// Overwrite project name / app_root / framework from scan when using --apply
    pub force: bool,
}

/// The desktop signing config a scan suggests.
#[derive(Debug, Clone)]
pub struct Suggestion {
    pub project_name: String,
    pub app_root: String,
    pub framework: String,
    pub windows: bool,
    pub macos: bool,
    pub linux: bool,
    pub android: bool,
    pub ios: bool,
}

/// One detected app, as `--apply` drafts it into `[[targets]]`.
#[derive(Debug, Clone)]
pub struct FoundApp {
    /// Framework adapter id of the app's kind.
    pub framework: String,
    pub path: String,
    pub name: Option<String>,
}

/// A line `--apply` prints: a note, or a confirmation after a blank line.
#[derive(Debug, Clone, PartialEq, Eq)]
pub enum ApplyMessage {
    Note(String),
    Done(String),
}

/// What `--apply` writes and says. `fresh` is set when there was no config: the caller
/// then also creates the secrets directory, its README and the `.gitignore` entry.
#[derive(Debug)]
pub struct ApplyOutcome {
    pub config: Config,
    pub fresh: bool,
    pub messages: Vec<ApplyMessage>,
}

pub open spec fn suggested_platforms(s: Suggestion) -> Platforms {
    Platforms { windows: s.windows, macos: s.macos, linux: s.linux }
}

/// The fields filled when updating without `--force`: those left blank.
pub open spec fn filled_fields(c: Config) -> Seq<Seq<char>> {
    (if trim(c.project.framework@).len() == 0 {
        seq!["framework"@]
    } else {
        Seq::empty()
    }) + (if trim(c.project.app_root@).len() == 0 {
        seq!["app_root"@]
    } else {
        Seq::empty()
    })
}

pub open spec fn update_message(filled: Seq<Seq<char>>) -> Seq<char> {
    if filled.len() == 0 {
        "updated platforms in signet.toml (use --force to also replace name/app_root/framework)"@
    } else {
        "updated platforms + filled "@ + join_comma(filled) + " (use --force to replace existing fields)"@
    }
}

pub open spec fn multi_note() -> Seq<char> {
    "multiple projects detected — wrote [[targets]] draft (edit ids/build_command as needed)"@
}

pub open spec fn mobile_note() -> Seq<char> {
    "android/ios detected but not stored in [platforms] — desktop self-sign only"@
}

/// The `[[targets]]` entry drafted for the `i`-th detected app.
pub open spec fn draft_target(root: Seq<char>, a: FoundApp, i: int) -> TargetV {
    TargetV {
        id: match a.name {
            Some(n) => if n@.len() > 0 {
                n@
            } else {
                "target"@ + decimal((i + 1) as nat)
            },
            None => "target"@ + decimal((i + 1) as nat),
        },
        framework: a.framework@,
        app_root: relativize_spec(root, a.path@),
        build_command: Seq::empty(),
    }
}

/// Drafts for the first eight detected apps, in order.
pub open spec fn draft_targets(root: Seq<char>, apps: Seq<FoundApp>) -> Seq<TargetV> {
    Seq::new(
        if apps.len() < 8 {
            apps.len()
        } else {
            8
        },
        |i: int| draft_target(root, apps[i], i),
    )
}

pub open spec fn messages_view(v: Seq<ApplyMessage>) -> Seq<(bool, Seq<char>)> {
    v.map_values(
        |m: ApplyMessage|
            match m {
                ApplyMessage::Note(t) => (false, t@),
                ApplyMessage::Done(t) => (true, t@),
            },
    )
}

pub fn draft_targets_vec(root: &str, apps: &[FoundApp]) -> (r: Vec<Target>)
    ensures
        targets_view(r@) == draft_targets(root@, apps@),
{
    let n: usize = if apps.len() < 8 {
        apps.len()
    } else {
        8
    };
    let mut out: Vec<Target> = Vec::new();
    let mut i: usize = 0;
    while i < n
        invariant
            i <= n,
            n <= apps.len(),
            n == (if apps.len() < 8 { apps.len() } else { 8 }),
            targets_view(out@) == draft_targets(root@, apps@).take(i as int),
        decreases n - i,
    {
        let a = &apps[i];
        let id = match &a.name {
            Some(nm) => {
                if chars_of(nm.as_str()).len() > 0 {
                    nm.clone()
                } else {
                    let mut t = string_from("target");
                    push_decimal(&mut t, (i as u64) + 1);
                    t
                }
            },
            None => {
                let mut t = string_from("target");
                push_decimal(&mut t, (i as u64) + 1);
                t
            },
        };
        let t = Target {
            id,
            framework: a.framework.clone(),
            app_root: relativize(root, a.path.as_str()),
            build_command: String::new(),
        };
        let ghost before = targets_view(out@);
        out.push(t);
        assert(targets_view(out@) =~= before.push(draft_target(root@, apps@[i as int], i as int)));
        assert(draft_targets(root@, apps@).take(i + 1) =~= draft_targets(root@, apps@).take(
            i as int,
        ).push(draft_target(root@, apps@[i as int], i as int)));
        i = i + 1;
    }
    assert(draft_targets(root@, apps@).take(n as int) =~= draft_targets(root@, apps@));
    out
}

fn blank_fields(c: &Config) -> (r: Vec<String>)
    ensures
        string_views(r@) == filled_fields(*c),
{
    let mut v: Vec<String> = Vec::new();
    let fw = trim_vec(&chars_of(c.project.framework.as_str()));
    if fw.len() == 0 {
        v.push(string_from("framework"));
    }
    let ar = trim_vec(&chars_of(c.project.app_root.as_str()));
    if ar.len() == 0 {
        v.push(string_from("app_root"));
    }
    assert(string_views(v@) =~= filled_fields(*c));
    v
}

/// What `signet scan --apply` does with the suggestion. `existing` is the current
/// `signet.toml` when there is one. Without `--force` it gets the suggested platforms and
/// only its blank framework / app_root filled; with `--force` its name, app_root and
/// framework are replaced too. Without a config, a fresh one is drafted from the
/// suggestion, with `[[targets]]` for up to eight apps when more than one was detected.
pub fn apply_suggestion(root: &str, existing: Option<Config>, s: &Suggestion, apps: &[FoundApp], force: bool) -> (r: ApplyOutcome)
    ensures
        r.config.platforms == suggested_platforms(*s),
        r.fresh == existing.is_none(),
        match existing {
            Some(c) => if !force {
                &&& r.config.project.name@ == c.project.name@
                &&& r.config.project.build_command@ == c.project.build_command@
                &&& r.config.project.framework@ == (if trim(c.project.framework@).len() == 0 {
                    s.framework@
                } else {
                    c.project.framework@
                })
                &&& r.config.project.app_root@ == (if trim(c.project.app_root@).len() == 0 {
                    s.app_root@
                } else {
                    c.project.app_root@
                })
                &&& same_but_project_platforms(r.config, c)
                &&& messages_view(r.messages@).take(1) == seq![(true, update_message(filled_fields(c)))]
            } else {
                &&& r.config.project.name@ == s.project_name@
                &&& r.config.project.app_root@ == s.app_root@
                &&& r.config.project.framework@ == s.framework@
                &&& r.config.project.build_command@ == c.project.build_command@
                &&& same_but_project_platforms(r.config, c)
                &&& messages_view(r.messages@).take(1) == seq![(true, "rewrote project + platforms in signet.toml"@)]
            },
            None => {
                &&& r.config.project.name@ == s.project_name@
                &&& r.config.project.app_root@ == s.app_root@
                &&& r.config.project.framework@ == s.framework@
                &&& r.config.project.build_command@.len() == 0
                &&& default_sections(r.config)
                &&& targets_view(r.config.targets@) == (if apps.len() > 1 {
                    draft_targets(root@, apps@)
                } else {
                    Seq::empty()
                })
                &&& messages_view(r.messages@).take(if apps.len() > 1 { 2int } else { 1int }) == (if apps.len() > 1 {
                    seq![(false, multi_note()), (true, "wrote signet.toml from scan suggestion (desktop platforms only)"@)]
                } else {
                    seq![(true, "wrote signet.toml from scan suggestion (desktop platforms only)"@)]
                })
            },
        },
        messages_view(r.messages@).len() == (match existing {
            None => if apps.len() > 1 { 2int } else { 1int },
            Some(_) => 1int,
        }) + (if s.android || s.ios { 1int } else { 0int }),
        (s.android || s.ios) ==> messages_view(r.messages@).last() == (false, mobile_note()),
{
    let platforms = Platforms { windows: s.windows, macos: s.macos, linux: s.linux };
    let fresh = existing.is_none();
    let mut messages: Vec<ApplyMessage> = Vec::new();
    let mut config = match existing {
        Some(c) => {
            if !force {
                let filled = blank_fields(&c);
                let fw = if trim_vec(&chars_of(c.project.framework.as_str())).len() == 0 {
                    s.framework.clone()
                } else {
                    c.project.framework.clone()
                };
                let ar = if trim_vec(&chars_of(c.project.app_root.as_str())).len() == 0 {
                    s.app_root.clone()
                } else {
                    c.project.app_root.clone()
                };
                let project = Project {
                    name: c.project.name.clone(),
                    app_root: ar,
                    framework: fw,
                    build_command: c.project.build_command.clone(),
                };
                let mut cfg = c.with_project(project);
                cfg.platforms = platforms;
                let msg = if filled.len() == 0 {
                    string_from("updated platforms in signet.toml (use --force to also replace name/app_root/framework)")
                } else {
                    let mut m = string_from("updated platforms + filled ");
                    push_str(&mut m, join_comma_vec(&filled).as_str());
                    push_str(&mut m, " (use --force to replace existing fields)");
                    m
                };
                messages.push(ApplyMessage::Done(msg));
                cfg
            } else {
                let project = Project {
                    name: s.project_name.clone(),
                    app_root: s.app_root.clone(),
                    framework: s.framework.clone(),
                    build_command: c.project.build_command.clone(),
                };
                let mut cfg = c.with_project(project);
                cfg.platforms = platforms;
                messages.push(ApplyMessage::Done(string_from("rewrote project + platforms in signet.toml")));
                cfg
            }
        },
        None => {
            let mut cfg = Config::example(s.project_name.as_str(), s.app_root.as_str());
            cfg.project.framework = s.framework.clone();
            cfg.platforms = platforms;
            if apps.len() > 1 {
                cfg.targets = draft_targets_vec(root, apps);
                messages.push(ApplyMessage::Note(string_from(
                    "multiple projects detected — wrote [[targets]] draft (edit ids/build_command as needed)",
                )));
            }
            messages.push(ApplyMessage::Done(string_from(
                "wrote signet.toml from scan suggestion (desktop platforms only)",
            )));
            cfg
        },
    };
    let ghost before = messages_view(messages@);
    if s.android || s.ios {
        messages.push(ApplyMessage::Note(string_from(
            "android/ios detected but not stored in [platforms] — desktop self-sign only",
        )));
    }
    proof {
        if s.android || s.ios {
            assert(messages_view(messages@) =~= before.push((false, mobile_note())));
            assert(messages_view(messages@).take(before.len() as int) =~= before);
        } else {
            assert(messages_view(messages@) =~= before);
        }
    }
    ApplyOutcome { config, fresh, messages }
}

/// The README written into a secrets directory created by `scan --apply`.
pub fn scan_secrets_readme_text() -> (r: &'static str)
    ensures
        r@ == "# signet secrets\n\nDo not commit private keys.\n"@,
{
    "# signet secrets\n\nDo not commit private keys.\n"
}

} // verus!
