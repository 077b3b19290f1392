//! Project root, config, and secrets paths from `signet.toml`.
use vstd::prelude::*;

use crate::config::{
    default_target, resolve_targets, same_but_project, targets_view, Config, ConfigError, Project,
    Target,
};
use crate::paths::{join, join_str, parent, parent_vec};
use crate::text::{chars_of, string_from, string_of, trim, trim_vec};

verus! {

#[derive(Debug)]
pub struct ProjectCtx {
    pub config_path: String,
    /// Directory containing `signet.toml`
    pub root: String,
    pub config: Config,
}

/// Effective `[project].framework`: explicit config wins; omitted/blank → what a scan of the
/// root prefers (`scanned`), else `tauri`.
pub open spec fn resolve_framework_spec(framework: Seq<char>, scanned: Option<Seq<char>>) -> Seq<char> {
    if trim(framework).len() > 0 {
        trim(framework)
    } else {
        match scanned {
            Some(f) => f,
            None => "tauri"@,
        }
    }
}

pub open spec fn opt_string_view(o: Option<String>) -> Option<Seq<char>> {
    match o {
        Some(s) => Some(s@),
        None => None,
    }
}

/// Effective framework; `scanned` is the framework id of the project a repository scan
/// prefers (`None` when the scan failed or found none).
pub fn resolve_framework(config: &Config, scanned: Option<String>) -> (r: String)
    ensures
        r@ == resolve_framework_spec(config.project.framework@, opt_string_view(scanned)),
{
    let fw = trim_vec(&chars_of(config.project.framework.as_str()));
    if fw.len() > 0 {
        return string_of(&fw);
    }
    match scanned {
        Some(f) => f,
        None => string_from("tauri"),
    }
}

/// The directory holding the config file: its parent, or `.` when that is empty.
pub open spec fn config_root(config_path: Seq<char>) -> Seq<char> {
    match parent(config_path) {
        Some(p) => if p.len() > 0 {
            p
        } else {
            "."@
        },
        None => "."@,
    }
}

pub fn config_root_of(config_path: &str) -> (r: String)
    ensures
        r@ == config_root(config_path@),
{
    match parent_vec(&chars_of(config_path)) {
        Some(p) => if p.len() > 0 {
            string_of(&p)
        } else {
            string_from(".")
        },
        None => string_from("."),
    }
}

impl ProjectCtx {
    /// The context for the config at `config_path`, given what loading it gave.
    pub fn load(config_path: &str, loaded: Result<Config, ConfigError>) -> (r: Result<Self, ConfigError>)
        ensures
            loaded matches Err(e) ==> r == Err::<Self, ConfigError>(e),
            r matches Ok(c) ==> (c.config_path@ == config_path@ && c.root@ == config_root(
                config_path@,
            ) && loaded == Ok::<Config, ConfigError>(c.config)),
            loaded is Ok ==> r is Ok,
    {
        let config = match loaded {
            Ok(c) => c,
            Err(e) => {
                return Err(e);
            },
        };
        let root = config_root_of(config_path);
        Ok(ProjectCtx { config_path: string_from(config_path), root, config })
    }

    pub fn framework(&self, scanned: Option<String>) -> (r: String)
        ensures
            r@ == resolve_framework_spec(self.config.project.framework@, opt_string_view(scanned)),
    {
        resolve_framework(&self.config, scanned)
    }

    pub fn secrets_dir(&self) -> (r: String)
        ensures
            r@ == join(self.root@, self.config.secrets_dir@),
    {
        self.config.secrets_path(self.root.as_str())
    }

    /// Targets to build (see `resolve_targets`).
    pub fn targets(&self) -> (r: Vec<Target>)
        ensures
            self.config.targets@.len() > 0 ==> targets_view(r@) == targets_view(self.config.targets@),
            self.config.targets@.len() == 0 ==> targets_view(r@) == seq![default_target(self.config)],
    {
        resolve_targets(&self.config)
    }

    /// The context for one target: `[project]` takes the target's framework and app root,
    /// and its build command when it sets one (else keeps the project's).
    pub fn with_target(&self, target: &Target) -> (r: ProjectCtx)
        ensures
            r.config_path@ == self.config_path@,
            r.root@ == self.root@,
            r.config.project.name@ == self.config.project.name@,
            r.config.project.framework@ == target.framework@,
            r.config.project.app_root@ == target.app_root@,
            r.config.project.build_command@ == (if trim(target.build_command@).len() > 0 {
                target.build_command@
            } else {
                self.config.project.build_command@
            }),
            same_but_project(r.config, self.config),
    {
        let has_cmd = trim_vec(&chars_of(target.build_command.as_str())).len() > 0;
        let project = Project {
            name: self.config.project.name.clone(),
            app_root: target.app_root.clone(),
            framework: target.framework.clone(),
            build_command: if has_cmd {
                target.build_command.clone()
            } else {
                self.config.project.build_command.clone()
            },
        };
        ProjectCtx {
            config_path: self.config_path.clone(),
            root: self.root.clone(),
            config: self.config.with_project(project),
        }
    }

    pub fn identity_root(&self) -> (r: String)
        ensures
            r@ == join(join(self.root@, self.config.secrets_dir@), "identity"@),
    {
        let s = self.secrets_dir();
        join_str(s.as_str(), "identity")
    }
}

} // verus!
