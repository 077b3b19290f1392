//! Non-secret project configuration (`signet.toml`) and its targets.
use vstd::prelude::*;

use crate::argv::string_views;
use crate::fs::{fs_exists, str_eq, FsSnapshot};
use crate::paths::{join, join_str};
use crate::text::{chars_of, push_str, string_from, trim, trim_vec};

verus! {

pub const CONFIG_FILE_NAME: &'static str = "signet.toml";

pub const SECRETS_DIR_NAME: &'static str = ".signet";

/// Why a config could not be had.
#[derive(Debug)]
pub enum ConfigError {
    /// No file at the path.
    NotFound(String),
    /// Reading the file failed (the I/O error's text).
    Io(String),
    /// The TOML did not parse into a config (the parser's text).
    Parse(String),
    /// The config could not be written as TOML (the serializer's text).
    Serialize(String),
}

/// The error's text, as it is shown to the user.
pub open spec fn config_error_text(e: ConfigError) -> Seq<char> {
    match e {
        ConfigError::NotFound(p) => "config not found at "@ + p@,
        ConfigError::Io(t) => "failed to read config: "@ + t@,
        ConfigError::Parse(t) => "invalid config TOML: "@ + t@,
        ConfigError::Serialize(t) => "failed to serialize config: "@ + t@,
    }
}

impl ConfigError {
    /// The error's text.
    pub fn message(&self) -> (r: String)
        ensures
            r@ == config_error_text(*self),
    {
        let (head, t) = match self {
            ConfigError::NotFound(p) => ("config not found at ", p),
            ConfigError::Io(t) => ("failed to read config: ", t),
            ConfigError::Parse(t) => ("invalid config TOML: ", t),
            ConfigError::Serialize(t) => ("failed to serialize config: ", t),
        };
        let mut m = string_from(head);
        push_str(&mut m, t.as_str());
        m
    }
}

/// The text `Config::write` puts in the file: a comment header, then the TOML.
pub open spec fn config_file_text_spec(toml: Seq<char>) -> Seq<char> {
    "# signet project config (safe to commit)\n# Private keys live under secrets_dir — see docs/secrets-layout.md\n\n"@
        + toml
}

pub fn config_file_text(toml: &str) -> (r: String)
    ensures
        r@ == config_file_text_spec(toml@),
{
    let mut s = string_from("# signet project config (safe to commit)\n# Private keys live under secrets_dir — see docs/secrets-layout.md\n\n");
    push_str(&mut s, toml);
    s
}

/// Checked-in project config. Never store private keys here.
#[derive(Debug)]
pub struct Config {
    pub project: Project,
    pub platforms: Platforms,
    pub release: Release,
    /// Relative path to the secrets directory (gitignored). Default: `.signet`
    pub secrets_dir: String,
    /// Optional trust-tier declaration and notes for TRUST.md / doctor.
    pub trust: Trust,
    /// Optional OV / Azure / Apple notarization helper settings (no secrets).
    pub graduation: Graduation,
    /// Optional monorepo ship targets. Empty → synthesize one from `[project]`.
    pub targets: Vec<Target>,
}

/// One shippable app/framework under a repo-level `signet.toml`.
#[derive(Debug)]
pub struct Target {
    pub id: String,
    pub framework: String,
    pub app_root: String,
    pub build_command: String,
}

pub struct TargetV {
    pub id: Seq<char>,
    pub framework: Seq<char>,
    pub app_root: Seq<char>,
    pub build_command: Seq<char>,
}

impl View for Target {
    type V = TargetV;

    open spec fn view(&self) -> TargetV {
        TargetV {
            id: self.id@,
            framework: self.framework@,
            app_root: self.app_root@,
            build_command: self.build_command@,
        }
    }
}

pub open spec fn targets_view(v: Seq<Target>) -> Seq<TargetV> {
    v.map_values(|t: Target| t@)
}

/// Reputation graduation helpers — paths and public ids only.
#[derive(Debug)]
pub struct Graduation {
    /// Windows OV cert SHA-1 thumbprint (hex). Prefer env override for CI.
    pub ov_thumbprint: String,
    /// Default Authenticode timestamp URL for `graduate ov-sign`.
    pub timestamp_url: String,
    pub azure: GraduationAzure,
    pub apple: GraduationApple,
}

#[derive(Debug)]
pub struct GraduationAzure {
    pub dlib: String,
    pub metadata: String,
    pub timestamp_url: String,
}

#[derive(Debug)]
pub struct GraduationApple {
    pub keychain_profile: String,
}

#[derive(Debug)]
pub struct Project {
    /// Display / release name
    pub name: String,
    /// App / package root relative to config (legacy TOML key: `tauri_root`).
    pub app_root: String,
    /// Framework adapter id (`tauri` / `electron` / `cli` / …); empty when omitted.
    pub framework: String,
    /// Optional build argv override.
    pub build_command: String,
}

#[derive(Debug, Clone, Copy)]
pub struct Platforms {
    pub windows: bool,
    pub macos: bool,
    pub linux: bool,
}

#[derive(Debug)]
pub struct Release {
    /// Publish to GitHub Releases when `signet release` is used
    pub github: bool,
    /// Optional `owner/repo`. If empty, detected from `git remote get-url origin`.
    pub repo: String,
    /// Attach TRUST.md to the GitHub Release when present
    pub attach_trust: bool,
}

/// Declared trust intent. Does not change host PE/codesign behavior.
#[derive(Debug)]
pub struct Trust {
    /// Optional tier id. When set, overrides inference.
    pub declared_tier: Option<String>,
    /// Extra notes appended to the Trust tier section of TRUST.md.
    pub notes: Vec<String>,
    /// Community checksum signing (minisign / optional GPG).
    pub checksum_signing: ChecksumSigning,
}

/// Sign `SHA256SUMS` for community verify.
#[derive(Debug)]
pub struct ChecksumSigning {
    /// Sign with Signet-managed minisign key under `.signet/sums/` (default true).
    pub minisign: bool,
    /// Opt-in GPG detach-sign → `SHA256SUMS.asc`.
    pub gpg: bool,
    /// Optional GPG key id / fingerprint; empty uses gpg default key.
    pub gpg_key_id: String,
}

pub open spec fn default_ov_timestamp_spec() -> Seq<char> {
    "http://timestamp.digicert.com"@
}

pub open spec fn default_azure_timestamp_spec() -> Seq<char> {
    "http://timestamp.acs.microsoft.com"@
}

pub fn default_ov_timestamp() -> (r: String)
    ensures
        r@ == default_ov_timestamp_spec(),
{
    string_from("http://timestamp.digicert.com")
}

pub fn default_azure_timestamp() -> (r: String)
    ensures
        r@ == default_azure_timestamp_spec(),
{
    string_from("http://timestamp.acs.microsoft.com")
}

pub fn default_secrets_dir() -> (r: String)
    ensures
        r@ == SECRETS_DIR_NAME@,
{
    string_from(SECRETS_DIR_NAME)
}

pub fn default_framework() -> (r: String)
    ensures
        r@ == "tauri"@,
{
    string_from("tauri")
}

pub fn default_true() -> (r: bool)
    ensures
        r,
{
    true
}

impl Default for GraduationAzure {
    fn default() -> (r: Self)
        ensures
            r.dlib@.len() == 0,
            r.metadata@.len() == 0,
            r.timestamp_url@ == default_azure_timestamp_spec(),
    {
        GraduationAzure {
            dlib: String::new(),
            metadata: String::new(),
            timestamp_url: default_azure_timestamp(),
        }
    }
}

impl Default for GraduationApple {
    fn default() -> (r: Self)
        ensures
            r.keychain_profile@.len() == 0,
    {
        GraduationApple { keychain_profile: String::new() }
    }
}

impl Default for Graduation {
    fn default() -> (r: Self)
        ensures
            r.ov_thumbprint@.len() == 0,
            r.timestamp_url@ == default_ov_timestamp_spec(),
            r.azure.dlib@.len() == 0,
            r.azure.metadata@.len() == 0,
            r.azure.timestamp_url@ == default_azure_timestamp_spec(),
            r.apple.keychain_profile@.len() == 0,
    {
        Graduation {
            ov_thumbprint: String::new(),
            timestamp_url: default_ov_timestamp(),
            azure: GraduationAzure::default(),
            apple: GraduationApple::default(),
        }
    }
}

impl Default for ChecksumSigning {
    fn default() -> (r: Self)
        ensures
            r.minisign,
            !r.gpg,
            r.gpg_key_id@.len() == 0,
    {
        ChecksumSigning { minisign: true, gpg: false, gpg_key_id: String::new() }
    }
}

impl Default for Trust {
    fn default() -> (r: Self)
        ensures
            r.declared_tier is None,
            r.notes@.len() == 0,
            r.checksum_signing.minisign,
            !r.checksum_signing.gpg,
            r.checksum_signing.gpg_key_id@.len() == 0,
    {
        Trust {
            declared_tier: None,
            notes: Vec::new(),
            checksum_signing: ChecksumSigning::default(),
        }
    }
}

/// Every field of a config as `Config::default` leaves it, except `[project]`.
pub open spec fn defaults_except_project(c: Config) -> bool {
    &&& c.platforms.windows && c.platforms.macos && c.platforms.linux
    &&& default_sections(c)
    &&& c.targets@.len() == 0
}

/// `[release]`, `secrets_dir`, `[trust]` and `[graduation]` as `Config::default` leaves them.
pub open spec fn default_sections(c: Config) -> bool {
    &&& c.release.github && c.release.repo@.len() == 0 && c.release.attach_trust
    &&& c.secrets_dir@ == SECRETS_DIR_NAME@
    &&& c.trust.declared_tier is None && c.trust.notes@.len() == 0
    &&& c.trust.checksum_signing.minisign && !c.trust.checksum_signing.gpg
    &&& c.trust.checksum_signing.gpg_key_id@.len() == 0
    &&& c.graduation.ov_thumbprint@.len() == 0
    &&& c.graduation.timestamp_url@ == default_ov_timestamp_spec()
    &&& c.graduation.azure.dlib@.len() == 0 && c.graduation.azure.metadata@.len() == 0
    &&& c.graduation.azure.timestamp_url@ == default_azure_timestamp_spec()
    &&& c.graduation.apple.keychain_profile@.len() == 0
}

impl Default for Config {
    fn default() -> (r: Self)
        ensures
            r.project.name@ == "my-app"@,
            r.project.app_root@ == "."@,
            r.project.framework@ == "tauri"@,
            r.project.build_command@.len() == 0,
            defaults_except_project(r),
    {
        Self::example("my-app", ".")
    }
}

impl Config {
    pub fn example(name: &str, app_root: &str) -> (r: Self)
        ensures
            r.project.name@ == name@,
            r.project.app_root@ == app_root@,
            r.project.framework@ == "tauri"@,
            r.project.build_command@.len() == 0,
            defaults_except_project(r),
    {
        Config {
            project: Project {
                name: string_from(name),
                app_root: string_from(app_root),
                framework: default_framework(),
                build_command: String::new(),
            },
            platforms: Platforms { windows: true, macos: true, linux: true },
            release: Release { github: true, repo: String::new(), attach_trust: true },
            secrets_dir: default_secrets_dir(),
            trust: Trust::default(),
            graduation: Graduation::default(),
            targets: Vec::new(),
        }
    }

    pub fn secrets_path(&self, project_root: &str) -> (r: String)
        ensures
            r@ == join(project_root@, self.secrets_dir@),
    {
        join_str(project_root, self.secrets_dir.as_str())
    }
}

/// `a` and `b` agree on everything but `[project]`.
pub open spec fn same_but_project(a: Config, b: Config) -> bool {
    &&& a.platforms == b.platforms
    &&& same_but_project_platforms(a, b)
}

/// `a` and `b` agree on everything but `[project]` and `[platforms]`.
pub open spec fn same_but_project_platforms(a: Config, b: Config) -> bool {
    &&& a.release.github == b.release.github
    &&& a.release.repo@ == b.release.repo@
    &&& a.release.attach_trust == b.release.attach_trust
    &&& a.secrets_dir@ == b.secrets_dir@
    &&& match (a.trust.declared_tier, b.trust.declared_tier) {
        (Some(x), Some(y)) => x@ == y@,
        (None, None) => true,
        _ => false,
    }
    &&& string_views(a.trust.notes@) == string_views(b.trust.notes@)
    &&& a.trust.checksum_signing.minisign == b.trust.checksum_signing.minisign
    &&& a.trust.checksum_signing.gpg == b.trust.checksum_signing.gpg
    &&& a.trust.checksum_signing.gpg_key_id@ == b.trust.checksum_signing.gpg_key_id@
    &&& a.graduation.ov_thumbprint@ == b.graduation.ov_thumbprint@
    &&& a.graduation.timestamp_url@ == b.graduation.timestamp_url@
    &&& a.graduation.azure.dlib@ == b.graduation.azure.dlib@
    &&& a.graduation.azure.metadata@ == b.graduation.azure.metadata@
    &&& a.graduation.azure.timestamp_url@ == b.graduation.azure.timestamp_url@
    &&& a.graduation.apple.keychain_profile@ == b.graduation.apple.keychain_profile@
    &&& targets_view(a.targets@) == targets_view(b.targets@)
}

fn clone_strings(v: &Vec<String>) -> (r: Vec<String>)
    ensures
        string_views(r@) == string_views(v@),
{
    let mut out: Vec<String> = Vec::new();
    let mut i: usize = 0;
    while i < v.len()
        invariant
            i <= v.len(),
            string_views(out@) == string_views(v@).take(i as int),
        decreases v.len() - i,
    {
        let ghost before = string_views(out@);
        let c = v[i].clone();
        out.push(c);
        assert(string_views(out@) =~= before.push(c@));
        i = i + 1;
        assert(string_views(out@) =~= string_views(v@).take(i as int));
    }
    assert(string_views(v@).take(v.len() as int) =~= string_views(v@));
    out
}

fn clone_targets(v: &Vec<Target>) -> (r: Vec<Target>)
    ensures
        targets_view(r@) == targets_view(v@),
{
    let mut out: Vec<Target> = Vec::new();
    let mut i: usize = 0;
    while i < v.len()
        invariant
            i <= v.len(),
            targets_view(out@) == targets_view(v@).take(i as int),
        decreases v.len() - i,
    {
        let ghost before = targets_view(out@);
        let c = clone_target(&v[i]);
        out.push(c);
        assert(targets_view(out@) =~= before.push(c@));
        i = i + 1;
        assert(targets_view(out@) =~= targets_view(v@).take(i as int));
    }
    assert(targets_view(v@).take(v.len() as int) =~= targets_view(v@));
    out
}

impl Config {
    /// This config with `[project]` replaced.
    pub fn with_project(&self, project: Project) -> (r: Config)
        ensures
            r.project == project,
            same_but_project(r, *self),
    {
        Config {
            project,
            platforms: self.platforms,
            release: Release {
                github: self.release.github,
                repo: self.release.repo.clone(),
                attach_trust: self.release.attach_trust,
            },
            secrets_dir: self.secrets_dir.clone(),
            trust: Trust {
                declared_tier: match &self.trust.declared_tier {
                    Some(t) => Some(t.clone()),
                    None => None,
                },
                notes: clone_strings(&self.trust.notes),
                checksum_signing: ChecksumSigning {
                    minisign: self.trust.checksum_signing.minisign,
                    gpg: self.trust.checksum_signing.gpg,
                    gpg_key_id: self.trust.checksum_signing.gpg_key_id.clone(),
                },
            },
            graduation: Graduation {
                ov_thumbprint: self.graduation.ov_thumbprint.clone(),
                timestamp_url: self.graduation.timestamp_url.clone(),
                azure: GraduationAzure {
                    dlib: self.graduation.azure.dlib.clone(),
                    metadata: self.graduation.azure.metadata.clone(),
                    timestamp_url: self.graduation.azure.timestamp_url.clone(),
                },
                apple: GraduationApple {
                    keychain_profile: self.graduation.apple.keychain_profile.clone(),
                },
            },
            targets: clone_targets(&self.targets),
        }
    }
}

pub fn clone_target(t: &Target) -> (r: Target)
    ensures
        r@ == t@,
{
    Target {
        id: t.id.clone(),
        framework: t.framework.clone(),
        app_root: t.app_root.clone(),
        build_command: t.build_command.clone(),
    }
}

/// The synthetic `default` target made from `[project]`.
pub open spec fn default_target(c: Config) -> TargetV {
    TargetV {
        id: "default"@,
        framework: c.project.framework@,
        app_root: c.project.app_root@,
        build_command: c.project.build_command@,
    }
}

/// Targets to build: explicit `[[targets]]`, or a synthetic `default` from `[project]`.
pub fn resolve_targets(config: &Config) -> (r: Vec<Target>)
    ensures
        config.targets@.len() > 0 ==> targets_view(r@) == targets_view(config.targets@),
        config.targets@.len() == 0 ==> targets_view(r@) == seq![default_target(*config)],
{
    let mut out: Vec<Target> = Vec::new();
    if config.targets.len() > 0 {
        let mut i: usize = 0;
        while i < config.targets.len()
            invariant
                i <= config.targets.len(),
                targets_view(out@) == targets_view(config.targets@).take(i as int),
            decreases config.targets.len() - i,
        {
            let t = clone_target(&config.targets[i]);
            let ghost before = targets_view(out@);
            out.push(t);
            assert(targets_view(out@) =~= before.push(t@));
            i = i + 1;
            assert(targets_view(out@) =~= targets_view(config.targets@).take(i as int));
        }
        assert(targets_view(config.targets@).take(config.targets.len() as int) =~= targets_view(
            config.targets@,
        ));
        return out;
    }
    let t = Target {
        id: string_from("default"),
        framework: config.project.framework.clone(),
        app_root: config.project.app_root.clone(),
        build_command: config.project.build_command.clone(),
    };
    out.push(t);
    assert(targets_view(out@) =~= seq![default_target(*config)]);
    out
}

/// Target ids joined with `", "`.
pub open spec fn join_ids(v: Seq<TargetV>) -> Seq<char>
    decreases v.len(),
{
    if v.len() == 0 {
        Seq::empty()
    } else if v.len() == 1 {
        v[0].id
    } else {
        join_ids(v.drop_last()) + ", "@ + v.last().id
    }
}

/// The filter that `select_targets` applies: `None` or blank means all targets.
pub open spec fn target_filter(filter: Option<Seq<char>>) -> Option<Seq<char>> {
    match filter {
        None => None,
        Some(f) => if trim(f).len() == 0 {
            None
        } else {
            Some(trim(f))
        },
    }
}

pub open spec fn select_targets_spec(all: Seq<TargetV>, filter: Option<Seq<char>>) -> Result<Seq<TargetV>, Seq<char>> {
    match target_filter(filter) {
        None => Ok(all),
        Some(id) => {
            let found = all.filter(|t: TargetV| t.id == id);
            if found.len() == 0 {
                Err("unknown target `"@ + id + "` — known: "@ + join_ids(all))
            } else {
                Ok(found)
            }
        },
    }
}

pub open spec fn opt_str_view(o: Option<&str>) -> Option<Seq<char>> {
    match o {
        Some(s) => Some(s@),
        None => None,
    }
}

/// Filter by `--target id`. `None` → all targets.
pub fn select_targets(all: &[Target], filter: Option<&str>) -> (r: Result<Vec<Target>, String>)
    ensures
        match (r, select_targets_spec(targets_view(all@), opt_str_view(filter))) {
            (Ok(v), Ok(s)) => targets_view(v@) == s,
            (Err(e), Err(s)) => e@ == s,
            _ => false,
        },
{
    let id = match filter {
        None => None,
        Some(f) => {
            let t = trim_vec(&chars_of(f));
            if t.len() == 0 {
                None
            } else {
                Some(crate::text::string_of(&t))
            }
        },
    };
    let mut out: Vec<Target> = Vec::new();
    let mut i: usize = 0;
    match id {
        None => {
            while i < all.len()
                invariant
                    i <= all.len(),
                    targets_view(out@) == targets_view(all@).take(i as int),
                decreases all.len() - i,
            {
                let t = clone_target(&all[i]);
                let ghost before = targets_view(out@);
                out.push(t);
                assert(targets_view(out@) =~= before.push(t@));
                i = i + 1;
                assert(targets_view(out@) =~= targets_view(all@).take(i as int));
            }
            assert(targets_view(all@).take(all.len() as int) =~= targets_view(all@));
            Ok(out)
        },
        Some(id) => {
            let ghost idv = id@;
            let mut known = String::new();
            assert(targets_view(out@) =~= targets_view(all@).take(0).filter(
                |t: TargetV| t.id == idv,
            ));
            assert(known@ =~= join_ids(targets_view(all@).take(0)));
            while i < all.len()
                invariant
                    i <= all.len(),
                    idv == id@,
                    targets_view(out@) == targets_view(all@).take(i as int).filter(
                        |t: TargetV| t.id == idv,
                    ),
                    known@ == join_ids(targets_view(all@).take(i as int)),
                decreases all.len() - i,
            {
                let t = &all[i];
                proof {
                    let pre = targets_view(all@).take(i as int);
                    assert(targets_view(all@).take(i + 1) =~= pre.push(t@));
                    assert(pre.push(t@).drop_last() =~= pre);
                    reveal(Seq::filter);
                }
                if str_eq(t.id.as_str(), id.as_str()) {
                    let c = clone_target(t);
                    let ghost before = targets_view(out@);
                    out.push(c);
                    assert(targets_view(out@) =~= before.push(c@));
                }
                if i > 0 {
                    push_str(&mut known, ", ");
                }
                push_str(&mut known, t.id.as_str());
                i = i + 1;
                proof {
                    if i == 1 {
                        assert(targets_view(all@).take(1) =~= seq![t@]);
                    }
                }
            }
            assert(targets_view(all@).take(all.len() as int) =~= targets_view(all@));
            if out.len() == 0 {
                let mut m = string_from("unknown target `");
                push_str(&mut m, id.as_str());
                push_str(&mut m, "` — known: ");
                push_str(&mut m, known.as_str());
                return Err(m);
            }
            Ok(out)
        },
    }
}

/// True when the config file (or in-memory value) named a framework explicitly.
pub fn framework_is_explicit(config: &Config) -> (r: bool)
    ensures
        r == (trim(config.project.framework@).len() > 0),
{
    trim_vec(&chars_of(config.project.framework.as_str())).len() > 0
}

/// The config path: the explicit one, else `signet.toml`, else legacy `selfsign.toml` when
/// that exists, else `signet.toml`.
pub open spec fn resolve_config_path_spec(explicit: Option<Seq<char>>, fs: Seq<crate::fs::EntryV>) -> Seq<char> {
    match explicit {
        Some(p) => p,
        None => if fs_exists(fs, "signet.toml"@) {
            "signet.toml"@
        } else if fs_exists(fs, "selfsign.toml"@) {
            "selfsign.toml"@
        } else {
            "signet.toml"@
        },
    }
}

/// Resolve config path: explicit override, else `signet.toml`, else legacy `selfsign.toml`.
pub fn resolve_config_path(explicit: Option<&str>, fs: &FsSnapshot) -> (r: String)
    ensures
        r@ == resolve_config_path_spec(opt_str_view(explicit), fs@),
{
    if let Some(path) = explicit {
        return string_from(path);
    }
    if fs.contains_path(CONFIG_FILE_NAME) {
        return string_from(CONFIG_FILE_NAME);
    }
    if fs.contains_path("selfsign.toml") {
        return string_from("selfsign.toml");
    }
    string_from(CONFIG_FILE_NAME)
}

} // verus!
