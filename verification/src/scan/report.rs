//! Repository scan report: detected projects and installers, the suggested config, and
//! the next steps to take.
use vstd::prelude::*;

use crate::fs::{fs_is_file, EntryV, FsSnapshot};
use crate::paths::{file_name, file_name_vec, join, join_str, slashify, slashify_vec, strip_prefix, strip_prefix_vec};
use crate::text::{
    chars_of, contains, is_whitespace, is_ws, lower_seq, lower_vec, push_char, push_str,
    string_from, string_of, vec_contains,
};

verus! {

#[derive(Debug, Clone, Copy, PartialEq, Eq, Structural)]
pub enum Platform {
    Windows,
    Macos,
    Linux,
    Android,
    Ios,
}

pub open spec fn platform_id(p: Platform) -> Seq<char> {
    match p {
        Platform::Windows => "windows"@,
        Platform::Macos => "macos"@,
        Platform::Linux => "linux"@,
        Platform::Android => "android"@,
        Platform::Ios => "ios"@,
    }
}

impl Platform {
    pub fn as_str(self) -> (r: &'static str)
        ensures
            r@ == platform_id(self),
    {
        match self {
            Self::Windows => "windows",
            Self::Macos => "macos",
            Self::Linux => "linux",
            Self::Android => "android",
            Self::Ios => "ios",
        }
    }
}

#[derive(Debug, Clone, Copy, PartialEq, Eq, Structural)]
pub enum ProjectKind {
    Tauri,
    Electron,
    AndroidNative,
    IosNative,
}

pub open spec fn project_kind_id(k: ProjectKind) -> Seq<char> {
    match k {
        ProjectKind::Tauri => "tauri"@,
        ProjectKind::Electron => "electron"@,
        ProjectKind::AndroidNative => "android"@,
        ProjectKind::IosNative => "ios"@,
    }
}

impl ProjectKind {
    pub fn as_str(self) -> (r: &'static str)
        ensures
            r@ == project_kind_id(self),
    {
        match self {
            Self::Tauri => "tauri",
            Self::Electron => "electron",
            Self::AndroidNative => "android",
            Self::IosNative => "ios",
        }
    }
}

#[derive(Debug, Clone)]
pub struct DetectedProject {
    pub kind: ProjectKind,
    pub path: String,
    pub name: Option<String>,
    pub detail: String,
}

#[derive(Debug, Clone)]
pub struct DetectedInstaller {
    pub platform: Platform,
    pub path: String,
    pub format: String,
    pub signed_hint: String,
}

#[derive(Debug, Clone)]
pub struct SuggestedConfig {
    pub project_name: String,
    pub tauri_root: String,
    pub windows: bool,
    pub macos: bool,
    pub linux: bool,
    /// Mobile targets are detected for awareness; desktop self-sign path does not cover store signing.
    pub android: bool,
    pub ios: bool,
    pub notes: Vec<String>,
}

#[derive(Debug, Clone)]
pub struct NextStep {
    pub command: String,
    pub why: String,
}

#[derive(Debug, Clone)]
pub struct ScanReport {
    pub root: String,
    pub projects: Vec<DetectedProject>,
    pub installers: Vec<DetectedInstaller>,
    pub suggested: SuggestedConfig,
    pub next_steps: Vec<NextStep>,
    pub has_selfsign: bool,
    pub has_identity: bool,
}

// ---- the suggestion, as plain values ----

/// Index of the first Tauri project, or `-1`.
pub open spec fn first_tauri(ps: Seq<DetectedProject>, j: int) -> int
    decreases ps.len() - j,
{
    if j < 0 || j >= ps.len() {
        -1
    } else if ps[j].kind == ProjectKind::Tauri {
        j
    } else {
        first_tauri(ps, j + 1)
    }
}

/// The first project name that is set.
pub open spec fn first_name(ps: Seq<DetectedProject>, j: int) -> Option<Seq<char>>
    decreases ps.len() - j,
{
    if j < 0 || j >= ps.len() {
        None
    } else {
        match ps[j].name {
            Some(n) => Some(n@),
            None => first_name(ps, j + 1),
        }
    }
}

/// `root`-relative path of `path` with forward slashes, `.` for the root itself or when
/// `path` is not below `root`.
pub open spec fn relativize_spec(root: Seq<char>, path: Seq<char>) -> Seq<char> {
    match strip_prefix(root, path) {
        Some(s) => if slashify(s).len() == 0 {
            "."@
        } else {
            slashify(s)
        },
        None => "."@,
    }
}

pub open spec fn suggested_name(root: Seq<char>, ps: Seq<DetectedProject>) -> Seq<char> {
    let t = first_tauri(ps, 0);
    if t >= 0 && ps[t].name is Some {
        ps[t].name->0@
    } else {
        match first_name(ps, 0) {
            Some(n) => n,
            None => match file_name(root) {
                Some(f) => f,
                None => "my-app"@,
            },
        }
    }
}

pub open spec fn suggested_root(root: Seq<char>, ps: Seq<DetectedProject>) -> Seq<char> {
    let t = first_tauri(ps, 0);
    if t >= 0 {
        relativize_spec(root, ps[t].path@)
    } else {
        "."@
    }
}

pub open spec fn any_installer(is: Seq<DetectedInstaller>, p: Platform) -> bool {
    exists|i: int| 0 <= i < is.len() && (#[trigger] is[i]).platform == p
}

pub open spec fn any_project(ps: Seq<DetectedProject>, k: ProjectKind) -> bool {
    exists|i: int| 0 <= i < ps.len() && (#[trigger] ps[i]).kind == k
}

/// A Tauri project whose detail mentions `word` (case-insensitively).
pub open spec fn tauri_mentions(ps: Seq<DetectedProject>, word: Seq<char>) -> bool {
    exists|i: int|
        0 <= i < ps.len() && (#[trigger] ps[i]).kind == ProjectKind::Tauri && contains(
            lower_seq(ps[i].detail@),
            word,
        )
}

pub open spec fn any_desktop(is: Seq<DetectedInstaller>) -> bool {
    any_installer(is, Platform::Windows) || any_installer(is, Platform::Macos) || any_installer(
        is,
        Platform::Linux,
    )
}

/// Suggested platform switches: windows, macos, linux, android, ios. A Tauri project with
/// no desktop installer yet turns all three desktop platforms on.
pub open spec fn suggested_platforms(ps: Seq<DetectedProject>, is: Seq<DetectedInstaller>) -> (bool, bool, bool, bool, bool) {
    let all_desktop = first_tauri(ps, 0) >= 0 && !any_desktop(is);
    (
        any_installer(is, Platform::Windows) || all_desktop,
        any_installer(is, Platform::Macos) || all_desktop,
        any_installer(is, Platform::Linux) || all_desktop,
        any_installer(is, Platform::Android) || any_project(ps, ProjectKind::AndroidNative)
            || tauri_mentions(ps, "android"@),
        any_installer(is, Platform::Ios) || any_project(ps, ProjectKind::IosNative)
            || tauri_mentions(ps, "ios"@),
    )
}

pub open spec fn desktop_note() -> Seq<char> {
    "Desktop self-signing (Windows/macOS/Linux) is what `selfsign build` covers today."@
}

pub open spec fn mobile_note() -> Seq<char> {
    "Android/iOS installers were detected — store signing uses Play App Signing / Apple certificates; selfsign lists them for awareness and does not claim to replace those programs."@
}

pub open spec fn electron_note() -> Seq<char> {
    "Electron app detected — Phase 'later' may add non-Tauri signing; treat as experimental target."@
}

pub open spec fn suggested_notes(ps: Seq<DetectedProject>, is: Seq<DetectedInstaller>) -> Seq<Seq<char>> {
    let (w, m, l, a, i) = suggested_platforms(ps, is);
    seq![desktop_note()] + (if a || i {
        seq![mobile_note()]
    } else {
        Seq::empty()
    }) + if any_project(ps, ProjectKind::Electron) {
        seq![electron_note()]
    } else {
        Seq::empty()
    }
}

/// Characters that make a word need quoting in a shell command.
pub open spec fn needs_quote(s: Seq<char>) -> bool {
    exists|i: int| 0 <= i < s.len() && (is_ws(#[trigger] s[i]) || s[i] == '"' || s[i] == '\'')
}

/// `"` escaped with a backslash.
pub open spec fn escape_dquotes(s: Seq<char>) -> Seq<char>
    decreases s.len(),
{
    if s.len() == 0 {
        Seq::empty()
    } else {
        escape_dquotes(s.drop_last()) + if s.last() == '"' {
            seq!['\\', '"']
        } else {
            seq![s.last()]
        }
    }
}

pub open spec fn shell_quote_spec(s: Seq<char>) -> Seq<char> {
    if needs_quote(s) {
        seq!['"'] + escape_dquotes(s) + seq!['"']
    } else {
        s
    }
}

/// The next steps, as (command, why) pairs.
pub open spec fn next_steps_spec(
    name: Seq<char>,
    troot: Seq<char>,
    has_selfsign: bool,
    has_identity: bool,
    has_trust: bool,
    desktop: bool,
) -> Seq<(Seq<char>, Seq<char>)> {
    (if !has_selfsign {
        seq![
            (
                "selfsign init --name "@ + shell_quote_spec(name) + " --tauri-root "@
                    + shell_quote_spec(troot),
                "create selfsign.toml from this suggestion"@,
            ),
        ]
    } else {
        Seq::empty()
    }) + (if !has_identity {
        seq![("selfsign identity create"@, "create a local code-signing identity"@)]
    } else {
        Seq::empty()
    }) + (if has_identity && !has_trust {
        seq![("selfsign trust"@, "emit honest install / fingerprint docs"@)]
    } else {
        Seq::empty()
    }) + (if !desktop {
        seq![("selfsign build"@, "produce and sign desktop installers"@)]
    } else {
        seq![
            ("selfsign build --skip-build"@, "sign the installers already on disk"@),
            ("selfsign release --tag v0.1.0 --dry-run"@, "prepare GitHub Release assets"@),
        ]
    }) + seq![("selfsign"@, "open the TUI Guided setup if you prefer prompts"@)]
}

pub open spec fn steps_view(s: Seq<NextStep>) -> Seq<(Seq<char>, Seq<char>)> {
    s.map_values(|n: NextStep| (n.command@, n.why@))
}

pub open spec fn strings_view(s: Seq<String>) -> Seq<Seq<char>> {
    s.map_values(|x: String| x@)
}

/// What `finalize_report` builds from the detections and the files present under `root`.
pub open spec fn finalized(
    r: ScanReport,
    root: Seq<char>,
    ps: Seq<DetectedProject>,
    is: Seq<DetectedInstaller>,
    fs: Seq<EntryV>,
) -> bool {
    let has_selfsign = fs_is_file(fs, join(root, "selfsign.toml"@));
    let has_identity = fs_is_file(fs, join(root, ".selfsign/identity/active"@));
    let has_trust = fs_is_file(fs, join(root, "TRUST.md"@));
    let (w, m, l, a, i) = suggested_platforms(ps, is);
    &&& r.root@ == root
    &&& r.projects@ == ps
    &&& r.installers@ == is
    &&& r.has_selfsign == has_selfsign
    &&& r.has_identity == has_identity
    &&& r.suggested.project_name@ == suggested_name(root, ps)
    &&& r.suggested.tauri_root@ == suggested_root(root, ps)
    &&& (r.suggested.windows, r.suggested.macos, r.suggested.linux, r.suggested.android, r.suggested.ios)
        == (w, m, l, a, i)
    &&& strings_view(r.suggested.notes@) == suggested_notes(ps, is)
    &&& steps_view(r.next_steps@) == next_steps_spec(
        suggested_name(root, ps),
        suggested_root(root, ps),
        has_selfsign,
        has_identity,
        has_trust,
        any_desktop(is),
    )
}

// ---- executable ----

/// `root`-relative path with forward slashes (`.` when not below `root`).
pub fn relativize(root: &str, path: &str) -> (r: String)
    ensures
        r@ == relativize_spec(root@, path@),
{
    match strip_prefix_vec(&chars_of(root), &chars_of(path)) {
        Some(s) => {
            let t = slashify_vec(&s);
            if t.len() == 0 {
                string_from(".")
            } else {
                string_of(&t)
            }
        },
        None => string_from("."),
    }
}

/// Quote a shell word when it holds whitespace or quotes.
pub fn shell_quote(s: &str) -> (r: String)
    ensures
        r@ == shell_quote_spec(s@),
{
    let v = chars_of(s);
    let mut needs = false;
    let mut i: usize = 0;
    while i < v.len()
        invariant
            i <= v.len(),
            v@ == s@,
            needs == exists|j: int|
                0 <= j < i && (is_ws(#[trigger] v@[j]) || v@[j] == '"' || v@[j] == '\''),
        decreases v.len() - i,
    {
        if is_whitespace(v[i]) || v[i] == '"' || v[i] == '\'' {
            needs = true;
        }
        i = i + 1;
    }
    if !needs {
        return string_from(s);
    }
    let mut out: Vec<char> = Vec::new();
    out.push('"');
    let mut k: usize = 0;
    assert(v@.take(0) =~= Seq::<char>::empty());
    assert(out@ =~= seq!['"'] + escape_dquotes(v@.take(0)));
    while k < v.len()
        invariant
            k <= v.len(),
            out@ == seq!['"'] + escape_dquotes(v@.take(k as int)),
        decreases v.len() - k,
    {
        assert(v@.take(k + 1).drop_last() =~= v@.take(k as int));
        assert(v@.take(k + 1).last() == v@[k as int]);
        if v[k] == '"' {
            out.push('\\');
            out.push('"');
        } else {
            out.push(v[k]);
        }
        k = k + 1;
        assert(out@ =~= seq!['"'] + escape_dquotes(v@.take(k as int)));
    }
    assert(v@.take(v.len() as int) =~= v@);
    out.push('"');
    string_of(&out)
}

/// `./<name>` of the root directory, or the root as given when it has no name.
pub open spec fn short_root_spec(root: Seq<char>) -> Seq<char> {
    match file_name(root) {
        Some(n) => "./"@ + n,
        None => root,
    }
}

pub fn short_root(root: &str) -> (r: String)
    ensures
        r@ == short_root_spec(root@),
{
    match file_name_vec(&chars_of(root)) {
        Some(n) => {
            let mut s = string_from("./");
            push_str(&mut s, string_of(&n).as_str());
            s
        },
        None => string_from(root),
    }
}

fn first_tauri_idx(ps: &Vec<DetectedProject>) -> (r: Option<usize>)
    ensures
        r matches Some(i) ==> i as int == first_tauri(ps@, 0) && i < ps.len(),
        r is None ==> first_tauri(ps@, 0) == -1,
{
    let mut i: usize = 0;
    while i < ps.len()
        invariant
            i <= ps.len(),
            first_tauri(ps@, 0) == first_tauri(ps@, i as int),
        decreases ps.len() - i,
    {
        if ps[i].kind == ProjectKind::Tauri {
            return Some(i);
        }
        i = i + 1;
    }
    None
}

fn first_name_of(ps: &Vec<DetectedProject>) -> (r: Option<String>)
    ensures
        match (r, first_name(ps@, 0)) {
            (Some(a), Some(b)) => a@ == b,
            (None, None) => true,
            _ => false,
        },
{
    let mut i: usize = 0;
    while i < ps.len()
        invariant
            i <= ps.len(),
            first_name(ps@, 0) == first_name(ps@, i as int),
        decreases ps.len() - i,
    {
        match &ps[i].name {
            Some(n) => {
                return Some(n.clone());
            },
            None => {},
        }
        i = i + 1;
    }
    None
}

fn installer_on(is: &Vec<DetectedInstaller>, p: Platform) -> (r: bool)
    ensures
        r == any_installer(is@, p),
{
    let mut i: usize = 0;
    while i < is.len()
        invariant
            i <= is.len(),
            forall|j: int| 0 <= j < i ==> (#[trigger] is@[j]).platform != p,
        decreases is.len() - i,
    {
        if is[i].platform == p {
            return true;
        }
        i = i + 1;
    }
    false
}

fn project_of(ps: &Vec<DetectedProject>, k: ProjectKind) -> (r: bool)
    ensures
        r == any_project(ps@, k),
{
    let mut i: usize = 0;
    while i < ps.len()
        invariant
            i <= ps.len(),
            forall|j: int| 0 <= j < i ==> (#[trigger] ps@[j]).kind != k,
        decreases ps.len() - i,
    {
        if ps[i].kind == k {
            return true;
        }
        i = i + 1;
    }
    false
}

fn tauri_mentioning(ps: &Vec<DetectedProject>, word: &str) -> (r: bool)
    ensures
        r == tauri_mentions(ps@, word@),
{
    let w = chars_of(word);
    let mut i: usize = 0;
    while i < ps.len()
        invariant
            i <= ps.len(),
            w@ == word@,
            forall|j: int|
                0 <= j < i ==> !((#[trigger] ps@[j]).kind == ProjectKind::Tauri && contains(
                    lower_seq(ps@[j].detail@),
                    word@,
                )),
        decreases ps.len() - i,
    {
        if ps[i].kind == ProjectKind::Tauri && vec_contains(&lower_vec(&chars_of(ps[i].detail.as_str())), &w) {
            return true;
        }
        i = i + 1;
    }
    false
}

fn step(command: String, why: &str) -> (r: NextStep)
    ensures
        r.command@ == command@,
        r.why@ == why@,
{
    NextStep { command, why: string_from(why) }
}

fn suggest_name(root: &str, projects: &Vec<DetectedProject>) -> (r: String)
    ensures
        r@ == suggested_name(root@, projects@),
{
    let tauri = first_tauri_idx(projects);
    if let Some(t) = tauri {
        if let Some(n) = &projects[t].name {
            return n.clone();
        }
    }
    match first_name_of(projects) {
        Some(n) => n,
        None => match file_name_vec(&chars_of(root)) {
            Some(f) => string_of(&f),
            None => string_from("my-app"),
        },
    }
}

fn suggest_root(root: &str, projects: &Vec<DetectedProject>) -> (r: String)
    ensures
        r@ == suggested_root(root@, projects@),
{
    match first_tauri_idx(projects) {
        Some(t) => relativize(root, projects[t].path.as_str()),
        None => string_from("."),
    }
}

fn suggest_platforms(projects: &Vec<DetectedProject>, installers: &Vec<DetectedInstaller>) -> (r: (bool, bool, bool, bool, bool))
    ensures
        r == suggested_platforms(projects@, installers@),
{
    let iw = installer_on(installers, Platform::Windows);
    let im = installer_on(installers, Platform::Macos);
    let il = installer_on(installers, Platform::Linux);
    let all_desktop = first_tauri_idx(projects).is_some() && !iw && !im && !il;
    let android = installer_on(installers, Platform::Android) || project_of(projects, ProjectKind::AndroidNative)
        || tauri_mentioning(projects, "android");
    let ios = installer_on(installers, Platform::Ios) || project_of(projects, ProjectKind::IosNative)
        || tauri_mentioning(projects, "ios");
    (iw || all_desktop, im || all_desktop, il || all_desktop, android, ios)
}

fn suggest_notes(projects: &Vec<DetectedProject>, mobile: bool) -> (r: Vec<String>)
    ensures
        strings_view(r@) == seq![desktop_note()] + (if mobile {
            seq![mobile_note()]
        } else {
            Seq::empty()
        }) + if any_project(projects@, ProjectKind::Electron) {
            seq![electron_note()]
        } else {
            Seq::empty()
        },
{
    let mut notes: Vec<String> = Vec::new();
    notes.push(string_from("Desktop self-signing (Windows/macOS/Linux) is what `selfsign build` covers today."));
    if mobile {
        notes.push(string_from("Android/iOS installers were detected — store signing uses Play App Signing / Apple certificates; selfsign lists them for awareness and does not claim to replace those programs."));
    }
    if project_of(projects, ProjectKind::Electron) {
        notes.push(string_from("Electron app detected — Phase 'later' may add non-Tauri signing; treat as experimental target."));
    }
    let ghost n = strings_view(notes@);
    assert(n =~= seq![desktop_note()] + (if mobile {
        seq![mobile_note()]
    } else {
        Seq::empty()
    }) + if any_project(projects@, ProjectKind::Electron) {
        seq![electron_note()]
    } else {
        Seq::empty()
    });
    notes
}

fn suggest_steps(
    name: &str,
    troot: &str,
    has_selfsign: bool,
    has_identity: bool,
    has_trust: bool,
    desktop: bool,
) -> (r: Vec<NextStep>)
    ensures
        steps_view(r@) == next_steps_spec(name@, troot@, has_selfsign, has_identity, has_trust, desktop),
{
    let mut next_steps: Vec<NextStep> = Vec::new();
    if !has_selfsign {
        let mut c = string_from("selfsign init --name ");
        push_str(&mut c, shell_quote(name).as_str());
        push_str(&mut c, " --tauri-root ");
        push_str(&mut c, shell_quote(troot).as_str());
        next_steps.push(step(c, "create selfsign.toml from this suggestion"));
    }
    if !has_identity {
        next_steps.push(step(string_from("selfsign identity create"), "create a local code-signing identity"));
    }
    if has_identity && !has_trust {
        next_steps.push(step(string_from("selfsign trust"), "emit honest install / fingerprint docs"));
    }
    if !desktop {
        next_steps.push(step(string_from("selfsign build"), "produce and sign desktop installers"));
    } else {
        next_steps.push(step(string_from("selfsign build --skip-build"), "sign the installers already on disk"));
        next_steps.push(step(string_from("selfsign release --tag v0.1.0 --dry-run"), "prepare GitHub Release assets"));
    }
    next_steps.push(step(string_from("selfsign"), "open the TUI Guided setup if you prefer prompts"));
    assert(steps_view(next_steps@) =~= next_steps_spec(name@, troot@, has_selfsign, has_identity, has_trust, desktop));
    next_steps
}

/// Build suggested config + next steps from raw detections; `fs` tells which of
/// `selfsign.toml`, `.selfsign/identity/active` and `TRUST.md` exist under `root`.
pub fn finalize_report(
    root: String,
    projects: Vec<DetectedProject>,
    installers: Vec<DetectedInstaller>,
    fs: &FsSnapshot,
) -> (r: ScanReport)
    ensures
        finalized(r, root@, projects@, installers@, fs@),
{
    let has_selfsign = fs.is_file(join_str(root.as_str(), "selfsign.toml").as_str());
    let has_identity = fs.is_file(join_str(root.as_str(), ".selfsign/identity/active").as_str());
    let has_trust = fs.is_file(join_str(root.as_str(), "TRUST.md").as_str());
    let project_name = suggest_name(root.as_str(), &projects);
    let tauri_root = suggest_root(root.as_str(), &projects);
    let (windows, macos, linux, android, ios) = suggest_platforms(&projects, &installers);
    let notes = suggest_notes(&projects, android || ios);
    let desktop = installer_on(&installers, Platform::Windows) || installer_on(&installers, Platform::Macos)
        || installer_on(&installers, Platform::Linux);
    let next_steps = suggest_steps(
        project_name.as_str(),
        tauri_root.as_str(),
        has_selfsign,
        has_identity,
        has_trust,
        desktop,
    );
    ScanReport {
        root,
        projects,
        installers,
        suggested: SuggestedConfig {
            project_name,
            tauri_root,
            windows,
            macos,
            linux,
            android,
            ios,
            notes,
        },
        next_steps,
        has_selfsign,
        has_identity,
    }
}

// ---- the human report's installer section ----

/// The installers of one platform, as the human report lists them: how many there are,
/// the first five, and how many of the rest it leaves out.
#[derive(Debug)]
pub struct InstallerGroup {
    pub platform: Platform,
    pub total: usize,
    pub shown: Vec<DetectedInstaller>,
    pub omitted: usize,
}

pub open spec fn installer_view(i: DetectedInstaller) -> (Platform, Seq<char>, Seq<char>, Seq<char>) {
    (i.platform, i.path@, i.format@, i.signed_hint@)
}

pub open spec fn installers_view(v: Seq<DetectedInstaller>) -> Seq<(Platform, Seq<char>, Seq<char>, Seq<char>)> {
    v.map_values(|i: DetectedInstaller| installer_view(i))
}

/// The installers of platform `p`, in report order.
pub open spec fn of_platform(v: Seq<DetectedInstaller>, p: Platform) -> Seq<DetectedInstaller> {
    v.filter(|i: DetectedInstaller| i.platform == p)
}

pub open spec fn platform_order() -> Seq<Platform> {
    seq![Platform::Windows, Platform::Macos, Platform::Linux, Platform::Android, Platform::Ios]
}

pub open spec fn shown_count(n: int) -> int {
    if n < 5 {
        n
    } else {
        5
    }
}

fn copy_installer(i: &DetectedInstaller) -> (r: DetectedInstaller)
    ensures
        installer_view(r) == installer_view(*i),
{
    DetectedInstaller {
        platform: i.platform,
        path: i.path.clone(),
        format: i.format.clone(),
        signed_hint: i.signed_hint.clone(),
    }
}

fn group_for(installers: &Vec<DetectedInstaller>, p: Platform) -> (r: InstallerGroup)
    ensures
        r.platform == p,
        r.total == of_platform(installers@, p).len(),
        installers_view(r.shown@) == installers_view(of_platform(installers@, p).take(
            shown_count(of_platform(installers@, p).len() as int),
        )),
        r.omitted == of_platform(installers@, p).len() - shown_count(of_platform(installers@, p).len() as int),
{
    let mut total: usize = 0;
    let mut shown: Vec<DetectedInstaller> = Vec::new();
    let mut i: usize = 0;
    while i < installers.len()
        invariant
            i <= installers.len(),
            total == of_platform(installers@.take(i as int), p).len(),
            total <= i,
            installers_view(shown@) == installers_view(of_platform(installers@.take(i as int), p).take(
                shown_count(total as int),
            )),
        decreases installers.len() - i,
    {
        proof {
            let pre = installers@.take(i as int);
            assert(installers@.take(i + 1) =~= pre.push(installers@[i as int]));
            reveal(Seq::filter);
            assert(pre.push(installers@[i as int]).drop_last() =~= pre);
        }
        if installers[i].platform == p {
            let ghost before = of_platform(installers@.take(i as int), p);
            assert(of_platform(installers@.take(i + 1), p) =~= before.push(installers@[i as int]));
            if total < 5 {
                let c = copy_installer(&installers[i]);
                let ghost sv = installers_view(shown@);
                shown.push(c);
                assert(installers_view(shown@) =~= sv.push(installer_view(installers@[i as int])));
                assert(before.push(installers@[i as int]).take(shown_count(total + 1)) =~= before.take(
                    shown_count(total as int),
                ).push(installers@[i as int]));
            } else {
                assert(before.push(installers@[i as int]).take(5) =~= before.take(5));
            }
            total = total + 1;
        } else {
            assert(of_platform(installers@.take(i + 1), p) =~= of_platform(installers@.take(i as int), p));
        }
        i = i + 1;
    }
    assert(installers@.take(installers.len() as int) =~= installers@);
    let omitted: usize = if total > 5 {
        total - 5
    } else {
        0
    };
    InstallerGroup { platform: p, total, shown, omitted }
}

/// The installer section of the human report: one group per platform that has installers,
/// Windows, macOS, Linux, Android, iOS in that order.
pub fn installer_groups(installers: &Vec<DetectedInstaller>) -> (r: Vec<InstallerGroup>)
    ensures
        r@.len() == platform_order().filter(|p: Platform| of_platform(installers@, p).len() > 0).len(),
        forall|k: int|
            0 <= k < r@.len() ==> {
                let g = #[trigger] r@[k];
                &&& g.platform == platform_order().filter(|p: Platform| of_platform(installers@, p).len() > 0)[k]
                &&& g.total == of_platform(installers@, g.platform).len()
                &&& installers_view(g.shown@) == installers_view(of_platform(installers@, g.platform).take(
                    shown_count(g.total as int),
                ))
                &&& g.omitted == g.total - shown_count(g.total as int)
            },
{
    let order = [Platform::Windows, Platform::Macos, Platform::Linux, Platform::Android, Platform::Ios];
    let ghost po = platform_order();
    assert(order@ =~= po);
    let ghost keep = |p: Platform| of_platform(installers@, p).len() > 0;
    let mut out: Vec<InstallerGroup> = Vec::new();
    let mut j: usize = 0;
    while j < 5
        invariant
            j <= 5,
            order@ == po,
            po == platform_order(),
            keep == (|p: Platform| of_platform(installers@, p).len() > 0),
            out@.len() == po.take(j as int).filter(keep).len(),
            forall|k: int|
                0 <= k < out@.len() ==> {
                    let g = #[trigger] out@[k];
                    &&& g.platform == po.take(j as int).filter(keep)[k]
                    &&& g.total == of_platform(installers@, g.platform).len()
                    &&& installers_view(g.shown@) == installers_view(of_platform(installers@, g.platform).take(
                        shown_count(g.total as int),
                    ))
                    &&& g.omitted == g.total - shown_count(g.total as int)
                },
        decreases 5 - j,
    {
        proof {
            assert(po.take(j + 1) =~= po.take(j as int).push(po[j as int]));
            reveal(Seq::filter);
            assert(po.take(j as int).push(po[j as int]).drop_last() =~= po.take(j as int));
        }
        let g = group_for(installers, order[j]);
        if g.total > 0 {
            let ghost old_out = out@;
            out.push(g);
            assert(po.take(j + 1).filter(keep) =~= po.take(j as int).filter(keep).push(po[j as int]));
            assert forall|k: int| 0 <= k < out@.len() implies {
                let g = #[trigger] out@[k];
                &&& g.platform == po.take(j + 1).filter(keep)[k]
                &&& g.total == of_platform(installers@, g.platform).len()
                &&& installers_view(g.shown@) == installers_view(of_platform(installers@, g.platform).take(
                    shown_count(g.total as int),
                ))
                &&& g.omitted == g.total - shown_count(g.total as int)
            } by {
                if k < old_out.len() {
                    assert(out@[k] == old_out[k]);
                }
            }
        } else {
            assert(po.take(j + 1).filter(keep) =~= po.take(j as int).filter(keep));
        }
        j = j + 1;
    }
    assert(po.take(5) =~= po);
    out
}

pub open spec fn is_desktop(p: Platform) -> bool {
    p == Platform::Windows || p == Platform::Macos || p == Platform::Linux
}

/// Whether the report found a Windows, macOS or Linux installer.
pub fn has_desktop_installer(installers: &Vec<DetectedInstaller>) -> (r: bool)
    ensures
        r == exists|k: int|
            0 <= k < installers@.len() && is_desktop((#[trigger] installers@[k]).platform),
{
    let mut i: usize = 0;
    while i < installers.len()
        invariant
            i <= installers.len(),
            forall|k: int|
                0 <= k < i ==> !is_desktop((#[trigger] installers@[k]).platform),
        decreases installers.len() - i,
    {
        match installers[i].platform {
            Platform::Windows | Platform::Macos | Platform::Linux => {
                return true;
            },
            _ => {},
        }
        i = i + 1;
    }
    false
}

} // verus!
