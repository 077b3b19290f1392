//! Artifact kind ids (stable for JSON / agents) and classification by file name.
use vstd::prelude::*;

use crate::paths::{ext_dot, extension, extension_vec, file_name, file_name_vec, lemma_last_index_bounds};
use crate::text::{chars_of, ends_with, lower_char, lower_seq, lower_vec, vec_ends_with, vec_eq};

verus! {

#[derive(Debug, Clone, Copy, PartialEq, Eq, Structural)]
pub enum ArtifactKind {
    WindowsExe,
    WindowsMsi,
    MacApp,
    MacDmg,
    LinuxAppImage,
    LinuxDeb,
    LinuxRpm,
    /// Reserved — Phase 11
    Apk,
    /// Android App Bundle (Play upload; not auto-signed as Play distribution key)
    Aab,
    /// Reserved — Phase 12
    Ipa,
    Zip,
    Other,
}

/// The stable id of each kind.
pub open spec fn kind_id(k: ArtifactKind) -> Seq<char> {
    match k {
        ArtifactKind::WindowsExe => "windows-exe"@,
        ArtifactKind::WindowsMsi => "windows-msi"@,
        ArtifactKind::MacApp => "macos-app"@,
        ArtifactKind::MacDmg => "macos-dmg"@,
        ArtifactKind::LinuxAppImage => "linux-appimage"@,
        ArtifactKind::LinuxDeb => "linux-deb"@,
        ArtifactKind::LinuxRpm => "linux-rpm"@,
        ArtifactKind::Apk => "android-apk"@,
        ArtifactKind::Aab => "android-aab"@,
        ArtifactKind::Ipa => "ios-ipa"@,
        ArtifactKind::Zip => "zip"@,
        ArtifactKind::Other => "other"@,
    }
}

/// Kind of an installable named by its lower-cased extension.
pub open spec fn kind_for_extension(e: Seq<char>) -> Option<ArtifactKind> {
    if e == "exe"@ {
        Some(ArtifactKind::WindowsExe)
    } else if e == "msi"@ || e == "msix"@ {
        Some(ArtifactKind::WindowsMsi)
    } else if e == "dmg"@ {
        Some(ArtifactKind::MacDmg)
    } else if e == "deb"@ {
        Some(ArtifactKind::LinuxDeb)
    } else if e == "rpm"@ {
        Some(ArtifactKind::LinuxRpm)
    } else if e == "zip"@ {
        Some(ArtifactKind::Zip)
    } else {
        None
    }
}

/// `classify_file`: by lower-cased file-name suffix first, then by extension.
pub open spec fn classify_file_spec(p: Seq<char>) -> Option<ArtifactKind> {
    match file_name(p) {
        None => None,
        Some(f) => {
            let name = lower_seq(f);
            if ends_with(name, ".appimage"@) {
                Some(ArtifactKind::LinuxAppImage)
            } else if ends_with(name, ".apk"@) {
                Some(ArtifactKind::Apk)
            } else if ends_with(name, ".aab"@) {
                Some(ArtifactKind::Aab)
            } else if ends_with(name, ".ipa"@) {
                Some(ArtifactKind::Ipa)
            } else {
                match extension(p) {
                    None => None,
                    Some(e) => kind_for_extension(lower_seq(e)),
                }
            }
        },
    }
}

/// A macOS `.app` bundle name: extension exactly `app`, or a name ending in `.app`
/// (any case).
pub open spec fn is_app_bundle_name(p: Seq<char>) -> bool {
    extension(p) == Some("app"@) || (file_name(p) matches Some(f) && ends_with(
        lower_seq(f),
        ".app"@,
    ))
}

pub open spec fn classify_explicit_spec(p: Seq<char>) -> ArtifactKind {
    if is_app_bundle_name(p) {
        ArtifactKind::MacApp
    } else {
        match classify_file_spec(p) {
            Some(k) => k,
            None => ArtifactKind::Other,
        }
    }
}

proof fn lemma_lower_char_cases(c: char)
    ensures
        lower_char(c) == '.' ==> c == '.',
        (lower_char(c) == 'a' || lower_char(c) == 'p') ==> c != '.',
{
}

/// A file name whose lower-cased form ends in `.app` ends in `.` and then `app` in some
/// case, so its extension (when it has one) lower-cases to `app`.
proof fn lemma_app_suffix(f: Seq<char>)
    requires
        ends_with(lower_seq(f), ".app"@),
    ensures
        ext_dot(f) == f.len() - 4,
        lower_seq(f.subrange(f.len() - 3, f.len() as int)) == "app"@,
{
    reveal_strlit(".app");
    reveal_strlit("app");
    let n = lower_seq(f);
    let l = f.len() as int;
    let t = n.subrange(l - 4, l);
    assert(t == ".app"@);
    assert(t[0] == n[l - 4] && t[1] == n[l - 3] && t[2] == n[l - 2] && t[3] == n[l - 1]);
    assert(".app"@[0] == '.' && ".app"@[1] == 'a' && ".app"@[2] == 'p' && ".app"@[3] == 'p');
    assert(n[l - 4] == '.');
    assert(n[l - 3] == 'a' && n[l - 2] == 'p' && n[l - 1] == 'p');
    lemma_lower_char_cases(f[l - 4]);
    lemma_lower_char_cases(f[l - 3]);
    lemma_lower_char_cases(f[l - 2]);
    lemma_lower_char_cases(f[l - 1]);
    lemma_last_index_bounds(f, '.', l);
    let d = ext_dot(f);
    if d < l - 4 {
        assert(f[l - 4] != '.');
    }
    assert(d == l - 4);
    assert(lower_seq(f.subrange(l - 3, l)) =~= "app"@);
}

/// A name whose lower-cased form ends in `.app` is given no kind by `classify_file`.
proof fn lemma_app_bundle_unclassified(p: Seq<char>)
    requires
        is_app_bundle_name(p),
    ensures
        classify_file_spec(p) is None,
{
    reveal_strlit(".app");
    reveal_strlit("app");
    reveal_strlit(".appimage");
    reveal_strlit(".apk");
    reveal_strlit(".aab");
    reveal_strlit(".ipa");
    reveal_strlit("exe");
    reveal_strlit("msi");
    reveal_strlit("msix");
    reveal_strlit("dmg");
    reveal_strlit("deb");
    reveal_strlit("rpm");
    reveal_strlit("zip");
    if let Some(f) = file_name(p) {
        let l = f.len() as int;
        if extension(p) == Some("app"@) {
            let d = ext_dot(f);
            lemma_last_index_bounds(f, '.', l);
            assert(f.subrange(d + 1, l) == "app"@);
            assert(l == d + 4);
            assert(lower_seq(f).subrange(l - 4, l) =~= ".app"@) by {
                assert(f[d] == '.');
                let e = f.subrange(d + 1, l);
                assert(e[0] == f[d + 1] && e[1] == f[d + 2] && e[2] == f[d + 3]);
                assert("app"@[0] == 'a' && "app"@[1] == 'p' && "app"@[2] == 'p');
                assert(f[d + 1] == 'a' && f[d + 2] == 'p' && f[d + 3] == 'p');
            }
        }
        assert(ends_with(lower_seq(f), ".app"@));
        lemma_app_suffix(f);
        let n = lower_seq(f);
        assert(n.subrange(l - 4, l)[3] == n[l - 1]);
        assert(".app"@[3] == 'p');
        assert(n[l - 1] == 'p');
        assert(!ends_with(n, ".appimage"@)) by {
            if ends_with(n, ".appimage"@) {
                assert(n.subrange(l - 9, l)[8] == n[l - 1]);
            }
        }
        assert(!ends_with(n, ".apk"@)) by {
            if ends_with(n, ".apk"@) {
                assert(n.subrange(l - 4, l)[3] == n[l - 1]);
            }
        }
        assert(!ends_with(n, ".aab"@)) by {
            if ends_with(n, ".aab"@) {
                assert(n.subrange(l - 4, l)[3] == n[l - 1]);
            }
        }
        assert(!ends_with(n, ".ipa"@)) by {
            if ends_with(n, ".ipa"@) {
                assert(n.subrange(l - 4, l)[3] == n[l - 1]);
            }
        }
        if ext_dot(f) > 0 {
            let e = lower_seq(f.subrange(ext_dot(f) + 1, l));
            assert(e == "app"@);
            assert(e[0] == 'a' && e.len() == 3);
            assert(e != "exe"@) by { assert("exe"@[0] == 'e'); }
            assert(e != "msi"@) by { assert("msi"@[0] == 'm'); }
            assert(e != "msix"@) by { assert("msix"@.len() == 4); }
            assert(e != "dmg"@) by { assert("dmg"@[0] == 'd'); }
            assert(e != "deb"@) by { assert("deb"@[0] == 'd'); }
            assert(e != "rpm"@) by { assert("rpm"@[0] == 'r'); }
            assert(e != "zip"@) by { assert("zip"@[0] == 'z'); }
            assert(kind_for_extension(e) is None);
        }
    }
}

/// Whatever kind `classify_file` gives a path, `classify_explicit` gives it too.
pub proof fn law_file_kind_kept_by_explicit(p: Seq<char>)
    ensures
        classify_file_spec(p) matches Some(k) ==> classify_explicit_spec(p) == k,
{
    if is_app_bundle_name(p) {
        lemma_app_bundle_unclassified(p);
    }
}

/// Each known extension gives its own kind: the kind's id ends in the extension (its
/// first three letters, so `msix` counts as `msi`), and two extensions give the same kind
/// only when they agree in those letters.
pub proof fn law_extension_kinds_distinct(a: Seq<char>, b: Seq<char>)
    ensures
        kind_for_extension(a) matches Some(k) ==> ends_with(kind_id(k), a.take(3)),
        (kind_for_extension(a) matches Some(k) && kind_for_extension(b) == Some(k)) ==> a.take(3)
            == b.take(3),
{
    reveal_strlit("exe");
    reveal_strlit("msi");
    reveal_strlit("msix");
    reveal_strlit("dmg");
    reveal_strlit("deb");
    reveal_strlit("rpm");
    reveal_strlit("zip");
    reveal_strlit("windows-exe");
    reveal_strlit("windows-msi");
    reveal_strlit("macos-dmg");
    reveal_strlit("linux-deb");
    reveal_strlit("linux-rpm");
    if kind_for_extension(a) is Some {
        let k = kind_for_extension(a)->0;
        let id = kind_id(k);
        assert(id.subrange(id.len() - 3, id.len() as int) =~= a.take(3));
    }
    if kind_for_extension(a) is Some && kind_for_extension(b) == kind_for_extension(a) {
        assert(a.take(3) =~= b.take(3));
    }
}

/// Host OS ids on which a kind is signed with host tools.
pub open spec fn signable_on(k: ArtifactKind, os: Seq<char>) -> bool {
    if os == "windows"@ {
        k == ArtifactKind::WindowsExe || k == ArtifactKind::WindowsMsi
    } else if os == "macos"@ {
        k == ArtifactKind::MacApp || k == ArtifactKind::MacDmg
    } else if os == "linux"@ {
        k == ArtifactKind::LinuxAppImage || k == ArtifactKind::LinuxDeb || k
            == ArtifactKind::LinuxRpm
    } else {
        false
    }
}

fn ext_kind(e: &Vec<char>) -> (r: Option<ArtifactKind>)
    ensures
        r == kind_for_extension(e@),
{
    if vec_eq(e, &chars_of("exe")) {
        Some(ArtifactKind::WindowsExe)
    } else if vec_eq(e, &chars_of("msi")) || vec_eq(e, &chars_of("msix")) {
        Some(ArtifactKind::WindowsMsi)
    } else if vec_eq(e, &chars_of("dmg")) {
        Some(ArtifactKind::MacDmg)
    } else if vec_eq(e, &chars_of("deb")) {
        Some(ArtifactKind::LinuxDeb)
    } else if vec_eq(e, &chars_of("rpm")) {
        Some(ArtifactKind::LinuxRpm)
    } else if vec_eq(e, &chars_of("zip")) {
        Some(ArtifactKind::Zip)
    } else {
        None
    }
}

pub(crate) fn classify_chars(p: &Vec<char>) -> (r: Option<ArtifactKind>)
    ensures
        r == classify_file_spec(p@),
{
    let f = match file_name_vec(p) {
        None => return None,
        Some(f) => f,
    };
    let name = lower_vec(&f);
    if vec_ends_with(&name, &chars_of(".appimage")) {
        return Some(ArtifactKind::LinuxAppImage);
    }
    if vec_ends_with(&name, &chars_of(".apk")) {
        return Some(ArtifactKind::Apk);
    }
    if vec_ends_with(&name, &chars_of(".aab")) {
        return Some(ArtifactKind::Aab);
    }
    if vec_ends_with(&name, &chars_of(".ipa")) {
        return Some(ArtifactKind::Ipa);
    }
    match extension_vec(p) {
        None => None,
        Some(e) => ext_kind(&lower_vec(&e)),
    }
}

pub(crate) fn is_app_bundle_chars(p: &Vec<char>) -> (r: bool)
    ensures
        r == is_app_bundle_name(p@),
{
    let by_ext = match extension_vec(p) {
        Some(e) => vec_eq(&e, &chars_of("app")),
        None => false,
    };
    if by_ext {
        return true;
    }
    match file_name_vec(p) {
        Some(f) => vec_ends_with(&lower_vec(&f), &chars_of(".app")),
        None => false,
    }
}

impl ArtifactKind {
    pub fn as_str(self) -> (r: &'static str)
        ensures
            r@ == kind_id(self),
    {
        match self {
            Self::WindowsExe => "windows-exe",
            Self::WindowsMsi => "windows-msi",
            Self::MacApp => "macos-app",
            Self::MacDmg => "macos-dmg",
            Self::LinuxAppImage => "linux-appimage",
            Self::LinuxDeb => "linux-deb",
            Self::LinuxRpm => "linux-rpm",
            Self::Apk => "android-apk",
            Self::Aab => "android-aab",
            Self::Ipa => "ios-ipa",
            Self::Zip => "zip",
            Self::Other => "other",
        }
    }

    /// Classify by extension / name. Returns `None` when the file is not a known installable.
    pub fn classify_file(path: &str) -> (r: Option<Self>)
        ensures
            r == classify_file_spec(path@),
    {
        classify_chars(&chars_of(path))
    }

    /// Like [`classify_file`], but always returns a kind (fallback `Other`).
    pub fn classify_explicit(path: &str) -> (r: Self)
        ensures
            r == classify_explicit_spec(path@),
    {
        let p = chars_of(path);
        if is_app_bundle_chars(&p) {
            return Self::MacApp;
        }
        match classify_chars(&p) {
            Some(k) => k,
            None => Self::Other,
        }
    }

    pub fn host_signable_on(self, os: &str) -> (r: bool)
        ensures
            r == signable_on(self, os@),
    {
        let o = chars_of(os);
        if vec_eq(&o, &chars_of("windows")) {
            matches!(self, Self::WindowsExe | Self::WindowsMsi)
        } else if vec_eq(&o, &chars_of("macos")) {
            matches!(self, Self::MacApp | Self::MacDmg)
        } else if vec_eq(&o, &chars_of("linux")) {
            matches!(self, Self::LinuxAppImage | Self::LinuxDeb | Self::LinuxRpm)
        } else {
            false
        }
    }
}

} // verus!
