//! Detached OpenSSL signatures for Linux bundles (AppImage / deb / rpm).
//!
//! Running `openssl` is the caller's: it extracts the public key and signs each bundle with
//! the argument lists below, and reports each outcome back.
use vstd::prelude::*;

use crate::argv::string_views;
use crate::artifact::kind::ArtifactKind;
use crate::artifact::types::{artifacts_view, host_signable, host_signable_spec, Artifact, ArtifactV};
use crate::host::{bare_name, which_tool};
use crate::paths::{file_name, file_name_vec, join, join_str, with_file_name, with_file_name_str};
use crate::text::{chars_of, contains, lower_seq, push_str, string_from, string_of};

verus! {

/// One signed (or checksummed) bundle and how.
#[derive(Debug, Clone)]
pub struct SignedArtifact {
    pub path: String,
    pub kind: ArtifactKind,
    pub method: String,
    pub note: Option<String>,
}

pub struct SignedV {
    pub path: Seq<char>,
    pub kind: ArtifactKind,
    pub method: Seq<char>,
    pub note: Option<Seq<char>>,
}

impl View for SignedArtifact {
    type V = SignedV;

    open spec fn view(&self) -> SignedV {
        SignedV {
            path: self.path@,
            kind: self.kind,
            method: self.method@,
            note: match self.note {
                Some(n) => Some(n@),
                None => None,
            },
        }
    }
}

/// What a signing pass did: signed bundles, skipped ones with the reason, warnings.
#[derive(Debug)]
pub struct SignReport {
    pub signed: Vec<SignedArtifact>,
    pub skipped: Vec<(String, String)>,
    pub warnings: Vec<String>,
}

pub open spec fn signed_view(v: Seq<SignedArtifact>) -> Seq<SignedV> {
    v.map_values(|s: SignedArtifact| s@)
}

pub open spec fn pairs_view(v: Seq<(String, String)>) -> Seq<(Seq<char>, Seq<char>)> {
    v.map_values(|p: (String, String)| (p.0@, p.1@))
}

/// The bundles this pass signs: AppImage, deb and rpm, in order.
pub open spec fn linux_bundles(v: Seq<ArtifactV>) -> Seq<ArtifactV> {
    host_signable_spec(v, "linux"@)
}

/// The detached signature of `file`: `<file name>.sig` beside it.
pub open spec fn sig_path_spec(file: Seq<char>) -> Seq<char> {
    with_file_name(
        file,
        match file_name(file) {
            Some(n) => n,
            None => "artifact"@,
        } + ".sig"@,
    )
}

pub open spec fn pubkey_path(identity_dir: Seq<char>) -> Seq<char> {
    join(identity_dir, "pubkey.pem"@)
}

pub open spec fn signed_entry(pubkey: Seq<char>, a: ArtifactV, sig: Seq<char>) -> SignedV {
    SignedV {
        path: a.path,
        kind: a.kind,
        method: "openssl dgst -sha256 (detached: "@ + sig + ")"@,
        note: Some("verify: openssl dgst -sha256 -verify "@ + pubkey + " -signature "@ + sig + " "@ + a.path),
    }
}

pub open spec fn checksum_entry(a: ArtifactV) -> SignedV {
    SignedV {
        path: a.path,
        kind: a.kind,
        method: "checksum-only"@,
        note: Some("install openssl for detached .sig signatures"@),
    }
}

/// The signed and skipped lists after signing `todo`, where `outs[i]` is what signing
/// `todo[i]` gave: the signature's path, or the error.
pub open spec fn outcomes_report(
    pubkey: Seq<char>,
    todo: Seq<ArtifactV>,
    outs: Seq<Result<Seq<char>, Seq<char>>>,
) -> (Seq<SignedV>, Seq<(Seq<char>, Seq<char>)>)
    decreases todo.len(),
{
    if todo.len() == 0 || outs.len() != todo.len() {
        (Seq::empty(), Seq::empty())
    } else {
        let (s, k) = outcomes_report(pubkey, todo.drop_last(), outs.drop_last());
        match outs.last() {
            Ok(sig) => (s.push(signed_entry(pubkey, todo.last(), sig)), k),
            Err(e) => (s, k.push((todo.last().path, "openssl detached sign failed: "@ + e))),
        }
    }
}

pub open spec fn results_view(v: Seq<Result<String, String>>) -> Seq<Result<Seq<char>, Seq<char>>> {
    v.map_values(
        |r: Result<String, String>|
            match r {
                Ok(s) => Ok(s@),
                Err(e) => Err(e@),
            },
    )
}

pub open spec fn no_bundles_warning() -> Seq<char> {
    "no Linux AppImage/deb/rpm artifacts found to sign"@
}

pub open spec fn no_openssl_warning() -> Seq<char> {
    "openssl not found — writing checksums only (no detached signatures)"@
}

/// `openssl` on `PATH`: a path naming `openssl`, or `None` when `PATH` has none.
pub fn find_openssl() -> (r: Option<String>)
    ensures
        r matches Some(p) ==> contains(lower_seq(p@), "openssl"@),
{
    proof {
        reveal_strlit("openssl");
        assert(bare_name("openssl"@));
        assert(lower_seq("openssl"@) =~= "openssl"@);
    }
    which_tool("openssl")
}

/// The bundles a Linux signing pass takes, in order.
pub fn linux_signable(artifacts: &[Artifact]) -> (r: Vec<Artifact>)
    ensures
        artifacts_view(r@) == linux_bundles(artifacts_view(artifacts@)),
{
    host_signable(artifacts, "linux")
}

/// Where the detached signature of `file` goes.
pub fn detached_sig_path(file: &str) -> (r: String)
    ensures
        r@ == sig_path_spec(file@),
{
    let mut name = match file_name_vec(&chars_of(file)) {
        Some(n) => string_of(&n),
        None => string_from("artifact"),
    };
    push_str(&mut name, ".sig");
    with_file_name_str(file, name.as_str())
}

/// `openssl` arguments that write the identity's public key beside its certificate.
pub fn extract_pubkey_argv(identity_dir: &str) -> (r: Vec<String>)
    ensures
        string_views(r@) == seq![
            "x509"@,
            "-in"@,
            join(identity_dir@, "cert.pem"@),
            "-pubkey"@,
            "-noout"@,
            "-out"@,
            pubkey_path(identity_dir@),
        ],
{
    let v = vec![
        string_from("x509"),
        string_from("-in"),
        join_str(identity_dir, "cert.pem"),
        string_from("-pubkey"),
        string_from("-noout"),
        string_from("-out"),
        join_str(identity_dir, "pubkey.pem"),
    ];
    assert(string_views(v@) =~= seq![
        "x509"@,
        "-in"@,
        join(identity_dir@, "cert.pem"@),
        "-pubkey"@,
        "-noout"@,
        "-out"@,
        pubkey_path(identity_dir@),
    ]);
    v
}

/// `openssl` arguments that sign `file` with the identity's key into `sig`.
pub fn detached_sign_argv(identity_dir: &str, file: &str, sig: &str) -> (r: Vec<String>)
    ensures
        string_views(r@) == seq![
            "dgst"@,
            "-sha256"@,
            "-sign"@,
            join(identity_dir@, "key.pem"@),
            "-out"@,
            sig@,
            file@,
        ],
{
    let v = vec![
        string_from("dgst"),
        string_from("-sha256"),
        string_from("-sign"),
        join_str(identity_dir, "key.pem"),
        string_from("-out"),
        string_from(sig),
        string_from(file),
    ];
    assert(string_views(v@) =~= seq![
        "dgst"@,
        "-sha256"@,
        "-sign"@,
        join(identity_dir@, "key.pem"@),
        "-out"@,
        sig@,
        file@,
    ]);
    v
}

fn signed_of(pubkey: &str, a: &Artifact, sig: &str) -> (r: SignedArtifact)
    ensures
        r@ == signed_entry(pubkey@, a@, sig@),
{
    let mut method = string_from("openssl dgst -sha256 (detached: ");
    push_str(&mut method, sig);
    push_str(&mut method, ")");
    let mut note = string_from("verify: openssl dgst -sha256 -verify ");
    push_str(&mut note, pubkey);
    push_str(&mut note, " -signature ");
    push_str(&mut note, sig);
    push_str(&mut note, " ");
    push_str(&mut note, a.path.as_str());
    SignedArtifact { path: a.path.clone(), kind: a.kind, method, note: Some(note) }
}

/// The report of a Linux signing pass over `artifacts` with the identity in `identity_dir`.
/// With no AppImage / deb / rpm among them it only warns. Without `openssl` every such bundle
/// is listed as checksum-only. Otherwise `outcomes[i]` is what signing the `i`-th of them gave
/// (see `linux_signable`): the signature's path, or the error, which skips it.
pub fn sign_artifacts(
    identity_dir: &str,
    artifacts: &[Artifact],
    openssl_found: bool,
    outcomes: &[Result<String, String>],
) -> (r: SignReport)
    requires
        openssl_found ==> outcomes.len() == linux_bundles(artifacts_view(artifacts@)).len(),
    ensures
        ({
            let todo = linux_bundles(artifacts_view(artifacts@));
            if todo.len() == 0 {
                &&& r.signed@.len() == 0
                &&& r.skipped@.len() == 0
                &&& string_views(r.warnings@) == seq![no_bundles_warning()]
            } else if !openssl_found {
                &&& signed_view(r.signed@) == todo.map_values(|a: ArtifactV| checksum_entry(a))
                &&& r.skipped@.len() == 0
                &&& string_views(r.warnings@) == seq![no_openssl_warning()]
            } else {
                let (s, k) = outcomes_report(pubkey_path(identity_dir@), todo, results_view(outcomes@));
                &&& signed_view(r.signed@) == s
                &&& pairs_view(r.skipped@) == k
                &&& r.warnings@.len() == 0
            }
        }),
{
    let todo = linux_signable(artifacts);
    let ghost tv = artifacts_view(todo@);
    let mut report = SignReport { signed: Vec::new(), skipped: Vec::new(), warnings: Vec::new() };
    if todo.len() == 0 {
        report.warnings.push(string_from("no Linux AppImage/deb/rpm artifacts found to sign"));
        assert(string_views(report.warnings@) =~= seq![no_bundles_warning()]);
        return report;
    }
    if !openssl_found {
        report.warnings.push(string_from(
            "openssl not found — writing checksums only (no detached signatures)",
        ));
        assert(string_views(report.warnings@) =~= seq![no_openssl_warning()]);
        let mut i: usize = 0;
        while i < todo.len()
            invariant
                i <= todo.len(),
                tv == artifacts_view(todo@),
                string_views(report.warnings@) == seq![no_openssl_warning()],
                report.skipped@.len() == 0,
                signed_view(report.signed@) == tv.take(i as int).map_values(|a: ArtifactV| checksum_entry(a)),
            decreases todo.len() - i,
        {
            let a = &todo[i];
            let ghost before = signed_view(report.signed@);
            report.signed.push(SignedArtifact {
                path: a.path.clone(),
                kind: a.kind,
                method: string_from("checksum-only"),
                note: Some(string_from("install openssl for detached .sig signatures")),
            });
            assert(signed_view(report.signed@) =~= before.push(checksum_entry(a@)));
            assert(tv.take(i + 1).map_values(|a: ArtifactV| checksum_entry(a)) =~= tv.take(
                i as int,
            ).map_values(|a: ArtifactV| checksum_entry(a)).push(checksum_entry(tv[i as int])));
            i = i + 1;
        }
        assert(tv.take(todo.len() as int) =~= tv);
        return report;
    }
    let pubkey = join_str(identity_dir, "pubkey.pem");
    let ghost ov = results_view(outcomes@);
    let mut i: usize = 0;
    assert(signed_view(report.signed@) =~= Seq::<SignedV>::empty());
    assert(pairs_view(report.skipped@) =~= Seq::<(Seq<char>, Seq<char>)>::empty());
    while i < todo.len()
        invariant
            i <= todo.len(),
            todo.len() == outcomes.len(),
            tv == artifacts_view(todo@),
            ov == results_view(outcomes@),
            pubkey@ == pubkey_path(identity_dir@),
            report.warnings@.len() == 0,
            ({
                let (s, k) = outcomes_report(pubkey@, tv.take(i as int), ov.take(i as int));
                &&& signed_view(report.signed@) == s
                &&& pairs_view(report.skipped@) == k
            }),
        decreases todo.len() - i,
    {
        assert(tv.take(i + 1).drop_last() =~= tv.take(i as int));
        assert(ov.take(i + 1).drop_last() =~= ov.take(i as int));
        let ghost s0 = signed_view(report.signed@);
        let ghost k0 = pairs_view(report.skipped@);
        let a = &todo[i];
        match &outcomes[i] {
            Ok(sig) => {
                let e = signed_of(pubkey.as_str(), a, sig.as_str());
                report.signed.push(e);
                assert(signed_view(report.signed@) =~= s0.push(signed_entry(pubkey@, a@, sig@)));
            },
            Err(err) => {
                let mut reason = string_from("openssl detached sign failed: ");
                push_str(&mut reason, err.as_str());
                report.skipped.push((a.path.clone(), reason));
                assert(pairs_view(report.skipped@) =~= k0.push(
                    (a.path@, "openssl detached sign failed: "@ + err@),
                ));
            },
        }
        i = i + 1;
    }
    assert(tv.take(todo.len() as int) =~= tv);
    assert(ov.take(todo.len() as int) =~= ov);
    report
}

/// Every Linux bundle of a signing pass with `openssl` ends up either signed or skipped,
/// never both and never dropped: one outcome, one entry.
pub proof fn law_every_bundle_accounted(
    pubkey: Seq<char>,
    todo: Seq<ArtifactV>,
    outs: Seq<Result<Seq<char>, Seq<char>>>,
)
    requires
        outs.len() == todo.len(),
    ensures
        ({
            let (s, k) = outcomes_report(pubkey, todo, outs);
            &&& s.len() + k.len() == todo.len()
            &&& s.len() == outs.filter(|o: Result<Seq<char>, Seq<char>>| o is Ok).len()
        }),
    decreases todo.len(),
{
    reveal(Seq::filter);
    if todo.len() > 0 {
        law_every_bundle_accounted(pubkey, todo.drop_last(), outs.drop_last());
        assert(outs.drop_last().push(outs.last()) =~= outs);
    }
}

} // verus!
