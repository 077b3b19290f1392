//! Signing APKs: which files are signed and which skipped, and the signer command.
//!
//! Running apksigner / jarsigner is the caller's; it reports each outcome back.
use vstd::prelude::*;

use super::keystore::AndroidKeyPaths;
use crate::fs::{fs_is_file, FsSnapshot};
use crate::paths::{file_name, file_name_vec};
use crate::text::{chars_of, ends_with, lower_seq, lower_vec, push_str, string_from, vec_ends_with};

verus! {

#[derive(Debug)]
pub struct AndroidSignReport {
    pub signed: Vec<(String, String)>,
    pub skipped: Vec<(String, String)>,
    pub warnings: Vec<String>,
}

pub open spec fn pairs_view(v: Seq<(String, String)>) -> Seq<(Seq<char>, Seq<char>)> {
    v.map_values(|p: (String, String)| (p.0@, p.1@))
}

pub open spec fn strs_view(v: Seq<String>) -> Seq<Seq<char>> {
    v.map_values(|s: String| s@)
}

/// What happens to one APK path before any signer runs.
pub enum ApkTriage {
    /// Skipped with this reason, after this warning (if any).
    Skip(Seq<char>, Option<Seq<char>>),
    Sign,
}

pub open spec fn aab_warning(p: Seq<char>) -> Seq<char> {
    "skipping "@ + p
        + ": AAB Play upload signing is documented in docs/android.md — Signet does not treat a local keystore as the Play app signing key"@
}

pub open spec fn triage_spec(fs: Seq<crate::fs::EntryV>, apk: Seq<char>) -> ApkTriage {
    let name = lower_seq(
        match file_name(apk) {
            Some(n) => n,
            None => Seq::empty(),
        },
    );
    if !fs_is_file(fs, apk) {
        ApkTriage::Skip("file not found"@, None)
    } else if ends_with(name, ".aab"@) {
        ApkTriage::Skip("aab — see docs/android.md"@, Some(aab_warning(apk)))
    } else if !ends_with(name, ".apk"@) {
        ApkTriage::Skip("not an .apk"@, None)
    } else {
        ApkTriage::Sign
    }
}

/// The report after the pre-signing pass over `apks`, and the APKs left to sign.
pub open spec fn triage_all(fs: Seq<crate::fs::EntryV>, apks: Seq<Seq<char>>) -> (Seq<(Seq<char>, Seq<char>)>, Seq<Seq<char>>, Seq<Seq<char>>)
    decreases apks.len(),
{
    if apks.len() == 0 {
        (Seq::empty(), Seq::empty(), Seq::empty())
    } else {
        let (sk, ws, todo) = triage_all(fs, apks.drop_last());
        let p = apks.last();
        match triage_spec(fs, p) {
            ApkTriage::Skip(reason, w) => (
                sk.push((p, reason)),
                match w {
                    Some(x) => ws.push(x),
                    None => ws,
                },
                todo,
            ),
            ApkTriage::Sign => (sk, ws, todo.push(p)),
        }
    }
}

pub open spec fn keystore_missing_msg(keystore: Seq<char>) -> Seq<char> {
    "android keystore missing at "@ + keystore + " — run `signet android keystore create`"@
}

/// The pass before signing: an error when the keystore is missing, else the report with
/// every skipped APK and warning, and the APKs to sign, in order.
pub fn sign_apks(paths: &AndroidKeyPaths, apks: &[String], fs: &FsSnapshot) -> (r: Result<(AndroidSignReport, Vec<String>), String>)
    ensures
        !fs_is_file(fs@, paths.keystore@) ==> (r matches Err(e) && e@ == keystore_missing_msg(paths.keystore@)),
        fs_is_file(fs@, paths.keystore@) ==> (r matches Ok((rep, todo)) && {
            let (sk, ws, td) = triage_all(fs@, strs_view(apks@));
            &&& rep.signed@.len() == 0
            &&& pairs_view(rep.skipped@) == sk
            &&& strs_view(rep.warnings@) == ws
            &&& strs_view(todo@) == td
        }),
{
    if !fs.is_file(paths.keystore.as_str()) {
        let mut m = string_from("android keystore missing at ");
        push_str(&mut m, paths.keystore.as_str());
        push_str(&mut m, " — run `signet android keystore create`");
        return Err(m);
    }
    let mut report = AndroidSignReport { signed: Vec::new(), skipped: Vec::new(), warnings: Vec::new() };
    let mut todo: Vec<String> = Vec::new();
    let ghost av = strs_view(apks@);
    let mut i: usize = 0;
    assert(av.take(0) =~= Seq::<Seq<char>>::empty());
    assert(pairs_view(report.skipped@) =~= Seq::<(Seq<char>, Seq<char>)>::empty());
    assert(strs_view(report.warnings@) =~= Seq::<Seq<char>>::empty());
    assert(strs_view(todo@) =~= Seq::<Seq<char>>::empty());
    while i < apks.len()
        invariant
            i <= apks.len(),
            av == strs_view(apks@),
            report.signed@.len() == 0,
            ({
                let (sk, ws, td) = triage_all(fs@, av.take(i as int));
                &&& pairs_view(report.skipped@) == sk
                &&& strs_view(report.warnings@) == ws
                &&& strs_view(todo@) == td
            }),
        decreases apks.len() - i,
    {
        assert(av.take(i + 1).drop_last() =~= av.take(i as int));
        assert(av.take(i + 1).last() == apks@[i as int]@);
        let ghost sk0 = pairs_view(report.skipped@);
        let ghost ws0 = strs_view(report.warnings@);
        let ghost td0 = strs_view(todo@);
        let p = &apks[i];
        let name = match file_name_vec(&chars_of(p.as_str())) {
            Some(n) => lower_vec(&n),
            None => {
                let e: Vec<char> = Vec::new();
                assert(e@ =~= Seq::<char>::empty());
                lower_vec(&e)
            },
        };
        if !fs.is_file(p.as_str()) {
            report.skipped.push((p.clone(), string_from("file not found")));
            assert(pairs_view(report.skipped@) =~= sk0.push((p@, "file not found"@)));
        } else if vec_ends_with(&name, &chars_of(".aab")) {
            let mut w = string_from("skipping ");
            push_str(&mut w, p.as_str());
            push_str(&mut w, ": AAB Play upload signing is documented in docs/android.md — Signet does not treat a local keystore as the Play app signing key");
            report.warnings.push(w);
            report.skipped.push((p.clone(), string_from("aab — see docs/android.md")));
            assert(pairs_view(report.skipped@) =~= sk0.push((p@, "aab — see docs/android.md"@)));
            assert(strs_view(report.warnings@) =~= ws0.push(aab_warning(p@)));
        } else if !vec_ends_with(&name, &chars_of(".apk")) {
            report.skipped.push((p.clone(), string_from("not an .apk")));
            assert(pairs_view(report.skipped@) =~= sk0.push((p@, "not an .apk"@)));
        } else {
            todo.push(p.clone());
            assert(strs_view(todo@) =~= td0.push(p@));
        }
        i = i + 1;
    }
    assert(av.take(apks.len() as int) =~= av);
    Ok((report, todo))
}

pub open spec fn outcome_view(o: Result<String, String>) -> Result<Seq<char>, Seq<char>> {
    match o {
        Ok(m) => Ok(m@),
        Err(e) => Err(e@),
    }
}

pub open spec fn outcomes_view(v: Seq<Result<String, String>>) -> Seq<Result<Seq<char>, Seq<char>>> {
    v.map_values(|o: Result<String, String>| outcome_view(o))
}

/// What the report says of APK `p`, after the APKs `before`: `(signed, path, detail)`. A
/// pre-pass skip keeps its reason; an APK to sign takes the next signing outcome (the one
/// after those of the APKs to sign in `before`): the method when it signed, else the error.
pub open spec fn apk_entry(
    fs: Seq<crate::fs::EntryV>,
    before: Seq<Seq<char>>,
    p: Seq<char>,
    outs: Seq<Result<Seq<char>, Seq<char>>>,
) -> (bool, Seq<char>, Seq<char>) {
    match triage_spec(fs, p) {
        ApkTriage::Skip(reason, _) => (false, p, reason),
        ApkTriage::Sign => match outs[triage_all(fs, before).2.len() as int] {
            Ok(m) => (true, p, m),
            Err(e) => (false, p, e),
        },
    }
}

/// One report entry per APK, in input order.
pub open spec fn apk_entries(
    fs: Seq<crate::fs::EntryV>,
    apks: Seq<Seq<char>>,
    outs: Seq<Result<Seq<char>, Seq<char>>>,
) -> Seq<(bool, Seq<char>, Seq<char>)>
    decreases apks.len(),
{
    if apks.len() == 0 {
        Seq::empty()
    } else {
        apk_entries(fs, apks.drop_last(), outs).push(apk_entry(fs, apks.drop_last(), apks.last(), outs))
    }
}

/// The signed entries, in order, as `(path, method)`.
pub open spec fn signed_entries(es: Seq<(bool, Seq<char>, Seq<char>)>) -> Seq<(Seq<char>, Seq<char>)>
    decreases es.len(),
{
    if es.len() == 0 {
        Seq::empty()
    } else {
        signed_entries(es.drop_last()) + if es.last().0 {
            seq![(es.last().1, es.last().2)]
        } else {
            Seq::empty()
        }
    }
}

/// The skipped entries, in order, as `(path, reason)`.
pub open spec fn skipped_entries(es: Seq<(bool, Seq<char>, Seq<char>)>) -> Seq<(Seq<char>, Seq<char>)>
    decreases es.len(),
{
    if es.len() == 0 {
        Seq::empty()
    } else {
        skipped_entries(es.drop_last()) + if es.last().0 {
            Seq::empty()
        } else {
            seq![(es.last().1, es.last().2)]
        }
    }
}

/// The APKs to sign among a prefix are no more than among the whole list.
proof fn lemma_todo_prefix(fs: Seq<crate::fs::EntryV>, apks: Seq<Seq<char>>, i: int)
    requires
        0 <= i <= apks.len(),
    ensures
        triage_all(fs, apks.take(i)).2.len() <= triage_all(fs, apks).2.len(),
    decreases apks.len() - i,
{
    if i < apks.len() {
        lemma_todo_prefix(fs, apks, i + 1);
        assert(apks.take(i + 1).drop_last() =~= apks.take(i));
    } else {
        assert(apks.take(i) =~= apks);
    }
}

/// Every APK handed to signing is accounted for once, in input order: its entry names it,
/// and it is either signed or skipped.
pub proof fn law_android_report_accounts_each_apk(
    fs: Seq<crate::fs::EntryV>,
    apks: Seq<Seq<char>>,
    outs: Seq<Result<Seq<char>, Seq<char>>>,
)
    ensures
        apk_entries(fs, apks, outs).len() == apks.len(),
        forall|i: int| 0 <= i < apks.len() ==> (#[trigger] apk_entries(fs, apks, outs)[i]).1 == apks[i],
        signed_entries(apk_entries(fs, apks, outs)).len() + skipped_entries(apk_entries(fs, apks, outs)).len()
            == apks.len(),
    decreases apks.len(),
{
    if apks.len() > 0 {
        law_android_report_accounts_each_apk(fs, apks.drop_last(), outs);
        let es = apk_entries(fs, apks, outs);
        assert(es.drop_last() =~= apk_entries(fs, apks.drop_last(), outs));
        assert forall|i: int| 0 <= i < apks.len() implies (#[trigger] apk_entries(fs, apks, outs)[i]).1 == apks[i] by {
            if i < apks.len() - 1 {
                assert(es[i] == apk_entries(fs, apks.drop_last(), outs)[i]);
            }
        }
    }
}

/// The signing report: every APK in input order, signed with its method or skipped with
/// the pre-pass reason or the signing error, and the pre-pass warnings. `outcomes` holds
/// what signing gave for each APK `sign_apks` left to sign, in that order.
pub fn signing_report(apks: &[String], fs: &FsSnapshot, outcomes: &Vec<Result<String, String>>) -> (r: AndroidSignReport)
    requires
        outcomes@.len() == triage_all(fs@, strs_view(apks@)).2.len(),
    ensures
        pairs_view(r.signed@) == signed_entries(apk_entries(fs@, strs_view(apks@), outcomes_view(outcomes@))),
        pairs_view(r.skipped@) == skipped_entries(apk_entries(fs@, strs_view(apks@), outcomes_view(outcomes@))),
        strs_view(r.warnings@) == triage_all(fs@, strs_view(apks@)).1,
        r.signed@.len() + r.skipped@.len() == apks@.len(),
{
    let mut report = AndroidSignReport { signed: Vec::new(), skipped: Vec::new(), warnings: Vec::new() };
    let ghost av = strs_view(apks@);
    let ghost ov = outcomes_view(outcomes@);
    let mut k: usize = 0;
    let mut i: usize = 0;
    assert(av.take(0) =~= Seq::<Seq<char>>::empty());
    assert(pairs_view(report.signed@) =~= Seq::<(Seq<char>, Seq<char>)>::empty());
    assert(pairs_view(report.skipped@) =~= Seq::<(Seq<char>, Seq<char>)>::empty());
    assert(strs_view(report.warnings@) =~= Seq::<Seq<char>>::empty());
    while i < apks.len()
        invariant
            i <= apks.len(),
            av == strs_view(apks@),
            ov == outcomes_view(outcomes@),
            outcomes@.len() == triage_all(fs@, av).2.len(),
            k == triage_all(fs@, av.take(i as int)).2.len(),
            pairs_view(report.signed@) == signed_entries(apk_entries(fs@, av.take(i as int), ov)),
            pairs_view(report.skipped@) == skipped_entries(apk_entries(fs@, av.take(i as int), ov)),
            strs_view(report.warnings@) == triage_all(fs@, av.take(i as int)).1,
        decreases apks.len() - i,
    {
        let ghost pre = av.take(i as int);
        assert(av.take(i + 1).drop_last() =~= pre);
        assert(av.take(i + 1).last() == apks@[i as int]@);
        let ghost es = apk_entries(fs@, av.take(i + 1), ov);
        assert(es.drop_last() =~= apk_entries(fs@, pre, ov));
        let ghost sg0 = pairs_view(report.signed@);
        let ghost sk0 = pairs_view(report.skipped@);
        let ghost ws0 = strs_view(report.warnings@);
        let p = &apks[i];
        let name = match file_name_vec(&chars_of(p.as_str())) {
            Some(n) => lower_vec(&n),
            None => {
                let e: Vec<char> = Vec::new();
                assert(e@ =~= Seq::<char>::empty());
                lower_vec(&e)
            },
        };
        if !fs.is_file(p.as_str()) {
            report.skipped.push((p.clone(), string_from("file not found")));
            assert(pairs_view(report.skipped@) =~= sk0.push((p@, "file not found"@)));
            assert(signed_entries(es) =~= sg0);
        } else if vec_ends_with(&name, &chars_of(".aab")) {
            let mut w = string_from("skipping ");
            push_str(&mut w, p.as_str());
            push_str(&mut w, ": AAB Play upload signing is documented in docs/android.md — Signet does not treat a local keystore as the Play app signing key");
            report.warnings.push(w);
            report.skipped.push((p.clone(), string_from("aab — see docs/android.md")));
            assert(pairs_view(report.skipped@) =~= sk0.push((p@, "aab — see docs/android.md"@)));
            assert(strs_view(report.warnings@) =~= ws0.push(aab_warning(p@)));
            assert(signed_entries(es) =~= sg0);
        } else if !vec_ends_with(&name, &chars_of(".apk")) {
            report.skipped.push((p.clone(), string_from("not an .apk")));
            assert(pairs_view(report.skipped@) =~= sk0.push((p@, "not an .apk"@)));
            assert(signed_entries(es) =~= sg0);
        } else {
            proof {
                lemma_todo_prefix(fs@, av, i + 1);
            }
            assert(k < outcomes.len());
            assert(ov[k as int] == outcome_view(outcomes@[k as int]));
            match &outcomes[k] {
                Ok(m) => {
                    report.signed.push((p.clone(), m.clone()));
                    assert(pairs_view(report.signed@) =~= sg0.push((p@, m@)));
                    assert(skipped_entries(es) =~= sk0);
                },
                Err(e) => {
                    report.skipped.push((p.clone(), e.clone()));
                    assert(pairs_view(report.skipped@) =~= sk0.push((p@, e@)));
                    assert(signed_entries(es) =~= sg0);
                },
            }
            k = k + 1;
        }
        i = i + 1;
    }
    assert(av.take(apks.len() as int) =~= av);
    proof {
        law_android_report_accounts_each_apk(fs@, av, ov);
    }
    report
}

/// The signer command for one APK: apksigner when found, else jarsigner, else an error.
/// Returns the program, its arguments, and the method label for the report.
pub open spec fn sign_apk_spec(
    apk: Seq<char>,
    keystore: Seq<char>,
    alias: Seq<char>,
    store_pass: Seq<char>,
    key_pass: Seq<char>,
    apksigner: Option<Seq<char>>,
    jarsigner: Option<Seq<char>>,
) -> Result<(Seq<char>, Seq<Seq<char>>, Seq<char>), Seq<char>> {
    match apksigner {
        Some(a) => Ok((
            a,
            seq![
                "sign"@,
                "--ks"@,
                keystore,
                "--ks-key-alias"@,
                alias,
                "--ks-pass"@,
                "pass:"@ + store_pass,
                "--key-pass"@,
                "pass:"@ + key_pass,
                apk,
            ],
            "apksigner ("@ + a + ")"@,
        )),
        None => match jarsigner {
            Some(j) => Ok((
                j,
                seq![
                    "-verbose"@,
                    "-sigalg"@,
                    "SHA256withRSA"@,
                    "-digestalg"@,
                    "SHA-256"@,
                    "-keystore"@,
                    keystore,
                    "-storepass"@,
                    store_pass,
                    "-keypass"@,
                    key_pass,
                    apk,
                    alias,
                ],
                "jarsigner ("@ + j + ")"@,
            )),
            None => Err(
                "neither apksigner nor jarsigner found — install Android SDK build-tools or a JDK"@,
            ),
        },
    }
}

pub open spec fn ostr(o: Option<String>) -> Option<Seq<char>> {
    match o {
        Some(s) => Some(s@),
        None => None,
    }
}

fn prefixed(p: &str, s: &str) -> (r: String)
    ensures
        r@ == p@ + s@,
{
    let mut t = string_from(p);
    push_str(&mut t, s);
    t
}

pub fn sign_apk(
    apk: &str,
    paths: &AndroidKeyPaths,
    alias: &str,
    store_pass: &str,
    key_pass: &str,
    apksigner: Option<String>,
    jarsigner: Option<String>,
) -> (r: Result<(String, Vec<String>, String), String>)
    ensures
        match (r, sign_apk_spec(apk@, paths.keystore@, alias@, store_pass@, key_pass@, ostr(apksigner), ostr(jarsigner))) {
            (Ok((p, a, m)), Ok((sp, sa, sm))) => p@ == sp && strs_view(a@) == sa && m@ == sm,
            (Err(e), Err(se)) => e@ == se,
            _ => false,
        },
{
    match apksigner {
        Some(a) => {
            let mut args: Vec<String> = Vec::new();
            args.push(string_from("sign"));
            args.push(string_from("--ks"));
            args.push(paths.keystore.clone());
            args.push(string_from("--ks-key-alias"));
            args.push(string_from(alias));
            args.push(string_from("--ks-pass"));
            args.push(prefixed("pass:", store_pass));
            args.push(string_from("--key-pass"));
            args.push(prefixed("pass:", key_pass));
            args.push(string_from(apk));
            let m = {
                let mut t = string_from("apksigner (");
                push_str(&mut t, a.as_str());
                push_str(&mut t, ")");
                t
            };
            assert(strs_view(args@) =~= seq![
                "sign"@,
                "--ks"@,
                paths.keystore@,
                "--ks-key-alias"@,
                alias@,
                "--ks-pass"@,
                "pass:"@ + store_pass@,
                "--key-pass"@,
                "pass:"@ + key_pass@,
                apk@,
            ]);
            Ok((a, args, m))
        },
        None => match jarsigner {
            Some(j) => {
                let mut args: Vec<String> = Vec::new();
                args.push(string_from("-verbose"));
                args.push(string_from("-sigalg"));
                args.push(string_from("SHA256withRSA"));
                args.push(string_from("-digestalg"));
                args.push(string_from("SHA-256"));
                args.push(string_from("-keystore"));
                args.push(paths.keystore.clone());
                args.push(string_from("-storepass"));
                args.push(string_from(store_pass));
                args.push(string_from("-keypass"));
                args.push(string_from(key_pass));
                args.push(string_from(apk));
                args.push(string_from(alias));
                let m = {
                    let mut t = string_from("jarsigner (");
                    push_str(&mut t, j.as_str());
                    push_str(&mut t, ")");
                    t
                };
                assert(strs_view(args@) =~= seq![
                    "-verbose"@,
                    "-sigalg"@,
                    "SHA256withRSA"@,
                    "-digestalg"@,
                    "SHA-256"@,
                    "-keystore"@,
                    paths.keystore@,
                    "-storepass"@,
                    store_pass@,
                    "-keypass"@,
                    key_pass@,
                    apk@,
                    alias@,
                ]);
                Ok((j, args, m))
            },
            None => Err(string_from("neither apksigner nor jarsigner found — install Android SDK build-tools or a JDK")),
        },
    }
}

} // verus!
