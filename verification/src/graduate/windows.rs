//! Windows OV Authenticode + Azure Trusted Signing: the `signtool sign` argument lists.
use vstd::prelude::*;

use crate::argv::string_views;
use crate::config::{default_azure_timestamp, default_azure_timestamp_spec, default_ov_timestamp, default_ov_timestamp_spec};
use crate::fs::{fs_is_file, FsSnapshot};
use crate::text::{chars_of, is_whitespace, is_ws, push_str, string_from, string_of, trim, trim_vec};

verus! {

pub const DEFAULT_OV_TIMESTAMP: &'static str = "http://timestamp.digicert.com";

pub const DEFAULT_AZURE_TIMESTAMP: &'static str = "http://timestamp.acs.microsoft.com";

#[derive(Debug, Clone)]
pub enum OvCredential {
    Thumbprint(String),
    Pfx { path: String, password: String },
}

#[derive(Debug, Clone)]
pub struct OvSignOptions {
    pub credential: OvCredential,
    pub timestamp_url: String,
    pub timestamp: bool,
}

impl Default for OvSignOptions {
    fn default() -> (r: Self)
        ensures
            r.credential matches OvCredential::Thumbprint(t) && t@.len() == 0,
            r.timestamp_url@ == default_ov_timestamp_spec(),
            r.timestamp,
    {
        OvSignOptions {
            credential: OvCredential::Thumbprint(String::new()),
            timestamp_url: default_ov_timestamp(),
            timestamp: true,
        }
    }
}

#[derive(Debug, Clone)]
pub struct AzureSignOptions {
    pub dlib: String,
    pub metadata: String,
    pub timestamp_url: String,
}

impl Default for AzureSignOptions {
    fn default() -> (r: Self)
        ensures
            r.dlib@.len() == 0,
            r.metadata@.len() == 0,
            r.timestamp_url@ == default_azure_timestamp_spec(),
    {
        AzureSignOptions {
            dlib: String::new(),
            metadata: String::new(),
            timestamp_url: default_azure_timestamp(),
        }
    }
}

/// The thumbprint with all whitespace removed.
pub open spec fn strip_ws(s: Seq<char>) -> Seq<char> {
    s.filter(|c: char| !is_ws(c))
}

pub open spec fn ov_missing_thumbprint_msg() -> Seq<char> {
    "OV thumbprint required — pass --thumbprint, SIGNET_OV_THUMBPRINT, or [graduation].ov_thumbprint (or use --pfx / SIGNET_OV_PFX). Will not fall back to Signet self-signed identity."@
}

pub open spec fn ov_missing_pass_msg() -> Seq<char> {
    "SIGNET_OV_PFX_PASS (or --pfx-pass) required when using a PFX"@
}

/// `signtool` arguments for an OV signature of `file`, or the error the credential check
/// gives.
pub open spec fn ov_sign_argv_spec(
    cred: OvCredential,
    timestamp_url: Seq<char>,
    timestamp: bool,
    file: Seq<char>,
    fs: Seq<crate::fs::EntryV>,
) -> Result<Seq<Seq<char>>, Seq<char>> {
    let ts = if timestamp {
        seq!["/td"@, "SHA256"@, "/tr"@, timestamp_url]
    } else {
        Seq::empty()
    };
    match cred {
        OvCredential::Thumbprint(tp) => if trim(tp@).len() == 0 {
            Err(ov_missing_thumbprint_msg())
        } else {
            Ok(seq!["sign"@, "/fd"@, "SHA256"@] + ts + seq!["/sha1"@, strip_ws(tp@), file])
        },
        OvCredential::Pfx { path, password } => if !fs_is_file(fs, path@) {
            Err("OV PFX not found: "@ + path@)
        } else if password@.len() == 0 {
            Err(ov_missing_pass_msg())
        } else {
            Ok(seq!["sign"@, "/fd"@, "SHA256"@] + ts + seq!["/f"@, path@, "/p"@, password@, file])
        },
    }
}

fn strip_whitespace(s: &str) -> (r: String)
    ensures
        r@ == strip_ws(s@),
{
    let v = chars_of(s);
    let mut out: Vec<char> = Vec::new();
    let mut i: usize = 0;
    while i < v.len()
        invariant
            i <= v.len(),
            out@ == strip_ws(v@.take(i as int)),
        decreases v.len() - i,
    {
        proof {
            assert(v@.take(i + 1).drop_last() =~= v@.take(i as int));
            reveal(Seq::filter);
        }
        if !is_whitespace(v[i]) {
            out.push(v[i]);
        }
        i = i + 1;
    }
    assert(v@.take(v.len() as int) =~= v@);
    string_of(&out)
}

/// Build `signtool sign …` argv after the executable path.
pub fn build_ov_sign_argv(opts: &OvSignOptions, file: &str, fs: &FsSnapshot) -> (r: Result<Vec<String>, String>)
    ensures
        match (r, ov_sign_argv_spec(opts.credential, opts.timestamp_url@, opts.timestamp, file@, fs@)) {
            (Ok(v), Ok(s)) => string_views(v@) == s,
            (Err(e), Err(s)) => e@ == s,
            _ => false,
        },
{
    match &opts.credential {
        OvCredential::Thumbprint(tp) => {
            if trim_vec(&chars_of(tp.as_str())).len() == 0 {
                return Err(
                    string_from(
                        "OV thumbprint required — pass --thumbprint, SIGNET_OV_THUMBPRINT, or [graduation].ov_thumbprint (or use --pfx / SIGNET_OV_PFX). Will not fall back to Signet self-signed identity.",
                    ),
                );
            }
        },
        OvCredential::Pfx { path, password } => {
            if !fs.is_file(path.as_str()) {
                let mut m = string_from("OV PFX not found: ");
                push_str(&mut m, path.as_str());
                return Err(m);
            }
            if password.as_str().is_empty() {
                return Err(string_from("SIGNET_OV_PFX_PASS (or --pfx-pass) required when using a PFX"));
            }
        },
    }
    let mut args: Vec<String> = vec![string_from("sign"), string_from("/fd"), string_from("SHA256")];
    let ghost head = seq!["sign"@, "/fd"@, "SHA256"@];
    assert(string_views(args@) =~= head);
    let ghost ts = if opts.timestamp {
        seq!["/td"@, "SHA256"@, "/tr"@, opts.timestamp_url@]
    } else {
        Seq::<Seq<char>>::empty()
    };
    if opts.timestamp {
        args.push(string_from("/td"));
        args.push(string_from("SHA256"));
        args.push(string_from("/tr"));
        args.push(opts.timestamp_url.clone());
    }
    assert(string_views(args@) =~= head + ts);
    let ghost mid = string_views(args@);
    match &opts.credential {
        OvCredential::Thumbprint(tp) => {
            let cleaned = strip_whitespace(tp.as_str());
            args.push(string_from("/sha1"));
            args.push(cleaned);
            args.push(string_from(file));
            assert(string_views(args@) =~= mid + seq!["/sha1"@, strip_ws(tp@), file@]);
        },
        OvCredential::Pfx { path, password } => {
            args.push(string_from("/f"));
            args.push(path.clone());
            args.push(string_from("/p"));
            args.push(password.clone());
            args.push(string_from(file));
            assert(string_views(args@) =~= mid + seq!["/f"@, path@, "/p"@, password@, file@]);
        },
    }
    Ok(args)
}

pub open spec fn azure_missing_dlib_msg() -> Seq<char> {
    "Azure Code Signing dlib required — set [graduation.azure].dlib or SIGNET_AZURE_DLIB (see docs/graduation.md)"@
}

pub open spec fn azure_missing_metadata_msg() -> Seq<char> {
    "Azure Trusted Signing metadata JSON required — set [graduation.azure].metadata or SIGNET_AZURE_METADATA"@
}

/// `signtool` arguments for an Azure Trusted Signing signature of `file`.
pub open spec fn azure_sign_argv_spec(
    dlib: Seq<char>,
    metadata: Seq<char>,
    timestamp_url: Seq<char>,
    file: Seq<char>,
    fs: Seq<crate::fs::EntryV>,
) -> Result<Seq<Seq<char>>, Seq<char>> {
    if dlib.len() == 0 || !fs_is_file(fs, dlib) {
        Err(azure_missing_dlib_msg())
    } else if metadata.len() == 0 || !fs_is_file(fs, metadata) {
        Err(azure_missing_metadata_msg())
    } else {
        Ok(
            seq![
                "sign"@,
                "/fd"@,
                "SHA256"@,
                "/td"@,
                "SHA256"@,
                "/tr"@,
                timestamp_url,
                "/dlib"@,
                dlib,
                "/dmdf"@,
                metadata,
                file,
            ],
        )
    }
}

pub fn build_azure_sign_argv(opts: &AzureSignOptions, file: &str, fs: &FsSnapshot) -> (r: Result<Vec<String>, String>)
    ensures
        match (r, azure_sign_argv_spec(opts.dlib@, opts.metadata@, opts.timestamp_url@, file@, fs@)) {
            (Ok(v), Ok(s)) => string_views(v@) == s,
            (Err(e), Err(s)) => e@ == s,
            _ => false,
        },
{
    if opts.dlib.as_str().is_empty() || !fs.is_file(opts.dlib.as_str()) {
        return Err(
            string_from(
                "Azure Code Signing dlib required — set [graduation.azure].dlib or SIGNET_AZURE_DLIB (see docs/graduation.md)",
            ),
        );
    }
    if opts.metadata.as_str().is_empty() || !fs.is_file(opts.metadata.as_str()) {
        return Err(
            string_from(
                "Azure Trusted Signing metadata JSON required — set [graduation.azure].metadata or SIGNET_AZURE_METADATA",
            ),
        );
    }
    let v = vec![
        string_from("sign"),
        string_from("/fd"),
        string_from("SHA256"),
        string_from("/td"),
        string_from("SHA256"),
        string_from("/tr"),
        opts.timestamp_url.clone(),
        string_from("/dlib"),
        opts.dlib.clone(),
        string_from("/dmdf"),
        opts.metadata.clone(),
        string_from(file),
    ];
    assert(string_views(v@) =~= seq![
        "sign"@,
        "/fd"@,
        "SHA256"@,
        "/td"@,
        "SHA256"@,
        "/tr"@,
        opts.timestamp_url@,
        "/dlib"@,
        opts.dlib@,
        "/dmdf"@,
        opts.metadata@,
        file@,
    ]);
    Ok(v)
}

/// An OV `signtool` command line starts `sign /fd SHA256`; with timestamping it continues
/// `/td SHA256 /tr <url>` right after, and without it carries no `/td` or `/tr` there; it
/// ends with the file.
pub proof fn law_ov_argv_timestamp(
    cred: OvCredential,
    timestamp_url: Seq<char>,
    timestamp: bool,
    file: Seq<char>,
    fs: Seq<crate::fs::EntryV>,
)
    ensures
        ov_sign_argv_spec(cred, timestamp_url, timestamp, file, fs) matches Ok(a) ==> {
            &&& a.len() >= 4
            &&& a.subrange(0, 3) == seq!["sign"@, "/fd"@, "SHA256"@]
            &&& a.last() == file
            &&& timestamp ==> a.len() >= 8 && a.subrange(3, 7) == seq!["/td"@, "SHA256"@, "/tr"@, timestamp_url]
            &&& !timestamp ==> a[3] != "/td"@ && a[3] != "/tr"@
            &&& (cred matches OvCredential::Thumbprint(tp) ==> a.len() >= 6 && a.subrange(
                a.len() - 3,
                a.len() as int,
            ) == seq!["/sha1"@, strip_ws(tp@), file])
            &&& (cred matches OvCredential::Pfx { path, password } ==> a.len() >= 8 && a.subrange(
                a.len() - 5,
                a.len() as int,
            ) == seq!["/f"@, path@, "/p"@, password@, file])
        },
{
    reveal_strlit("/td");
    reveal_strlit("/tr");
    reveal_strlit("/sha1");
    reveal_strlit("/f");
    if let Ok(a) = ov_sign_argv_spec(cred, timestamp_url, timestamp, file, fs) {
        assert(a.subrange(0, 3) =~= seq!["sign"@, "/fd"@, "SHA256"@]);
        match cred {
            OvCredential::Thumbprint(tp) => {
                assert(a.subrange(a.len() - 3, a.len() as int) =~= seq!["/sha1"@, strip_ws(tp@), file]);
            },
            OvCredential::Pfx { path, password } => {
                assert(a.subrange(a.len() - 5, a.len() as int) =~= seq!["/f"@, path@, "/p"@, password@, file]);
            },
        }
        if timestamp {
            assert(a.subrange(3, 7) =~= seq!["/td"@, "SHA256"@, "/tr"@, timestamp_url]);
        } else {
            assert("/sha1"@ != "/td"@ && "/sha1"@ != "/tr"@ && "/f"@ != "/td"@ && "/f"@ != "/tr"@) by {
                assert("/sha1"@.len() == 5 && "/f"@.len() == 2 && "/td"@.len() == 3 && "/tr"@.len() == 3);
            }
        }
    }
}

} // verus!
