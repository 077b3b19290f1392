//! Local signing identities under `.signet/identity/<name>/`: creating a self-signed
//! code-signing certificate, importing one, the `active` pointer, and reloading with the
//! fingerprint refreshed from the certificate.
//!
//! Reading and writing the files (and their TOML) is the caller's; the records, checks and
//! certificate work are here.
use vstd::prelude::*;

use rcgen::ExtendedKeyUsagePurpose::CodeSigning;
use rcgen::KeyUsagePurpose::{DigitalSignature, KeyEncipherment};
use rcgen::{CertificateParams, DnType};
use time::OffsetDateTime;

use super::fingerprint::{fingerprint_sha256_colon, fingerprint_spec, pem_first_block, pem_to_der};
use crate::clock::{instant_nanos, nanos_of, rfc3339_utc, unix_time_in_range};
use crate::fs::{fs_exists, fs_is_dir, listing, EntryV, FsEntry, FsSnapshot};
use crate::order::{chars_lt, chars_lt_vec, lemma_chars_lt_irrefl, lemma_chars_lt_total, lemma_chars_lt_trans};
use crate::paths::{join, join_str};
use crate::text::{chars_of, contains, push_str, starts_with, string_from, string_of, trim, trim_vec, vec_contains, vec_starts_with};

verus! {

pub const ACTIVE_FILE: &'static str = "active";

pub const META_FILE: &'static str = "meta.toml";

pub const CERT_FILE: &'static str = "cert.pem";

pub const KEY_FILE: &'static str = "key.pem";

#[derive(Debug, Clone, PartialEq, Eq)]
pub struct IdentityMeta {
    pub name: String,
    pub common_name: String,
    pub organization: String,
    pub fingerprint_sha256: String,
    pub created_at: String,
    pub not_before: String,
    pub not_after: String,
    pub key_algorithm: String,
}

#[derive(Debug, Clone)]
pub struct IdentityRecord {
    pub meta: IdentityMeta,
    pub dir: String,
    pub cert_pem: String,
    /// Present when loaded from disk for signing later; never print this.
    pub key_pem: String,
}

#[derive(Debug, Clone)]
pub struct ActivePointer {
    pub name: String,
}

#[derive(Debug, Clone)]
pub struct CreateOptions {
    pub name: String,
    pub common_name: String,
    pub organization: String,
    pub days: u32,
    pub force: bool,
}

#[derive(Debug, Clone)]
pub struct ImportOptions {
    pub name: String,
    pub cert_path: String,
    pub key_path: String,
    pub force: bool,
}

/// A key usage a certificate is issued with.
#[derive(Debug, Clone, Copy, PartialEq, Eq)]
pub enum KeyUse {
    DigitalSignature,
    KeyEncipherment,
}

/// An extended key usage a certificate is issued with.
#[derive(Debug, Clone, Copy, PartialEq, Eq)]
pub enum ExtendedKeyUse {
    CodeSigning,
}

/// What a self-signed certificate is issued with: its subject, its validity bounds in Unix
/// seconds, and its key usages.
#[derive(Debug)]
pub struct CertRequest {
    pub common_name: String,
    pub organization: Option<String>,
    pub not_before: i64,
    pub not_after: i64,
    pub key_usages: Vec<KeyUse>,
    pub extended_key_usages: Vec<ExtendedKeyUse>,
}

#[verifier::external_type_specification]
#[verifier::external_body]
pub struct ExKeyPair(rcgen::KeyPair);

/// The subject common name, organization, and validity bounds (Unix seconds) of a DER
/// certificate; `None` when it does not parse.
pub uninterp spec fn cert_fields_of(der: Seq<u8>) -> Option<(Option<Seq<char>>, Option<Seq<char>>, i64, i64)>;

/// A message that begins with a capital letter, as all of rcgen's error messages do.
pub open spec fn capitalized(s: Seq<char>) -> bool {
    s.len() > 0 && 'A' <= s[0] && s[0] <= 'Z'
}

/// `rcgen::KeyPair::generate()`: a fresh random ECDSA P-256 key pair, or rcgen's error
/// message. Random, so nothing else is stated of it.
#[verifier::external_body]
fn generate_key_pair() -> (r: Result<rcgen::KeyPair, String>)
    ensures
        r matches Err(e) ==> capitalized(e@),
{
    rcgen::KeyPair::generate().map_err(|e| e.to_string())
}

/// `CertificateParams::self_signed` on `CertificateParams::default()` (not a CA) with the
/// subject CN, then O when given, as UTF-8 strings, the key usages, and the validity bounds
/// of `req`, each converted one for one; then the certificate's `pem()` and `der()`.
/// `pem()` is the `CERTIFICATE` PEM block of exactly the `der()` bytes (rcgen encodes it
/// with the `pem` crate). rcgen writes the validity bounds to the whole second and the
/// subject strings as given, and x509-parser reads them back so, for bounds from 1970 to the
/// end of year 9999. The signature is random; nothing else is stated of the bytes.
#[verifier::external_body]
fn self_signed_code_signing(req: CertRequest, key: &rcgen::KeyPair) -> (r: Result<(String, Vec<u8>), String>)
    requires
        unix_time_in_range(req.not_before),
        unix_time_in_range(req.not_after),
    ensures
        match r {
            Ok((pem, der)) => pem_first_block(pem@) == Some(der@) && (0 <= req.not_before && 0
                <= req.not_after ==> cert_fields_of(der@) == Some(
                (Some(req.common_name@), opt_text(req.organization), req.not_before, req.not_after),
            )),
            Err(e) => capitalized(e@),
        },
{
    let mut p = CertificateParams::default();
    p.distinguished_name.push(DnType::CommonName, req.common_name);
    if let Some(o) = req.organization {
        p.distinguished_name.push(DnType::OrganizationName, o);
    }
    for u in req.key_usages {
        p.key_usages.push(match u { KeyUse::DigitalSignature => DigitalSignature, KeyUse::KeyEncipherment => KeyEncipherment });
    }
    p.extended_key_usages = req.extended_key_usages.iter().map(|_| CodeSigning).collect();
    p.not_before = OffsetDateTime::from_unix_timestamp(req.not_before).unwrap();
    p.not_after = OffsetDateTime::from_unix_timestamp(req.not_after).unwrap();
    let c = p.self_signed(key).map_err(|e| e.to_string())?;
    Ok((c.pem(), c.der().to_vec()))
}

/// `KeyPair::serialize_pem()`: the PKCS#8 key as a `PRIVATE KEY` PEM block.
#[verifier::external_body]
fn key_pem_of(k: &rcgen::KeyPair) -> (r: String)
    ensures
        contains(r@, "PRIVATE KEY"@),
{
    k.serialize_pem()
}

/// `x509_parser::parse_x509_certificate(der)`, read for the subject's first common name
/// and organization (when they are UTF-8 strings) and the validity bounds in Unix seconds.
#[verifier::external_body]
fn read_cert_fields(der: &[u8]) -> (r: Result<(Option<String>, Option<String>, i64, i64), String>)
    ensures
        match r {
            Ok((cn, o, nb, na)) => cert_fields_of(der@) == Some((opt_text(cn), opt_text(o), nb, na)),
            Err(_) => cert_fields_of(der@) is None,
        },
{
    let (_, c) = x509_parser::parse_x509_certificate(der).map_err(|e| e.to_string())?;
    let cn = c.subject().iter_common_name().next().and_then(|a| a.as_str().ok()).map(String::from);
    let o = c.subject().iter_organization().next().and_then(|a| a.as_str().ok()).map(String::from);
    Ok((cn, o, c.validity().not_before.timestamp(), c.validity().not_after.timestamp()))
}

pub open spec fn opt_text(o: Option<String>) -> Option<Seq<char>> {
    match o {
        Some(s) => Some(s@),
        None => None,
    }
}

/// The organization a certificate is issued with: none when the text is empty.
pub open spec fn org_field(organization: Seq<char>) -> Option<Seq<char>> {
    if organization.len() == 0 {
        None
    } else {
        Some(organization)
    }
}

/// The request for a leaf code-signing certificate (digital signature and key
/// encipherment, code signing) for `common_name` and `organization`, valid for `days` days
/// from `not_before`; `None` when the end does not fit in an `i64`.
pub fn code_signing_request(common_name: &str, organization: &str, not_before: i64, days: u32) -> (r: Option<CertRequest>)
    ensures
        r is Some <==> not_before + days * 86400 <= i64::MAX,
        r matches Some(q) ==> {
            &&& q.common_name@ == common_name@
            &&& opt_text(q.organization) == org_field(organization@)
            &&& q.not_before == not_before
            &&& q.not_after == not_before + days * 86400
            &&& q.key_usages@ == seq![KeyUse::DigitalSignature, KeyUse::KeyEncipherment]
            &&& q.extended_key_usages@ == seq![ExtendedKeyUse::CodeSigning]
        },
{
    let end: i128 = (not_before as i128) + (days as i128) * 86400;
    if end > (i64::MAX as i128) {
        return None;
    }
    let org = if organization.is_empty() {
        None
    } else {
        Some(string_from(organization))
    };
    let mut key_usages: Vec<KeyUse> = Vec::new();
    key_usages.push(KeyUse::DigitalSignature);
    key_usages.push(KeyUse::KeyEncipherment);
    let mut extended_key_usages: Vec<ExtendedKeyUse> = Vec::new();
    extended_key_usages.push(ExtendedKeyUse::CodeSigning);
    Some(CertRequest {
        common_name: string_from(common_name),
        organization: org,
        not_before,
        not_after: end as i64,
        key_usages,
        extended_key_usages,
    })
}

pub open spec fn exists_msg(name: Seq<char>, dir: Seq<char>) -> Seq<char> {
    "identity '"@ + name + "' already exists at "@ + dir + " (pass --force to overwrite)"@
}

/// Whether `identity_slot` refuses `name`: it is there and `force` is off.
pub open spec fn slot_taken(fs: Seq<EntryV>, identity_root: Seq<char>, name: Seq<char>, force: bool) -> bool {
    fs_exists(fs, join(identity_root, name)) && !force
}

/// The directory for a new identity `name`, unless one is there and `force` is off.
pub fn identity_slot(identity_root: &str, name: &str, fs: &FsSnapshot, force: bool) -> (r: Result<String, String>)
    ensures
        slot_taken(fs@, identity_root@, name@, force) ==> (r matches Err(e) && e@ == exists_msg(
            name@,
            join(identity_root@, name@),
        )),
        !slot_taken(fs@, identity_root@, name@, force) ==> (r matches Ok(d) && d@ == join(
            identity_root@,
            name@,
        )),
{
    let dir = join_str(identity_root, name);
    if fs.contains_path(dir.as_str()) && !force {
        let mut m = string_from("identity '");
        push_str(&mut m, name);
        push_str(&mut m, "' already exists at ");
        push_str(&mut m, dir.as_str());
        push_str(&mut m, " (pass --force to overwrite)");
        return Err(m);
    }
    Ok(dir)
}

pub open spec fn validity_msg() -> Seq<char> {
    "certificate validity runs past the largest representable date"@
}

/// The texts and certificate of an identity created at the clock reading `secs` seconds
/// and `sub` nanoseconds: created (and valid from) then, valid `days` days on, its
/// fingerprint that of its certificate, and that certificate issued to the options' subject
/// for that span (read back from 1970 on).
pub open spec fn created_at_reading(rec: IdentityRecord, opts: CreateOptions, secs: i64, sub: u32) -> bool {
    &&& sub < 1_000_000_000
    &&& rfc3339_utc(instant_nanos(secs as int, sub as int) as i128) == Some(rec.meta.created_at@)
    &&& rec.meta.not_before@ == rec.meta.created_at@
    &&& rfc3339_utc(instant_nanos(secs + opts.days * 86400, sub as int) as i128) == Some(rec.meta.not_after@)
    &&& pem_first_block(rec.cert_pem@) matches Some(d) && rec.meta.fingerprint_sha256@
        == fingerprint_spec(d) && (0 <= secs ==> (cert_fields_of(d) matches Some((cn, o, nb, na))
        && cn == Some(opts.common_name@) && o == org_field(opts.organization@) && nb == secs
        && na == secs + opts.days * 86400))
}

/// Formatting the times of an identity created at the clock reading `secs`, `sub` fails.
pub open spec fn created_times_unwritable(secs: i64, sub: u32, days: u32) -> bool {
    ||| rfc3339_utc(instant_nanos(secs as int, sub as int) as i128) is None
    ||| rfc3339_utc(instant_nanos(secs + days * 86400, sub as int) as i128) is None
}

/// A new self-signed code-signing identity: a fresh key pair and a certificate valid for
/// `days` from now, its fingerprint, and the metadata to store. The key and the signature
/// are random and the times come from the clock; the rest is stated.
pub fn create_identity(identity_root: &str, opts: &CreateOptions, fs: &FsSnapshot) -> (r: Result<IdentityRecord, String>)
    ensures
        slot_taken(fs@, identity_root@, opts.name@, opts.force) ==> (r matches Err(e) && e@
            == exists_msg(opts.name@, join(identity_root@, opts.name@))),
        !slot_taken(fs@, identity_root@, opts.name@, opts.force) ==> (r matches Err(e) ==> {
            ||| capitalized(e@)
            ||| e@ == validity_msg()
            ||| exists|secs: i64, sub: u32| #[trigger] created_times_unwritable(secs, sub, opts.days)
        }),
        r matches Ok(rec) ==> {
            &&& rec.dir@ == join(identity_root@, opts.name@)
            &&& rec.meta.name@ == opts.name@
            &&& rec.meta.common_name@ == opts.common_name@
            &&& rec.meta.organization@ == opts.organization@
            &&& rec.meta.key_algorithm@ == "ECDSA_P256"@
            &&& contains(rec.key_pem@, "PRIVATE KEY"@)
            &&& exists|secs: i64, sub: u32| #[trigger] created_at_reading(rec, *opts, secs, sub)
        },
{
    let dir = identity_slot(identity_root, opts.name.as_str(), fs, opts.force)?;
    let key = generate_key_pair()?;
    let (secs, sub) = crate::clock::now_utc();
    proof {
        reveal_strlit("certificate validity runs past the largest representable date");
    }
    let req = match code_signing_request(opts.common_name.as_str(), opts.organization.as_str(), secs, opts.days) {
        Some(q) => q,
        None => {
            return Err(string_from("certificate validity runs past the largest representable date"));
        },
    };
    if !crate::clock::in_time_range(req.not_before) || !crate::clock::in_time_range(req.not_after) {
        return Err(string_from("certificate validity runs past the largest representable date"));
    }
    let (cert_pem, der) = self_signed_code_signing(req, &key)?;
    let key_pem = key_pem_of(&key);
    let fingerprint = fingerprint_sha256_colon(der.as_slice());
    let now_ns = nanos_of(secs, sub);
    let end_ns = nanos_of(secs + (opts.days as i64) * 86400, sub);
    let created_at = match crate::clock::format_rfc3339(now_ns) {
        Ok(t) => t,
        Err(e) => {
            assert(created_times_unwritable(secs, sub, opts.days));
            return Err(e);
        },
    };
    let not_after_text = match crate::clock::format_rfc3339(end_ns) {
        Ok(t) => t,
        Err(e) => {
            assert(created_times_unwritable(secs, sub, opts.days));
            return Err(e);
        },
    };
    let meta = IdentityMeta {
        name: opts.name.clone(),
        common_name: opts.common_name.clone(),
        organization: opts.organization.clone(),
        fingerprint_sha256: fingerprint,
        not_before: created_at.clone(),
        created_at,
        not_after: not_after_text,
        key_algorithm: string_from("ECDSA_P256"),
    };
    let rec = IdentityRecord { meta, dir, cert_pem, key_pem };
    assert(created_at_reading(rec, *opts, secs, sub));
    Ok(rec)
}

/// Refuses files that do not look like a PEM certificate and a PEM private key.
pub fn check_import_pems(cert_pem: &str, key_pem: &str) -> (r: Result<(), String>)
    ensures
        !contains(cert_pem@, "BEGIN CERTIFICATE"@) ==> (r matches Err(e) && e@
            == "cert file does not look like a PEM certificate"@),
        contains(cert_pem@, "BEGIN CERTIFICATE"@) && !key_looks_pem(key_pem@) ==> (r matches Err(e)
            && e@ == "key file does not look like a PEM private key"@),
        r is Ok <==> pems_look_right(cert_pem@, key_pem@),
{
    let c = chars_of(cert_pem);
    if !vec_contains(&c, &chars_of("BEGIN CERTIFICATE")) {
        return Err(string_from("cert file does not look like a PEM certificate"));
    }
    let k = chars_of(key_pem);
    if !vec_contains(&k, &chars_of("BEGIN")) || !vec_contains(&k, &chars_of("PRIVATE KEY")) {
        return Err(string_from("key file does not look like a PEM private key"));
    }
    Ok(())
}

pub open spec fn key_looks_pem(key_pem: Seq<char>) -> bool {
    contains(key_pem, "BEGIN"@) && contains(key_pem, "PRIVATE KEY"@)
}

pub open spec fn pems_look_right(cert_pem: Seq<char>, key_pem: Seq<char>) -> bool {
    contains(cert_pem, "BEGIN CERTIFICATE"@) && key_looks_pem(key_pem)
}

/// The instant a certificate validity bound is written as: the bound, or the Unix epoch
/// when the `time` crate cannot represent it.
pub open spec fn validity_nanos(ts: i64) -> int {
    if unix_time_in_range(ts) {
        instant_nanos(ts as int, 0)
    } else {
        0
    }
}

fn validity_text(ts: i64) -> (r: Result<String, String>)
    ensures
        match r {
            Ok(s) => rfc3339_utc(validity_nanos(ts) as i128) == Some(s@),
            Err(_) => rfc3339_utc(validity_nanos(ts) as i128) is None,
        },
{
    let ns: i128 = if crate::clock::in_time_range(ts) {
        nanos_of(ts, 0)
    } else {
        0
    };
    crate::clock::format_rfc3339(ns)
}

/// The common name an imported identity gets: the certificate's, or `imported`.
pub open spec fn imported_cn(cn: Option<Seq<char>>) -> Seq<char> {
    match cn {
        Some(x) => x,
        None => "imported"@,
    }
}

/// The organization an imported identity gets: the certificate's, or empty.
pub open spec fn imported_org(o: Option<Seq<char>>) -> Seq<char> {
    match o {
        Some(x) => x,
        None => Seq::empty(),
    }
}

/// Formatting the current time, at some clock reading, fails.
pub open spec fn clock_unwritable() -> bool {
    exists|secs: i64, sub: u32| sub < 1_000_000_000 && #[trigger] rfc3339_utc(instant_nanos(secs as int, sub as int) as i128) is None
}

/// An identity from an existing certificate and key: subject CN (`imported` when absent)
/// and organization (empty when absent) from the certificate, its fingerprint, and the
/// validity bounds as RFC 3339 text (the epoch for a bound out of range).
pub fn import_identity(
    identity_root: &str,
    opts: &ImportOptions,
    cert_pem: String,
    key_pem: String,
    fs: &FsSnapshot,
) -> (r: Result<IdentityRecord, String>)
    ensures
        slot_taken(fs@, identity_root@, opts.name@, opts.force) ==> (r matches Err(e) && e@
            == exists_msg(opts.name@, join(identity_root@, opts.name@))),
        !slot_taken(fs@, identity_root@, opts.name@, opts.force) ==> {
            &&& !contains(cert_pem@, "BEGIN CERTIFICATE"@) ==> (r matches Err(e) && e@
                == "cert file does not look like a PEM certificate"@)
            &&& contains(cert_pem@, "BEGIN CERTIFICATE"@) && !key_looks_pem(key_pem@) ==> (r matches Err(e)
                && e@ == "key file does not look like a PEM private key"@)
            &&& pems_look_right(cert_pem@, key_pem@) && pem_first_block(cert_pem@) is None ==> (r matches Err(
                e,
            ) && starts_with(e@, "invalid certificate PEM: "@))
            &&& pems_look_right(cert_pem@, key_pem@) ==> (pem_first_block(cert_pem@) matches Some(d)
                ==> {
                &&& cert_fields_of(d) is None ==> (r matches Err(e) && starts_with(
                    e@,
                    "failed to parse certificate: "@,
                ))
                &&& (cert_fields_of(d) matches Some((_, _, nb, na)) && rfc3339_utc(
                    validity_nanos(nb) as i128,
                ) is Some && rfc3339_utc(validity_nanos(na) as i128) is Some) ==> (r is Ok
                    || clock_unwritable())
            })
        },
        r matches Ok(rec) ==> {
            &&& rec.dir@ == join(identity_root@, opts.name@)
            &&& rec.meta.name@ == opts.name@
            &&& rec.meta.key_algorithm@ == "imported"@
            &&& rec.cert_pem@ == cert_pem@
            &&& rec.key_pem@ == key_pem@
            &&& exists|ns: i128| rfc3339_utc(ns) == Some(rec.meta.created_at@)
            &&& pem_first_block(cert_pem@) matches Some(d) && {
                &&& rec.meta.fingerprint_sha256@ == fingerprint_spec(d)
                &&& cert_fields_of(d) matches Some((cn, o, nb, na)) && rec.meta.common_name@
                    == imported_cn(cn) && rec.meta.organization@ == imported_org(o)
                    && rfc3339_utc(validity_nanos(nb) as i128) == Some(rec.meta.not_before@)
                    && rfc3339_utc(validity_nanos(na) as i128) == Some(rec.meta.not_after@)
            }
        },
{
    let dir = identity_slot(identity_root, opts.name.as_str(), fs, opts.force)?;
    check_import_pems(cert_pem.as_str(), key_pem.as_str())?;
    let der = match pem_to_der(cert_pem.as_str()) {
        Ok(d) => d,
        Err(e) => {
            return Err(e);
        },
    };
    let (cn, org, nb, na) = match read_cert_fields(der.as_slice()) {
        Ok(f) => f,
        Err(e) => {
            let mut m = string_from("failed to parse certificate: ");
            push_str(&mut m, e.as_str());
            proof {
                reveal_strlit("failed to parse certificate: ");
            }
            assert(starts_with(m@, "failed to parse certificate: "@)) by {
                crate::text::lemma_starts_with_concat("failed to parse certificate: "@, e@);
            }
            return Err(m);
        },
    };
    let common_name = match cn {
        Some(x) => x,
        None => string_from("imported"),
    };
    let organization = match org {
        Some(x) => x,
        None => String::new(),
    };
    let not_before = validity_text(nb)?;
    let not_after = validity_text(na)?;
    let fingerprint = fingerprint_sha256_colon(der.as_slice());
    let (secs, sub) = crate::clock::now_utc();
    let created_at = match crate::clock::format_rfc3339(nanos_of(secs, sub)) {
        Ok(t) => t,
        Err(e) => {
            assert(sub < 1_000_000_000 && rfc3339_utc(instant_nanos(secs as int, sub as int) as i128) is None);
            return Err(e);
        },
    };
    let meta = IdentityMeta {
        name: opts.name.clone(),
        common_name,
        organization,
        fingerprint_sha256: fingerprint,
        created_at,
        not_before,
        not_after,
        key_algorithm: string_from("imported"),
    };
    Ok(IdentityRecord { meta, dir, cert_pem, key_pem })
}

/// Whether the `active` file's text needs TOML parsing (`name = …` or a table).
pub open spec fn active_is_toml(text: Seq<char>) -> bool {
    starts_with(trim(text), "name"@) || contains(text, "["@)
}

/// The active pointer from the `active` file: the trimmed text is the name, unless the
/// text is TOML (`None`: the caller parses it).
pub fn active_from_text(text: &str) -> (r: Option<ActivePointer>)
    ensures
        active_is_toml(text@) <==> r is None,
        r matches Some(p) ==> p.name@ == trim(text@),
{
    let v = chars_of(text);
    let t = trim_vec(&v);
    if vec_starts_with(&t, &chars_of("name")) || vec_contains(&v, &chars_of("[")) {
        None
    } else {
        Some(ActivePointer { name: string_of(&t) })
    }
}

/// The path of the `active` file, or the error when there is none.
pub fn active_path(identity_root: &str, fs: &FsSnapshot) -> (r: Result<String, String>)
    ensures
        fs_exists(fs@, join(identity_root@, "active"@)) ==> (r matches Ok(p) && p@ == join(
            identity_root@,
            "active"@,
        )),
        !fs_exists(fs@, join(identity_root@, "active"@)) ==> (r matches Err(e) && e@
            == "no active identity — run `signet identity create`"@),
{
    let p = join_str(identity_root, ACTIVE_FILE);
    if !fs.contains_path(p.as_str()) {
        return Err(string_from("no active identity — run `signet identity create`"));
    }
    Ok(p)
}

/// The directory of identity `name`.
pub fn load_named(identity_root: &str, name: &str) -> (r: String)
    ensures
        r@ == join(identity_root@, name@),
{
    join_str(identity_root, name)
}

/// The directory of the identity the active pointer names.
pub fn load_active(identity_root: &str, active: &ActivePointer) -> (r: String)
    ensures
        r@ == join(identity_root@, active.name@),
{
    load_named(identity_root, active.name.as_str())
}

/// Setting `name` active needs its metadata file.
pub fn check_set_active(identity_root: &str, name: &str, fs: &FsSnapshot) -> (r: Result<(), String>)
    ensures
        r is Ok <==> fs_exists(fs@, join(join(identity_root@, name@), "meta.toml"@)),
        r matches Err(e) ==> e@ == "identity '"@ + name@ + "' not found under "@ + identity_root@,
{
    let dir = join_str(identity_root, name);
    if !fs.contains_path(join_str(dir.as_str(), META_FILE).as_str()) {
        let mut m = string_from("identity '");
        push_str(&mut m, name);
        push_str(&mut m, "' not found under ");
        push_str(&mut m, identity_root);
        return Err(m);
    }
    Ok(())
}

/// The fingerprint a stored identity is reloaded with: the one of its certificate.
pub open spec fn refreshed_fingerprint(cert_pem: Seq<char>) -> Option<Seq<char>> {
    match pem_first_block(cert_pem) {
        Some(d) => Some(fingerprint_spec(d)),
        None => None,
    }
}

/// Reloads an identity from `dir`: the metadata must be there; the fingerprint is
/// recomputed from the certificate when the stored one is stale.
pub fn load_from_dir(dir: &str, fs: &FsSnapshot, meta: IdentityMeta, cert_pem: String, key_pem: String) -> (r: Result<IdentityRecord, String>)
    ensures
        !fs_exists(fs@, join(dir@, "meta.toml"@)) ==> (r matches Err(e) && e@
            == "identity metadata missing at "@ + join(dir@, "meta.toml"@)),
        r matches Ok(rec) ==> {
            &&& rec.dir@ == dir@
            &&& rec.meta.name@ == meta.name@
            &&& rec.meta.common_name@ == meta.common_name@
            &&& rec.meta.organization@ == meta.organization@
            &&& rec.meta.created_at@ == meta.created_at@
            &&& rec.meta.not_before@ == meta.not_before@
            &&& rec.meta.not_after@ == meta.not_after@
            &&& rec.meta.key_algorithm@ == meta.key_algorithm@
            &&& rec.cert_pem@ == cert_pem@
            &&& rec.key_pem@ == key_pem@
            &&& refreshed_fingerprint(cert_pem@) == Some(rec.meta.fingerprint_sha256@)
        },
        fs_exists(fs@, join(dir@, "meta.toml"@)) ==> (r is Ok <==> refreshed_fingerprint(cert_pem@) is Some),
{
    let meta_path = join_str(dir, META_FILE);
    if !fs.contains_path(meta_path.as_str()) {
        let mut m = string_from("identity metadata missing at ");
        push_str(&mut m, meta_path.as_str());
        return Err(m);
    }
    let der = match pem_to_der(cert_pem.as_str()) {
        Ok(d) => d,
        Err(e) => {
            return Err(e);
        },
    };
    let fp = fingerprint_sha256_colon(der.as_slice());
    let mut meta = meta;
    meta.fingerprint_sha256 = fp;
    Ok(IdentityRecord { meta, dir: string_from(dir), cert_pem, key_pem })
}

/// An identity that was created reloads with the fingerprint it was created with.
pub proof fn law_created_fingerprint_survives_reload(cert_pem: Seq<char>, stored: Seq<char>)
    ensures
        (pem_first_block(cert_pem) matches Some(d) && stored == fingerprint_spec(d))
            ==> refreshed_fingerprint(cert_pem) == Some(stored),
{
}

// ---- listing ----

/// Directories under the identity root that hold a `meta.toml`, in listing order.
pub open spec fn meta_dirs(fs: Seq<EntryV>, es: Seq<EntryV>) -> Seq<Seq<char>>
    decreases es.len(),
{
    if es.len() == 0 {
        Seq::empty()
    } else {
        let e = es.last();
        meta_dirs(fs, es.drop_last()) + if e.is_dir && fs_exists(fs, join(e.path, "meta.toml"@)) {
            seq![join(e.path, "meta.toml"@)]
        } else {
            Seq::empty()
        }
    }
}

/// The `meta.toml` files `list_identities` reads (none when the root is missing).
pub fn identity_meta_files(identity_root: &str, fs: &FsSnapshot) -> (r: Vec<String>)
    ensures
        crate::argv::string_views(r@) == (if fs_exists(fs@, identity_root@) {
            meta_dirs(fs@, listing(fs@, identity_root@))
        } else {
            Seq::empty()
        }),
{
    let mut out: Vec<String> = Vec::new();
    if !fs.contains_path(identity_root) {
        assert(crate::argv::string_views(out@) =~= Seq::<Seq<char>>::empty());
        return out;
    }
    let es = fs.read_dir(identity_root);
    let ghost esv = es@.map_values(|e: FsEntry| e@);
    let mut i: usize = 0;
    assert(esv.take(0) =~= Seq::<EntryV>::empty());
    assert(crate::argv::string_views(out@) =~= meta_dirs(fs@, esv.take(0)));
    while i < es.len()
        invariant
            i <= es.len(),
            esv == es@.map_values(|e: FsEntry| e@),
            crate::argv::string_views(out@) == meta_dirs(fs@, esv.take(i as int)),
        decreases es.len() - i,
    {
        let e = &es[i];
        assert(esv[i as int] == e@);
        assert(esv.take(i + 1).drop_last() =~= esv.take(i as int));
        assert(esv.take(i + 1).last() == e@);
        let ghost before = crate::argv::string_views(out@);
        let mp = join_str(e.path.as_str(), META_FILE);
        if e.is_dir && fs.contains_path(mp.as_str()) {
            out.push(mp);
            assert(crate::argv::string_views(out@) =~= before.push(join(e.path@, "meta.toml"@)));
        } else {
            assert(crate::argv::string_views(out@) =~= before + Seq::<Seq<char>>::empty());
        }
        i = i + 1;
    }
    assert(esv.take(es.len() as int) =~= esv);
    out
}

/// Insert `x` after every element whose name is not above its own (stable).
pub open spec fn name_pos(s: Seq<IdentityMeta>, x: IdentityMeta, j: int) -> int
    decreases s.len() - j,
{
    if j < 0 || j >= s.len() {
        s.len() as int
    } else if chars_lt(x.name@, s[j].name@) {
        j
    } else {
        name_pos(s, x, j + 1)
    }
}

pub open spec fn sort_names(v: Seq<IdentityMeta>) -> Seq<IdentityMeta>
    decreases v.len(),
{
    if v.len() == 0 {
        Seq::empty()
    } else {
        let s = sort_names(v.drop_last());
        s.insert(name_pos(s, v.last(), 0), v.last())
    }
}

pub open spec fn names_ordered(s: Seq<IdentityMeta>) -> bool {
    forall|i: int, j: int| 0 <= i < j < s.len() ==> !chars_lt(#[trigger] s[j].name@, #[trigger] s[i].name@)
}

proof fn lemma_name_pos(s: Seq<IdentityMeta>, x: IdentityMeta, j: int)
    requires
        0 <= j <= s.len(),
    ensures
        j <= name_pos(s, x, j) <= s.len(),
        forall|k: int| j <= k < name_pos(s, x, j) ==> !chars_lt(x.name@, #[trigger] s[k].name@),
        name_pos(s, x, j) < s.len() ==> chars_lt(x.name@, s[name_pos(s, x, j)].name@),
    decreases s.len() - j,
{
    if j < s.len() && !chars_lt(x.name@, s[j].name@) {
        lemma_name_pos(s, x, j + 1);
    }
}

/// Identities listed through `sort_by_name` come out in name order: the same identities,
/// each as often as it went in.
pub proof fn law_identities_sorted(v: Seq<IdentityMeta>)
    ensures
        names_ordered(sort_names(v)),
        sort_names(v).len() == v.len(),
        sort_names(v).to_multiset() == v.to_multiset(),
    decreases v.len(),
{
    if v.len() > 0 {
        law_identities_sorted(v.drop_last());
        let s = sort_names(v.drop_last());
        let x = v.last();
        let p = name_pos(s, x, 0);
        lemma_name_pos(s, x, 0);
        let r = s.insert(p, x);
        vstd::seq_lib::to_multiset_insert(s, p, x);
        vstd::seq_lib::to_multiset_build(v.drop_last(), x);
        assert(v.drop_last().push(x) =~= v);
        assert forall|i: int, j: int| 0 <= i < j < r.len() implies !chars_lt(#[trigger] r[j].name@, #[trigger] r[i].name@) by {
            if i < p && j < p {
                assert(r[i] == s[i] && r[j] == s[j]);
            } else if i < p && j == p {
                assert(r[i] == s[i] && r[j] == x);
                assert(!chars_lt(x.name@, s[i].name@));
            } else if i < p {
                assert(r[i] == s[i] && r[j] == s[j - 1]);
            } else if i == p {
                assert(r[i] == x && r[j] == s[j - 1]);
                assert(chars_lt(x.name@, s[p].name@));
                if chars_lt(s[j - 1].name@, x.name@) {
                    if j - 1 > p {
                        assert(!chars_lt(s[j - 1].name@, s[p].name@));
                        lemma_chars_lt_trans(s[j - 1].name@, x.name@, s[p].name@);
                    } else {
                        lemma_chars_lt_irrefl(x.name@);
                        lemma_chars_lt_trans(x.name@, s[p].name@, x.name@);
                    }
                }
            } else {
                assert(r[i] == s[i - 1] && r[j] == s[j - 1]);
            }
        }
    } else {
        assert(sort_names(v) =~= v);
    }
}

fn name_pos_vec(s: &Vec<IdentityMeta>, x: &IdentityMeta) -> (r: usize)
    ensures
        r as int == name_pos(s@, *x, 0),
{
    let xn = chars_of(x.name.as_str());
    let mut i: usize = 0;
    while i < s.len()
        invariant
            i <= s.len(),
            xn@ == x.name@,
            name_pos(s@, *x, 0) == name_pos(s@, *x, i as int),
        decreases s.len() - i,
    {
        if chars_lt_vec(&xn, &chars_of(s[i].name.as_str())) {
            return i;
        }
        i = i + 1;
    }
    i
}

/// Identities in name order (stable for equal names).
pub fn sort_by_name(v: Vec<IdentityMeta>) -> (r: Vec<IdentityMeta>)
    ensures
        r@ == sort_names(v@),
{
    let mut out: Vec<IdentityMeta> = Vec::new();
    let mut v = v;
    let ghost orig = v@;
    let n = v.len();
    let mut i: usize = 0;
    assert(orig.take(0) =~= Seq::<IdentityMeta>::empty());
    while i < n
        invariant
            i <= n,
            n == orig.len(),
            v@ == orig.skip(i as int),
            out@ == sort_names(orig.take(i as int)),
        decreases n - i,
    {
        let x = v.remove(0);
        assert(x == orig[i as int]);
        assert(orig.skip(i as int).remove(0) =~= orig.skip(i + 1));
        assert(orig.take(i + 1).drop_last() =~= orig.take(i as int));
        assert(orig.take(i + 1).last() == x);
        let p = name_pos_vec(&out, &x);
        proof {
            lemma_name_pos(out@, x, 0);
        }
        out.insert(p, x);
        i = i + 1;
    }
    assert(orig.take(n as int) =~= orig);
    out
}

} // verus!
