//! Release keystore under `.signet/android/`: paths, passwords, certificate digest parsing.
use vstd::prelude::*;

use crate::fs::{fs_is_file, FsSnapshot};
use crate::paths::{join, join_str};
use crate::text::{
    chars_of, contains, ends_with, is_ascii_hexdigit, is_ws, lead_from, trail_from, is_hex_digit, lines, lines_vec, lower_seq, lower_vec,
    next_index, next_index_of, slice_vec, string_from, string_of, trim, trim_vec, vec_contains,
};

verus! {

pub const ANDROID_DIR: &'static str = "android";

pub const KEYSTORE_FILE: &'static str = "release.jks";

pub const META_FILE: &'static str = "meta.toml";

#[derive(Debug)]
pub struct AndroidKeyPaths {
    pub dir: String,
    pub keystore: String,
    pub meta: String,
}

impl AndroidKeyPaths {
    pub fn from_secrets_dir(secrets_dir: &str) -> (r: Self)
        ensures
            r.dir@ == join(secrets_dir@, "android"@),
            r.keystore@ == join(r.dir@, "release.jks"@),
            r.meta@ == join(r.dir@, "meta.toml"@),
    {
        let dir = join_str(secrets_dir, ANDROID_DIR);
        AndroidKeyPaths {
            keystore: join_str(dir.as_str(), KEYSTORE_FILE),
            meta: join_str(dir.as_str(), META_FILE),
            dir,
        }
    }

    /// Both the keystore and its metadata file are present (`exists` in the CLI).
    pub fn exists_in(&self, fs: &FsSnapshot) -> (r: bool)
        ensures
            r == (fs_is_file(fs@, self.keystore@) && fs_is_file(fs@, self.meta@)),
    {
        fs.is_file(self.keystore.as_str()) && fs.is_file(self.meta.as_str())
    }
}

pub fn keystore_paths(secrets_dir: &str) -> (r: AndroidKeyPaths)
    ensures
        r.dir@ == join(secrets_dir@, "android"@),
        r.keystore@ == join(r.dir@, "release.jks"@),
        r.meta@ == join(r.dir@, "meta.toml"@),
{
    AndroidKeyPaths::from_secrets_dir(secrets_dir)
}

#[derive(Debug)]
pub struct AndroidKeyMeta {
    pub alias: String,
    pub store_type: String,
    pub created_at: String,
    /// SHA-256 fingerprint of the certificate (colon hex), when known.
    pub cert_sha256: Option<String>,
    pub note: String,
}

/// `SIGNET_ANDROID_STORE_PASS`, trimmed; required and non-blank.
pub open spec fn store_pass_spec(env: Option<Seq<char>>) -> Result<Seq<char>, Seq<char>> {
    match env {
        None => Err(
            "SIGNET_ANDROID_STORE_PASS is required (never store keystore passwords in signet.toml)"@,
        ),
        Some(v) => if trim(v).len() == 0 {
            Err("SIGNET_ANDROID_STORE_PASS is empty"@)
        } else {
            Ok(trim(v))
        },
    }
}

pub open spec fn opt_view(o: Option<&str>) -> Option<Seq<char>> {
    match o {
        Some(s) => Some(s@),
        None => None,
    }
}

/// The keystore password from the value of `SIGNET_ANDROID_STORE_PASS` (`None`: unset).
pub fn store_pass(env: Option<&str>) -> (r: Result<String, String>)
    ensures
        match (r, store_pass_spec(opt_view(env))) {
            (Ok(p), Ok(s)) => p@ == s,
            (Err(e), Err(s)) => e@ == s,
            _ => false,
        },
{
    match env {
        None => Err(
            string_from(
                "SIGNET_ANDROID_STORE_PASS is required (never store keystore passwords in signet.toml)",
            ),
        ),
        Some(v) => {
            let t = trim_vec(&chars_of(v));
            if t.len() == 0 {
                Err(string_from("SIGNET_ANDROID_STORE_PASS is empty"))
            } else {
                Ok(string_of(&t))
            }
        },
    }
}

pub open spec fn key_pass_set(k: Option<Seq<char>>) -> bool {
    k matches Some(v) && trim(v).len() > 0
}

/// The key password: a non-blank `SIGNET_ANDROID_KEY_PASS` (trimmed), else the store password.
pub fn key_pass(key_env: Option<&str>, store_env: Option<&str>) -> (r: Result<String, String>)
    ensures
        key_pass_set(opt_view(key_env)) ==> (r matches Ok(p) && p@ == trim(
            opt_view(key_env)->0,
        )),
        !key_pass_set(opt_view(key_env)) ==> match (r, store_pass_spec(opt_view(store_env))) {
            (Ok(p), Ok(s)) => p@ == s,
            (Err(e), Err(s)) => e@ == s,
            _ => false,
        },
{
    if let Some(p) = key_env {
        let t = trim_vec(&chars_of(p));
        if t.len() > 0 {
            return Ok(string_of(&t));
        }
    }
    store_pass(store_env)
}

/// Hex digits and colons of a text, in order.
pub open spec fn hex_colons(s: Seq<char>) -> Seq<char> {
    s.filter(|c: char| is_hex_digit(c) || c == ':')
}

/// Number of hex digits in a text.
pub open spec fn hex_digits(s: Seq<char>) -> Seq<char> {
    s.filter(|c: char| is_hex_digit(c))
}

pub open spec fn colon_lead(s: Seq<char>, i: int) -> int
    decreases s.len() - i,
{
    if 0 <= i < s.len() && s[i] == ':' {
        colon_lead(s, i + 1)
    } else {
        i
    }
}

pub open spec fn colon_trail(s: Seq<char>, lo: int, j: int) -> int
    decreases j - lo,
{
    if lo < j && j <= s.len() && s[j - 1] == ':' {
        colon_trail(s, lo, j - 1)
    } else {
        j
    }
}

/// `trim_matches(':')`.
pub open spec fn trim_colons(s: Seq<char>) -> Seq<char> {
    let lo = colon_lead(s, 0);
    s.subrange(lo, colon_trail(s, lo, s.len() as int))
}

/// A line that announces a SHA-256 digest after a colon on the same line.
pub open spec fn inline_digest(line: Seq<char>) -> Option<Seq<char>> {
    let lower = lower_seq(line);
    if !(contains(lower, "sha256:"@) || contains(lower, "sha-256:"@)) {
        None
    } else {
        let idx = next_index_of(line, ':', 0);
        if idx >= line.len() {
            None
        } else {
            let hex = hex_colons(trim(line.subrange(idx + 1, line.len() as int)));
            if hex_digits(hex).len() == 64 {
                Some(trim_colons(trim(hex)))
            } else {
                None
            }
        }
    }
}

/// First line (from `i`) holding the digest inline.
pub open spec fn first_inline(ls: Seq<Seq<char>>, i: int) -> Option<Seq<char>>
    decreases ls.len() - i,
{
    if i < 0 || i >= ls.len() {
        None
    } else if inline_digest(ls[i]) is Some {
        inline_digest(ls[i])
    } else {
        first_inline(ls, i + 1)
    }
}

/// A `SHA256` line followed by a line of 64 hex digits.
pub open spec fn next_line_digest(ls: Seq<Seq<char>>, i: int) -> Option<Seq<char>> {
    let lower = lower_seq(ls[i]);
    if (contains(lower, "sha256"@) || contains(lower, "sha-256"@)) && i + 1 < ls.len() {
        let hex = hex_colons(ls[i + 1]);
        if hex_digits(hex).len() == 64 {
            Some(trim(hex))
        } else {
            None
        }
    } else {
        None
    }
}

pub open spec fn first_next_line(ls: Seq<Seq<char>>, i: int) -> Option<Seq<char>>
    decreases ls.len() - i,
{
    if i < 0 || i >= ls.len() {
        None
    } else if next_line_digest(ls, i) is Some {
        next_line_digest(ls, i)
    } else {
        first_next_line(ls, i + 1)
    }
}

/// The SHA-256 certificate fingerprint that `keytool -list -v` printed.
pub open spec fn keytool_sha256_spec(text: Seq<char>) -> Option<Seq<char>> {
    let ls = lines(text);
    if first_inline(ls, 0) is Some {
        first_inline(ls, 0)
    } else {
        first_next_line(ls, 0)
    }
}

proof fn lemma_ws_not_hex(c: char)
    ensures
        is_ws(c) ==> !is_hex_digit(c),
{
}

proof fn lemma_hex_digits_add(a: Seq<char>, b: Seq<char>)
    ensures
        hex_digits(a + b) == hex_digits(a) + hex_digits(b),
{
    Seq::filter_distributes_over_add(a, b, |c: char| is_hex_digit(c));
}

/// A text without hex digits has none to give.
proof fn lemma_hex_digits_none(s: Seq<char>)
    requires
        forall|j: int| 0 <= j < s.len() ==> !is_hex_digit(#[trigger] s[j]),
    ensures
        hex_digits(s) == Seq::<char>::empty(),
    decreases s.len(),
{
    reveal(Seq::filter);
    if s.len() > 0 {
        let d = s.drop_last();
        assert forall|j: int| 0 <= j < d.len() implies !is_hex_digit(#[trigger] d[j]) by {
            assert(d[j] == s[j]);
        }
        lemma_hex_digits_none(d);
        assert(!is_hex_digit(s[s.len() - 1]));
    } else {
        assert(hex_digits(s) =~= Seq::<char>::empty());
    }
}

/// Cutting off ends that hold no hex digit keeps the hex digits.
proof fn lemma_hex_digits_core(s: Seq<char>, lo: int, hi: int)
    requires
        0 <= lo <= hi <= s.len(),
        forall|j: int| 0 <= j < lo ==> !is_hex_digit(#[trigger] s[j]),
        forall|j: int| hi <= j < s.len() ==> !is_hex_digit(#[trigger] s[j]),
    ensures
        hex_digits(s.subrange(lo, hi)) == hex_digits(s),
{
    let a = s.subrange(0, lo);
    let m = s.subrange(lo, hi);
    let b = s.subrange(hi, s.len() as int);
    assert(s =~= a + m + b);
    lemma_hex_digits_add(a + m, b);
    lemma_hex_digits_add(a, m);
    assert forall|j: int| 0 <= j < a.len() implies !is_hex_digit(#[trigger] a[j]) by {
        assert(a[j] == s[j]);
    }
    assert forall|j: int| 0 <= j < b.len() implies !is_hex_digit(#[trigger] b[j]) by {
        assert(b[j] == s[hi + j]);
    }
    lemma_hex_digits_none(a);
    lemma_hex_digits_none(b);
    assert(hex_digits(s) =~= hex_digits(m));
}

/// Keeping hex digits and colons, then hex digits, keeps the hex digits.
proof fn lemma_hex_digits_of_hex_colons(x: Seq<char>)
    ensures
        hex_digits(hex_colons(x)) == hex_digits(x),
    decreases x.len(),
{
    if x.len() > 0 {
        let d = x.drop_last();
        let c = x.last();
        assert(x =~= d + seq![c]);
        lemma_hex_digits_of_hex_colons(d);
        Seq::filter_distributes_over_add(d, seq![c], |c: char| is_hex_digit(c) || c == ':');
        reveal(Seq::filter);
        assert(hex_colons(seq![c]) =~= if is_hex_digit(c) || c == ':' { seq![c] } else { Seq::empty() }) by {
            assert(seq![c].drop_last() =~= Seq::<char>::empty());
        }
        lemma_hex_digits_add(hex_colons(d), hex_colons(seq![c]));
        lemma_hex_digits_add(d, seq![c]);
        assert(hex_digits(seq![c]) =~= if is_hex_digit(c) { seq![c] } else { Seq::empty() }) by {
            assert(seq![c].drop_last() =~= Seq::<char>::empty());
        }
        if is_hex_digit(c) || c == ':' {
            assert(hex_digits(hex_colons(seq![c])) == hex_digits(seq![c]));
        } else {
            lemma_hex_digits_none(Seq::<char>::empty());
        }
    }
}

proof fn lemma_lead_ws(s: Seq<char>, i: int)
    requires
        0 <= i <= s.len(),
    ensures
        i <= lead_from(s, i) <= s.len(),
        forall|j: int| i <= j < lead_from(s, i) ==> is_ws(#[trigger] s[j]),
    decreases s.len() - i,
{
    if i < s.len() && is_ws(s[i]) {
        lemma_lead_ws(s, i + 1);
    }
}

proof fn lemma_trail_ws(s: Seq<char>, lo: int, j: int)
    requires
        0 <= lo <= j <= s.len(),
    ensures
        lo <= trail_from(s, lo, j) <= j,
        forall|k: int| trail_from(s, lo, j) <= k < j ==> is_ws(#[trigger] s[k]),
    decreases j - lo,
{
    if lo < j && is_ws(s[j - 1]) {
        lemma_trail_ws(s, lo, j - 1);
    }
}

/// Trimming whitespace keeps the hex digits.
proof fn lemma_hex_digits_trim(s: Seq<char>)
    ensures
        hex_digits(trim(s)) == hex_digits(s),
{
    lemma_lead_ws(s, 0);
    let lo = lead_from(s, 0);
    lemma_trail_ws(s, lo, s.len() as int);
    let hi = trail_from(s, lo, s.len() as int);
    assert forall|j: int| 0 <= j < lo implies !is_hex_digit(#[trigger] s[j]) by {
        lemma_ws_not_hex(s[j]);
    }
    assert forall|j: int| hi <= j < s.len() implies !is_hex_digit(#[trigger] s[j]) by {
        lemma_ws_not_hex(s[j]);
    }
    lemma_hex_digits_core(s, lo, hi);
}

proof fn lemma_colon_lead(s: Seq<char>, i: int)
    requires
        0 <= i <= s.len(),
    ensures
        i <= colon_lead(s, i) <= s.len(),
        forall|j: int| i <= j < colon_lead(s, i) ==> #[trigger] s[j] == ':',
    decreases s.len() - i,
{
    if i < s.len() && s[i] == ':' {
        lemma_colon_lead(s, i + 1);
    }
}

proof fn lemma_colon_trail(s: Seq<char>, lo: int, j: int)
    requires
        0 <= lo <= j <= s.len(),
    ensures
        lo <= colon_trail(s, lo, j) <= j,
        forall|k: int| colon_trail(s, lo, j) <= k < j ==> #[trigger] s[k] == ':',
    decreases j - lo,
{
    if lo < j && s[j - 1] == ':' {
        lemma_colon_trail(s, lo, j - 1);
    }
}

/// Trimming colons keeps the hex digits.
proof fn lemma_hex_digits_trim_colons(s: Seq<char>)
    ensures
        hex_digits(trim_colons(s)) == hex_digits(s),
{
    lemma_colon_lead(s, 0);
    let lo = colon_lead(s, 0);
    lemma_colon_trail(s, lo, s.len() as int);
    let hi = colon_trail(s, lo, s.len() as int);
    assert forall|j: int| 0 <= j < lo implies !is_hex_digit(#[trigger] s[j]) by {
        assert(s[j] == ':');
    }
    assert forall|j: int| hi <= j < s.len() implies !is_hex_digit(#[trigger] s[j]) by {
        assert(s[j] == ':');
    }
    lemma_hex_digits_core(s, lo, hi);
}

/// The line announces a SHA-256 digest.
pub open spec fn announces_sha256(line: Seq<char>) -> bool {
    contains(lower_seq(line), "sha256"@) || contains(lower_seq(line), "sha-256"@)
}

proof fn lemma_contains_shorter(s: Seq<char>)
    ensures
        contains(s, "sha256:"@) ==> contains(s, "sha256"@),
        contains(s, "sha-256:"@) ==> contains(s, "sha-256"@),
{
    reveal_strlit("sha256:");
    reveal_strlit("sha256");
    reveal_strlit("sha-256:");
    reveal_strlit("sha-256");
    assert("sha256:"@.take(6) =~= "sha256"@);
    assert("sha-256:"@.take(7) =~= "sha-256"@);
    if contains(s, "sha256:"@) {
        crate::android::tools::lemma_contains_prefix(s, "sha256:"@, "sha256"@);
    }
    if contains(s, "sha-256:"@) {
        crate::android::tools::lemma_contains_prefix(s, "sha-256:"@, "sha-256"@);
    }
}

proof fn lemma_inline_digest_law(line: Seq<char>)
    ensures
        inline_digest(line) matches Some(fp) ==> announces_sha256(line) && hex_digits(fp).len() == 64
            && ends_with(hex_digits(line), hex_digits(fp)),
{
    if let Some(fp) = inline_digest(line) {
        lemma_contains_shorter(lower_seq(line));
        let idx = next_index_of(line, ':', 0);
        crate::text::lemma_next_index_bounds(line, ':', 0);
        let rest = line.subrange(idx + 1, line.len() as int);
        let hex = hex_colons(trim(rest));
        lemma_hex_digits_trim_colons(trim(hex));
        lemma_hex_digits_trim(hex);
        lemma_hex_digits_of_hex_colons(trim(rest));
        lemma_hex_digits_trim(rest);
        assert(line =~= line.subrange(0, idx + 1) + rest);
        lemma_hex_digits_add(line.subrange(0, idx + 1), rest);
        let h = hex_digits(line);
        let r = hex_digits(rest);
        assert(h.subrange(h.len() - r.len(), h.len() as int) =~= r);
    }
}

proof fn lemma_first_inline_law(ls: Seq<Seq<char>>, i: int)
    requires
        0 <= i,
    ensures
        first_inline(ls, i) matches Some(fp) ==> exists|k: int| i <= k < ls.len() && inline_digest(#[trigger] ls[k]) == Some(fp),
    decreases ls.len() - i,
{
    if i < ls.len() && inline_digest(ls[i]) is None {
        lemma_first_inline_law(ls, i + 1);
    }
}

proof fn lemma_first_next_line_law(ls: Seq<Seq<char>>, i: int)
    requires
        0 <= i,
    ensures
        first_next_line(ls, i) matches Some(fp) ==> exists|k: int| i <= k < ls.len() && next_line_digest(ls, k) == Some(fp) && #[trigger] announces_sha256(ls[k]),
    decreases ls.len() - i,
{
    if i < ls.len() {
        if next_line_digest(ls, i) is None {
            lemma_first_next_line_law(ls, i + 1);
        } else {
            assert(announces_sha256(ls[i]));
        }
    }
}

/// The fingerprint read from `keytool -list -v` output has exactly 64 hex digits (a
/// SHA-256 digest), and they are the digits of a line that announces SHA-256 (the tail of
/// that line, or the whole line after it): a SHA-1 line is never taken.
pub proof fn law_keytool_fingerprint_is_sha256(text: Seq<char>)
    ensures
        keytool_sha256_spec(text) matches Some(fp) ==> {
            &&& hex_digits(fp).len() == 64
            &&& exists|k: int|
                0 <= k < lines(text).len() && #[trigger] announces_sha256(lines(text)[k]) && (ends_with(
                    hex_digits(lines(text)[k]),
                    hex_digits(fp),
                ) || (k + 1 < lines(text).len() && hex_digits(lines(text)[k + 1]) == hex_digits(fp)))
        },
{
    let ls = lines(text);
    if let Some(fp) = keytool_sha256_spec(text) {
        if first_inline(ls, 0) is Some {
            lemma_first_inline_law(ls, 0);
            let k = choose|k: int| 0 <= k < ls.len() && inline_digest(#[trigger] ls[k]) == Some(fp);
            lemma_inline_digest_law(ls[k]);
            assert(announces_sha256(ls[k]));
        } else {
            lemma_first_next_line_law(ls, 0);
            let k = choose|k: int| 0 <= k < ls.len() && next_line_digest(ls, k) == Some(fp) && #[trigger] announces_sha256(ls[k]);
            let hex = hex_colons(ls[k + 1]);
            lemma_hex_digits_trim(hex);
            lemma_hex_digits_of_hex_colons(ls[k + 1]);
            assert(announces_sha256(ls[k]));
        }
    }
}

fn filter_hex_colons(s: &Vec<char>) -> (r: Vec<char>)
    ensures
        r@ == hex_colons(s@),
{
    let mut out: Vec<char> = Vec::new();
    let mut i: usize = 0;
    while i < s.len()
        invariant
            i <= s.len(),
            out@ == hex_colons(s@.take(i as int)),
        decreases s.len() - i,
    {
        proof {
            assert(s@.take(i + 1).drop_last() =~= s@.take(i as int));
            reveal(Seq::filter);
        }
        if is_ascii_hexdigit(s[i]) || s[i] == ':' {
            out.push(s[i]);
        }
        i = i + 1;
    }
    assert(s@.take(s.len() as int) =~= s@);
    out
}

fn count_hex(s: &Vec<char>) -> (r: usize)
    ensures
        r == hex_digits(s@).len(),
{
    let mut n: usize = 0;
    let mut i: usize = 0;
    while i < s.len()
        invariant
            i <= s.len(),
            n == hex_digits(s@.take(i as int)).len(),
            n <= i,
        decreases s.len() - i,
    {
        proof {
            assert(s@.take(i + 1).drop_last() =~= s@.take(i as int));
            reveal(Seq::filter);
        }
        if is_ascii_hexdigit(s[i]) {
            n = n + 1;
        }
        i = i + 1;
    }
    assert(s@.take(s.len() as int) =~= s@);
    n
}

fn trim_colons_vec(v: &Vec<char>) -> (r: Vec<char>)
    ensures
        r@ == trim_colons(v@),
{
    let mut lo: usize = 0;
    while lo < v.len() && v[lo] == ':'
        invariant
            lo <= v.len(),
            colon_lead(v@, 0) == colon_lead(v@, lo as int),
        decreases v.len() - lo,
    {
        lo = lo + 1;
    }
    let mut hi: usize = v.len();
    while hi > lo && v[hi - 1] == ':'
        invariant
            lo <= hi <= v.len(),
            colon_lead(v@, 0) == lo,
            colon_trail(v@, lo as int, v.len() as int) == colon_trail(v@, lo as int, hi as int),
        decreases hi - lo,
    {
        hi = hi - 1;
    }
    slice_vec(v, lo, hi)
}

fn inline_digest_vec(line: &Vec<char>) -> (r: Option<Vec<char>>)
    ensures
        match (r, inline_digest(line@)) {
            (Some(a), Some(b)) => a@ == b,
            (None, None) => true,
            _ => false,
        },
{
    let lower = lower_vec(line);
    if !(vec_contains(&lower, &chars_of("sha256:")) || vec_contains(&lower, &chars_of("sha-256:"))) {
        return None;
    }
    let idx = next_index(line, ':', 0);
    if idx >= line.len() {
        return None;
    }
    let rest = trim_vec(&slice_vec(line, idx + 1, line.len()));
    let hex = filter_hex_colons(&rest);
    if count_hex(&hex) == 64 {
        Some(trim_colons_vec(&trim_vec(&hex)))
    } else {
        None
    }
}

fn next_line_digest_vec(ls: &Vec<Vec<char>>, i: usize) -> (r: Option<Vec<char>>)
    requires
        i < ls.len(),
    ensures
        match (r, next_line_digest(ls@.map_values(|l: Vec<char>| l@), i as int)) {
            (Some(a), Some(b)) => a@ == b,
            (None, None) => true,
            _ => false,
        },
{
    let ghost lv = ls@.map_values(|l: Vec<char>| l@);
    assert(lv[i as int] == ls@[i as int]@);
    let lower = lower_vec(&ls[i]);
    if (vec_contains(&lower, &chars_of("sha256")) || vec_contains(&lower, &chars_of("sha-256")))
        && i + 1 < ls.len() {
        assert(lv[i + 1] == ls@[i + 1]@);
        let hex = filter_hex_colons(&ls[i + 1]);
        if count_hex(&hex) == 64 {
            return Some(trim_vec(&hex));
        }
    }
    None
}

/// Parse the SHA-256 certificate fingerprint from `keytool -list -v` output.
pub fn parse_sha256_from_keytool(text: &str) -> (r: Option<String>)
    ensures
        match (r, keytool_sha256_spec(text@)) {
            (Some(a), Some(b)) => a@ == b,
            (None, None) => true,
            _ => false,
        },
{
    let ls = lines_vec(&chars_of(text));
    let ghost lv = ls@.map_values(|l: Vec<char>| l@);
    assert(lv == lines(text@));
    let mut i: usize = 0;
    while i < ls.len()
        invariant
            i <= ls.len(),
            lv == ls@.map_values(|l: Vec<char>| l@),
            lv == lines(text@),
            first_inline(lv, 0) == first_inline(lv, i as int),
        decreases ls.len() - i,
    {
        assert(lv[i as int] == ls@[i as int]@);
        match inline_digest_vec(&ls[i]) {
            Some(d) => {
                return Some(string_of(&d));
            },
            None => {},
        }
        i = i + 1;
    }
    assert(first_inline(lv, 0) is None);
    let mut j: usize = 0;
    while j < ls.len()
        invariant
            j <= ls.len(),
            lv == ls@.map_values(|l: Vec<char>| l@),
            lv == lines(text@),
            first_inline(lv, 0) is None,
            first_next_line(lv, 0) == first_next_line(lv, j as int),
        decreases ls.len() - j,
    {
        match next_line_digest_vec(&ls, j) {
            Some(d) => {
                return Some(string_of(&d));
            },
            None => {},
        }
        j = j + 1;
    }
    None
}

/// Refuses to replace an existing keystore without `--force`.
pub fn check_keystore_slot(paths: &AndroidKeyPaths, fs: &FsSnapshot, force: bool) -> (r: Result<(), String>)
    ensures
        r is Ok <==> (!(fs_is_file(fs@, paths.keystore@) && fs_is_file(fs@, paths.meta@)) || force),
        r matches Err(e) ==> e@ == "android keystore already exists at "@ + paths.dir@
            + " — pass --force to overwrite"@,
{
    if paths.exists_in(fs) && !force {
        let mut m = string_from("android keystore already exists at ");
        crate::text::push_str(&mut m, paths.dir.as_str());
        crate::text::push_str(&mut m, " — pass --force to overwrite");
        return Err(m);
    }
    Ok(())
}

pub open spec fn strs(v: Seq<String>) -> Seq<Seq<char>> {
    v.map_values(|s: String| s@)
}

/// `keytool` arguments that generate the release key pair.
pub fn genkeypair_argv(keystore: &str, alias: &str, store_pass: &str, key_pass: &str, dname: &str) -> (r: Vec<String>)
    ensures
        strs(r@) == seq![
            "-genkeypair"@,
            "-v"@,
            "-keystore"@,
            keystore@,
            "-alias"@,
            alias@,
            "-keyalg"@,
            "RSA"@,
            "-keysize"@,
            "2048"@,
            "-validity"@,
            "10000"@,
            "-storepass"@,
            store_pass@,
            "-keypass"@,
            key_pass@,
            "-dname"@,
            dname@,
        ],
{
    let mut v: Vec<String> = Vec::new();
    v.push(string_from("-genkeypair"));
    v.push(string_from("-v"));
    v.push(string_from("-keystore"));
    v.push(string_from(keystore));
    v.push(string_from("-alias"));
    v.push(string_from(alias));
    v.push(string_from("-keyalg"));
    v.push(string_from("RSA"));
    v.push(string_from("-keysize"));
    v.push(string_from("2048"));
    v.push(string_from("-validity"));
    v.push(string_from("10000"));
    v.push(string_from("-storepass"));
    v.push(string_from(store_pass));
    v.push(string_from("-keypass"));
    v.push(string_from(key_pass));
    v.push(string_from("-dname"));
    v.push(string_from(dname));
    assert(strs(v@) =~= seq![
        "-genkeypair"@,
        "-v"@,
        "-keystore"@,
        keystore@,
        "-alias"@,
        alias@,
        "-keyalg"@,
        "RSA"@,
        "-keysize"@,
        "2048"@,
        "-validity"@,
        "10000"@,
        "-storepass"@,
        store_pass@,
        "-keypass"@,
        key_pass@,
        "-dname"@,
        dname@,
    ]);
    v
}

/// `keytool` arguments that list the certificate of `alias`.
pub fn list_argv(keystore: &str, alias: &str, store_pass: &str) -> (r: Vec<String>)
    ensures
        strs(r@) == seq![
            "-list"@,
            "-v"@,
            "-keystore"@,
            keystore@,
            "-alias"@,
            alias@,
            "-storepass"@,
            store_pass@,
        ],
{
    let mut v: Vec<String> = Vec::new();
    v.push(string_from("-list"));
    v.push(string_from("-v"));
    v.push(string_from("-keystore"));
    v.push(string_from(keystore));
    v.push(string_from("-alias"));
    v.push(string_from(alias));
    v.push(string_from("-storepass"));
    v.push(string_from(store_pass));
    assert(strs(v@) =~= seq![
        "-list"@,
        "-v"@,
        "-keystore"@,
        keystore@,
        "-alias"@,
        alias@,
        "-storepass"@,
        store_pass@,
    ]);
    v
}

/// The certificate digest from what `keytool -list -v` gave: its exit status, standard
/// output and error output.
pub fn cert_sha256_from_keytool(success: bool, stdout: &str, stderr: &str) -> (r: Result<String, String>)
    ensures
        !success ==> (r matches Err(e) && e@ == "keytool -list failed: "@ + stderr@),
        success ==> match keytool_sha256_spec(stdout@) {
            Some(fp) => r matches Ok(x) && x@ == fp,
            None => r matches Err(e) && e@ == "could not parse SHA-256 fingerprint from keytool output"@,
        },
{
    if !success {
        let mut m = string_from("keytool -list failed: ");
        crate::text::push_str(&mut m, stderr);
        return Err(m);
    }
    match parse_sha256_from_keytool(stdout) {
        Some(fp) => Ok(fp),
        None => Err(string_from("could not parse SHA-256 fingerprint from keytool output")),
    }
}

/// Refuses to import a keystore that is not a file.
pub fn check_import_source(source: &str, fs: &FsSnapshot) -> (r: Result<(), String>)
    ensures
        r is Ok <==> fs_is_file(fs@, source@),
        r matches Err(e) ==> e@ == "keystore not found: "@ + source@,
{
    if !fs.is_file(source) {
        let mut m = string_from("keystore not found: ");
        crate::text::push_str(&mut m, source);
        return Err(m);
    }
    Ok(())
}

pub open spec fn created_note(imported: bool) -> Seq<char> {
    if imported {
        "Imported keystore — verify alias; not the Play App Signing key."@
    } else {
        "Local upload/sideload keystore — not the Play App Signing key."@
    }
}

/// The metadata written next to a new or imported keystore; `created_at` is what formatting
/// the current time gave (`unknown` when it failed).
pub fn keystore_meta_at(alias: &str, created_at: Result<String, String>, cert_sha256: Option<String>, imported: bool) -> (r: AndroidKeyMeta)
    ensures
        r.alias@ == alias@,
        r.store_type@ == "JKS"@,
        r.created_at@ == match created_at {
            Ok(t) => t@,
            Err(_) => "unknown"@,
        },
        r.cert_sha256 == cert_sha256,
        r.note@ == created_note(imported),
{
    AndroidKeyMeta {
        alias: string_from(alias),
        store_type: string_from("JKS"),
        created_at: match created_at {
            Ok(t) => t,
            Err(_) => string_from("unknown"),
        },
        cert_sha256,
        note: if imported {
            string_from("Imported keystore — verify alias; not the Play App Signing key.")
        } else {
            string_from("Local upload/sideload keystore — not the Play App Signing key.")
        },
    }
}

/// The keystore metadata, stamped with the current time.
pub fn keystore_meta(alias: &str, cert_sha256: Option<String>, imported: bool) -> (r: AndroidKeyMeta)
    ensures
        r.alias@ == alias@,
        r.store_type@ == "JKS"@,
        r.cert_sha256 == cert_sha256,
        r.note@ == created_note(imported),
        r.created_at@ == "unknown"@ || exists|ns: i128| crate::clock::rfc3339_utc(ns) == Some(r.created_at@),
{
    let (secs, sub) = crate::clock::now_utc();
    let ns = crate::clock::nanos_of(secs, sub);
    let text = crate::clock::format_rfc3339(ns);
    proof {
        reveal_strlit("unknown");
    }
    keystore_meta_at(alias, text, cert_sha256, imported)
}

} // verus!
