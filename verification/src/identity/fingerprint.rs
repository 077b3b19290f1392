//! SHA-256 certificate fingerprints: colon-separated upper-case hex of the DER digest.
use vstd::prelude::*;

use sha2::Digest;

use crate::text::{
    chars_of, is_hex_digit, lemma_starts_with_concat, push_str, starts_with, string_from, string_of,
};

verus! {

/// The SHA-256 digest of `data`.
pub uninterp spec fn sha256_of(data: Seq<u8>) -> Seq<u8>;

/// The decoded contents of the first PEM block of `pem`, `None` when it has none that
/// decodes.
pub uninterp spec fn pem_first_block(pem: Seq<char>) -> Option<Seq<u8>>;

/// The upper-case hex digit for a nibble.
pub open spec fn hex_digit_upper(n: int) -> char {
    if n == 0 {
        '0'
    } else if n == 1 {
        '1'
    } else if n == 2 {
        '2'
    } else if n == 3 {
        '3'
    } else if n == 4 {
        '4'
    } else if n == 5 {
        '5'
    } else if n == 6 {
        '6'
    } else if n == 7 {
        '7'
    } else if n == 8 {
        '8'
    } else if n == 9 {
        '9'
    } else if n == 10 {
        'A'
    } else if n == 11 {
        'B'
    } else if n == 12 {
        'C'
    } else if n == 13 {
        'D'
    } else if n == 14 {
        'E'
    } else {
        'F'
    }
}

/// Each byte as two upper-case hex digits, high nibble first.
pub open spec fn hex_upper_spec(b: Seq<u8>) -> Seq<char>
    decreases b.len(),
{
    if b.len() == 0 {
        Seq::empty()
    } else {
        hex_upper_spec(b.drop_last()) + seq![
            hex_digit_upper(b.last() as int / 16),
            hex_digit_upper(b.last() as int % 16),
        ]
    }
}

/// The lower-case hex digit for a nibble.
pub open spec fn hex_digit_lower(n: int) -> char {
    if n < 10 {
        hex_digit_upper(n)
    } else if n == 10 {
        'a'
    } else if n == 11 {
        'b'
    } else if n == 12 {
        'c'
    } else if n == 13 {
        'd'
    } else if n == 14 {
        'e'
    } else {
        'f'
    }
}

/// Each byte as two lower-case hex digits, high nibble first.
pub open spec fn hex_lower_spec(b: Seq<u8>) -> Seq<char>
    decreases b.len(),
{
    if b.len() == 0 {
        Seq::empty()
    } else {
        hex_lower_spec(b.drop_last()) + seq![
            hex_digit_lower(b.last() as int / 16),
            hex_digit_lower(b.last() as int % 16),
        ]
    }
}

/// The first `k` characters of `h`, with `:` before every pair but the first.
pub open spec fn colon_upto(h: Seq<char>, k: int) -> Seq<char>
    decreases k,
{
    if k <= 0 {
        Seq::empty()
    } else {
        colon_upto(h, k - 1) + if k - 1 > 0 && (k - 1) % 2 == 0 {
            seq![':', h[k - 1]]
        } else {
            seq![h[k - 1]]
        }
    }
}

/// `h` in colon-separated pairs (`AB:CD:…`).
pub open spec fn colon_pairs(h: Seq<char>) -> Seq<char> {
    colon_upto(h, h.len() as int)
}

/// The fingerprint of DER bytes.
pub open spec fn fingerprint_spec(der: Seq<u8>) -> Seq<char> {
    colon_pairs(hex_upper_spec(sha256_of(der)))
}

/// `sha2::Sha256::digest(data)`: the SHA-256 digest of `data`, 32 bytes long.
#[verifier::external_body]
fn sha256_digest(data: &[u8]) -> (r: Vec<u8>)
    ensures
        r@ == sha256_of(data@),
        r@.len() == 32,
{
    sha2::Sha256::digest(data).to_vec()
}

/// `hex::encode_upper(bytes)`: each byte as two characters of `0123456789ABCDEF`, high
/// nibble first.
#[verifier::external_body]
fn hex_upper(bytes: &[u8]) -> (r: String)
    ensures
        r@ == hex_upper_spec(bytes@),
{
    hex::encode_upper(bytes)
}

/// `hex::encode(bytes)`: each byte as two characters of `0123456789abcdef`, high nibble
/// first.
#[verifier::external_body]
fn hex_lower(bytes: &[u8]) -> (r: String)
    ensures
        r@ == hex_lower_spec(bytes@),
{
    hex::encode(bytes)
}

/// The SHA-256 digest of `data` in lower-case hex (as `SHA256SUMS` lists it).
pub fn sha256_hex(data: &[u8]) -> (r: String)
    ensures
        r@ == hex_lower_spec(sha256_of(data@)),
{
    let digest = sha256_digest(data);
    hex_lower(digest.as_slice())
}

/// `x509_parser::pem::parse_x509_pem(pem.as_bytes())`: the decoded contents of the first
/// PEM block, or the parser's error text when there is none.
#[verifier::external_body]
fn parse_first_pem(pem: &str) -> (r: Result<Vec<u8>, String>)
    ensures
        match r {
            Ok(d) => pem_first_block(pem@) == Some(d@),
            Err(_) => pem_first_block(pem@) is None,
        },
{
    match x509_parser::pem::parse_x509_pem(pem.as_bytes()) {
        Ok((_, p)) => Ok(p.contents),
        Err(e) => Err(e.to_string()),
    }
}

/// `h` in colon-separated pairs.
pub fn colon_pairs_of(h: &Vec<char>) -> (r: String)
    ensures
        r@ == colon_pairs(h@),
{
    let mut out: Vec<char> = Vec::new();
    let mut i: usize = 0;
    while i < h.len()
        invariant
            i <= h.len(),
            out@ == colon_upto(h@, i as int),
        decreases h.len() - i,
    {
        if i > 0 && i % 2 == 0 {
            out.push(':');
        }
        out.push(h[i]);
        i = i + 1;
        assert(out@ =~= colon_upto(h@, i as int));
    }
    string_of(&out)
}

/// SHA-256 fingerprint of DER certificate bytes, colon-separated uppercase hex: 32 pairs
/// of hex digits joined by 31 colons.
pub fn fingerprint_sha256_colon(der: &[u8]) -> (r: String)
    ensures
        r@ == fingerprint_spec(der@),
        r@.len() == 95,
        count_char(r@, ':') == 31,
        forall|i: int| 0 <= i < r@.len() ==> #[trigger] r@[i] == ':' || is_hex_digit(r@[i]),
{
    let digest = sha256_digest(der);
    proof {
        lemma_fingerprint_shape(der@);
    }
    let hex = hex_upper(digest.as_slice());
    colon_pairs_of(&chars_of(hex.as_str()))
}

/// The DER bytes of the first PEM block of `pem`.
pub fn pem_to_der(pem: &str) -> (r: Result<Vec<u8>, String>)
    ensures
        match r {
            Ok(d) => pem_first_block(pem@) == Some(d@),
            Err(e) => pem_first_block(pem@) is None && starts_with(
                e@,
                "invalid certificate PEM: "@,
            ),
        },
{
    match parse_first_pem(pem) {
        Ok(d) => Ok(d),
        Err(t) => {
            let mut m = string_from("invalid certificate PEM: ");
            push_str(&mut m, t.as_str());
            proof {
                lemma_starts_with_concat("invalid certificate PEM: "@, t@);
            }
            Err(m)
        },
    }
}

/// The fingerprint of the certificate in the first PEM block of `pem`.
pub fn fingerprint_from_cert_pem(pem: &str) -> (r: Result<String, String>)
    ensures
        match (r, pem_first_block(pem@)) {
            (Ok(fp), Some(d)) => fp@ == fingerprint_spec(d),
            (Err(e), None) => starts_with(e@, "invalid certificate PEM: "@),
            _ => false,
        },
{
    let der = pem_to_der(pem)?;
    Ok(fingerprint_sha256_colon(der.as_slice()))
}

proof fn lemma_hex_digit_is_hex(n: int)
    ensures
        is_hex_digit(hex_digit_upper(n)),
        hex_digit_upper(n) != ':',
{
}

proof fn lemma_hex_upper_shape(b: Seq<u8>)
    ensures
        hex_upper_spec(b).len() == 2 * b.len(),
        forall|i: int|
            0 <= i < hex_upper_spec(b).len() ==> is_hex_digit(#[trigger] hex_upper_spec(b)[i])
                && hex_upper_spec(b)[i] != ':',
    decreases b.len(),
{
    if b.len() > 0 {
        lemma_hex_upper_shape(b.drop_last());
        lemma_hex_digit_is_hex(b.last() as int / 16);
        lemma_hex_digit_is_hex(b.last() as int % 16);
        let prev = hex_upper_spec(b.drop_last());
        let s = hex_upper_spec(b);
        assert forall|i: int| 0 <= i < s.len() implies is_hex_digit(#[trigger] s[i]) && s[i] != ':' by {
            if i < prev.len() {
                assert(s[i] == prev[i]);
            }
        }
    }
}

/// How many times `c` occurs in `s`.
pub open spec fn count_char(s: Seq<char>, c: char) -> int
    decreases s.len(),
{
    if s.len() == 0 {
        0
    } else {
        count_char(s.drop_last(), c) + if s.last() == c {
            1int
        } else {
            0int
        }
    }
}

proof fn lemma_count_concat(a: Seq<char>, b: Seq<char>, c: char)
    ensures
        count_char(a + b, c) == count_char(a, c) + count_char(b, c),
    decreases b.len(),
{
    if b.len() == 0 {
        assert(a + b =~= a);
    } else {
        assert((a + b).drop_last() =~= a + b.drop_last());
        lemma_count_concat(a, b.drop_last(), c);
    }
}

proof fn lemma_colon_upto_shape(h: Seq<char>, k: int)
    requires
        0 < k <= h.len(),
        forall|i: int| 0 <= i < h.len() ==> #[trigger] h[i] != ':',
    ensures
        colon_upto(h, k).len() == k + (k - 1) / 2,
        count_char(colon_upto(h, k), ':') == (k - 1) / 2,
        forall|i: int|
            0 <= i < colon_upto(h, k).len() ==> #[trigger] colon_upto(h, k)[i] == ':' || exists|
                j: int,
            |
                0 <= j < k && colon_upto(h, k)[i] == #[trigger] h[j],
    decreases k,
{
    let s = colon_upto(h, k);
    if k == 1 {
        assert(colon_upto(h, 0) =~= Seq::<char>::empty());
        assert(s =~= seq![h[0]]);
        assert(count_char(seq![h[0]], ':') == count_char(Seq::<char>::empty(), ':') + 0) by {
            assert(seq![h[0]].drop_last() =~= Seq::<char>::empty());
        }
        assert forall|i: int| 0 <= i < s.len() implies s[i] == ':' || exists|j: int|
            0 <= j < k && s[i] == #[trigger] h[j] by {
            assert(s[i] == h[0]);
        }
    } else {
        lemma_colon_upto_shape(h, k - 1);
        let prev = colon_upto(h, k - 1);
        let tail = if k - 1 > 0 && (k - 1) % 2 == 0 {
            seq![':', h[k - 1]]
        } else {
            seq![h[k - 1]]
        };
        assert(s == prev + tail);
        lemma_count_concat(prev, tail, ':');
        assert(h[k - 1] != ':');
        assert(count_char(Seq::<char>::empty(), ':') == 0);
        if (k - 1) % 2 == 0 {
            assert(count_char(tail, ':') == 1) by {
                assert(tail.drop_last() =~= seq![':']);
                assert(tail.last() == h[k - 1]);
                assert(seq![':'].drop_last() =~= Seq::<char>::empty());
                assert(seq![':'].last() == ':');
                assert(count_char(seq![':'], ':') == 1);
            }
        } else {
            assert(count_char(tail, ':') == 0) by {
                assert(tail.drop_last() =~= Seq::<char>::empty());
                assert(tail.last() == h[k - 1]);
            }
        }
        assert forall|i: int| 0 <= i < s.len() implies s[i] == ':' || exists|j: int|
            0 <= j < k && s[i] == #[trigger] h[j] by {
            if i < prev.len() {
                assert(s[i] == prev[i]);
                if prev[i] != ':' {
                    let j = choose|j: int| 0 <= j < k - 1 && prev[i] == #[trigger] h[j];
                    assert(s[i] == h[j]);
                }
            } else {
                assert(s[i] == tail[i - prev.len()]);
                if s[i] != ':' {
                    assert(s[i] == h[k - 1]);
                }
            }
        }
    }
}

proof fn lemma_fingerprint_shape(der: Seq<u8>)
    requires
        sha256_of(der).len() == 32,
    ensures
        fingerprint_spec(der).len() == 95,
        count_char(fingerprint_spec(der), ':') == 31,
        forall|i: int|
            0 <= i < fingerprint_spec(der).len() ==> #[trigger] fingerprint_spec(der)[i] == ':'
                || is_hex_digit(fingerprint_spec(der)[i]),
{
    let d = sha256_of(der);
    let h = hex_upper_spec(d);
    lemma_hex_upper_shape(d);
    lemma_colon_upto_shape(h, h.len() as int);
    let s = fingerprint_spec(der);
    assert forall|i: int| 0 <= i < s.len() implies #[trigger] s[i] == ':' || is_hex_digit(s[i]) by {
        if s[i] != ':' {
            let j = choose|j: int| 0 <= j < h.len() && s[i] == #[trigger] h[j];
            assert(is_hex_digit(h[j]));
        }
    }
}

} // verus!
