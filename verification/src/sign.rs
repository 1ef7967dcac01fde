use vstd::prelude::*;
use vstd::string::*;
use vstd::utf8::encode_utf8;

use hmac::KeyInit;
use hmac::Mac;
use base64::Engine;

verus! {

// ---------------------------------------------------------------------------
// Decimal representation of integers.
// ---------------------------------------------------------------------------

/// The character for a single decimal digit `d` (`0 <= d <= 9`).
pub open spec fn dec_digit(d: int) -> char {
    ((48 + d) as char)
}

/// The decimal representation of a natural number, without leading zeros
/// (except for the single digit `0` itself).
pub open spec fn dec_rep_nat(n: nat) -> Seq<char>
    decreases n,
{
    if n < 10 {
        seq![dec_digit(n as int)]
    } else {
        dec_rep_nat(n / 10) + seq![dec_digit((n % 10) as int)]
    }
}

/// The decimal representation of an integer: a leading `-` for negative
/// values, then the digits of the magnitude.
pub open spec fn dec_rep(n: int) -> Seq<char> {
    if n < 0 {
        seq!['-'] + dec_rep_nat((-n) as nat)
    } else {
        dec_rep_nat(n as nat)
    }
}

/// A one-character string for the decimal digit `d`.
fn digit_string(d: u64) -> (r: String)
    requires
        d < 10,
    ensures
        r@ == seq![dec_digit(d as int)],
{
    let r: String = if d == 0 {
        proof { reveal_strlit("0"); }
        "0".to_owned()
    } else if d == 1 {
        proof { reveal_strlit("1"); }
        "1".to_owned()
    } else if d == 2 {
        proof { reveal_strlit("2"); }
        "2".to_owned()
    } else if d == 3 {
        proof { reveal_strlit("3"); }
        "3".to_owned()
    } else if d == 4 {
        proof { reveal_strlit("4"); }
        "4".to_owned()
    } else if d == 5 {
        proof { reveal_strlit("5"); }
        "5".to_owned()
    } else if d == 6 {
        proof { reveal_strlit("6"); }
        "6".to_owned()
    } else if d == 7 {
        proof { reveal_strlit("7"); }
        "7".to_owned()
    } else if d == 8 {
        proof { reveal_strlit("8"); }
        "8".to_owned()
    } else {
        proof { reveal_strlit("9"); }
        "9".to_owned()
    };
    proof {
        assert(r@ =~= seq![dec_digit(d as int)]);
    }
    r
}

/// Formats a natural number in decimal.
pub fn u64_to_string(m: u64) -> (r: String)
    ensures
        r@ == dec_rep_nat(m as nat),
    decreases m,
{
    if m < 10 {
        digit_string(m)
    } else {
        let mut s = u64_to_string(m / 10);
        let d = digit_string(m % 10);
        s.append(d.as_str());
        proof {
            assert(s@ =~= dec_rep_nat(m as nat));
        }
        s
    }
}

/// Formats a signed integer in decimal, as the vendor expects for the `t`
/// (timestamp) header.
pub fn i64_to_string(t: i64) -> (r: String)
    ensures
        r@ == dec_rep(t as int),
{
    if t >= 0 {
        u64_to_string(t as u64)
    } else {
        let m: u64 = (-(t as i128)) as u64;
        let mut s = "-".to_owned();
        let ds = u64_to_string(m);
        proof {
            reveal_strlit("-");
        }
        s.append(ds.as_str());
        proof {
            assert(s@ =~= dec_rep(t as int));
        }
        s
    }
}

// ---------------------------------------------------------------------------
// Nonce generation.
// ---------------------------------------------------------------------------

/// Holds of every character a nonce may contain: the alphanumeric
/// alphabet `[A-Za-z0-9]`.
pub open spec fn is_nonce_char(c: char) -> bool {
    ('A' <= c && c <= 'Z') || ('a' <= c && c <= 'z') || ('0' <= c && c <= '9')
}

/// Relies on rand::random_range: a uniformly drawn value of the given
/// (non-empty) range; nothing more can be promised of a random draw.
#[verifier::external_body]
fn random_below(n: usize) -> (r: usize)
    requires
        n >= 1,
    ensures
        r < n,
{
    rand::random_range(0..n)
}

/// Relies on String::push: appends the given character to the end of the
/// string.
#[verifier::external_body]
fn push_char(s: &mut String, c: char)
    ensures
        final(s)@ == old(s)@.push(c),
{
    s.push(c);
}

/// Maps an index below 62 to a character of the nonce alphabet:
/// `A..Z`, then `a..z`, then `0..9`.
fn nonce_char(j: u8) -> (c: char)
    requires
        j < 62,
    ensures
        is_nonce_char(c),
{
    if j < 26 {
        (65 + j) as char
    } else if j < 52 {
        (97 + (j - 26)) as char
    } else {
        (48 + (j - 52)) as char
    }
}

/// Draws a fresh random string of the requested length over the alphabet
/// `[A-Za-z0-9]`, with each character selected uniformly.
pub fn random_string(len: usize) -> (r: String)
    ensures
        r@.len() == len,
        forall|i: int| 0 <= i < len ==> is_nonce_char(#[trigger] r@[i]),
{
    let mut s = String::new();
    let mut i: usize = 0;
    while i < len
        invariant
            i <= len,
            s@.len() == i,
            forall|k: int| 0 <= k < i ==> is_nonce_char(#[trigger] s@[k]),
        decreases len - i,
    {
        let j = random_below(62);
        let c = nonce_char(j as u8);
        push_char(&mut s, c);
        i = i + 1;
    }
    s
}

// ---------------------------------------------------------------------------
// HMAC-SHA256 signing and base64 encoding.
// ---------------------------------------------------------------------------

/// The HMAC-SHA256 digest of `msg` under `key`.
pub uninterp spec fn hmac_sha256_of(key: Seq<u8>, msg: Seq<u8>) -> Seq<u8>;

/// The padded standard base64 encoding of a byte sequence.
pub uninterp spec fn base64_of(bytes: Seq<u8>) -> Seq<char>;

/// Relies on hmac::Hmac over sha2::Sha256: the digest is a function of key
/// and message alone and is 32 bytes long (SHA-256's output size); keys of
/// any length are accepted.
#[verifier::external_body]
fn hmac_sha256(key: &[u8], msg: &[u8]) -> (r: Vec<u8>)
    ensures
        r@ == hmac_sha256_of(key@, msg@),
        r@.len() == 32,
{
    let mut mac = hmac::Hmac::<sha2::Sha256>::new_from_slice(key)
        .expect("HMAC accepts keys of any length");
    mac.update(msg);
    mac.finalize().into_bytes().to_vec()
}

/// Relies on base64's STANDARD engine: the padded standard encoding, a
/// function of the input bytes alone, four output characters for every
/// started group of three input bytes.
#[verifier::external_body]
fn base64_encode(bytes: &[u8]) -> (r: String)
    requires
        bytes@.len() < 0x1000000000000000,
    ensures
        r@ == base64_of(bytes@),
        r@.len() == 4 * ((bytes@.len() + 2) / 3),
{
    base64::engine::general_purpose::STANDARD.encode(bytes)
}

/// The signing payload: token, then the decimal timestamp, then the nonce,
/// concatenated without delimiters.
pub open spec fn spec_payload(token: Seq<char>, t: i64, nonce: Seq<char>) -> Seq<char> {
    token + dec_rep(t as int) + nonce
}

/// The vendor signature: base64 of the HMAC-SHA256 digest of the payload's
/// UTF-8 bytes under the signing secret's UTF-8 bytes.
pub open spec fn spec_signature(
    secret: Seq<char>,
    token: Seq<char>,
    t: i64,
    nonce: Seq<char>,
) -> Seq<char> {
    base64_of(hmac_sha256_of(encode_utf8(secret), encode_utf8(spec_payload(token, t, nonce))))
}

/// The signature is a function of the secret, token, timestamp and nonce
/// alone: equal inputs give equal signatures.
pub proof fn lemma_signature_deterministic(
    secret1: Seq<char>,
    token1: Seq<char>,
    t1: i64,
    nonce1: Seq<char>,
    secret2: Seq<char>,
    token2: Seq<char>,
    t2: i64,
    nonce2: Seq<char>,
)
    requires
        secret1 == secret2,
        token1 == token2,
        t1 == t2,
        nonce1 == nonce2,
    ensures
        spec_signature(secret1, token1, t1, nonce1) == spec_signature(secret2, token2, t2, nonce2),
{
}

/// Computes the vendor signature for the given secret, token, timestamp and
/// nonce.
pub fn compute_sign(secret: &str, token: &str, t: i64, nonce: &str) -> (r: String)
    ensures
        r@ == spec_signature(secret@, token@, t, nonce@),
{
    let t_str = i64_to_string(t);
    let payload = token.to_owned().concat(t_str.as_str()).concat(nonce);
    proof {
        assert(payload@ =~= spec_payload(token@, t, nonce@));
    }
    let digest = hmac_sha256(secret.as_bytes(), payload.as_str().as_bytes());
    base64_encode(digest.as_slice())
}

} // verus!
