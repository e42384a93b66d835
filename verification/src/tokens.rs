//! Bearer tokens: 256 random bits that are shown once. Only their hash is kept.

use crate::secret::{random_bytes, Secret};
use crate::text::{digit_char, hex_digit};
use vstd::prelude::*;
use vstd::utf8::encode_utf8;

verus! {

// ---- Hashing ---------------------------------------------------------------

/// The SHA-256 digest of a message.
pub uninterp spec fn sha256(data: Seq<u8>) -> Seq<u8>;

/// Calls `sha2::Sha256::digest`. The digest is a function of the message alone,
/// and has 32 bytes.
#[verifier::external_body]
fn sha256_digest(data: &[u8]) -> (r: Vec<u8>)
    ensures
        r@ == sha256(data@),
        r@.len() == 32,
{
    <sha2::Sha256 as sha2::Digest>::digest(data).to_vec()
}

/// The hexadecimal digit of a number below 16, in lower case.
pub open spec fn hex_char(n: int) -> char {
    if n < 10 {
        digit_char(n)
    } else {
        (('a' as u8) + (n - 10)) as char
    }
}

/// Two hexadecimal digits for each byte, the upper half first.
pub open spec fn hex_of(data: Seq<u8>) -> Seq<char> {
    Seq::new(
        2 * data.len(),
        |i: int|
            hex_char(
                if i % 2 == 0 {
                    data[i / 2] as int / 16
                } else {
                    data[i / 2] as int % 16
                },
            ),
    )
}

/// Calls `hex::encode`: every byte becomes two hexadecimal digits in lower case.
#[verifier::external_body]
pub(crate) fn hex_encode(data: &[u8]) -> (r: String)
    requires
        data@.len() <= 0x1000_0000,
    ensures
        r@ == hex_of(data@),
{
    hex::encode(data)
}

/// What is kept of a token.
pub open spec fn token_hash(token: Seq<char>) -> Seq<char> {
    hex_of(sha256(encode_utf8(token)))
}

/// The hash of a token, in hexadecimal.
pub fn hash_token(token: &str) -> (r: String)
    ensures
        r@ == token_hash(token@),
        r@.len() == 64,
{
    let digest = sha256_digest(token.as_bytes());
    hex_encode(digest.as_slice())
}

// ---- Making ----------------------------------------------------------------

/// A symbol of the base 64 alphabet for URLs.
pub open spec fn base64_char(n: int) -> char {
    if n < 26 {
        (('A' as u8) + n) as char
    } else if n < 52 {
        (('a' as u8) + (n - 26)) as char
    } else if n < 62 {
        digit_char(n - 52)
    } else if n == 62 {
        '-'
    } else {
        '_'
    }
}

/// The byte at `i`; beyond the end, zero.
pub open spec fn byte_at(data: Seq<u8>, i: int) -> int {
    if i < data.len() {
        data[i] as int
    } else {
        0
    }
}

/// The six bits from position `6 * i` on, read as a number.
pub open spec fn six_bits(data: Seq<u8>, i: int) -> int {
    let first = (6 * i) / 8;
    let pair = byte_at(data, first) * 256 + byte_at(data, first + 1);
    let skipped = (6 * i) % 8;
    let shifted = if skipped == 0 {
        pair / 1024
    } else if skipped == 2 {
        pair / 256
    } else if skipped == 4 {
        pair / 64
    } else {
        pair / 16
    };
    shifted % 64
}

/// One symbol for every six bits, the last filled up with zeros.
pub open spec fn base64url(data: Seq<u8>) -> Seq<char> {
    Seq::new(((8 * data.len() + 5) / 6) as nat, |i: int| base64_char(six_bits(data, i)))
}

/// Calls `base64::Engine::encode` of the engine `URL_SAFE_NO_PAD`: every six bits
/// become one symbol of the URL alphabet, without padding. The crate panics where
/// the length of the result does not fit.
#[verifier::external_body]
fn base64_encode(data: &[u8]) -> (r: String)
    requires
        data@.len() <= 0x1000_0000,
    ensures
        r@ == base64url(data@),
{
    base64::Engine::encode(&base64::engine::general_purpose::URL_SAFE_NO_PAD, data)
}

/// The token that is made of these bytes, and its hash.
pub fn token_of(bytes: &[u8; 32]) -> (r: (Secret, String))
    ensures
        r.0@ == base64url(bytes@),
        r.0@.len() == 43,
        r.1@ == token_hash(r.0@),
{
    let token = base64_encode(bytes.as_slice());
    let hash = hash_token(token.as_str());
    (Secret::new(token), hash)
}

/// A fresh token and its hash.
pub fn generate_token() -> (r: (Secret, String))
    ensures
        exists|bytes: Seq<u8>| bytes.len() == 32 && r.0@ == #[trigger] base64url(bytes),
        r.0@.len() == 43,
        r.1@ == token_hash(r.0@),
{
    let fresh = random_bytes();
    let bytes = fresh.as_array();
    let r = token_of(bytes);
    assert(r.0@ == base64url(bytes@));
    r
}

// ---- What holds of tokens --------------------------------------------------

/// What is kept of a token can be read back into the bytes of its digest: two
/// hexadecimal digits for each, and no two sequences of bytes are written alike.
pub proof fn law_hex_is_faithful(a: Seq<u8>, b: Seq<u8>)
    ensures
        forall|i: int| 0 <= i < hex_of(a).len() ==> hex_digit(#[trigger] hex_of(a)[i]),
        hex_of(a) == hex_of(b) ==> a == b,
{
    assert forall|i: int| 0 <= i < hex_of(a).len() implies hex_digit(
        #[trigger] hex_of(a)[i],
    ) by {
        assert(0 <= i / 2 < a.len());
    }
    if hex_of(a) == hex_of(b) {
        assert(hex_of(a).len() == hex_of(b).len());
        assert forall|k: int| 0 <= k < a.len() implies a[k] == b[k] by {
            let x = a[k] as int;
            let y = b[k] as int;
            assert(hex_of(a)[2 * k] == hex_char(x / 16));
            assert(hex_of(b)[2 * k] == hex_char(y / 16));
            assert(hex_of(a)[2 * k + 1] == hex_char(x % 16));
            assert(hex_of(b)[2 * k + 1] == hex_char(y % 16));
        }
        assert(a =~= b);
    }
}

proof fn lemma_symbols_differ(m: int, n: int)
    requires
        0 <= m < 64,
        0 <= n < 64,
        base64_char(m) == base64_char(n),
    ensures
        m == n,
{
}

proof fn lemma_upper_six(p: int, q: int)
    requires
        0 <= p < 256,
        0 <= q < 256,
    ensures
        (p * 256 + q) / 1024 % 64 == p / 4,
{
}

proof fn lemma_two_and_four(p: int, q: int)
    requires
        0 <= p < 256,
        0 <= q < 256,
    ensures
        (p * 256 + q) / 16 % 64 == (p % 4) * 16 + q / 16,
{
    let h = q / 16;
    assert((p * 256 + q) / 16 == p * 16 + h);
    assert(p * 16 + h == (p / 4) * 64 + (p % 4) * 16 + h);
}

proof fn lemma_four_and_two(p: int, q: int)
    requires
        0 <= p < 256,
        0 <= q < 256,
    ensures
        (p * 256 + q) / 64 % 64 == (p % 16) * 4 + q / 64,
{
    let h = q / 64;
    assert((p * 256 + q) / 64 == p * 4 + h);
    assert(p * 4 + h == (p / 16) * 64 + (p % 16) * 4 + h);
}

proof fn lemma_lower_six(p: int, q: int)
    requires
        0 <= p < 256,
        0 <= q < 256,
    ensures
        (p * 256 + q) / 256 % 64 == p % 64,
{
}

/// Three bytes fill four symbols.
proof fn lemma_group(a: Seq<u8>, g: int)
    requires
        g >= 0,
    ensures
        ({
            let x = byte_at(a, 3 * g);
            let y = byte_at(a, 3 * g + 1);
            let z = byte_at(a, 3 * g + 2);
            &&& six_bits(a, 4 * g) == x / 4
            &&& six_bits(a, 4 * g + 1) == (x % 4) * 16 + y / 16
            &&& six_bits(a, 4 * g + 2) == (y % 16) * 4 + z / 64
            &&& six_bits(a, 4 * g + 3) == z % 64
        }),
{
    let x = byte_at(a, 3 * g);
    let y = byte_at(a, 3 * g + 1);
    let z = byte_at(a, 3 * g + 2);
    assert((6 * (4 * g)) / 8 == 3 * g && (6 * (4 * g)) % 8 == 0);
    assert((6 * (4 * g + 1)) / 8 == 3 * g && (6 * (4 * g + 1)) % 8 == 6);
    assert((6 * (4 * g + 2)) / 8 == 3 * g + 1 && (6 * (4 * g + 2)) % 8 == 4);
    assert((6 * (4 * g + 3)) / 8 == 3 * g + 2 && (6 * (4 * g + 3)) % 8 == 2);
    lemma_upper_six(x, y);
    lemma_two_and_four(x, y);
    lemma_four_and_two(y, z);
    lemma_lower_six(z, byte_at(a, 3 * g + 3));
}

/// Three bytes are determined by their four symbols.
proof fn lemma_group_determines(
    x: int,
    y: int,
    z: int,
    u: int,
    v: int,
    w: int,
)
    requires
        0 <= x < 256,
        0 <= y < 256,
        0 <= z < 256,
        0 <= u < 256,
        0 <= v < 256,
        0 <= w < 256,
        x / 4 == u / 4,
        (x % 4) * 16 + y / 16 == (u % 4) * 16 + v / 16,
        (y % 16) * 4 + z / 64 == (v % 16) * 4 + w / 64,
        z % 64 == w % 64,
    ensures
        x == u,
        y == v,
        z == w,
{
}

/// Different bytes make different tokens.
pub proof fn law_tokens_differ(a: Seq<u8>, b: Seq<u8>)
    requires
        a.len() == 32,
        b.len() == 32,
        base64url(a) == base64url(b),
    ensures
        a == b,
{
    assert forall|k: int| 0 <= k < 32 implies a[k] == b[k] by {
        let g = k / 3;
        lemma_group(a, g);
        lemma_group(b, g);
        lemma_same_symbol(a, b, 4 * g);
        lemma_same_symbol(a, b, 4 * g + 1);
        lemma_same_symbol(a, b, 4 * g + 2);
        if 4 * g + 3 < 43 {
            lemma_same_symbol(a, b, 4 * g + 3);
        }
        lemma_group_determines(
            byte_at(a, 3 * g),
            byte_at(a, 3 * g + 1),
            byte_at(a, 3 * g + 2),
            byte_at(b, 3 * g),
            byte_at(b, 3 * g + 1),
            byte_at(b, 3 * g + 2),
        );
    }
    assert(a =~= b);
}

/// Equal tokens have equal bits behind each symbol.
proof fn lemma_same_symbol(a: Seq<u8>, b: Seq<u8>, i: int)
    requires
        a.len() == 32,
        b.len() == 32,
        base64url(a) == base64url(b),
        0 <= i < 43,
    ensures
        six_bits(a, i) == six_bits(b, i),
{
    assert(base64url(a)[i] == base64_char(six_bits(a, i)));
    assert(base64url(b)[i] == base64_char(six_bits(b, i)));
    lemma_symbols_differ(six_bits(a, i), six_bits(b, i));
}

} // verus!
