//! Digests, encodings and comparisons used for tokens and signed URLs.
use vstd::prelude::*;

verus! {

/// The SHA-256 digest of some bytes.
pub uninterp spec fn sha256(data: Seq<u8>) -> Seq<u8>;

/// Computes SHA-256 with the `sha2` crate (`Sha256::digest`); the result is
/// the name `sha256` of the input, 32 bytes long.
#[verifier::external_body]
pub(crate) fn sha256_digest(data: &[u8]) -> (r: Vec<u8>)
    ensures
        r@ == sha256(data@),
        r@.len() == 32,
{
    <sha2::Sha256 as sha2::Digest>::digest(data).to_vec()
}

/// The character of the URL-safe base64 alphabet for a six-bit value:
/// `A`-`Z`, `a`-`z`, `0`-`9`, `-`, `_`.
pub open spec fn base64_url_char(v: int) -> char {
    if v < 26 {
        (('A' as int) + v) as char
    } else if v < 52 {
        (('a' as int) + v - 26) as char
    } else if v < 62 {
        (('0' as int) + v - 52) as char
    } else if v == 62 {
        '-'
    } else {
        '_'
    }
}

/// The URL-safe base64 text of some bytes, without padding: each group of
/// three bytes becomes four characters of six bits each, most significant
/// first; a last group of two bytes becomes three characters, one byte two.
pub open spec fn base64_url_nopad(data: Seq<u8>) -> Seq<char>
    decreases data.len(),
{
    if data.len() == 0 {
        Seq::empty()
    } else if data.len() == 1 {
        let a = data[0] as int;
        seq![base64_url_char(a / 4), base64_url_char((a % 4) * 16)]
    } else if data.len() == 2 {
        let a = data[0] as int;
        let b = data[1] as int;
        seq![
            base64_url_char(a / 4),
            base64_url_char((a % 4) * 16 + b / 16),
            base64_url_char((b % 16) * 4),
        ]
    } else {
        let a = data[0] as int;
        let b = data[1] as int;
        let c = data[2] as int;
        seq![
            base64_url_char(a / 4),
            base64_url_char((a % 4) * 16 + b / 16),
            base64_url_char((b % 16) * 4 + c / 64),
            base64_url_char(c % 64),
        ] + base64_url_nopad(data.skip(3))
    }
}

/// A character of the URL-safe base64 alphabet.
pub open spec fn is_base64_url_char(c: char) -> bool {
    ('A' <= c && c <= 'Z') || ('a' <= c && c <= 'z') || ('0' <= c && c <= '9') || c == '-' || c
        == '_'
}

/// The text has `ceil(4n / 3)` characters for `n` bytes, all of the URL-safe
/// alphabet.
pub proof fn lemma_base64_url_shape(data: Seq<u8>)
    ensures
        base64_url_nopad(data).len() == (4 * data.len() + 2) / 3,
        forall|i: int|
            0 <= i < base64_url_nopad(data).len() ==> is_base64_url_char(
                #[trigger] base64_url_nopad(data)[i],
            ),
    decreases data.len(),
{
    assert forall|v: int| 0 <= v < 64 implies is_base64_url_char(#[trigger] base64_url_char(v)) by {
    }
    if data.len() >= 3 {
        lemma_base64_url_shape(data.skip(3));
        let a = data[0] as int;
        let b = data[1] as int;
        let c = data[2] as int;
        assert(0 <= (a % 4) * 16 + b / 16 < 64);
        assert(0 <= (b % 16) * 4 + c / 64 < 64);
        let head = seq![
            base64_url_char(a / 4),
            base64_url_char((a % 4) * 16 + b / 16),
            base64_url_char((b % 16) * 4 + c / 64),
            base64_url_char(c % 64),
        ];
        let whole = head + base64_url_nopad(data.skip(3));
        assert forall|i: int| 0 <= i < whole.len() implies is_base64_url_char(#[trigger] whole[i]) by {
            if i >= 4 {
                assert(whole[i] == base64_url_nopad(data.skip(3))[i - 4]);
            }
        }
    } else if data.len() == 2 {
        let a = data[0] as int;
        let b = data[1] as int;
        assert(0 <= (a % 4) * 16 + b / 16 < 64);
        assert(0 <= (b % 16) * 4 < 64);
    } else if data.len() == 1 {
        let a = data[0] as int;
        assert(0 <= (a % 4) * 16 < 64);
    }
}

/// Encodes with the `base64` crate (`URL_SAFE_NO_PAD.encode`): the crate's
/// standard encoding with the URL-safe alphabet and no padding, which is
/// `base64_url_nopad`.
#[verifier::external_body]
pub(crate) fn encode_base64_url_nopad(data: &[u8]) -> (r: String)
    ensures
        r@ == base64_url_nopad(data@),
{
    base64::Engine::encode(&base64::engine::general_purpose::URL_SAFE_NO_PAD, data)
}

pub open spec fn hex_digit(v: u8) -> char {
    if v < 10 {
        (('0' as u8) + v) as char
    } else {
        (('a' as u8) + v - 10) as char
    }
}

/// Lower case hexadecimal text of some bytes, two digits per byte.
pub open spec fn hex_lower(data: Seq<u8>) -> Seq<char>
    decreases data.len(),
{
    if data.len() == 0 {
        Seq::empty()
    } else {
        hex_lower(data.drop_last()) + seq![hex_digit(data.last() / 16), hex_digit(data.last() % 16)]
    }
}

fn hex_char(v: u8) -> (c: char)
    requires
        v < 16,
    ensures
        c == hex_digit(v),
{
    if v < 10 {
        (48u8 + v) as char
    } else {
        (97u8 + v - 10) as char
    }
}

/// The lower case hexadecimal text of `data`.
pub fn to_hex_lower(data: &[u8]) -> (r: String)
    ensures
        r@ == hex_lower(data@),
{
    let mut cs: Vec<char> = Vec::new();
    let mut i: usize = 0;
    while i < data.len()
        invariant
            i <= data.len(),
            cs@ == hex_lower(data@.take(i as int)),
        decreases data.len() - i,
    {
        let b = data[i];
        cs.push(hex_char(b / 16));
        cs.push(hex_char(b % 16));
        assert(data@.take(i + 1).drop_last() == data@.take(i as int));
        assert(cs@ =~= hex_lower(data@.take(i as int)) + seq![hex_digit(b / 16), hex_digit(b % 16)]);
        i += 1;
    }
    assert(data@.take(data.len() as int) == data@);
    crate::text::string_of(&cs)
}

/// The stored form of a secret token: the hexadecimal SHA-256 of its UTF-8 bytes.
pub open spec fn spec_hash_token(token: Seq<char>) -> Seq<char> {
    hex_lower(sha256(vstd::utf8::encode_utf8(token)))
}

pub fn hash_token(token: &str) -> (r: String)
    ensures
        r@ == spec_hash_token(token@),
{
    let digest = sha256_digest(token.as_bytes());
    to_hex_lower(digest.as_slice())
}

/// Whether two byte strings are equal, compared without an early exit.
pub fn constant_time_eq(left: &[u8], right: &[u8]) -> (b: bool)
    ensures
        b == (left@ == right@),
{
    let n = if left.len() > right.len() {
        left.len()
    } else {
        right.len()
    };
    let mut diff: u64 = if left.len() == right.len() {
        0
    } else {
        1
    };
    let mut index: usize = 0;
    while index < n
        invariant
            index <= n,
            n == if left@.len() > right@.len() {
                left@.len()
            } else {
                right@.len()
            },
            (diff == 0) == (left@.len() == right@.len() && forall|k: int|
                0 <= k < index ==> left@[k] == right@[k]),
        decreases n - index,
    {
        let a: u8 = if index < left.len() {
            left[index]
        } else {
            0
        };
        let b: u8 = if index < right.len() {
            right[index]
        } else {
            0
        };
        let x: u8 = a ^ b;
        assert((x == 0) == (a == b)) by (bit_vector)
            requires
                x == a ^ b,
        ;
        let d2: u64 = diff | (x as u64);
        assert((d2 == 0) == (diff == 0 && x == 0)) by (bit_vector)
            requires
                d2 == diff | (x as u64),
        ;
        diff = d2;
        index += 1;
    }
    proof {
        if diff == 0 {
            assert(left@ =~= right@);
        }
    }
    diff == 0
}

} // verus!
