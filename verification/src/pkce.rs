//! Proof Key for Code Exchange: the code verifier that stays with the client until the
//! token request, and the code challenge that is sent ahead with the login.

use base64::engine::general_purpose::URL_SAFE_NO_PAD;
use base64::Engine;
use rand::rngs::OsRng;
use rand::RngCore;
use sha2::{Digest, Sha256};
use vstd::prelude::*;
use vstd::string::*;

verus! {

/// The error of the operating system's random number generator.
#[verifier::external_type_specification]
#[verifier::external_body]
pub struct ExRandError(rand::Error);

/// The operating system gave no random bytes.
pub struct RandomError {
    pub cause: rand::Error,
}

/// The SHA-256 digest of a message.
pub uninterp spec fn sha256(message: Seq<u8>) -> [u8; 32];

/// The character of the URL-safe base64 alphabet (RFC 4648, section 5) for a 6-bit value.
pub open spec fn url_safe_char(value: int) -> char {
    if value < 26 {
        ('A' as int + value) as char
    } else if value < 52 {
        ('a' as int + (value - 26)) as char
    } else if value < 62 {
        ('0' as int + (value - 52)) as char
    } else if value == 62 {
        '-'
    } else {
        '_'
    }
}

/// The byte at `index`, or zero behind the end.
pub open spec fn byte_or_zero(bytes: Seq<u8>, index: int) -> int {
    if 0 <= index < bytes.len() {
        bytes[index] as int
    } else {
        0
    }
}

/// The six bits that start at bit `6 * index` of `bytes`, counted from the most significant
/// bit of the first byte, with zeros behind the end.
pub open spec fn sextet(bytes: Seq<u8>, index: int) -> int {
    let start = 6 * index / 8;
    let window = 256 * byte_or_zero(bytes, start) + byte_or_zero(bytes, start + 1);
    let shifted = if index % 4 == 0 {
        window / 1024
    } else if index % 4 == 1 {
        window / 16
    } else if index % 4 == 2 {
        window / 64
    } else {
        window / 256
    };
    shifted % 64
}

/// The URL-safe base64 text of `bytes`, without padding.
pub open spec fn base64_url(bytes: Seq<u8>) -> Seq<char> {
    Seq::new(((8 * bytes.len() + 5) / 6) as nat, |i: int| url_safe_char(sextet(bytes, i)))
}

/// Whether a character is one of `A`-`Z`, `a`-`z`, `0`-`9`, `-` and `_`.
pub open spec fn is_url_safe(c: char) -> bool {
    ||| 'A' <= c <= 'Z'
    ||| 'a' <= c <= 'z'
    ||| '0' <= c <= '9'
    ||| c == '-'
    ||| c == '_'
}

/// The code challenge that belongs to a code verifier.
pub open spec fn code_challenge(verifier: Seq<char>) -> Seq<char> {
    base64_url(sha256(vstd::utf8::encode_utf8(verifier))@)
}

/// `base64::Engine::encode` of the engine `URL_SAFE_NO_PAD`: the text is the base64 encoding
/// of the bytes in the URL-safe alphabet, and carries no padding.
#[verifier::external_body]
fn base64_encode(bytes: &[u8; 32]) -> (text: String)
    ensures
        text@ == base64_url(bytes@),
{
    URL_SAFE_NO_PAD.encode(bytes)
}

/// `sha2::Sha256`, created, fed the whole message and finalized: the digest depends on the
/// message alone.
#[verifier::external_body]
fn sha256_digest(message: &[u8]) -> (digest: [u8; 32])
    ensures
        digest@ == sha256(message@)@,
{
    let mut hasher = Sha256::new();
    hasher.update(message);
    hasher.finalize().into()
}

/// `rand::RngCore::try_fill_bytes` of `OsRng`, on a buffer of 32 bytes. Nothing is claimed of
/// the bytes, nor of when the operating system fails to give them.
#[verifier::external_body]
fn os_random_bytes() -> (bytes: Result<[u8; 32], rand::Error>) {
    let mut bytes = [0u8; 32];
    match OsRng.try_fill_bytes(&mut bytes) {
        Ok(()) => Ok(bytes),
        Err(error) => Err(error),
    }
}

/// Every 6-bit group is a number below 64.
proof fn lemma_sextet_range(bytes: Seq<u8>, index: int)
    requires
        0 <= index,
    ensures
        0 <= sextet(bytes, index) < 64,
{
}

/// The base64 text of any bytes can stand in a URL as it is.
pub proof fn base64_url_is_url_safe(bytes: Seq<u8>)
    ensures
        forall|i: int| 0 <= i < base64_url(bytes).len() ==> is_url_safe(#[trigger] base64_url(bytes)[i]),
{
    assert forall|i: int| 0 <= i < base64_url(bytes).len() implies is_url_safe(
        #[trigger] base64_url(bytes)[i],
    ) by {
        lemma_sextet_range(bytes, i);
    }
}

/// How the 6-bit groups cut through three neighbouring bytes.
proof fn lemma_groups_of_windows(a: int, b: int, c: int)
    requires
        0 <= a < 256,
        0 <= b < 256,
        0 <= c < 256,
    ensures
        (256 * a + b) / 1024 % 64 == a / 4,
        (256 * a + b) / 16 % 64 == 16 * (a % 4) + b / 16,
        (256 * b + c) / 64 % 64 == 4 * (b % 16) + c / 64,
        (256 * a + b) / 256 % 64 == a % 64,
{
    assert((256 * a + b) / 1024 == a / 4);
    assert((256 * a + b) / 16 == 16 * a + b / 16);
    assert((16 * a + b / 16) % 64 == 16 * (a % 4) + b / 16) by {
        assert(16 * a + b / 16 == 64 * (a / 4) + (16 * (a % 4) + b / 16));
    }
    assert((256 * b + c) / 64 == 4 * b + c / 64);
    assert((4 * b + c / 64) % 64 == 4 * (b % 16) + c / 64) by {
        assert(4 * b + c / 64 == 64 * (b / 16) + (4 * (b % 16) + c / 64));
    }
    assert((256 * a + b) / 256 == a);
}

/// The four 6-bit groups of the three bytes from `3 * block` on.
proof fn lemma_sextets_of_block(bytes: Seq<u8>, block: int)
    requires
        0 <= block,
    ensures
        sextet(bytes, 4 * block) == byte_or_zero(bytes, 3 * block) / 4,
        sextet(bytes, 4 * block + 1) == 16 * (byte_or_zero(bytes, 3 * block) % 4) + byte_or_zero(
            bytes,
            3 * block + 1,
        ) / 16,
        sextet(bytes, 4 * block + 2) == 4 * (byte_or_zero(bytes, 3 * block + 1) % 16)
            + byte_or_zero(bytes, 3 * block + 2) / 64,
        sextet(bytes, 4 * block + 3) == byte_or_zero(bytes, 3 * block + 2) % 64,
{
    let a = byte_or_zero(bytes, 3 * block);
    let b = byte_or_zero(bytes, 3 * block + 1);
    let c = byte_or_zero(bytes, 3 * block + 2);
    let d = byte_or_zero(bytes, 3 * block + 3);
    lemma_groups_of_windows(a, b, c);
    lemma_groups_of_windows(c, d, 0);
    assert(6 * (4 * block) / 8 == 3 * block && 4 * block % 4 == 0);
    assert(6 * (4 * block + 1) / 8 == 3 * block && (4 * block + 1) % 4 == 1);
    assert(6 * (4 * block + 2) / 8 == 3 * block + 1 && (4 * block + 2) % 4 == 2);
    assert(6 * (4 * block + 3) / 8 == 3 * block + 2 && (4 * block + 3) % 4 == 3);
}

/// No two byte strings have the same base64 text, so a code verifier keeps every bit of the
/// random bytes that it was made of.
pub proof fn base64_url_is_injective(left: Seq<u8>, right: Seq<u8>)
    requires
        base64_url(left) == base64_url(right),
    ensures
        left == right,
{
    let text = base64_url(left);
    assert(text.len() == base64_url(right).len());
    assert(left.len() == right.len());
    assert forall|i: int| 0 <= i < text.len() implies #[trigger] sextet(left, i) == sextet(
        right,
        i,
    ) by {
        lemma_sextet_range(left, i);
        lemma_sextet_range(right, i);
        assert(text[i] == base64_url(right)[i]);
        assert(url_safe_char(sextet(left, i)) == url_safe_char(sextet(right, i)));
    }
    assert forall|n: int| 0 <= n < left.len() implies left[n] == right[n] by {
        let block = n / 3;
        lemma_sextets_of_block(left, block);
        lemma_sextets_of_block(right, block);
        assert(sextet(left, 4 * block) == sextet(right, 4 * block));
        assert(sextet(left, 4 * block + 1) == sextet(right, 4 * block + 1));
        if n % 3 == 0 {
            assert(n == 3 * block);
        } else {
            assert(sextet(left, 4 * block + 2) == sextet(right, 4 * block + 2));
            if n % 3 == 1 {
                assert(n == 3 * block + 1);
            } else {
                assert(n == 3 * block + 2);
                assert(sextet(left, 4 * block + 3) == sextet(right, 4 * block + 3));
            }
        }
    }
    assert(left =~= right);
}

/// Every code challenge has 43 characters, and each of them can stand in a URL as it is.
pub proof fn code_challenge_is_url_safe(verifier: Seq<char>)
    ensures
        code_challenge(verifier).len() == 43,
        forall|i: int|
            0 <= i < code_challenge(verifier).len() ==> is_url_safe(
                #[trigger] code_challenge(verifier)[i],
            ),
{
    base64_url_is_url_safe(sha256(vstd::utf8::encode_utf8(verifier))@);
}

/// The code verifier that 32 bytes make.
pub fn code_verifier_from_bytes(bytes: &[u8; 32]) -> (verifier: String)
    ensures
        verifier@ == base64_url(bytes@),
        verifier@.len() == 43,
        forall|i: int| 0 <= i < verifier@.len() ==> is_url_safe(#[trigger] verifier@[i]),
{
    proof {
        base64_url_is_url_safe(bytes@);
    }
    base64_encode(bytes)
}

/// The code challenge that a digest of 32 bytes makes.
pub fn code_challenge_from_digest(digest: &[u8; 32]) -> (challenge: String)
    ensures
        challenge@ == base64_url(digest@),
        challenge@.len() == 43,
        forall|i: int| 0 <= i < challenge@.len() ==> is_url_safe(#[trigger] challenge@[i]),
{
    proof {
        base64_url_is_url_safe(digest@);
    }
    base64_encode(digest)
}

/// The code verifier that a draw of random bytes makes: that of the bytes where they came, and
/// the error of the operating system where they did not.
pub fn code_verifier_from_draw(draw: Result<[u8; 32], rand::Error>) -> (verifier: Result<
    String,
    RandomError,
>)
    ensures
        match draw {
            Ok(bytes) => {
                &&& verifier matches Ok(text)
                &&& text@ == base64_url(bytes@)
                &&& text@.len() == 43
                &&& forall|i: int| 0 <= i < text@.len() ==> is_url_safe(#[trigger] text@[i])
            },
            Err(cause) => verifier == Err::<String, RandomError>(RandomError { cause }),
        },
{
    match draw {
        Ok(bytes) => Ok(code_verifier_from_bytes(&bytes)),
        Err(cause) => Err(RandomError { cause }),
    }
}

/// A fresh code verifier: 32 bytes from the operating system, as text.
///
/// Which bytes come, and when the operating system gives none, is left open.
pub fn generate_code_verifier() -> (verifier: Result<String, RandomError>)
    ensures
        verifier matches Ok(text) ==> {
            &&& exists|bytes: Seq<u8>| bytes.len() == 32 && text@ == #[trigger] base64_url(bytes)
            &&& text@.len() == 43
            &&& forall|i: int| 0 <= i < text@.len() ==> is_url_safe(#[trigger] text@[i])
        },
{
    code_verifier_from_draw(os_random_bytes())
}

/// The code challenge for a code verifier: the base64 text of its SHA-256 digest.
pub fn generate_code_challenge(verifier: &str) -> (challenge: String)
    ensures
        challenge@ == code_challenge(verifier@),
        challenge@.len() == 43,
        forall|i: int| 0 <= i < challenge@.len() ==> is_url_safe(#[trigger] challenge@[i]),
{
    let digest = sha256_digest(verifier.as_bytes());
    code_challenge_from_digest(&digest)
}

/// The alphabet: the upper-case letters, the lower-case letters, the digits, `-` and `_`.
pub proof fn alphabet_is_in_order(value: int)
    requires
        0 <= value < 64,
    ensures
        value < 26 ==> url_safe_char(value) as int == 'A' as int + value,
        26 <= value < 52 ==> url_safe_char(value) as int == 'a' as int + value - 26,
        52 <= value < 62 ==> url_safe_char(value) as int == '0' as int + value - 52,
        value == 62 ==> url_safe_char(value) == '-',
        value == 63 ==> url_safe_char(value) == '_',
{
}

/// The URL-safe characters are those of the alphabet.
pub proof fn url_safe_characters_are_the_alphabet(c: char)
    ensures
        is_url_safe(c) <==> exists|value: int|
            0 <= value < 64 && c == #[trigger] url_safe_char(value),
{
    if is_url_safe(c) {
        let value: int = if 'A' <= c <= 'Z' {
            c as int - 'A' as int
        } else if 'a' <= c <= 'z' {
            c as int - 'a' as int + 26
        } else if '0' <= c <= '9' {
            c as int - '0' as int + 52
        } else if c == '-' {
            62
        } else {
            63
        };
        assert(c == url_safe_char(value));
    }
}

/// Three bytes are spelled by four characters, six bits each; two bytes at the end by three
/// characters, and one byte by two, with zeros for the bits that are missing.
pub proof fn base64_url_spells_the_bits(bytes: Seq<u8>, block: int)
    requires
        0 <= block,
        3 * block < bytes.len(),
    ensures
        ({
            let text = base64_url(bytes);
            let first = bytes[3 * block] as int;
            let second = if 3 * block + 1 < bytes.len() {
                bytes[3 * block + 1] as int
            } else {
                0
            };
            let third = if 3 * block + 2 < bytes.len() {
                bytes[3 * block + 2] as int
            } else {
                0
            };
            &&& text.len() == 4 * (bytes.len() / 3) + (if bytes.len() % 3 == 0 {
                0nat
            } else {
                bytes.len() % 3 + 1
            })
            &&& text[4 * block] == url_safe_char(first / 4)
            &&& text[4 * block + 1] == url_safe_char(16 * (first % 4) + second / 16)
            &&& 3 * block + 1 < bytes.len() ==> text[4 * block + 2] == url_safe_char(
                4 * (second % 16) + third / 64,
            )
            &&& 3 * block + 2 < bytes.len() ==> text[4 * block + 3] == url_safe_char(third % 64)
        }),
{
    lemma_sextets_of_block(bytes, block);
}

/// The challenge is the base64 text of the SHA-256 digest of the whole verifier, in UTF-8.
pub proof fn code_challenge_digests_the_whole_verifier(verifier: Seq<char>, bytes: Seq<u8>)
    requires
        vstd::utf8::valid_utf8(bytes),
        vstd::utf8::decode_utf8(bytes) == verifier,
    ensures
        code_challenge(verifier) == base64_url(sha256(bytes)@),
{
    vstd::utf8::decode_utf8_encode_utf8(bytes);
}

} // verus!
