use vstd::prelude::*;

use base64::Engine;
use rand::RngCore;

use crate::errors::{AppError, AppResult, ErrorKind};

verus! {

/// The standard base64 encoding (with padding) of `bytes`, as the `base64`
/// crate writes it.
pub uninterp spec fn base64_standard_encoded(bytes: Seq<u8>) -> Seq<char>;

/// The length of a padded base64 encoding of `n` bytes: four characters for
/// every started group of three bytes.
pub open spec fn padded_base64_len(n: nat) -> nat {
    4 * ((n + 2) / 3)
}

/// Whether `s` ends with `suffix`.
pub open spec fn has_suffix(s: Seq<char>, suffix: Seq<char>) -> bool {
    suffix.len() <= s.len() && s.subrange(s.len() - suffix.len(), s.len() as int) == suffix
}

/// Encodes `bytes` with the standard base64 engine of the `base64` crate.
/// Trusted: the text is what `base64_standard_encoded` names, and, the engine
/// padding its output, it has four characters for every started group of three
/// bytes, the last group of a single byte being padded with `==`.
#[verifier::external_body]
fn encode_base64(bytes: &[u8]) -> (s: String)
    ensures
        s@ == base64_standard_encoded(bytes@),
        s@.len() == padded_base64_len(bytes@.len()),
        bytes@.len() % 3 == 1 ==> has_suffix(s@, "=="@),
{
    base64::engine::general_purpose::STANDARD.encode(bytes)
}

/// The URL-safe base64 encoding without padding of `bytes`, as the `base64`
/// crate writes it.
pub uninterp spec fn base64_url_no_pad_encoded(bytes: Seq<u8>) -> Seq<char>;

/// Encodes `bytes` with the URL-safe base64 engine without padding of the
/// `base64` crate. Trusted: the text is what `base64_url_no_pad_encoded` names.
#[verifier::external_body]
pub(crate) fn encode_base64_url_no_pad(bytes: &[u8]) -> (s: String)
    ensures
        s@ == base64_url_no_pad_encoded(bytes@),
{
    base64::engine::general_purpose::URL_SAFE_NO_PAD.encode(bytes)
}

#[verifier::external_type_specification]
#[verifier::external_body]
pub struct ExRandError(rand::Error);

/// Fills `buffer` with random bytes from the operating system
/// (`rand::rngs::OsRng::try_fill_bytes`), or fails where the operating system
/// cannot supply them. Trusted: the length is kept; nothing is stated of the
/// bytes.
#[verifier::external_body]
fn fill_random(buffer: &mut Vec<u8>) -> (res: Result<(), rand::Error>)
    ensures
        final(buffer)@.len() == old(buffer)@.len(),
{
    rand::rngs::OsRng.try_fill_bytes(buffer.as_mut_slice())
}

/// The display text of a `rand::Error`. Trusted; nothing is stated of the text.
#[verifier::external_body]
fn rand_error_message(e: &rand::Error) -> String {
    format!("{}", e)
}

/// `n` random bytes from the operating system; a system error where the
/// operating system cannot supply them.
pub fn random_bytes(n: usize) -> (res: AppResult<Vec<u8>>)
    ensures
        match res {
            Ok(bytes) => bytes@.len() == n,
            Err(e) => e@.0 == ErrorKind::System,
        },
{
    let mut buffer: Vec<u8> = Vec::new();
    let mut i: usize = 0;
    while i < n
        invariant
            i <= n,
            buffer@.len() == i,
        decreases n - i,
    {
        buffer.push(0u8);
        i = i + 1;
    }
    match fill_random(&mut buffer) {
        Ok(()) => Ok(buffer),
        Err(e) => Err(AppError::SystemError(rand_error_message(&e))),
    }
}

/// The text that presents a secret: `Secret: ` and the secret in base64.
pub open spec fn secret_text_for(secret: Seq<u8>) -> Seq<char> {
    "Secret: "@ + base64_standard_encoded(secret)
}

/// Presents `secret` as text.
pub fn secret_text(secret: &[u8]) -> (s: String)
    ensures
        s@ == secret_text_for(secret@),
        s@.len() == 8 + padded_base64_len(secret@.len()),
        secret@.len() % 3 == 1 ==> has_suffix(s@, "=="@),
{
    proof {
        reveal_strlit("Secret: ");
    }
    let mut s = String::from_str("Secret: ");
    let encoded = encode_base64(secret);
    let ghost head = s@;
    s.append(encoded.as_str());
    proof {
        reveal_strlit("==");
        if secret@.len() % 3 == 1 {
            let n = s@.len();
            let m = encoded@.len();
            assert(s@.subrange(n - 2, n as int) =~= encoded@.subrange(m - 2, m as int));
        }
    }
    s
}

/// A new random secret of 64 bytes, presented as text; a system error where
/// the operating system cannot supply random bytes.
pub fn generate_secret() -> (res: AppResult<String>)
    ensures
        match res {
            Ok(s) => {
                &&& exists|secret: Seq<u8>| secret.len() == 64 && s@ == secret_text_for(secret)
                &&& s@.len() == 96
                &&& has_suffix(s@, "=="@)
            },
            Err(e) => e@.0 == ErrorKind::System,
        },
{
    let secret = match random_bytes(64) {
        Ok(b) => b,
        Err(e) => return Err(e),
    };
    let s = secret_text(secret.as_slice());
    assert(padded_base64_len(64) == 88);
    Ok(s)
}

} // verus!
