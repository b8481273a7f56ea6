//! Password strength rules and the token helpers built on hashing and
//! randomness.

use vstd::prelude::*;
use vstd::string::*;

use crate::auth::AuthError;

verus! {

/// Whether a character is alphabetic, as `char::is_alphabetic` decides
/// it: a function of the character alone.
pub uninterp spec fn char_alphabetic(c: char) -> bool;

/// Whether a character is numeric, as `char::is_numeric` decides it: a
/// function of the character alone.
pub uninterp spec fn char_numeric(c: char) -> bool;

/// Relies on char::is_alphabetic: the Unicode Alphabetic property of
/// the character alone.
#[verifier::external_body]
fn is_alphabetic_char(c: char) -> (r: bool)
    ensures
        r == char_alphabetic(c),
{
    c.is_alphabetic()
}

/// Relies on char::is_numeric: the Unicode numeric property of the
/// character alone.
#[verifier::external_body]
fn is_numeric_char(c: char) -> (r: bool)
    ensures
        r == char_numeric(c),
{
    c.is_numeric()
}

/// Validate password strength: at least eight bytes, at most 128, and
/// at least one letter and one number.
pub fn validate_password_strength(password: &str) -> (r: Result<(), AuthError>)
    ensures
        password.spec_bytes().len() < 8 ==> (r matches Err(AuthError::WeakPassword(m)) && m@
            == "Password must be at least 8 characters long"@),
        password.spec_bytes().len() > 128 ==> (r matches Err(AuthError::WeakPassword(m)) && m@
            == "Password must be at most 128 characters long"@),
        8 <= password.spec_bytes().len() <= 128 ==> (r is Ok == ((exists|i: int|
            0 <= i < password@.len() && char_alphabetic(#[trigger] password@[i])) && (exists|i: int|
            0 <= i < password@.len() && char_numeric(#[trigger] password@[i])))),
        8 <= password.spec_bytes().len() <= 128 && r is Err ==> (r matches Err(
            AuthError::WeakPassword(m),
        ) && m@ == "Password must contain at least one letter and one number"@),
{
    let blen = password.as_bytes().len();
    if blen < 8 {
        return Err(
            AuthError::WeakPassword("Password must be at least 8 characters long".to_owned()),
        );
    }
    if blen > 128 {
        return Err(
            AuthError::WeakPassword("Password must be at most 128 characters long".to_owned()),
        );
    }
    let len = password.unicode_len();
    let mut has_letter = false;
    let mut has_number = false;
    let mut i: usize = 0;
    while i < len
        invariant
            len == password@.len(),
            i <= len,
            has_letter == (exists|j: int|
                0 <= j < i && char_alphabetic(#[trigger] password@[j])),
            has_number == (exists|j: int| 0 <= j < i && char_numeric(#[trigger] password@[j])),
        decreases len - i,
    {
        let c = password.get_char(i);
        if is_alphabetic_char(c) {
            has_letter = true;
        }
        if is_numeric_char(c) {
            has_number = true;
        }
        i = i + 1;
    }
    if !has_letter || !has_number {
        return Err(
            AuthError::WeakPassword(
                "Password must contain at least one letter and one number".to_owned(),
            ),
        );
    }
    Ok(())
}

/// The lowercase hexadecimal digit of a value below sixteen.
pub open spec fn hex_digit(n: u8) -> char {
    if n == 0 {
        '0'
    } else if n == 1 {
        '1'
    } else if n == 2 {
        '2'
    } else if n == 3 {
        '3'
    } else if n == 4 {
        '4'
    } else if n == 5 {
        '5'
    } else if n == 6 {
        '6'
    } else if n == 7 {
        '7'
    } else if n == 8 {
        '8'
    } else if n == 9 {
        '9'
    } else if n == 10 {
        'a'
    } else if n == 11 {
        'b'
    } else if n == 12 {
        'c'
    } else if n == 13 {
        'd'
    } else if n == 14 {
        'e'
    } else {
        'f'
    }
}

/// The lowercase hexadecimal rendering of a byte string: two digits per
/// byte, high nibble first.
pub open spec fn hex_of(bytes: Seq<u8>) -> Seq<char>
    decreases bytes.len(),
{
    if bytes.len() == 0 {
        Seq::empty()
    } else {
        seq![hex_digit(bytes[0] / 16), hex_digit(bytes[0] % 16)] + hex_of(bytes.drop_first())
    }
}

/// The hex rendering has two characters per byte.
pub proof fn lemma_hex_of_len(bytes: Seq<u8>)
    ensures
        hex_of(bytes).len() == 2 * bytes.len(),
    decreases bytes.len(),
{
    if bytes.len() > 0 {
        lemma_hex_of_len(bytes.drop_first());
    }
}

/// Relies on hex::encode: the lowercase hexadecimal rendering of the
/// bytes, two digits per byte, high nibble first.
#[verifier::external_body]
pub(crate) fn hex_encode(bytes: &Vec<u8>) -> (r: String)
    ensures
        r@ == hex_of(bytes@),
{
    hex::encode(bytes.as_slice())
}

/// Relies on rand::fill: fills the buffer from the thread-local
/// generator. Nothing holds of the bytes but their number.
#[verifier::external_body]
pub(crate) fn random_bytes(n: usize) -> (r: Vec<u8>)
    ensures
        r@.len() == n,
{
    let mut v = vec![0u8; n];
    rand::fill(v.as_mut_slice());
    v
}

/// The SHA-256 digest of a byte string, as sha2 computes it: a function
/// of the input alone.
pub uninterp spec fn sha256_of(bytes: Seq<u8>) -> Seq<u8>;

/// Relies on sha2::Sha256 through the Digest interface: the digest is a
/// function of the input bytes alone, 32 bytes long.
#[verifier::external_body]
fn sha256_bytes(data: &str) -> (r: Vec<u8>)
    ensures
        r@ == sha256_of(data.spec_bytes()),
        r@.len() == 32,
{
    <sha2::Sha256 as sha2::Digest>::digest(data.as_bytes()).to_vec()
}

/// Generate a secure random token for email verification or password
/// reset: 32 random bytes as 64 hex characters.
pub fn generate_secure_token() -> (r: String)
    ensures
        r@.len() == 64,
{
    let bytes = random_bytes(32);
    let r = hex_encode(&bytes);
    proof {
        lemma_hex_of_len(bytes@);
    }
    r
}

/// Hash a token for storage — raw tokens are never stored: the
/// lowercase hex of the token's SHA-256 digest.
pub fn hash_token(token: &str) -> (r: String)
    ensures
        r@ == hex_of(sha256_of(token.spec_bytes())),
        r@.len() == 64,
{
    let digest = sha256_bytes(token);
    let r = hex_encode(&digest);
    proof {
        lemma_hex_of_len(digest@);
    }
    r
}

} // verus!
