//! Password hashing and random salts: a password is stored as the
//! lower-case hex text of the MD5 digest of its UTF-8 bytes followed by the
//! bytes of a random salt.
use vstd::prelude::*;
use vstd::utf8::encode_utf8;
use md5::{Digest, Md5};
use rand::distributions::Alphanumeric;
use rand::rngs::ThreadRng;
use rand::Rng;
use crate::text::push_char;

verus! {

/// The random number generator of the current thread.
#[verifier::external_type_specification]
#[verifier::external_body]
pub struct ExThreadRng(ThreadRng);

/// The MD5 digest of a sequence of bytes.
pub uninterp spec fn md5_digest(data: Seq<u8>) -> Seq<u8>;

/// The MD5 digest of `first` followed by `second`.
///
/// Feeds both slices to `md5::Md5` through `Digest::update`, in order, and
/// takes `Digest::finalize`. The contract claims that the 16 bytes that
/// come out are the digest of the two slices one after the other, a
/// function of those bytes alone; what MD5 computes is left unsaid.
#[verifier::external_body]
fn md5_of_parts(first: &[u8], second: &[u8]) -> (r: Vec<u8>)
    ensures
        r@ == md5_digest(first@ + second@),
        r@.len() == 16,
{
    let mut hasher = Md5::new();
    hasher.update(first);
    hasher.update(second);
    hasher.finalize().to_vec()
}

/// The lower-case hex digit for a value below sixteen.
pub open spec fn hex_digit(d: nat) -> char {
    if d < 10 {
        (48 + d) as char
    } else {
        (87 + d) as char
    }
}

/// The lower-case hex text of a sequence of bytes: two digits per byte,
/// high half first.
pub open spec fn hex_lower(bytes: Seq<u8>) -> Seq<char>
    decreases bytes.len(),
{
    if bytes.len() == 0 {
        Seq::empty()
    } else {
        hex_lower(bytes.drop_last()) + seq![
            hex_digit((bytes.last() / 16) as nat),
            hex_digit((bytes.last() % 16) as nat),
        ]
    }
}

/// The lower-case hex text of a byte slice.
///
/// Calls `hex::encode`, which its documentation says encodes each byte as
/// two lower-case hex digits, in order; the contract states exactly that.
#[verifier::external_body]
fn hex_encode(bytes: &[u8]) -> (r: String)
    ensures
        r@ == hex_lower(bytes@),
{
    hex::encode(bytes)
}

/// The random number generator of the current thread.
///
/// Calls `rand::thread_rng`; nothing is said of the generator.
#[verifier::external_body]
fn current_rng() -> ThreadRng {
    rand::thread_rng()
}

/// Whether a byte is an ASCII letter or digit.
pub open spec fn is_alphanumeric_byte(b: u8) -> bool {
    (48 <= b <= 57) || (65 <= b <= 90) || (97 <= b <= 122)
}

/// Whether a character is an ASCII letter or digit.
pub open spec fn is_alphanumeric_char(c: char) -> bool {
    ('0' <= c <= '9') || ('A' <= c <= 'Z') || ('a' <= c <= 'z')
}

/// A random ASCII letter or digit.
///
/// Samples `rand::distributions::Alphanumeric`, whose documentation says it
/// gives a byte out of `A-Z`, `a-z` and `0-9`; the contract says only that,
/// since the byte is drawn at random.
#[verifier::external_body]
fn sample_alphanumeric(rng: &mut ThreadRng) -> (b: u8)
    ensures
        is_alphanumeric_byte(b),
{
    rng.sample(Alphanumeric)
}

/// A random string of `n` ASCII letters and digits.
pub fn rand_str(n: usize) -> (r: String)
    ensures
        r@.len() == n,
        forall|i: int| 0 <= i < n ==> is_alphanumeric_char(#[trigger] r@[i]),
{
    let mut rng = current_rng();
    let mut s = String::new();
    let mut i: usize = 0;
    while i < n
        invariant
            i <= n,
            s@.len() == i,
            forall|j: int| 0 <= j < i ==> is_alphanumeric_char(#[trigger] s@[j]),
        decreases n - i,
    {
        let b = sample_alphanumeric(&mut rng);
        push_char(&mut s, b as char);
        i = i + 1;
    }
    s
}

/// The stored form of a password under a salt: the lower-case hex text of
/// the MD5 digest of the password's UTF-8 bytes followed by the salt's.
pub open spec fn encrypted(password: Seq<char>, salt: Seq<char>) -> Seq<char> {
    hex_lower(md5_digest(encode_utf8(password) + encode_utf8(salt)))
}

/// Whether a password typed in matches a stored one under its salt.
pub open spec fn password_matches(input: Seq<char>, salt: Seq<char>, stored: Seq<char>) -> bool {
    encrypted(input, salt) == stored
}

/// Whether a salt is as the service makes them: 32 ASCII letters or
/// digits.
pub open spec fn is_salt(salt: Seq<char>) -> bool {
    &&& salt.len() == 32
    &&& forall|i: int| 0 <= i < salt.len() ==> is_alphanumeric_char(#[trigger] salt[i])
}

/// The stored form of `password` under `salt`.
pub fn encrypt_md5(password: &str, salt: &str) -> (r: String)
    ensures
        r@ == encrypted(password@, salt@),
        r@.len() == 32,
{
    let digest = md5_of_parts(password.as_bytes(), salt.as_bytes());
    proof {
        lemma_hex_lower_len(digest@);
    }
    hex_encode(digest.as_slice())
}

/// The secret that ties a session token to the stored password: the
/// stored form of the password under the service's token salt.
pub fn generate_secret(password: &str, token_salt: &str) -> (r: String)
    ensures
        r@ == encrypted(password@, token_salt@),
{
    encrypt_md5(password, token_salt)
}

/// A fresh random salt.
pub fn generate_salt() -> (r: String)
    ensures
        is_salt(r@),
{
    rand_str(32)
}

/// The stored form of a new password under a fresh random salt, and the
/// salt.
pub fn generate_encrypted_password(user_input_password: &str) -> (r: (String, String))
    ensures
        r.0@ == encrypted(user_input_password@, r.1@),
        r.0@.len() == 32,
        is_salt(r.1@),
{
    let salt = generate_salt();
    let encrypted_password = encrypt_md5(user_input_password, salt.as_str());
    (encrypted_password, salt)
}

/// Whether the password typed in matches the stored form under the salt.
pub fn verify_encrypted_password(user_input_password: &str, salt: &str, encrypted_password: &str) -> (r: bool)
    ensures
        r == password_matches(user_input_password@, salt@, encrypted_password@),
{
    let computed = encrypt_md5(user_input_password, salt);
    let stored = crate::text::owned(encrypted_password);
    computed == stored
}

proof fn lemma_hex_lower_len(bytes: Seq<u8>)
    ensures
        hex_lower(bytes).len() == 2 * bytes.len(),
    decreases bytes.len(),
{
    if bytes.len() > 0 {
        lemma_hex_lower_len(bytes.drop_last());
    }
}

/// A password always matches its own stored form under the same salt.
pub proof fn lemma_password_roundtrip(password: Seq<char>, salt: Seq<char>)
    ensures
        password_matches(password, salt, encrypted(password, salt)),
{
}

} // verus!
