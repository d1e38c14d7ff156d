//! Passwords and their one-way transform.
//!
//! A `Password` is a validated plaintext secret; a `HashedPassword` is the
//! stored result of the one-way transform. The transform itself is bcrypt:
//! hashing salts randomly, so nothing relates two hashes of one password,
//! but verification is a pure function of the plaintext and the hash, named
//! here by `bcrypt_verifies`.

use vstd::prelude::*;
use vstd::string::StrSliceExecFns;
use vstd::string::StringExecFnsIsAscii;

verus! {

/// A validated plaintext password: eight to forty characters, all ASCII.
#[derive(Debug)]
pub struct Password {
    text: String,
}

/// Why a plaintext password was rejected, with the offending length.
#[derive(Clone, Copy, PartialEq, Eq, Structural, Debug)]
pub enum PasswordError {
    TooShort(usize),
    TooLong(usize),
    InvalidCharacters,
}

/// The stored result of the one-way transform. Opaque: it is only ever
/// compared to a plaintext through `verify_password`.
#[derive(Debug)]
pub struct HashedPassword {
    text: String,
}

/// The outcome of a failed call into the one-way transform itself (as
/// opposed to a mismatch, which is an `Ok(false)` verification).
#[derive(Clone, Copy, PartialEq, Eq, Structural, Debug)]
pub struct HashingFailed;

impl View for Password {
    type V = Seq<char>;

    closed spec fn view(&self) -> Seq<char> {
        self.text@
    }
}

impl Password {
    /// The password invariant: eight to forty characters, all ASCII.
    pub open spec fn wf(&self) -> bool {
        8 <= self@.len() <= 40 && vstd::utf8::is_ascii_chars(self@)
    }

    /// Validates an incoming string as a plaintext password. Too-short
    /// is reported before too-long, which is reported before a character
    /// complaint.
    pub fn from_text(text: String) -> (r: Result<Password, PasswordError>)
        ensures
            match r {
                Ok(p) => p@ == text@ && p.wf(),
                Err(PasswordError::TooShort(n)) => n == text@.len() && text@.len() < 8,
                Err(PasswordError::TooLong(n)) => n == text@.len() && text@.len() > 40,
                Err(PasswordError::InvalidCharacters) => 8 <= text@.len() <= 40
                    && !vstd::utf8::is_ascii_chars(text@),
            },
    {
        let n = text.as_str().unicode_len();
        if n < 8 {
            Err(PasswordError::TooShort(n))
        } else if n > 40 {
            Err(PasswordError::TooLong(n))
        } else if !text.is_ascii() {
            Err(PasswordError::InvalidCharacters)
        } else {
            Ok(Password { text })
        }
    }
}

impl Clone for Password {
    fn clone(&self) -> (r: Self)
        ensures
            r@ == self@,
    {
        Password { text: self.text.clone() }
    }
}

impl View for HashedPassword {
    type V = Seq<char>;

    closed spec fn view(&self) -> Seq<char> {
        self.text@
    }
}

impl HashedPassword {
    /// Wraps text read back from storage as a stored hash, unchecked, as
    /// the storage layer is trusted to return what was stored.
    pub fn from_text(text: String) -> (r: HashedPassword)
        ensures
            r@ == text@,
    {
        HashedPassword { text }
    }

    /// The stored hash as text, for persisting.
    pub fn as_str(&self) -> (r: &str)
        ensures
            r@ == self@,
    {
        self.text.as_str()
    }
}

impl Clone for HashedPassword {
    fn clone(&self) -> (r: Self)
        ensures
            r@ == self@,
    {
        HashedPassword { text: self.text.clone() }
    }
}

/// Whether bcrypt accepts `password` against the stored `hash`: bcrypt's
/// verification re-derives the hash from the plaintext and the salt and
/// cost embedded in `hash`, so the outcome is a function of the two
/// arguments alone.
pub uninterp spec fn bcrypt_verifies(password: Seq<char>, hash: Seq<char>) -> bool;

/// Relies on `bcrypt::hash` with the crate's default cost: the salt is
/// drawn from OS randomness, the output is a sixty-character hash string,
/// and `bcrypt::verify` accepts the hashed password against it (it
/// re-derives the same hash from the embedded salt and cost).
#[verifier::external_body]
fn bcrypt_hash(password: &Password) -> (r: Result<String, HashingFailed>)
    ensures
        r matches Ok(h) ==> h@.len() == 60 && bcrypt_verifies(password@, h@),
{
    match bcrypt::hash(&password.text, bcrypt::DEFAULT_COST) {
        Ok(h) => Ok(h),
        Err(_) => Err(HashingFailed),
    }
}

/// Relies on `bcrypt::verify`: deterministic in the plaintext and the
/// hash string, and it errs only on a hash whose form is malformed —
/// against which it accepts nothing. So a pair the transform accepts is
/// never an error: success is owed wherever `bcrypt_verifies` holds.
#[verifier::external_body]
fn bcrypt_check(password: &Password, hash: &HashedPassword) -> (r: Result<bool, HashingFailed>)
    ensures
        r matches Ok(b) ==> b == bcrypt_verifies(password@, hash@),
        bcrypt_verifies(password@, hash@) ==> r is Ok,
{
    match bcrypt::verify(&password.text, hash.text.as_str()) {
        Ok(b) => Ok(b),
        Err(_) => Err(HashingFailed),
    }
}

/// Applies the one-way transform to a plaintext. On success the returned
/// hash verifies against exactly this plaintext.
pub fn hash_password(password: &Password) -> (r: Result<HashedPassword, HashingFailed>)
    ensures
        r matches Ok(h) ==> bcrypt_verifies(password@, h@),
{
    match bcrypt_hash(password) {
        Ok(text) => Ok(HashedPassword { text }),
        Err(e) => Err(e),
    }
}

/// Checks a plaintext against a stored hash. `Ok(true)` exactly when the
/// one-way transform accepts the pair; an error can only come of a pair
/// the transform does not accept (a malformed stored hash).
pub fn verify_password(password: &Password, hash: &HashedPassword) -> (r: Result<
    bool,
    HashingFailed,
>)
    ensures
        r matches Ok(b) ==> b == bcrypt_verifies(password@, hash@),
        bcrypt_verifies(password@, hash@) ==> r == Ok::<bool, HashingFailed>(true),
{
    bcrypt_check(password, hash)
}

} // verus!
