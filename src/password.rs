use vstd::prelude::*;

verus! {

#[verifier::external_type_specification]
#[verifier::external_body]
pub struct ExPasswordHashError(argon2::password_hash::Error);

/// Whether `PasswordHash::new` accepts `h` as an encoded (PHC) password hash.
pub uninterp spec fn phc_parses(h: Seq<char>) -> bool;

/// Whether Argon2 verification of `p` against the parsed hash `h` succeeds,
/// recomputing with the parameters and salt that `h` embeds.
pub uninterp spec fn argon2_accepts(h: Seq<char>, p: Seq<char>) -> bool;

/// What verifying `p` against the stored hash `h` yields: `None` for a
/// malformed hash, else whether the password matches.
pub open spec fn password_verdict(h: Seq<char>, p: Seq<char>) -> Option<bool> {
    if phc_parses(h) {
        Some(argon2_accepts(h, p))
    } else {
        None
    }
}

/// The longest password, in characters, whose UTF-8 encoding is sure to fit
/// Argon2's input limit of `u32::MAX` bytes.
pub const MAX_PASSWORD_CHARS: u64 = 0x3fff_ffff;

/// Relies on `argon2::Argon2::default().hash_password` with a salt that
/// `SaltString::generate` draws from the OS generator: it fails only for a
/// password longer than `u32::MAX` bytes, and the encoded result parses again
/// and verifies against the same password.
#[verifier::external_body]
fn argon2_hash(password: &str) -> (r: Result<String, argon2::password_hash::Error>)
    ensures
        password@.len() <= MAX_PASSWORD_CHARS ==> r is Ok,
        r is Ok ==> phc_parses(r->Ok_0@) && argon2_accepts(r->Ok_0@, password@),
{
    let salt = argon2::password_hash::SaltString::generate(
        &mut argon2::password_hash::rand_core::OsRng,
    );
    let hasher = argon2::Argon2::default();
    argon2::password_hash::PasswordHasher::hash_password(&hasher, password.as_bytes(), &salt).map(
        |h| h.to_string(),
    )
}

/// Relies on `argon2::PasswordHash::new`, which fails exactly on a malformed
/// hash, and on `Argon2::default().verify_password`, whose success is the match.
#[verifier::external_body]
fn argon2_verify(hash: &str, password: &str) -> (r: Result<bool, argon2::password_hash::Error>)
    ensures
        r is Err <==> !phc_parses(hash@),
        r is Ok ==> r->Ok_0 == argon2_accepts(hash@, password@),
{
    let parsed = argon2::PasswordHash::new(hash)?;
    let hasher = argon2::Argon2::default();
    Ok(
        argon2::password_hash::PasswordVerifier::verify_password(
            &hasher,
            password.as_bytes(),
            &parsed,
        ).is_ok(),
    )
}

/// One-way salted hashing of passwords, and verification against a stored hash.
pub trait PasswordEncryptorPort {
    /// Hashes `password` with a fresh salt into a self-describing string;
    /// succeeds for every password within the length limit.
    fn hash_password(&self, password: &str) -> (r: Result<String, argon2::password_hash::Error>)
        ensures
            password@.len() <= MAX_PASSWORD_CHARS ==> r is Ok,
            r is Ok ==> password_verdict(r->Ok_0@, password@) == Some(true),
    ;

    /// Checks `password` against `hash`: an error for a malformed hash, else
    /// whether they match.
    fn verify_password(&self, hash: &str, password: &str) -> (r: Result<
        bool,
        argon2::password_hash::Error,
    >)
        ensures
            r is Err <==> password_verdict(hash@, password@) is None,
            r is Ok ==> password_verdict(hash@, password@) == Some(r->Ok_0),
    ;
}

/// Argon2id with the crate's default parameters (19 MiB memory, two passes,
/// one lane) and a 16-byte random salt per hash.
#[derive(Clone)]
pub struct Argon2PasswordEncryptor;

impl Argon2PasswordEncryptor {
    pub fn new() -> (r: Self)
        ensures
            r == Argon2PasswordEncryptor,
    {
        Argon2PasswordEncryptor
    }
}

impl Default for Argon2PasswordEncryptor {
    fn default() -> (r: Self)
        ensures
            r == Argon2PasswordEncryptor,
    {
        Self::new()
    }
}

impl PasswordEncryptorPort for Argon2PasswordEncryptor {
    fn hash_password(&self, password: &str) -> (r: Result<String, argon2::password_hash::Error>) {
        argon2_hash(password)
    }

    fn verify_password(&self, hash: &str, password: &str) -> (r: Result<
        bool,
        argon2::password_hash::Error,
    >) {
        argon2_verify(hash, password)
    }
}

} // verus!
