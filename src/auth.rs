//! Credentials, session tokens and session expiry.
use vstd::prelude::*;
use vstd::string::*;
use argon2::password_hash::{
    Error as HashError, PasswordHash, PasswordHasher, PasswordVerifier, SaltString,
};
use sha2::Digest;
use crate::text::hex_digit;

verus! {

#[derive(Debug)]
pub enum AuthError {
    /// The secret does not match.
    Invalid,
    /// Hashing or randomness failed for another reason, described here.
    Other(String),
}

pub type AuthResult<T> = Result<T, AuthError>;

/// A secret that is stored only as a hash.
pub trait AuthSecurity {
    fn hash(&self) -> AuthResult<String>;

    fn verify(&self, hash: &str) -> AuthResult<()>;
}

// ---- hex

/// Two lower-case hex digits per byte, high nibble first.
pub open spec fn hex_text(b: Seq<u8>) -> Seq<char>
    decreases b.len(),
{
    if b.len() == 0 {
        Seq::empty()
    } else {
        hex_text(b.drop_last()).push(hex_digit(b.last() / 16)).push(hex_digit(b.last() % 16))
    }
}

/// Relies on `hex::encode`: lower-case, two digits per byte, in order.
#[verifier::external_body]
fn hex_encode(b: &[u8]) -> (r: String)
    ensures
        r@ == hex_text(b@),
{
    hex::encode(b)
}

// ---- randomness and hashing

/// SHA-256 digest of the UTF-8 bytes of a text.
pub uninterp spec fn sha256_of(text: Seq<char>) -> Seq<u8>;

/// Relies on `sha2::Sha256::digest`: the digest of the text's bytes.
#[verifier::external_body]
fn sha256(text: &str) -> (r: Vec<u8>)
    ensures
        r@ == sha256_of(text@),
{
    sha2::Sha256::digest(text.as_bytes()).to_vec()
}

/// Relies on `getrandom::getrandom`: fills the buffer from the system's
/// source of randomness, or reports why it could not.
#[verifier::external_body]
fn random_bytes(n: usize) -> (r: AuthResult<Vec<u8>>)
    ensures
        r matches Ok(b) ==> b@.len() == n,
{
    let mut buf = vec![0u8; n];
    match getrandom::getrandom(&mut buf) {
        Ok(()) => Ok(buf),
        Err(err) => Err(AuthError::Other(err.to_string())),
    }
}

/// Whether an Argon2 PHC hash string accepts a password.
pub uninterp spec fn argon2_accepts(password: Seq<char>, hash: Seq<char>) -> bool;

/// Relies on `argon2::password_hash::PasswordHash::new` and
/// `PasswordVerifier::verify_password` of `argon2::Argon2::default()`: the
/// verdict depends on the password and the hash string alone. A mismatch is
/// `Invalid`; a malformed hash is `Other`.
#[verifier::external_body]
fn argon2_verify(password: &str, hash: &str) -> (r: AuthResult<()>)
    ensures
        r is Ok <==> argon2_accepts(password@, hash@),
{
    let verdict = PasswordHash::new(hash)
        .and_then(|parsed| argon2::Argon2::default().verify_password(password.as_bytes(), &parsed));
    match verdict {
        Ok(()) => Ok(()),
        Err(HashError::Password) => Err(AuthError::Invalid),
        Err(err) => Err(AuthError::Other(err.to_string())),
    }
}

/// Relies on `argon2::password_hash::SaltString::encode_b64` and
/// `PasswordHasher::hash_password` of `argon2::Argon2::default()`: the PHC
/// string of the password hashed with the given salt.
#[verifier::external_body]
fn argon2_hash(password: &str, salt: &[u8]) -> (r: AuthResult<String>) {
    let salt = SaltString::encode_b64(salt).map_err(|err| AuthError::Other(err.to_string()))?;
    match argon2::Argon2::default().hash_password(password.as_bytes(), &salt) {
        Ok(hash) => Ok(hash.to_string()),
        Err(err) => Err(AuthError::Other(err.to_string())),
    }
}

// ---- passwords

/// Bytes of salt drawn for each password hash.
pub const SALT_LENGTH: usize = 16;

pub struct Password {
    value: String,
}

impl View for Password {
    type V = Seq<char>;

    closed spec fn view(&self) -> Seq<char> {
        self.value@
    }
}

impl Password {
    pub fn new(value: String) -> (r: Self)
        ensures
            r@ == value@,
    {
        Password { value }
    }

    pub fn is_empty(&self) -> (r: bool)
        ensures
            r == (self@.len() == 0),
    {
        self.value.as_str().unicode_len() == 0
    }
}

impl AuthSecurity for Password {
    /// An Argon2 hash with a fresh random salt.
    fn hash(&self) -> AuthResult<String> {
        let salt = random_bytes(SALT_LENGTH)?;
        argon2_hash(self.value.as_str(), salt.as_slice())
    }

    fn verify(&self, hash: &str) -> AuthResult<()> {
        argon2_verify(self.value.as_str(), hash)
    }
}

impl Password {
    /// `Ok` exactly when the stored hash accepts this password.
    pub fn check(&self, hash: &str) -> (r: AuthResult<()>)
        ensures
            r is Ok <==> argon2_accepts(self@, hash@),
    {
        argon2_verify(self.value.as_str(), hash)
    }
}

// ---- session tokens

/// Random bytes in a freshly generated session token.
pub const TOKEN_LENGTH: usize = 32;

/// A session token, as the client holds it.
#[derive(Debug)]
pub struct Token(String);

impl View for Token {
    type V = Seq<char>;

    closed spec fn view(&self) -> Seq<char> {
        self.0@
    }
}

/// What the catalog stores of a token: the hex text of its SHA-256 digest.
pub open spec fn token_hash_text(token: Seq<char>) -> Seq<char> {
    hex_text(sha256_of(token))
}

impl Token {
    pub fn new(value: String) -> (r: Self)
        ensures
            r@ == value@,
    {
        Token(value)
    }

    /// A fresh token: the hex text of random bytes.
    pub fn generate() -> (r: AuthResult<Self>)
        ensures
            r matches Ok(t) ==> exists|b: Seq<u8>| b.len() == TOKEN_LENGTH && t@ == hex_text(b),
    {
        let bytes = random_bytes(TOKEN_LENGTH)?;
        Ok(Token(hex_encode(bytes.as_slice())))
    }

    pub fn value(self) -> (r: String)
        ensures
            r@ == self@,
    {
        self.0
    }

    pub fn hashed(&self) -> (r: String)
        ensures
            r@ == token_hash_text(self@),
    {
        let digest = sha256(self.0.as_str());
        hex_encode(digest.as_slice())
    }

    /// Whether `hash` is what the catalog stores for this token.
    pub fn matches(&self, hash: &str) -> (r: bool)
        ensures
            r == (hash@ == token_hash_text(self@)),
    {
        let mine = self.hashed();
        let theirs = String::from_str(hash);
        mine == theirs
    }
}

impl AuthSecurity for Token {
    fn hash(&self) -> AuthResult<String> {
        Ok(self.hashed())
    }

    fn verify(&self, hash: &str) -> AuthResult<()> {
        if self.matches(hash) {
            Ok(())
        } else {
            Err(AuthError::Invalid)
        }
    }
}

// ---- sessions

/// Lifetime of a remembered session, in seconds.
pub const SESSION_SECONDS: i64 = 86400;

/// Expiry of a new session that starts at `now` (seconds since the epoch):
/// a remembered session lasts a day, any other ends with the browser session.
pub fn session_expiry(now: i64, remember: bool) -> (r: Option<i64>)
    requires
        remember ==> now + SESSION_SECONDS <= i64::MAX,
    ensures
        r == if remember { Some((now + SESSION_SECONDS) as i64) } else { None::<i64> },
{
    if remember {
        Some(now + SESSION_SECONDS)
    } else {
        None
    }
}

/// Decides a session lookup: `row` is the stored expiry and user id of the
/// token's session, if there is one. Unknown and expired sessions are invalid.
pub fn check_session(row: Option<(Option<i64>, u128)>, now: i64) -> (r: AuthResult<u128>)
    ensures
        match row {
            Some((expires, user)) => match expires {
                Some(t) => if t < now {
                    r matches Err(AuthError::Invalid)
                } else {
                    r matches Ok(u) && u == user
                },
                None => r matches Ok(u) && u == user,
            },
            None => r matches Err(AuthError::Invalid),
        },
{
    match row {
        Some((expires, user_id)) => {
            match expires {
                Some(t) => {
                    if t < now {
                        return Err(AuthError::Invalid);
                    }
                },
                None => {},
            }
            Ok(user_id)
        },
        None => Err(AuthError::Invalid),
    }
}

/// The name and password a user registers or logs in with.
pub struct Credentials {
    username: String,
    password: Password,
}

impl Credentials {
    pub fn new(username: String, password: Password) -> (r: Self)
        ensures
            r.username_view() == username@,
            r.password() == password,
    {
        Credentials { username, password }
    }

    pub closed spec fn username_view(&self) -> Seq<char> {
        self.username@
    }

    pub closed spec fn password(&self) -> Password {
        self.password
    }

    pub fn username_ref(&self) -> (r: &str)
        ensures
            r@ == self.username_view(),
    {
        self.username.as_str()
    }

    pub fn password_ref(&self) -> (r: &Password)
        ensures
            *r == self.password(),
    {
        &self.password
    }
}

/// Registration or login request: credentials, and whether to remember the session.
pub struct AuthData {
    pub credentials: Credentials,
    pub remember: bool,
}

} // verus!
