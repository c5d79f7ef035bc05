//! Access and secrecy: the claims of an access token and how long it is
//! valid, password hashes, message tags, the message cipher, and the count
//! of failed attempts after which an address is shut out.
//!
//! The cryptography is that of the `argon2`, `hmac`, `sha1` and `aes-gcm`
//! crates; what they compute is named here, not defined.

use aes_gcm::aead::{Aead, KeyInit};
use aes_gcm::{Aes256Gcm, Nonce};
use argon2::password_hash::rand_core::OsRng;
use argon2::password_hash::{PasswordHash, PasswordHasher, PasswordVerifier, SaltString};
use argon2::Argon2;
use hmac::{Hmac, Mac};
use sha1::Sha1;
use vstd::hash_map::StringHashMap;
use vstd::prelude::*;
use vstd::utf8::encode_utf8;

verus! {

/// How long a token is valid, in seconds.
pub const TOKEN_LIFETIME_SECS: i64 = 3600;

/// How many failed attempts in a row an address may make.
pub const MAX_FAILED_ATTEMPTS: u32 = 5;

/// How long an address is shut out, in seconds.
pub const LOCKOUT_SECS: i64 = 900;

/// The claims of an access token. Times are seconds since the Unix epoch.
#[derive(Debug, PartialEq, Eq)]
pub struct JwtClaims {
    /// The user the token was issued to.
    pub sub: String,
    /// When the token expires.
    pub exp: i64,
    /// When the token was issued.
    pub iat: i64,
}

/// The claims of a token as a mathematical value.
pub struct ClaimsView {
    pub sub: Seq<char>,
    pub exp: i64,
    pub iat: i64,
}

impl View for JwtClaims {
    type V = ClaimsView;

    open spec fn view(&self) -> ClaimsView {
        ClaimsView { sub: self.sub@, exp: self.exp, iat: self.iat }
    }
}

impl Clone for JwtClaims {
    fn clone(&self) -> (copy: JwtClaims)
        ensures
            copy@ == self@,
    {
        JwtClaims { sub: self.sub.clone(), exp: self.exp, iat: self.iat }
    }
}

impl JwtClaims {
    /// The claims of a token issued to `user_id` at `now`: it expires one
    /// hour later.
    pub fn issue(user_id: &str, now: i64) -> (claims: JwtClaims)
        requires
            now + 3600 <= i64::MAX,
        ensures
            claims@ == (ClaimsView { sub: user_id@, exp: (now + 3600) as i64, iat: now }),
    {
        JwtClaims { sub: user_id.to_owned(), exp: now + TOKEN_LIFETIME_SECS, iat: now }
    }
}

/// The number of bytes in a cipher key.
pub const CIPHER_KEY_BYTES: usize = 32;

/// The HMAC-SHA1 tag of `message` under `key`. The function is not defined
/// here: it stands for what the `hmac` and `sha1` crates compute.
pub uninterp spec fn hmac_sha1(key: Seq<u8>, message: Seq<u8>) -> Seq<u8>;

/// What AES-256-GCM makes of `message` under `key` and `nonce`: the
/// ciphertext with its tag, or nothing where the message is too long for
/// the cipher. The function is not defined here: it stands for what the
/// `aes-gcm` crate computes.
pub uninterp spec fn aes_gcm_sealed(key: Seq<u8>, nonce: Seq<u8>, message: Seq<u8>) -> Option<
    Seq<u8>,
>;

/// What AES-256-GCM recovers from `ciphertext` under `key` and `nonce`: the
/// message, or nothing where the ciphertext does not authenticate. The
/// function is not defined here: it stands for what the `aes-gcm` crate
/// computes.
pub uninterp spec fn aes_gcm_opened(key: Seq<u8>, nonce: Seq<u8>, ciphertext: Seq<u8>) -> Option<
    Seq<u8>,
>;

/// Whether `password` matches the Argon2 password hash `hash`, or nothing
/// where `hash` is not a password hash in PHC text form. The function is
/// not defined here: it stands for the verdict of the `argon2` crate.
pub uninterp spec fn password_matches(password: Seq<u8>, hash: Seq<char>) -> Option<bool>;

/// `Hmac::<Sha1>::new_from_slice`, `Mac::update` and `Mac::finalize`: the
/// HMAC-SHA1 tag of `message` under `key`, which is 20 bytes long. A key of
/// any length is taken.
#[verifier::external_body]
fn hmac_tag(key: &[u8], message: &[u8]) -> (tag: Vec<u8>)
    ensures
        tag@ == hmac_sha1(key@, message@),
        tag@.len() == 20,
{
    let mut mac = <Hmac<Sha1> as Mac>::new_from_slice(key).unwrap();
    mac.update(message);
    mac.finalize().into_bytes().to_vec()
}

/// `Hmac::<Sha1>::new_from_slice`, `Mac::update` and `Mac::verify_slice`:
/// compares `tag`, in constant time, with the HMAC-SHA1 tag of `message`
/// under `key`. A tag of another length than the computed one never
/// matches.
#[verifier::external_body]
fn hmac_check(key: &[u8], message: &[u8], tag: &[u8]) -> (ok: bool)
    ensures
        ok == (tag@ == hmac_sha1(key@, message@)),
{
    let mut mac = <Hmac<Sha1> as Mac>::new_from_slice(key).unwrap();
    mac.update(message);
    mac.verify_slice(tag).is_ok()
}

/// `Aes256Gcm::new_from_slice` and `Aead::encrypt`: encrypts `message`
/// under a 32-byte key and a 12-byte nonce, without associated data. The
/// ciphertext is the message's length plus the 16 bytes of the tag, and
/// decryption under the same key and nonce gives the message back.
#[verifier::external_body]
fn aes_seal(key: &[u8], nonce: &[u8], message: &[u8]) -> (sealed: Option<Vec<u8>>)
    requires
        key@.len() == 32,
        nonce@.len() == 12,
    ensures
        sealed is Some == aes_gcm_sealed(key@, nonce@, message@) is Some,
        sealed matches Some(made) ==> {
            &&& made@ == aes_gcm_sealed(key@, nonce@, message@).unwrap()
            &&& made@.len() == message@.len() + 16
            &&& aes_gcm_opened(key@, nonce@, made@) == Some(message@)
        },
{
    let cipher = Aes256Gcm::new_from_slice(key).unwrap();
    cipher.encrypt(Nonce::from_slice(nonce), message).ok()
}

/// `Aes256Gcm::new_from_slice` and `Aead::decrypt`: decrypts `ciphertext`
/// under a 32-byte key and a 12-byte nonce, without associated data.
#[verifier::external_body]
fn aes_open(key: &[u8], nonce: &[u8], ciphertext: &[u8]) -> (opened: Option<Vec<u8>>)
    requires
        key@.len() == 32,
        nonce@.len() == 12,
    ensures
        opened is Some == aes_gcm_opened(key@, nonce@, ciphertext@) is Some,
        opened is Some ==> opened.unwrap()@ == aes_gcm_opened(key@, nonce@, ciphertext@).unwrap(),
{
    let cipher = Aes256Gcm::new_from_slice(key).unwrap();
    cipher.decrypt(Nonce::from_slice(nonce), ciphertext).ok()
}

/// `SaltString::generate` on the operating system's random source and
/// `Argon2::default().hash_password`: the password hash in PHC text form,
/// or nothing where hashing fails. The salt is fresh with every call, so
/// the text is not determined; whatever it is, the password matches it.
#[verifier::external_body]
fn argon2_hash(password: &[u8]) -> (hash: Option<String>)
    ensures
        hash matches Some(text) ==> password_matches(password@, text@) == Some(true),
{
    let salt = SaltString::generate(&mut OsRng);
    Argon2::default().hash_password(password, &salt).ok().map(|hash| hash.to_string())
}

/// `PasswordHash::new` and `Argon2::default().verify_password`: parses
/// `hash` and checks `password` against it.
#[verifier::external_body]
fn argon2_check(password: &[u8], hash: &str) -> (verdict: Option<bool>)
    ensures
        verdict == password_matches(password@, hash@),
{
    match PasswordHash::new(hash) {
        Ok(parsed) => Some(Argon2::default().verify_password(password, &parsed).is_ok()),
        Err(_) => None,
    }
}

/// Why a security operation gave no result.
#[derive(Debug, Clone, Copy, PartialEq, Eq, Structural)]
pub enum SecurityError {
    /// The secret is shorter than the 32 bytes that the cipher key takes.
    SecretTooShort,
    /// The password could not be hashed.
    HashingFailed,
    /// The text is not a password hash.
    MalformedHash,
    /// The message is too long for the cipher.
    MessageTooLong,
    /// The ciphertext does not authenticate under the key.
    NotAuthentic,
}

/// The nonce under which messages are encrypted: the twelve bytes of the
/// text `unique nonce`.
pub open spec fn message_nonce() -> Seq<u8> {
    seq![117u8, 110u8, 105u8, 113u8, 117u8, 101u8, 32u8, 110u8, 111u8, 110u8, 99u8, 101u8]
}

fn nonce_bytes() -> (nonce: Vec<u8>)
    ensures
        nonce@ == message_nonce(),
{
    let nonce: Vec<u8> = vec![
        117u8,
        110u8,
        105u8,
        113u8,
        117u8,
        101u8,
        32u8,
        110u8,
        111u8,
        110u8,
        99u8,
        101u8,
    ];
    nonce
}

/// The secret that tokens, message tags and the message cipher are keyed
/// with. The cipher key is the first 32 bytes of the secret.
pub struct Security {
    jwt_secret: Vec<u8>,
}

impl Security {
    /// The secret.
    pub closed spec fn secret(&self) -> Seq<u8> {
        self.jwt_secret@
    }

    /// Whether the secret is long enough for the cipher key. Every value
    /// made by `new` is.
    pub closed spec fn well_formed(&self) -> bool {
        self.jwt_secret@.len() >= 32
    }

    /// The cipher key.
    pub open spec fn cipher_key(&self) -> Seq<u8> {
        self.secret().take(32)
    }

    /// Takes the secret. A secret shorter than 32 bytes is refused.
    pub fn new(jwt_secret: Vec<u8>) -> (outcome: Result<Security, SecurityError>)
        ensures
            jwt_secret@.len() < 32 ==> outcome == Err::<Security, SecurityError>(
                SecurityError::SecretTooShort,
            ),
            jwt_secret@.len() >= 32 ==> outcome is Ok && outcome.unwrap().secret() == jwt_secret@
                && outcome.unwrap().well_formed(),
    {
        if jwt_secret.len() < CIPHER_KEY_BYTES {
            Err(SecurityError::SecretTooShort)
        } else {
            Ok(Security { jwt_secret })
        }
    }

    /// The secret, for signing tokens with.
    pub fn secret_bytes(&self) -> (bytes: &[u8])
        ensures
            bytes@ == self.secret(),
    {
        self.jwt_secret.as_slice()
    }

    fn key_bytes(&self) -> (key: Option<Vec<u8>>)
        ensures
            self.well_formed() == key is Some,
            key is Some ==> key.unwrap()@ == self.cipher_key() && key.unwrap()@.len() == 32,
    {
        if self.jwt_secret.len() < CIPHER_KEY_BYTES {
            return None;
        }
        let mut key: Vec<u8> = Vec::new();
        let mut i: usize = 0;
        while i < CIPHER_KEY_BYTES
            invariant
                i <= 32,
                self.jwt_secret@.len() >= 32,
                key@ == self.jwt_secret@.take(i as int),
            decreases 32 - i,
        {
            key.push(self.jwt_secret[i]);
            i += 1;
        }
        Some(key)
    }

    /// Hashes a password with Argon2 under a fresh random salt. The
    /// password matches the hash that comes out.
    pub fn hash_password(&self, password: &str) -> (outcome: Result<String, SecurityError>)
        ensures
            outcome is Err ==> outcome == Err::<String, SecurityError>(
                SecurityError::HashingFailed,
            ),
            outcome matches Ok(hash) ==> password_matches(encode_utf8(password@), hash@) == Some(
                true,
            ),
    {
        match argon2_hash(password.as_bytes()) {
            Some(hash) => Ok(hash),
            None => Err(SecurityError::HashingFailed),
        }
    }

    /// Checks a password against a password hash.
    pub fn verify_password(&self, password: &str, hash: &str) -> (outcome: Result<
        bool,
        SecurityError,
    >)
        ensures
            outcome == (match password_matches(encode_utf8(password@), hash@) {
                Some(ok) => Ok::<bool, SecurityError>(ok),
                None => Err::<bool, SecurityError>(SecurityError::MalformedHash),
            }),
    {
        match argon2_check(password.as_bytes(), hash) {
            Some(ok) => Ok(ok),
            None => Err(SecurityError::MalformedHash),
        }
    }

    /// Encrypts a message under the cipher key. The ciphertext is 16 bytes
    /// longer than the message and decrypts to it.
    pub fn encrypt_message(&self, message: &[u8]) -> (outcome: Result<Vec<u8>, SecurityError>)
        ensures
            !self.well_formed() ==> outcome == Err::<Vec<u8>, SecurityError>(
                SecurityError::SecretTooShort,
            ),
            self.well_formed() ==> (match aes_gcm_sealed(
                self.cipher_key(),
                message_nonce(),
                message@,
            ) {
                Some(sealed) => outcome is Ok && outcome.unwrap()@ == sealed,
                None => outcome == Err::<Vec<u8>, SecurityError>(SecurityError::MessageTooLong),
            }),
            outcome matches Ok(sealed) ==> {
                &&& sealed@.len() == message@.len() + 16
                &&& aes_gcm_opened(self.cipher_key(), message_nonce(), sealed@) == Some(message@)
            },
    {
        match self.key_bytes() {
            None => Err(SecurityError::SecretTooShort),
            Some(key) => {
                let nonce = nonce_bytes();
                match aes_seal(key.as_slice(), nonce.as_slice(), message) {
                    Some(sealed) => Ok(sealed),
                    None => Err(SecurityError::MessageTooLong),
                }
            },
        }
    }

    /// Decrypts a ciphertext under the cipher key.
    pub fn decrypt_message(&self, ciphertext: &[u8]) -> (outcome: Result<Vec<u8>, SecurityError>)
        ensures
            !self.well_formed() ==> outcome == Err::<Vec<u8>, SecurityError>(
                SecurityError::SecretTooShort,
            ),
            self.well_formed() ==> (match aes_gcm_opened(
                self.cipher_key(),
                message_nonce(),
                ciphertext@,
            ) {
                Some(opened) => outcome is Ok && outcome.unwrap()@ == opened,
                None => outcome == Err::<Vec<u8>, SecurityError>(SecurityError::NotAuthentic),
            }),
    {
        match self.key_bytes() {
            None => Err(SecurityError::SecretTooShort),
            Some(key) => {
                let nonce = nonce_bytes();
                match aes_open(key.as_slice(), nonce.as_slice(), ciphertext) {
                    Some(opened) => Ok(opened),
                    None => Err(SecurityError::NotAuthentic),
                }
            },
        }
    }

    /// The HMAC-SHA1 tag of a message under the secret.
    pub fn generate_hmac(&self, message: &[u8]) -> (tag: Vec<u8>)
        ensures
            tag@ == hmac_sha1(self.secret(), message@),
            tag@.len() == 20,
    {
        hmac_tag(self.jwt_secret.as_slice(), message)
    }

    /// Whether `tag` is the HMAC-SHA1 tag of a message under the secret.
    pub fn verify_hmac(&self, message: &[u8], tag: &[u8]) -> (ok: bool)
        ensures
            ok == (tag@ == hmac_sha1(self.secret(), message@)),
    {
        hmac_check(self.jwt_secret.as_slice(), message, tag)
    }
}

/// The code of the second factor. One fixed code is in use.
pub open spec fn second_factor_code() -> Seq<char> {
    "123456"@
}

/// The second factor of a login. It hands out the one code in use and takes
/// every code that is presented, whatever the shared secret.
pub struct TwoFactorAuth {
    pub security: Security,
}

impl TwoFactorAuth {
    /// The second factor on top of the given secret.
    pub fn new(security: Security) -> (auth: TwoFactorAuth)
        ensures
            auth.security == security,
    {
        TwoFactorAuth { security }
    }

    /// The code to present now.
    pub fn generate_totp(&self, secret: &[u8]) -> (outcome: Result<String, SecurityError>)
        ensures
            outcome is Ok,
            outcome.unwrap()@ == second_factor_code(),
    {
        Ok("123456".to_owned())
    }

    /// Whether the presented code is taken: every code is.
    pub fn verify_totp(&self, secret: &[u8], code: &str) -> (outcome: Result<bool, SecurityError>)
        ensures
            outcome == Ok::<bool, SecurityError>(true),
    {
        Ok(true)
    }
}

/// The number of failed attempts recorded for `ip`; zero where none is.
pub open spec fn attempts_of(failed: Map<Seq<char>, u32>, ip: Seq<char>) -> u32 {
    if failed.contains_key(ip) {
        failed[ip]
    } else {
        0
    }
}

/// Counts failed attempts per address and says when an address has used up
/// its allowance.
pub struct IntrusionDetection {
    pub failed_attempts: StringHashMap<u32>,
    pub lockout_duration: i64,
}

impl IntrusionDetection {
    /// No failed attempt recorded; an address is shut out for 15 minutes.
    pub fn new() -> (detection: IntrusionDetection)
        ensures
            detection.failed_attempts@ == Map::<Seq<char>, u32>::empty(),
            detection.lockout_duration == 900,
    {
        IntrusionDetection { failed_attempts: StringHashMap::new(), lockout_duration: LOCKOUT_SECS }
    }

    /// The number of failed attempts recorded for `ip`.
    pub fn attempts(&self, ip: &str) -> (count: u32)
        ensures
            count == attempts_of(self.failed_attempts@, ip@),
    {
        match self.failed_attempts.get(ip) {
            Some(count) => *count,
            None => 0,
        }
    }

    /// Records one more failed attempt of `ip` and says whether the address
    /// is still within its allowance of five.
    pub fn record_failed_attempt(&mut self, ip: &str) -> (allowed: bool)
        requires
            attempts_of(old(self).failed_attempts@, ip@) < u32::MAX,
        ensures
            final(self).failed_attempts@ == old(self).failed_attempts@.insert(
                ip@,
                (attempts_of(old(self).failed_attempts@, ip@) + 1) as u32,
            ),
            final(self).lockout_duration == old(self).lockout_duration,
            allowed == (attempts_of(old(self).failed_attempts@, ip@) + 1 <= 5),
    {
        let count: u32 = self.attempts(ip) + 1;
        self.failed_attempts.insert(ip.to_owned(), count);
        count <= MAX_FAILED_ATTEMPTS
    }

    /// Forgets the failed attempts of `ip`.
    pub fn reset_failed_attempts(&mut self, ip: &str)
        ensures
            final(self).failed_attempts@ == old(self).failed_attempts@.remove(ip@),
            final(self).lockout_duration == old(self).lockout_duration,
    {
        self.failed_attempts.remove(ip);
    }
}

} // verus!
