//! Wallets: the check of credentials at creation, the fingerprint of the
//! machine a wallet is bound to, and the address derived from a public key.

use crate::digest::{hash_hex, hash_text, sha256, sha256_digest};
use crate::encoding::{append_bytes, append_decimal, decimal_text};
use crate::signature::generate_keypair;
use crate::time::now_millis;
use vstd::prelude::*;
use vstd::string::{StrSliceExecFns, StringExecFns};
use vstd::utf8::encode_utf8;

verus! {

/// The number of characters in a hardware fingerprint and in a wallet
/// address.
pub const SHORT_ID_CHARS: usize = 16;

/// The number of digits in a PIN.
pub const PIN_DIGITS: usize = 7;

/// What a user presents to open a wallet.
#[derive(Debug, Clone, PartialEq, Eq)]
pub struct WalletCredentials {
    pub email: String,
    /// Seven decimal digits.
    pub pin: String,
}

/// A wallet. The balance is a whole number of the smallest unit; the time
/// of creation is in milliseconds since the Unix epoch.
#[derive(Debug, Clone, PartialEq, Eq)]
pub struct Wallet {
    pub id: String,
    pub email: String,
    pub public_key: Vec<u8>,
    pub hardware_id: String,
    pub balance: i64,
    pub created_at: i64,
}

/// A wallet as a mathematical value.
pub struct WalletView {
    pub id: Seq<char>,
    pub email: Seq<char>,
    pub public_key: Seq<u8>,
    pub hardware_id: Seq<char>,
    pub balance: i64,
    pub created_at: i64,
}

impl View for Wallet {
    type V = WalletView;

    open spec fn view(&self) -> WalletView {
        WalletView {
            id: self.id@,
            email: self.email@,
            public_key: self.public_key@,
            hardware_id: self.hardware_id@,
            balance: self.balance,
            created_at: self.created_at,
        }
    }
}

/// What identifies the machine: the brand of its first processor and the
/// size of its memory in bytes, each as far as it is known.
#[derive(Debug, Clone, PartialEq, Eq)]
pub struct Hardware {
    pub cpu_brand: Option<String>,
    pub total_memory: Option<u64>,
}

/// Why a wallet was not created.
#[derive(Debug, Clone, Copy, PartialEq, Eq, Structural)]
pub enum WalletError {
    /// The e-mail address holds no `@`.
    InvalidEmail,
    /// The PIN is not made of exactly seven decimal digits.
    InvalidPin,
}

/// Whether an e-mail address has the one property asked of it: an `@`
/// somewhere.
pub open spec fn is_valid_email(email: Seq<char>) -> bool {
    email.contains('@')
}

/// Whether a character is one of the ten decimal digits.
pub open spec fn is_decimal_digit(c: char) -> bool {
    '0' <= c && c <= '9'
}

/// Whether a PIN is exactly seven decimal digits.
pub open spec fn is_valid_pin(pin: Seq<char>) -> bool {
    &&& pin.len() == 7
    &&& forall|i: int| 0 <= i < pin.len() ==> is_decimal_digit(#[trigger] pin[i])
}

/// The verdict on a pair of credentials. The e-mail address is looked at
/// first.
pub open spec fn credentials_verdict(email: Seq<char>, pin: Seq<char>) -> Result<(), WalletError> {
    if !is_valid_email(email) {
        Err(WalletError::InvalidEmail)
    } else if !is_valid_pin(pin) {
        Err(WalletError::InvalidPin)
    } else {
        Ok(())
    }
}

/// The first `n` characters of a text, or all of it where it is shorter.
pub open spec fn leading(text: Seq<char>, n: nat) -> Seq<char> {
    if text.len() <= n {
        text
    } else {
        text.take(n as int)
    }
}

/// The bytes that the hardware fingerprint is hashed from: the UTF-8 bytes
/// of the processor brand, then the memory size in decimal text; what is
/// not known is left out.
pub open spec fn hardware_input(cpu_brand: Option<Seq<char>>, total_memory: Option<u64>) -> Seq<
    u8,
> {
    (match cpu_brand {
        Some(brand) => encode_utf8(brand),
        None => Seq::empty(),
    }) + (match total_memory {
        Some(size) => decimal_text(size as nat),
        None => Seq::empty(),
    })
}

/// The hardware fingerprint: the first 16 characters of the hash of
/// `hardware_input`.
pub open spec fn hardware_fingerprint(
    cpu_brand: Option<Seq<char>>,
    total_memory: Option<u64>,
) -> Seq<char> {
    leading(hash_text(hardware_input(cpu_brand, total_memory)), 16)
}

impl Hardware {
    /// The processor brand as a mathematical value.
    pub open spec fn brand_view(&self) -> Option<Seq<char>> {
        match self.cpu_brand {
            Some(brand) => Some(brand@),
            None => None,
        }
    }

    /// The fingerprint of this machine.
    pub open spec fn fingerprint(&self) -> Seq<char> {
        hardware_fingerprint(self.brand_view(), self.total_memory)
    }
}

/// The Base58 text of a byte string. The function is not defined here: it
/// stands for what the `bs58` crate produces with its default alphabet, and
/// equal inputs have equal texts.
pub uninterp spec fn base58_text(bytes: Seq<u8>) -> Seq<char>;

/// The address of the wallet that holds `public_key`: the first 16
/// characters of the Base58 text of the key's SHA-256 digest.
pub open spec fn wallet_address(public_key: Seq<u8>) -> Seq<char> {
    leading(base58_text(sha256_digest(public_key)), 16)
}

/// `bs58::encode(..).into_string()`: the Base58 text of `bytes`.
#[verifier::external_body]
fn base58(bytes: &[u8]) -> (text: String)
    ensures
        text@ == base58_text(bytes@),
{
    bs58::encode(bytes).into_string()
}

/// `uuid::Uuid::new_v4` rendered as text: a fresh random identifier.
/// Nothing is promised of the value.
#[verifier::external_body]
fn fresh_wallet_id() -> String {
    uuid::Uuid::new_v4().to_string()
}

/// The first `n` characters of `text`, or all of it where it is shorter.
pub fn leading_chars(text: &str, n: usize) -> (head: String)
    ensures
        head@ == leading(text@, n as nat),
{
    let length = text.unicode_len();
    if length <= n {
        text.to_owned()
    } else {
        text.substring_char(0, n).to_owned()
    }
}

/// Whether the e-mail address holds an `@`.
pub fn check_email(email: &str) -> (ok: bool)
    ensures
        ok == is_valid_email(email@),
{
    let length = email.unicode_len();
    let mut i: usize = 0;
    while i < length
        invariant
            i <= length,
            length == email@.len(),
            forall|k: int| 0 <= k < i ==> email@[k] != '@',
        decreases length - i,
    {
        if email.get_char(i) == '@' {
            return true;
        }
        i += 1;
    }
    false
}

/// Whether the PIN is exactly seven decimal digits.
pub fn check_pin(pin: &str) -> (ok: bool)
    ensures
        ok == is_valid_pin(pin@),
{
    let length = pin.unicode_len();
    if length != PIN_DIGITS {
        return false;
    }
    let mut i: usize = 0;
    while i < length
        invariant
            i <= length,
            length == pin@.len(),
            forall|k: int| 0 <= k < i ==> is_decimal_digit(#[trigger] pin@[k]),
        decreases length - i,
    {
        let c = pin.get_char(i);
        if !('0' <= c && c <= '9') {
            return false;
        }
        i += 1;
    }
    true
}

/// Checks a pair of credentials.
pub fn validate_credentials(email: &str, pin: &str) -> (verdict: Result<(), WalletError>)
    ensures
        verdict == credentials_verdict(email@, pin@),
{
    if !check_email(email) {
        Err(WalletError::InvalidEmail)
    } else if !check_pin(pin) {
        Err(WalletError::InvalidPin)
    } else {
        Ok(())
    }
}

/// The fingerprint of a machine.
pub fn generate_hardware_id(hardware: &Hardware) -> (id: String)
    ensures
        id@ == hardware.fingerprint(),
        id@.len() == 16,
{
    let mut input: Vec<u8> = Vec::new();
    match &hardware.cpu_brand {
        Some(brand) => {
            append_bytes(&mut input, brand.as_str().as_bytes());
        },
        None => {},
    }
    match hardware.total_memory {
        Some(size) => {
            append_decimal(&mut input, size);
        },
        None => {},
    }
    let hash = hash_hex(input.as_slice());
    leading_chars(hash.as_str(), SHORT_ID_CHARS)
}

/// The address of the wallet that holds `public_key`.
pub fn generate_wallet_address(public_key: &[u8]) -> (address: String)
    ensures
        address@ == wallet_address(public_key@),
{
    let digest = sha256(public_key);
    let text = base58(digest.as_slice());
    leading_chars(text.as_str(), SHORT_ID_CHARS)
}

impl WalletError {
    /// The reason for the refusal in words.
    pub open spec fn reason_text(&self) -> Seq<char> {
        match *self {
            WalletError::InvalidEmail => "Invalid email format"@,
            WalletError::InvalidPin => "PIN must be 7 digits"@,
        }
    }

    /// The reason for the refusal, for the caller to read.
    pub fn reason(&self) -> (text: String)
        ensures
            text@ == self.reason_text(),
    {
        match self {
            WalletError::InvalidEmail => String::from_str("Invalid email format"),
            WalletError::InvalidPin => String::from_str("PIN must be 7 digits"),
        }
    }
}

impl Wallet {
    /// A new wallet for `email`, bound to the given machine: it gets a
    /// fresh identifier and a fresh key pair, of which it keeps the public
    /// half, and starts with a balance of zero. The PIN is not stored.
    pub fn new(email: String, pin: String, hardware: &Hardware) -> (wallet: Wallet)
        ensures
            wallet@.email == email@,
            wallet@.hardware_id == hardware.fingerprint(),
            wallet@.hardware_id.len() == 16,
            wallet@.balance == 0,
            wallet@.public_key.len() == 32,
    {
        Wallet {
            id: fresh_wallet_id(),
            email,
            public_key: generate_keypair().0,
            hardware_id: generate_hardware_id(hardware),
            balance: 0,
            created_at: now_millis(),
        }
    }

    /// Whether the wallet is bound to the given machine.
    pub fn verify_hardware(&self, hardware: &Hardware) -> (same: bool)
        ensures
            same == (self@.hardware_id == hardware.fingerprint()),
    {
        let current = generate_hardware_id(hardware);
        self.hardware_id == current
    }

    /// The address of this wallet.
    pub fn address(&self) -> (address: String)
        ensures
            address@ == wallet_address(self@.public_key),
    {
        generate_wallet_address(self.public_key.as_slice())
    }
}

/// Creates a wallet after checking the credentials: the e-mail address must
/// hold an `@` and the PIN must be seven decimal digits.
pub fn create_wallet(email: String, pin: String, hardware: &Hardware) -> (outcome: Result<
    Wallet,
    WalletError,
>)
    ensures
        outcome matches Err(e) ==> credentials_verdict(email@, pin@) == Err::<(), WalletError>(e),
        outcome matches Ok(wallet) ==> {
            &&& credentials_verdict(email@, pin@) is Ok
            &&& wallet@.email == email@
            &&& wallet@.hardware_id == hardware.fingerprint()
            &&& wallet@.hardware_id.len() == 16
            &&& wallet@.balance == 0
            &&& wallet@.public_key.len() == 32
        },
{
    match validate_credentials(email.as_str(), pin.as_str()) {
        Err(e) => Err(e),
        Ok(_) => Ok(Wallet::new(email, pin, hardware)),
    }
}

} // verus!
