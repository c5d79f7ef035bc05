use poh_ledger::encoding::to_hex;
use poh_ledger::security::{Security, SecurityError, TwoFactorAuth};
use poh_ledger::signature::{generate_keypair, sign_message, verify_signature};

fn security() -> Security {
    Security::new((0u8..40).collect()).unwrap()
}

#[test]
fn short_secret_is_refused() {
    assert!(matches!(
        Security::new(vec![1u8; 31]),
        Err(SecurityError::SecretTooShort)
    ));
    assert!(matches!(
        Security::new(Vec::new()),
        Err(SecurityError::SecretTooShort)
    ));
    let exact = Security::new(vec![1u8; 32]).unwrap();
    assert_eq!(exact.secret_bytes(), &[1u8; 32][..]);
    assert_eq!(security().secret_bytes().len(), 40);
}

#[test]
fn message_tag_is_hmac_sha1() {
    let s = security();
    let tag = s.generate_hmac(b"hello");
    assert_eq!(tag.len(), 20);
    assert_eq!(to_hex(&tag), "4cd20181a8f82eadee5f8d44a0e542b3349a4f83");
    assert!(s.verify_hmac(b"hello", &tag));
    assert!(!s.verify_hmac(b"hellp", &tag));
    assert!(!s.verify_hmac(b"hello", &tag[..19]));
    let mut longer = tag.clone();
    longer.push(0);
    assert!(!s.verify_hmac(b"hello", &longer));
    let mut flipped = tag.clone();
    flipped[0] ^= 1;
    assert!(!s.verify_hmac(b"hello", &flipped));
    let other = Security::new(vec![9u8; 32]).unwrap();
    assert!(!other.verify_hmac(b"hello", &tag));
}

#[test]
fn encrypted_message_opens_under_the_same_key_only() {
    let s = security();
    let sealed = s.encrypt_message(b"pay bob 10").unwrap();
    assert_eq!(sealed.len(), 10 + 16);
    assert_ne!(&sealed[..10], b"pay bob 10");
    assert_eq!(s.encrypt_message(b"pay bob 10").unwrap(), sealed);
    assert_eq!(s.decrypt_message(&sealed).unwrap(), b"pay bob 10".to_vec());
    let mut tampered = sealed.clone();
    tampered[3] ^= 0x80;
    assert_eq!(
        s.decrypt_message(&tampered),
        Err(SecurityError::NotAuthentic)
    );
    assert_eq!(s.decrypt_message(&[]), Err(SecurityError::NotAuthentic));
    let other = Security::new(vec![9u8; 32]).unwrap();
    assert_eq!(
        other.decrypt_message(&sealed),
        Err(SecurityError::NotAuthentic)
    );
    let same_key = Security::new((0u8..32).collect()).unwrap();
    assert_eq!(
        same_key.decrypt_message(&sealed).unwrap(),
        b"pay bob 10".to_vec()
    );
    let empty = s.encrypt_message(b"").unwrap();
    assert_eq!(empty.len(), 16);
    assert_eq!(s.decrypt_message(&empty).unwrap(), Vec::<u8>::new());
}

#[test]
fn password_is_checked_against_its_hash() {
    let s = security();
    let hash = s.hash_password("correct horse").unwrap();
    assert!(hash.starts_with("$argon2"));
    assert_ne!(s.hash_password("correct horse").unwrap(), hash);
    assert_eq!(s.verify_password("correct horse", &hash), Ok(true));
    assert_eq!(s.verify_password("wrong horse", &hash), Ok(false));
    assert_eq!(
        s.verify_password("correct horse", "not a hash"),
        Err(SecurityError::MalformedHash)
    );
    assert_eq!(
        s.verify_password("", ""),
        Err(SecurityError::MalformedHash)
    );
}

#[test]
fn signature_of_a_fresh_key_verifies() {
    let (public, secret) = generate_keypair();
    assert_eq!(public.len(), 32);
    assert_eq!(secret.len(), 32);
    let (other_public, other_secret) = generate_keypair();
    assert_ne!(other_secret, secret);
    let signature = sign_message(b"block 7", &secret).unwrap();
    assert_eq!(signature.len(), 64);
    assert_eq!(sign_message(b"block 7", &secret).unwrap(), signature);
    assert_ne!(sign_message(b"block 8", &secret).unwrap(), signature);
    assert!(verify_signature(b"block 7", &signature, &public));
    assert!(!verify_signature(b"block 8", &signature, &public));
    assert!(!verify_signature(b"block 7", &signature, &other_public));
    assert_eq!(sign_message(b"block 7", &secret[..31]), None);
    assert_eq!(sign_message(b"block 7", &[]), None);
}

#[test]
fn signing_follows_the_standard() {
    let secret: Vec<u8> = vec![
        0x9d, 0x61, 0xb1, 0x9d, 0xef, 0xfd, 0x5a, 0x60, 0xba, 0x84, 0x4a, 0xf4, 0x92, 0xec, 0x2c,
        0xc4, 0x44, 0x49, 0xc5, 0x69, 0x7b, 0x32, 0x69, 0x19, 0x70, 0x3b, 0xac, 0x03, 0x1c, 0xae,
        0x7f, 0x60,
    ];
    let public: Vec<u8> = vec![
        215, 90, 152, 1, 130, 177, 10, 183, 213, 75, 254, 211, 201, 100, 7, 58, 14, 225, 114, 243,
        218, 166, 35, 37, 175, 2, 26, 104, 247, 7, 81, 26,
    ];
    let signature = sign_message(b"", &secret).unwrap();
    assert!(verify_signature(b"", &signature, &public));
    assert_eq!(
        to_hex(&signature[..8]),
        "e5564300c360ac72"
    );
}

#[test]
fn second_factor_hands_out_its_code_and_takes_every_code() {
    let auth = TwoFactorAuth::new(security());
    assert_eq!(auth.security.secret_bytes(), security().secret_bytes());
    assert_eq!(auth.generate_totp(b"shared"), Ok("123456".to_string()));
    assert_eq!(auth.generate_totp(b""), Ok("123456".to_string()));
    assert_eq!(auth.verify_totp(b"shared", "123456"), Ok(true));
    assert_eq!(auth.verify_totp(b"shared", "000000"), Ok(true));
}
