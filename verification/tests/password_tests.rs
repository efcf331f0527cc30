use ganbare::error::ErrorKind;
use ganbare::password::{check_password, derive_hash, hash_with_salt, set_password, HashedPassword};

fn hex(bytes: &[u8]) -> String {
    bytes.iter().map(|b| format!("{:02x}", b)).collect()
}

#[test]
fn hash_is_pbkdf2_hmac_sha512() {
    let expected = "867f70cf1ade02cff3752599a3a53dc4af34c7a669815ae5d513554e1c8cf252\
                    c02d470a285a0501bad999bfe943c08f050235d7d68b1da55e63f73b60a57fce";
    assert_eq!(hex(&derive_hash("password", b"salt", b"", 1)), expected);
    // The pepper is appended to the salt.
    assert_eq!(hex(&derive_hash("password", b"sa", b"lt", 1)), expected);
}

#[test]
fn new_password_lengths() {
    assert_eq!(set_password("short", b"pepper").unwrap_err(), ErrorKind::PasswordTooShort);
    assert_eq!(set_password(&"x".repeat(1025), b"pepper").unwrap_err(), ErrorKind::PasswordTooLong);
}

#[test]
fn stored_hash_checks() {
    let stored = HashedPassword {
        password_hash: derive_hash("correct horse", b"0123456789abcdef", b"pepper", 2),
        salt: b"0123456789abcdef".to_vec(),
        rounds: 2,
    };
    assert_eq!(check_password("correct horse", &stored, b"pepper"), Ok(()));
    assert_eq!(check_password("wrong horse", &stored, b"pepper"), Err(ErrorKind::PasswordDoesntMatch));
    assert_eq!(check_password("correct horse", &stored, b"other"), Err(ErrorKind::PasswordDoesntMatch));
    let odd = HashedPassword { rounds: 0, ..stored.clone() };
    assert_eq!(check_password("correct horse", &odd, b"pepper"), Err(ErrorKind::DatabaseOdd));
}

#[test]
fn set_password_is_accepted() {
    let h = set_password("correct horse", b"pepper").unwrap();
    assert_eq!(h.rounds, 100_000);
    assert_eq!(h.salt.len(), 16);
    assert_eq!(h.password_hash.len(), 64);
    assert_eq!(check_password("correct horse", &h, b"pepper"), Ok(()));
    assert_eq!(check_password("correct horsf", &h, b"pepper"), Err(ErrorKind::PasswordDoesntMatch));
}

#[test]
fn hash_keeps_its_salt() {
    let h = hash_with_salt("correct horse", &[9u8; 16], b"pepper");
    assert_eq!(h.salt, vec![9u8; 16]);
    assert_eq!(h.rounds, 100_000);
    assert_eq!(h.password_hash, derive_hash("correct horse", &[9u8; 16], b"pepper", 100_000));
}
