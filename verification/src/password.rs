//! Password hashes: PBKDF2 over HMAC-SHA-512 of the password, salted per user and peppered
//! per installation, and the check of a password against a stored hash.
use vstd::prelude::*;
use vstd::string::StringSliceAdditionalSpecFns;
use crypto::mac::Mac;
use crate::error::ErrorKind;
use crate::account::{check_password_length, MIN_PASSWORD_BYTES, MAX_PASSWORD_BYTES};
use crate::session::{fresh_sessid, sessid_vec, rng_failure_message, SESSID_BYTES};

verus! {

/// The number of PBKDF2 rounds of a new hash.
pub const HASH_ROUNDS: i32 = 100000;

/// The length in bytes of a hash: the output of SHA-512.
pub const HASH_BYTES: usize = 64;

/// What PBKDF2 with HMAC-SHA-512 keyed by `password` derives from `salt` in `rounds`
/// rounds, one SHA-512 block long, as `rust-crypto` computes it.
pub uninterp spec fn pbkdf2_hmac_sha512_result(password: Seq<u8>, salt: Seq<u8>, rounds: u32) -> Seq<u8>;

/// Calls `crypto::pbkdf2::pbkdf2` with `crypto::hmac::Hmac` over `crypto::sha2::Sha512`
/// keyed by `password`, into a buffer of the MAC's output length, 64 bytes for SHA-512. The
/// crate asserts that the number of rounds is positive. Only that the result is a function
/// of the password, salt and rounds, and its length, are stated.
#[verifier::external_body]
fn pbkdf2_hmac_sha512(password: &[u8], salt: &[u8], rounds: u32) -> (res: Vec<u8>)
    requires
        rounds > 0,
    ensures
        res@.len() == HASH_BYTES,
        res@ == pbkdf2_hmac_sha512_result(password@, salt@, rounds),
{
    let mut mac = crypto::hmac::Hmac::new(crypto::sha2::Sha512::new(), password);
    let mut out = vec![0u8; mac.output_bytes()];
    crypto::pbkdf2::pbkdf2(&mut mac, salt, rounds, &mut out);
    out
}

/// Calls `crypto::util::fixed_time_eq`, which returns `false` for slices of different
/// lengths and otherwise compares every byte, taking the same time whatever they hold. Two
/// empty slices are left out: the crate reads the first element of each before comparing.
#[verifier::external_body]
fn fixed_time_eq(a: &[u8], b: &[u8]) -> (res: bool)
    requires
        a@.len() > 0 || b@.len() > 0,
    ensures
        res == (a@ == b@),
{
    crypto::util::fixed_time_eq(a, b)
}

/// A stored password hash: the derived bytes, the salt and the number of rounds.
#[derive(Debug, Clone)]
pub struct HashedPassword {
    pub password_hash: Vec<u8>,
    pub salt: Vec<u8>,
    pub rounds: i32,
}

/// The hash of `password` with `salt` and `pepper` in `rounds` rounds: PBKDF2 over the salt
/// with the pepper appended.
pub open spec fn hash_of(password: Seq<u8>, salt: Seq<u8>, pepper: Seq<u8>, rounds: u32) -> Seq<u8> {
    pbkdf2_hmac_sha512_result(password, salt + pepper, rounds)
}

/// Whether `stored` accepts `password` under `pepper`: its number of rounds is positive and
/// the password hashes to its bytes.
pub open spec fn password_accepted(password: Seq<u8>, stored: HashedPassword, pepper: Seq<u8>) -> bool {
    stored.rounds > 0 && hash_of(password, stored.salt@, pepper, stored.rounds as u32) == stored.password_hash@
}

/// The salt followed by the pepper.
fn salted(salt: &[u8], pepper: &[u8]) -> (res: Vec<u8>)
    ensures
        res@ == salt@ + pepper@,
{
    let mut res: Vec<u8> = Vec::new();
    res.extend_from_slice(salt);
    res.extend_from_slice(pepper);
    res
}

/// Derives the hash of `password` with `salt` and `pepper` in `rounds` rounds.
pub fn derive_hash(password: &str, salt: &[u8], pepper: &[u8], rounds: u32) -> (res: Vec<u8>)
    requires
        rounds > 0,
    ensures
        res@.len() == HASH_BYTES,
        res@ == hash_of(password.spec_bytes(), salt@, pepper@, rounds),
{
    let salt_pepper = salted(salt, pepper);
    pbkdf2_hmac_sha512(password.as_bytes(), salt_pepper.as_slice(), rounds)
}

/// The stored hash of `password` under `pepper` with the 16-byte `salt`, in the rounds of a
/// new hash.
pub fn hash_with_salt(password: &str, salt: &[u8; 16], pepper: &[u8]) -> (res: HashedPassword)
    ensures
        res.rounds == HASH_ROUNDS,
        res.salt@ == salt@,
        res.password_hash@.len() == HASH_BYTES,
        res.password_hash@ == hash_of(password.spec_bytes(), salt@, pepper@, HASH_ROUNDS as u32),
        password_accepted(password.spec_bytes(), res, pepper@),
{
    let salt = sessid_vec(salt);
    let password_hash = derive_hash(password, salt.as_slice(), pepper, HASH_ROUNDS as u32);
    HashedPassword { password_hash, salt, rounds: HASH_ROUNDS }
}

/// Hashes a new password under `pepper` with a fresh random salt of 16 bytes, after
/// checking that it is 8 to 1024 bytes long.
pub fn set_password(password: &str, pepper: &[u8]) -> (res: Result<HashedPassword, ErrorKind>)
    ensures
        password.spec_bytes().len() < MIN_PASSWORD_BYTES ==> res == Err::<HashedPassword, ErrorKind>(
            ErrorKind::PasswordTooShort,
        ),
        password.spec_bytes().len() > MAX_PASSWORD_BYTES ==> res == Err::<HashedPassword, ErrorKind>(
            ErrorKind::PasswordTooLong,
        ),
        MIN_PASSWORD_BYTES <= password.spec_bytes().len() <= MAX_PASSWORD_BYTES ==> (res is Ok || (res matches Err(
            ErrorKind::Msg(m),
        ) && m@ == rng_failure_message())),
        res matches Ok(h) ==> {
            &&& h.rounds == HASH_ROUNDS
            &&& h.salt@.len() == SESSID_BYTES
            &&& h.password_hash@.len() == HASH_BYTES
            &&& h.password_hash@ == hash_of(password.spec_bytes(), h.salt@, pepper@, HASH_ROUNDS as u32)
            &&& password_accepted(password.spec_bytes(), h, pepper@)
        },
{
    check_password_length(password)?;
    let salt = fresh_sessid()?;
    Ok(hash_with_salt(password, &salt, pepper))
}

/// Checks `password` against `stored` under `pepper`: a stored hash with no positive number
/// of rounds is a database inconsistency, and a password that does not hash to the stored
/// bytes does not match.
pub fn check_password(password: &str, stored: &HashedPassword, pepper: &[u8]) -> (res: Result<(), ErrorKind>)
    ensures
        stored.rounds <= 0 ==> res == Err::<(), ErrorKind>(ErrorKind::DatabaseOdd),
        stored.rounds > 0 ==> (res is Ok <==> password_accepted(password.spec_bytes(), *stored, pepper@)),
        stored.rounds > 0 && !password_accepted(password.spec_bytes(), *stored, pepper@) ==> res == Err::<
            (),
            ErrorKind,
        >(ErrorKind::PasswordDoesntMatch),
{
    if stored.rounds <= 0 {
        return Err(ErrorKind::DatabaseOdd);
    }
    let computed = derive_hash(password, stored.salt.as_slice(), pepper, stored.rounds as u32);
    if fixed_time_eq(computed.as_slice(), stored.password_hash.as_slice()) {
        Ok(())
    } else {
        Err(ErrorKind::PasswordDoesntMatch)
    }
}

} // verus!
