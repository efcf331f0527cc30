//! Session identifiers: their generation, their text form in cookies, and the session
//! records that a login or a refresh stores.
use vstd::prelude::*;
use crate::encoding::{hex_upper_chars, hex_upper_bytes, hex_upper_valid, hex_upper_decoded};
use crate::encoding::{hex_upper_encode, hex_upper_decode, lemma_hex_round_trip, lemma_hex_chars_utf8};
use crate::encoding::{base64url_encode, base64url_chars, lemma_base64url_len};
use crate::error::ErrorKind;
use crate::model::{Session, NewSession, User};
use rand::RngCore;
use vstd::string::StringSliceAdditionalSpecFns;

verus! {

/// The number of bits in a session identifier.
pub const SESSID_BITS: usize = 128;

/// The number of bytes in a session identifier.
pub const SESSID_BYTES: usize = 16;

/// The number of hexadecimal symbols in the text form of a session identifier.
pub const SESSID_HEX_LEN: usize = 32;

/// The number of characters of an e-mail confirmation secret.
pub const CONFIRM_SECRET_LEN: usize = 24;

/// How long, in nanoseconds, a superseded session stays valid after a refresh: a minute.
pub const SESSION_GRACE_NS: i64 = 60000000000;

/// The address a request came from.
#[derive(Debug, Clone, Copy)]
pub enum IpAddress {
    V4([u8; 4]),
    V6([u8; 16]),
}

/// The octets of an address, in network order.
pub open spec fn ip_bytes(ip: IpAddress) -> Seq<u8> {
    match ip {
        IpAddress::V4(o) => o@,
        IpAddress::V6(o) => o@,
    }
}

/// Returns the octets of `ip`, as they are stored with a session.
pub fn ip_octets(ip: &IpAddress) -> (res: Vec<u8>)
    ensures
        res@ == ip_bytes(*ip),
{
    let mut res: Vec<u8> = Vec::new();
    match ip {
        IpAddress::V4(o) => {
            for i in 0..4
                invariant
                    res@ == o@.take(i as int),
            {
                res.push(o[i]);
                assert(res@ =~= o@.take(i + 1));
            }
            assert(res@ =~= o@);
        },
        IpAddress::V6(o) => {
            for i in 0..16
                invariant
                    res@ == o@.take(i as int),
            {
                res.push(o[i]);
                assert(res@ =~= o@.take(i + 1));
            }
            assert(res@ =~= o@);
        },
    }
    res
}

#[verifier::external_type_specification]
#[verifier::external_body]
pub struct ExRandError(rand::Error);

/// Calls `rand::rngs::OsRng::try_fill_bytes` on a fresh 16-byte buffer and hands the
/// buffer back. The bytes come from the operating system's random source; nothing is
/// stated of them, nor of when the source fails.
#[verifier::external_body]
fn os_random_16() -> (res: Result<[u8; 16], rand::Error>) {
    let mut buf = [0u8; 16];
    match rand::rngs::OsRng.try_fill_bytes(&mut buf) {
        Ok(()) => Ok(buf),
        Err(e) => Err(e),
    }
}

/// The message of the error that a failing random source gives.
pub open spec fn rng_failure_message() -> Seq<char> {
    "Unable to connect to the system random number generator!"@
}

/// Returns a fresh session identifier of 128 random bits, or an error when the
/// system's random source cannot be read.
pub fn fresh_sessid() -> (res: Result<[u8; 16], ErrorKind>)
    ensures
        res matches Err(e) ==> e matches ErrorKind::Msg(m) && m@ == rng_failure_message(),
{
    match os_random_16() {
        Ok(bytes) => Ok(bytes),
        Err(_) => Err(
            ErrorKind::Msg(String::from_str("Unable to connect to the system random number generator!")),
        ),
    }
}

/// The text form of a session identifier: its bytes in uppercase hexadecimal.
pub fn sess_to_hex(sess: &Session) -> (res: String)
    requires
        sess.sess_id@.len() <= usize::MAX / 512,
    ensures
        res@ == hex_upper_chars(sess.sess_id@),
{
    hex_upper_encode(sess.sess_id.as_slice())
}

/// Whether `bytes` is the text form of some session identifier.
pub open spec fn is_sessid_text(bytes: Seq<u8>) -> bool {
    bytes.len() == SESSID_HEX_LEN && hex_upper_valid(bytes)
}

/// Reads a session identifier from its text form. Fails with `BadSessId` unless the text
/// is exactly 32 symbols of `0-9A-F`.
pub fn sess_to_bin(sessid: &str) -> (res: Result<Vec<u8>, ErrorKind>)
    ensures
        res is Ok <==> is_sessid_text(sessid.spec_bytes()),
        res matches Ok(v) ==> v@ == hex_upper_decoded(sessid.spec_bytes()) && v@.len()
            == SESSID_BYTES,
        res matches Err(e) ==> e == ErrorKind::BadSessId,
{
    let bytes = sessid.as_bytes();
    if bytes.len() == SESSID_BITS / 4 {
        match hex_upper_decode(bytes) {
            Ok(v) => Ok(v),
            Err(_) => Err(ErrorKind::BadSessId),
        }
    } else {
        Err(ErrorKind::BadSessId)
    }
}

/// The text that `sess_to_hex` gives for a session identifier is accepted by
/// `sess_to_bin`, which gives the identifier back.
pub proof fn lemma_sessid_text_round_trip(sess_id: Seq<u8>)
    requires
        sess_id.len() == SESSID_BYTES,
    ensures
        is_sessid_text(vstd::utf8::encode_utf8(hex_upper_chars(sess_id))),
        hex_upper_decoded(vstd::utf8::encode_utf8(hex_upper_chars(sess_id))) == sess_id,
{
    lemma_hex_chars_utf8(sess_id);
    lemma_hex_round_trip(sess_id);
}

/// Copies a session identifier into a vector.
pub(crate) fn sessid_vec(id: &[u8; 16]) -> (res: Vec<u8>)
    ensures
        res@ == id@,
{
    let mut res: Vec<u8> = Vec::new();
    for i in 0..16
        invariant
            res@ == id@.take(i as int),
    {
        res.push(id[i]);
        assert(res@ =~= id@.take(i + 1));
    }
    assert(res@ =~= id@);
    res
}

/// The session stored under identifier `id` for user `user_id`, started at `started` and
/// seen at `now` from `ip`.
pub fn new_session(id: &[u8; 16], user_id: i32, started: i64, now: i64, ip: &IpAddress) -> (res: NewSession)
    ensures
        res.sess_id@ == id@,
        res.user_id == user_id,
        res.started == started,
        res.last_seen == now,
        res.last_ip@ == ip_bytes(*ip),
{
    NewSession { sess_id: sessid_vec(id), user_id, started, last_seen: now, last_ip: ip_octets(ip) }
}

/// The session that a login of `user` at `now` from `ip` stores, under a fresh random
/// identifier.
pub fn start_session(user: &User, now: i64, ip: &IpAddress) -> (res: Result<NewSession, ErrorKind>)
    ensures
        res matches Ok(s) ==> {
            &&& s.sess_id@.len() == SESSID_BYTES
            &&& s.user_id == user.id
            &&& s.started == now
            &&& s.last_seen == now
            &&& s.last_ip@ == ip_bytes(*ip)
        },
        res matches Err(e) ==> e matches ErrorKind::Msg(m) && m@ == rng_failure_message(),
{
    let id = fresh_sessid()?;
    Ok(new_session(&id, user.id, now, now, ip))
}

/// The session that replaces `old_session` when a request at `now` from `ip` refreshes it:
/// a fresh random identifier, the same user and start, seen now.
pub fn refresh_session(old_session: &Session, now: i64, ip: &IpAddress) -> (res: Result<
    NewSession,
    ErrorKind,
>)
    ensures
        res matches Ok(s) ==> {
            &&& s.sess_id@.len() == SESSID_BYTES
            &&& s.user_id == old_session.user_id
            &&& s.started == old_session.started
            &&& s.last_seen == now
            &&& s.last_ip@ == ip_bytes(*ip)
        },
        res matches Err(e) ==> e matches ErrorKind::Msg(m) && m@ == rng_failure_message(),
{
    let id = fresh_sessid()?;
    Ok(new_session(&id, old_session.user_id, old_session.started, now, ip))
}

/// The secret that confirms an e-mail address, made of the 16 bytes `bytes`: their padded
/// base64url text, 24 characters long.
pub fn confirm_secret(bytes: &[u8; 16]) -> (res: String)
    ensures
        res@ == base64url_chars(bytes@),
        res@.len() == CONFIRM_SECRET_LEN,
{
    let secret = base64url_encode(bytes.as_slice());
    proof {
        lemma_base64url_len(bytes@);
    }
    secret
}

/// A fresh secret for confirming an e-mail address: 128 random bits in padded base64url.
pub fn add_pending_email_confirm() -> (res: Result<String, ErrorKind>)
    ensures
        res matches Ok(s) ==> exists|bytes: Seq<u8>| bytes.len() == SESSID_BYTES && s@ == base64url_chars(bytes),
        res matches Ok(s) ==> s@.len() == CONFIRM_SECRET_LEN,
        res matches Err(e) ==> e matches ErrorKind::Msg(m) && m@ == rng_failure_message(),
{
    let bytes = fresh_sessid()?;
    Ok(confirm_secret(&bytes))
}

/// Whether a session last seen at `last_seen` has not been seen for a minute at `now`.
pub open spec fn superseded_at(last_seen: int, now: int) -> bool {
    last_seen < now - SESSION_GRACE_NS
}

/// The instant before which a user's other sessions, last seen earlier, are removed when a
/// refresh happens at `now`: one minute before `now`.
pub fn superseded_before(now: i64) -> (cutoff: i64)
    requires
        now >= i64::MIN + SESSION_GRACE_NS,
    ensures
        cutoff == now - SESSION_GRACE_NS,
        forall|t: i64| (t < cutoff) == #[trigger] superseded_at(t as int, now as int),
{
    now - SESSION_GRACE_NS
}

/// Whether a session of the same user, last seen at `last_seen`, is removed when a refresh
/// happens at `now`: it is, once it has not been seen for a minute.
pub fn is_superseded_session(last_seen: i64, now: i64) -> (res: bool)
    requires
        now >= i64::MIN + SESSION_GRACE_NS,
    ensures
        res == (last_seen < now - SESSION_GRACE_NS),
        res == superseded_at(last_seen as int, now as int),
{
    last_seen < now - SESSION_GRACE_NS
}

} // verus!
