//! Accounts: the rules a new account's e-mail address and password must meet, and what a
//! login attempt comes to.
use vstd::prelude::*;
use vstd::utf8::{encode_utf8, encode_scalar};
use vstd::string::StringSliceAdditionalSpecFns;
use crate::error::ErrorKind;
use crate::model::User;

verus! {

/// The longest e-mail address accepted, in bytes.
pub const MAX_EMAIL_BYTES: usize = 254;

/// The shortest password accepted, in bytes.
pub const MIN_PASSWORD_BYTES: usize = 8;

/// The longest password accepted, in bytes.
pub const MAX_PASSWORD_BYTES: usize = 1024;

/// The UTF-8 encoding of a character holds an ASCII byte `b` only when the character is
/// `b` itself.
proof fn lemma_scalar_ascii_byte(c: char, b: u8)
    requires
        b < 128,
    ensures
        encode_scalar(c as u32).contains(b) <==> c as u32 == b as u32,
{
    let v = c as u32;
    let e = encode_scalar(v);
    if 0 <= v <= 0x7F {
        assert((v & 0x7F) as u8 == v as u8 && (v as u8) as u32 == v) by (bit_vector)
            requires
                v <= 0x7F,
        ;
        assert(e[0] == v as u8);
        if e.contains(b) {
            assert(e[0] == b);
        }
    } else {
        assert(forall|x: u8| #[trigger] (0xC0u8 | x) >= 0x80) by (bit_vector);
        assert(forall|x: u8| #[trigger] (0xE0u8 | x) >= 0x80) by (bit_vector);
        assert(forall|x: u8| #[trigger] (0xF0u8 | x) >= 0x80) by (bit_vector);
        assert(forall|x: u8| #[trigger] (0x80u8 | x) >= 0x80) by (bit_vector);
        assert forall|i: int| 0 <= i < e.len() implies #[trigger] e[i] >= 128 by {}
        if e.contains(b) {
            let i = choose|i: int| 0 <= i < e.len() && e[i] == b;
            assert(e[i] >= 128);
        }
    }
}

/// The UTF-8 encoding of a text holds an ASCII byte exactly when the text holds that
/// character.
pub proof fn lemma_utf8_ascii_byte(s: Seq<char>, b: u8)
    requires
        b < 128,
    ensures
        encode_utf8(s).contains(b) <==> exists|i: int| 0 <= i < s.len() && s[i] as u32 == b as u32,
    decreases s.len(),
{
    if s.len() > 0 {
        lemma_utf8_ascii_byte(s.drop_first(), b);
        lemma_scalar_ascii_byte(s[0], b);
        let head = encode_scalar(s[0] as u32);
        let tail = encode_utf8(s.drop_first());
        assert(encode_utf8(s) == head + tail);
        if encode_utf8(s).contains(b) {
            let k = choose|k: int| 0 <= k < encode_utf8(s).len() && encode_utf8(s)[k] == b;
            if k < head.len() {
                assert(head[k] == b);
            } else {
                assert(tail[k - head.len()] == b);
                let j = choose|j: int| 0 <= j < s.drop_first().len() && s.drop_first()[j] as u32
                    == b as u32;
                assert(s[j + 1] == s.drop_first()[j]);
            }
        }
        if exists|i: int| 0 <= i < s.len() && s[i] as u32 == b as u32 {
            let i = choose|i: int| 0 <= i < s.len() && s[i] as u32 == b as u32;
            if i == 0 {
                let h = choose|h: int| 0 <= h < head.len() && head[h] == b;
                assert((head + tail)[h] == b);
            } else {
                assert(s.drop_first()[i - 1] == s[i]);
                let t = choose|t: int| 0 <= t < tail.len() && tail[t] == b;
                assert((head + tail)[head.len() + t] == b);
            }
        }
    }
}

/// Whether a text holds the character `@`.
pub open spec fn has_at_sign(s: Seq<char>) -> bool {
    exists|i: int| 0 <= i < s.len() && s[i] as u32 == '@' as u32
}

/// An account about to be stored.
#[derive(Debug, Clone)]
pub struct NewUser {
    pub email: String,
}

/// The account that registering `email` stores: the address may be at most 254 bytes long
/// and must hold an `@`.
pub fn add_user(email: &str) -> (res: Result<NewUser, ErrorKind>)
    ensures
        email.spec_bytes().len() > MAX_EMAIL_BYTES ==> res == Err::<NewUser, ErrorKind>(
            ErrorKind::EmailAddressTooLong,
        ),
        email.spec_bytes().len() <= MAX_EMAIL_BYTES && !has_at_sign(email@) ==> res == Err::<
            NewUser,
            ErrorKind,
        >(ErrorKind::EmailAddressNotValid),
        email.spec_bytes().len() <= MAX_EMAIL_BYTES && has_at_sign(email@) ==> (res matches Ok(u)
            && u.email@ == email@),
{
    let bytes = email.as_bytes();
    if bytes.len() > MAX_EMAIL_BYTES {
        return Err(ErrorKind::EmailAddressTooLong);
    }
    let mut found = false;
    for i in 0..bytes.len()
        invariant
            bytes@ == email.spec_bytes(),
            found <==> exists|j: int| 0 <= j < i && bytes@[j] == 64u8,
    {
        if bytes[i] == 64 {
            found = true;
        }
    }
    proof {
        lemma_utf8_ascii_byte(email@, 64u8);
        assert(('@' as u32) == 64);
        if found {
            let j = choose|j: int| 0 <= j < bytes@.len() && bytes@[j] == 64u8;
            assert(encode_utf8(email@).contains(64u8));
        }
        if has_at_sign(email@) {
            assert(encode_utf8(email@).contains(64u8));
        }
    }
    if !found {
        return Err(ErrorKind::EmailAddressNotValid);
    }
    Ok(NewUser { email: email.to_owned() })
}

/// Checks a new password's length, in bytes: at least 8 and at most 1024.
pub fn check_password_length(password: &str) -> (res: Result<(), ErrorKind>)
    ensures
        password.spec_bytes().len() < MIN_PASSWORD_BYTES ==> res == Err::<(), ErrorKind>(
            ErrorKind::PasswordTooShort,
        ),
        password.spec_bytes().len() > MAX_PASSWORD_BYTES ==> res == Err::<(), ErrorKind>(
            ErrorKind::PasswordTooLong,
        ),
        MIN_PASSWORD_BYTES <= password.spec_bytes().len() <= MAX_PASSWORD_BYTES ==> res is Ok,
{
    let n = password.as_bytes().len();
    if n < MIN_PASSWORD_BYTES {
        Err(ErrorKind::PasswordTooShort)
    } else if n > MAX_PASSWORD_BYTES {
        Err(ErrorKind::PasswordTooLong)
    } else {
        Ok(())
    }
}

/// What a login attempt comes to once the user has been looked up: an unknown address is
/// no login, another failure is passed on, and a known user's password is checked next.
pub enum AuthStep<P> {
    CheckPassword(User, P),
    Done(Result<Option<User>, ErrorKind>),
}

/// Takes the result of looking up the user and its stored password.
pub fn auth_user_lookup<P>(lookup: Result<(User, P), ErrorKind>) -> (res: AuthStep<P>)
    ensures
        lookup matches Ok((u, p)) ==> res == AuthStep::CheckPassword(u, p),
        lookup matches Err(ErrorKind::NoSuchUser(_)) ==> res == AuthStep::<P>::Done(
            Ok::<Option<User>, ErrorKind>(None),
        ),
        lookup matches Err(e) ==> !(e is NoSuchUser) ==> res == AuthStep::<P>::Done(
            Err::<Option<User>, ErrorKind>(e),
        ),
{
    match lookup {
        Ok((u, p)) => AuthStep::CheckPassword(u, p),
        Err(ErrorKind::NoSuchUser(_)) => AuthStep::Done(Ok(None)),
        Err(e) => AuthStep::Done(Err(e)),
    }
}

/// Takes the result of checking `user`'s password: a wrong password is no login, another
/// failure is passed on, and a right one logs the user in.
pub fn auth_user(user: User, check: Result<(), ErrorKind>) -> (res: Result<Option<User>, ErrorKind>)
    ensures
        check is Ok ==> res == Ok::<Option<User>, ErrorKind>(Some(user)),
        check == Err::<(), ErrorKind>(ErrorKind::PasswordDoesntMatch) ==> res == Ok::<
            Option<User>,
            ErrorKind,
        >(None),
        check matches Err(e) ==> e != ErrorKind::PasswordDoesntMatch ==> res == Err::<
            Option<User>,
            ErrorKind,
        >(e),
{
    match check {
        Ok(()) => Ok(Some(user)),
        Err(ErrorKind::PasswordDoesntMatch) => Ok(None),
        Err(e) => Err(e),
    }
}

/// The message when a password is set for an account that has one.
pub open spec fn password_already_set_message() -> Seq<char> {
    "Password already set!"@
}

/// Whether a password may be set for an account: only if it has none yet.
pub fn set_password<P>(existing: &Option<P>) -> (res: Result<(), ErrorKind>)
    ensures
        existing is None ==> res is Ok,
        existing is Some ==> (res matches Err(ErrorKind::Msg(m)) && m@ == password_already_set_message()),
{
    match existing {
        None => Ok(()),
        Some(_) => Err(ErrorKind::Msg(String::from_str("Password already set!"))),
    }
}

/// Whether membership in `group_name` has to be looked up: the empty group name admits
/// everyone.
pub fn check_user_group(group_name: &str) -> (needs_lookup: bool)
    ensures
        needs_lookup == (group_name@.len() > 0),
{
    !group_name.is_empty()
}

/// What a request to change the password does once the old password was checked.
pub enum PasswordChangeStep {
    /// The old password was right: the new one is stored.
    Change,
    /// The old password was wrong, or its user unknown: the request is refused.
    Refuse,
    /// Checking failed otherwise.
    Fail(ErrorKind),
}

/// Decides a password change from the result of checking the old password with
/// `auth_user`: only a right old password lets the change go on.
pub fn old_password_check(auth: Result<Option<User>, ErrorKind>) -> (res: PasswordChangeStep)
    ensures
        auth matches Ok(Some(_)) ==> res == PasswordChangeStep::Change,
        auth matches Ok(None) ==> res == PasswordChangeStep::Refuse,
        auth == Err::<Option<User>, ErrorKind>(ErrorKind::AuthError) ==> res == PasswordChangeStep::Refuse,
        auth matches Err(e) ==> e != ErrorKind::AuthError ==> res == PasswordChangeStep::Fail(e),
{
    match auth {
        Ok(Some(_)) => PasswordChangeStep::Change,
        Ok(None) => PasswordChangeStep::Refuse,
        Err(ErrorKind::AuthError) => PasswordChangeStep::Refuse,
        Err(e) => PasswordChangeStep::Fail(e),
    }
}

} // verus!
