use vstd::prelude::*;

verus! {

/// The kinds of failure the backend reports.
#[derive(Debug, Clone, PartialEq, Eq)]
pub enum ErrorKind {
    /// Provided input is invalid.
    InvalidInput,
    /// No user with the given e-mail address exists.
    NoSuchUser(String),
    /// An e-mail address longer than 254 bytes.
    EmailAddressTooLong,
    /// An e-mail address without the character '@'.
    EmailAddressNotValid,
    /// A password shorter than 8 bytes.
    PasswordTooShort,
    /// A password longer than 1024 bytes.
    PasswordTooLong,
    /// The password does not match the stored hash.
    PasswordDoesntMatch,
    /// The user could not be authenticated.
    AuthError,
    /// A malformed session ID.
    BadSessId,
    /// The session does not exist.
    NoSuchSess,
    /// An HTTP form could not be parsed.
    FormParseError,
    /// The requested file does not exist.
    FileNotFound,
    /// The database contents are inconsistent with what they should be.
    DatabaseOdd,
    /// A decimal integer could not be parsed.
    ParseIntError,
    /// Any other failure, with its message.
    Msg(String),
}

/// How a database read failed: no matching row, or something else.
#[derive(Debug, Clone)]
pub enum DbError {
    NotFound,
    Other(String),
}

/// The failure of a read of one row: a missing row is `missing`; any other failure is
/// reported with `context`.
pub fn lookup_failure(e: DbError, missing: ErrorKind, context: &str) -> (res: ErrorKind)
    ensures
        e is NotFound ==> res == missing,
        e is Other ==> (res matches ErrorKind::Msg(m) && m@ == context@),
{
    match e {
        DbError::NotFound => missing,
        DbError::Other(_) => ErrorKind::Msg(context.to_owned()),
    }
}

} // verus!
