//! Text transformations computed by outside crates: regular-expression replacement,
//! Unicode normalization, RFC 3339 time stamps, and the extension of a file name.
use vstd::prelude::*;
use unicode_normalization::UnicodeNormalization;

verus! {

/// What `regex::Regex::new(pattern)` followed by `replace_all(text, replacement)` gives:
/// `None` when the pattern is refused.
pub uninterp spec fn regex_replace_all_result(pattern: Seq<char>, text: Seq<char>, replacement: Seq<char>) -> Option<Seq<char>>;

/// Calls `regex::Regex::new(pattern)` and, if the pattern compiles, `replace_all(text,
/// replacement)`, which replaces every non-overlapping match, expanding `$name` group
/// references in `replacement`. Only that the result is a function of the three texts is
/// stated.
#[verifier::external_body]
pub(crate) fn regex_replace_all(pattern: &str, text: &str, replacement: &str) -> (res: Option<String>)
    ensures
        res is Some <==> regex_replace_all_result(pattern@, text@, replacement@) is Some,
        res matches Some(s) ==> s@ == regex_replace_all_result(pattern@, text@, replacement@)->0,
{
    match regex::Regex::new(pattern) {
        Ok(re) => Some(re.replace_all(text, replacement).into_owned()),
        Err(_) => None,
    }
}

/// The Unicode Normalization Form C of a text, as `unicode_normalization` computes it.
pub uninterp spec fn nfc_text(s: Seq<char>) -> Seq<char>;

/// Calls `unicode_normalization::UnicodeNormalization::nfc` (canonical decomposition
/// followed by canonical composition) and collects the characters. Only that the result is
/// a function of the text is stated.
#[verifier::external_body]
pub(crate) fn nfc(s: &str) -> (res: String)
    ensures
        res@ == nfc_text(s@),
{
    s.nfc().collect::<String>()
}

/// The RFC 3339 text that `chrono` gives for the UTC instant `ns` nanoseconds after the
/// UNIX epoch.
pub uninterp spec fn rfc3339_text(ns: i64) -> Seq<char>;

/// Calls `chrono::DateTime::<Utc>::from_timestamp_nanos`, which represents every `i64`
/// number of nanoseconds, and `to_rfc3339`. Only that the result is a function of the
/// instant is stated.
#[verifier::external_body]
pub(crate) fn rfc3339_of_nanos(ns: i64) -> (res: String)
    ensures
        res@ == rfc3339_text(ns),
{
    chrono::DateTime::<chrono::Utc>::from_timestamp_nanos(ns).to_rfc3339()
}

/// The extension of a file name as `std::path::Path::extension` finds it, if it has one
/// that is valid UTF-8.
pub uninterp spec fn path_extension(name: Seq<char>) -> Option<Seq<char>>;

/// Calls `std::path::Path::extension` on `name` and reads it as UTF-8: the part of the last
/// component after its last `.`, if that component has a `.` not at its start. Only that
/// the result is a function of the name is stated.
#[verifier::external_body]
pub(crate) fn file_extension(name: &str) -> (res: Option<String>)
    ensures
        res is Some <==> path_extension(name@) is Some,
        res matches Some(s) ==> s@ == path_extension(name@)->0,
{
    match std::path::Path::new(name).extension().and_then(|e| e.to_str()) {
        Some(e) => Some(e.to_string()),
        None => None,
    }
}

} // verus!
