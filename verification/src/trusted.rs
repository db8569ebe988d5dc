//! The calls that leave this crate: the standard library where `vstd` gives
//! no specification, and the `regex` and `unidecode` crates.
//!
//! Nothing in this file is proved. Each function states, as its contract,
//! what the called function is documented to do; where that is too large to
//! write down, the result gets a name and the contract says no more than
//! that the call computes it.
use vstd::prelude::*;
use crate::text::separator_free;

verus! {

/// Appends one character to a string.
///
/// Trusted: the body is `String::push`, which adds `c` at the end of the
/// string and leaves what was there before untouched.
#[verifier::external_body]
pub(crate) fn push_char(s: &mut String, c: char)
    ensures
        final(s)@ == old(s)@.push(c),
{
    s.push(c);
}

/// What `str::to_uppercase` returns for the text `s`.
pub uninterp spec fn uppercase_text(s: Seq<char>) -> Seq<char>;

/// Upper case of `s` by the Unicode rules.
///
/// Trusted: the body is `str::to_uppercase`; the contract only names its
/// result.
#[verifier::external_body]
pub(crate) fn to_uppercase(s: &str) -> (upper: String)
    ensures
        upper@ == uppercase_text(s@),
{
    s.to_uppercase()
}

/// What `str::to_lowercase` returns for the text `s`.
pub uninterp spec fn lowercase_text(s: Seq<char>) -> Seq<char>;

/// Lower case of `s` by the Unicode rules.
///
/// Trusted: the body is `str::to_lowercase`; the contract only names its
/// result.
#[verifier::external_body]
pub(crate) fn to_lowercase(s: &str) -> (lower: String)
    ensures
        lower@ == lowercase_text(s@),
{
    s.to_lowercase()
}

/// What `unidecode::unidecode` returns for the text `s`.
pub uninterp spec fn transliterated_text(s: Seq<char>) -> Seq<char>;

/// ASCII transliteration of `s`.
///
/// Trusted: the body is `unidecode::unidecode`, which maps every character
/// through a fixed table and joins the pieces; the contract only names its
/// result.
#[verifier::external_body]
pub(crate) fn transliterate(s: &str) -> (ascii: String)
    ensures
        ascii@ == transliterated_text(s@),
{
    unidecode::unidecode(s)
}

/// Whether `regex::Regex::new` accepts `pattern`.
pub uninterp spec fn pattern_compiles(pattern: Seq<char>) -> bool;

/// Tells whether `pattern` is a regular expression that the engine accepts.
///
/// Trusted: the body is `regex::Regex::new`, which returns an error for a
/// pattern that does not parse or that compiles to a program over the
/// engine's default size limit; the contract only names that outcome.
#[verifier::external_body]
pub(crate) fn compiles(pattern: &str) -> (ok: bool)
    ensures
        ok == pattern_compiles(pattern@),
{
    regex::Regex::new(pattern).is_ok()
}

/// What `regex::Regex::replace_all` returns when the expression compiled
/// from `pattern` is applied to `text` with the replacement `replacement`.
pub uninterp spec fn pattern_replaced(
    pattern: Seq<char>,
    text: Seq<char>,
    replacement: Seq<char>,
) -> Seq<char>;

/// Replaces every non-overlapping match of `pattern` in `text`.
///
/// Trusted: the body compiles `pattern` with `regex::Regex::new` and calls
/// `regex::Regex::replace_all`, which walks the matches from left to right
/// and expands `$name` references in `replacement`; the contract only names
/// its result. A pattern that does not compile is left out by `requires`.
#[verifier::external_body]
pub(crate) fn replace_matches(pattern: &str, text: &str, replacement: &str) -> (replaced: String)
    requires
        pattern_compiles(pattern@),
    ensures
        replaced@ == pattern_replaced(pattern@, text@, replacement@),
{
    regex::Regex::new(pattern).unwrap().replace_all(text, replacement).into_owned()
}

/// What `Path::extension` returns for the path written as `path`, by the
/// path rules of the platform that the crate is built for.
pub uninterp spec fn path_extension(path: Seq<char>) -> Option<Seq<char>>;

/// The extension of the last component of `path`, without its dot.
///
/// Trusted: the body is `std::path::Path::extension`; the contract only
/// names its result. The path is valid Unicode, so its extension is too.
#[verifier::external_body]
pub(crate) fn extension_of(path: &str) -> (extension: Option<String>)
    ensures
        extension.deep_view() == path_extension(path@),
{
    match std::path::Path::new(path).extension() {
        Some(extension) => Some(extension.to_string_lossy().into_owned()),
        None => None,
    }
}

/// What is left of the path written as `path` after
/// `PathBuf::set_extension` with `extension`, by the path rules of the
/// platform that the crate is built for.
pub uninterp spec fn path_with_extension(path: Seq<char>, extension: Seq<char>) -> Seq<char>;

/// `path` with the extension of its last component set to `extension`.
///
/// Trusted: the body is `std::path::PathBuf::set_extension`; the contract
/// only names its result. That function panics on an extension that holds a
/// path separator, so `requires` leaves those out.
#[verifier::external_body]
pub(crate) fn with_extension(path: &str, extension: &str) -> (renamed: String)
    requires
        separator_free(extension@),
    ensures
        renamed@ == path_with_extension(path@, extension@),
{
    let mut buf = std::path::PathBuf::from(path);
    buf.set_extension(extension);
    buf.to_string_lossy().into_owned()
}

} // verus!
