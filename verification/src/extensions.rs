//! Extensions that fit a file's content, and the test of a path against them.
use vstd::prelude::*;
use vstd::string::StringExecFns;
use crate::text::{eq_ignore_ascii_case, has_no_separator, lower_ascii, same_text, separator_free};
use crate::trusted::{extension_of, path_extension, path_with_extension, push_char, with_extension};

verus! {

/// The extensions that go with a MIME type; none for a type that is not
/// listed.
pub open spec fn extensions_of_mime_type(mime_type: Seq<char>) -> Seq<Seq<char>> {
    if mime_type == "application/pdf"@ {
        seq!["pdf"@]
    } else if mime_type == "image/jpeg"@ {
        seq!["jpeg"@, "jpg"@]
    } else if mime_type == "image/png"@ {
        seq!["png"@]
    } else if mime_type == "text/csv"@ {
        seq!["csv"@]
    } else if mime_type == "text/html"@ {
        seq!["html"@, "htm"@]
    } else if mime_type == "text/x-script.python"@ {
        seq!["py"@, "pyw"@]
    } else {
        Seq::empty()
    }
}

/// The extensions that go with a description of the content in words; none
/// for a description that is not listed.
pub open spec fn extensions_of_description(description: Seq<char>) -> Seq<Seq<char>> {
    if description == "Apache Parquet"@ {
        seq!["parquet"@, "pq"@]
    } else {
        Seq::empty()
    }
}

/// A list that holds `first` alone.
fn one(first: &str) -> (list: Vec<String>)
    ensures
        list.deep_view() == seq![first@],
{
    let mut list: Vec<String> = Vec::new();
    list.push(String::from_str(first));
    assert(list.deep_view() =~= seq![first@]);
    list
}

/// A list that holds `first`, then `second`.
fn two(first: &str, second: &str) -> (list: Vec<String>)
    ensures
        list.deep_view() == seq![first@, second@],
{
    let mut list: Vec<String> = Vec::new();
    list.push(String::from_str(first));
    list.push(String::from_str(second));
    assert(list.deep_view() =~= seq![first@, second@]);
    list
}

/// The extensions that fit a file whose content was classified as
/// `mime_type` and described as `description`: those of the MIME type first,
/// then those of the description.
pub fn find_extensions_from_content(mime_type: &str, description: &str) -> (extensions: Vec<
    String,
>)
    ensures
        extensions.deep_view() == extensions_of_mime_type(mime_type@) + extensions_of_description(
            description@,
        ),
{
    let mut extensions = if same_text(mime_type, "application/pdf") {
        one("pdf")
    } else if same_text(mime_type, "image/jpeg") {
        two("jpeg", "jpg")
    } else if same_text(mime_type, "image/png") {
        one("png")
    } else if same_text(mime_type, "text/csv") {
        one("csv")
    } else if same_text(mime_type, "text/html") {
        two("html", "htm")
    } else if same_text(mime_type, "text/x-script.python") {
        two("py", "pyw")
    } else {
        Vec::new()
    };
    let mut description_based = if same_text(description, "Apache Parquet") {
        two("parquet", "pq")
    } else {
        Vec::new()
    };
    let ghost first = extensions.deep_view();
    let ghost second = description_based.deep_view();
    assert(first =~= extensions_of_mime_type(mime_type@));
    assert(second =~= extensions_of_description(description@));
    extensions.append(&mut description_based);
    assert(extensions.deep_view() =~= first + second);
    extensions
}

/// `candidates` holds `extension`, capitals and small letters of ASCII
/// taken as the same.
pub open spec fn listed(extension: Seq<char>, candidates: Seq<Seq<char>>) -> bool {
    exists|i: int|
        0 <= i < candidates.len() && lower_ascii(#[trigger] candidates[i]) == lower_ascii(
            extension,
        )
}

/// A file with the extension `current` may keep it, given the extensions
/// that fit its content: always when there are none, else when `current` is
/// one of them.
pub open spec fn extension_accepted(
    current: Option<Seq<char>>,
    candidates: Seq<Seq<char>>,
) -> bool {
    candidates.len() == 0 || (current is Some && listed(current.unwrap(), candidates))
}

/// Tells whether the extension `current` of a file is one of
/// `possible_extensions`, or nothing is known of the content.
pub fn extension_matches(current: &Option<String>, possible_extensions: &Vec<String>) -> (ok:
    bool)
    ensures
        ok == extension_accepted(current.deep_view(), possible_extensions.deep_view()),
{
    if possible_extensions.len() == 0 {
        return true;
    }
    match current {
        None => false,
        Some(extension) => {
            let ghost candidates = possible_extensions.deep_view();
            let mut i: usize = 0;
            while i < possible_extensions.len()
                invariant
                    i <= possible_extensions.len(),
                    candidates == possible_extensions.deep_view(),
                    current.deep_view() == Some(extension@),
                    forall|j: int|
                        0 <= j < i ==> lower_ascii(#[trigger] candidates[j]) != lower_ascii(
                            extension@,
                        ),
                decreases possible_extensions.len() - i,
            {
                assert(candidates[i as int] == possible_extensions@[i as int]@);
                if eq_ignore_ascii_case(possible_extensions[i].as_str(), extension.as_str()) {
                    assert(lower_ascii(candidates[i as int]) == lower_ascii(extension@));
                    return true;
                }
                i += 1;
            }
            false
        },
    }
}

/// Tells whether the extension of `path` fits the content of the file, as
/// given by `possible_extensions`. With no possible extension every path
/// passes; with some, a path without extension fails.
pub fn has_correct_extension(path: &str, possible_extensions: &Vec<String>) -> (ok: bool)
    ensures
        ok == extension_accepted(path_extension(path@), possible_extensions.deep_view()),
{
    let current = extension_of(path);
    extension_matches(&current, possible_extensions)
}

/// The extension to give a file, or `None` where it may keep the one it
/// has. A file whose extension is not accepted gets the first candidate; in
/// append mode that candidate follows the extension the file has, with a dot
/// between them.
pub open spec fn new_extension(
    current: Option<Seq<char>>,
    candidates: Seq<Seq<char>>,
    append: bool,
) -> Option<Seq<char>> {
    if extension_accepted(current, candidates) {
        None
    } else if append && current is Some {
        Some(current.unwrap() + seq!['.'] + candidates[0])
    } else {
        Some(candidates[0])
    }
}

/// Chooses the extension for a file that has the extension `current` and
/// whose content fits `possible_extensions`.
pub fn replacement_extension(
    current: &Option<String>,
    possible_extensions: &Vec<String>,
    append: bool,
) -> (extension: Option<String>)
    ensures
        extension.deep_view() == new_extension(
            current.deep_view(),
            possible_extensions.deep_view(),
            append,
        ),
{
    if extension_matches(current, possible_extensions) {
        return None;
    }
    assert(possible_extensions.deep_view()[0] == possible_extensions@[0]@);
    let first = possible_extensions[0].as_str();
    match current {
        Some(old_extension) if append => {
            let mut extension = old_extension.clone();
            push_char(&mut extension, '.');
            extension.append(first);
            Some(extension)
        },
        _ => Some(String::from_str(first)),
    }
}

/// The path that repairs the extension of `path` for a content that fits
/// `candidates`. The path stays as it is where its extension is accepted,
/// and where the extension to set would hold a path separator.
pub open spec fn corrected_path(path: Seq<char>, candidates: Seq<Seq<char>>, append: bool) -> Seq<
    char,
> {
    match new_extension(path_extension(path), candidates, append) {
        Some(extension) if separator_free(extension) => path_with_extension(path, extension),
        _ => path,
    }
}

/// Repairs the extension of `path` for a content that fits
/// `possible_extensions`.
pub fn fix_extension(path: &str, possible_extensions: &Vec<String>, append: bool) -> (fixed:
    String)
    ensures
        fixed@ == corrected_path(path@, possible_extensions.deep_view(), append),
{
    let current = extension_of(path);
    match replacement_extension(&current, possible_extensions, append) {
        Some(extension) => {
            if has_no_separator(extension.as_str()) {
                with_extension(path, extension.as_str())
            } else {
                String::from_str(path)
            }
        },
        None => String::from_str(path),
    }
}

} // verus!
