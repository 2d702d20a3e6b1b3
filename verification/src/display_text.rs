//! Human-readable text of native paths.
use vstd::prelude::*;
use vstd::utf8::{decode_utf8, valid_utf8};

use crate::local_file_error::opt_bytes;

verus! {

/// The text shown for a native path: its bytes decoded as UTF-8, with each
/// ill-formed sequence replaced by U+FFFD.
pub uninterp spec fn spec_display_path(bytes: Seq<u8>) -> Seq<char>;

/// Renders native path bytes as text.
///
/// Wraps `String::from_utf8_lossy`, which returns the decoded text unchanged
/// when the bytes are valid UTF-8 and otherwise replaces ill-formed
/// sequences; the replacement itself is left unstated beyond its name.
#[verifier::external_body]
pub(crate) fn display_path(bytes: &[u8]) -> (text: String)
    ensures
        text@ == spec_display_path(bytes@),
        valid_utf8(bytes@) ==> text@ == decode_utf8(bytes@),
{
    String::from_utf8_lossy(bytes).into_owned()
}

/// Converts valid UTF-8 bytes into an owned string.
///
/// Wraps `String::from_utf8`, which fails exactly when the bytes are not
/// well-formed UTF-8; on success the string holds the decoded characters.
#[verifier::external_body]
pub(crate) fn utf8_string(bytes: Vec<u8>) -> (res: Option<String>)
    ensures
        res is Some <==> valid_utf8(bytes@),
        res matches Some(s) ==> s@ == decode_utf8(bytes@),
{
    String::from_utf8(bytes).ok()
}

/// Concatenates two strings.
pub fn concat_text(first: String, second: &str) -> (text: String)
    ensures
        text@ == first@ + second@,
{
    let mut text = first;
    text.append(second);
    text
}

/// `prefix`, the value and `suffix` when there is a value; nothing
/// otherwise.
pub open spec fn optional_part(prefix: Seq<char>, value: Option<Seq<char>>, suffix: Seq<char>) -> Seq<char> {
    match value {
        Some(v) => prefix + v + suffix,
        None => Seq::empty(),
    }
}

/// The displayed text of an optional native path.
pub open spec fn display_opt_path(path: Option<Seq<u8>>) -> Option<Seq<char>> {
    match path {
        Some(p) => Some(spec_display_path(p)),
        None => None,
    }
}

/// Appends `prefix`, the displayed path and `suffix` when there is a path.
pub fn push_optional_path(text: String, prefix: &str, path: &Option<Vec<u8>>, suffix: &str) -> (out: String)
    ensures
        out@ == text@ + optional_part(prefix@, display_opt_path(opt_bytes(*path)), suffix@),
{
    match path {
        Some(p) => {
            let shown = display_path(p.as_slice());
            let out = concat_text(concat_text(concat_text(text, prefix), shown.as_str()), suffix);
            assert(out@ =~= text@ + (prefix@ + shown@ + suffix@));
            out
        },
        None => {
            assert(text@ + Seq::<char>::empty() =~= text@);
            text
        },
    }
}

/// Appends `prefix`, the value and `suffix` when there is a value.
pub fn push_optional_text(text: String, prefix: &str, value: Option<&str>, suffix: &str) -> (out: String)
    ensures
        out@ == text@ + optional_part(
            prefix@,
            match value {
                Some(v) => Some(v@),
                None => None,
            },
            suffix@,
        ),
{
    match value {
        Some(v) => {
            let out = concat_text(concat_text(concat_text(text, prefix), v), suffix);
            assert(out@ =~= text@ + (prefix@ + v@ + suffix@));
            out
        },
        None => {
            assert(text@ + Seq::<char>::empty() =~= text@);
            text
        },
    }
}

} // verus!
