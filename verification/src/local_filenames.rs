//! Portable, lexical, and random file-name helpers.
//!
//! Native paths are Unix byte sequences here; the path-based helpers follow
//! the component rules of `std::path::Path` on Unix, including its handling
//! of dotfiles. Helpers that return file-name text return UTF-8 strings and
//! report components that are not valid UTF-8 as `None`.
use vstd::prelude::*;
use vstd::utf8::{decode_utf8, encode_utf8, valid_utf8};

use crate::display_text::{concat_text, utf8_string};
use crate::local_file_error::{
    spec_bare_error, spec_io_error, LocalFileError, LocalFileErrorKind, LocalFileErrorView, LocalFileOperation,
    LocalIoError, LocalIoErrorKind, LocalIoErrorView, LocalResult,
};
use crate::local_path_codec::{bytes_equal, is_valid_utf8};
use crate::path_model::{components, copy_bytes, dot, scan_path, views};

verus! {

broadcast use vstd::seq::group_seq_axioms;

/// File-name utility namespace; it has no values.
pub struct LocalFilenames {
    _private: (),
}

// ---------------------------------------------------------------------------
// Portable names
// ---------------------------------------------------------------------------

/// Whether a character may not appear in a portable file name: control
/// characters (C0, DEL and C1), path separators, and the characters that
/// Windows reserves.
pub open spec fn is_forbidden_char(c: char) -> bool {
    ||| (c as u32) <= 0x1f
    ||| (0x7f <= (c as u32) && (c as u32) <= 0x9f)
    ||| c == '/'
    ||| c == '\\'
    ||| c == '<'
    ||| c == '>'
    ||| c == ':'
    ||| c == '"'
    ||| c == '|'
    ||| c == '?'
    ||| c == '*'
}

/// Whether `c` is the ASCII letter `upper` in either case.
pub open spec fn ascii_letter_ci(c: char, upper: char) -> bool {
    c == upper || (c as u32) == (upper as u32) + 32
}

/// Whether a character is a Windows device-name digit: `1` to `9`, or the
/// superscript digits one, two and three.
pub open spec fn is_device_digit(c: char) -> bool {
    ('1' <= c && c <= '9') || c == '\u{b9}' || c == '\u{b2}' || c == '\u{b3}'
}

/// Whether the first three characters of `s` are the ASCII letters `a`, `b`,
/// `c` in either case.
pub open spec fn starts_with_letters_ci(s: Seq<char>, a: char, b: char, c: char) -> bool {
    s.len() >= 3 && ascii_letter_ci(s[0], a) && ascii_letter_ci(s[1], b) && ascii_letter_ci(s[2], c)
}

/// Whether a file-name stem is a Windows reserved device name: `CON`, `PRN`,
/// `AUX`, `NUL`, or `COM` or `LPT` followed by one device-name digit, in any
/// ASCII case.
pub open spec fn is_reserved_device_name(stem: Seq<char>) -> bool {
    ||| (stem.len() == 3 && (starts_with_letters_ci(stem, 'C', 'O', 'N') || starts_with_letters_ci(
        stem,
        'P',
        'R',
        'N',
    ) || starts_with_letters_ci(stem, 'A', 'U', 'X') || starts_with_letters_ci(stem, 'N', 'U', 'L')))
    ||| (stem.len() == 4 && (starts_with_letters_ci(stem, 'C', 'O', 'M') || starts_with_letters_ci(
        stem,
        'L',
        'P',
        'T',
    )) && is_device_digit(stem[3]))
}

/// The index of the first `c` in `s`, or the length of `s` when there is
/// none.
pub open spec fn first_index_of(s: Seq<char>, c: char) -> int
    decreases s.len(),
{
    if s.len() == 0 {
        0
    } else {
        let r = first_index_of(s.drop_last(), c);
        if r < s.len() - 1 {
            r
        } else if s.last() == c {
            s.len() - 1
        } else {
            s.len() as int
        }
    }
}

/// The first rule that a name breaks, as the message that reports it, or
/// `None` for a portable name. The rules are checked in order: non-empty,
/// neither `.` nor `..`, at most 255 UTF-8 bytes, no forbidden character,
/// no trailing space or dot, and no reserved device name before the first
/// dot.
pub open spec fn spec_portable_name_problem(name: Seq<char>) -> Option<Seq<char>> {
    if name.len() == 0 {
        Some("file name must not be empty"@)
    } else if name == seq!['.'] || name == seq!['.', '.'] {
        Some("file name must not be `.` or `..`"@)
    } else if encode_utf8(name).len() > 255 {
        Some("file name must be at most 255 UTF-8 bytes"@)
    } else if exists|i: int| 0 <= i < name.len() && is_forbidden_char(#[trigger] name[i]) {
        Some("file name contains a forbidden character"@)
    } else if name.last() == ' ' || name.last() == '.' {
        Some("file name must not end with a space or dot"@)
    } else if is_reserved_device_name(name.take(first_index_of(name, '.'))) {
        Some("file name uses a reserved device name"@)
    } else {
        None
    }
}

/// The error that rejects an invalid input with `message`.
pub open spec fn invalid_input(message: Seq<char>) -> LocalIoErrorView {
    LocalIoErrorView { kind: LocalIoErrorKind::InvalidInput, message }
}

fn is_forbidden_char_exec(c: char) -> (res: bool)
    ensures
        res == is_forbidden_char(c),
{
    let v = c as u32;
    v <= 0x1f || (0x7f <= v && v <= 0x9f) || c == '/' || c == '\\' || c == '<' || c == '>' || c
        == ':' || c == '"' || c == '|' || c == '?' || c == '*'
}

fn ascii_letter_ci_exec(c: char, upper: char) -> (res: bool)
    requires
        'A' <= upper <= 'Z',
    ensures
        res == ascii_letter_ci(c, upper),
{
    c == upper || (c as u32) == (upper as u32) + 32
}

fn letters_ci_exec(name: &str, a: char, b: char, c: char) -> (res: bool)
    requires
        name@.len() >= 3,
        'A' <= a <= 'Z',
        'A' <= b <= 'Z',
        'A' <= c <= 'Z',
    ensures
        res == starts_with_letters_ci(name@, a, b, c),
{
    ascii_letter_ci_exec(name.get_char(0), a) && ascii_letter_ci_exec(name.get_char(1), b)
        && ascii_letter_ci_exec(name.get_char(2), c)
}

fn is_reserved_device_name_exec(stem: &str) -> (res: bool)
    ensures
        res == is_reserved_device_name(stem@),
{
    let n = stem.unicode_len();
    if n == 3 {
        letters_ci_exec(stem, 'C', 'O', 'N') || letters_ci_exec(stem, 'P', 'R', 'N')
            || letters_ci_exec(stem, 'A', 'U', 'X') || letters_ci_exec(stem, 'N', 'U', 'L')
    } else if n == 4 {
        let d = stem.get_char(3);
        (letters_ci_exec(stem, 'C', 'O', 'M') || letters_ci_exec(stem, 'L', 'P', 'T')) && (('1'
            <= d && d <= '9') || d == '\u{b9}' || d == '\u{b2}' || d == '\u{b3}')
    } else {
        false
    }
}

/// The index of the first `c` in `text`, or its length when there is none.
pub fn first_index_of_exec(text: &str, c: char) -> (index: usize)
    ensures
        index == first_index_of(text@, c),
{
    let n = text.unicode_len();
    let mut r: usize = 0;
    let mut i: usize = 0;
    assert(text@.take(0) =~= Seq::<char>::empty());
    while i < n
        invariant
            n == text@.len(),
            i <= n,
            r <= i,
            r == first_index_of(text@.take(i as int), c),
        decreases n - i,
    {
        assert(text@.take(i + 1).drop_last() =~= text@.take(i as int));
        let ch = text.get_char(i);
        if r == i && ch != c {
            r = i + 1;
        }
        i = i + 1;
    }
    assert(text@.take(n as int) =~= text@);
    r
}

impl LocalFilenames {
    /// Validates that `name` is a portable single-component file name.
    ///
    /// Fails with kind `InvalidInput`, and the message of the first rule
    /// that the name breaks, exactly when it is not portable.
    pub fn validate_portable_file_name(name: &str) -> (res: Result<(), LocalIoError>)
        ensures
            match spec_portable_name_problem(name@) {
                None => res is Ok,
                Some(message) => res matches Err(e) && e@ == invalid_input(message),
            },
    {
        let n = name.unicode_len();
        if n == 0 {
            return Err(LocalIoError::new(LocalIoErrorKind::InvalidInput, "file name must not be empty"));
        }
        let first = name.get_char(0);
        if (n == 1 && first == '.') || (n == 2 && first == '.' && name.get_char(1) == '.') {
            assert(n == 1 ==> name@ =~= seq!['.']);
            assert(n == 2 ==> name@ =~= seq!['.', '.']);
            return Err(LocalIoError::new(LocalIoErrorKind::InvalidInput, "file name must not be `.` or `..`"));
        }
        assert(name@ != seq!['.'] && name@ != seq!['.', '.']) by {
            if name@ == seq!['.'] {
                assert(name@[0] == '.');
            }
            if name@ == seq!['.', '.'] {
                assert(name@[0] == '.' && name@[1] == '.');
            }
        }
        if name.as_bytes().len() > 255 {
            return Err(LocalIoError::new(LocalIoErrorKind::InvalidInput, "file name must be at most 255 UTF-8 bytes"));
        }
        assert(encode_utf8(name@).len() <= 255);
        let mut i: usize = 0;
        while i < n
            invariant
                n == name@.len(),
                n > 0,
                name@ != seq!['.'] && name@ != seq!['.', '.'],
                encode_utf8(name@).len() <= 255,
                i <= n,
                forall|j: int| 0 <= j < i ==> !is_forbidden_char(#[trigger] name@[j]),
            decreases n - i,
        {
            let ch = name.get_char(i);
            if is_forbidden_char_exec(ch) {
                assert(is_forbidden_char(name@[i as int]));
                return Err(LocalIoError::new(LocalIoErrorKind::InvalidInput, "file name contains a forbidden character"));
            }
            i = i + 1;
        }
        let last = name.get_char(n - 1);
        if last == ' ' || last == '.' {
            return Err(LocalIoError::new(LocalIoErrorKind::InvalidInput, "file name must not end with a space or dot"));
        }
        let stem_end = first_index_of_exec(name, '.');
        proof {
            lemma_first_index_bound(name@, '.');
        }
        let stem = name.substring_char(0, stem_end);
        assert(stem@ =~= name@.take(stem_end as int));
        if is_reserved_device_name_exec(stem) {
            return Err(LocalIoError::new(LocalIoErrorKind::InvalidInput, "file name uses a reserved device name"));
        }
        Ok(())
    }
}

/// The first-index search stays within the sequence.
pub proof fn lemma_first_index_bound(s: Seq<char>, c: char)
    ensures
        0 <= first_index_of(s, c) <= s.len(),
    decreases s.len(),
{
    if s.len() > 0 {
        lemma_first_index_bound(s.drop_last(), c);
    }
}

// ---------------------------------------------------------------------------
// Path components
// ---------------------------------------------------------------------------

/// The last segment of a list that is not `.`, if any.
pub open spec fn last_non_current(segments: Seq<Seq<u8>>) -> Option<Seq<u8>>
    decreases segments.len(),
{
    if segments.len() == 0 {
        None
    } else if segments.last() == seq![dot()] {
        last_non_current(segments.drop_last())
    } else {
        Some(segments.last())
    }
}

/// The final file-name component of a path: its last component that is
/// not `.`, unless that is `..` or there is none. A root or an empty path
/// has none.
pub open spec fn spec_file_name(path: Seq<u8>) -> Option<Seq<u8>> {
    match last_non_current(components(path)) {
        Some(c) => if c == seq![dot(), dot()] {
            None
        } else {
            Some(c)
        },
        None => None,
    }
}

/// The index of the last `b` in `s`, or -1 when there is none.
pub open spec fn last_index_of_byte(s: Seq<u8>, b: u8) -> int
    decreases s.len(),
{
    if s.len() == 0 {
        -1
    } else if s.last() == b {
        s.len() - 1
    } else {
        last_index_of_byte(s.drop_last(), b)
    }
}

/// The index of the first `b` in `s`, or the length of `s` when there is
/// none.
pub open spec fn first_index_of_byte(s: Seq<u8>, b: u8) -> int
    decreases s.len(),
{
    if s.len() == 0 {
        0
    } else {
        let r = first_index_of_byte(s.drop_last(), b);
        if r < s.len() - 1 {
            r
        } else if s.last() == b {
            s.len() - 1
        } else {
            s.len() as int
        }
    }
}

/// The stem of a path's file name: the name without its final extension.
/// A name whose only dot is its first byte is a stem without extension.
pub open spec fn spec_file_stem(path: Seq<u8>) -> Option<Seq<u8>> {
    match spec_file_name(path) {
        Some(n) => {
            let d = last_index_of_byte(n, dot());
            if d <= 0 {
                Some(n)
            } else {
                Some(n.take(d))
            }
        },
        None => None,
    }
}

/// The final extension of a path's file name, without its dot.
pub open spec fn spec_extension(path: Seq<u8>) -> Option<Seq<u8>> {
    match spec_file_name(path) {
        Some(n) => {
            let d = last_index_of_byte(n, dot());
            if d <= 0 {
                None
            } else {
                Some(n.skip(d + 1))
            }
        },
        None => None,
    }
}

/// The prefix of a path's file name: the name up to its first dot that is
/// not its first byte.
pub open spec fn spec_file_prefix(path: Seq<u8>) -> Option<Seq<u8>> {
    match spec_file_name(path) {
        Some(n) => {
            let i = first_index_of_byte(n.skip(1), dot());
            if i >= n.len() - 1 {
                Some(n)
            } else {
                Some(n.take(i + 1))
            }
        },
        None => None,
    }
}

/// The text of optional bytes, when there are bytes and they are valid
/// UTF-8.
pub open spec fn utf8_text(bytes: Option<Seq<u8>>) -> Option<Seq<char>> {
    match bytes {
        Some(b) => if valid_utf8(b) {
            Some(decode_utf8(b))
        } else {
            None
        },
        None => None,
    }
}

/// The byte range search helpers stay within their sequence.
pub proof fn lemma_byte_index_bounds(s: Seq<u8>, b: u8)
    ensures
        -1 <= last_index_of_byte(s, b) < s.len(),
        last_index_of_byte(s, b) >= 0 ==> s[last_index_of_byte(s, b)] == b,
        0 <= first_index_of_byte(s, b) <= s.len(),
    decreases s.len(),
{
    if s.len() > 0 {
        lemma_byte_index_bounds(s.drop_last(), b);
    }
}

fn file_name_bytes(path: &[u8]) -> (name: Option<Vec<u8>>)
    ensures
        match spec_file_name(path@) {
            Some(n) => (name matches Some(v) && v@ == n),
            None => name is None,
        },
        name matches Some(v) ==> v@.len() > 0,
{
    let (parts, _) = scan_path(path);
    let ghost segs = components(path@);
    let mut i: usize = parts.len();
    assert(views(parts@).take(i as int) =~= segs);
    while i > 0
        invariant
            i <= parts@.len(),
            segs == components(path@),
            views(parts@) == segs,
            forall|k: int| 0 <= k < parts.len() ==> (#[trigger] parts@[k])@.len() > 0,
            last_non_current(segs) == last_non_current(segs.take(i as int)),
        decreases i,
    {
        let part = &parts[i - 1];
        assert(segs.take(i as int).last() == part@);
        assert(segs.take(i as int).drop_last() =~= segs.take(i - 1));
        if !(part.len() == 1 && part[0] == 0x2e) {
            if part.len() == 2 && part[0] == 0x2e && part[1] == 0x2e {
                assert(part@ =~= seq![dot(), dot()]);
                return None;
            }
            assert(part@ != seq![dot()]) by {
                if part@ == seq![dot()] {
                    assert(part@.len() == 1 && part@[0] == dot());
                }
            }
            assert(part@ != seq![dot(), dot()]) by {
                if part@ == seq![dot(), dot()] {
                    assert(part@.len() == 2 && part@[0] == dot() && part@[1] == dot());
                }
            }
            return Some(copy_bytes(part.as_slice()));
        }
        assert(part@ =~= seq![dot()]);
        i = i - 1;
    }
    assert(segs.take(0) =~= Seq::<Seq<u8>>::empty());
    None
}

fn last_index_of_byte_exec(s: &[u8], b: u8) -> (index: Option<usize>)
    ensures
        match index {
            Some(i) => i as int == last_index_of_byte(s@, b),
            None => last_index_of_byte(s@, b) == -1,
        },
{
    let mut i: usize = s.len();
    assert(s@.take(i as int) =~= s@);
    while i > 0
        invariant
            i <= s@.len(),
            last_index_of_byte(s@, b) == last_index_of_byte(s@.take(i as int), b),
        decreases i,
    {
        assert(s@.take(i as int).drop_last() =~= s@.take(i - 1));
        if s[i - 1] == b {
            return Some(i - 1);
        }
        i = i - 1;
    }
    None
}

fn first_index_of_byte_exec(s: &[u8], start: usize, b: u8) -> (index: usize)
    requires
        start <= s@.len(),
    ensures
        index as int == first_index_of_byte(s@.skip(start as int), b),
{
    let ghost t = s@.skip(start as int);
    let mut r: usize = 0;
    let mut i: usize = 0;
    let len = s.len() - start;
    assert(t.take(0) =~= Seq::<u8>::empty());
    while i < len
        invariant
            start <= s@.len(),
            len == s@.len() - start,
            s@.len() == s.len(),
            t == s@.skip(start as int),
            i <= len,
            r <= i,
            r == first_index_of_byte(t.take(i as int), b),
        decreases s@.len() - start - i,
    {
        assert(t.take(i + 1).drop_last() =~= t.take(i as int));
        if r == i && s[start + i] != b {
            r = i + 1;
        }
        i = i + 1;
    }
    assert(t.take(i as int) =~= t);
    r
}

fn slice_copy(s: &[u8], from: usize, to: usize) -> (out: Vec<u8>)
    requires
        from <= to <= s@.len(),
    ensures
        out@ == s@.subrange(from as int, to as int),
{
    let mut out: Vec<u8> = Vec::new();
    let mut i = from;
    while i < to
        invariant
            from <= i <= to <= s@.len(),
            out@ == s@.subrange(from as int, i as int),
        decreases to - i,
    {
        out.push(s[i]);
        assert(s@.subrange(from as int, i + 1) =~= s@.subrange(from as int, i as int).push(s@[i as int]));
        i = i + 1;
    }
    out
}

fn extension_bytes(path: &[u8]) -> (ext: Option<Vec<u8>>)
    ensures
        match spec_extension(path@) {
            Some(e) => (ext matches Some(v) && v@ == e),
            None => ext is None,
        },
{
    match file_name_bytes(path) {
        Some(name) => {
            proof {
                lemma_byte_index_bounds(name@, dot());
            }
            match last_index_of_byte_exec(name.as_slice(), 0x2e) {
                Some(d) => if d == 0 {
                    None
                } else {
                    let len = name.len();
                    assert(d < len);
                    let out = slice_copy(name.as_slice(), d + 1, len);
                    assert(out@ =~= name@.skip(d + 1));
                    Some(out)
                },
                None => None,
            }
        },
        None => None,
    }
}

fn text_of(bytes: Option<Vec<u8>>) -> (text: Option<String>)
    ensures
        match utf8_text(
            match bytes {
                Some(b) => Some(b@),
                None => None,
            },
        ) {
            Some(t) => (text matches Some(s) && s@ == t),
            None => text is None,
        },
{
    match bytes {
        Some(b) => utf8_string(b),
        None => None,
    }
}

/// The optional text view of an optional string.
pub open spec fn opt_text(text: Option<String>) -> Option<Seq<char>> {
    match text {
        Some(s) => Some(s@),
        None => None,
    }
}

/// The extension written with a leading dot; an empty extension stays
/// empty.
pub open spec fn dotted(extension: Seq<char>) -> Seq<char> {
    if extension.len() == 0 {
        extension
    } else {
        seq!['.'] + extension
    }
}

/// An expected extension without the one leading dot it may be written
/// with.
pub open spec fn normalized_extension(extension: Seq<char>) -> Seq<char> {
    if extension.len() > 0 && extension[0] == '.' {
        extension.skip(1)
    } else {
        extension
    }
}

/// ASCII lowercase of a byte; other bytes are unchanged.
pub open spec fn ascii_lower(b: u8) -> u8 {
    if 0x41 <= b && b <= 0x5a {
        (b + 32) as u8
    } else {
        b
    }
}

/// Whether two byte sequences are equal after ASCII lowercasing.
pub open spec fn eq_ignore_ascii_case(a: Seq<u8>, b: Seq<u8>) -> bool {
    a.len() == b.len() && forall|i: int| 0 <= i < a.len() ==> ascii_lower(#[trigger] a[i]) == ascii_lower(b[i])
}

fn normalize_extension(extension: &str) -> (out: &str)
    ensures
        out@ == normalized_extension(extension@),
{
    let n = extension.unicode_len();
    if n > 0 && extension.get_char(0) == '.' {
        extension.substring_char(1, n)
    } else {
        extension
    }
}

fn eq_ignore_ascii_case_exec(a: &[u8], b: &[u8]) -> (res: bool)
    ensures
        res == eq_ignore_ascii_case(a@, b@),
{
    if a.len() != b.len() {
        return false;
    }
    let mut i: usize = 0;
    while i < a.len()
        invariant
            i <= a@.len(),
            a@.len() == b@.len(),
            forall|j: int| 0 <= j < i ==> ascii_lower(#[trigger] a@[j]) == ascii_lower(b@[j]),
        decreases a@.len() - i,
    {
        let x = a[i];
        let y = b[i];
        let lx = if 0x41 <= x && x <= 0x5a { x + 32 } else { x };
        let ly = if 0x41 <= y && y <= 0x5a { y + 32 } else { y };
        if lx != ly {
            assert(ascii_lower(a@[i as int]) != ascii_lower(b@[i as int]));
            return false;
        }
        i = i + 1;
    }
    true
}

impl LocalFilenames {
    /// Returns the final file-name component of `path` as UTF-8, or `None`
    /// when there is none or it is not valid UTF-8.
    pub fn file_name(path: &[u8]) -> (name: Option<String>)
        ensures
            opt_text(name) == utf8_text(spec_file_name(path@)),
    {
        text_of(file_name_bytes(path))
    }

    /// Returns the file stem of `path` as UTF-8: `archive.tar.gz` has stem
    /// `archive.tar`, and a dotfile such as `.env` is its own stem.
    pub fn file_stem(path: &[u8]) -> (stem: Option<String>)
        ensures
            opt_text(stem) == utf8_text(spec_file_stem(path@)),
    {
        match file_name_bytes(path) {
            Some(name) => {
                proof {
                    lemma_byte_index_bounds(name@, dot());
                }
                match last_index_of_byte_exec(name.as_slice(), 0x2e) {
                    Some(d) => if d == 0 {
                        utf8_string(name)
                    } else {
                        let stem = slice_copy(name.as_slice(), 0, d);
                        assert(stem@ =~= name@.take(d as int));
                        utf8_string(stem)
                    },
                    None => utf8_string(name),
                }
            },
            None => None,
        }
    }

    /// Returns the file prefix of `path` as UTF-8: `archive.tar.gz` has
    /// prefix `archive`, and `.env.local` has prefix `.env`.
    pub fn file_prefix(path: &[u8]) -> (prefix: Option<String>)
        ensures
            opt_text(prefix) == utf8_text(spec_file_prefix(path@)),
    {
        match file_name_bytes(path) {
            Some(name) => {
                let i = first_index_of_byte_exec(name.as_slice(), 1, 0x2e);
                proof {
                    lemma_byte_index_bounds(name@.skip(1), dot());
                }
                if i >= name.len() - 1 {
                    utf8_string(name)
                } else {
                    let prefix = slice_copy(name.as_slice(), 0, i + 1);
                    assert(prefix@ =~= name@.take(i + 1));
                    utf8_string(prefix)
                }
            },
            None => None,
        }
    }

    /// Returns the final extension of `path`, without its dot, as UTF-8.
    /// Dotfiles such as `.env` have no extension unless they hold another
    /// dot.
    pub fn extension(path: &[u8]) -> (extension: Option<String>)
        ensures
            opt_text(extension) == utf8_text(spec_extension(path@)),
    {
        text_of(extension_bytes(path))
    }

    /// Returns the final extension of `path` with a leading dot; an empty
    /// extension, as in `name.`, gives an empty string.
    pub fn dot_extension(path: &[u8]) -> (extension: Option<String>)
        ensures
            opt_text(extension) == match utf8_text(spec_extension(path@)) {
                Some(e) => Some(dotted(e)),
                None => None,
            },
    {
        match Self::extension(path) {
            Some(e) => {
                if e.unicode_len() == 0 {
                    Some(e)
                } else {
                    proof {
                        reveal_strlit(".");
                    }
                    Some(concat_text(String::from_str("."), e.as_str()))
                }
            },
            None => None,
        }
    }

    /// Tests whether `path` has `extension` as its final extension; the
    /// expected extension may be written with or without a leading dot and
    /// is compared case-sensitively.
    pub fn has_extension(path: &[u8], extension: &str) -> (res: bool)
        ensures
            res == (utf8_text(spec_extension(path@)) == Some(normalized_extension(extension@))),
    {
        let expected = normalize_extension(extension);
        match extension_bytes(path) {
            Some(actual) => {
                let bytes = expected.as_bytes();
                let res = bytes_equal(actual.as_slice(), bytes);
                proof {
                    vstd::utf8::encode_utf8_valid_utf8(expected@);
                    vstd::utf8::encode_utf8_decode_utf8(expected@);
                    if valid_utf8(actual@) {
                        vstd::utf8::decode_utf8_encode_utf8(actual@);
                    }
                }
                res
            },
            None => false,
        }
    }

    /// Tests whether `path` has `extension` as its final extension,
    /// ignoring ASCII case; other characters are compared exactly.
    pub fn has_extension_ignore_ascii_case(path: &[u8], extension: &str) -> (res: bool)
        ensures
            res == match spec_extension(path@) {
                Some(e) => valid_utf8(e) && eq_ignore_ascii_case(e, encode_utf8(normalized_extension(extension@))),
                None => false,
            },
    {
        let expected = normalize_extension(extension);
        match extension_bytes(path) {
            Some(actual) => is_valid_utf8(actual.as_slice()) && eq_ignore_ascii_case_exec(
                actual.as_slice(),
                expected.as_bytes(),
            ),
            None => false,
        }
    }
}

// ---------------------------------------------------------------------------
// Names taken from path-like and URL-like text
// ---------------------------------------------------------------------------

/// The index of the first `a` or `b` in `s`, or the length of `s` when
/// there is none.
pub open spec fn first_index_of_either(s: Seq<char>, a: char, b: char) -> int
    decreases s.len(),
{
    if s.len() == 0 {
        0
    } else {
        let r = first_index_of_either(s.drop_last(), a, b);
        if r < s.len() - 1 {
            r
        } else if s.last() == a || s.last() == b {
            s.len() - 1
        } else {
            s.len() as int
        }
    }
}

/// The index just after the last `a` or `b` in `s`, or 0 when there is
/// none.
pub open spec fn after_last_of(s: Seq<char>, a: char, b: char) -> int
    decreases s.len(),
{
    if s.len() == 0 {
        0
    } else if s.last() == a || s.last() == b {
        s.len() as int
    } else {
        after_last_of(s.drop_last(), a, b)
    }
}

/// The text after the final `/` or `\` of a path-like string, or the whole
/// string when it has no separator.
pub open spec fn spec_file_name_from_path(path: Seq<char>) -> Seq<char> {
    path.skip(after_last_of(path, '/', '\\'))
}

/// Whether a character is an ASCII letter.
pub open spec fn is_ascii_alpha(c: char) -> bool {
    ('a' <= c && c <= 'z') || ('A' <= c && c <= 'Z')
}

/// Whether a character may follow the first letter of a URL scheme.
pub open spec fn is_scheme_char(c: char) -> bool {
    is_ascii_alpha(c) || ('0' <= c && c <= '9') || c == '+' || c == '-' || c == '.'
}

/// Whether a text is a URL scheme: a letter followed by letters, digits,
/// `+`, `-` or `.`.
pub open spec fn is_scheme(s: Seq<char>) -> bool {
    s.len() >= 1 && is_ascii_alpha(s[0]) && forall|j: int| 1 <= j < s.len() ==> is_scheme_char(#[trigger] s[j])
}

/// The text after a leading `scheme:`, or the text itself when it does not
/// start with a scheme.
pub open spec fn after_scheme(s: Seq<char>) -> Seq<char> {
    let c = first_index_of(s, ':');
    if c < s.len() && is_scheme(s.take(c)) {
        s.skip(c + 1)
    } else {
        s
    }
}

/// The text without a leading `//authority`: what follows the authority,
/// from its first `/`, or nothing for an authority alone.
pub open spec fn without_authority(s: Seq<char>) -> Seq<char> {
    if s.len() >= 2 && s[0] == '/' && s[1] == '/' {
        let rest = s.skip(2);
        rest.skip(first_index_of(rest, '/'))
    } else {
        s
    }
}

/// The final path segment of a URL-like text, before percent-decoding: the
/// query and fragment, the scheme, and a hierarchical authority are set
/// aside, and the text after the last `/` of what remains is taken.
pub open spec fn spec_url_segment(url: Seq<char>) -> Seq<char> {
    let path = without_authority(after_scheme(url.take(first_index_of_either(url, '?', '#'))));
    path.skip(after_last_of(path, '/', '/'))
}

/// Whether decoded bytes form one safe file-name fragment: no `/`, `\` or
/// NUL, and neither `.` nor `..`.
pub open spec fn is_safe_fragment(bytes: Seq<u8>) -> bool {
    !bytes.contains(0x2fu8) && !bytes.contains(0x5cu8) && !bytes.contains(0u8) && bytes != seq![dot()]
        && bytes != seq![dot(), dot()]
}

/// The final decoded file-name segment of a URL-like text: the segment with
/// its percent escapes decoded when that gives valid UTF-8 that is one safe
/// fragment, and the segment unchanged otherwise.
pub open spec fn spec_file_name_from_url(url: Seq<char>) -> Seq<char> {
    let segment = spec_url_segment(url);
    match crate::local_path_codec::decode_escaped(encode_utf8(segment)) {
        Ok(bytes) => if valid_utf8(bytes) && is_safe_fragment(bytes) {
            decode_utf8(bytes)
        } else {
            segment
        },
        Err(_) => segment,
    }
}

/// The text searches stay within their sequence.
pub proof fn lemma_text_index_bounds(s: Seq<char>, a: char, b: char)
    ensures
        0 <= first_index_of_either(s, a, b) <= s.len(),
        0 <= after_last_of(s, a, b) <= s.len(),
        0 <= first_index_of(s, a) <= s.len(),
    decreases s.len(),
{
    if s.len() > 0 {
        lemma_text_index_bounds(s.drop_last(), a, b);
    }
}

fn first_index_of_either_exec(text: &str, a: char, b: char) -> (index: usize)
    ensures
        index == first_index_of_either(text@, a, b),
{
    let n = text.unicode_len();
    let mut r: usize = 0;
    let mut i: usize = 0;
    assert(text@.take(0) =~= Seq::<char>::empty());
    while i < n
        invariant
            n == text@.len(),
            i <= n,
            r <= i,
            r == first_index_of_either(text@.take(i as int), a, b),
        decreases n - i,
    {
        assert(text@.take(i + 1).drop_last() =~= text@.take(i as int));
        let ch = text.get_char(i);
        if r == i && ch != a && ch != b {
            r = i + 1;
        }
        i = i + 1;
    }
    assert(text@.take(n as int) =~= text@);
    r
}

fn after_last_of_exec(text: &str, a: char, b: char) -> (index: usize)
    ensures
        index == after_last_of(text@, a, b),
{
    let n = text.unicode_len();
    let mut r: usize = 0;
    let mut i: usize = 0;
    assert(text@.take(0) =~= Seq::<char>::empty());
    while i < n
        invariant
            n == text@.len(),
            i <= n,
            r <= i,
            r == after_last_of(text@.take(i as int), a, b),
        decreases n - i,
    {
        assert(text@.take(i + 1).drop_last() =~= text@.take(i as int));
        let ch = text.get_char(i);
        if ch == a || ch == b {
            r = i + 1;
        }
        i = i + 1;
    }
    assert(text@.take(n as int) =~= text@);
    r
}

fn is_scheme_exec(text: &str, end: usize) -> (res: bool)
    requires
        end <= text@.len(),
    ensures
        res == is_scheme(text@.take(end as int)),
{
    if end == 0 {
        return false;
    }
    let first = text.get_char(0);
    if !(('a' <= first && first <= 'z') || ('A' <= first && first <= 'Z')) {
        return false;
    }
    let mut j: usize = 1;
    while j < end
        invariant
            1 <= j <= end <= text@.len(),
            is_ascii_alpha(text@[0]),
            forall|k: int| 1 <= k < j ==> is_scheme_char(#[trigger] text@.take(end as int)[k]),
        decreases end - j,
    {
        let c = text.get_char(j);
        if !(('a' <= c && c <= 'z') || ('A' <= c && c <= 'Z') || ('0' <= c && c <= '9') || c == '+'
            || c == '-' || c == '.') {
            assert(!is_scheme_char(text@.take(end as int)[j as int]));
            return false;
        }
        j = j + 1;
    }
    true
}

fn url_segment(url: &str) -> (segment: &str)
    ensures
        segment@ == spec_url_segment(url@),
{
    let q = first_index_of_either_exec(url, '?', '#');
    proof {
        lemma_text_index_bounds(url@, '?', '#');
    }
    let base = url.substring_char(0, q);
    assert(base@ =~= url@.take(q as int));
    let nb = base.unicode_len();
    let c = first_index_of_exec(base, ':');
    proof {
        lemma_text_index_bounds(base@, ':', ':');
    }
    let rest = if c < nb && is_scheme_exec(base, c) {
        base.substring_char(c + 1, nb)
    } else {
        base
    };
    assert(rest@ =~= after_scheme(base@));
    let nr = rest.unicode_len();
    let path = if nr >= 2 && rest.get_char(0) == '/' && rest.get_char(1) == '/' {
        let tail = rest.substring_char(2, nr);
        let k = first_index_of_exec(tail, '/');
        proof {
            lemma_text_index_bounds(tail@, '/', '/');
        }
        tail.substring_char(k, nr - 2)
    } else {
        rest
    };
    assert(path@ =~= without_authority(rest@));
    let a = after_last_of_exec(path, '/', '/');
    proof {
        lemma_text_index_bounds(path@, '/', '/');
    }
    path.substring_char(a, path.unicode_len())
}

fn is_safe_fragment_exec(bytes: &[u8]) -> (res: bool)
    ensures
        res == is_safe_fragment(bytes@),
{
    let mut i: usize = 0;
    while i < bytes.len()
        invariant
            i <= bytes@.len(),
            forall|j: int| 0 <= j < i ==> bytes@[j] != 0x2fu8 && bytes@[j] != 0x5cu8 && bytes@[j] != 0u8,
        decreases bytes@.len() - i,
    {
        let b = bytes[i];
        if b == 0x2f || b == 0x5c || b == 0 {
            assert(bytes@[i as int] == b);
            return false;
        }
        i = i + 1;
    }
    let dots = (bytes.len() == 1 && bytes[0] == 0x2e) || (bytes.len() == 2 && bytes[0] == 0x2e && bytes[1] == 0x2e);
    if dots {
        assert(bytes@ =~= seq![dot()] || bytes@ =~= seq![dot(), dot()]);
        return false;
    }
    assert(bytes@ != seq![dot()]) by {
        if bytes@ == seq![dot()] {
            assert(bytes@[0] == dot());
        }
    }
    assert(bytes@ != seq![dot(), dot()]) by {
        if bytes@ == seq![dot(), dot()] {
            assert(bytes@[0] == dot() && bytes@[1] == dot());
        }
    }
    true
}

impl LocalFilenames {
    /// Returns the text after the final `/` or `\` of a path-like string,
    /// or the whole string when it has no separator. Lexical only.
    pub fn file_name_from_path(path: &str) -> (name: &str)
        ensures
            name@ == spec_file_name_from_path(path@),
    {
        let a = after_last_of_exec(path, '/', '\\');
        proof {
            lemma_text_index_bounds(path@, '/', '\\');
        }
        path.substring_char(a, path.unicode_len())
    }

    /// Returns the final decoded file-name segment of a URL-like string.
    ///
    /// Queries, fragments, schemes and hierarchical authorities are set
    /// aside before the last `/`-delimited segment is taken, so an
    /// authority-only URL gives an empty string. Percent escapes are decoded
    /// when the result is valid UTF-8 that is one safe file-name fragment;
    /// otherwise the segment is returned unchanged.
    pub fn file_name_from_url(url: &str) -> (name: String)
        ensures
            name@ == spec_file_name_from_url(url@),
    {
        let segment = url_segment(url);
        match crate::local_path_codec::decode_escaped_exec(segment.as_bytes()) {
            Ok(decoded) => {
                if is_valid_utf8(decoded.as_slice()) && is_safe_fragment_exec(decoded.as_slice()) {
                    match utf8_string(decoded) {
                        Some(text) => text,
                        None => String::from_str(segment),
                    }
                } else {
                    String::from_str(segment)
                }
            },
            Err(_) => String::from_str(segment),
        }
    }
}

// ---------------------------------------------------------------------------
// Random names
// ---------------------------------------------------------------------------

/// What makes a generated file name unique: when it was built, which
/// process built it, and random bits.
#[derive(Clone, Copy, Debug)]
pub struct LocalNameEntropy {
    /// Build time, in nanoseconds since the Unix epoch (truncated to 64 bits).
    pub timestamp: u64,
    /// Identifier of the building process.
    pub process_id: u32,
    /// Random bits from the operating system.
    pub random: u64,
}

/// Lowercase hexadecimal digit of a value below 16.
pub open spec fn hex_char(d: nat) -> char {
    if d < 10 {
        (48 + d) as char
    } else {
        (87 + d) as char
    }
}

/// The `width` lowest hexadecimal digits of `n`, most significant first.
pub open spec fn hex_digits(n: nat, width: nat) -> Seq<char>
    decreases width,
{
    if width == 0 {
        seq![]
    } else {
        hex_digits(n / 16, (width - 1) as nat).push(hex_char(n % 16))
    }
}

/// The prefix used when a random name is built without one.
pub open spec fn spec_default_random_prefix() -> Seq<char> {
    "qubit-local-files-"@
}

/// A random file name: the prefix, 16 hexadecimal digits of the timestamp,
/// `-`, 8 of the process id, `-`, 16 of the random bits, and the suffix.
pub open spec fn spec_random_name(prefix: Seq<char>, suffix: Seq<char>, entropy: LocalNameEntropy) -> Seq<char> {
    prefix + hex_digits(entropy.timestamp as nat, 16) + "-"@ + hex_digits(entropy.process_id as nat, 8)
        + "-"@ + hex_digits(entropy.random as nat, 16) + suffix
}

/// Whether a caller-provided affix is a file-name fragment rather than a
/// path: no `/`, `\`, NUL or `:` (a platform prefix), and neither `.` nor
/// `..`.
pub open spec fn is_name_fragment(affix: Seq<char>) -> bool {
    !affix.contains('/') && !affix.contains('\\') && !affix.contains('\0') && !affix.contains(':')
        && affix != seq!['.'] && affix != seq!['.', '.']
}

/// The optional text view of an optional string slice.
pub open spec fn opt_str(text: Option<&str>) -> Option<Seq<char>> {
    match text {
        Some(s) => Some(s@),
        None => None,
    }
}

/// Whether an optional affix text is absent or a file-name fragment.
pub open spec fn affix_text_ok(affix: Option<Seq<char>>) -> bool {
    match affix {
        Some(a) => is_name_fragment(a),
        None => true,
    }
}

/// Whether an optional affix is absent or a file-name fragment.
pub open spec fn affix_ok(affix: Option<&str>) -> bool {
    affix_text_ok(opt_str(affix))
}

/// The outcome of building a random name: the first unsafe affix, prefix
/// before suffix, is rejected; then a failure to gather entropy is passed
/// on; otherwise the name is built from the prefix (the default one when
/// there is none) and the suffix (empty when there is none).
pub open spec fn spec_try_random_name(
    prefix: Option<&str>,
    suffix: Option<&str>,
    entropy: Result<LocalNameEntropy, LocalIoErrorView>,
) -> Result<Seq<char>, LocalIoErrorView> {
    if !affix_ok(prefix) {
        Err(invalid_input("random file-name prefix must be a file-name fragment"@))
    } else if !affix_ok(suffix) {
        Err(invalid_input("random file-name suffix must be a file-name fragment"@))
    } else {
        match entropy {
            Ok(e) => Ok(
                spec_random_name(
                    match prefix {
                        Some(p) => p@,
                        None => spec_default_random_prefix(),
                    },
                    match suffix {
                        Some(x) => x@,
                        None => Seq::empty(),
                    },
                    e,
                ),
            ),
            Err(error) => Err(error),
        }
    }
}

fn hex_digit_text(d: u64) -> (text: &'static str)
    requires
        d < 16,
    ensures
        text@ == seq![hex_char(d as nat)],
{
    proof {
        reveal_strlit("0");
        reveal_strlit("1");
        reveal_strlit("2");
        reveal_strlit("3");
        reveal_strlit("4");
        reveal_strlit("5");
        reveal_strlit("6");
        reveal_strlit("7");
        reveal_strlit("8");
        reveal_strlit("9");
        reveal_strlit("a");
        reveal_strlit("b");
        reveal_strlit("c");
        reveal_strlit("d");
        reveal_strlit("e");
        reveal_strlit("f");
    }
    match d {
        0 => "0",
        1 => "1",
        2 => "2",
        3 => "3",
        4 => "4",
        5 => "5",
        6 => "6",
        7 => "7",
        8 => "8",
        9 => "9",
        10 => "a",
        11 => "b",
        12 => "c",
        13 => "d",
        14 => "e",
        _ => "f",
    }
}

fn push_hex(text: String, n: u64, width: u32) -> (out: String)
    ensures
        out@ == text@ + hex_digits(n as nat, width as nat),
    decreases width,
{
    if width == 0 {
        assert(text@ + Seq::<char>::empty() =~= text@);
        text
    } else {
        let head = push_hex(text, n / 16, width - 1);
        let out = concat_text(head, hex_digit_text(n % 16));
        assert(out@ =~= text@ + hex_digits(n as nat, width as nat));
        out
    }
}

fn is_name_fragment_exec(affix: &str) -> (res: bool)
    ensures
        res == is_name_fragment(affix@),
{
    let n = affix.unicode_len();
    let mut i: usize = 0;
    while i < n
        invariant
            n == affix@.len(),
            i <= n,
            forall|j: int| 0 <= j < i ==> affix@[j] != '/' && affix@[j] != '\\' && affix@[j] != '\0' && affix@[j] != ':',
        decreases n - i,
    {
        let c = affix.get_char(i);
        if c == '/' || c == '\\' || c == '\0' || c == ':' {
            assert(affix@[i as int] == c);
            return false;
        }
        i = i + 1;
    }
    if (n == 1 && affix.get_char(0) == '.') || (n == 2 && affix.get_char(0) == '.' && affix.get_char(1) == '.') {
        assert(affix@ =~= seq!['.'] || affix@ =~= seq!['.', '.']);
        return false;
    }
    assert(affix@ != seq!['.']) by {
        if affix@ == seq!['.'] {
            assert(affix@[0] == '.');
        }
    }
    assert(affix@ != seq!['.', '.']) by {
        if affix@ == seq!['.', '.'] {
            assert(affix@[0] == '.' && affix@[1] == '.');
        }
    }
    true
}

fn affix_ok_exec(affix: Option<&str>) -> (res: bool)
    ensures
        res == affix_ok(affix),
{
    match affix {
        Some(a) => is_name_fragment_exec(a),
        None => true,
    }
}

fn build_random_name(prefix: &str, suffix: &str, entropy: &LocalNameEntropy) -> (name: String)
    ensures
        name@ == spec_random_name(prefix@, suffix@, *entropy),
{
    let text = push_hex(String::from_str(prefix), entropy.timestamp, 16);
    let text = concat_text(text, "-");
    let text = push_hex(text, entropy.process_id as u64, 8);
    let text = concat_text(text, "-");
    let text = push_hex(text, entropy.random, 16);
    concat_text(text, suffix)
}

/// The outcome of validating the affixes of temporary entry names: the
/// first unsafe affix, prefix before suffix, is rejected.
pub open spec fn spec_temp_affix_problem(prefix: Option<Seq<char>>, suffix: Option<Seq<char>>) -> Option<LocalIoErrorView> {
    if !affix_text_ok(prefix) {
        Some(invalid_input("temporary name prefix must be a file-name fragment"@))
    } else if !affix_text_ok(suffix) {
        Some(invalid_input("temporary name suffix must be a file-name fragment"@))
    } else {
        None
    }
}

/// Validates the affixes of temporary entry names.
pub fn validate_temp_affixes(prefix: Option<&str>, suffix: Option<&str>) -> (res: Result<(), LocalIoError>)
    ensures
        match spec_temp_affix_problem(opt_str(prefix), opt_str(suffix)) {
            None => res is Ok,
            Some(e) => (res matches Err(r) && r@ == e),
        },
{
    if !affix_ok_exec(prefix) {
        return Err(LocalIoError::new(LocalIoErrorKind::InvalidInput, "temporary name prefix must be a file-name fragment"));
    }
    if !affix_ok_exec(suffix) {
        return Err(LocalIoError::new(LocalIoErrorKind::InvalidInput, "temporary name suffix must be a file-name fragment"));
    }
    Ok(())
}

impl LocalFilenames {
    /// Default prefix used by random file-name generation.
    pub const DEFAULT_RANDOM_PREFIX: &'static str = "qubit-local-files-";

    /// Builds a random file-name component with the default prefix. It is
    /// only a name: nothing is joined to a directory or created.
    pub fn random(entropy: &LocalNameEntropy) -> (name: String)
        ensures
            name@ == spec_random_name(spec_default_random_prefix(), Seq::empty(), *entropy),
    {
        proof {
            reveal_strlit("");
        }
        build_random_name(Self::DEFAULT_RANDOM_PREFIX, "", entropy)
    }

    /// Builds a random file-name component from an optional prefix (the
    /// default one when absent) and an optional suffix (empty when absent),
    /// both of which must be file-name fragments.
    pub fn random_with(prefix: Option<&str>, suffix: Option<&str>, entropy: &LocalNameEntropy) -> (name: String)
        requires
            affix_ok(prefix),
            affix_ok(suffix),
        ensures
            spec_try_random_name(prefix, suffix, Ok(*entropy)) == Ok::<Seq<char>, LocalIoErrorView>(name@),
    {
        proof {
            reveal_strlit("");
        }
        let p = match prefix {
            Some(p) => p,
            None => Self::DEFAULT_RANDOM_PREFIX,
        };
        let x = match suffix {
            Some(x) => x,
            None => "",
        };
        build_random_name(p, x, entropy)
    }

    /// Tries to build a random file-name component with the default prefix;
    /// fails only when gathering entropy failed.
    pub fn try_random(entropy: Result<LocalNameEntropy, LocalIoError>) -> (res: Result<String, LocalIoError>)
        ensures
            match res {
                Ok(name) => spec_try_random_name(None, None, match entropy {
                    Ok(e) => Ok(e),
                    Err(error) => Err(error@),
                }) == Ok::<Seq<char>, LocalIoErrorView>(name@),
                Err(error) => spec_try_random_name(None, None, match entropy {
                    Ok(e) => Ok(e),
                    Err(error) => Err(error@),
                }) == Err::<Seq<char>, LocalIoErrorView>(error@),
            },
    {
        Self::try_random_with(None, None, entropy)
    }

    /// Tries to build a random file-name component from an optional prefix
    /// and suffix. Fails with kind `InvalidInput` when an affix is not a
    /// file-name fragment, and with the entropy error when gathering entropy
    /// failed.
    pub fn try_random_with(
        prefix: Option<&str>,
        suffix: Option<&str>,
        entropy: Result<LocalNameEntropy, LocalIoError>,
    ) -> (res: Result<String, LocalIoError>)
        ensures
            match res {
                Ok(name) => spec_try_random_name(prefix, suffix, match entropy {
                    Ok(e) => Ok(e),
                    Err(error) => Err(error@),
                }) == Ok::<Seq<char>, LocalIoErrorView>(name@),
                Err(error) => spec_try_random_name(prefix, suffix, match entropy {
                    Ok(e) => Ok(e),
                    Err(error) => Err(error@),
                }) == Err::<Seq<char>, LocalIoErrorView>(error@),
            },
    {
        if !affix_ok_exec(prefix) {
            return Err(LocalIoError::new(
                LocalIoErrorKind::InvalidInput,
                "random file-name prefix must be a file-name fragment",
            ));
        }
        if !affix_ok_exec(suffix) {
            return Err(LocalIoError::new(
                LocalIoErrorKind::InvalidInput,
                "random file-name suffix must be a file-name fragment",
            ));
        }
        match entropy {
            Ok(e) => Ok(Self::random_with(prefix, suffix, &e)),
            Err(error) => Err(error),
        }
    }
}

// ---------------------------------------------------------------------------
// Native file names with structured errors
// ---------------------------------------------------------------------------

/// Native file-name utility namespace reporting structured errors; it has
/// no values.
pub struct LocalFileNames {
    _private: (),
}

/// The structured outcome of generating a random native name: the outcome
/// of building the name, with a failure wrapped as a name-generation error.
pub open spec fn spec_random_native_name(
    prefix: Option<&str>,
    suffix: Option<&str>,
    entropy: Result<LocalNameEntropy, LocalIoErrorView>,
) -> Result<Seq<u8>, LocalFileErrorView> {
    match spec_try_random_name(prefix, suffix, entropy) {
        Ok(name) => Ok(encode_utf8(name)),
        Err(error) => Err(spec_io_error(LocalFileOperation::GenerateName, None, None, error)),
    }
}

/// The structured outcome of validating a native name: `InvalidPath` for a
/// name that is not UTF-8, and the portable-name rule it breaks otherwise.
pub open spec fn spec_validate_portable(name: Seq<u8>) -> Result<(), LocalFileErrorView> {
    if !valid_utf8(name) {
        Err(spec_bare_error(LocalFileErrorKind::InvalidPath, LocalFileOperation::ValidateName))
    } else {
        match spec_portable_name_problem(decode_utf8(name)) {
            None => Ok(()),
            Some(message) => Err(
                spec_io_error(LocalFileOperation::ValidateName, None, None, invalid_input(message)),
            ),
        }
    }
}

impl LocalFileNames {
    /// Generates a random portable native name with the default prefix.
    pub fn random_name(entropy: Result<LocalNameEntropy, LocalIoError>) -> (res: LocalResult<Vec<u8>>)
        ensures
            match res {
                Ok(name) => spec_random_native_name(None, None, match entropy {
                    Ok(e) => Ok(e),
                    Err(error) => Err(error@),
                }) == Ok::<Seq<u8>, LocalFileErrorView>(name@),
                Err(error) => spec_random_native_name(None, None, match entropy {
                    Ok(e) => Ok(e),
                    Err(error) => Err(error@),
                }) == Err::<Seq<u8>, LocalFileErrorView>(error@),
            },
    {
        Self::random_name_with(None, None, entropy)
    }

    /// Generates a random native name from optional affixes; a bad affix or
    /// a failure to gather entropy is reported as a name-generation error.
    pub fn random_name_with(
        prefix: Option<&str>,
        suffix: Option<&str>,
        entropy: Result<LocalNameEntropy, LocalIoError>,
    ) -> (res: LocalResult<Vec<u8>>)
        ensures
            match res {
                Ok(name) => spec_random_native_name(prefix, suffix, match entropy {
                    Ok(e) => Ok(e),
                    Err(error) => Err(error@),
                }) == Ok::<Seq<u8>, LocalFileErrorView>(name@),
                Err(error) => spec_random_native_name(prefix, suffix, match entropy {
                    Ok(e) => Ok(e),
                    Err(error) => Err(error@),
                }) == Err::<Seq<u8>, LocalFileErrorView>(error@),
            },
    {
        match LocalFilenames::try_random_with(prefix, suffix, entropy) {
            Ok(name) => Ok(name.as_str().as_bytes_vec()),
            Err(source) => Err(LocalFileError::from_io(LocalFileOperation::GenerateName, None, None, source)),
        }
    }

    /// Validates a conservative cross-platform native file-name component.
    pub fn validate_portable(name: &[u8]) -> (res: LocalResult<()>)
        ensures
            match res {
                Ok(()) => spec_validate_portable(name@) == Ok::<(), LocalFileErrorView>(()),
                Err(error) => spec_validate_portable(name@) == Err::<(), LocalFileErrorView>(error@),
            },
    {
        match utf8_string(copy_bytes(name)) {
            None => Err(LocalFileError::new(LocalFileErrorKind::InvalidPath, LocalFileOperation::ValidateName)),
            Some(text) => match LocalFilenames::validate_portable_file_name(text.as_str()) {
                Ok(()) => Ok(()),
                Err(source) => Err(LocalFileError::from_io(LocalFileOperation::ValidateName, None, None, source)),
            },
        }
    }
}

// ---------------------------------------------------------------------------
// Laws
// ---------------------------------------------------------------------------

/// The hexadecimal rendering of a value has exactly the requested width.
pub proof fn lemma_hex_digits_len(n: nat, width: nat)
    ensures
        hex_digits(n, width).len() == width,
    decreases width,
{
    if width > 0 {
        lemma_hex_digits_len(n / 16, (width - 1) as nat);
    }
}

/// A random name starts with its prefix and ends with its suffix, with 42
/// characters of timestamp, process id and random bits between them.
pub proof fn lemma_random_name_affixes(prefix: Seq<char>, suffix: Seq<char>, entropy: LocalNameEntropy)
    ensures
        spec_random_name(prefix, suffix, entropy).len() == prefix.len() + 42 + suffix.len(),
        spec_random_name(prefix, suffix, entropy).take(prefix.len() as int) == prefix,
        spec_random_name(prefix, suffix, entropy).skip(prefix.len() + 42int) == suffix,
{
    reveal_strlit("-");
    lemma_hex_digits_len(entropy.timestamp as nat, 16);
    lemma_hex_digits_len(entropy.process_id as nat, 8);
    lemma_hex_digits_len(entropy.random as nat, 16);
    let name = spec_random_name(prefix, suffix, entropy);
    let middle = hex_digits(entropy.timestamp as nat, 16) + "-"@ + hex_digits(entropy.process_id as nat, 8) + "-"@
        + hex_digits(entropy.random as nat, 16);
    assert(name =~= prefix + middle + suffix);
    assert(middle.len() == 42);
    assert(name.take(prefix.len() as int) =~= prefix);
    assert(name.skip(prefix.len() + 42int) =~= suffix);
}

/// The index after the last separator stays within the text, and nothing
/// after it is a separator.
pub proof fn lemma_after_last_of(s: Seq<char>, a: char, b: char)
    ensures
        0 <= after_last_of(s, a, b) <= s.len(),
        forall|i: int| after_last_of(s, a, b) <= i < s.len() ==> s[i] != a && s[i] != b,
    decreases s.len(),
{
    if s.len() > 0 {
        lemma_after_last_of(s.drop_last(), a, b);
        assert forall|i: int| after_last_of(s, a, b) <= i < s.len() implies s[i] != a && s[i] != b by {
            if !(s.last() == a || s.last() == b) && i < s.len() - 1 {
                assert(s[i] == s.drop_last()[i]);
            }
        }
    }
}

/// The name taken from a path-like string is a suffix of it without any
/// `/` or `\`.
pub proof fn lemma_file_name_from_path_is_a_separator_free_suffix(path: Seq<char>)
    ensures
        spec_file_name_from_path(path).len() <= path.len(),
        path.skip(path.len() - spec_file_name_from_path(path).len()) == spec_file_name_from_path(path),
        !spec_file_name_from_path(path).contains('/'),
        !spec_file_name_from_path(path).contains('\\'),
{
    lemma_after_last_of(path, '/', '\\');
    let k = after_last_of(path, '/', '\\');
    let name = path.skip(k);
    assert(path.skip(path.len() - name.len()) =~= name);
    assert(!name.contains('/')) by {
        if name.contains('/') {
            let j = choose|j: int| 0 <= j < name.len() && name[j] == '/';
            assert(path[k + j] == name[j]);
        }
    }
    assert(!name.contains('\\')) by {
        if name.contains('\\') {
            let j = choose|j: int| 0 <= j < name.len() && name[j] == '\\';
            assert(path[k + j] == name[j]);
        }
    }
}

/// Text that contains `/` encodes to bytes that contain the byte of `/`.
pub proof fn lemma_encoded_slash(chars: Seq<char>)
    requires
        chars.contains('/'),
    ensures
        encode_utf8(chars).contains(0x2fu8),
    decreases chars.len(),
{
    if chars[0] == '/' {
        assert(('/' as u32) == 0x2fu32);
        assert((0x2fu32 & 0x7fu32) as u8 == 0x2fu8) by (bit_vector);
        assert(vstd::utf8::encode_scalar('/' as u32) =~= seq![0x2fu8]);
        assert(encode_utf8(chars)[0] == 0x2fu8);
    } else {
        let j = choose|j: int| 0 <= j < chars.len() && chars[j] == '/';
        assert(chars.drop_first()[j - 1] == '/');
        lemma_encoded_slash(chars.drop_first());
        let rest = encode_utf8(chars.drop_first());
        let k = choose|k: int| 0 <= k < rest.len() && rest[k] == 0x2fu8;
        let first = vstd::utf8::encode_scalar(chars[0] as u32);
        assert(encode_utf8(chars) == first + rest);
        assert(encode_utf8(chars)[first.len() + k] == 0x2fu8);
    }
}

/// The name taken from a URL-like string never holds a `/`: the segment is
/// taken after the last one, and a decoded segment is kept only when it has
/// none.
pub proof fn lemma_file_name_from_url_has_no_slash(url: Seq<char>)
    ensures
        !spec_file_name_from_url(url).contains('/'),
{
    let path = without_authority(after_scheme(url.take(first_index_of_either(url, '?', '#'))));
    lemma_after_last_of(path, '/', '/');
    let segment = spec_url_segment(url);
    let k = after_last_of(path, '/', '/');
    assert(segment == path.skip(k));
    assert(!segment.contains('/')) by {
        if segment.contains('/') {
            let j = choose|j: int| 0 <= j < segment.len() && segment[j] == '/';
            assert(path[k + j] == segment[j]);
        }
    }
    match crate::local_path_codec::decode_escaped(encode_utf8(segment)) {
        Ok(bytes) => {
            if valid_utf8(bytes) && is_safe_fragment(bytes) {
                let text = decode_utf8(bytes);
                if text.contains('/') {
                    vstd::utf8::decode_utf8_encode_utf8(bytes);
                    lemma_encoded_slash(text);
                }
            }
        },
        Err(_) => {},
    }
}

/// Sixteen to the power `width`.
pub open spec fn pow16(width: nat) -> nat
    decreases width,
{
    if width == 0 {
        1
    } else {
        16 * pow16((width - 1) as nat)
    }
}

proof fn lemma_hex_char_injective(a: nat, b: nat)
    requires
        a < 16,
        b < 16,
        hex_char(a) == hex_char(b),
    ensures
        a == b,
{
    let x: int = if a < 10 {
        48 + a as int
    } else {
        87 + a as int
    };
    let y: int = if b < 10 {
        48 + b as int
    } else {
        87 + b as int
    };
    assert((hex_char(a) as u32) as int == x);
    assert((hex_char(b) as u32) as int == y);
}

/// Hexadecimal renderings of values below `16^width` are distinct.
pub proof fn lemma_hex_digits_injective(n: nat, m: nat, width: nat)
    requires
        n < pow16(width),
        m < pow16(width),
        hex_digits(n, width) == hex_digits(m, width),
    ensures
        n == m,
    decreases width,
{
    if width > 0 {
        let w = (width - 1) as nat;
        let left = hex_digits(n / 16, w);
        let right = hex_digits(m / 16, w);
        assert(hex_digits(n, width).last() == hex_char(n % 16));
        assert(hex_digits(m, width).last() == hex_char(m % 16));
        lemma_hex_char_injective(n % 16, m % 16);
        assert(left =~= hex_digits(n, width).drop_last());
        assert(right =~= hex_digits(m, width).drop_last());
        let p = pow16(w);
        assert(n / 16 < p) by (nonlinear_arith)
            requires
                n < 16 * p,
        ;
        assert(m / 16 < p) by (nonlinear_arith)
            requires
                m < 16 * p,
        ;
        lemma_hex_digits_injective(n / 16, m / 16, w);
        assert(n == 16 * (n / 16) + n % 16) by (nonlinear_arith);
        assert(m == 16 * (m / 16) + m % 16) by (nonlinear_arith);
    }
}

proof fn lemma_pow16_bounds()
    ensures
        pow16(8) == 0x1_0000_0000,
        pow16(16) == 0x1_0000_0000_0000_0000,
{
    reveal_with_fuel(pow16, 17);
}

/// Random names built with the same affixes from different entropy are
/// different: the name determines the timestamp, the process id and the
/// random bits.
pub proof fn lemma_random_name_determines_entropy(
    prefix: Seq<char>,
    suffix: Seq<char>,
    first: LocalNameEntropy,
    second: LocalNameEntropy,
)
    requires
        spec_random_name(prefix, suffix, first) == spec_random_name(prefix, suffix, second),
    ensures
        first == second,
{
    reveal_strlit("-");
    lemma_hex_digits_len(first.timestamp as nat, 16);
    lemma_hex_digits_len(first.process_id as nat, 8);
    lemma_hex_digits_len(first.random as nat, 16);
    lemma_hex_digits_len(second.timestamp as nat, 16);
    lemma_hex_digits_len(second.process_id as nat, 8);
    lemma_hex_digits_len(second.random as nat, 16);
    lemma_pow16_bounds();
    let a = spec_random_name(prefix, suffix, first);
    let b = spec_random_name(prefix, suffix, second);
    let p = prefix.len() as int;
    let parts_a = prefix + hex_digits(first.timestamp as nat, 16) + "-"@ + hex_digits(first.process_id as nat, 8)
        + "-"@ + hex_digits(first.random as nat, 16) + suffix;
    assert(a =~= parts_a);
    assert(a.subrange(p, p + 16) =~= hex_digits(first.timestamp as nat, 16));
    assert(b.subrange(p, p + 16) =~= hex_digits(second.timestamp as nat, 16));
    assert(a.subrange(p + 17, p + 25) =~= hex_digits(first.process_id as nat, 8));
    assert(b.subrange(p + 17, p + 25) =~= hex_digits(second.process_id as nat, 8));
    assert(a.subrange(p + 26, p + 42) =~= hex_digits(first.random as nat, 16));
    assert(b.subrange(p + 26, p + 42) =~= hex_digits(second.random as nat, 16));
    lemma_hex_digits_injective(first.timestamp as nat, second.timestamp as nat, 16);
    lemma_hex_digits_injective(first.process_id as nat, second.process_id as nat, 8);
    lemma_hex_digits_injective(first.random as nat, second.random as nat, 16);
}

/// The first `a` or `b` of a text is found: every earlier character is
/// neither, and the character found is one of them.
pub proof fn lemma_first_index_of_either_found(s: Seq<char>, a: char, b: char)
    ensures
        0 <= first_index_of_either(s, a, b) <= s.len(),
        forall|j: int| 0 <= j < first_index_of_either(s, a, b) ==> s[j] != a && s[j] != b,
        first_index_of_either(s, a, b) < s.len() ==> (s[first_index_of_either(s, a, b)] == a
            || s[first_index_of_either(s, a, b)] == b),
    decreases s.len(),
{
    if s.len() > 0 {
        lemma_first_index_of_either_found(s.drop_last(), a, b);
        let r = first_index_of_either(s.drop_last(), a, b);
        assert forall|j: int| 0 <= j < first_index_of_either(s, a, b) implies s[j] != a && s[j] != b by {
            if j < s.len() - 1 {
                assert(s[j] == s.drop_last()[j]);
            } else {
                assert(s[j] == s.last());
            }
        }
        if r < s.len() - 1 {
            assert(s[r] == s.drop_last()[r]);
        }
    }
}

/// The position of the first `a` or `b` is determined by where the two
/// characters occur.
proof fn lemma_first_index_of_either_unique(s: Seq<char>, a: char, b: char, k: int)
    requires
        0 <= k <= s.len(),
        forall|j: int| 0 <= j < k ==> s[j] != a && s[j] != b,
        k < s.len() ==> (s[k] == a || s[k] == b),
    ensures
        first_index_of_either(s, a, b) == k,
{
    lemma_first_index_of_either_found(s, a, b);
    let r = first_index_of_either(s, a, b);
    if r < k {
        assert(s[r] != a && s[r] != b);
    }
    if k < r {
        assert(s[k] != a && s[k] != b);
    }
}

/// A URL's fragment and query never reach its file name: for a URL text
/// without `?` or `#`, appending `#` or `?` and anything at all leaves the
/// file name unchanged.
pub proof fn lemma_file_name_from_url_ignores_query_and_fragment(url: Seq<char>, rest: Seq<char>)
    requires
        !url.contains('?'),
        !url.contains('#'),
    ensures
        spec_file_name_from_url(url + seq!['#'] + rest) == spec_file_name_from_url(url),
        spec_file_name_from_url(url + seq!['?'] + rest) == spec_file_name_from_url(url),
{
    assert forall|j: int| 0 <= j < url.len() implies url[j] != '?' && url[j] != '#' by {
        if url[j] == '?' {
            assert(url.contains('?'));
        }
        if url[j] == '#' {
            assert(url.contains('#'));
        }
    }
    lemma_first_index_of_either_unique(url, '?', '#', url.len() as int);
    let with_fragment = url + seq!['#'] + rest;
    let with_query = url + seq!['?'] + rest;
    assert forall|j: int| 0 <= j < url.len() implies with_fragment[j] != '?' && with_fragment[j] != '#' by {
        assert(with_fragment[j] == url[j]);
    }
    assert(with_fragment[url.len() as int] == '#');
    lemma_first_index_of_either_unique(with_fragment, '?', '#', url.len() as int);
    assert forall|j: int| 0 <= j < url.len() implies with_query[j] != '?' && with_query[j] != '#' by {
        assert(with_query[j] == url[j]);
    }
    assert(with_query[url.len() as int] == '?');
    lemma_first_index_of_either_unique(with_query, '?', '#', url.len() as int);
    assert(with_fragment.take(url.len() as int) =~= url.take(url.len() as int));
    assert(with_query.take(url.len() as int) =~= url.take(url.len() as int));
}

/// A portable name holds none of the characters a file name may not hold:
/// no control character (C0, DEL or C1), no `/` or `\`, and none of
/// `<`, `>`, `:`, `"`, `|`, `?`, `*`, at any position; and it is neither
/// empty, `.` nor `..`, nor ends with a space or a dot.
pub proof fn lemma_portable_names_hold_no_forbidden_character(name: Seq<char>)
    ensures
        spec_portable_name_problem(name) is None ==> {
            &&& name.len() > 0
            &&& name != seq!['.'] && name != seq!['.', '.']
            &&& name.last() != ' ' && name.last() != '.'
            &&& forall|i: int|
                0 <= i < name.len() ==> {
                    let c = #[trigger] name[i];
                    &&& (c as u32) > 0x1f
                    &&& !(0x7f <= (c as u32) && (c as u32) <= 0x9f)
                    &&& c != '/' && c != '\\' && c != '<' && c != '>' && c != ':'
                    &&& c != '"' && c != '|' && c != '?' && c != '*'
                }
        },
{
    if spec_portable_name_problem(name) is None {
        assert forall|i: int| 0 <= i < name.len() implies !is_forbidden_char(#[trigger] name[i]) by {}
    }
}

/// The last `b` of a byte sequence is found: it is `b`, and no later byte
/// is.
pub proof fn lemma_last_index_of_byte_found(s: Seq<u8>, b: u8)
    ensures
        -1 <= last_index_of_byte(s, b) < s.len(),
        last_index_of_byte(s, b) >= 0 ==> s[last_index_of_byte(s, b)] == b,
        forall|k: int| last_index_of_byte(s, b) < k < s.len() ==> s[k] != b,
    decreases s.len(),
{
    if s.len() > 0 && s.last() != b {
        lemma_last_index_of_byte_found(s.drop_last(), b);
        let r = last_index_of_byte(s.drop_last(), b);
        if r >= 0 {
            assert(s[r] == s.drop_last()[r]);
        }
        assert forall|k: int| r < k < s.len() implies s[k] != b by {
            if k < s.len() - 1 {
                assert(s[k] == s.drop_last()[k]);
            }
        }
    }
}

/// The stem and the extension split a file name at its last dot that is
/// not its first byte: when the name has such a dot, the stem is what comes
/// before it and the extension what comes after it, so that stem, dot and
/// extension give back the name; when it has none, the stem is the whole
/// name and there is no extension.
pub proof fn lemma_stem_and_extension_split_the_name(path: Seq<u8>)
    ensures
        spec_file_name(path) is None ==> spec_file_stem(path) is None && spec_extension(path) is None,
        spec_file_name(path) matches Some(n) ==> {
            ||| (exists|d: int| 0 < d < n.len() && n[d] == dot() && (forall|k: int| d < k < n.len() ==> n[k] != dot()) && spec_file_stem(path) == Some(n.take(d)) && spec_extension(path) == Some(n.skip(d + 1)))
            ||| ((forall|k: int| 1 <= k < n.len() ==> n[k] != dot()) && spec_file_stem(path) == Some(n) && spec_extension(path) is None)
        },
        spec_extension(path) matches Some(e) ==> (spec_file_stem(path) matches Some(stem) && spec_file_name(path) == Some(stem + seq![dot()] + e)),
{
    match spec_file_name(path) {
        Some(n) => {
            lemma_last_index_of_byte_found(n, dot());
            let d = last_index_of_byte(n, dot());
            if d > 0 {
                assert(n.take(d) + seq![dot()] + n.skip(d + 1) =~= n);
            }
        },
        None => {},
    }
}

} // verus!
