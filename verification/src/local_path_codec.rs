//! Canonical escaped-byte conversion for native path components.
//!
//! A native (Unix) path component is a sequence of bytes. Its canonical text
//! keeps every well-formed UTF-8 scalar literally, except `%` and Unicode
//! control characters, whose UTF-8 bytes are written as uppercase `%XX`
//! escapes. Bytes that do not start a well-formed scalar are escaped one by
//! one. Decoding reverses the escapes, so every NUL-free component has exactly
//! one canonical text and that text decodes back to the component.
use vstd::prelude::*;
use vstd::utf8::*;

use crate::display_text::utf8_string;

verus! {

broadcast use vstd::seq::group_seq_axioms;

/// ASCII code of `%`.
pub open spec fn percent_byte() -> u8 {
    0x25u8
}

/// Uppercase hexadecimal digit (as an ASCII byte) of a nibble.
pub open spec fn hex_digit(nibble: u8) -> u8 {
    if nibble < 10 {
        (0x30 + nibble) as u8
    } else {
        (0x41 + (nibble - 10)) as u8
    }
}

/// Whether a byte is an ASCII hexadecimal digit of either case.
pub open spec fn is_hex_byte(byte: u8) -> bool {
    ||| (0x30 <= byte && byte <= 0x39)
    ||| (0x41 <= byte && byte <= 0x46)
    ||| (0x61 <= byte && byte <= 0x66)
}

/// Numeric value of an ASCII hexadecimal digit.
pub open spec fn hex_value(byte: u8) -> u8 {
    if byte <= 0x39 {
        (byte - 0x30) as u8
    } else if byte <= 0x46 {
        (byte - 0x41 + 10) as u8
    } else {
        (byte - 0x61 + 10) as u8
    }
}

/// The three ASCII bytes `%XX` that escape one byte.
pub open spec fn escape_byte(byte: u8) -> Seq<u8> {
    seq![percent_byte(), hex_digit(byte >> 4u8), hex_digit(byte & 0x0fu8)]
}

/// The escapes of every byte of `bytes`, in order.
pub open spec fn escape_all(bytes: Seq<u8>) -> Seq<u8>
    decreases bytes.len(),
{
    if bytes.len() == 0 {
        seq![]
    } else {
        escape_byte(bytes[0]) + escape_all(bytes.skip(1))
    }
}

/// Whether a Unicode scalar is written escaped: `%` and the control
/// characters `U+0000..=U+001F` and `U+007F..=U+009F`.
pub open spec fn needs_escape(scalar: u32) -> bool {
    scalar == 0x25 || scalar <= 0x1f || (0x7f <= scalar && scalar <= 0x9f)
}

/// Number of native bytes consumed by the first canonical piece of `bytes`:
/// the length of a well-formed leading scalar, or one invalid byte.
pub open spec fn first_piece_len(bytes: Seq<u8>) -> int {
    if valid_first_scalar(bytes) {
        length_of_first_scalar(bytes)
    } else {
        1
    }
}

/// UTF-8 bytes of the canonical text of the first piece of `bytes`.
pub open spec fn first_piece_text(bytes: Seq<u8>) -> Seq<u8> {
    if valid_first_scalar(bytes) {
        if needs_escape(decode_first_scalar(bytes)) {
            escape_all(bytes.take(length_of_first_scalar(bytes)))
        } else {
            bytes.take(length_of_first_scalar(bytes))
        }
    } else {
        escape_byte(bytes[0])
    }
}

/// The canonical text of a native component, as a sequence of characters.
pub open spec fn canonical_text(bytes: Seq<u8>) -> Seq<char>
    decreases bytes.len(),
{
    if bytes.len() == 0 {
        seq![]
    } else {
        decode_utf8(first_piece_text(bytes)) + canonical_text(bytes.skip(first_piece_len(bytes)))
    }
}

/// Strict percent-decoding of text bytes: `%` must be followed by two
/// hexadecimal digits of either case; every other byte stands for itself.
/// An error carries the byte offset of the malformed escape.
pub open spec fn decode_escaped(text: Seq<u8>) -> Result<Seq<u8>, int>
    decreases text.len(),
{
    if text.len() == 0 {
        Ok(seq![])
    } else if text[0] != percent_byte() {
        match decode_escaped(text.skip(1)) {
            Ok(rest) => Ok(seq![text[0]] + rest),
            Err(offset) => Err(offset + 1),
        }
    } else if text.len() >= 3 && is_hex_byte(text[1]) && is_hex_byte(text[2]) {
        match decode_escaped(text.skip(3)) {
            Ok(rest) => Ok(seq![(hex_value(text[1]) * 16 + hex_value(text[2])) as u8] + rest),
            Err(offset) => Err(offset + 3),
        }
    } else {
        Err(0)
    }
}

/// Prepends decoded bytes and shifts an error offset, describing the decoding
/// of a text whose first `consumed` bytes decoded to `prefix`.
pub open spec fn after_prefix(prefix: Seq<u8>, consumed: int, rest: Result<Seq<u8>, int>) -> Result<
    Seq<u8>,
    int,
> {
    match rest {
        Ok(bytes) => Ok(prefix + bytes),
        Err(offset) => Err(offset + consumed),
    }
}

/// Failure reported by the canonical path-component codec.
#[derive(Clone, Copy, Debug, PartialEq, Eq, Structural)]
pub enum LocalPathCodecError {
    /// A `%` at `offset` is not followed by two hexadecimal digits.
    InvalidEscape { offset: usize },
    /// The native component contains a NUL byte, which no native component
    /// may hold.
    NativeNul,
    /// The text decodes, but is not the canonical text of what it decodes
    /// to.
    NonCanonicalText,
}

/// Reversible canonical conversion for one native path component.
pub struct LocalPathCodec {
    _private: (),
}

/// The native component that canonical text stands for: the text must
/// percent-decode, hold no NUL, and be exactly the canonical text of what it
/// decodes to.
pub open spec fn spec_text_to_native(text: Seq<char>) -> Result<Seq<u8>, LocalPathCodecError> {
    match decode_escaped(encode_utf8(text)) {
        Err(offset) => Err(LocalPathCodecError::InvalidEscape { offset: offset as usize }),
        Ok(native) => {
            if native.contains(0u8) {
                Err(LocalPathCodecError::NativeNul)
            } else if canonical_text(native) != text {
                Err(LocalPathCodecError::NonCanonicalText)
            } else {
                Ok(native)
            }
        },
    }
}

/// The canonical text of a native component; components holding NUL have
/// none.
pub open spec fn spec_native_to_text(native: Seq<u8>) -> Result<Seq<char>, LocalPathCodecError> {
    if native.contains(0u8) {
        Err(LocalPathCodecError::NativeNul)
    } else {
        Ok(canonical_text(native))
    }
}

/// Canonical local text of a raw URI path component: its percent escapes
/// (either case) are decoded to bytes, and those bytes are written in
/// canonical form.
pub open spec fn spec_uri_component_text(component: Seq<char>) -> Result<
    Seq<char>,
    LocalPathCodecError,
> {
    match decode_escaped(encode_utf8(component)) {
        Err(offset) => Err(LocalPathCodecError::InvalidEscape { offset: offset as usize }),
        Ok(bytes) => spec_native_to_text(bytes),
    }
}

// ---------------------------------------------------------------------------
// Lemmas
// ---------------------------------------------------------------------------
/// UTF-8 encoding distributes over concatenation.
pub proof fn lemma_encode_utf8_concat(a: Seq<char>, b: Seq<char>)
    ensures
        encode_utf8(a + b) == encode_utf8(a) + encode_utf8(b),
    decreases a.len(),
{
    if a.len() == 0 {
        assert(a + b =~= b);
    } else {
        assert((a + b).drop_first() =~= a.drop_first() + b);
        lemma_encode_utf8_concat(a.drop_first(), b);
    }
}

/// Hexadecimal digits produced by `hex_digit` decode to their nibble.
proof fn lemma_hex_roundtrip(byte: u8)
    ensures
        is_hex_byte(hex_digit(byte >> 4u8)),
        is_hex_byte(hex_digit(byte & 0x0fu8)),
        (hex_value(hex_digit(byte >> 4u8)) * 16 + hex_value(hex_digit(byte & 0x0fu8))) as u8
            == byte,
        hex_digit(byte >> 4u8) != percent_byte(),
        hex_digit(byte & 0x0fu8) < 0x80,
        hex_digit(byte >> 4u8) < 0x80,
{
    assert(is_hex_byte(hex_digit(byte >> 4u8)) && is_hex_byte(hex_digit(byte & 0x0fu8)) && (
    hex_value(hex_digit(byte >> 4u8)) * 16 + hex_value(hex_digit(byte & 0x0fu8))) as u8 == byte
        && hex_digit(byte >> 4u8) != 0x25u8 && hex_digit(byte & 0x0fu8) < 0x80 && hex_digit(
        byte >> 4u8,
    ) < 0x80) by (bit_vector);
}

/// Decoding a literal prefix without `%` keeps it unchanged.
proof fn lemma_decode_literal_prefix(prefix: Seq<u8>, rest: Seq<u8>)
    requires
        forall|i: int| 0 <= i < prefix.len() ==> prefix[i] != percent_byte(),
    ensures
        decode_escaped(prefix + rest) == after_prefix(prefix, prefix.len() as int, decode_escaped(rest)),
    decreases prefix.len(),
{
    if prefix.len() == 0 {
        assert(prefix + rest =~= rest);
        match decode_escaped(rest) {
            Ok(bytes) => {
                assert(prefix + bytes =~= bytes);
            },
            Err(_) => {},
        }
    } else {
        let tail = prefix.skip(1);
        assert((prefix + rest).skip(1) =~= tail + rest);
        assert((prefix + rest)[0] == prefix[0]);
        lemma_decode_literal_prefix(tail, rest);
        match decode_escaped(rest) {
            Ok(bytes) => {
                assert(seq![prefix[0]] + (tail + bytes) =~= prefix + bytes);
            },
            Err(_) => {},
        }
    }
}

/// Decoding the escape of one byte yields that byte.
proof fn lemma_decode_escape_prefix(byte: u8, rest: Seq<u8>)
    ensures
        decode_escaped(escape_byte(byte) + rest) == after_prefix(seq![byte], 3, decode_escaped(rest)),
{
    lemma_hex_roundtrip(byte);
    let text = escape_byte(byte) + rest;
    assert(text[0] == percent_byte());
    assert(text[1] == hex_digit(byte >> 4u8));
    assert(text[2] == hex_digit(byte & 0x0fu8));
    assert(text.skip(3) =~= rest);
}

/// Decoding the escapes of a byte sequence yields that sequence.
proof fn lemma_decode_escape_all_prefix(bytes: Seq<u8>, rest: Seq<u8>)
    ensures
        decode_escaped(escape_all(bytes) + rest) == after_prefix(
            bytes,
            escape_all(bytes).len() as int,
            decode_escaped(rest),
        ),
    decreases bytes.len(),
{
    if bytes.len() == 0 {
        assert(escape_all(bytes) + rest =~= rest);
        match decode_escaped(rest) {
            Ok(r) => {
                assert(bytes + r =~= r);
            },
            Err(_) => {},
        }
    } else {
        let tail = bytes.skip(1);
        assert(escape_all(bytes) + rest =~= escape_byte(bytes[0]) + (escape_all(tail) + rest));
        lemma_decode_escape_prefix(bytes[0], escape_all(tail) + rest);
        lemma_decode_escape_all_prefix(tail, rest);
        match decode_escaped(rest) {
            Ok(r) => {
                assert(seq![bytes[0]] + (tail + r) =~= bytes + r);
            },
            Err(_) => {},
        }
    }
}

/// The escapes of a byte sequence are ASCII and form valid UTF-8.
proof fn lemma_escape_all_ascii(bytes: Seq<u8>)
    ensures
        forall|i: int| 0 <= i < escape_all(bytes).len() ==> escape_all(bytes)[i] < 0x80,
        escape_all(bytes).len() == 3 * bytes.len(),
    decreases bytes.len(),
{
    if bytes.len() > 0 {
        lemma_hex_roundtrip(bytes[0]);
        lemma_escape_all_ascii(bytes.skip(1));
    }
}

/// A byte sequence of ASCII bytes is valid UTF-8 and decodes to the same
/// values, so encoding its decoding gives it back.
proof fn lemma_ascii_valid_utf8(bytes: Seq<u8>)
    requires
        forall|i: int| 0 <= i < bytes.len() ==> bytes[i] < 0x80,
    ensures
        valid_utf8(bytes),
    decreases bytes.len(),
{
    if bytes.len() > 0 {
        assert(pop_first_scalar(bytes) =~= bytes.skip(1));
        lemma_ascii_valid_utf8(bytes.skip(1));
    }
}

/// A well-formed leading scalar is valid UTF-8 on its own and re-encodes to
/// its own bytes.
proof fn lemma_first_scalar_bytes(bytes: Seq<u8>)
    requires
        valid_first_scalar(bytes),
    ensures
        1 <= length_of_first_scalar(bytes) <= 4,
        length_of_first_scalar(bytes) <= bytes.len(),
        valid_utf8(bytes.take(length_of_first_scalar(bytes))),
        decode_utf8(bytes.take(length_of_first_scalar(bytes))) == seq![
            decode_first_scalar(bytes) as char,
        ],
{
    let n = length_of_first_scalar(bytes);
    let t = bytes.take(n);
    assert(valid_first_scalar(t));
    assert(pop_first_scalar(t) =~= Seq::<u8>::empty());
    assert(valid_utf8(Seq::<u8>::empty()));
    assert(valid_utf8(t));
    assert(decode_first_scalar(t) == decode_first_scalar(bytes));
    assert(decode_utf8(pop_first_scalar(t)) =~= Seq::<char>::empty());
    assert(decode_utf8(t) =~= seq![decode_first_scalar(t) as char]);
}

/// Bytes of a well-formed leading scalar are not `%` unless that scalar is
/// `%` itself.
proof fn lemma_literal_scalar_has_no_percent(bytes: Seq<u8>)
    requires
        valid_first_scalar(bytes),
        !needs_escape(decode_first_scalar(bytes)),
    ensures
        forall|i: int|
            0 <= i < length_of_first_scalar(bytes) ==> bytes[i] != percent_byte(),
{
    let b0 = bytes[0];
    if is_leading_byte_width_1(b0) {
        assert(b0 <= 0x7f ==> (b0 & 0x7f) as u32 == b0 as u32) by (bit_vector);
    }
}

/// One step of the canonical text: it starts with the text of the first
/// piece and continues with the canonical text of the remaining bytes.
pub proof fn lemma_canonical_step(bytes: Seq<u8>)
    requires
        bytes.len() > 0,
    ensures
        1 <= first_piece_len(bytes) <= bytes.len(),
        valid_utf8(first_piece_text(bytes)),
        encode_utf8(canonical_text(bytes)) == first_piece_text(bytes) + encode_utf8(
            canonical_text(bytes.skip(first_piece_len(bytes))),
        ),
        decode_escaped(first_piece_text(bytes) + decode_rest_witness(bytes)) == after_prefix(
            bytes.take(first_piece_len(bytes)),
            first_piece_text(bytes).len() as int,
            decode_escaped(decode_rest_witness(bytes)),
        ),
{
    let piece = first_piece_text(bytes);
    let rest = decode_rest_witness(bytes);
    if valid_first_scalar(bytes) {
        lemma_first_scalar_bytes(bytes);
        let n = length_of_first_scalar(bytes);
        if needs_escape(decode_first_scalar(bytes)) {
            lemma_escape_all_ascii(bytes.take(n));
            lemma_ascii_valid_utf8(piece);
            lemma_decode_escape_all_prefix(bytes.take(n), rest);
        } else {
            lemma_literal_scalar_has_no_percent(bytes);
            lemma_decode_literal_prefix(piece, rest);
        }
    } else {
        lemma_hex_roundtrip(bytes[0]);
        lemma_ascii_valid_utf8(piece);
        lemma_decode_escape_prefix(bytes[0], rest);
        assert(bytes.take(1) =~= seq![bytes[0]]);
    }
    vstd::utf8::decode_utf8_encode_utf8(piece);
    lemma_encode_utf8_concat(
        decode_utf8(piece),
        canonical_text(bytes.skip(first_piece_len(bytes))),
    );
}

/// The text bytes that follow the first piece in the canonical bytes of
/// `bytes`.
pub open spec fn decode_rest_witness(bytes: Seq<u8>) -> Seq<u8> {
    encode_utf8(canonical_text(bytes.skip(first_piece_len(bytes))))
}

/// The canonical text of every native component decodes back to exactly that
/// component.
pub proof fn lemma_canonical_text_decodes(native: Seq<u8>)
    ensures
        decode_escaped(encode_utf8(canonical_text(native))) == Ok::<Seq<u8>, int>(native),
    decreases native.len(),
{
    if native.len() > 0 {
        lemma_canonical_step(native);
        let n = first_piece_len(native);
        lemma_canonical_text_decodes(native.skip(n));
        assert(native.take(n) + native.skip(n) =~= native);
        assert(encode_utf8(canonical_text(native)) == first_piece_text(native)
            + decode_rest_witness(native));
    } else {
        assert(canonical_text(native) =~= Seq::<char>::empty());
        assert(encode_utf8(canonical_text(native)) =~= Seq::<u8>::empty());
        assert(native =~= Seq::<u8>::empty());
    }
}

/// Escaping distributes over concatenation.
proof fn lemma_escape_all_concat(a: Seq<u8>, b: Seq<u8>)
    ensures
        escape_all(a + b) == escape_all(a) + escape_all(b),
    decreases a.len(),
{
    if a.len() == 0 {
        assert(a + b =~= b);
        assert(escape_all(a) =~= Seq::<u8>::empty());
        assert(escape_all(a) + escape_all(b) =~= escape_all(b));
    } else {
        assert((a + b).skip(1) =~= a.skip(1) + b);
        lemma_escape_all_concat(a.skip(1), b);
        assert(escape_all(a + b) =~= escape_byte(a[0]) + escape_all(a.skip(1) + b));
    }
}

/// Escaping a prefix one byte longer appends the escape of that byte.
proof fn lemma_escape_all_take_step(bytes: Seq<u8>, k: int)
    requires
        0 <= k < bytes.len(),
    ensures
        escape_all(bytes.take(k + 1)) == escape_all(bytes.take(k)) + escape_byte(bytes[k]),
{
    assert(bytes.take(k + 1) =~= bytes.take(k) + seq![bytes[k]]);
    lemma_escape_all_concat(bytes.take(k), seq![bytes[k]]);
    assert(seq![bytes[k]].skip(1) =~= Seq::<u8>::empty());
    assert(escape_all(Seq::<u8>::empty()) =~= Seq::<u8>::empty());
    assert(escape_all(seq![bytes[k]]) =~= escape_byte(bytes[k]));
}

// ---------------------------------------------------------------------------
// Executable conversion
// ---------------------------------------------------------------------------
/// Uppercase hexadecimal digit of a nibble.
fn hex_digit_exec(nibble: u8) -> (digit: u8)
    requires
        nibble < 16,
    ensures
        digit == hex_digit(nibble),
{
    if nibble < 10 {
        0x30 + nibble
    } else {
        0x41 + (nibble - 10)
    }
}

/// Whether a byte is a hexadecimal digit, and its value.
fn hex_value_exec(byte: u8) -> (res: Option<u8>)
    ensures
        res is Some <==> is_hex_byte(byte),
        res matches Some(v) ==> v == hex_value(byte) && v < 16,
{
    if 0x30 <= byte && byte <= 0x39 {
        Some(byte - 0x30)
    } else if 0x41 <= byte && byte <= 0x46 {
        Some(byte - 0x41 + 10)
    } else if 0x61 <= byte && byte <= 0x66 {
        Some(byte - 0x61 + 10)
    } else {
        None
    }
}

/// Appends the `%XX` escape of one byte.
fn push_escape(out: &mut Vec<u8>, byte: u8)
    ensures
        final(out)@ == old(out)@ + escape_byte(byte),
{
    assert(byte >> 4u8 < 16 && byte & 0x0fu8 < 16) by (bit_vector);
    out.push(0x25);
    out.push(hex_digit_exec(byte >> 4u8));
    out.push(hex_digit_exec(byte & 0x0fu8));
    assert(final(out)@ =~= old(out)@ + escape_byte(byte));
}

/// Length and value of a well-formed UTF-8 scalar starting at `start`, or a
/// zero length when no well-formed scalar starts there.
pub(crate) fn first_scalar_at(bytes: &[u8], start: usize) -> (res: (usize, u32))
    requires
        start < bytes@.len(),
    ensures
        res.0 > 0 <==> valid_first_scalar(bytes@.skip(start as int)),
        res.0 > 0 ==> res.0 == length_of_first_scalar(bytes@.skip(start as int)) && res.1
            == decode_first_scalar(bytes@.skip(start as int)),
{
    let ghost s = bytes@.skip(start as int);
    let remaining = bytes.len() - start;
    let b0 = bytes[start];
    assert(s[0] == b0);
    if b0 <= 0x7f {
        return (1, (b0 & 0x7f) as u32);
    }
    if 0xc0 <= b0 && b0 <= 0xdf {
        if remaining < 2 {
            return (0, 0);
        }
        let b1 = bytes[start + 1];
        assert(s[1] == b1);
        if !(0x80 <= b1 && b1 <= 0xbf) {
            return (0, 0);
        }
        let cp: u32 = (((b0 & 0x1f) as u32) << 6u32) | ((b1 & 0x3f) as u32);
        assert((((b0 & 0x1f) as u32) << 6u32) | ((b1 & 0x3f) as u32) <= 0x7ff) by (bit_vector);
        if cp >= 0x80 {
            return (2, cp);
        }
        return (0, 0);
    }
    if 0xe0 <= b0 && b0 <= 0xef {
        if remaining < 3 {
            return (0, 0);
        }
        let b1 = bytes[start + 1];
        let b2 = bytes[start + 2];
        assert(s[1] == b1 && s[2] == b2);
        if !(0x80 <= b1 && b1 <= 0xbf) || !(0x80 <= b2 && b2 <= 0xbf) {
            return (0, 0);
        }
        let cp: u32 = (((b0 & 0x0f) as u32) << 12u32) | (((b1 & 0x3f) as u32) << 6u32) | ((b2
            & 0x3f) as u32);
        assert((((b0 & 0x0f) as u32) << 12u32) | (((b1 & 0x3f) as u32) << 6u32) | ((b2 & 0x3f)
            as u32) <= 0xffff) by (bit_vector);
        if cp >= 0x800 && !(0xd800 <= cp && cp <= 0xdfff) {
            return (3, cp);
        }
        return (0, 0);
    }
    if 0xf0 <= b0 && b0 <= 0xf7 {
        if remaining < 4 {
            return (0, 0);
        }
        let b1 = bytes[start + 1];
        let b2 = bytes[start + 2];
        let b3 = bytes[start + 3];
        assert(s[1] == b1 && s[2] == b2 && s[3] == b3);
        if !(0x80 <= b1 && b1 <= 0xbf) || !(0x80 <= b2 && b2 <= 0xbf) || !(0x80 <= b3 && b3
            <= 0xbf) {
            return (0, 0);
        }
        let cp: u32 = (((b0 & 0x07) as u32) << 18u32) | (((b1 & 0x3f) as u32) << 12u32) | (((b2
            & 0x3f) as u32) << 6u32) | ((b3 & 0x3f) as u32);
        if 0x10000 <= cp && cp <= 0x10ffff && !(0xd800 <= cp && cp <= 0xdfff) {
            return (4, cp);
        }
        return (0, 0);
    }
    (0, 0)
}

/// Builds the UTF-8 bytes of the canonical text of a native component.
fn canonical_bytes(native: &[u8]) -> (out: Vec<u8>)
    ensures
        out@ == encode_utf8(canonical_text(native@)),
{
    let mut out: Vec<u8> = Vec::new();
    let mut i: usize = 0;
    assert(native@.skip(0) =~= native@);
    while i < native.len()
        invariant
            i <= native@.len(),
            out@ + encode_utf8(canonical_text(native@.skip(i as int))) == encode_utf8(
                canonical_text(native@),
            ),
        decreases native@.len() - i,
    {
        let ghost s = native@.skip(i as int);
        let ghost out0 = out@;
        proof {
            lemma_canonical_step(s);
        }
        let (n, cp) = first_scalar_at(native, i);
        if n > 0 {
            let ghost piece = s.take(n as int);
            assert(n <= s.len());
            let mut k: usize = 0;
            if cp == 0x25 || cp <= 0x1f || (0x7f <= cp && cp <= 0x9f) {
                while k < n
                    invariant
                        k <= n,
                        n <= s.len(),
                        i + n <= native.len(),
                        s == native@.skip(i as int),
                        piece == s.take(n as int),
                        out@ == out0 + escape_all(piece.take(k as int)),
                    decreases n - k,
                {
                    proof {
                        lemma_escape_all_take_step(piece, k as int);
                    }
                    push_escape(&mut out, native[i + k]);
                    k = k + 1;
                }
                assert(piece.take(n as int) =~= piece);
            } else {
                while k < n
                    invariant
                        k <= n,
                        n <= s.len(),
                        i + n <= native.len(),
                        s == native@.skip(i as int),
                        piece == s.take(n as int),
                        out@ == out0 + piece.take(k as int),
                    decreases n - k,
                {
                    out.push(native[i + k]);
                    assert(piece.take(k + 1) =~= piece.take(k as int).push(native@[i + k]));
                    k = k + 1;
                }
                assert(piece.take(n as int) =~= piece);
            }
            assert(s.skip(n as int) =~= native@.skip(i + n));
            i = i + n;
        } else {
            push_escape(&mut out, native[i]);
            assert(s.skip(1) =~= native@.skip(i + 1));
            i = i + 1;
        }
    }
    assert(native@.skip(i as int) =~= Seq::<u8>::empty());
    assert(canonical_text(Seq::<u8>::empty()) =~= Seq::<char>::empty());
    assert(out@ + encode_utf8(Seq::<char>::empty()) =~= out@);
    out
}

/// Strictly percent-decodes text bytes.
pub(crate) fn decode_escaped_exec(text: &[u8]) -> (res: Result<Vec<u8>, usize>)
    ensures
        match res {
            Ok(bytes) => decode_escaped(text@) == Ok::<Seq<u8>, int>(bytes@),
            Err(offset) => decode_escaped(text@) == Err::<Seq<u8>, int>(offset as int),
        },
{
    let mut out: Vec<u8> = Vec::new();
    let mut i: usize = 0;
    assert(text@.skip(0) =~= text@);
    assert(after_prefix(out@, 0, decode_escaped(text@)) == decode_escaped(text@)) by {
        match decode_escaped(text@) {
            Ok(r) => {
                assert(out@ + r =~= r);
            },
            Err(_) => {},
        }
    }
    while i < text.len()
        invariant
            i <= text@.len(),
            decode_escaped(text@) == after_prefix(
                out@,
                i as int,
                decode_escaped(text@.skip(i as int)),
            ),
        decreases text@.len() - i,
    {
        let ghost s = text@.skip(i as int);
        let ghost out0 = out@;
        let byte = text[i];
        assert(s[0] == byte);
        if byte != 0x25 {
            out.push(byte);
            assert(s.skip(1) =~= text@.skip(i + 1));
            assert(decode_escaped(text@) == after_prefix(
                out@,
                i + 1,
                decode_escaped(text@.skip(i + 1)),
            )) by {
                match decode_escaped(s.skip(1)) {
                    Ok(r) => {
                        assert(out0 + (seq![byte] + r) =~= out@ + r);
                    },
                    Err(_) => {},
                }
            }
            i = i + 1;
        } else {
            if text.len() - i < 3 {
                return Err(i);
            }
            let high = hex_value_exec(text[i + 1]);
            let low = hex_value_exec(text[i + 2]);
            assert(s[1] == text@[i + 1] && s[2] == text@[i + 2]);
            match (high, low) {
                (Some(h), Some(l)) => {
                    let value: u8 = h * 16 + l;
                    out.push(value);
                    assert(s.skip(3) =~= text@.skip(i + 3));
                    assert(decode_escaped(text@) == after_prefix(
                        out@,
                        i + 3,
                        decode_escaped(text@.skip(i + 3)),
                    )) by {
                        match decode_escaped(s.skip(3)) {
                            Ok(r) => {
                                assert(out0 + (seq![value] + r) =~= out@ + r);
                            },
                            Err(_) => {},
                        }
                    }
                    i = i + 3;
                },
                _ => {
                    return Err(i);
                },
            }
        }
    }
    assert(text@.skip(i as int) =~= Seq::<u8>::empty());
    assert(out@ + Seq::<u8>::empty() =~= out@);
    Ok(out)
}

/// Whether a byte sequence is well-formed UTF-8.
pub fn is_valid_utf8(bytes: &[u8]) -> (res: bool)
    ensures
        res == valid_utf8(bytes@),
{
    let mut i: usize = 0;
    assert(bytes@.skip(0) =~= bytes@);
    while i < bytes.len()
        invariant
            i <= bytes@.len(),
            valid_utf8(bytes@) == valid_utf8(bytes@.skip(i as int)),
        decreases bytes@.len() - i,
    {
        let ghost s = bytes@.skip(i as int);
        let (n, _cp) = first_scalar_at(bytes, i);
        if n == 0 {
            return false;
        }
        assert(pop_first_scalar(s) =~= bytes@.skip(i + n));
        i = i + n;
    }
    assert(bytes@.skip(i as int) =~= Seq::<u8>::empty());
    true
}

/// Whether two byte sequences are equal.
pub(crate) fn bytes_equal(a: &[u8], b: &[u8]) -> (res: bool)
    ensures
        res == (a@ == b@),
{
    if a.len() != b.len() {
        return false;
    }
    let mut i: usize = 0;
    while i < a.len()
        invariant
            i <= a@.len(),
            a@.len() == b@.len(),
            forall|j: int| 0 <= j < i ==> a@[j] == b@[j],
        decreases a@.len() - i,
    {
        if a[i] != b[i] {
            return false;
        }
        i = i + 1;
    }
    assert(a@ =~= b@);
    true
}

/// Converts canonical bytes of valid UTF-8 into their string.
fn canonical_string(native: &[u8]) -> (text: String)
    ensures
        text@ == canonical_text(native@),
{
    let bytes = canonical_bytes(native);
    proof {
        vstd::utf8::encode_utf8_valid_utf8(canonical_text(native@));
        vstd::utf8::encode_utf8_decode_utf8(canonical_text(native@));
    }
    match utf8_string(bytes) {
        Some(text) => text,
        None => String::new(),
    }
}

impl LocalPathCodec {
    /// Converts canonical escaped-byte text to one native path component.
    ///
    /// Fails with `InvalidEscape` when a `%` is not followed by two
    /// hexadecimal digits, with `NativeNul` when the decoded component would
    /// contain NUL, and with `NonCanonicalText` when the text is not the
    /// canonical text of its decoding.
    pub fn encode(text: &str) -> (res: Result<Vec<u8>, LocalPathCodecError>)
        ensures
            match res {
                Ok(native) => spec_text_to_native(text@) == Ok::<Seq<u8>, LocalPathCodecError>(
                    native@,
                ),
                Err(error) => spec_text_to_native(text@) == Err::<Seq<u8>, LocalPathCodecError>(
                    error,
                ),
            },
    {
        let bytes = text.as_bytes();
        let native = match decode_escaped_exec(bytes) {
            Ok(native) => native,
            Err(offset) => {
                return Err(LocalPathCodecError::InvalidEscape { offset });
            },
        };
        if contains_nul(native.as_slice()) {
            return Err(LocalPathCodecError::NativeNul);
        }
        let canonical = canonical_bytes(native.as_slice());
        proof {
            vstd::utf8::encode_utf8_decode_utf8(canonical_text(native@));
            vstd::utf8::encode_utf8_decode_utf8(text@);
        }
        if !bytes_equal(canonical.as_slice(), bytes) {
            return Err(LocalPathCodecError::NonCanonicalText);
        }
        Ok(native)
    }

    /// Converts one native path component to canonical escaped-byte text.
    ///
    /// Fails with `NativeNul` exactly when the component contains NUL.
    pub fn decode(native: &[u8]) -> (res: Result<String, LocalPathCodecError>)
        ensures
            match res {
                Ok(text) => spec_native_to_text(native@) == Ok::<Seq<char>, LocalPathCodecError>(
                    text@,
                ),
                Err(error) => spec_native_to_text(native@) == Err::<Seq<char>, LocalPathCodecError>(
                    error,
                ),
            },
    {
        if contains_nul(native) {
            return Err(LocalPathCodecError::NativeNul);
        }
        Ok(canonical_string(native))
    }

    /// Decodes one raw URI path component into canonical local path text.
    ///
    /// URI percent escapes (either case) encode bytes; `+` is not a space.
    /// The decoded bytes are written as canonical text, which keeps Unicode
    /// scalars literal and escapes `%`, controls, and invalid UTF-8 bytes.
    pub fn decode_uri_component(component: &str) -> (res: Result<String, LocalPathCodecError>)
        ensures
            match res {
                Ok(text) => spec_uri_component_text(component@) == Ok::<
                    Seq<char>,
                    LocalPathCodecError,
                >(text@),
                Err(error) => spec_uri_component_text(component@) == Err::<
                    Seq<char>,
                    LocalPathCodecError,
                >(error),
            },
    {
        let bytes = match decode_escaped_exec(component.as_bytes()) {
            Ok(bytes) => bytes,
            Err(offset) => {
                return Err(LocalPathCodecError::InvalidEscape { offset });
            },
        };
        LocalPathCodec::decode(bytes.as_slice())
    }
}

/// Decoding a NUL-free native component to text and encoding that text
/// again gives back the component.
pub proof fn lemma_native_text_roundtrip(native: Seq<u8>)
    requires
        !native.contains(0u8),
    ensures
        spec_native_to_text(native) matches Ok(text) && spec_text_to_native(text) == Ok::<
            Seq<u8>,
            LocalPathCodecError,
        >(native),
{
    lemma_canonical_text_decodes(native);
}

/// Text accepted by the codec is the canonical text of the component it
/// stands for, so converting that component back gives the same text.
pub proof fn lemma_text_native_roundtrip(text: Seq<char>)
    requires
        spec_text_to_native(text) is Ok,
    ensures
        spec_native_to_text(spec_text_to_native(text)->Ok_0) == Ok::<
            Seq<char>,
            LocalPathCodecError,
        >(text),
{
}

/// Two NUL-free native components with the same canonical text are equal.
pub proof fn lemma_canonical_text_injective(a: Seq<u8>, b: Seq<u8>)
    requires
        !a.contains(0u8),
        !b.contains(0u8),
        canonical_text(a) == canonical_text(b),
    ensures
        a == b,
{
    lemma_canonical_text_decodes(a);
    lemma_canonical_text_decodes(b);
}

/// Decoding a URI component that already is canonical text leaves it
/// unchanged.
pub proof fn lemma_uri_decoding_fixes_canonical_text(text: Seq<char>)
    requires
        spec_text_to_native(text) is Ok,
    ensures
        spec_uri_component_text(text) == Ok::<Seq<char>, LocalPathCodecError>(text),
{
}

fn contains_nul(bytes: &[u8]) -> (res: bool)
    ensures
        res == bytes@.contains(0u8),
{
    let mut i: usize = 0;
    while i < bytes.len()
        invariant
            i <= bytes@.len(),
            forall|j: int| 0 <= j < i ==> bytes@[j] != 0u8,
        decreases bytes@.len() - i,
    {
        if bytes[i] == 0 {
            assert(bytes@[i as int] == 0u8);
            return true;
        }
        i = i + 1;
    }
    false
}

} // verus!
