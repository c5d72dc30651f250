//! Best-effort normalization of free-text fields.
//!
//! Operating-system text fields sometimes arrive with embedded non-printable
//! padding or, as a workaround observed in the data sources, base64- or
//! hex-encoded. `decode_if_encoded` strips non-printable characters, then
//! substitutes a base64 or hex decoding of the remainder whenever the decoded
//! bytes form printable text of length greater than two; otherwise it returns
//! the cleaned original. It is lossy and heuristic, but total: it never fails
//! the enclosing request.

use base64::Engine;
use vstd::prelude::*;
use vstd::string::StringSliceAdditionalSpecFns;

use crate::textfmt::push_char;

verus! {

/// A character the sanitizer keeps: ASCII graphic or ASCII whitespace
/// (space, tab, line feed, form feed, carriage return).
pub open spec fn keepable(c: char) -> bool {
    ('!' <= c <= '~') || c == ' ' || c == '\t' || c == '\n' || c == '\u{c}' || c == '\r'
}

/// Every character of `s` is keepable.
pub open spec fn printable_text(s: Seq<char>) -> bool {
    forall|i: int| 0 <= i < s.len() ==> keepable(#[trigger] s[i])
}

/// A byte that stands for a keepable ASCII character.
pub open spec fn keepable_byte(b: u8) -> bool {
    keepable(b as char)
}

/// The characters spelled by a sequence of ASCII bytes.
pub open spec fn chars_of_bytes(bs: Seq<u8>) -> Seq<char> {
    bs.map_values(|b: u8| b as char)
}

/// Decoded bytes are substituted for the original text only when they spell
/// printable text of length greater than two.
pub open spec fn text_acceptable(bs: Seq<u8>) -> bool {
    bs.len() > 2 && forall|i: int| 0 <= i < bs.len() ==> keepable_byte(#[trigger] bs[i])
}

/// What base64 decoding (standard alphabet, padding required) returns on the
/// text `s`, or `None` where `s` is not valid base64. The result is a
/// function of `s` alone.
pub uninterp spec fn b64_decode_of(s: Seq<char>) -> Option<Seq<u8>>;

/// What base64 encoding (standard alphabet, with padding) returns on the
/// bytes `b`. The result is a function of `b` alone.
pub uninterp spec fn b64_encode_of(b: Seq<u8>) -> Seq<char>;

/// A character of the standard base64 alphabet, or the padding sign.
pub open spec fn is_base64_char(c: char) -> bool {
    ('A' <= c <= 'Z') || ('a' <= c <= 'z') || ('0' <= c <= '9') || c == '+' || c == '/' || c
        == '='
}

/// The text that the base64 stage substitutes for `c`, if any.
pub open spec fn b64_text_of(c: Seq<char>) -> Option<Seq<char>> {
    match b64_decode_of(c) {
        Some(bs) => if text_acceptable(bs) {
            Some(chars_of_bytes(bs))
        } else {
            None
        },
        None => None,
    }
}

/// A hexadecimal digit.
pub open spec fn is_hex_digit_char(c: char) -> bool {
    ('0' <= c <= '9') || ('a' <= c <= 'f') || ('A' <= c <= 'F')
}

/// The value of a hexadecimal digit (meaningful only for hex digits).
pub open spec fn hex_val(c: char) -> int {
    if '0' <= c <= '9' {
        c as u32 - 0x30
    } else if 'a' <= c <= 'f' {
        c as u32 - 0x57
    } else if 'A' <= c <= 'F' {
        c as u32 - 0x37
    } else {
        0
    }
}

/// Text that looks hex-encoded: even length, hexadecimal digits throughout.
pub open spec fn hex_shaped(s: Seq<char>) -> bool {
    s.len() % 2 == 0 && forall|i: int| 0 <= i < s.len() ==> is_hex_digit_char(#[trigger] s[i])
}

/// The bytes spelled by a sequence of hexadecimal digit pairs.
pub open spec fn hex_bytes_of(s: Seq<char>) -> Seq<u8>
    decreases s.len(),
{
    if s.len() < 2 {
        Seq::empty()
    } else {
        hex_bytes_of(s.drop_last().drop_last()).push(
            ((16 * hex_val(s[s.len() - 2]) + hex_val(s[s.len() - 1])) as u8),
        )
    }
}

/// The text that the hex stage substitutes for `c`, if any.
pub open spec fn hex_text_of(c: Seq<char>) -> Option<Seq<char>> {
    if hex_shaped(c) && text_acceptable(hex_bytes_of(c)) {
        Some(chars_of_bytes(hex_bytes_of(c)))
    } else {
        None
    }
}

/// The predicate the cleaning stage filters with.
pub open spec fn keep_pred() -> spec_fn(char) -> bool {
    |c: char| keepable(c)
}

/// The non-printable characters of `s`, removed.
pub open spec fn clean_of(s: Seq<char>) -> Seq<char> {
    s.filter(keep_pred())
}

/// What `decode_if_encoded` returns: the cleaned text, or its base64 or hex
/// decoding where one is acceptable, the base64 stage tried first.
pub open spec fn decode_spec(s: Seq<char>) -> Seq<char> {
    let c = clean_of(s);
    match b64_text_of(c) {
        Some(t) => t,
        None => match hex_text_of(c) {
            Some(t) => t,
            None => c,
        },
    }
}

/// One of the two decode stages would substitute new text for `t`.
pub open spec fn decodes_further(t: Seq<char>) -> bool {
    b64_text_of(clean_of(t)) is Some || hex_text_of(clean_of(t)) is Some
}

/// Relies on `base64::engine::general_purpose::STANDARD` and
/// `base64::Engine::decode`: the decoded bytes (or the rejection) are a
/// function of the input text alone.
#[verifier::external_body]
fn base64_decode_text(s: &str) -> (r: Option<Vec<u8>>)
    ensures
        match r {
            Some(v) => b64_decode_of(s@) == Some(v@),
            None => b64_decode_of(s@) is None,
        },
{
    base64::engine::general_purpose::STANDARD.decode(s).ok()
}

/// Relies on `base64::engine::general_purpose::STANDARD` and
/// `base64::Engine::encode`: the output is a function of the input bytes
/// alone, is written in the standard alphabet with padding, and decoding it
/// with the same engine yields the input bytes again. The length bound keeps
/// the engine's output-size calculation from overflowing.
#[verifier::external_body]
fn base64_encode_bytes(b: &[u8]) -> (r: String)
    requires
        b@.len() <= usize::MAX as int / 4,
    ensures
        r@ == b64_encode_of(b@),
        b64_decode_of(r@) == Some(b@),
        forall|i: int| 0 <= i < r@.len() ==> is_base64_char(#[trigger] r@[i]),
{
    base64::engine::general_purpose::STANDARD.encode(b)
}

fn is_keepable_char(c: char) -> (b: bool)
    ensures
        b == keepable(c),
{
    ('!' <= c && c <= '~') || c == ' ' || c == '\t' || c == '\n' || c == '\u{c}' || c == '\r'
}

fn is_keepable_byte(b: u8) -> (r: bool)
    ensures
        r == keepable_byte(b),
{
    let c = b as char;
    is_keepable_char(c)
}

fn is_hex_digit(c: char) -> (b: bool)
    ensures
        b == is_hex_digit_char(c),
{
    ('0' <= c && c <= '9') || ('a' <= c && c <= 'f') || ('A' <= c && c <= 'F')
}

fn hex_digit_val(c: char) -> (v: u8)
    requires
        is_hex_digit_char(c),
    ensures
        v == hex_val(c),
        v < 16,
{
    let u = c as u32;
    if '0' <= c && c <= '9' {
        (u - 0x30) as u8
    } else if 'a' <= c && c <= 'f' {
        (u - 0x57) as u8
    } else {
        (u - 0x37) as u8
    }
}

proof fn lemma_filter_push(s: Seq<char>, c: char, p: spec_fn(char) -> bool)
    ensures
        s.push(c).filter(p) == if p(c) {
            s.filter(p).push(c)
        } else {
            s.filter(p)
        },
{
    reveal_with_fuel(Seq::filter, 2);
    assert(s.push(c).drop_last() =~= s);
    assert(s.push(c).last() == c);
}

proof fn lemma_filter_all(s: Seq<char>, p: spec_fn(char) -> bool)
    requires
        forall|i: int| 0 <= i < s.len() ==> p(#[trigger] s[i]),
    ensures
        s.filter(p) == s,
    decreases s.len(),
{
    reveal_with_fuel(Seq::filter, 2);
    if s.len() == 0 {
        assert(s.filter(p) =~= s);
    } else {
        lemma_filter_all(s.drop_last(), p);
        assert(s.drop_last().push(s.last()) =~= s);
    }
}

/// Removes every non-printable character of `s`.
fn clean_text(s: &str) -> (r: String)
    ensures
        r@ == clean_of(s@),
{
    let n = s.unicode_len();
    let mut out = String::new();
    let mut i: usize = 0;
    while i < n
        invariant
            n == s@.len(),
            i <= n,
            out@ == s@.take(i as int).filter(keep_pred()),
        decreases n - i,
    {
        let c = s.get_char(i);
        proof {
            assert(s@.take(i + 1) =~= s@.take(i as int).push(s@[i as int]));
            lemma_filter_push(s@.take(i as int), s@[i as int], keep_pred());
        }
        if is_keepable_char(c) {
            push_char(&mut out, c);
        }
        i = i + 1;
    }
    proof {
        assert(s@.take(n as int) =~= s@);
    }
    out
}

/// Accepts the bytes as substitute text when they spell printable text of
/// length greater than two, and spells it out.
fn printable_text_of(bytes: &Vec<u8>) -> (r: Option<String>)
    ensures
        match r {
            Some(t) => text_acceptable(bytes@) && t@ == chars_of_bytes(bytes@),
            None => !text_acceptable(bytes@),
        },
{
    if bytes.len() <= 2 {
        return None;
    }
    let mut out = String::new();
    let mut i: usize = 0;
    while i < bytes.len()
        invariant
            i <= bytes@.len(),
            out@.len() == i,
            forall|j: int| 0 <= j < i ==> keepable_byte(#[trigger] bytes@[j]),
            forall|j: int| 0 <= j < i ==> out@[j] == bytes@[j] as char,
        decreases bytes@.len() - i,
    {
        let b = bytes[i];
        if !is_keepable_byte(b) {
            return None;
        }
        push_char(&mut out, b as char);
        i = i + 1;
    }
    proof {
        assert(out@ =~= chars_of_bytes(bytes@));
    }
    Some(out)
}

/// Whether the cleaned text looks hex-encoded.
fn is_hex_shaped(s: &String) -> (b: bool)
    ensures
        b == hex_shaped(s@),
{
    let n = s.as_str().unicode_len();
    if n % 2 != 0 {
        return false;
    }
    let mut i: usize = 0;
    while i < n
        invariant
            n == s@.len(),
            n % 2 == 0,
            i <= n,
            forall|j: int| 0 <= j < i ==> is_hex_digit_char(#[trigger] s@[j]),
        decreases n - i,
    {
        let c = s.as_str().get_char(i);
        if !is_hex_digit(c) {
            return false;
        }
        i = i + 1;
    }
    true
}

/// Decodes hex-shaped text into its bytes.
fn hex_decode(s: &String) -> (r: Vec<u8>)
    requires
        hex_shaped(s@),
    ensures
        r@ == hex_bytes_of(s@),
{
    let n = s.as_str().unicode_len();
    let mut out: Vec<u8> = Vec::new();
    let mut i: usize = 0;
    while i < n / 2
        invariant
            n == s@.len(),
            hex_shaped(s@),
            i <= n / 2,
            n % 2 == 0,
            out@ == hex_bytes_of(s@.take(2 * i as int)),
        decreases n / 2 - i,
    {
        let hi = s.as_str().get_char(2 * i);
        let lo = s.as_str().get_char(2 * i + 1);
        let hv = hex_digit_val(hi);
        let lv = hex_digit_val(lo);
        let b: u8 = 16 * hv + lv;
        proof {
            let t = s@.take(2 * (i as int + 1));
            assert(t.drop_last().drop_last() =~= s@.take(2 * i as int));
            assert(t[t.len() - 2] == s@[2 * i as int]);
            assert(t[t.len() - 1] == s@[2 * i as int + 1]);
        }
        out.push(b);
        i = i + 1;
    }
    proof {
        assert(s@.take(2 * (n / 2) as int) =~= s@);
    }
    out
}

/// Strips non-printable characters from `s`; where the remainder decodes, as
/// base64 or else as hex, into printable text of length greater than two,
/// returns that text instead. Never fails: at worst it returns the cleaned
/// original.
pub fn decode_if_encoded(s: &str) -> (r: String)
    ensures
        r@ == decode_spec(s@),
{
    let cleaned = clean_text(s);
    if let Some(bytes) = base64_decode_text(cleaned.as_str()) {
        if let Some(text) = printable_text_of(&bytes) {
            return text;
        }
    }
    if is_hex_shaped(&cleaned) {
        let bytes = hex_decode(&cleaned);
        if let Some(text) = printable_text_of(&bytes) {
            return text;
        }
    }
    cleaned
}

proof fn lemma_ascii_cast_chain(c: char)
    requires
        (c as u32) < 128,
    ensures
        ((c as u8) as char) == c,
{
}

proof fn lemma_chars_of_acceptable(bs: Seq<u8>)
    requires
        text_acceptable(bs),
    ensures
        printable_text(chars_of_bytes(bs)),
{
    let t = chars_of_bytes(bs);
    assert forall|i: int| 0 <= i < t.len() implies keepable(#[trigger] t[i]) by {
        assert(keepable_byte(bs[i]));
        assert(t[i] == bs[i] as char);
    }
}

/// Every text the sanitizer returns is printable.
pub proof fn lemma_decode_printable(s: Seq<char>)
    ensures
        printable_text(decode_spec(s)),
{
    let c = clean_of(s);
    assert forall|i: int| 0 <= i < c.len() implies keepable(#[trigger] c[i]) by {
        s.lemma_filter_pred(keep_pred(), i);
    }
    match b64_decode_of(c) {
        Some(bs) => {
            if text_acceptable(bs) {
                lemma_chars_of_acceptable(bs);
            } else {
                if hex_text_of(c) is Some {
                    lemma_chars_of_acceptable(hex_bytes_of(c));
                }
            }
        },
        None => {
            if hex_text_of(c) is Some {
                lemma_chars_of_acceptable(hex_bytes_of(c));
            }
        },
    }
}

/// Law: the sanitizer is idempotent. Running `decode_if_encoded` on its own
/// output returns that output unchanged, for every input whose decoded form
/// does not itself pass one of the two decode acceptance tests (output that
/// is again decodable — nested encodings — is decoded one stage per pass).
pub proof fn lemma_decode_idempotent(s: Seq<char>)
    requires
        !decodes_further(decode_spec(s)),
    ensures
        decode_spec(decode_spec(s)) == decode_spec(s),
{
    let t = decode_spec(s);
    lemma_decode_printable(s);
    lemma_filter_all(t, keep_pred());
    assert(clean_of(t) == t);
}

/// Law: base64 round trip. Printable text `s` of length greater than two,
/// encoded to base64 (the hypotheses state what the standard encoder
/// guarantees of its output `e`, whose decoding is the byte spelling `bs`
/// of `s`), is restored exactly by the sanitizer.
pub proof fn lemma_base64_roundtrip(s: Seq<char>, e: Seq<char>, bs: Seq<u8>)
    requires
        printable_text(s),
        s.len() > 2,
        b64_decode_of(e) == Some(bs),
        bs.len() == s.len(),
        forall|i: int| 0 <= i < s.len() ==> #[trigger] bs[i] == s[i] as u8,
        forall|i: int| 0 <= i < e.len() ==> is_base64_char(#[trigger] e[i]),
    ensures
        decode_spec(e) == s,
{
    assert forall|i: int| 0 <= i < e.len() implies keep_pred()(#[trigger] e[i]) by {
        assert(is_base64_char(e[i]));
    }
    lemma_filter_all(e, keep_pred());
    assert(clean_of(e) == e);
    assert forall|i: int| 0 <= i < bs.len() implies keepable_byte(#[trigger] bs[i]) by {
        assert(keepable(s[i]));
        assert((s[i] as u32) < 128);
        lemma_ascii_cast_chain(s[i]);
        assert(bs[i] as char == s[i]);
    }
    assert(text_acceptable(bs));
    assert forall|i: int| 0 <= i < bs.len() implies #[trigger] chars_of_bytes(bs)[i] == s[i] by {
        assert(keepable(s[i]));
        assert((s[i] as u32) < 128);
        lemma_ascii_cast_chain(s[i]);
    }
    assert(chars_of_bytes(bs) =~= s);
}

/// Encodes text to base64 such that the sanitizer restores it: for printable
/// input of length greater than two, `decode_if_encoded` of the result is the
/// input again.
pub fn encode_for_transport(s: &str) -> (r: String)
    requires
        s.spec_bytes().len() <= usize::MAX as int / 4,
    ensures
        r@ == b64_encode_of(s.spec_bytes()),
        printable_text(s@) && s@.len() > 2 ==> decode_spec(r@) == s@,
{
    let bytes = s.as_bytes();
    let r = base64_encode_bytes(bytes);
    proof {
        if printable_text(s@) && s@.len() > 2 {
            assert forall|i: int| 0 <= i < s@.len() implies '\0' <= #[trigger] s@[i]
                <= '\u{7f}' by {
                assert(keepable(s@[i]));
            }
            assert(vstd::utf8::is_ascii_chars(s@));
            vstd::utf8::is_ascii_chars_encode_utf8(s@);
            assert(bytes@.len() == s@.len());
            assert forall|i: int| 0 <= i < s@.len() implies #[trigger] bytes@[i] == s@[i] as u8 by {
                assert(s@[i] as u8 == vstd::utf8::encode_utf8(s@)[i]);
            }
            lemma_base64_roundtrip(s@, r@, bytes@);
        }
    }
    r
}

} // verus!
