//! The two text encodings that a purchase token goes through: a JSON string
//! literal and unpadded URL-safe base64.

use base64::engine::general_purpose::URL_SAFE_NO_PAD;
use base64::Engine;
use vstd::prelude::*;

verus! {

/// The errors of `base64`'s decoder; nothing inside one is read.
#[verifier::external_type_specification]
#[verifier::external_body]
pub struct ExDecodeError(base64::DecodeError);

/// The byte at `k`, or zero past the end.
pub open spec fn byte_at(bytes: Seq<u8>, k: int) -> int {
    if 0 <= k < bytes.len() {
        bytes[k] as int
    } else {
        0
    }
}

/// The `i`-th group of six bits of a byte string, filled up with zero bits at
/// the end: every three bytes hold four groups.
pub open spec fn sextet(bytes: Seq<u8>, i: int) -> int {
    let k = i / 4 * 3;
    if i % 4 == 0 {
        byte_at(bytes, k) / 4
    } else if i % 4 == 1 {
        byte_at(bytes, k) % 4 * 16 + byte_at(bytes, k + 1) / 16
    } else if i % 4 == 2 {
        byte_at(bytes, k + 1) % 16 * 4 + byte_at(bytes, k + 2) / 64
    } else {
        byte_at(bytes, k + 2) % 64
    }
}

/// The URL-safe base64 alphabet of RFC 4648.
pub open spec fn base64url_symbol(value: int) -> char {
    if value < 26 {
        ('A' as int + value) as char
    } else if value < 52 {
        ('a' as int + (value - 26)) as char
    } else if value < 62 {
        ('0' as int + (value - 52)) as char
    } else if value == 62 {
        '-'
    } else {
        '_'
    }
}

/// The URL-safe base64 text of a byte string, without padding: one symbol for
/// each group of six bits that holds a bit of the string.
pub open spec fn base64url(bytes: Seq<u8>) -> Seq<char> {
    Seq::new(
        ((8 * bytes.len() + 5) / 6) as nat,
        |i: int| base64url_symbol(sextet(bytes, i)),
    )
}

/// `Engine::encode` of `base64`'s `URL_SAFE_NO_PAD` engine: the result is the
/// unpadded URL-safe base64 text of the bytes.
#[verifier::external_body]
pub(crate) fn base64url_encode(bytes: &[u8]) -> (text: String)
    ensures
        text@ == base64url(bytes@),
{
    URL_SAFE_NO_PAD.encode(bytes)
}

/// `Engine::decode` of `base64`'s `URL_SAFE_NO_PAD` engine. The engine takes
/// canonical text only (no padding, no foreign symbol, no stray bit in the last
/// symbol): it succeeds on the texts that encoding some bytes gives, with those
/// bytes, and fails on every other text.
#[verifier::external_body]
pub(crate) fn base64url_decode(text: &str) -> (bytes: Result<Vec<u8>, base64::DecodeError>)
    ensures
        bytes matches Ok(b) ==> base64url(b@) == text@,
        bytes is Err ==> forall|b: Seq<u8>| #[trigger] base64url(b) != text@,
{
    URL_SAFE_NO_PAD.decode(text)
}

/// The lower-case hexadecimal digit of a number below sixteen.
pub open spec fn hex_digit(d: int) -> char {
    if d < 10 {
        ('0' as int + d) as char
    } else {
        ('a' as int + (d - 10)) as char
    }
}

/// How a character is written inside a JSON string literal: quotes, backslashes
/// and control characters are escaped, all others stand as they are.
pub open spec fn json_escape(c: char) -> Seq<char> {
    if c == '"' || c == '\\' {
        seq!['\\', c]
    } else if c == '\u{8}' {
        seq!['\\', 'b']
    } else if c == '\u{c}' {
        seq!['\\', 'f']
    } else if c == '\n' {
        seq!['\\', 'n']
    } else if c == '\r' {
        seq!['\\', 'r']
    } else if c == '\t' {
        seq!['\\', 't']
    } else if c <= '\u{1f}' {
        seq!['\\', 'u', '0', '0', hex_digit(c as int / 16), hex_digit(c as int % 16)]
    } else {
        seq![c]
    }
}

/// The inside of a JSON string literal.
pub open spec fn json_contents(text: Seq<char>) -> Seq<char>
    decreases text.len(),
{
    if text.len() == 0 {
        Seq::empty()
    } else {
        json_escape(text[0]) + json_contents(text.skip(1))
    }
}

/// A text as a JSON string literal.
pub open spec fn json_string(text: Seq<char>) -> Seq<char> {
    seq!['"'] + json_contents(text) + seq!['"']
}

/// `serde_json::to_string` on a string: it never fails there, and gives the
/// string's JSON literal. An error would be handed on as the text that its
/// `Display` writes.
#[verifier::external_body]
pub(crate) fn json_quote(text: &str) -> (quoted: Result<String, String>)
    ensures
        quoted is Ok && quoted->Ok_0@ == json_string(text@),
{
    serde_json::to_string(text).map_err(|e| e.to_string())
}

proof fn lemma_symbol_injective(x: int, y: int)
    requires
        0 <= x < 64,
        0 <= y < 64,
        base64url_symbol(x) == base64url_symbol(y),
    ensures
        x == y,
{
    assert(base64url_symbol(x) as int == base64url_symbol(y) as int);
}

proof fn lemma_hex_digit_injective(x: int, y: int)
    requires
        0 <= x < 16,
        0 <= y < 16,
        hex_digit(x) == hex_digit(y),
    ensures
        x == y,
{
    assert(hex_digit(x) as int == hex_digit(y) as int);
}

/// Different byte strings have different base64 texts.
pub proof fn law_base64url_injective(a: Seq<u8>, b: Seq<u8>)
    requires
        base64url(a) == base64url(b),
    ensures
        a == b,
{
    let symbols = base64url(a).len();
    assert(symbols == (8 * a.len() + 5) / 6);
    assert(symbols == (8 * b.len() + 5) / 6);
    assert(a.len() == b.len());
    assert forall|i: int| 0 <= i < base64url(a).len() implies #[trigger] sextet(a, i) == sextet(
        b,
        i,
    ) by {
        assert(base64url(a)[i] == base64url_symbol(sextet(a, i)));
        assert(base64url(b)[i] == base64url_symbol(sextet(b, i)));
        assert(0 <= sextet(a, i) < 64);
        assert(0 <= sextet(b, i) < 64);
        lemma_symbol_injective(sextet(a, i), sextet(b, i));
    }
    assert forall|j: int| 0 <= j < a.len() implies a[j] == b[j] by {
        let g = j / 3;
        if j % 3 == 0 {
            assert(sextet(a, 4 * g) == sextet(b, 4 * g));
            assert(sextet(a, 4 * g + 1) == sextet(b, 4 * g + 1));
        } else if j % 3 == 1 {
            assert(sextet(a, 4 * g + 1) == sextet(b, 4 * g + 1));
            assert(sextet(a, 4 * g + 2) == sextet(b, 4 * g + 2));
        } else {
            assert(sextet(a, 4 * g + 2) == sextet(b, 4 * g + 2));
            assert(sextet(a, 4 * g + 3) == sextet(b, 4 * g + 3));
        }
    }
    assert(a =~= b);
}

proof fn lemma_json_escape_prefix_free(c: char, x: Seq<char>, d: char, y: Seq<char>)
    requires
        json_escape(c) + x == json_escape(d) + y,
    ensures
        c == d,
        x == y,
{
    let whole = json_escape(c) + x;
    assert(whole[0] == json_escape(c)[0] && whole[0] == json_escape(d)[0]);
    if whole[0] == '\\' {
        assert(json_escape(c).len() >= 2 && json_escape(d).len() >= 2);
        assert(whole[1] == json_escape(c)[1] && whole[1] == json_escape(d)[1]);
        if whole[1] == 'u' {
            assert(json_escape(c).len() == 6 && json_escape(d).len() == 6);
            assert(whole[4] == json_escape(c)[4] && whole[4] == json_escape(d)[4]);
            assert(whole[5] == json_escape(c)[5] && whole[5] == json_escape(d)[5]);
            lemma_hex_digit_injective(c as int / 16, d as int / 16);
            lemma_hex_digit_injective(c as int % 16, d as int % 16);
        }
    }
    assert(c == d);
    let n = json_escape(c).len() as int;
    assert(x =~= whole.skip(n));
    assert(y =~= whole.skip(n));
}

proof fn lemma_json_contents_injective(a: Seq<char>, b: Seq<char>)
    requires
        json_contents(a) == json_contents(b),
    ensures
        a == b,
    decreases a.len(),
{
    if a.len() == 0 || b.len() == 0 {
        assert(a =~= b);
    } else {
        lemma_json_escape_prefix_free(
            a[0],
            json_contents(a.skip(1)),
            b[0],
            json_contents(b.skip(1)),
        );
        lemma_json_contents_injective(a.skip(1), b.skip(1));
        assert(a =~= seq![a[0]] + a.skip(1));
        assert(b =~= seq![b[0]] + b.skip(1));
    }
}

/// Different texts have different JSON string literals.
pub proof fn law_json_string_injective(a: Seq<char>, b: Seq<char>)
    requires
        json_string(a) == json_string(b),
    ensures
        a == b,
{
    let whole = json_string(a);
    assert(json_contents(a) =~= whole.subrange(1, whole.len() - 1));
    assert(json_contents(b) =~= whole.subrange(1, whole.len() - 1));
    lemma_json_contents_injective(a, b);
}

} // verus!
