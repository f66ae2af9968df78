//! Small text operations shared by the other modules.

use vstd::prelude::*;

verus! {

/// `String::push` of std: one character is appended, and nothing before it
/// changes.
pub assume_specification[ String::push ](s: &mut String, c: char)
    ensures
        final(s)@ == old(s)@.push(c),
;

/// Whether two strings hold the same characters.
pub fn text_eq(a: &str, b: &str) -> (same: bool)
    ensures
        same == (a@ == b@),
{
    a.to_owned() == b.to_owned()
}

/// The characters that have Unicode's White_Space property.
pub open spec fn white_space(c: char) -> bool {
    ||| '\u{9}' <= c <= '\u{d}'
    ||| c == ' '
    ||| c == '\u{85}'
    ||| c == '\u{a0}'
    ||| c == '\u{1680}'
    ||| '\u{2000}' <= c <= '\u{200a}'
    ||| c == '\u{2028}'
    ||| c == '\u{2029}'
    ||| c == '\u{202f}'
    ||| c == '\u{205f}'
    ||| c == '\u{3000}'
}

/// Whether `c` has Unicode's White_Space property.
pub fn is_white_space(c: char) -> (white: bool)
    ensures
        white == white_space(c),
{
    ('\u{9}' <= c && c <= '\u{d}') || c == ' ' || c == '\u{85}' || c == '\u{a0}' || c == '\u{1680}'
        || ('\u{2000}' <= c && c <= '\u{200a}') || c == '\u{2028}' || c == '\u{2029}' || c
        == '\u{202f}' || c == '\u{205f}' || c == '\u{3000}'
}

/// A text with nothing but white space in it: trimming leaves it empty.
pub open spec fn blank(s: Seq<char>) -> bool {
    forall|i: int| 0 <= i < s.len() ==> white_space(#[trigger] s[i])
}

/// Whether trimming `s` leaves nothing.
pub fn is_blank(s: &str) -> (empty: bool)
    ensures
        empty == blank(s@),
{
    let mut empty: bool = true;
    for c in it: s.chars()
        invariant
            it.seq() == s@,
            empty == (forall|i: int| 0 <= i < it.index() ==> white_space(#[trigger] s@[i])),
    {
        if !is_white_space(c) {
            empty = false;
        }
    }
    empty
}

/// The decimal digit of a number below ten.
pub open spec fn digit(d: nat) -> char {
    ('0' as nat + d) as char
}

/// The decimal digits of a natural number, without leading zeros.
pub open spec fn digits(n: nat) -> Seq<char>
    decreases n,
{
    if n < 10 {
        seq![digit(n)]
    } else {
        digits(n / 10).push(digit(n % 10))
    }
}

/// A whole number in decimal notation.
pub open spec fn decimal(n: int) -> Seq<char> {
    if n < 0 {
        seq!['-'] + digits((-n) as nat)
    } else {
        digits(n as nat)
    }
}

fn push_digits(out: &mut String, n: u64)
    ensures
        final(out)@ == old(out)@ + digits(n as nat),
    decreases n,
{
    if n >= 10 {
        push_digits(out, n / 10);
    }
    let d: u8 = (n % 10) as u8;
    out.push((48u8 + d) as char);
    proof {
        assert(out@ =~= old(out)@ + digits(n as nat));
    }
}

/// Writes a number in decimal notation at the end of `out`.
pub fn push_decimal(out: &mut String, n: i64)
    ensures
        final(out)@ == old(out)@ + decimal(n as int),
{
    if n < 0 {
        out.push('-');
        let magnitude: i128 = -(n as i128);
        push_digits(out, magnitude as u64);
        proof {
            assert(out@ =~= old(out)@ + decimal(n as int));
        }
    } else {
        push_digits(out, n as u64);
    }
}

proof fn lemma_digits(n: nat)
    ensures
        digits(n).len() >= 1,
        forall|i: int| 0 <= i < digits(n).len() ==> '0' <= #[trigger] digits(n)[i] <= '9',
    decreases n,
{
    if n >= 10 {
        lemma_digits(n / 10);
    }
}

proof fn lemma_digits_injective(a: nat, b: nat)
    requires
        digits(a) == digits(b),
    ensures
        a == b,
    decreases a,
{
    lemma_digits(a / 10);
    lemma_digits(b / 10);
    assert(digits(a).last() == digit(a % 10));
    assert(digits(b).last() == digit(b % 10));
    assert(digit(a % 10) as nat == digit(b % 10) as nat);
    if a >= 10 {
        assert(digits(a).drop_last() =~= digits(a / 10));
        assert(digits(b).drop_last() =~= digits(b / 10));
        lemma_digits_injective(a / 10, b / 10);
    }
}

/// Decimal notation holds digits and a sign only.
pub proof fn lemma_decimal_symbols(n: int)
    ensures
        forall|i: int|
            0 <= i < decimal(n).len() ==> '0' <= #[trigger] decimal(n)[i] <= '9' || decimal(n)[i]
                == '-',
{
    lemma_digits(n as nat);
    lemma_digits((-n) as nat);
}

/// Different numbers have different decimal notations.
pub proof fn law_decimal_injective(a: int, b: int)
    requires
        decimal(a) == decimal(b),
    ensures
        a == b,
{
    lemma_digits(a as nat);
    lemma_digits(b as nat);
    if a < 0 {
        assert(decimal(b)[0] == '-');
        assert(digits((-a) as nat) =~= decimal(a).skip(1));
        assert(digits((-b) as nat) =~= decimal(b).skip(1));
        lemma_digits_injective((-a) as nat, (-b) as nat);
    } else {
        assert(decimal(b)[0] != '-');
        lemma_digits_injective(a as nat, b as nat);
    }
}

/// A text is cut in one way only at the last occurrence of a character.
pub proof fn lemma_cut_at_last(x: Seq<char>, p: Seq<char>, y: Seq<char>, q: Seq<char>, mark: char)
    requires
        x + seq![mark] + p == y + seq![mark] + q,
        !p.contains(mark),
        !q.contains(mark),
    ensures
        x == y,
        p == q,
{
    let whole = x + seq![mark] + p;
    if p.len() < q.len() {
        let k = whole.len() - 1 - p.len();
        assert(whole[k] == mark);
        assert(q[k - y.len() - 1] == mark);
    } else if q.len() < p.len() {
        let k = whole.len() - 1 - q.len();
        assert(whole[k] == mark);
        assert(p[k - x.len() - 1] == mark);
    }
    let other = y + seq![mark] + q;
    assert(p.len() == q.len());
    assert(whole.len() == x.len() + 1 + p.len() && other.len() == y.len() + 1 + q.len());
    assert(x =~= whole.take(x.len() as int));
    assert(y =~= other.take(x.len() as int));
    assert(p =~= whole.skip(x.len() as int + 1));
    assert(q =~= other.skip(x.len() as int + 1));
}

/// A text is cut in one way only at the first occurrence of a character.
pub proof fn lemma_cut_at_first(x: Seq<char>, p: Seq<char>, y: Seq<char>, q: Seq<char>, mark: char)
    requires
        x + seq![mark] + p == y + seq![mark] + q,
        !x.contains(mark),
        !y.contains(mark),
    ensures
        x == y,
        p == q,
{
    let whole = x + seq![mark] + p;
    if x.len() < y.len() {
        assert(whole[x.len() as int] == mark);
        assert(y[x.len() as int] == mark);
    } else if y.len() < x.len() {
        assert(whole[y.len() as int] == mark);
        assert(x[y.len() as int] == mark);
    }
    let other = y + seq![mark] + q;
    assert(x.len() == y.len());
    assert(x =~= whole.take(x.len() as int));
    assert(y =~= other.take(x.len() as int));
    assert(p =~= whole.skip(x.len() as int + 1));
    assert(q =~= other.skip(x.len() as int + 1));
}

/// A text is blank exactly where each of its parts is, and a single character is
/// blank exactly where it is white space.
pub proof fn law_blank_by_parts(a: Seq<char>, b: Seq<char>, c: char)
    ensures
        blank(Seq::<char>::empty()),
        blank(seq![c]) <==> white_space(c),
        blank(a + b) <==> blank(a) && blank(b),
{
    assert(seq![c][0] == c);
    if blank(a + b) {
        assert forall|i: int| 0 <= i < a.len() implies white_space(#[trigger] a[i]) by {
            assert((a + b)[i] == a[i]);
        }
        assert forall|i: int| 0 <= i < b.len() implies white_space(#[trigger] b[i]) by {
            assert((a + b)[a.len() + i] == b[i]);
        }
    }
}

/// Decimal notation: a number below ten is one digit, a further digit multiplies
/// by ten, and a minus sign negates.
pub proof fn law_decimal_notation(n: int, d: int)
    requires
        0 <= d < 10,
        n > 0,
    ensures
        decimal(d).len() == 1,
        decimal(d)[0] as int == 48 + d,
        decimal(10 * n + d) == decimal(n) + decimal(d),
        decimal(-n) == seq!['-'] + decimal(n),
{
    assert((10 * n + d) / 10 == n && (10 * n + d) % 10 == d);
    assert(decimal(10 * n + d) =~= decimal(n) + decimal(d));
}

/// White space, by code point: the characters that trimming removes, and no other.
pub proof fn law_white_space(c: char)
    ensures
        ({
            let point = c as int;
            &&& white_space(c) ==> 9 <= point <= 13 || point == 0x20 || point == 0x85 || point
                == 0xa0 || point == 0x1680 || 0x2000 <= point <= 0x200a || point == 0x2028 || point
                == 0x2029 || point == 0x202f || point == 0x205f || point == 0x3000
            &&& 9 <= point <= 13 || point == 0x20 || point == 0x85 || point == 0xa0 ==> white_space(c)
            &&& point == 0x1680 || 0x2000 <= point <= 0x200a ==> white_space(c)
            &&& point == 0x2028 || point == 0x2029 || point == 0x202f || point == 0x205f || point
                == 0x3000 ==> white_space(c)
        }),
{
}

} // verus!
