//! Characters and decimal numbers, as the command line and the wire protocol
//! read them.

use vstd::prelude::*;
use vstd::utf8::{encode_utf8, encode_utf8_decode_utf8};

verus! {

/// Whether `c` is white space: one of the code points U+0009 to U+000D,
/// U+0020, U+0085, U+00A0, U+1680, U+2000 to U+200A, U+2028, U+2029, U+202F,
/// U+205F and U+3000.
pub open spec fn space(c: char) -> bool {
    let n = c as u32;
    ||| 0x09 <= n <= 0x0D
    ||| n == 0x20
    ||| n == 0x85
    ||| n == 0xA0
    ||| n == 0x1680
    ||| 0x2000 <= n <= 0x200A
    ||| n == 0x2028
    ||| n == 0x2029
    ||| n == 0x202F
    ||| n == 0x205F
    ||| n == 0x3000
}

/// `s` without the white space it begins with.
pub open spec fn trim_start(s: Seq<char>) -> Seq<char>
    decreases s.len(),
{
    if s.len() > 0 && space(s.first()) {
        trim_start(s.drop_first())
    } else {
        s
    }
}

/// `s` without the white space it ends with.
pub open spec fn trim_end(s: Seq<char>) -> Seq<char>
    decreases s.len(),
{
    if s.len() > 0 && space(s.last()) {
        trim_end(s.drop_last())
    } else {
        s
    }
}

/// `s` without the white space at either end.
pub open spec fn trimmed(s: Seq<char>) -> Seq<char> {
    trim_end(trim_start(s))
}

/// Cutting `a` leading white-space characters off `s` is what `trim_start`
/// does, when the character after them is not white space.
proof fn lemma_trim_start_at(s: Seq<char>, a: int)
    requires
        0 <= a <= s.len(),
        forall|i: int| 0 <= i < a ==> space(#[trigger] s[i]),
        a < s.len() ==> !space(s[a]),
    ensures
        trim_start(s) == s.subrange(a, s.len() as int),
    decreases a,
{
    if a == 0 {
        assert(s.subrange(0, s.len() as int) =~= s);
    } else {
        let t = s.drop_first();
        assert forall|i: int| 0 <= i < a - 1 implies space(#[trigger] t[i]) by {
            assert(t[i] == s[i + 1]);
        }
        lemma_trim_start_at(t, a - 1);
        assert(t.subrange(a - 1, t.len() as int) =~= s.subrange(a, s.len() as int));
    }
}

/// Cutting `s` down to its first `b` characters is what `trim_end` does, when
/// all that follow are white space and the one before them is not.
proof fn lemma_trim_end_at(s: Seq<char>, b: int)
    requires
        0 <= b <= s.len(),
        forall|i: int| b <= i < s.len() ==> space(#[trigger] s[i]),
        0 < b ==> !space(s[b - 1]),
    ensures
        trim_end(s) == s.subrange(0, b),
    decreases s.len() - b,
{
    if b == s.len() {
        assert(s.subrange(0, b) =~= s);
    } else {
        let t = s.drop_last();
        lemma_trim_end_at(t, b);
        assert(t.subrange(0, b) =~= s.subrange(0, b));
    }
}

/// Tells whether `c` is white space.
pub fn is_space(c: char) -> (b: bool)
    ensures
        b == space(c),
{
    let n: u32 = c as u32;
    (0x09 <= n && n <= 0x0D) || n == 0x20 || n == 0x85 || n == 0xA0 || n == 0x1680 || (0x2000 <= n
        && n <= 0x200A) || n == 0x2028 || n == 0x2029 || n == 0x202F || n == 0x205F || n == 0x3000
}

/// Returns `line` without the white space at either end.
pub fn trim(line: &str) -> (word: &str)
    ensures
        word@ == trimmed(line@),
{
    let total: usize = line.unicode_len();
    let mut first: usize = total;
    let mut end: usize = 0;
    let mut at: usize = 0;
    let mut rest = line.chars();
    for c in it: rest
        invariant
            total == line@.len(),
            it.seq() == line@,
            at == it.index(),
            at <= total,
            first <= total,
            end <= at,
            forall|i: int| 0 <= i < at && i < first ==> space(#[trigger] line@[i]),
            first < at ==> first < total && !space(line@[first as int]),
            first >= at ==> first == total && end == 0,
            first < at ==> first < end,
            forall|i: int| end <= i < at ==> space(#[trigger] line@[i]),
            0 < end ==> !space(line@[end - 1]),
    {
        if !is_space(c) {
            if first == total {
                first = at;
            }
            end = at + 1;
        }
        at = at + 1;
    }
    if first == total {
        proof {
            lemma_trim_start_at(line@, total as int);
            assert(line@.subrange(total as int, total as int) =~= Seq::<char>::empty());
        }
        line.substring_char(0, 0)
    } else {
        proof {
            let s = line@;
            lemma_trim_start_at(s, first as int);
            let t = s.subrange(first as int, total as int);
            lemma_trim_end_at(t, end - first);
            assert(t.subrange(0, end - first) =~= s.subrange(first as int, end as int));
        }
        line.substring_char(first, end)
    }
}

/// Tells whether `a` and `b` hold the same characters.
pub fn same_text(a: &str, b: &str) -> (same: bool)
    ensures
        same == (a@ == b@),
{
    let x = a.as_bytes();
    let y = b.as_bytes();
    proof {
        encode_utf8_decode_utf8(a@);
        encode_utf8_decode_utf8(b@);
    }
    if x.len() != y.len() {
        return false;
    }
    let mut at: usize = 0;
    while at < x.len()
        invariant
            at <= x@.len(),
            x@.len() == y@.len(),
            x@ == encode_utf8(a@),
            y@ == encode_utf8(b@),
            forall|i: int| 0 <= i < at ==> x@[i] == y@[i],
        decreases x@.len() - at,
    {
        if x[at] != y[at] {
            return false;
        }
        at = at + 1;
    }
    assert(x@ =~= y@);
    true
}

/// Whether `c` is one of the ten decimal digits.
pub open spec fn digit(c: char) -> bool {
    '0' <= c <= '9'
}

/// The number that the digit `c` stands for.
pub open spec fn digit_value(c: char) -> nat {
    (c as u32 - '0' as u32) as nat
}

/// Whether `s` holds decimal digits only.
pub open spec fn all_digits(s: Seq<char>) -> bool {
    forall|i: int| 0 <= i < s.len() ==> digit(#[trigger] s[i])
}

/// The number that the digits of `s` write in base ten, the most significant
/// first; 0 for the empty sequence.
pub open spec fn decimal_value(s: Seq<char>) -> nat
    decreases s.len(),
{
    if s.len() == 0 {
        0
    } else {
        decimal_value(s.drop_last()) * 10 + digit_value(s.last())
    }
}

/// `s` without the plus sign that may stand before its digits.
pub open spec fn unsigned(s: Seq<char>) -> Seq<char> {
    if s.len() > 0 && s.first() == '+' {
        s.drop_first()
    } else {
        s
    }
}

/// The port that `s` writes: an optional plus sign, then one or more decimal
/// digits whose value is at most 65535. Leading zeros are accepted; white
/// space, a minus sign or any other character is not.
pub open spec fn port_of(s: Seq<char>) -> Option<u16> {
    let digits = unsigned(s);
    if digits.len() > 0 && all_digits(digits) && decimal_value(digits) <= u16::MAX {
        Some(decimal_value(digits) as u16)
    } else {
        None
    }
}

/// Reads a port number. `None` when `text` is not an optional plus sign before
/// one or more decimal digits, or when the number is above 65535.
pub fn parse_port(text: &str) -> (port: Option<u16>)
    ensures
        port == port_of(text@),
{
    let mut value: u32 = 0;
    let mut above: bool = false;
    let mut count: usize = 0;
    let mut at: usize = 0;
    let total: usize = text.unicode_len();
    let ghost digits = unsigned(text@);
    let ghost sign: int = text@.len() - digits.len();
    let mut rest = text.chars();
    for c in it: rest
        invariant
            total == text@.len(),
            it.seq() == text@,
            at == it.index(),
            at <= total,
            digits == unsigned(text@),
            sign == text@.len() - digits.len(),
            at == 0 ==> count == 0,
            at > 0 ==> count == at - sign,
            all_digits(digits.take(count as int)),
            !above ==> value == decimal_value(digits.take(count as int)) && value <= u16::MAX,
            above ==> decimal_value(digits.take(count as int)) > u16::MAX,
    {
        if at == 0 && c == '+' {
            assert(digits.take(0) =~= Seq::<char>::empty());
        } else if '0' <= c && c <= '9' {
            proof {
                let before = digits.take(count as int);
                let now = digits.take(count + 1);
                assert(digits[count as int] == c);
                assert(now.drop_last() =~= before);
                assert(now.last() == c);
                assert(decimal_value(now) == decimal_value(before) * 10 + digit_value(c));
            }
            if !above {
                let d: u32 = c as u32 - '0' as u32;
                value = value * 10 + d;
                if value > 0xffff {
                    above = true;
                }
            }
            count = count + 1;
        } else {
            proof {
                assert(digits[count as int] == c);
                assert(!digit(digits[count as int]));
            }
            return None;
        }
        at = at + 1;
    }
    proof {
        assert(digits.take(count as int) =~= digits);
    }
    if count == 0 || above {
        None
    } else {
        Some(value as u16)
    }
}

/// The character that writes the digit `d`.
pub open spec fn digit_char(d: nat) -> char {
    if d == 0 {
        '0'
    } else if d == 1 {
        '1'
    } else if d == 2 {
        '2'
    } else if d == 3 {
        '3'
    } else if d == 4 {
        '4'
    } else if d == 5 {
        '5'
    } else if d == 6 {
        '6'
    } else if d == 7 {
        '7'
    } else if d == 8 {
        '8'
    } else {
        '9'
    }
}

/// `n` written in base ten, without leading zeros.
pub open spec fn decimal(n: nat) -> Seq<char>
    decreases n,
{
    if n < 10 {
        seq![digit_char(n)]
    } else {
        decimal(n / 10).push(digit_char(n % 10))
    }
}

/// What `decimal` writes holds digits only, at least one of them, and reads
/// back as the number written.
pub proof fn lemma_decimal_reads_back(n: nat)
    ensures
        decimal(n).len() > 0,
        all_digits(decimal(n)),
        decimal_value(decimal(n)) == n,
    decreases n,
{
    if n < 10 {
        let s = decimal(n);
        assert(s.drop_last() =~= Seq::<char>::empty());
        assert(decimal_value(s.drop_last()) == 0);
        assert(digit_value(digit_char(n)) == n);
    } else {
        lemma_decimal_reads_back(n / 10);
        let s = decimal(n);
        assert(s.drop_last() =~= decimal(n / 10));
        assert(digit_value(digit_char(n % 10)) == n % 10);
    }
}

/// A port written by `decimal` is read back by `port_of` as the same port.
pub proof fn lemma_port_reads_back(port: u16)
    ensures
        port_of(decimal(port as nat)) == Some(port),
{
    lemma_decimal_reads_back(port as nat);
    let s = decimal(port as nat);
    assert(digit(s[0]));
}

/// The text of one decimal digit.
fn digit_text(d: u16) -> (text: &'static str)
    requires
        d < 10,
    ensures
        text@ == seq![digit_char(d as nat)],
{
    proof {
        reveal_strlit("0");
        reveal_strlit("1");
        reveal_strlit("2");
        reveal_strlit("3");
        reveal_strlit("4");
        reveal_strlit("5");
        reveal_strlit("6");
        reveal_strlit("7");
        reveal_strlit("8");
        reveal_strlit("9");
    }
    let text = if d == 0 {
        "0"
    } else if d == 1 {
        "1"
    } else if d == 2 {
        "2"
    } else if d == 3 {
        "3"
    } else if d == 4 {
        "4"
    } else if d == 5 {
        "5"
    } else if d == 6 {
        "6"
    } else if d == 7 {
        "7"
    } else if d == 8 {
        "8"
    } else {
        "9"
    };
    assert(text@ =~= seq![digit_char(d as nat)]);
    text
}

/// Writes `port` in base ten, without leading zeros.
pub fn port_text(port: u16) -> (text: String)
    ensures
        text@ == decimal(port as nat),
{
    let mut text = String::new();
    if port >= 10000 {
        text.append(digit_text(port / 10000));
        assert(text@ =~= decimal(port as nat / 10000));
    }
    if port >= 1000 {
        text.append(digit_text(port / 1000 % 10));
        assert(port as nat / 1000 / 10 == port as nat / 10000);
        assert(text@ =~= decimal(port as nat / 1000));
    }
    if port >= 100 {
        text.append(digit_text(port / 100 % 10));
        assert(port as nat / 100 / 10 == port as nat / 1000);
        assert(text@ =~= decimal(port as nat / 100));
    }
    if port >= 10 {
        text.append(digit_text(port / 10 % 10));
        assert(port as nat / 10 / 10 == port as nat / 100);
        assert(text@ =~= decimal(port as nat / 10));
    }
    text.append(digit_text(port % 10));
    assert(text@ =~= decimal(port as nat));
    text
}

/// The UTF-8 encoding of a text in two parts is the encoding of the first
/// part followed by that of the second.
pub proof fn lemma_utf8_of_parts(a: Seq<char>, b: Seq<char>)
    ensures
        encode_utf8(a + b) == encode_utf8(a) + encode_utf8(b),
    decreases a.len(),
{
    if a.len() == 0 {
        assert(a + b =~= b);
        assert(encode_utf8(a) + encode_utf8(b) =~= encode_utf8(
            b,
        ));
    } else {
        lemma_utf8_of_parts(a.drop_first(), b);
        assert((a + b).drop_first() =~= a.drop_first() + b);
        assert((a + b)[0] == a[0]);
        assert(encode_utf8(a + b) =~= encode_utf8(a)
            + encode_utf8(b));
    }
}

} // verus!
