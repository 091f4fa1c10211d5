//! Whole numbers as decimal text, written and read.

use vstd::prelude::*;
use vstd::string::*;
use vstd::utf8::*;

verus! {

/// The digit for a value from 0 to 9.
pub open spec fn digit_char(d: int) -> char {
    ('0' as int + d) as char
}

/// The digits of `n` without leading zeros; `0` is the one digit `0`.
pub open spec fn decimal_digits(n: nat) -> Seq<char>
    decreases n,
{
    if n < 10 {
        seq![digit_char(n as int)]
    } else {
        decimal_digits(n / 10).push(digit_char((n % 10) as int))
    }
}

/// The decimal text of `t`: its digits, after a minus sign when `t` is
/// negative.
pub open spec fn decimal(t: int) -> Seq<char> {
    if t < 0 {
        seq!['-'] + decimal_digits((-t) as nat)
    } else {
        decimal_digits(t as nat)
    }
}

/// One of `'0'..='9'`.
pub open spec fn is_digit(c: char) -> bool {
    '0' <= c && c <= '9'
}

/// Every character is a digit.
pub open spec fn all_digits(text: Seq<char>) -> bool {
    forall|i: int| 0 <= i < text.len() ==> is_digit(#[trigger] text[i])
}

/// The number that a string of digits writes; the empty string writes 0.
pub open spec fn digits_value(text: Seq<char>) -> int
    decreases text.len(),
{
    if text.len() == 0 {
        0
    } else {
        10 * digits_value(text.drop_last()) + (text.last() as int - '0' as int)
    }
}

/// Whether the text starts with a sign, `+` or `-`.
pub open spec fn has_sign(text: Seq<char>) -> bool {
    text.len() > 0 && (text[0] == '+' || text[0] == '-')
}

/// The text without its sign.
pub open spec fn unsigned_part(text: Seq<char>) -> Seq<char> {
    if has_sign(text) {
        text.skip(1)
    } else {
        text
    }
}

/// The number that the text writes, sign included, whatever its size.
pub open spec fn signed_value(text: Seq<char>) -> int {
    if text.len() > 0 && text[0] == '-' {
        -digits_value(unsigned_part(text))
    } else {
        digits_value(unsigned_part(text))
    }
}

/// The reading of `text` as a 64-bit signed integer.
///
/// The text is an optional sign and then one digit or more, nothing before,
/// between or after. Leading zeros are read. A number outside the 64-bit
/// range has no reading.
pub open spec fn parsed_decimal(text: Seq<char>) -> Option<int> {
    if unsigned_part(text).len() > 0 && all_digits(unsigned_part(text)) && i64::MIN
        <= signed_value(text) <= i64::MAX {
        Some(signed_value(text))
    } else {
        None
    }
}

/// The text of one digit.
fn digit_str(d: u64) -> (text: &'static str)
    requires
        d < 10,
    ensures
        text@ == seq![digit_char(d as int)],
{
    proof {
        reveal_strlit("0");
        reveal_strlit("1");
        reveal_strlit("2");
        reveal_strlit("3");
        reveal_strlit("4");
        reveal_strlit("5");
        reveal_strlit("6");
        reveal_strlit("7");
        reveal_strlit("8");
        reveal_strlit("9");
    }
    let text = if d == 0 {
        "0"
    } else if d == 1 {
        "1"
    } else if d == 2 {
        "2"
    } else if d == 3 {
        "3"
    } else if d == 4 {
        "4"
    } else if d == 5 {
        "5"
    } else if d == 6 {
        "6"
    } else if d == 7 {
        "7"
    } else if d == 8 {
        "8"
    } else {
        "9"
    };
    assert(text@ =~= seq![digit_char(d as int)]);
    text
}

/// Appends the digits of `n` to `out`.
fn push_digits(out: &mut String, n: u64)
    ensures
        final(out)@ == old(out)@ + decimal_digits(n as nat),
    decreases n,
{
    if n >= 10 {
        push_digits(out, n / 10);
    }
    out.append(digit_str(n % 10));
    assert(out@ =~= old(out)@ + decimal_digits(n as nat));
}

/// Writes `t` as decimal text.
pub fn decimal_text(t: i64) -> (text: String)
    ensures
        text@ == decimal(t as int),
{
    let mut text = String::new();
    if t < 0 {
        text.append("-");
        proof {
            reveal_strlit("-");
        }
        let magnitude: u64 = (-(t + 1)) as u64 + 1;
        push_digits(&mut text, magnitude);
        assert(text@ =~= decimal(t as int));
    } else {
        push_digits(&mut text, t as u64);
        assert(text@ =~= decimal(t as int));
    }
    text
}

/// Digits write no negative number.
proof fn lemma_digits_value_nonnegative(text: Seq<char>)
    requires
        all_digits(text),
    ensures
        0 <= digits_value(text),
    decreases text.len(),
{
    if text.len() > 0 {
        let head = text.drop_last();
        assert(is_digit(text.last()));
        assert forall|i: int| 0 <= i < head.len() implies is_digit(#[trigger] head[i]) by {
            assert(head[i] == text[i]);
        }
        lemma_digits_value_nonnegative(head);
    }
}

/// Digits appended to digits can only raise the number written.
proof fn lemma_digits_value_grows(text: Seq<char>, k: int)
    requires
        all_digits(text),
        0 <= k <= text.len(),
    ensures
        0 <= digits_value(text.take(k)) <= digits_value(text),
    decreases text.len() - k,
{
    if k == text.len() {
        assert(text.take(k) =~= text);
        lemma_digits_value_nonnegative(text);
    } else {
        let head = text.drop_last();
        assert(is_digit(text.last()));
        assert forall|i: int| 0 <= i < head.len() implies is_digit(#[trigger] head[i]) by {
            assert(head[i] == text[i]);
        }
        lemma_digits_value_grows(head, k);
        assert(head.take(k) =~= text.take(k));
    }
}

/// One more digit multiplies the number written by ten and adds the digit.
proof fn lemma_digits_value_step(text: Seq<char>, from: int, to: int)
    requires
        0 <= from <= to < text.len(),
    ensures
        digits_value(text.subrange(from, to + 1)) == 10 * digits_value(text.subrange(from, to)) + (
        text[to] as int - '0' as int),
        text.subrange(from, to + 1).take(to - from) == text.subrange(from, to),
{
    let longer = text.subrange(from, to + 1);
    assert(longer.drop_last() =~= text.subrange(from, to));
    assert(longer.take(to - from) =~= text.subrange(from, to));
    assert(longer.last() == text[to]);
}

/// Reads `text` as a 64-bit signed integer: an optional sign, then digits.
pub fn parse_decimal(text: &str) -> (value: Option<i64>)
    ensures
        match value {
            Some(v) => parsed_decimal(text@) == Some(v as int),
            None => parsed_decimal(text@) is None,
        },
{
    if !text.is_ascii() {
        proof {
            let i = choose|i: int| 0 <= i < text@.len() && !('\0' <= #[trigger] text@[i] <= '\u{7f}');
            if has_sign(text@) {
                assert(unsigned_part(text@)[i - 1] == text@[i]);
            }
        }
        return None;
    }
    let bytes = text.as_bytes();
    proof {
        is_ascii_chars_encode_utf8(text@);
    }
    let n = bytes.len();
    if n == 0 {
        return None;
    }
    let negative = bytes[0] == 0x2d;
    let start: usize = if negative || bytes[0] == 0x2b {
        1
    } else {
        0
    };
    assert(unsigned_part(text@) =~= text@.subrange(start as int, n as int));
    if start == n {
        return None;
    }
    let ghost digits = text@.subrange(start as int, n as int);
    let mut magnitude: u64 = 0;
    let mut i: usize = start;
    while i < n
        invariant
            start <= i <= n,
            n == text@.len(),
            n == bytes@.len(),
            forall|j: int| 0 <= j < n ==> text@[j] as u8 == #[trigger] bytes@[j],
            is_ascii_chars(text@),
            digits == text@.subrange(start as int, n as int),
            digits == unsigned_part(text@),
            all_digits(text@.subrange(start as int, i as int)),
            magnitude == digits_value(text@.subrange(start as int, i as int)),
            magnitude <= 0x8000_0000_0000_0000,
        decreases n - i,
    {
        let b = bytes[i];
        assert(text@[i as int] as u8 == b);
        if b < 0x30 || b > 0x39 {
            assert(digits[i - start] == text@[i as int]);
            return None;
        }
        let grown: u128 = magnitude as u128 * 10 + (b - 0x30) as u128;
        proof {
            lemma_digits_value_step(text@, start as int, i as int);
            let longer = text@.subrange(start as int, i + 1);
            assert forall|j: int| 0 <= j < longer.len() implies is_digit(#[trigger] longer[j]) by {
                if j < i - start {
                    assert(longer[j] == text@.subrange(start as int, i as int)[j]);
                }
            }
        }
        if grown > 0x8000_0000_0000_0000 {
            proof {
                if all_digits(digits) {
                    lemma_digits_value_grows(digits, i + 1 - start);
                    assert(digits.take(i + 1 - start) =~= text@.subrange(start as int, i + 1));
                }
            }
            return None;
        }
        magnitude = grown as u64;
        i += 1;
    }
    assert(text@.subrange(start as int, i as int) == digits);
    if negative {
        if magnitude == 0x8000_0000_0000_0000 {
            Some(i64::MIN)
        } else {
            Some(-(magnitude as i64))
        }
    } else {
        if magnitude == 0x8000_0000_0000_0000 {
            None
        } else {
            Some(magnitude as i64)
        }
    }
}

/// The digits of a number are digits, one at least, and write that number.
pub proof fn lemma_decimal_digits_read_back(n: nat)
    ensures
        decimal_digits(n).len() > 0,
        all_digits(decimal_digits(n)),
        digits_value(decimal_digits(n)) == n,
    decreases n,
{
    let text = decimal_digits(n);
    if n < 10 {
        assert(text.drop_last() =~= Seq::<char>::empty());
        assert(digits_value(text.drop_last()) == 0);
        assert(text.last() == digit_char(n as int));
    } else {
        let head = decimal_digits(n / 10);
        lemma_decimal_digits_read_back(n / 10);
        assert(text.drop_last() =~= head);
        assert(text.last() == digit_char((n % 10) as int));
        assert forall|i: int| 0 <= i < decimal_digits(n).len() implies is_digit(
            #[trigger] decimal_digits(n)[i],
        ) by {
            if i < head.len() {
                assert(decimal_digits(n)[i] == head[i]);
            }
        }
    }
}

/// What `decimal` writes, `parsed_decimal` reads: for every 64-bit signed
/// integer, the reading of its decimal text is the integer itself.
pub proof fn law_decimal_reads_back(t: int)
    requires
        i64::MIN <= t <= i64::MAX,
    ensures
        parsed_decimal(decimal(t)) == Some(t),
{
    if t < 0 {
        let digits = decimal_digits((-t) as nat);
        lemma_decimal_digits_read_back((-t) as nat);
        assert(decimal(t)[0] == '-');
        assert(unsigned_part(decimal(t)) =~= digits);
    } else {
        let digits = decimal_digits(t as nat);
        lemma_decimal_digits_read_back(t as nat);
        assert(is_digit(digits[0]));
        assert(unsigned_part(decimal(t)) =~= digits);
    }
}

/// Decimal text holds digits and, at most, a minus sign: never a colon.
pub proof fn lemma_decimal_has_no_colon(t: int)
    ensures
        forall|i: int| 0 <= i < decimal(t).len() ==> #[trigger] decimal(t)[i] != ':',
{
    if t < 0 {
        let digits = decimal_digits((-t) as nat);
        lemma_decimal_digits_read_back((-t) as nat);
        assert forall|i: int| 0 <= i < decimal(t).len() implies #[trigger] decimal(t)[i]
            != ':' by {
            if i > 0 {
                assert(decimal(t)[i] == digits[i - 1]);
                assert(is_digit(digits[i - 1]));
            }
        }
    } else {
        let digits = decimal_digits(t as nat);
        lemma_decimal_digits_read_back(t as nat);
        assert forall|i: int| 0 <= i < decimal(t).len() implies #[trigger] decimal(t)[i]
            != ':' by {
            assert(is_digit(digits[i]));
        }
    }
}

} // verus!
