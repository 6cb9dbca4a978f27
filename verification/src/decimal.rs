//! Decimal digits as text: what a run of digits denotes, and how a number is written.

use vstd::prelude::*;
use vstd::string::{StrSliceExecFns, StringExecFns};
use vstd::utf8::is_ascii_chars;

verus! {

/// `c` is one of the ten ASCII digits.
pub open spec fn is_digit(c: char) -> bool {
    '0' <= c && c <= '9'
}

/// The number that the digit `c` stands for.
pub open spec fn digit_value(c: char) -> int
    recommends
        is_digit(c),
{
    c as int - '0' as int
}

/// The digit that writes `d`.
pub open spec fn digit_char(d: int) -> char
    recommends
        0 <= d < 10,
{
    (('0' as u8) + d) as u8 as char
}

/// Every character of `s` is a digit. The empty sequence qualifies.
pub open spec fn all_digits(s: Seq<char>) -> bool {
    forall|i: int| 0 <= i < s.len() ==> is_digit(#[trigger] s[i])
}

/// The number written by the digits `s`, most significant digit first.
pub open spec fn digits_value(s: Seq<char>) -> int
    recommends
        all_digits(s),
    decreases s.len(),
{
    if s.len() == 0 {
        0
    } else {
        10 * digits_value(s.drop_last()) + digit_value(s.last())
    }
}

/// `n` written in base ten without padding: at least one digit, and no
/// leading zero except for zero itself.
pub open spec fn nat_text(n: nat) -> Seq<char>
    decreases n,
{
    if n < 10 {
        seq![digit_char(n as int)]
    } else {
        nat_text(n / 10).push(digit_char((n % 10) as int))
    }
}

/// `n` written with at least two digits, zero-padded on the left.
pub open spec fn padded_text(n: nat) -> Seq<char> {
    if n < 10 {
        seq!['0', digit_char(n as int)]
    } else {
        nat_text(n)
    }
}

/// The integer written by `s`: an optional sign, `+` or `-`, then one or more
/// digits. Anything else, the empty text and a lone sign included, writes no
/// integer.
pub open spec fn signed_value(s: Seq<char>) -> Option<int> {
    if s.len() == 0 {
        None
    } else if s[0] == '-' || s[0] == '+' {
        let digits = s.subrange(1, s.len() as int);
        if digits.len() > 0 && all_digits(digits) {
            Some(
                if s[0] == '-' {
                    -digits_value(digits)
                } else {
                    digits_value(digits)
                },
            )
        } else {
            None
        }
    } else if all_digits(s) {
        Some(digits_value(s))
    } else {
        None
    }
}

/// The integer `n` in base ten: a minus sign for a negative number, then its
/// magnitude without padding.
pub open spec fn int_text(n: int) -> Seq<char> {
    if n < 0 {
        seq!['-'] + nat_text((-n) as nat)
    } else {
        nat_text(n as nat)
    }
}

/// Writing a digit and reading it back gives the digit.
pub proof fn lemma_digit_round_trip(d: int)
    requires
        0 <= d < 10,
    ensures
        is_digit(digit_char(d)),
        digit_value(digit_char(d)) == d,
{
}

/// Reading what `nat_text` wrote gives the number back.
pub proof fn lemma_nat_text_round_trip(n: nat)
    ensures
        nat_text(n).len() >= 1,
        all_digits(nat_text(n)),
        digits_value(nat_text(n)) == n,
    decreases n,
{
    if n < 10 {
        lemma_digit_round_trip(n as int);
        let t = nat_text(n);
        assert(t.drop_last() =~= Seq::<char>::empty());
        assert(digits_value(t.drop_last()) == 0);
    } else {
        lemma_nat_text_round_trip(n / 10);
        lemma_digit_round_trip((n % 10) as int);
        let head = nat_text(n / 10);
        let t = nat_text(n);
        assert(t.drop_last() =~= head);
        assert(t.last() == digit_char((n % 10) as int));
    }
}

/// A padded number is two digits below one hundred, never fewer than two, and
/// reads back as the number.
pub proof fn lemma_padded_text(n: nat)
    ensures
        padded_text(n).len() >= 2,
        n < 100 ==> padded_text(n).len() == 2,
        all_digits(padded_text(n)),
        digits_value(padded_text(n)) == n,
{
    if n < 10 {
        lemma_digit_round_trip(n as int);
        let t = padded_text(n);
        assert(t.drop_last() =~= seq!['0']);
        assert(t.drop_last().drop_last() =~= Seq::<char>::empty());
        reveal_with_fuel(digits_value, 3);
    } else {
        lemma_nat_text_round_trip(n);
        lemma_nat_text_round_trip(n / 10);
        if n < 100 {
            assert(nat_text(n / 10).len() == 1);
        }
    }
}

/// A run of digits denotes no less than any of its prefixes, and nothing negative.
pub proof fn lemma_digits_value_prefix(s: Seq<char>, k: int)
    requires
        all_digits(s),
        0 <= k <= s.len(),
    ensures
        0 <= digits_value(s.subrange(0, k)) <= digits_value(s),
    decreases s.len(),
{
    if s.len() == 0 {
        assert(s.subrange(0, k) =~= s);
    } else if k == s.len() {
        assert(s.subrange(0, k) =~= s);
        lemma_digits_value_prefix(s.drop_last(), k - 1);
    } else {
        lemma_digits_value_prefix(s.drop_last(), k);
        assert(s.drop_last().subrange(0, k) =~= s.subrange(0, k));
        lemma_digits_value_prefix(s.drop_last(), s.len() - 1);
    }
}

/// Reading what `int_text` wrote gives the integer back; the text is never
/// empty and ends in a digit.
pub proof fn lemma_int_text_round_trip(n: int)
    ensures
        int_text(n).len() >= 1,
        is_digit(int_text(n).last()),
        signed_value(int_text(n)) == Some(n),
{
    if n < 0 {
        let magnitude = nat_text((-n) as nat);
        lemma_nat_text_round_trip((-n) as nat);
        let t = int_text(n);
        assert(t.subrange(1, t.len() as int) =~= magnitude);
        assert(t.last() == magnitude.last());
    } else {
        lemma_nat_text_round_trip(n as nat);
        let t = int_text(n);
        assert(is_digit(t[0]));
    }
}

/// Text that writes an integer is ASCII.
pub proof fn lemma_signed_value_ascii(s: Seq<char>)
    requires
        signed_value(s) is Some,
    ensures
        is_ascii_chars(s),
{
    assert forall|i: int| 0 <= i < s.len() implies '\0' <= #[trigger] s[i] <= '\u{7f}' by {
        if s[0] == '-' || s[0] == '+' {
            if i > 0 {
                assert(s[i] == s.subrange(1, s.len() as int)[i - 1]);
            }
        }
    }
}

/// The one-character text of the digit `d`.
fn digit_str(d: u8) -> (s: &'static str)
    requires
        d < 10,
    ensures
        s@ == seq![digit_char(d as int)],
{
    proof {
        reveal_strlit("0");
        reveal_strlit("1");
        reveal_strlit("2");
        reveal_strlit("3");
        reveal_strlit("4");
        reveal_strlit("5");
        reveal_strlit("6");
        reveal_strlit("7");
        reveal_strlit("8");
        reveal_strlit("9");
    }
    let s = match d {
        0 => "0",
        1 => "1",
        2 => "2",
        3 => "3",
        4 => "4",
        5 => "5",
        6 => "6",
        7 => "7",
        8 => "8",
        _ => "9",
    };
    assert(s@ =~= seq![digit_char(d as int)]);
    s
}

/// Appends `n` in base ten, without padding.
pub(crate) fn push_decimal(text: &mut String, n: u64)
    ensures
        final(text)@ == old(text)@ + nat_text(n as nat),
    decreases n,
{
    if n >= 10 {
        push_decimal(text, n / 10);
    }
    text.append(digit_str((n % 10) as u8));
    assert(text@ =~= old(text)@ + nat_text(n as nat));
}

/// Appends `n` with at least two digits, zero-padded on the left.
pub(crate) fn push_padded(text: &mut String, n: u64)
    ensures
        final(text)@ == old(text)@ + padded_text(n as nat),
{
    if n < 10 {
        text.append(digit_str(0));
    }
    push_decimal(text, n);
    assert(text@ =~= old(text)@ + padded_text(n as nat));
}

/// Appends the integer `n` in base ten, with a minus sign if it is negative.
pub(crate) fn push_signed(text: &mut String, n: i64)
    ensures
        final(text)@ == old(text)@ + int_text(n as int),
{
    if n < 0 {
        proof {
            reveal_strlit("-");
        }
        text.append("-");
        let magnitude: u64 = (-(n + 1)) as u64 + 1;
        push_decimal(text, magnitude);
        assert(text@ =~= old(text)@ + int_text(n as int));
    } else {
        push_decimal(text, n as u64);
    }
}

/// Reads the characters `from..to` of an ASCII text as a run of digits.
///
/// Gives the number they write if all of them are digits and the number is at
/// most `limit`, and `None` otherwise. The empty run writes zero.
pub(crate) fn read_digits(text: &str, from: usize, to: usize, limit: u64) -> (value: Option<u64>)
    requires
        text.is_ascii(),
        from <= to <= text@.len(),
        limit <= u32::MAX,
    ensures
        ({
            let digits = text@.subrange(from as int, to as int);
            match value {
                Some(v) => all_digits(digits) && digits_value(digits) == v && v <= limit,
                None => !all_digits(digits) || digits_value(digits) > limit,
            }
        }),
{
    let ghost digits = text@.subrange(from as int, to as int);
    let mut value: u64 = 0;
    let mut i: usize = from;
    while i < to
        invariant
            text.is_ascii(),
            from <= i <= to <= text@.len(),
            limit <= u32::MAX,
            digits == text@.subrange(from as int, to as int),
            all_digits(digits.subrange(0, i - from)),
            value == digits_value(digits.subrange(0, i - from)),
            value <= limit,
        decreases to - i,
    {
        let byte: u8 = text.get_ascii(i);
        let ghost seen = digits.subrange(0, i - from);
        let ghost next = digits.subrange(0, i + 1 - from);
        proof {
            assert(digits[i - from] == text@[i as int]);
            assert(next.drop_last() =~= seen);
            assert(next.last() == text@[i as int]);
        }
        if byte < 48 || byte > 57 {
            assert(!is_digit(digits[i - from]));
            return None;
        }
        assert(is_digit(text@[i as int]));
        assert(all_digits(next));
        let digit: u64 = (byte - 48) as u64;
        let longer: u64 = value * 10 + digit;
        assert(longer == digits_value(next));
        if longer > limit {
            proof {
                if all_digits(digits) {
                    lemma_digits_value_prefix(digits, i + 1 - from);
                }
            }
            return None;
        }
        value = longer;
        i = i + 1;
    }
    assert(digits.subrange(0, to - from) =~= digits);
    Some(value)
}

} // verus!
