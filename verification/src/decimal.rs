//! Decimal numerals: the text of a number, and the number of a text.

use crate::text::chars_of;
use vstd::prelude::*;
use vstd::string::*;

verus! {

/// The character of a decimal digit.
pub open spec fn digit_char(d: nat) -> char
    recommends
        d < 10,
{
    seq!['0', '1', '2', '3', '4', '5', '6', '7', '8', '9'][d as int]
}

/// The decimal numeral of `n`: no sign, and no leading zero unless `n` is zero.
pub open spec fn decimal_text(n: nat) -> Seq<char>
    decreases n,
{
    if n < 10 {
        seq![digit_char(n)]
    } else {
        decimal_text(n / 10).push(digit_char(n % 10))
    }
}

/// The decimal numeral of an integer, with a leading `-` when it is negative.
pub open spec fn int_text(i: int) -> Seq<char> {
    if i < 0 {
        seq!['-'] + decimal_text((-i) as nat)
    } else {
        decimal_text(i as nat)
    }
}

fn digit_str(d: u64) -> (s: &'static str)
    requires
        d < 10,
    ensures
        s@ == seq![digit_char(d as nat)],
{
    proof {
        reveal_strlit("0");
        reveal_strlit("1");
        reveal_strlit("2");
        reveal_strlit("3");
        reveal_strlit("4");
        reveal_strlit("5");
        reveal_strlit("6");
        reveal_strlit("7");
        reveal_strlit("8");
        reveal_strlit("9");
    }
    if d == 0 {
        "0"
    } else if d == 1 {
        "1"
    } else if d == 2 {
        "2"
    } else if d == 3 {
        "3"
    } else if d == 4 {
        "4"
    } else if d == 5 {
        "5"
    } else if d == 6 {
        "6"
    } else if d == 7 {
        "7"
    } else if d == 8 {
        "8"
    } else {
        "9"
    }
}

/// Renders `n` in decimal.
pub fn u64_to_string(n: u64) -> (s: String)
    ensures
        s@ == decimal_text(n as nat),
    decreases n,
{
    if n < 10 {
        String::from_str(digit_str(n))
    } else {
        let mut s = u64_to_string(n / 10);
        s.append(digit_str(n % 10));
        s
    }
}

/// Renders `i` in decimal, with a leading `-` when it is negative.
pub fn i64_to_string(i: i64) -> (s: String)
    ensures
        s@ == int_text(i as int),
{
    if i < 0 {
        let magnitude: u64 = if i == i64::MIN {
            9223372036854775808u64
        } else {
            (-i) as u64
        };
        let digits = u64_to_string(magnitude);
        let mut s = String::from_str("-");
        s.append(digits.as_str());
        proof {
            reveal_strlit("-");
        }
        s
    } else {
        u64_to_string(i as u64)
    }
}

/// `c` is one of the ten decimal digits.
pub open spec fn is_digit(c: char) -> bool {
    '0' <= c && c <= '9'
}

/// The number that a decimal digit stands for.
pub open spec fn digit_value(c: char) -> nat
    recommends
        is_digit(c),
{
    (c as int - '0' as int) as nat
}

/// Every character of `s` is a decimal digit.
pub open spec fn all_digits(s: Seq<char>) -> bool {
    forall|i: int| 0 <= i < s.len() ==> is_digit(#[trigger] s[i])
}

/// The number that a run of decimal digits stands for.
pub open spec fn digits_value(d: Seq<char>) -> nat
    decreases d.len(),
{
    if d.len() == 0 {
        0
    } else {
        10 * digits_value(d.drop_last()) + digit_value(d.last())
    }
}

/// A numeral without its sign: what follows one leading `+`, if there is one.
pub open spec fn unsigned_part(s: Seq<char>) -> Seq<char> {
    if s.len() > 0 && s[0] == '+' {
        s.skip(1)
    } else {
        s
    }
}

/// `s` is a non-negative decimal numeral: an optional `+`, then one or more
/// decimal digits and nothing else.
pub open spec fn is_numeral(s: Seq<char>) -> bool {
    unsigned_part(s).len() > 0 && all_digits(unsigned_part(s))
}

/// The number that a numeral stands for, of whatever size.
pub open spec fn numeral_value(s: Seq<char>) -> nat {
    digits_value(unsigned_part(s))
}

/// A numeral that was read.
#[derive(Clone, Debug, PartialEq, Eq)]
pub struct Numeral {
    /// The number, written without sign or leading zeros.
    pub digits: String,
    /// The number, if a `usize` can hold it.
    pub value: Option<usize>,
}

impl Numeral {
    /// The numeral holds the number `n`.
    pub open spec fn holds(&self, n: nat) -> bool {
        &&& self.digits@ == decimal_text(n)
        &&& match self.value {
            Some(v) => v == n,
            None => n > usize::MAX,
        }
    }
}

/// A leading zero does not change what a run of digits stands for.
pub proof fn lemma_leading_zero(d: Seq<char>)
    requires
        d.len() > 0,
        d[0] == '0',
    ensures
        digits_value(d) == digits_value(d.skip(1)),
    decreases d.len(),
{
    if d.len() == 1 {
        assert(digits_value(d.drop_last()) == 0);
    } else {
        lemma_leading_zero(d.drop_last());
        assert(d.drop_last().skip(1) =~= d.skip(1).drop_last());
    }
}

/// A run of digits that starts with a digit other than zero stands for a
/// positive number.
pub proof fn lemma_leading_nonzero(d: Seq<char>)
    requires
        d.len() > 0,
        is_digit(d[0]),
        d[0] != '0',
    ensures
        digits_value(d) >= 1,
    decreases d.len(),
{
    if d.len() > 1 {
        lemma_leading_nonzero(d.drop_last());
    }
}

/// A run of digits without a leading zero is the decimal text of the number
/// it stands for.
pub proof fn lemma_text_of_digits(d: Seq<char>)
    requires
        d.len() > 0,
        all_digits(d),
        d.len() == 1 || d[0] != '0',
    ensures
        decimal_text(digits_value(d)) == d,
    decreases d.len(),
{
    if d.len() == 1 {
        assert(digits_value(d.drop_last()) == 0);
    } else {
        let front = d.drop_last();
        lemma_leading_nonzero(front);
        lemma_text_of_digits(front);
        assert(digits_value(d) / 10 == digits_value(front));
    }
}

/// The decimal text of a number is a run of digits that stands for it.
pub proof fn lemma_digits_of_text(n: nat)
    ensures
        decimal_text(n).len() > 0,
        all_digits(decimal_text(n)),
        digits_value(decimal_text(n)) == n,
    decreases n,
{
    if n < 10 {
        assert(digits_value(decimal_text(n).drop_last()) == 0);
    } else {
        lemma_digits_of_text(n / 10);
        assert(decimal_text(n).drop_last() =~= decimal_text(n / 10));
    }
}

/// The decimal text of a number is a numeral that stands for it.
pub proof fn lemma_numeral_of_text(n: nat)
    ensures
        is_numeral(decimal_text(n)),
        numeral_value(decimal_text(n)) == n,
{
    lemma_digits_of_text(n);
}

/// A numeral without its minus sign: what follows one leading `-`, if there
/// is one.
pub open spec fn magnitude_part(s: Seq<char>) -> Seq<char> {
    if s.len() > 0 && s[0] == '-' {
        s.skip(1)
    } else {
        s
    }
}

/// `s` is the decimal numeral of an integer as `int_text` writes it: a `-`
/// for a negative number, then its digits without a leading zero; zero is
/// `0`, without sign.
pub open spec fn is_integer_text(s: Seq<char>) -> bool {
    let d = magnitude_part(s);
    &&& d.len() > 0
    &&& all_digits(d)
    &&& d.len() == 1 || d[0] != '0'
    &&& d.len() < s.len() ==> d[0] != '0'
}

/// The integer that such a numeral stands for, of whatever size.
pub open spec fn integer_value(s: Seq<char>) -> int {
    if s.len() > 0 && s[0] == '-' {
        -(digits_value(s.skip(1)) as int)
    } else {
        digits_value(s) as int
    }
}

/// The numeral of an integer is the decimal text of the integer it stands
/// for.
pub proof fn lemma_text_of_integer(s: Seq<char>)
    requires
        is_integer_text(s),
    ensures
        int_text(integer_value(s)) == s,
{
    let d = magnitude_part(s);
    lemma_text_of_digits(d);
    if d.len() < s.len() {
        lemma_leading_nonzero(d);
        assert(seq!['-'] + d =~= s);
    }
}

/// The decimal text of an integer is a numeral that stands for it.
pub proof fn lemma_integer_of_text(i: int)
    ensures
        is_integer_text(int_text(i)),
        integer_value(int_text(i)) == i,
{
    let magnitude: nat = if i < 0 {
        (-i) as nat
    } else {
        i as nat
    };
    lemma_digits_of_text(magnitude);
    lemma_leading_digit(magnitude);
    let digits = decimal_text(magnitude);
    if i < 0 {
        assert(int_text(i).skip(1) =~= digits);
    }
}

/// The decimal text of a number starts with a zero only where the number is
/// zero.
pub proof fn lemma_leading_digit(n: nat)
    ensures
        decimal_text(n).len() == 1 || decimal_text(n)[0] != '0',
        n > 0 ==> decimal_text(n)[0] != '0',
    decreases n,
{
    if n >= 10 {
        lemma_leading_digit(n / 10);
        lemma_digits_of_text(n / 10);
    }
}

fn digit_of(c: char) -> (d: Option<usize>)
    ensures
        d is Some <==> is_digit(c),
        d matches Some(v) ==> v == digit_value(c),
{
    if c == '0' {
        Some(0)
    } else if c == '1' {
        Some(1)
    } else if c == '2' {
        Some(2)
    } else if c == '3' {
        Some(3)
    } else if c == '4' {
        Some(4)
    } else if c == '5' {
        Some(5)
    } else if c == '6' {
        Some(6)
    } else if c == '7' {
        Some(7)
    } else if c == '8' {
        Some(8)
    } else if c == '9' {
        Some(9)
    } else {
        None
    }
}

/// Reads `s` as a non-negative decimal numeral.
///
/// The result is `None` unless `s` is an optional `+` followed by one or
/// more decimal digits. A numeral of any length is read: one that a `usize`
/// cannot hold keeps its digits and has no `value`.
pub fn parse_numeral(s: &str) -> (r: Option<Numeral>)
    ensures
        r is Some <==> is_numeral(s@),
        r matches Some(n) ==> n.holds(numeral_value(s@)),
{
    let chars = chars_of(s);
    let len = chars.len();
    let start: usize = if len > 0 && chars[0] == '+' {
        1
    } else {
        0
    };
    if start == len {
        return None;
    }
    let ghost d = unsigned_part(s@);
    let mut value: Option<usize> = Some(0);
    let mut k: usize = start;
    while k < len
        invariant
            start <= k <= len,
            len == chars.len(),
            d == chars@.skip(start as int),
            d == unsigned_part(s@),
            all_digits(d.take(k - start)),
            match value {
                Some(v) => v == digits_value(d.take(k - start)),
                None => digits_value(d.take(k - start)) > usize::MAX,
            },
        decreases len - k,
    {
        let ghost before = d.take(k - start);
        let ghost after = d.take(k - start + 1);
        assert(after.drop_last() =~= before);
        match digit_of(chars[k]) {
            None => {
                assert(!is_digit(d[k - start]));
                return None;
            },
            Some(digit) => {
                value = match value {
                    Some(v) => match v.checked_mul(10) {
                        Some(tens) => tens.checked_add(digit),
                        None => None,
                    },
                    None => None,
                };
                assert(all_digits(after));
            },
        }
        k += 1;
    }
    assert(d.take(len - start) =~= d);
    let mut first: usize = start;
    while first + 1 < len && chars[first] == '0'
        invariant
            start <= first < len,
            len == chars.len(),
            d == chars@.skip(start as int),
            digits_value(d.skip(first - start)) == digits_value(d),
        decreases len - first,
    {
        proof {
            let rest = d.skip(first - start);
            lemma_leading_zero(rest);
            assert(rest.skip(1) =~= d.skip(first - start + 1));
        }
        first += 1;
    }
    let digits = String::from_str(s.substring_char(first, len));
    proof {
        let kept = d.skip(first - start);
        assert(kept =~= s@.subrange(first as int, len as int));
        assert(all_digits(kept));
        lemma_text_of_digits(kept);
    }
    Some(Numeral { digits, value })
}

/// Whether `s` is the decimal numeral of an integer: a `-` for a negative
/// number, then its digits without a leading zero.
pub fn is_integer_numeral(s: &str) -> (valid: bool)
    ensures
        valid == is_integer_text(s@),
{
    let chars = chars_of(s);
    let len = chars.len();
    let start: usize = if len > 0 && chars[0] == '-' {
        1
    } else {
        0
    };
    if start == len {
        return false;
    }
    let ghost d = magnitude_part(s@);
    assert(d =~= chars@.skip(start as int));
    if chars[start] == '0' && (len - start > 1 || start == 1) {
        return false;
    }
    let mut k: usize = start;
    while k < len
        invariant
            start <= k <= len,
            len == chars.len(),
            d == chars@.skip(start as int),
            d == magnitude_part(s@),
            d.len() == 1 || d[0] != '0',
            d.len() < s@.len() ==> d[0] != '0',
            forall|i: int| 0 <= i < k - start ==> is_digit(#[trigger] d[i]),
        decreases len - k,
    {
        if digit_of(chars[k]).is_none() {
            assert(!is_digit(d[k - start]));
            return false;
        }
        k += 1;
    }
    true
}

} // verus!
