//! Number formatting for messages and names.

use vstd::prelude::*;
use vstd::string::*;

verus! {

/// The character of a digit below 16, in lower case.
pub open spec fn digit_char(d: int) -> char {
    if d == 0 {
        '0'
    } else if d == 1 {
        '1'
    } else if d == 2 {
        '2'
    } else if d == 3 {
        '3'
    } else if d == 4 {
        '4'
    } else if d == 5 {
        '5'
    } else if d == 6 {
        '6'
    } else if d == 7 {
        '7'
    } else if d == 8 {
        '8'
    } else if d == 9 {
        '9'
    } else if d == 10 {
        'a'
    } else if d == 11 {
        'b'
    } else if d == 12 {
        'c'
    } else if d == 13 {
        'd'
    } else if d == 14 {
        'e'
    } else {
        'f'
    }
}

/// `n` in positional notation, without leading zeros.
pub open spec fn numeral(n: nat, base: nat) -> Seq<char>
    decreases n,
{
    if n < base || base < 2 {
        seq![digit_char(n as int)]
    } else {
        proof {
            assert(n / base < n) by (nonlinear_arith)
                requires
                    n >= base,
                    base >= 2,
            ;
        }
        numeral(n / base, base).push(digit_char((n % base) as int))
    }
}

/// `n` in decimal, with a minus sign where it is negative.
pub open spec fn decimal(n: int) -> Seq<char> {
    if n < 0 {
        seq!['-'] + numeral((-n) as nat, 10)
    } else {
        numeral(n as nat, 10)
    }
}

/// `s` with zeros put before it up to a length of `width`.
pub open spec fn zero_padded(s: Seq<char>, width: nat) -> Seq<char> {
    if s.len() < width {
        Seq::new((width - s.len()) as nat, |i: int| '0') + s
    } else {
        s
    }
}

fn digit_str(d: u64) -> (r: &'static str)
    requires
        d < 16,
    ensures
        r@ == seq![digit_char(d as int)],
{
    proof {
        reveal_strlit("0");
        reveal_strlit("1");
        reveal_strlit("2");
        reveal_strlit("3");
        reveal_strlit("4");
        reveal_strlit("5");
        reveal_strlit("6");
        reveal_strlit("7");
        reveal_strlit("8");
        reveal_strlit("9");
        reveal_strlit("a");
        reveal_strlit("b");
        reveal_strlit("c");
        reveal_strlit("d");
        reveal_strlit("e");
        reveal_strlit("f");
    }
    let r: &'static str = match d {
        0 => "0",
        1 => "1",
        2 => "2",
        3 => "3",
        4 => "4",
        5 => "5",
        6 => "6",
        7 => "7",
        8 => "8",
        9 => "9",
        10 => "a",
        11 => "b",
        12 => "c",
        13 => "d",
        14 => "e",
        _ => "f",
    };
    assert(r@ =~= seq![digit_char(d as int)]);
    r
}

fn digits(n: u64, base: u64) -> (r: String)
    requires
        2 <= base <= 16,
    ensures
        r@ == numeral(n as nat, base as nat),
    decreases n,
{
    if n < base {
        return String::from_str(digit_str(n));
    }
    assert(n / base < n && n % base < base) by (nonlinear_arith)
        requires
            n >= base,
            base >= 2,
    ;
    let mut s: String = digits(n / base, base);
    s.append(digit_str(n % base));
    assert(s@ =~= numeral(n as nat, base as nat));
    s
}

/// The characters of a string.
pub fn chars_of(s: &str) -> (r: Vec<char>)
    ensures
        r@ == s@,
{
    let n: usize = s.unicode_len();
    let mut v: Vec<char> = Vec::new();
    let mut i: usize = 0;
    while i < n
        invariant
            i <= n == s@.len(),
            v@ == s@.take(i as int),
        decreases n - i,
    {
        v.push(s.get_char(i));
        i = i + 1;
        assert(v@ =~= s@.take(i as int));
    }
    assert(s@.take(n as int) =~= s@);
    v
}

/// Whether two strings are equal.
pub fn same(a: &str, b: &str) -> (r: bool)
    ensures
        r == (a@ == b@),
{
    a.to_owned() == b.to_owned()
}

/// `n` in decimal.
pub fn dec(n: i64) -> (r: String)
    ensures
        r@ == decimal(n as int),
{
    if n < 0 {
        let mut s: String = String::from_str("-");
        let m: u64 = (-(n as i128)) as u64;
        s.append(digits(m, 10).as_str());
        proof {
            reveal_strlit("-");
            assert(s@ =~= decimal(n as int));
        }
        s
    } else {
        digits(n as u64, 10)
    }
}

/// `n` in decimal, for values that need the full unsigned range.
pub fn dec_u64(n: u64) -> (r: String)
    ensures
        r@ == decimal(n as int),
{
    digits(n, 10)
}

/// `n` in lower-case hexadecimal after `0x`.
pub fn hex(n: u64) -> (r: String)
    ensures
        r@ == "0x"@ + numeral(n as nat, 16),
{
    let mut s: String = String::from_str("0x");
    s.append(digits(n, 16).as_str());
    s
}

/// `n` in decimal with leading zeros up to six digits.
pub fn dec_six(n: u64) -> (r: String)
    ensures
        r@ == zero_padded(decimal(n as int), 6),
{
    let plain: String = dec_u64(n);
    let len: usize = plain.as_str().unicode_len();
    if len >= 6 {
        return plain;
    }
    let mut s: String = String::new();
    let mut i: usize = len;
    while i < 6
        invariant
            len <= i <= 6,
            s@ == Seq::new((i - len) as nat, |k: int| '0'),
        decreases 6 - i,
    {
        s.append("0");
        i = i + 1;
        proof {
            reveal_strlit("0");
            assert(s@ =~= Seq::new((i - len) as nat, |k: int| '0'));
        }
    }
    s.append(plain.as_str());
    s
}

/// The value that a numeral stands for: the digits of `numeral` read back.
pub open spec fn numeral_value(s: Seq<char>, base: nat) -> nat
    decreases s.len(),
{
    if s.len() == 0 {
        0
    } else {
        numeral_value(s.drop_last(), base) * base + digit_value(s.last())
    }
}

/// Value of a lower-case digit character.
pub open spec fn digit_value(c: char) -> nat {
    if '0' <= c <= '9' {
        (c as int - '0' as int) as nat
    } else {
        (c as int - 'a' as int + 10) as nat
    }
}

proof fn lemma_digit(d: int)
    requires
        0 <= d < 16,
    ensures
        digit_value(digit_char(d)) == d,
{
}

/// A numeral read back gives the number it was made from.
pub proof fn numeral_round_trip(n: nat, base: nat)
    requires
        2 <= base <= 16,
    ensures
        numeral_value(numeral(n, base), base) == n,
        numeral(n, base).len() > 0,
    decreases n,
{
    let s = numeral(n, base);
    if n < base {
        lemma_digit(n as int);
        assert(numeral_value(s.drop_last(), base) == 0);
        assert(0 * base == 0) by (nonlinear_arith);
    } else {
        assert(n / base < n) by (nonlinear_arith)
            requires
                n >= base,
                base >= 2,
        ;
        numeral_round_trip(n / base, base);
        vstd::arithmetic::div_mod::lemma_mod_bound(n as int, base as int);
        lemma_digit((n % base) as int);
        assert(s.drop_last() =~= numeral(n / base, base));
        vstd::arithmetic::div_mod::lemma_fundamental_div_mod(n as int, base as int);
        assert(n == base * (n / base) + n % base);
        assert(base * (n / base) == (n / base) * base) by (nonlinear_arith);
    }
}

/// Whether every character is a decimal digit.
pub open spec fn all_digits(s: Seq<char>) -> bool {
    forall|i: int| 0 <= i < s.len() ==> '0' <= #[trigger] s[i] <= '9'
}

/// The number that a string of decimal digits, with a plus sign before it or
/// none, stands for, where it is at most `max`.
pub open spec fn parsed(s: Seq<char>, max: u64) -> Option<u64> {
    let t = if s.len() > 0 && s[0] == '+' {
        s.skip(1)
    } else {
        s
    };
    if t.len() == 0 || !all_digits(t) || numeral_value(t, 10) > max {
        None
    } else {
        Some(numeral_value(t, 10) as u64)
    }
}

proof fn lemma_value_grows(s: Seq<char>, n: int)
    requires
        0 <= n <= s.len(),
    ensures
        numeral_value(s.take(n), 10) <= numeral_value(s, 10),
    decreases s.len(),
{
    if n == s.len() {
        assert(s.take(n) =~= s);
    } else {
        lemma_value_grows(s.drop_last(), n);
        assert(s.drop_last().take(n) =~= s.take(n));
    }
}

/// Reads a number that is at most `max`.
pub fn parse(s: &str, max: u64) -> (r: Option<u64>)
    ensures
        r == parsed(s@, max),
{
    let v: Vec<char> = chars_of(s);
    let n: usize = v.len();
    let start: usize = if n > 0 && v[0] == '+' {
        1
    } else {
        0
    };
    let ghost t = s@.skip(start as int);
    proof {
        if start == 0 {
            assert(t =~= s@);
        }
    }
    if start == n {
        return None;
    }
    let mut acc: u128 = 0;
    let mut i: usize = start;
    while i < n
        invariant
            start <= i <= n == v@.len(),
            v@ == s@,
            t == s@.skip(start as int),
            t.len() > 0,
            t == if s@.len() > 0 && s@[0] == '+' {
                s@.skip(1)
            } else {
                s@
            },
            acc <= max,
            acc == numeral_value(t.take(i - start), 10),
            forall|k: int| 0 <= k < i - start ==> '0' <= #[trigger] t[k] <= '9',
        decreases n - i,
    {
        let c: char = v[i];
        assert(t[i - start] == c);
        if c < '0' || c > '9' {
            return None;
        }
        let d: u128 = c as u128 - '0' as u128;
        assert(t.take(i - start + 1).drop_last() =~= t.take(i - start));
        acc = acc * 10 + d;
        assert(acc == numeral_value(t.take(i - start + 1), 10));
        if acc > max as u128 {
            proof {
                lemma_value_grows(t, i - start + 1);
            }
            return None;
        }
        i = i + 1;
    }
    assert(t.take(n - start) =~= t);
    Some(acc as u64)
}

proof fn lemma_numeral_digits(n: nat)
    ensures
        all_digits(numeral(n, 10)),
        numeral(n, 10).len() > 0,
    decreases n,
{
    if n >= 10 {
        lemma_numeral_digits(n / 10);
    }
}

/// A number that was written in decimal reads back as itself.
pub proof fn decimal_reads_back(n: u64, max: u64)
    requires
        n <= max,
    ensures
        parsed(decimal(n as int), max) == Some(n),
{
    numeral_round_trip(n as nat, 10);
    lemma_numeral_digits(n as nat);
    assert('0' <= decimal(n as int)[0]);
}

/// A number is written without leading zeros, and a negative one behind a minus
/// sign.
pub proof fn numbers_have_no_leading_zeros(n: nat)
    ensures
        n > 0 ==> numeral(n, 10)[0] != '0',
        n == 0 ==> decimal(0) == seq!['0'],
        n > 0 ==> decimal(-(n as int)) == seq!['-'] + decimal(n as int),
        numeral(n, 10).len() > 0,
    decreases n,
{
    if n >= 10 {
        numbers_have_no_leading_zeros(n / 10);
        lemma_numeral_digits(n / 10);
        assert(numeral(n, 10)[0] == numeral(n / 10, 10)[0]);
    } else {
        lemma_numeral_digits(n);
    }
}

/// Written numbers tell numbers apart.
pub proof fn different_numbers_are_written_differently(a: nat, b: nat, base: nat)
    requires
        2 <= base <= 16,
        numeral(a, base) == numeral(b, base),
    ensures
        a == b,
{
    numeral_round_trip(a, base);
    numeral_round_trip(b, base);
}

/// What is written of a number is the number: in decimal it reads back, in
/// hexadecimal its digits add up to it behind `0x`, and with six digits it is the
/// decimal form behind zeros.
pub proof fn written_numbers_read_back(n: u64, plain: String, hexed: String, six: String, i: int)
    requires
        call_ensures(dec_u64, (n,), plain),
        call_ensures(hex, (n,), hexed),
        call_ensures(dec_six, (n,), six),
    ensures
        all_digits(plain@) && numeral_value(plain@, 10) == n,
        hexed@.take(2) == "0x"@,
        numeral_value(hexed@.skip(2), 16) == n,
        six@.len() >= 6,
        plain@.len() >= 6 ==> six@ == plain@,
        plain@.len() <= six@.len() && six@.skip(six@.len() - plain@.len()) == plain@,
        0 <= i < six@.len() - plain@.len() ==> six@[i] == '0',
{
    reveal_strlit("0x");
    numeral_round_trip(n as nat, 10);
    numeral_round_trip(n as nat, 16);
    lemma_numeral_digits(n as nat);
    assert(hexed@.take(2) =~= "0x"@);
    assert(hexed@.skip(2) =~= numeral(n as nat, 16));
    assert(six@.skip(six@.len() - plain@.len()) =~= plain@);
}

/// A text reads as a number exactly where it is one or more digits, behind a plus
/// sign or none, that do not exceed the bound; it reads as the number that the
/// digits add up to.
pub proof fn numbers_are_digits_within_the_bound(s: &str, max: u64, r: Option<u64>)
    requires
        call_ensures(parse, (s, max), r),
    ensures
        s@.len() > 0 && all_digits(s@) ==> (r is Some <==> numeral_value(s@, 10) <= max) && (
        r matches Some(n) ==> n == numeral_value(s@, 10)),
        s@.len() == 0 ==> r is None,
        s@.len() > 0 && s@[0] != '+' && !all_digits(s@) ==> r is None,
        s@.len() == 1 && s@[0] == '+' ==> r is None,
        s@.len() > 1 && s@[0] == '+' && all_digits(s@.skip(1)) ==> (r is Some <==> numeral_value(
            s@.skip(1),
            10,
        ) <= max) && (r matches Some(n) ==> n == numeral_value(s@.skip(1), 10)),
        s@.len() > 1 && s@[0] == '+' && !all_digits(s@.skip(1)) ==> r is None,
{
    if s@.len() > 0 && all_digits(s@) {
        assert('0' <= s@[0]);
    }
}

/// Texts are the same exactly where they have the same characters.
pub proof fn texts_are_compared_whole(a: &str, b: &str, r: bool, v: Vec<char>)
    requires
        call_ensures(same, (a, b), r),
        call_ensures(chars_of, (a,), v),
    ensures
        r <==> a@ == b@,
        v@ == a@,
{
}

/// A signed number is written as its magnitude, behind a minus sign where it is
/// negative.
pub proof fn signed_numbers_keep_their_sign(n: i64, r: String)
    requires
        call_ensures(dec, (n,), r),
    ensures
        n >= 0 ==> all_digits(r@) && numeral_value(r@, 10) == n,
        n < 0 ==> r@[0] == '-' && all_digits(r@.skip(1)) && numeral_value(r@.skip(1), 10) == -n,
{
    let m = if n < 0 {
        (-n) as nat
    } else {
        n as nat
    };
    numeral_round_trip(m, 10);
    lemma_numeral_digits(m);
    if n < 0 {
        assert(r@.skip(1) =~= numeral(m, 10));
    }
}

} // verus!
