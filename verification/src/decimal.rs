//! Decimal numbers in text: reading a signed integer and writing one out.

use vstd::prelude::*;

verus! {

/// Whether `c` is one of the ten ASCII digits.
pub open spec fn is_digit(c: char) -> bool {
    48 <= c as u32 <= 57
}

/// The value of an ASCII digit.
pub open spec fn digit_value(c: char) -> nat {
    (c as u32 - 48) as nat
}

/// The ASCII digit for a value below ten.
pub open spec fn digit_char(d: nat) -> char {
    if d == 0 {
        '0'
    } else if d == 1 {
        '1'
    } else if d == 2 {
        '2'
    } else if d == 3 {
        '3'
    } else if d == 4 {
        '4'
    } else if d == 5 {
        '5'
    } else if d == 6 {
        '6'
    } else if d == 7 {
        '7'
    } else if d == 8 {
        '8'
    } else {
        '9'
    }
}

/// Whether every character of `s` is an ASCII digit.
pub open spec fn all_digits(s: Seq<char>) -> bool {
    forall|i: int| 0 <= i < s.len() ==> is_digit(#[trigger] s[i])
}

/// The number that a run of digits denotes, most significant digit first.
pub open spec fn decimal_value(s: Seq<char>) -> nat
    decreases s.len(),
{
    if s.len() == 0 {
        0
    } else {
        decimal_value(s.drop_last()) * 10 + digit_value(s.last())
    }
}

/// The integer that `s` denotes: an optional `+` or `-`, then at least one
/// digit and nothing else.
pub open spec fn parse_integer(s: Seq<char>) -> Option<int> {
    let signed = s.len() > 0 && (s[0] == '-' || s[0] == '+');
    let digits = if signed {
        s.subrange(1, s.len() as int)
    } else {
        s
    };
    if digits.len() > 0 && all_digits(digits) {
        if signed && s[0] == '-' {
            Some(-(decimal_value(digits) as int))
        } else {
            Some(decimal_value(digits) as int)
        }
    } else {
        None
    }
}

/// The `i32` that `s` denotes, if it denotes an integer in range.
pub open spec fn parse_i32_text(s: Seq<char>) -> Option<i32> {
    match parse_integer(s) {
        Some(v) => if i32::MIN <= v <= i32::MAX {
            Some(v as i32)
        } else {
            None
        },
        None => None,
    }
}

/// The digits of `n`, most significant first, without leading zeros.
pub open spec fn decimal_text(n: nat) -> Seq<char>
    decreases n,
{
    if n < 10 {
        seq![digit_char(n)]
    } else {
        decimal_text(n / 10).push(digit_char(n % 10))
    }
}

/// The digits of `v`, with a leading `-` when it is negative.
pub open spec fn integer_text(v: int) -> Seq<char> {
    if v < 0 {
        seq!['-'] + decimal_text((-v) as nat)
    } else {
        decimal_text(v as nat)
    }
}

/// The digits of `n`, padded with zeros on the left to at least `width`.
pub open spec fn padded_text(n: nat, width: nat) -> Seq<char>
    decreases width,
{
    let digits = decimal_text(n);
    if digits.len() >= width {
        digits
    } else {
        Seq::new((width - digits.len()) as nat, |i: int| '0') + digits
    }
}

/// A longer run of digits never denotes less than one of its prefixes.
pub proof fn lemma_decimal_value_prefix(s: Seq<char>, k: int)
    requires
        0 <= k <= s.len(),
    ensures
        decimal_value(s.take(k)) <= decimal_value(s),
    decreases s.len(),
{
    if k == s.len() {
        assert(s.take(k) =~= s);
    } else {
        lemma_decimal_value_prefix(s.drop_last(), k);
        assert(s.drop_last().take(k) =~= s.take(k));
    }
}

/// Writing a number out and reading it back gives the number.
pub proof fn lemma_decimal_text_round_trip(n: nat)
    ensures
        decimal_text(n).len() > 0,
        all_digits(decimal_text(n)),
        decimal_value(decimal_text(n)) == n,
    decreases n,
{
    if n < 10 {
        let t = decimal_text(n);
        assert(t.drop_last() =~= Seq::<char>::empty());
        assert(decimal_value(t.drop_last()) == 0);
    } else {
        lemma_decimal_text_round_trip(n / 10);
        let t = decimal_text(n);
        assert(t.drop_last() =~= decimal_text(n / 10));
        assert(t.last() == digit_char(n % 10));
    }
}

/// Writing an integer out and reading it back gives the integer.
pub proof fn lemma_integer_text_round_trip(v: int)
    ensures
        parse_integer(integer_text(v)) == Some(v),
{
    if v < 0 {
        let digits = decimal_text((-v) as nat);
        lemma_decimal_text_round_trip((-v) as nat);
        let t = integer_text(v);
        assert(t[0] == '-');
        assert(t.subrange(1, t.len() as int) =~= digits);
    } else {
        lemma_decimal_text_round_trip(v as nat);
        let t = integer_text(v);
        assert(is_digit(t[0]));
    }
}

/// Executable form of [`is_digit`].
pub fn digit(c: char) -> (b: bool)
    ensures
        b == is_digit(c),
{
    let u: u32 = c as u32;
    48 <= u && u <= 57
}

/// Reads the integer that `chars` denotes, if it fits an `i32`.
pub fn parse_i32(chars: &Vec<char>) -> (value: Option<i32>)
    ensures
        value == parse_i32_text(chars@),
{
    let n = chars.len();
    if n == 0 {
        return None;
    }
    let negative = chars[0] == '-';
    let start: usize = if chars[0] == '-' || chars[0] == '+' {
        1
    } else {
        0
    };
    if start == n {
        return None;
    }
    let ghost digits = chars@.subrange(start as int, n as int);
    proof {
        if start == 0 {
            assert(digits =~= chars@);
        }
    }
    let mut acc: i64 = 0;
    let mut i: usize = start;
    while i < n
        invariant
            start <= i <= n,
            n == chars.len(),
            start < n,
            start <= 1,
            start == 1 <==> (chars@[0] == '-' || chars@[0] == '+'),
            start == 0 ==> digits == chars@,
            digits == chars@.subrange(start as int, n as int),
            all_digits(digits.take(i - start)),
            acc == decimal_value(digits.take(i - start)),
            0 <= acc <= 0x8000_0000,
        decreases n - i,
    {
        let c = chars[i];
        if !digit(c) {
            assert(!is_digit(digits[i - start]));
            return None;
        }
        let d: i64 = (c as u32 - 48) as i64;
        let next: i64 = acc * 10 + d;
        proof {
            let longer = digits.take(i - start + 1);
            assert(longer.drop_last() =~= digits.take(i - start));
            assert(longer.last() == c);
            assert(decimal_value(longer) == next);
            assert forall|k: int| 0 <= k < longer.len() implies is_digit(#[trigger] longer[k]) by {
                if k < i - start {
                    assert(digits.take(i - start)[k] == longer[k]);
                }
            }
        }
        if next > 0x8000_0000 {
            proof {
                lemma_decimal_value_prefix(digits, i - start + 1);
            }
            return None;
        }
        acc = next;
        i += 1;
    }
    assert(digits.take(n - start) =~= digits);
    if negative {
        Some((-acc) as i32)
    } else if acc > 0x7FFF_FFFF {
        None
    } else {
        Some(acc as i32)
    }
}

/// The digit for a value below ten.
pub fn digit_of(d: u64) -> (c: char)
    requires
        d < 10,
    ensures
        c == digit_char(d as nat),
{
    if d == 0 {
        '0'
    } else if d == 1 {
        '1'
    } else if d == 2 {
        '2'
    } else if d == 3 {
        '3'
    } else if d == 4 {
        '4'
    } else if d == 5 {
        '5'
    } else if d == 6 {
        '6'
    } else if d == 7 {
        '7'
    } else if d == 8 {
        '8'
    } else {
        '9'
    }
}

/// Appends the digits of `n` to `out`.
pub fn push_decimal(out: &mut Vec<char>, n: u64)
    ensures
        final(out)@ == old(out)@ + decimal_text(n as nat),
    decreases n,
{
    if n >= 10 {
        push_decimal(out, n / 10);
    }
    out.push(digit_of(n % 10));
    proof {
        if n >= 10 {
            assert(final(out)@ =~= old(out)@ + decimal_text(n as nat));
        } else {
            assert(final(out)@ =~= old(out)@ + decimal_text(n as nat));
        }
    }
}

/// Appends the digits of `v`, with a leading `-` when it is negative.
pub fn push_integer(out: &mut Vec<char>, v: i64)
    ensures
        final(out)@ == old(out)@ + integer_text(v as int),
{
    if v < 0 {
        out.push('-');
        let magnitude: u64 = if v == i64::MIN {
            0x8000_0000_0000_0000
        } else {
            (-v) as u64
        };
        push_decimal(out, magnitude);
        assert(final(out)@ =~= old(out)@ + integer_text(v as int));
    } else {
        push_decimal(out, v as u64);
    }
}

/// The number of digits of `n`.
pub fn decimal_width(n: u64) -> (width: usize)
    ensures
        width == decimal_text(n as nat).len(),
        1 <= width <= 20,
    decreases n,
{
    if n < 10 {
        1
    } else {
        let shorter = decimal_width(n / 10);
        proof {
            lemma_decimal_width_bound(n as nat);
        }
        shorter + 1
    }
}

/// A number below 2^64 has at most twenty digits.
pub proof fn lemma_decimal_width_bound(n: nat)
    requires
        n <= u64::MAX,
    ensures
        1 <= decimal_text(n).len() <= 20,
{
    reveal_with_fuel(decimal_text, 21);
}

/// Appends the digits of `n`, padded with zeros on the left to `width`.
pub fn push_padded(out: &mut Vec<char>, n: u64, width: usize)
    ensures
        final(out)@ == old(out)@ + padded_text(n as nat, width as nat),
{
    let have = decimal_width(n);
    let ghost before = out@;
    if have < width {
        let mut k: usize = have;
        while k < width
            invariant
                have <= k <= width,
                out@ == before + Seq::new((k - have) as nat, |i: int| '0'),
            decreases width - k,
        {
            out.push('0');
            k += 1;
            assert(out@ =~= before + Seq::new((k - have) as nat, |i: int| '0'));
        }
    } else {
        assert(out@ =~= before + Seq::new(0, |i: int| '0'));
    }
    let ghost padded = out@;
    push_decimal(out, n);
    assert(final(out)@ =~= old(out)@ + padded_text(n as nat, width as nat));
}

} // verus!
