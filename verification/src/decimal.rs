//! Unsigned decimal numbers in text: reading (as `str::parse::<u64>`
//! and `str::parse::<u32>` do) and writing (as `to_string` does).

use vstd::prelude::*;
use crate::text::{char_is_digit, is_digit};

verus! {

/// Value of an ASCII digit.
pub open spec fn digit_value(c: char) -> nat {
    (c as int - '0' as int) as nat
}

/// Value of a string of decimal digits (most significant first).
pub open spec fn decimal_value(d: Seq<char>) -> nat
    decreases d.len(),
{
    if d.len() == 0 {
        0
    } else {
        decimal_value(d.drop_last()) * 10 + digit_value(d.last())
    }
}

/// All characters are ASCII digits.
pub open spec fn all_digits(d: Seq<char>) -> bool {
    forall|i: int| 0 <= i < d.len() ==> is_digit(#[trigger] d[i])
}

/// The digits after an optional leading `+`.
pub open spec fn unsigned_digits(s: Seq<char>) -> Seq<char> {
    if s.len() > 0 && s[0] == '+' {
        s.drop_first()
    } else {
        s
    }
}

/// What `str::parse` gives for an unsigned integer type whose largest
/// value is `max`: an optional `+`, then at least one digit and nothing
/// else, with a value that fits.
pub open spec fn parse_unsigned(s: Seq<char>, max: nat) -> Option<nat> {
    let d = unsigned_digits(s);
    if d.len() > 0 && all_digits(d) && decimal_value(d) <= max {
        Some(decimal_value(d))
    } else {
        None
    }
}

/// Dropping trailing digits never increases the value.
pub proof fn lemma_decimal_value_prefix(d: Seq<char>, i: int)
    requires
        0 <= i <= d.len(),
        all_digits(d),
    ensures
        decimal_value(d.take(i)) <= decimal_value(d),
    decreases d.len() - i,
{
    if i < d.len() {
        lemma_decimal_value_prefix(d, i + 1);
        assert(d.take(i + 1).drop_last() == d.take(i));
        assert(d.take(i + 1).last() == d[i]);
        assert(decimal_value(d.take(i + 1)) == decimal_value(d.take(i)) * 10 + digit_value(d[i]));
    } else {
        assert(d.take(i) == d);
    }
}

/// Read an unsigned decimal number no larger than `max`.
fn parse_unsigned_exec(s: &Vec<char>, max: u64) -> (r: Option<u64>)
    requires
        max >= 9,
    ensures
        match parse_unsigned(s@, max as nat) {
            Some(v) => r == Some(v as u64),
            None => r is None,
        },
{
    let start: usize = if s.len() > 0 && s[0] == '+' {
        1
    } else {
        0
    };
    let ghost d = unsigned_digits(s@);
    assert(d =~= s@.subrange(start as int, s@.len() as int));
    if start >= s.len() {
        assert(d.len() == 0);
        return None;
    }
    let mut v: u64 = 0;
    let mut i: usize = start;
    while i < s.len()
        invariant
            start <= i <= s@.len(),
            max >= 9,
            d == unsigned_digits(s@),
            d =~= s@.subrange(start as int, s@.len() as int),
            all_digits(d.take(i - start)),
            v as nat == decimal_value(d.take(i - start)),
            v <= max,
        decreases s@.len() - i,
    {
        let c = s[i];
        assert(d[i - start] == c);
        if !char_is_digit(c) {
            assert(!is_digit(d[i - start]));
            assert(!all_digits(d));
            return None;
        }
        assert(d.take(i + 1 - start).drop_last() == d.take(i - start));
        let dv: u64 = (c as u32 - '0' as u32) as u64;
        assert(dv as nat == digit_value(c));
        if v > (max - dv) / 10 {
            proof {
                assert(v * 10 + dv > max) by (nonlinear_arith)
                    requires
                        v > (max - dv) / 10,
                        dv <= max || true,
                        dv <= 9,
                ;
                lemma_all_digits_take_extends(d, i + 1 - start, c);
                if all_digits(d) {
                    lemma_decimal_value_prefix(d, i + 1 - start);
                }
            }
            return None;
        }
        proof {
            assert(v * 10 + dv <= max) by (nonlinear_arith)
                requires
                    v <= (max - dv) / 10,
                    dv <= 9,
                    max >= dv,
            ;
        }
        v = v * 10 + dv;
        proof {
            lemma_all_digits_take_extends(d, i + 1 - start, c);
        }
        i = i + 1;
    }
    assert(d.take(s@.len() - start) == d);
    Some(v)
}

proof fn lemma_all_digits_take_extends(d: Seq<char>, k: int, c: char)
    requires
        0 < k <= d.len(),
        all_digits(d.take(k - 1)),
        d[k - 1] == c,
        is_digit(c),
    ensures
        all_digits(d.take(k)),
{
    assert forall|j: int| 0 <= j < k implies is_digit(#[trigger] d.take(k)[j]) by {
        if j < k - 1 {
            assert(d.take(k)[j] == d.take(k - 1)[j]);
        }
    }
}

/// `str::parse::<u64>`.
pub fn parse_u64(s: &str) -> (r: Option<u64>)
    ensures
        match parse_unsigned(s@, u64::MAX as nat) {
            Some(v) => r == Some(v as u64),
            None => r is None,
        },
{
    let cs = crate::text::chars_of(s);
    parse_unsigned_exec(&cs, u64::MAX)
}

/// `str::parse::<u32>`.
pub fn parse_u32(s: &Vec<char>) -> (r: Option<u32>)
    ensures
        match parse_unsigned(s@, u32::MAX as nat) {
            Some(v) => r == Some(v as u32),
            None => r is None,
        },
{
    match parse_unsigned_exec(s, u32::MAX as u64) {
        Some(v) => Some(v as u32),
        None => None,
    }
}

/// The ASCII digit of a value below ten.
pub open spec fn digit_char(n: nat) -> char {
    ('0' as int + n) as char
}

/// Decimal digits of `n`, without leading zeros ("0" for zero).
pub open spec fn decimal_digits(n: nat) -> Seq<char>
    decreases n,
{
    if n < 10 {
        seq![digit_char(n)]
    } else {
        decimal_digits(n / 10).push(digit_char(n % 10))
    }
}

/// Decimal digits read back give the number.
pub proof fn lemma_decimal_digits_value(n: nat)
    ensures
        all_digits(decimal_digits(n)),
        decimal_digits(n).len() > 0,
        decimal_value(decimal_digits(n)) == n,
        decimal_digits(n)[0] != '+',
    decreases n,
{
    if n >= 10 {
        lemma_decimal_digits_value(n / 10);
        let p = decimal_digits(n / 10);
        assert(decimal_digits(n).drop_last() == p);
        assert(decimal_digits(n).last() == digit_char(n % 10));
        assert(digit_value(digit_char(n % 10)) == n % 10);
        assert(n == (n / 10) * 10 + n % 10);
        assert(decimal_value(decimal_digits(n)) == decimal_value(p) * 10 + digit_value(
            decimal_digits(n).last(),
        ));
        assert forall|i: int| 0 <= i < decimal_digits(n).len() implies is_digit(
            #[trigger] decimal_digits(n)[i],
        ) by {
            if i < p.len() {
                assert(decimal_digits(n)[i] == p[i]);
            }
        }
        assert(decimal_digits(n)[0] == p[0]);
    } else {
        assert(decimal_digits(n).drop_last() =~= Seq::<char>::empty());
        assert(digit_value(digit_char(n)) == n);
        assert(decimal_value(decimal_digits(n)) == decimal_value(decimal_digits(n).drop_last()) * 10
            + digit_value(decimal_digits(n).last()));
        assert(decimal_value(Seq::<char>::empty()) == 0);
    }
}

/// Writing a number in decimal and reading it back (as any unsigned
/// type at least as wide) gives the number.
pub proof fn lemma_decimal_round_trip(n: nat, max: nat)
    requires
        n <= max,
    ensures
        parse_unsigned(decimal_digits(n), max) == Some(n),
{
    lemma_decimal_digits_value(n);
    assert(unsigned_digits(decimal_digits(n)) == decimal_digits(n));
}

/// `n.to_string()` for an unsigned integer.
pub fn u64_to_decimal(n: u64) -> (r: String)
    ensures
        r@ == decimal_digits(n as nat),
{
    let mut rev: Vec<char> = Vec::new();
    let mut m = n;
    let ghost mut built: Seq<char> = Seq::empty();
    assert(decimal_digits(n as nat) + built =~= decimal_digits(n as nat));
    loop
        invariant_except_break
            decimal_digits(n as nat) == decimal_digits(m as nat) + built,
        invariant
            rev@ == built.reverse(),
        ensures
            decimal_digits(n as nat) == built,
            rev@ == built.reverse(),
        decreases m,
    {
        let d = (m % 10) as u32;
        let c = char_from_digit(d);
        let ghost old_m = m;
        rev.push(c);
        proof {
            let nb = seq![c] + built;
            if old_m < 10 {
                assert(decimal_digits(old_m as nat) == seq![c]);
                assert(seq![c] + built =~= nb);
            } else {
                assert(decimal_digits(old_m as nat) == decimal_digits((old_m / 10) as nat).push(c));
                assert(decimal_digits((old_m / 10) as nat).push(c) + built =~= decimal_digits(
                    (old_m / 10) as nat,
                ) + nb);
            }
            assert(nb.reverse() =~= built.reverse().push(c));
            built = nb;
        }
        m = m / 10;
        if m == 0 {
            assert(old_m < 10);
            assert(decimal_digits(n as nat) == built);
            break;
        }
    }
    let mut out = String::new();
    let mut k = rev.len();
    while k > 0
        invariant
            k <= rev@.len(),
            rev@ == built.reverse(),
            out@ == built.take(built.len() - k),
            built.len() == rev@.len(),
        decreases k,
    {
        k = k - 1;
        crate::text::push_char(&mut out, rev[k]);
        assert(built.take(built.len() - k) == built.take(built.len() - k - 1).push(
            built[built.len() - k - 1],
        ));
    }
    assert(built.take(built.len() as int) == built);
    out
}

/// The digit character of a value below ten.
fn char_from_digit(d: u32) -> (c: char)
    requires
        d < 10,
    ensures
        c == digit_char(d as nat),
{
    match d {
        0 => '0',
        1 => '1',
        2 => '2',
        3 => '3',
        4 => '4',
        5 => '5',
        6 => '6',
        7 => '7',
        8 => '8',
        _ => '9',
    }
}

} // verus!
