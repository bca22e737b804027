//! Decimal integers: parsing as `str::parse` does and printing as `Display` does.

use vstd::prelude::*;
use crate::text::{chars_of, push_char};

verus! {

/// An ASCII decimal digit.
pub open spec fn is_digit(c: char) -> bool {
    48 <= (c as u32) <= 57
}

/// The value of an ASCII decimal digit.
pub open spec fn digit_value(c: char) -> int {
    (c as u32) - 48
}

/// Every character of `s` is an ASCII decimal digit.
pub open spec fn all_digits(s: Seq<char>) -> bool {
    forall|i: int| 0 <= i < s.len() ==> is_digit(#[trigger] s[i])
}

/// The number that a string of decimal digits denotes.
pub open spec fn digits_value(s: Seq<char>) -> int
    decreases s.len(),
{
    if s.len() == 0 {
        0
    } else {
        digits_value(s.drop_last()) * 10 + digit_value(s.last())
    }
}

/// The integer a string denotes in the syntax of `str::parse` for signed
/// integers: an optional `+` or `-`, then one or more ASCII digits.
pub open spec fn parse_int_seq(s: Seq<char>) -> Option<int> {
    if s.len() > 0 && (s[0] == '+' || s[0] == '-') {
        let d = s.drop_first();
        if d.len() > 0 && all_digits(d) {
            Some(
                if s[0] == '-' {
                    -digits_value(d)
                } else {
                    digits_value(d)
                },
            )
        } else {
            None
        }
    } else if s.len() > 0 && all_digits(s) {
        Some(digits_value(s))
    } else {
        None
    }
}

/// What `s.parse::<i32>()` gives, as an option.
pub open spec fn parse_i32_seq(s: Seq<char>) -> Option<i32> {
    match parse_int_seq(s) {
        Some(v) => if i32::MIN <= v <= i32::MAX {
            Some(v as i32)
        } else {
            None
        },
        None => None,
    }
}

/// What `s.parse::<i64>()` gives, as an option.
pub open spec fn parse_i64_seq(s: Seq<char>) -> Option<i64> {
    match parse_int_seq(s) {
        Some(v) => if i64::MIN <= v <= i64::MAX {
            Some(v as i64)
        } else {
            None
        },
        None => None,
    }
}

pub(crate) proof fn lemma_digits_value_nonneg(s: Seq<char>)
    requires
        all_digits(s),
    ensures
        digits_value(s) >= 0,
    decreases s.len(),
{
    if s.len() > 0 {
        assert(all_digits(s.drop_last())) by {
            assert forall|i: int| 0 <= i < s.drop_last().len() implies is_digit(
                #[trigger] s.drop_last()[i],
            ) by {
                assert(s.drop_last()[i] == s[i]);
            }
        }
        lemma_digits_value_nonneg(s.drop_last());
        assert(is_digit(s[s.len() - 1]));
    }
}

/// Value of the digits `cs[lo..]`, or `None` when it exceeds 10^19.
fn digits_capped(cs: &Vec<char>, lo: usize) -> (r: Option<u64>)
    requires
        lo <= cs@.len(),
        all_digits(cs@.subrange(lo as int, cs@.len() as int)),
    ensures
        match r {
            Some(v) => v == digits_value(cs@.subrange(lo as int, cs@.len() as int)),
            None => digits_value(cs@.subrange(lo as int, cs@.len() as int)) > 10_000_000_000_000_000_000,
        },
{
    let mut acc: u64 = 0;
    let mut big: bool = false;
    let mut i: usize = lo;
    assert(cs@.subrange(lo as int, lo as int) =~= Seq::<char>::empty());
    while i < cs.len()
        invariant
            lo <= i <= cs@.len(),
            all_digits(cs@.subrange(lo as int, cs@.len() as int)),
            !big ==> acc == digits_value(cs@.subrange(lo as int, i as int)) && acc
                <= 10_000_000_000_000_000_009,
            big ==> digits_value(cs@.subrange(lo as int, i as int)) > 10_000_000_000_000_000_000,
        decreases cs.len() - i,
    {
        let ghost prev = cs@.subrange(lo as int, i as int);
        let ghost next = cs@.subrange(lo as int, i + 1);
        assert(next.drop_last() =~= prev);
        assert(next.last() == cs@[i as int]);
        assert(cs@[i as int] == cs@.subrange(lo as int, cs@.len() as int)[i - lo]);
        let c = cs[i];
        let d: u64 = (c as u32 - 48) as u64;
        if !big {
            if acc > 1_000_000_000_000_000_000 {
                big = true;
            } else {
                acc = acc * 10 + d;
            }
        } else {
            proof {
                assert(all_digits(prev)) by {
                    assert forall|k: int| 0 <= k < prev.len() implies is_digit(#[trigger] prev[k]) by {
                        assert(prev[k] == cs@.subrange(lo as int, cs@.len() as int)[k]);
                    }
                }
                lemma_digits_value_nonneg(prev);
            }
        }
        i = i + 1;
    }
    assert(cs@.subrange(lo as int, i as int) =~= cs@.subrange(lo as int, cs@.len() as int));
    if big {
        None
    } else {
        Some(acc)
    }
}

/// The sign and digit value of `s` in `str::parse` syntax, or `None` when
/// the syntax is wrong or the magnitude exceeds 10^19.
fn parse_int(s: &str) -> (r: Option<i128>)
    ensures
        match r {
            Some(v) => parse_int_seq(s@) == Some(v as int),
            None => match parse_int_seq(s@) {
                Some(v) => v > 10_000_000_000_000_000_000 || v < -10_000_000_000_000_000_000,
                None => true,
            },
        },
{
    let cs = chars_of(s);
    if cs.len() == 0 {
        return None;
    }
    let neg = cs[0] == '-';
    let start: usize = if cs[0] == '+' || cs[0] == '-' {
        1
    } else {
        0
    };
    if start >= cs.len() {
        return None;
    }
    let mut k: usize = start;
    while k < cs.len()
        invariant
            cs@ == s@,
            cs@.len() > 0,
            start == (if cs@[0] == '+' || cs@[0] == '-' { 1usize } else { 0usize }),
            start <= k <= cs@.len(),
            forall|j: int| start <= j < k ==> is_digit(#[trigger] cs@[j]),
        decreases cs.len() - k,
    {
        let u = cs[k] as u32;
        if u < 48 || u > 57 {
            proof {
                let d = cs@.subrange(start as int, cs@.len() as int);
                assert(d[k - start] == cs@[k as int]);
                if start == 1 {
                    assert(d =~= s@.drop_first());
                }
            }
            return None;
        }
        k = k + 1;
    }
    let ghost d = cs@.subrange(start as int, cs@.len() as int);
    assert(all_digits(d)) by {
        assert forall|j: int| 0 <= j < d.len() implies is_digit(#[trigger] d[j]) by {
            assert(d[j] == cs@[j + start]);
        }
    }
    if start == 1 {
        assert(d =~= s@.drop_first());
    } else {
        assert(d =~= s@);
    }
    match digits_capped(&cs, start) {
        Some(v) => {
            if neg {
                Some(-(v as i128))
            } else {
                Some(v as i128)
            }
        },
        None => None,
    }
}

/// `s.parse::<i32>().ok()`.
pub fn parse_i32(s: &str) -> (r: Option<i32>)
    ensures
        r == parse_i32_seq(s@),
{
    match parse_int(s) {
        Some(v) => if -2147483648 <= v && v <= 2147483647 {
            Some(v as i32)
        } else {
            None
        },
        None => None,
    }
}

/// `s.parse::<i64>().ok()`.
pub fn parse_i64(s: &str) -> (r: Option<i64>)
    ensures
        r == parse_i64_seq(s@),
{
    match parse_int(s) {
        Some(v) => if -9223372036854775808 <= v && v <= 9223372036854775807 {
            Some(v as i64)
        } else {
            None
        },
        None => None,
    }
}

/// The ASCII digit for a value below ten.
pub open spec fn digit_char(d: int) -> char {
    (d + 48) as char
}

/// Decimal digits of a natural number, without leading zeros.
pub open spec fn nat_decimal(n: nat) -> Seq<char>
    decreases n,
{
    if n < 10 {
        seq![digit_char(n as int)]
    } else {
        nat_decimal(n / 10) + seq![digit_char((n % 10) as int)]
    }
}

/// Decimal form of an integer, as `Display` prints it.
pub open spec fn int_decimal(n: int) -> Seq<char> {
    if n < 0 {
        seq!['-'] + nat_decimal((-n) as nat)
    } else {
        nat_decimal(n as nat)
    }
}

fn digit_to_char(d: u64) -> (c: char)
    requires
        d < 10,
    ensures
        c == digit_char(d as int),
{
    let c = match d {
        0 => '0',
        1 => '1',
        2 => '2',
        3 => '3',
        4 => '4',
        5 => '5',
        6 => '6',
        7 => '7',
        8 => '8',
        _ => '9',
    };
    assert(c == digit_char(d as int)) by {
        assert(('0' as u32) == 48);
    }
    c
}

fn push_decimal(out: &mut String, n: u64)
    ensures
        final(out)@ == old(out)@ + nat_decimal(n as nat),
    decreases n,
{
    if n >= 10 {
        push_decimal(out, n / 10);
    }
    let c = digit_to_char(n % 10);
    push_char(out, c);
}

/// `n.to_string()` for an `i64`.
pub fn i64_to_string(n: i64) -> (s: String)
    ensures
        s@ == int_decimal(n as int),
{
    let mut s = String::new();
    if n < 0 {
        push_char(&mut s, '-');
        let m: u64 = (-(n as i128)) as u64;
        push_decimal(&mut s, m);
    } else {
        push_decimal(&mut s, n as u64);
    }
    s
}

/// `n.to_string()` for an `i32`.
pub fn i32_to_string(n: i32) -> (s: String)
    ensures
        s@ == int_decimal(n as int),
{
    i64_to_string(n as i64)
}

} // verus!
