//! Building and reading strings: characters, decimal numbers and colons.

use vstd::prelude::*;

verus! {

/// Calls `String::push`, which appends `c` to the end of the string.
#[verifier::external_body]
pub fn string_push(s: &mut String, c: char)
    ensures
        final(s)@ == old(s)@.push(c),
{
    s.push(c);
}

/// Calls `String::pop`, which removes the last character and returns it,
/// or returns `None` and leaves the string as it is where it is empty.
#[verifier::external_body]
pub fn string_pop(s: &mut String) -> (c: Option<char>)
    ensures
        old(s)@.len() == 0 ==> c is None && final(s)@ == old(s)@,
        old(s)@.len() > 0 ==> c == Some(old(s)@.last()) && final(s)@ == old(s)@.drop_last(),
{
    s.pop()
}

/// The character of the decimal digit `d`, for `0 <= d < 10`.
pub open spec fn digit_char(d: int) -> char {
    seq!['0', '1', '2', '3', '4', '5', '6', '7', '8', '9'][d]
}

/// The decimal digits of `n`, most significant first, without leading
/// zeros (`0` is written `"0"`).
pub open spec fn decimal_digits(n: nat) -> Seq<char>
    decreases n,
{
    if n < 10 {
        seq![digit_char(n as int)]
    } else {
        decimal_digits(n / 10).push(digit_char(n as int % 10))
    }
}

/// How `{}` writes the integer `v`: its decimal digits, after a `-` where
/// `v` is negative.
pub open spec fn decimal(v: int) -> Seq<char> {
    if v < 0 {
        seq!['-'] + decimal_digits((-v) as nat)
    } else {
        decimal_digits(v as nat)
    }
}

/// Appends the decimal digits of `n`.
pub fn push_decimal_digits(s: &mut String, n: u64)
    ensures
        final(s)@ == old(s)@ + decimal_digits(n as nat),
    decreases n,
{
    if n >= 10 {
        push_decimal_digits(s, n / 10);
    }
    let d = (n % 10) as u32;
    let c = if d == 0 {
        '0'
    } else if d == 1 {
        '1'
    } else if d == 2 {
        '2'
    } else if d == 3 {
        '3'
    } else if d == 4 {
        '4'
    } else if d == 5 {
        '5'
    } else if d == 6 {
        '6'
    } else if d == 7 {
        '7'
    } else if d == 8 {
        '8'
    } else {
        '9'
    };
    string_push(s, c);
    assert(s@ =~= old(s)@ + decimal_digits(n as nat));
}

/// Appends `v` as `{}` writes it.
pub fn push_decimal(s: &mut String, v: i64)
    requires
        v > i64::MIN,
    ensures
        final(s)@ == old(s)@ + decimal(v as int),
{
    if v < 0 {
        string_push(s, '-');
        push_decimal_digits(s, (-v) as u64);
        assert(s@ =~= old(s)@ + decimal(v as int));
    } else {
        push_decimal_digits(s, v as u64);
    }
}

/// The number of colons in `s`.
pub open spec fn colon_count(s: Seq<char>) -> nat
    decreases s.len(),
{
    if s.len() == 0 {
        0
    } else {
        colon_count(s.drop_last()) + if s.last() == ':' {
            1nat
        } else {
            0nat
        }
    }
}

/// Counts the colons in `s`, stopping at two.
pub fn count_colons_up_to_two(s: &str) -> (n: usize)
    ensures
        n == if colon_count(s@) < 2 {
            colon_count(s@)
        } else {
            2
        },
{
    let mut n: usize = 0;
    for c in iter: s.chars()
        invariant
            iter.seq() == s@,
            n == if colon_count(s@.take(iter.index())) < 2 {
                colon_count(s@.take(iter.index()))
            } else {
                2
            },
    {
        assert(s@.take(iter.index() + 1).drop_last() =~= s@.take(iter.index()));
        if c == ':' && n < 2 {
            n = n + 1;
        }
    }
    assert(s@.take(s@.len() as int) =~= s@);
    n
}

} // verus!
