//! Base-10 text for unsigned 32-bit numbers.
//!
//! A resource version is text. It is compared as a number only when it reads
//! as one, so this module fixes what "reads as a number" means and how a
//! number is written back.

use vstd::prelude::*;

verus! {

/// Whether `c` is one of the ASCII digits `0` to `9`.
pub open spec fn is_digit(c: char) -> bool {
    '0' <= c && c <= '9'
}

/// The value of an ASCII digit.
pub open spec fn digit_value(c: char) -> nat
    recommends
        is_digit(c),
{
    (c as u32 - 48) as nat
}

/// The ASCII digit that stands for `d`.
pub open spec fn digit_char(d: nat) -> char
    recommends
        d < 10,
{
    ((d + 48) as u8) as char
}

/// Whether every character of `s` is an ASCII digit.
pub open spec fn all_digits(s: Seq<char>) -> bool {
    forall|i: int| 0 <= i < s.len() ==> is_digit(#[trigger] s[i])
}

/// The number that a run of digits denotes, most significant digit first.
/// The empty run denotes zero.
pub open spec fn decimal_value(s: Seq<char>) -> nat
    decreases s.len(),
{
    if s.len() == 0 {
        0
    } else {
        10 * decimal_value(s.drop_last()) + digit_value(s.last())
    }
}

/// `s` without one leading `+`, if it has one.
pub open spec fn unsigned_part(s: Seq<char>) -> Seq<char> {
    if s.len() > 0 && s[0] == '+' {
        s.subrange(1, s.len() as int)
    } else {
        s
    }
}

/// The number that `s` reads as: an optional `+`, then at least one ASCII
/// digit and nothing else, with a value that fits 32 bits. Leading zeros are
/// allowed. Anything else is not a number.
pub open spec fn decimal_u32(s: Seq<char>) -> Option<u32> {
    let digits = unsigned_part(s);
    if digits.len() > 0 && all_digits(digits) && decimal_value(digits) <= u32::MAX {
        Some(decimal_value(digits) as u32)
    } else {
        None
    }
}

/// The shortest run of digits that denotes `n`: no sign, no leading zero
/// except for zero itself.
pub open spec fn decimal_digits(n: nat) -> Seq<char>
    decreases n,
{
    if n < 10 {
        seq![digit_char(n)]
    } else {
        decimal_digits(n / 10).push(digit_char(n % 10))
    }
}

/// A prefix of a run of digits never denotes more than the whole run.
pub proof fn lemma_decimal_value_prefix(s: Seq<char>, k: int)
    requires
        0 <= k <= s.len(),
    ensures
        decimal_value(s.take(k)) <= decimal_value(s),
    decreases s.len(),
{
    if k == s.len() {
        assert(s.take(k) =~= s);
    } else {
        assert(s.drop_last().take(k) =~= s.take(k));
        lemma_decimal_value_prefix(s.drop_last(), k);
    }
}

/// What `decimal_digits` writes is made of digits only, is never empty, and
/// denotes the number it was written for.
pub proof fn lemma_decimal_digits(n: nat)
    ensures
        decimal_digits(n).len() > 0,
        all_digits(decimal_digits(n)),
        decimal_value(decimal_digits(n)) == n,
    decreases n,
{
    if n < 10 {
        assert(decimal_value(decimal_digits(n).drop_last()) == 0);
    } else {
        lemma_decimal_digits(n / 10);
        assert(decimal_digits(n).drop_last() =~= decimal_digits(n / 10));
    }
}

/// Writing a number and reading it back gives the number.
pub proof fn lemma_read_back(n: u32)
    ensures
        decimal_u32(decimal_digits(n as nat)) == Some(n),
{
    lemma_decimal_digits(n as nat);
}

/// Reads one ASCII digit.
pub fn read_digit(c: char) -> (r: Option<u32>)
    ensures
        r is Some <==> is_digit(c),
        r matches Some(d) ==> d == digit_value(c) && d < 10,
{
    if '0' <= c && c <= '9' {
        Some(c as u32 - 48)
    } else {
        None
    }
}

/// Reads `s` as an unsigned 32-bit number in base 10.
pub fn parse_u32(s: &str) -> (r: Option<u32>)
    ensures
        r == decimal_u32(s@),
{
    let mut acc: u32 = 0;
    let mut at_start = true;
    let mut plus = false;
    let mut any = false;
    for c in it: s.chars()
        invariant
            it.seq() == s@,
            at_start == (it.index() == 0),
            it.index() >= 1 ==> plus == (s@[0] == '+'),
            it.index() == 0 ==> !plus && !any,
            any == (it.index() > (if plus { 1int } else { 0int })),
            all_digits(s@.subrange(if plus { 1int } else { 0int }, it.index() as int)),
            acc == decimal_value(s@.subrange(if plus { 1int } else { 0int }, it.index() as int)),
    {
        let ghost k = it.index() as int;
        let ghost start = if plus { 1int } else { 0int };
        if at_start && c == '+' {
            plus = true;
        } else {
            let ghost seen = s@.subrange(start, k);
            let ghost next = s@.subrange(start, k + 1);
            let ghost rest = unsigned_part(s@);
            assert(next.drop_last() =~= seen);
            assert(rest.take(k + 1 - start) =~= next);
            match read_digit(c) {
                None => {
                    assert(!is_digit(rest[k - start]));
                    return None;
                },
                Some(d) => {
                    let wide: u64 = acc as u64 * 10 + d as u64;
                    if wide > u32::MAX as u64 {
                        proof {
                            lemma_decimal_value_prefix(rest, k + 1 - start);
                        }
                        return None;
                    }
                    acc = wide as u32;
                    any = true;
                },
            }
        }
        at_start = false;
    }
    let ghost start = if plus { 1int } else { 0int };
    assert(unsigned_part(s@) =~= s@.subrange(start, s@.len() as int));
    if any {
        Some(acc)
    } else {
        None
    }
}

/// Appends the base-10 digits of `n` to `out`.
pub fn push_decimal(out: &mut String, n: u32)
    ensures
        final(out)@ == old(out)@ + decimal_digits(n as nat),
    decreases n,
{
    if n >= 10 {
        push_decimal(out, n / 10);
    }
    let d: u8 = (n % 10) as u8;
    out.push((d + 48) as char);
}

/// Writes `n` in base 10.
pub fn format_u32(n: u32) -> (s: String)
    ensures
        s@ == decimal_digits(n as nat),
{
    let mut s = String::new();
    push_decimal(&mut s, n);
    s
}

} // verus!
