use vstd::prelude::*;
use crate::game::GameState;

verus! {

/// The decimal digit character for `d`.
pub open spec fn digit_char(d: int) -> char {
    (d + 48) as char
}

/// Plain decimal digits of `m`, most significant first, no leading zeros.
pub open spec fn digits(m: nat) -> Seq<char>
    decreases m,
{
    if m < 10 {
        seq![digit_char(m as int)]
    } else {
        digits(m / 10).push(digit_char((m % 10) as int))
    }
}

/// The three digits of `r` (below 1000), zeros in front.
pub open spec fn three_digits(r: nat) -> Seq<char> {
    seq![digit_char((r / 100) as int), digit_char((r / 10 % 10) as int), digit_char((r % 10) as int)]
}

/// Decimal digits of `m` in groups of three, separated by commas.
pub open spec fn grouped(m: nat) -> Seq<char>
    decreases m,
{
    if m < 1000 {
        digits(m)
    } else {
        grouped(m / 1000) + seq![','] + three_digits(m % 1000)
    }
}

/// `n` written with thousands separators, and a minus sign in front when negative.
pub open spec fn formatted(n: int) -> Seq<char> {
    if n < 0 {
        seq!['-'] + grouped((-n) as nat)
    } else {
        grouped(n as nat)
    }
}

/// Relies on `String::push`: appends the one character at the end.
#[verifier::external_body]
fn push_char(s: &mut String, c: char)
    ensures
        final(s)@ == old(s)@.push(c),
{
    s.push(c)
}

fn push_digit(s: &mut String, d: u64)
    requires
        d < 10,
    ensures
        final(s)@ == old(s)@.push(digit_char(d as int)),
{
    let c = ((d as u8) + 48u8) as char;
    push_char(s, c);
}

fn push_digits(s: &mut String, m: u64)
    ensures
        final(s)@ == old(s)@ + digits(m as nat),
    decreases m,
{
    if m < 10 {
        push_digit(s, m);
        assert(old(s)@.push(digit_char(m as int)) =~= old(s)@ + digits(m as nat));
    } else {
        push_digits(s, m / 10);
        push_digit(s, m % 10);
        assert(final(s)@ =~= old(s)@ + digits(m as nat));
    }
}

fn push_grouped(s: &mut String, m: u64)
    ensures
        final(s)@ == old(s)@ + grouped(m as nat),
    decreases m,
{
    if m < 1000 {
        push_digits(s, m);
    } else {
        push_grouped(s, m / 1000);
        push_char(s, ',');
        let r = m % 1000;
        push_digit(s, r / 100);
        push_digit(s, r / 10 % 10);
        push_digit(s, r % 10);
        assert(final(s)@ =~= old(s)@ + grouped(m as nat));
    }
}

impl GameState {
    /// Decimal text of `n` with a comma between groups of three digits, and a
    /// minus sign in front when negative.
    pub fn format_number(n: i64) -> (r: String)
        ensures
            r@ == formatted(n as int),
    {
        let mut s = String::new();
        if n < 0 {
            push_char(&mut s, '-');
            let m: u64 = (0i128 - n as i128) as u64;
            push_grouped(&mut s, m);
        } else {
            push_grouped(&mut s, n as u64);
        }
        assert(s@ =~= formatted(n as int));
        s
    }
}

} // verus!
