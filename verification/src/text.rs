//! Text building blocks: decimal rendering of integers and the
//! human-readable duration format used in notifications and logs.

use vstd::prelude::*;

verus! {

/// The decimal digit character for `d` (`0 <= d < 10`).
pub open spec fn digit_char(d: int) -> char {
    if d == 0 {
        '0'
    } else if d == 1 {
        '1'
    } else if d == 2 {
        '2'
    } else if d == 3 {
        '3'
    } else if d == 4 {
        '4'
    } else if d == 5 {
        '5'
    } else if d == 6 {
        '6'
    } else if d == 7 {
        '7'
    } else if d == 8 {
        '8'
    } else {
        '9'
    }
}

/// The decimal digits of a natural number, most significant first, without
/// leading zeros (zero itself is `"0"`).
pub open spec fn nat_text(n: nat) -> Seq<char>
    decreases n,
{
    if n < 10 {
        seq![digit_char(n as int)]
    } else {
        nat_text(n / 10).push(digit_char((n % 10) as int))
    }
}

/// The decimal text of an integer, with a leading `-` for negative values:
/// what Rust's `{}` formatting prints for an integer.
pub open spec fn int_text(i: int) -> Seq<char> {
    if i < 0 {
        seq!['-'] + nat_text((-i) as nat)
    } else {
        nat_text(i as nat)
    }
}

/// Appends one character to a string.
#[verifier::external_body]
pub(crate) fn push_char(s: &mut String, c: char)
    ensures
        final(s)@ == old(s)@.push(c),
{
    s.push(c);
}

fn digit_of(d: u64) -> (c: char)
    requires
        d < 10,
    ensures
        c == digit_char(d as int),
{
    match d {
        0 => '0',
        1 => '1',
        2 => '2',
        3 => '3',
        4 => '4',
        5 => '5',
        6 => '6',
        7 => '7',
        8 => '8',
        _ => '9',
    }
}

/// Appends the decimal digits of `n` to `s`.
pub fn push_nat_text(s: &mut String, n: u64)
    ensures
        final(s)@ == old(s)@ + nat_text(n as nat),
    decreases n,
{
    if n >= 10 {
        push_nat_text(s, n / 10);
    }
    push_char(s, digit_of(n % 10));
    proof {
        if n < 10 {
            assert(old(s)@ + nat_text(n as nat) =~= old(s)@.push(digit_char(n as int)));
        } else {
            assert(old(s)@ + nat_text(n as nat) =~= (old(s)@ + nat_text((n / 10) as nat)).push(
                digit_char((n % 10) as int),
            ));
        }
    }
}

/// Appends the decimal text of `i` (with a `-` sign when negative) to `s`.
pub fn push_int_text(s: &mut String, i: i64)
    ensures
        final(s)@ == old(s)@ + int_text(i as int),
{
    if i < 0 {
        push_char(s, '-');
        let magnitude: u64 = (-(i as i128)) as u64;
        push_nat_text(s, magnitude);
        assert(old(s)@ + int_text(i as int) =~= old(s)@.push('-') + nat_text(magnitude as nat));
    } else {
        push_nat_text(s, i as u64);
    }
}

/// The decimal text of an integer as a new string.
pub fn int_to_string(i: i64) -> (s: String)
    ensures
        s@ == int_text(i as int),
{
    let mut s = String::new();
    push_int_text(&mut s, i);
    assert(s@ =~= int_text(i as int));
    s
}

/// The duration text that `format_duration` produces for `secs`:
/// below a minute "N sec", below an hour "M min" or "M min S sec",
/// otherwise "H hr" or "H hr M min" (left-over seconds are dropped).
pub open spec fn duration_text(secs: int) -> Seq<char> {
    if secs < 60 {
        int_text(secs) + " sec"@
    } else if secs < 3600 {
        if secs % 60 > 0 {
            int_text(secs / 60) + " min "@ + int_text(secs % 60) + " sec"@
        } else {
            int_text(secs / 60) + " min"@
        }
    } else {
        if (secs % 3600) / 60 > 0 {
            int_text(secs / 3600) + " hr "@ + int_text((secs % 3600) / 60) + " min"@
        } else {
            int_text(secs / 3600) + " hr"@
        }
    }
}

/// Format seconds into a human-readable duration string.
pub fn format_duration(secs: i64) -> (s: String)
    ensures
        s@ == duration_text(secs as int),
{
    let mut s = String::new();
    if secs < 60 {
        push_int_text(&mut s, secs);
        s.append(" sec");
    } else if secs < 3600 {
        let mins = secs / 60;
        let remaining_secs = secs % 60;
        push_int_text(&mut s, mins);
        if remaining_secs > 0 {
            s.append(" min ");
            push_int_text(&mut s, remaining_secs);
            s.append(" sec");
        } else {
            s.append(" min");
        }
    } else {
        let hrs = secs / 3600;
        let mins = (secs % 3600) / 60;
        push_int_text(&mut s, hrs);
        if mins > 0 {
            s.append(" hr ");
            push_int_text(&mut s, mins);
            s.append(" min");
        } else {
            s.append(" hr");
        }
    }
    assert(s@ =~= duration_text(secs as int));
    s
}

/// The characters of a string, in order.
pub fn chars_of(s: &str) -> (v: Vec<char>)
    ensures
        v@ == s@,
{
    let mut v: Vec<char> = Vec::new();
    for c in it: s.chars()
        invariant
            v@ == it.seq().take(it.index() as int),
            it.seq() == s@,
    {
        v.push(c);
    }
    v
}

} // verus!
