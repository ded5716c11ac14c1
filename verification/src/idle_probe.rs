//! Reading the desktop's idle time from what the platform reports: the
//! `HIDIdleTime` line of `ioreg -c IOHIDSystem` (nanoseconds since the last
//! input), and the tick counts of the last input and of now.

use vstd::prelude::*;

use crate::text::chars_of;
use crate::url::{find_char, find_in, range_equals, trim_range, trimmed};

verus! {

/// The lines of a text (`str::lines`): split at each `\n`, a `\r` before
/// it dropped; a final line without `\n` is kept as it is, an empty text
/// has no lines.
pub open spec fn line_list(s: Seq<char>) -> Seq<Seq<char>>
    decreases s.len(),
{
    if s.len() == 0 {
        Seq::empty()
    } else {
        let e = find_char(s, '\n');
        if e < s.len() {
            let l = s.take(e);
            let line = if l.len() > 0 && l.last() == '\r' {
                l.drop_last()
            } else {
                l
            };
            proof {
                crate::url::lemma_find_char_bounds(s, '\n');
            }
            seq![line] + line_list(s.skip(e + 1))
        } else {
            seq![s]
        }
    }
}

/// Whether `pat` occurs in `s`.
pub open spec fn contains_text(s: Seq<char>, pat: Seq<char>) -> bool {
    exists|i: int| 0 <= i && i + pat.len() <= s.len() && #[trigger] s.subrange(i, i + pat.len()) == pat
}

/// The second `=`-separated field of a line (`split('=').nth(1)`).
pub open spec fn second_field(line: Seq<char>) -> Option<Seq<char>> {
    let a = find_char(line, '=');
    if a < line.len() {
        let rest = line.skip(a + 1);
        Some(rest.take(find_char(rest, '=')))
    } else {
        None
    }
}

/// Whether every character is a decimal digit.
pub open spec fn all_digits(s: Seq<char>) -> bool {
    forall|i: int| 0 <= i < s.len() ==> '0' <= #[trigger] s[i] && s[i] <= '9'
}

/// The number that decimal digits spell.
pub open spec fn digits_value(s: Seq<char>) -> int
    decreases s.len(),
{
    if s.len() == 0 {
        0
    } else {
        digits_value(s.drop_last()) * 10 + (s.last() as int - '0' as int)
    }
}

/// What `str::parse::<u64>` gives: an optional `+` (when more follows),
/// then one or more decimal digits, of a value that fits.
pub open spec fn parse_u64(s: Seq<char>) -> Option<u64> {
    let d = if s.len() > 1 && s[0] == '+' {
        s.skip(1)
    } else {
        s
    };
    if d.len() == 0 || !all_digits(d) || digits_value(d) > u64::MAX {
        None
    } else {
        Some(digits_value(d) as u64)
    }
}

/// The idle seconds that the first `HIDIdleTime` line with a readable
/// value gives (its nanoseconds, in whole seconds), or zero.
pub open spec fn idle_from_lines(ls: Seq<Seq<char>>) -> u64
    decreases ls.len(),
{
    if ls.len() == 0 {
        0
    } else {
        let l = ls[0];
        if contains_text(l, "HIDIdleTime"@) && second_field(l) is Some && parse_u64(
            trimmed(second_field(l)->Some_0),
        ) is Some {
            (parse_u64(trimmed(second_field(l)->Some_0))->Some_0 / 1_000_000_000) as u64
        } else {
            idle_from_lines(ls.skip(1))
        }
    }
}

proof fn lemma_digits_prefix(s: Seq<char>, k: int)
    requires
        0 <= k <= s.len(),
        all_digits(s),
    ensures
        digits_value(s) >= digits_value(s.take(k)),
        digits_value(s.take(k)) >= 0,
    decreases s.len(),
{
    if k < s.len() {
        lemma_digits_prefix(s.drop_last(), k);
        assert(s.drop_last().take(k) =~= s.take(k));
        assert(all_digits(s.drop_last()));
    } else {
        assert(s.take(k) =~= s);
    }
    if k > 0 {
        lemma_digits_nonneg(s.take(k));
    }
}

proof fn lemma_digits_nonneg(s: Seq<char>)
    requires
        all_digits(s),
    ensures
        digits_value(s) >= 0,
    decreases s.len(),
{
    if s.len() > 0 {
        assert(all_digits(s.drop_last()));
        lemma_digits_nonneg(s.drop_last());
    }
}

/// `str::parse::<u64>` on the characters `cs[lo..hi]`.
fn parse_u64_range(cs: &Vec<char>, lo: usize, hi: usize) -> (r: Option<u64>)
    requires
        lo <= hi <= cs@.len(),
    ensures
        r == parse_u64(cs@.subrange(lo as int, hi as int)),
{
    let ghost s = cs@.subrange(lo as int, hi as int);
    let start: usize = if hi - lo > 1 && cs[lo] == '+' {
        lo + 1
    } else {
        lo
    };
    let ghost d = cs@.subrange(start as int, hi as int);
    assert(start > lo ==> s.skip(1) =~= d);
    assert(start == lo ==> s =~= d);
    assert(s.len() > 1 && s[0] == '+' <==> start > lo);
    if start == hi {
        return None;
    }
    let mut acc: u64 = 0;
    let mut i: usize = start;
    while i < hi
        invariant
            lo <= start <= i <= hi <= cs@.len(),
            start < hi,
            s == cs@.subrange(lo as int, hi as int),
            d == cs@.subrange(start as int, hi as int),
            d == (if s.len() > 1 && s[0] == '+' {
                s.skip(1)
            } else {
                s
            }),
            all_digits(cs@.subrange(start as int, i as int)),
            acc == digits_value(cs@.subrange(start as int, i as int)),
        decreases hi - i,
    {
        let c = cs[i];
        let ghost p = cs@.subrange(start as int, i + 1);
        assert(p.drop_last() =~= cs@.subrange(start as int, i as int));
        assert(p.last() == c);
        if !('0' <= c && c <= '9') {
            assert(d[i - start] == c);
            assert(!all_digits(d));
            return None;
        }
        let digit: u64 = ((c as u32) - ('0' as u32)) as u64;
        if acc > (u64::MAX - digit) / 10 {
            proof {
                assert(all_digits(p));
                assert(digits_value(p) == acc * 10 + digit);
                assert(acc * 10 + digit > u64::MAX) by (nonlinear_arith)
                    requires
                        acc > (u64::MAX - digit) / 10,
                        digit <= 9,
                ;
                let rest = cs@.subrange(i + 1, hi as int);
                if all_digits(d) {
                    assert(d.take(i + 1 - start) =~= p);
                    lemma_digits_prefix(d, i + 1 - start);
                }
            }
            return None;
        }
        acc = acc * 10 + digit;
        i = i + 1;
    }
    assert(cs@.subrange(start as int, i as int) =~= d);
    Some(acc)
}

/// Whether `pat` occurs in `cs[lo..hi]`.
fn range_contains(cs: &Vec<char>, lo: usize, hi: usize, pat: &Vec<char>) -> (b: bool)
    requires
        lo <= hi <= cs@.len(),
    ensures
        b == contains_text(cs@.subrange(lo as int, hi as int), pat@),
{
    let ghost s = cs@.subrange(lo as int, hi as int);
    let k = pat.len();
    if k > hi - lo {
        return false;
    }
    if k == 0 {
        assert(s.subrange(0int, 0int + pat@.len()) =~= pat@);
        return true;
    }
    let mut i: usize = lo;
    while i <= hi - k
        invariant
            lo <= i,
            i <= hi - k + 1,
            1 <= k,
            hi <= cs@.len(),
            k == pat@.len(),
            k <= hi - lo,
            s == cs@.subrange(lo as int, hi as int),
            forall|j: int|
                0 <= j < i - lo && j + k <= s.len() ==> #[trigger] s.subrange(j, j + k) != pat@,
        decreases hi - k + 1 - i,
    {
        if range_equals(cs, i, i + k, pat) {
            assert(s.subrange(i - lo, i - lo + k) =~= cs@.subrange(i as int, (i + k) as int));
            return true;
        }
        assert(s.subrange(i - lo, i - lo + k) =~= cs@.subrange(i as int, (i + k) as int));
        i = i + 1;
    }
    false
}

/// The idle seconds in the output of `ioreg -c IOHIDSystem`: the first
/// line that mentions `HIDIdleTime` and has a readable value after its `=`
/// gives its nanoseconds in whole seconds; without one, zero.
pub fn ioreg_idle_secs(output: &str) -> (secs: u64)
    ensures
        secs == idle_from_lines(line_list(output@)),
{
    let cs = chars_of(output);
    let pat = chars_of("HIDIdleTime");
    let ghost all = cs@;
    let n = cs.len();
    let mut pos: usize = 0;
    assert(all.subrange(0, n as int) =~= all);
    while pos < n
        invariant
            all == cs@,
            all == output@,
            pat@ == "HIDIdleTime"@,
            pos <= n == all.len(),
            idle_from_lines(line_list(all)) == idle_from_lines(
                line_list(all.subrange(pos as int, n as int)),
            ),
        decreases n - pos,
    {
        let ghost rest = all.subrange(pos as int, n as int);
        let e = find_in(&cs, pos, n, '\n');
        let le: usize = if e < n && e > pos && cs[e - 1] == '\r' {
            e - 1
        } else {
            e
        };
        let ghost line = all.subrange(pos as int, le as int);
        proof {
            if e < n {
                assert(rest.take(e - pos) =~= all.subrange(pos as int, e as int));
                if e > pos {
                    assert(all.subrange(pos as int, e as int).last() == all[e - 1]);
                    assert(all.subrange(pos as int, e as int).drop_last() =~= all.subrange(
                        pos as int,
                        e - 1,
                    ));
                }
                assert(rest.skip(e - pos + 1) =~= all.subrange(e + 1, n as int));
                assert(line_list(rest) == seq![line] + line_list(all.subrange(e + 1, n as int)));
                assert((seq![line] + line_list(all.subrange(e + 1, n as int))).skip(1)
                    =~= line_list(all.subrange(e + 1, n as int)));
            } else {
                assert(line =~= rest);
                assert(line_list(rest) == seq![line]);
                assert(seq![line].skip(1) =~= Seq::<Seq<char>>::empty());
                assert(idle_from_lines(Seq::<Seq<char>>::empty()) == 0);
            }
        }
        if range_contains(&cs, pos, le, &pat) {
            let a = find_in(&cs, pos, le, '=');
            if a < le {
                let f_end = find_in(&cs, a + 1, le, '=');
                proof {
                    assert(line.skip(a - pos + 1) =~= all.subrange(a + 1, le as int));
                    assert(all.subrange(a + 1, le as int).take(f_end - (a + 1)) =~= all.subrange(
                        a + 1,
                        f_end as int,
                    ));
                }
                let (tl, th) = trim_range(&cs, a + 1, f_end);
                if let Some(nanos) = parse_u64_range(&cs, tl, th) {
                    return nanos / 1_000_000_000;
                }
            }
        }
        if e < n {
            pos = e + 1;
        } else {
            return 0;
        }
    }
    assert(all.subrange(n as int, n as int) =~= Seq::<char>::empty());
    0
}

/// The whole seconds since the last input from the tick counts (in
/// milliseconds, wrapping around) of the last input and of now.
pub fn tick_idle_secs(now_tick: u32, last_input_tick: u32) -> (secs: u64)
    ensures
        secs == (if now_tick >= last_input_tick {
            now_tick - last_input_tick
        } else {
            now_tick + 0x1_0000_0000 - last_input_tick
        }) / 1000,
{
    let ms: u64 = if now_tick >= last_input_tick {
        (now_tick - last_input_tick) as u64
    } else {
        (now_tick as u64) + 0x1_0000_0000u64 - (last_input_tick as u64)
    };
    ms / 1000
}

} // verus!
