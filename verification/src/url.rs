//! URL text for the OAuth flow: the minimal percent-encoding of the
//! characters that matter in OAuth parameters, its decoding, query
//! parameter lookup, and the pieces of the browser sign-in around them.

use vstd::prelude::*;

use crate::text::{chars_of, nat_text, push_char, push_nat_text};

verus! {

/// The position of the first `c` in `s`, or `s.len()` when there is none.
pub open spec fn find_char(s: Seq<char>, c: char) -> int
    decreases s.len(),
{
    if s.len() == 0 {
        0
    } else if s[0] == c {
        0
    } else {
        1 + find_char(s.skip(1), c)
    }
}

/// The encoding of one character: `%`, space, `&`, `=`, `+`, `/` and `:`
/// become `%XX` with their hexadecimal code; every other character stays.
pub open spec fn encode_char(c: char) -> Seq<char> {
    if c == '%' {
        seq!['%', '2', '5']
    } else if c == ' ' {
        seq!['%', '2', '0']
    } else if c == '&' {
        seq!['%', '2', '6']
    } else if c == '=' {
        seq!['%', '3', 'D']
    } else if c == '+' {
        seq!['%', '2', 'B']
    } else if c == '/' {
        seq!['%', '2', 'F']
    } else if c == ':' {
        seq!['%', '3', 'A']
    } else {
        seq![c]
    }
}

/// The encoding of a text, character by character.
pub open spec fn url_encoded(s: Seq<char>) -> Seq<char>
    decreases s.len(),
{
    if s.len() == 0 {
        Seq::empty()
    } else {
        encode_char(s[0]) + url_encoded(s.skip(1))
    }
}

/// The value of a hexadecimal digit (`0-9`, `a-f`, `A-F`).
pub open spec fn hex_digit(c: char) -> Option<int> {
    if '0' <= c && c <= '9' {
        Some(c as int - '0' as int)
    } else if 'a' <= c && c <= 'f' {
        Some(c as int - 'a' as int + 10)
    } else if 'A' <= c && c <= 'F' {
        Some(c as int - 'A' as int + 10)
    } else {
        None
    }
}

/// What `u8::from_str_radix(h, 16)` gives for a text of at most two
/// characters: an optional `+` followed by one or more hexadecimal digits.
pub open spec fn hex_byte(h: Seq<char>) -> Option<u8> {
    if h.len() == 1 {
        match hex_digit(h[0]) {
            Some(d) => Some(d as u8),
            None => None,
        }
    } else if h.len() == 2 {
        if h[0] == '+' {
            match hex_digit(h[1]) {
                Some(d) => Some(d as u8),
                None => None,
            }
        } else {
            match (hex_digit(h[0]), hex_digit(h[1])) {
                (Some(a), Some(b)) => Some((16 * a + b) as u8),
                _ => None,
            }
        }
    } else {
        None
    }
}

/// The decoding of a text: `%` takes the next (up to) two characters and
/// stands for the byte they give in hexadecimal, read as a character
/// (nothing, when they do not give one); `+` stands for a space; every other
/// character stands for itself.
pub open spec fn url_decoded(s: Seq<char>) -> Seq<char>
    decreases s.len(),
{
    if s.len() == 0 {
        Seq::empty()
    } else if s[0] == '%' {
        let k: int = if s.len() < 3 {
            s.len() as int
        } else {
            3
        };
        match hex_byte(s.subrange(1, k)) {
            Some(b) => seq![b as char] + url_decoded(s.skip(k)),
            None => url_decoded(s.skip(k)),
        }
    } else if s[0] == '+' {
        seq![' '] + url_decoded(s.skip(1))
    } else {
        seq![s[0]] + url_decoded(s.skip(1))
    }
}

/// Minimal URL-encode (just the chars that matter for OAuth params).
pub fn urlencod(s: &str) -> (r: String)
    ensures
        r@ == url_encoded(s@),
{
    let cs = chars_of(s);
    let ghost all = cs@;
    let mut out = String::new();
    let n = cs.len();
    let mut i: usize = 0;
    assert(all.skip(0) =~= all);
    while i < n
        invariant
            n == all.len(),
            all == cs@,
            0 <= i <= n,
            out@ + url_encoded(all.skip(i as int)) == url_encoded(all),
        decreases n - i,
    {
        let c = cs[i];
        let ghost before = out@;
        assert(all.skip(i as int).skip(1) =~= all.skip(i + 1));
        assert(all.skip(i as int)[0] == c);
        if c == '%' {
            push_char(&mut out, '%');
            push_char(&mut out, '2');
            push_char(&mut out, '5');
        } else if c == ' ' {
            push_char(&mut out, '%');
            push_char(&mut out, '2');
            push_char(&mut out, '0');
        } else if c == '&' {
            push_char(&mut out, '%');
            push_char(&mut out, '2');
            push_char(&mut out, '6');
        } else if c == '=' {
            push_char(&mut out, '%');
            push_char(&mut out, '3');
            push_char(&mut out, 'D');
        } else if c == '+' {
            push_char(&mut out, '%');
            push_char(&mut out, '2');
            push_char(&mut out, 'B');
        } else if c == '/' {
            push_char(&mut out, '%');
            push_char(&mut out, '2');
            push_char(&mut out, 'F');
        } else if c == ':' {
            push_char(&mut out, '%');
            push_char(&mut out, '3');
            push_char(&mut out, 'A');
        } else {
            push_char(&mut out, c);
        }
        assert(out@ =~= before + encode_char(c));
        assert(before + url_encoded(all.skip(i as int)) =~= out@ + url_encoded(all.skip(i + 1)));
        i = i + 1;
    }
    assert(url_encoded(all.skip(n as int)) =~= Seq::<char>::empty());
    assert(out@ + Seq::<char>::empty() =~= out@);
    out
}

fn hex_digit_of(c: char) -> (d: Option<u8>)
    ensures
        match hex_digit(c) {
            Some(v) => d == Some(v as u8) && 0 <= v < 16,
            None => d is None,
        },
{
    if '0' <= c && c <= '9' {
        Some(((c as u32) - ('0' as u32)) as u8)
    } else if 'a' <= c && c <= 'f' {
        Some(((c as u32) - ('a' as u32) + 10) as u8)
    } else if 'A' <= c && c <= 'F' {
        Some(((c as u32) - ('A' as u32) + 10) as u8)
    } else {
        None
    }
}

/// `u8::from_str_radix` in base 16 on the characters `cs[lo..hi]`, at most
/// two of them.
fn hex_byte_of(cs: &Vec<char>, lo: usize, hi: usize) -> (b: Option<u8>)
    requires
        lo <= hi <= cs@.len(),
        hi - lo <= 2,
    ensures
        b == hex_byte(cs@.subrange(lo as int, hi as int)),
{
    let ghost h = cs@.subrange(lo as int, hi as int);
    if hi - lo == 1 {
        assert(h[0] == cs@[lo as int]);
        hex_digit_of(cs[lo])
    } else if hi - lo == 2 {
        assert(h[0] == cs@[lo as int]);
        assert(h[1] == cs@[lo + 1]);
        if cs[lo] == '+' {
            hex_digit_of(cs[lo + 1])
        } else {
            match (hex_digit_of(cs[lo]), hex_digit_of(cs[lo + 1])) {
                (Some(a), Some(b)) => Some(16 * a + b),
                _ => None,
            }
        }
    } else {
        None
    }
}

/// URL-decodes the characters `cs[lo..hi]`.
fn decode_range(cs: &Vec<char>, lo: usize, hi: usize) -> (r: String)
    requires
        lo <= hi <= cs@.len(),
    ensures
        r@ == url_decoded(cs@.subrange(lo as int, hi as int)),
{
    let ghost all = cs@;
    let mut out = String::new();
    let mut i: usize = lo;
    while i < hi
        invariant
            all == cs@,
            lo <= i <= hi <= all.len(),
            out@ + url_decoded(all.subrange(i as int, hi as int)) == url_decoded(
                all.subrange(lo as int, hi as int),
            ),
        decreases hi - i,
    {
        let ghost s = all.subrange(i as int, hi as int);
        let ghost before = out@;
        let c = cs[i];
        assert(s[0] == c);
        if c == '%' {
            let k: usize = if hi - i < 3 {
                hi - i
            } else {
                3
            };
            assert(s.subrange(1, k as int) =~= all.subrange(i + 1, (i + k) as int));
            assert(s.skip(k as int) =~= all.subrange((i + k) as int, hi as int));
            match hex_byte_of(cs, i + 1, i + k) {
                Some(b) => {
                    push_char(&mut out, b as char);
                    assert(out@ =~= before + seq![b as char]);
                },
                None => {},
            }
            assert(before + url_decoded(s) =~= out@ + url_decoded(
                all.subrange((i + k) as int, hi as int),
            ));
            i = i + k;
        } else {
            assert(s.skip(1) =~= all.subrange(i + 1, hi as int));
            if c == '+' {
                push_char(&mut out, ' ');
                assert(out@ =~= before + seq![' ']);
            } else {
                push_char(&mut out, c);
                assert(out@ =~= before + seq![c]);
            }
            assert(before + url_decoded(s) =~= out@ + url_decoded(all.subrange(i + 1, hi as int)));
            i = i + 1;
        }
    }
    assert(url_decoded(all.subrange(hi as int, hi as int)) =~= Seq::<char>::empty());
    assert(out@ + Seq::<char>::empty() =~= out@);
    out
}

/// Minimal URL-decode.
pub fn urldecd(s: &str) -> (r: String)
    ensures
        r@ == url_decoded(s@),
{
    let cs = chars_of(s);
    assert(cs@.subrange(0, cs@.len() as int) =~= cs@);
    decode_range(&cs, 0, cs.len())
}

/// The query of a URL path: the text after the first `?`, up to the next
/// `?` (none when the path has no `?`).
pub open spec fn query_of(path: Seq<char>) -> Option<Seq<char>> {
    let q = find_char(path, '?');
    if q == path.len() {
        None
    } else {
        let rest = path.skip(q + 1);
        Some(rest.take(find_char(rest, '?')))
    }
}

/// The value of `key` in a query of `&`-separated pairs: the first pair
/// whose name (the text before its first `=`, or the whole pair) is `key`
/// decides, giving its decoded value, or nothing when it has no `=`.
pub open spec fn lookup(q: Seq<char>, key: Seq<char>) -> Option<Seq<char>>
    decreases q.len(),
{
    let e = find_char(q, '&');
    let pair = q.take(e);
    let m = find_char(pair, '=');
    if pair.take(m) == key {
        if m < pair.len() {
            Some(url_decoded(pair.skip(m + 1)))
        } else {
            None
        }
    } else if e < q.len() {
        proof {
            lemma_find_char_bounds(q, '&');
        }
        lookup(q.skip(e + 1), key)
    } else {
        None
    }
}

/// The value of the query parameter `key` in a URL path.
pub open spec fn query_param(path: Seq<char>, key: Seq<char>) -> Option<Seq<char>> {
    match query_of(path) {
        Some(q) => lookup(q, key),
        None => None,
    }
}

/// The first `c` lies inside `s`, and nothing before it is a `c`.
pub proof fn lemma_find_char_bounds(s: Seq<char>, c: char)
    ensures
        0 <= find_char(s, c) <= s.len(),
        find_char(s, c) < s.len() ==> s[find_char(s, c)] == c,
        forall|j: int| 0 <= j < find_char(s, c) ==> s[j] != c,
    decreases s.len(),
{
    if s.len() > 0 && s[0] != c {
        lemma_find_char_bounds(s.skip(1), c);
        assert forall|j: int| 0 <= j < find_char(s, c) implies s[j] != c by {
            if j > 0 {
                assert(s[j] == s.skip(1)[j - 1]);
            }
        }
    }
}

/// The position of the first `c` in `cs[lo..hi]`, or `hi`.
pub(crate) fn find_in(cs: &Vec<char>, lo: usize, hi: usize, c: char) -> (r: usize)
    requires
        lo <= hi <= cs@.len(),
    ensures
        r == lo + find_char(cs@.subrange(lo as int, hi as int), c),
        lo <= r <= hi,
{
    let ghost all = cs@;
    let mut i: usize = lo;
    proof {
        lemma_find_char_bounds(all.subrange(lo as int, hi as int), c);
    }
    while i < hi
        invariant
            all == cs@,
            lo <= i <= hi <= all.len(),
            find_char(all.subrange(lo as int, hi as int), c) == (i - lo) + find_char(
                all.subrange(i as int, hi as int),
                c,
            ),
        decreases hi - i,
    {
        assert(all.subrange(i as int, hi as int)[0] == all[i as int]);
        if cs[i] == c {
            return i;
        }
        assert(all.subrange(i as int, hi as int).skip(1) =~= all.subrange(i + 1, hi as int));
        i = i + 1;
    }
    i
}

/// Whether `cs[lo..hi]` is exactly `key`.
pub(crate) fn range_equals(cs: &Vec<char>, lo: usize, hi: usize, key: &Vec<char>) -> (b: bool)
    requires
        lo <= hi <= cs@.len(),
    ensures
        b == (cs@.subrange(lo as int, hi as int) == key@),
{
    if hi - lo != key.len() {
        return false;
    }
    let mut i: usize = 0;
    while i < key.len()
        invariant
            lo <= hi <= cs@.len(),
            hi - lo == key@.len(),
            0 <= i <= key@.len(),
            forall|j: int| 0 <= j < i ==> cs@[lo + j] == key@[j],
        decreases key@.len() - i,
    {
        if cs[lo + i] != key[i] {
            assert(cs@.subrange(lo as int, hi as int)[i as int] != key@[i as int]);
            return false;
        }
        i = i + 1;
    }
    assert(cs@.subrange(lo as int, hi as int) =~= key@);
    true
}

/// Extract a query parameter value from a URL path like
/// `/?code=abc&scope=xyz`.
pub fn extract_query_param(path: &str, key: &str) -> (r: Option<String>)
    ensures
        opt_text(r) == query_param(path@, key@),
{
    let cs = chars_of(path);
    let ks = chars_of(key);
    let ghost all = cs@;
    let n = cs.len();
    let q = find_in(&cs, 0, n, '?');
    assert(all.subrange(0, n as int) =~= all);
    if q == n {
        return None;
    }
    let q_end = find_in(&cs, q + 1, n, '?');
    assert(all.subrange(q + 1, n as int) =~= all.skip(q + 1));
    let ghost query = all.subrange(q + 1, q_end as int);
    assert(query =~= all.skip(q + 1).take(find_char(all.skip(q + 1), '?')));
    assert(query_param(all, key@) == lookup(query, key@));
    let mut lo: usize = q + 1;
    loop
        invariant
            all == cs@,
            all == path@,
            q + 1 <= lo <= q_end,
            q_end <= n == all.len(),
            ks@ == key@,
            query_param(all, key@) == lookup(query, key@),
            lookup(all.subrange(lo as int, q_end as int), key@) == lookup(query, key@),
        decreases q_end - lo,
    {
        let ghost rest = all.subrange(lo as int, q_end as int);
        let e = find_in(&cs, lo, q_end, '&');
        assert(rest.take(e - lo) =~= all.subrange(lo as int, e as int));
        let m = find_in(&cs, lo, e, '=');
        let ghost pair = all.subrange(lo as int, e as int);
        assert(pair.take(m - lo) =~= all.subrange(lo as int, m as int));
        if range_equals(&cs, lo, m, &ks) {
            if m < e {
                assert(pair.skip(m - lo + 1) =~= all.subrange(m + 1, e as int));
                assert(lookup(rest, key@) == Some(url_decoded(all.subrange(m + 1, e as int))));
                return Some(decode_range(&cs, m + 1, e));
            } else {
                return None;
            }
        }
        if e < q_end {
            assert(rest.skip(e - lo + 1) =~= all.subrange(e + 1, q_end as int));
            lo = e + 1;
        } else {
            return None;
        }
    }
}

/// An optional string by its characters.
pub open spec fn opt_text(o: Option<String>) -> Option<Seq<char>> {
    match o {
        Some(s) => Some(s@),
        None => None,
    }
}

/// Nothing in `s` is a `c`.
pub open spec fn lacks(s: Seq<char>, c: char) -> bool {
    forall|i: int| 0 <= i < s.len() ==> s[i] != c
}

proof fn lemma_find_char_concat(a: Seq<char>, b: Seq<char>, c: char)
    requires
        lacks(a, c),
    ensures
        find_char(a + b, c) == a.len() + find_char(b, c),
    decreases a.len(),
{
    if a.len() == 0 {
        assert(a + b =~= b);
    } else {
        assert((a + b)[0] == a[0]);
        assert((a + b).skip(1) =~= a.skip(1) + b);
        lemma_find_char_concat(a.skip(1), b, c);
    }
}

proof fn lemma_find_char_absent(s: Seq<char>, c: char)
    requires
        lacks(s, c),
    ensures
        find_char(s, c) == s.len(),
{
    lemma_find_char_concat(s, Seq::empty(), c);
    assert(s + Seq::<char>::empty() =~= s);
}

/// The encoding holds no `&` and no `=`, and no `?` unless the text had one.
proof fn lemma_encoded_separators(s: Seq<char>)
    ensures
        lacks(url_encoded(s), '&'),
        lacks(url_encoded(s), '='),
        lacks(s, '?') ==> lacks(url_encoded(s), '?'),
    decreases s.len(),
{
    if s.len() > 0 {
        lemma_encoded_separators(s.skip(1));
        let e = encode_char(s[0]);
        let r = url_encoded(s.skip(1));
        assert(url_encoded(s) == e + r);
        assert forall|i: int| 0 <= i < url_encoded(s).len() implies url_encoded(s)[i] != '&'
            && url_encoded(s)[i] != '=' && (lacks(s, '?') ==> url_encoded(s)[i] != '?') by {
            if i >= e.len() {
                assert(url_encoded(s)[i] == r[i - e.len()]);
                if lacks(s, '?') {
                    assert forall|j: int| 0 <= j < s.skip(1).len() implies s.skip(1)[j] != '?' by {
                        assert(s.skip(1)[j] == s[j + 1]);
                    }
                }
            } else {
                assert(url_encoded(s)[i] == e[i]);
            }
        }
    }
}

/// Decoding takes back what encoding did: `urldecd(urlencod(s)) == s` for
/// every text.
pub proof fn law_decode_inverts_encode(s: Seq<char>)
    ensures
        url_decoded(url_encoded(s)) == s,
    decreases s.len(),
{
    if s.len() == 0 {
        assert(url_encoded(s) =~= Seq::<char>::empty());
    } else {
        let c = s[0];
        let r = url_encoded(s.skip(1));
        law_decode_inverts_encode(s.skip(1));
        let t = encode_char(c) + r;
        assert(url_encoded(s) == t);
        if encode_char(c).len() == 1 {
            assert(t[0] == c);
            assert(t.skip(1) =~= r);
        } else {
            assert(t.subrange(1, 3) =~= encode_char(c).subrange(1, 3));
            assert(t.skip(3) =~= r);
            assert(t[0] == '%');
            assert(hex_byte(t.subrange(1, 3)) matches Some(b) && b as char == c);
        }
        assert(url_decoded(t) =~= seq![c] + s.skip(1));
        assert(seq![c] + s.skip(1) =~= s);
    }
}

/// A parameter written into a path with `urlencod` is read back by
/// `extract_query_param`: for a name without `=`, `&` or `?` and a value
/// without `?`, the value of `key` in `/?key=urlencod(value)` is `value`.
pub proof fn law_query_param_reads_encoded_value(key: Seq<char>, value: Seq<char>)
    requires
        lacks(key, '='),
        lacks(key, '&'),
        lacks(key, '?'),
        lacks(value, '?'),
    ensures
        query_param(seq!['/', '?'] + key + seq!['='] + url_encoded(value), key) == Some(value),
{
    let ev = url_encoded(value);
    lemma_encoded_separators(value);
    let rest = key + seq!['='] + ev;
    let path = seq!['/', '?'] + rest;
    assert(seq!['/', '?'] + key + seq!['='] + ev =~= path);
    assert(path[0] == '/');
    assert(path.skip(1)[0] == '?');
    assert(path.skip(1).len() > 0);
    assert(find_char(path.skip(1), '?') == 0);
    assert(find_char(path, '?') == 1);
    assert(path.skip(2) =~= rest);
    assert(lacks(seq!['='] + ev, '?'));
    assert(lacks(seq!['='] + ev, '&'));
    lemma_find_char_concat(key, seq!['='] + ev, '?');
    lemma_find_char_absent(seq!['='] + ev, '?');
    assert(key + (seq!['='] + ev) =~= rest);
    assert(find_char(rest, '?') == rest.len());
    assert(rest.take(rest.len() as int) =~= rest);
    assert(query_of(path) == Some(rest));
    lemma_find_char_concat(key, seq!['='] + ev, '&');
    lemma_find_char_absent(seq!['='] + ev, '&');
    assert(find_char(rest, '&') == rest.len());
    lemma_find_char_concat(key, seq!['='] + ev, '=');
    assert(find_char(seq!['='] + ev, '=') == 0);
    assert(find_char(rest, '=') == key.len());
    assert(rest.take(key.len() as int) =~= key);
    assert(rest.skip(key.len() as int + 1) =~= ev);
    law_decode_inverts_encode(value);
}

/// Whether `c` is white space (the Unicode `White_Space` property, as
/// `char::is_whitespace`).
pub open spec fn is_white(c: char) -> bool {
    ||| '\t' <= c && c <= '\r'
    ||| c == ' '
    ||| c == '\u{85}'
    ||| c == '\u{a0}'
    ||| c == '\u{1680}'
    ||| '\u{2000}' <= c && c <= '\u{200a}'
    ||| c == '\u{2028}'
    ||| c == '\u{2029}'
    ||| c == '\u{202f}'
    ||| c == '\u{205f}'
    ||| c == '\u{3000}'
}

/// The position of the first character of `s` whose whiteness is `white`,
/// or `s.len()`.
pub open spec fn find_white(s: Seq<char>, white: bool) -> int
    decreases s.len(),
{
    if s.len() == 0 {
        0
    } else if is_white(s[0]) == white {
        0
    } else {
        1 + find_white(s.skip(1), white)
    }
}

/// The first line of a text (`lines().next()`, or empty): up to the first
/// newline, without the carriage return before it.
pub open spec fn first_line(s: Seq<char>) -> Seq<char> {
    let e = find_char(s, '\n');
    if e < s.len() {
        let l = s.take(e);
        if l.len() > 0 && l.last() == '\r' {
            l.drop_last()
        } else {
            l
        }
    } else {
        s
    }
}

/// The second word of a text (`split_whitespace().nth(1)`): words are the
/// maximal runs of characters that are not white space.
pub open spec fn second_word(s: Seq<char>) -> Option<Seq<char>> {
    let r1 = s.skip(find_white(s, false));
    let r2 = r1.skip(find_white(r1, true));
    let r3 = r2.skip(find_white(r2, false));
    if r1.len() == 0 || r3.len() == 0 {
        None
    } else {
        Some(r3.take(find_white(r3, true)))
    }
}

/// The path of an HTTP request (`GET /?code=... HTTP/1.1`): the second word
/// of its first line, or empty.
pub open spec fn request_path(request: Seq<char>) -> Seq<char> {
    match second_word(first_line(request)) {
        Some(w) => w,
        None => Seq::empty(),
    }
}

pub proof fn lemma_find_white_bounds(s: Seq<char>, white: bool)
    ensures
        0 <= find_white(s, white) <= s.len(),
    decreases s.len(),
{
    if s.len() > 0 && is_white(s[0]) != white {
        lemma_find_white_bounds(s.skip(1), white);
    }
}

/// `char::is_whitespace`.
pub(crate) fn is_white_char(c: char) -> (b: bool)
    ensures
        b == is_white(c),
{
    ('\t' <= c && c <= '\r') || c == ' ' || c == '\u{85}' || c == '\u{a0}' || c == '\u{1680}' || (
    '\u{2000}' <= c && c <= '\u{200a}') || c == '\u{2028}' || c == '\u{2029}' || c == '\u{202f}'
        || c == '\u{205f}' || c == '\u{3000}'
}

/// The position of the first character of `cs[lo..hi]` whose whiteness is
/// `white`, or `hi`.
pub(crate) fn find_white_in(cs: &Vec<char>, lo: usize, hi: usize, white: bool) -> (r: usize)
    requires
        lo <= hi <= cs@.len(),
    ensures
        r == lo + find_white(cs@.subrange(lo as int, hi as int), white),
        lo <= r <= hi,
{
    let ghost all = cs@;
    let mut i: usize = lo;
    proof {
        lemma_find_white_bounds(all.subrange(lo as int, hi as int), white);
    }
    while i < hi
        invariant
            all == cs@,
            lo <= i <= hi <= all.len(),
            find_white(all.subrange(lo as int, hi as int), white) == (i - lo) + find_white(
                all.subrange(i as int, hi as int),
                white,
            ),
        decreases hi - i,
    {
        assert(all.subrange(i as int, hi as int)[0] == all[i as int]);
        if is_white_char(cs[i]) == white {
            return i;
        }
        assert(all.subrange(i as int, hi as int).skip(1) =~= all.subrange(i + 1, hi as int));
        i = i + 1;
    }
    i
}

/// The characters `cs[lo..hi]` as a string.
fn string_of_range(cs: &Vec<char>, lo: usize, hi: usize) -> (r: String)
    requires
        lo <= hi <= cs@.len(),
    ensures
        r@ == cs@.subrange(lo as int, hi as int),
{
    let mut out = String::new();
    let mut i: usize = lo;
    while i < hi
        invariant
            lo <= i <= hi <= cs@.len(),
            out@ == cs@.subrange(lo as int, i as int),
        decreases hi - i,
    {
        push_char(&mut out, cs[i]);
        assert(out@ =~= cs@.subrange(lo as int, i + 1));
        i = i + 1;
    }
    out
}

/// Where the first line of `cs` ends.
fn first_line_end(cs: &Vec<char>) -> (end: usize)
    ensures
        end <= cs@.len(),
        cs@.subrange(0, end as int) == first_line(cs@),
{
    let ghost all = cs@;
    let n = cs.len();
    let nl = find_in(cs, 0, n, '\n');
    assert(all.subrange(0, n as int) =~= all);
    let end: usize = if nl < n && nl > 0 && cs[nl - 1] == '\r' {
        nl - 1
    } else {
        nl
    };
    assert(all.subrange(0, end as int) =~= first_line(all));
    end
}

/// The second word of `cs[0..end]`, as a range.
fn second_word_range(cs: &Vec<char>, end: usize) -> (r: Option<(usize, usize)>)
    requires
        end <= cs@.len(),
    ensures
        match second_word(cs@.subrange(0, end as int)) {
            Some(w) => r matches Some((lo, hi)) && lo <= hi <= end && cs@.subrange(
                lo as int,
                hi as int,
            ) == w,
            None => r is None,
        },
{
    let ghost all = cs@;
    let ghost line = all.subrange(0, end as int);
    let a = find_white_in(cs, 0, end, false);
    assert(line.skip(a as int) =~= all.subrange(a as int, end as int));
    let b = find_white_in(cs, a, end, true);
    assert(all.subrange(a as int, end as int).skip(b - a) =~= all.subrange(b as int, end as int));
    let c = find_white_in(cs, b, end, false);
    assert(all.subrange(b as int, end as int).skip(c - b) =~= all.subrange(c as int, end as int));
    if a == end || c == end {
        return None;
    }
    let d = find_white_in(cs, c, end, true);
    assert(all.subrange(c as int, end as int).take(d - c) =~= all.subrange(c as int, d as int));
    Some((c, d))
}

/// The path of the HTTP request that the browser sends to the sign-in
/// callback: the second word of its first line, or empty.
pub fn callback_path(request: &str) -> (path: String)
    ensures
        path@ == request_path(request@),
{
    let cs = chars_of(request);
    let end = first_line_end(&cs);
    match second_word_range(&cs, end) {
        Some((lo, hi)) => string_of_range(&cs, lo, hi),
        None => String::new(),
    }
}

/// What the browser's sign-in callback brought.
#[derive(Debug, Clone, PartialEq, Eq)]
pub enum CallbackOutcome {
    /// The provider reported an error.
    Denied(String),
    /// The authorization code.
    Code(String),
    /// Neither an error nor a code.
    NoCode,
}

/// Reads the sign-in callback request: the error the provider reported,
/// else the authorization code.
pub fn callback_outcome(request: &str) -> (r: CallbackOutcome)
    ensures
        match query_param(request_path(request@), "error"@) {
            Some(e) => r matches CallbackOutcome::Denied(x) && x@ == e,
            None => match query_param(request_path(request@), "code"@) {
                Some(c) => r matches CallbackOutcome::Code(x) && x@ == c,
                None => r is NoCode,
            },
        },
{
    let path = callback_path(request);
    match extract_query_param(path.as_str(), "error") {
        Some(error) => CallbackOutcome::Denied(error),
        None => match extract_query_param(path.as_str(), "code") {
            Some(code) => CallbackOutcome::Code(code),
            None => CallbackOutcome::NoCode,
        },
    }
}

impl CallbackOutcome {
    /// The authorization code, or the error that ends the sign-in:
    /// "OAuth error: {error}" or "No authorization code in callback".
    pub fn into_result(self) -> (r: Result<String, String>)
        ensures
            match self {
                CallbackOutcome::Denied(e) => r matches Err(m) && m@ == "OAuth error: "@ + e@,
                CallbackOutcome::Code(c) => r == Ok::<String, String>(c),
                CallbackOutcome::NoCode => r matches Err(m) && m@
                    == "No authorization code in callback"@,
            },
    {
        match self {
            CallbackOutcome::Denied(e) => {
                let mut m = String::from_str("OAuth error: ");
                m.append(e.as_str());
                Err(m)
            },
            CallbackOutcome::Code(c) => Ok(c),
            CallbackOutcome::NoCode => Err(String::from_str("No authorization code in callback")),
        }
    }
}

/// The address of the local server that receives the sign-in callback.
pub fn loopback_redirect_uri(port: u16) -> (r: String)
    ensures
        r@ == "http://127.0.0.1:"@ + nat_text(port as nat),
{
    let mut r = String::from_str("http://127.0.0.1:");
    push_nat_text(&mut r, port as u64);
    r
}

/// The text of the Google consent-screen URL for `client_id` and
/// `redirect_uri`.
pub open spec fn google_auth_url_text(client_id: Seq<char>, redirect_uri: Seq<char>) -> Seq<char> {
    "https://accounts.google.com/o/oauth2/v2/auth?client_id="@ + url_encoded(client_id)
        + "&redirect_uri="@ + url_encoded(redirect_uri)
        + "&response_type=code&scope=email%20profile%20openid&access_type=offline"@
}

/// The Google consent-screen URL that the browser opens.
pub fn google_auth_url(client_id: &str, redirect_uri: &str) -> (r: String)
    ensures
        r@ == google_auth_url_text(client_id@, redirect_uri@),
{
    let mut r = String::from_str("https://accounts.google.com/o/oauth2/v2/auth?client_id=");
    r.append(urlencod(client_id).as_str());
    r.append("&redirect_uri=");
    r.append(urlencod(redirect_uri).as_str());
    r.append("&response_type=code&scope=email%20profile%20openid&access_type=offline");
    r
}

/// A text without its trailing white space.
pub open spec fn trim_end(s: Seq<char>) -> Seq<char>
    decreases s.len(),
{
    if s.len() > 0 && is_white(s.last()) {
        trim_end(s.drop_last())
    } else {
        s
    }
}

/// A text without its leading and trailing white space (`str::trim`).
pub open spec fn trimmed(s: Seq<char>) -> Seq<char> {
    trim_end(s.skip(find_white(s, false)))
}

/// The range of `cs[lo..hi]` without its leading and trailing white space.
pub(crate) fn trim_range(cs: &Vec<char>, lo: usize, hi: usize) -> (r: (usize, usize))
    requires
        lo <= hi <= cs@.len(),
    ensures
        lo <= r.0 <= r.1 <= hi,
        cs@.subrange(r.0 as int, r.1 as int) == trimmed(cs@.subrange(lo as int, hi as int)),
{
    let ghost all = cs@;
    let a = find_white_in(cs, lo, hi, false);
    assert(all.subrange(lo as int, hi as int).skip(a - lo) =~= all.subrange(a as int, hi as int));
    let mut b: usize = hi;
    while b > a && is_white_char(cs[b - 1])
        invariant
            all == cs@,
            lo <= a <= b <= hi <= all.len(),
            trim_end(all.subrange(a as int, hi as int)) == trim_end(all.subrange(a as int, b as int)),
        decreases b,
    {
        assert(all.subrange(a as int, b as int).drop_last() =~= all.subrange(a as int, b - 1));
        b = b - 1;
    }
    assert(trim_end(all.subrange(a as int, b as int)) == all.subrange(a as int, b as int));
    (a, b)
}

} // verus!
