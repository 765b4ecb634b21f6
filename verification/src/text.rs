//! Building display text: decimal numbers and concatenation.
use vstd::prelude::*;
use vstd::string::StringExecFns;

verus! {

/// The character of a decimal digit.
pub open spec fn digit_char(d: nat) -> char {
    if d == 0 {
        '0'
    } else if d == 1 {
        '1'
    } else if d == 2 {
        '2'
    } else if d == 3 {
        '3'
    } else if d == 4 {
        '4'
    } else if d == 5 {
        '5'
    } else if d == 6 {
        '6'
    } else if d == 7 {
        '7'
    } else if d == 8 {
        '8'
    } else {
        '9'
    }
}

/// The decimal digits of a natural number, most significant first.
pub open spec fn decimal(n: nat) -> Seq<char>
    decreases n,
{
    if n < 10 {
        seq![digit_char(n)]
    } else {
        decimal(n / 10).push(digit_char(n % 10))
    }
}

/// An integer written in decimal, with a leading minus sign when negative.
pub open spec fn signed_decimal(v: int) -> Seq<char> {
    if v < 0 {
        seq!['-'] + decimal((-v) as nat)
    } else {
        decimal(v as nat)
    }
}

/// An integer written with an explicit sign (`+0`, `+7`, `-3`).
pub open spec fn plus_signed_decimal(v: int) -> Seq<char> {
    if v < 0 {
        seq!['-'] + decimal((-v) as nat)
    } else {
        seq!['+'] + decimal(v as nat)
    }
}

fn digit_str(d: u64) -> (r: &'static str)
    requires
        d < 10,
    ensures
        r@ == seq![digit_char(d as nat)],
{
    proof {
        reveal_strlit("0");
        reveal_strlit("1");
        reveal_strlit("2");
        reveal_strlit("3");
        reveal_strlit("4");
        reveal_strlit("5");
        reveal_strlit("6");
        reveal_strlit("7");
        reveal_strlit("8");
        reveal_strlit("9");
    }
    if d == 0 {
        "0"
    } else if d == 1 {
        "1"
    } else if d == 2 {
        "2"
    } else if d == 3 {
        "3"
    } else if d == 4 {
        "4"
    } else if d == 5 {
        "5"
    } else if d == 6 {
        "6"
    } else if d == 7 {
        "7"
    } else if d == 8 {
        "8"
    } else {
        "9"
    }
}

/// Appends the decimal digits of `n`.
pub fn push_decimal(s: &mut String, n: u64)
    ensures
        final(s)@ == old(s)@ + decimal(n as nat),
    decreases n,
{
    if n >= 10 {
        push_decimal(s, n / 10);
    }
    s.append(digit_str(n % 10));
    proof {
        if n >= 10 {
            assert(old(s)@ + decimal((n / 10) as nat) + seq![digit_char((n % 10) as nat)] == old(s)@ + decimal(n as nat));
        } else {
            assert(decimal(n as nat) == seq![digit_char(n as nat)]);
        }
    }
}

/// Appends a signed integer in decimal.
pub fn push_signed(s: &mut String, v: i64)
    ensures
        final(s)@ == old(s)@ + signed_decimal(v as int),
{
    proof {
        reveal_strlit("-");
    }
    if v < 0 {
        s.append("-");
        let m: u64 = if v == i64::MIN { 9223372036854775808u64 } else { (-v) as u64 };
        push_decimal(s, m);
        assert(old(s)@ + seq!['-'] + decimal(m as nat) == old(s)@ + signed_decimal(v as int));
    } else {
        push_decimal(s, v as u64);
    }
}

/// Appends an integer with an explicit sign.
pub fn push_plus_signed(s: &mut String, v: i64)
    ensures
        final(s)@ == old(s)@ + plus_signed_decimal(v as int),
{
    proof {
        reveal_strlit("-");
        reveal_strlit("+");
    }
    if v < 0 {
        s.append("-");
        let m: u64 = if v == i64::MIN { 9223372036854775808u64 } else { (-v) as u64 };
        push_decimal(s, m);
        assert(old(s)@ + seq!['-'] + decimal(m as nat) == old(s)@ + plus_signed_decimal(v as int));
    } else {
        s.append("+");
        push_decimal(s, v as u64);
        assert(old(s)@ + seq!['+'] + decimal(v as nat) == old(s)@ + plus_signed_decimal(v as int));
    }
}

/// A new string holding a copy of `t`.
pub fn text(t: &str) -> (r: String)
    ensures
        r@ == t@,
{
    String::from_str(t)
}

/// `t` cut to at most `max_chars` characters: longer text keeps its first
/// `max_chars - 3` characters (none when `max_chars < 3`) followed by "...".
pub open spec fn truncated(t: Seq<char>, max_chars: nat) -> Seq<char> {
    if t.len() <= max_chars {
        t
    } else {
        let keep: int = if max_chars >= 3 { max_chars - 3 } else { 0 };
        t.subrange(0, keep) + "..."@
    }
}

/// Shortens text to at most `max_chars` characters, marking the cut with "...".
pub fn truncate_text(t: &str, max_chars: usize) -> (r: String)
    ensures
        r@ == truncated(t@, max_chars as nat),
{
    if t.unicode_len() <= max_chars {
        return String::from_str(t);
    }
    let keep: usize = if max_chars >= 3 { max_chars - 3 } else { 0 };
    let mut r = String::from_str(t.substring_char(0, keep));
    r.append("...");
    r
}

/// Names joined with ", ".
pub open spec fn joined(names: Seq<Seq<char>>) -> Seq<char>
    decreases names.len(),
{
    if names.len() == 0 {
        Seq::empty()
    } else if names.len() == 1 {
        names[0]
    } else {
        joined(names.drop_last()) + ", "@ + names.last()
    }
}

/// Joins names with ", ".
pub fn join_names(names: &Vec<String>) -> (r: String)
    ensures
        r@ == joined(names@.map_values(|n: String| n@)),
{
    let ghost ns = names@.map_values(|n: String| n@);
    let mut r = String::new();
    let mut i: usize = 0;
    while i < names.len()
        invariant
            ns == names@.map_values(|n: String| n@),
            i <= names@.len(),
            r@ == joined(ns.take(i as int)),
        decreases names@.len() - i,
    {
        assert(ns.take(i + 1).drop_last() == ns.take(i as int));
        if i > 0 {
            r.append(", ");
        }
        r.append(names[i].as_str());
        proof {
            if i == 0 {
                assert(ns.take(1)[0] == ns[0]);
            }
        }
        i = i + 1;
    }
    assert(ns.take(names@.len() as int) == ns);
    r
}

/// Whitespace as Unicode's White_Space property lists it.
pub open spec fn is_white(c: char) -> bool {
    ||| ('\u{9}' <= c && c <= '\u{d}')
    ||| c == ' '
    ||| c == '\u{85}'
    ||| c == '\u{a0}'
    ||| c == '\u{1680}'
    ||| ('\u{2000}' <= c && c <= '\u{200a}')
    ||| c == '\u{2028}'
    ||| c == '\u{2029}'
    ||| c == '\u{202f}'
    ||| c == '\u{205f}'
    ||| c == '\u{3000}'
}

fn white(c: char) -> (r: bool)
    ensures
        r == is_white(c),
{
    ('\u{9}' <= c && c <= '\u{d}') || c == ' ' || c == '\u{85}' || c == '\u{a0}' || c == '\u{1680}'
        || ('\u{2000}' <= c && c <= '\u{200a}') || c == '\u{2028}' || c == '\u{2029}' || c == '\u{202f}'
        || c == '\u{205f}' || c == '\u{3000}'
}

/// ASCII letters in lower case; other characters unchanged.
pub open spec fn ascii_lower(c: char) -> char {
    if 'A' <= c && c <= 'Z' { (((c as u8) + 32) as u8) as char } else { c }
}

/// Index of the first non-whitespace character at or after `from`.
pub open spec fn skip_white(t: Seq<char>, from: int) -> int
    decreases t.len() - from,
{
    if from < t.len() && is_white(t[from]) { skip_white(t, from + 1) } else { from }
}

/// Index just past the last non-whitespace character before `to`.
pub open spec fn back_white(t: Seq<char>, lo: int, to: int) -> int
    decreases to - lo,
{
    if to > lo && is_white(t[to - 1]) { back_white(t, lo, to - 1) } else { to }
}

/// Text without leading and trailing whitespace.
pub open spec fn trimmed(t: Seq<char>) -> Seq<char> {
    let lo = skip_white(t, 0);
    t.subrange(lo, back_white(t, lo, t.len() as int))
}

/// Trimmed, ASCII-lowercased text, with spaces and hyphens (when
/// `join_words`) turned into underscores.
pub open spec fn normalized(t: Seq<char>, join_words: bool) -> Seq<char> {
    trimmed(t).map_values(|c: char| {
        let l = ascii_lower(c);
        if join_words && (l == ' ' || l == '-') { '_' } else { l }
    })
}

/// The characters of `t`, trimmed and lowercased, with spaces and hyphens
/// as underscores when `join_words`.
pub fn normalize(t: &str, join_words: bool) -> (r: Vec<char>)
    ensures
        r@ == normalized(t@, join_words),
{
    let n = t.unicode_len();
    let mut lo: usize = 0;
    while lo < n && white(t.get_char(lo))
        invariant
            n == t@.len(),
            lo <= n,
            skip_white(t@, 0) == skip_white(t@, lo as int),
        decreases n - lo,
    {
        lo = lo + 1;
    }
    let mut hi: usize = n;
    while hi > lo && white(t.get_char(hi - 1))
        invariant
            n == t@.len(),
            lo <= hi <= n,
            back_white(t@, lo as int, n as int) == back_white(t@, lo as int, hi as int),
        decreases hi - lo,
    {
        hi = hi - 1;
    }
    let ghost tr = t@.subrange(lo as int, hi as int);
    assert(tr == trimmed(t@));
    let mut r: Vec<char> = Vec::new();
    let mut i: usize = lo;
    while i < hi
        invariant
            n == t@.len(),
            lo <= i <= hi <= n,
            tr == t@.subrange(lo as int, hi as int),
            r@ == tr.take(i - lo).map_values(|c: char| {
                let l = ascii_lower(c);
                if join_words && (l == ' ' || l == '-') { '_' } else { l }
            }),
        decreases hi - i,
    {
        let c = t.get_char(i);
        let l: char = if 'A' <= c && c <= 'Z' { ((c as u8) + 32) as char } else { c };
        let m: char = if join_words && (l == ' ' || l == '-') { '_' } else { l };
        r.push(m);
        assert(tr.take(i + 1 - lo) == tr.take(i - lo).push(c));
        i = i + 1;
    }
    assert(tr.take(hi - lo) == tr);
    r
}

/// Whether the characters equal the text.
pub fn chars_equal(cs: &Vec<char>, t: &str) -> (r: bool)
    ensures
        r == (cs@ == t@),
{
    let n = t.unicode_len();
    if cs.len() != n {
        return false;
    }
    let mut i: usize = 0;
    while i < n
        invariant
            n == t@.len(),
            cs@.len() == n,
            i <= n,
            forall|k: int| 0 <= k < i ==> cs@[k] == t@[k],
        decreases n - i,
    {
        if cs[i] != t.get_char(i) {
            return false;
        }
        i = i + 1;
    }
    assert(cs@ == t@);
    true
}

} // verus!
