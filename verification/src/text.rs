//! Character-level text work: counting separators, comparing texts the way Rust's
//! `str` ordering does, writing numbers in decimal and dropping quote marks.

use vstd::prelude::*;

verus! {

/// The number of `:` characters in a text.
pub open spec fn colon_count(s: Seq<char>) -> nat
    decreases s.len(),
{
    if s.len() == 0 {
        0
    } else {
        colon_count(s.drop_last()) + if s.last() == ':' {
            1nat
        } else {
            0nat
        }
    }
}

/// Rust's ordering of `str`: lexicographic by characters (UTF-8 keeps the order of
/// code points), a proper prefix coming first.
pub open spec fn text_less(a: Seq<char>, b: Seq<char>) -> bool
    decreases a.len(),
{
    if b.len() == 0 {
        false
    } else if a.len() == 0 {
        true
    } else if a[0] != b[0] {
        a[0] < b[0]
    } else {
        text_less(a.drop_first(), b.drop_first())
    }
}

/// The character of a decimal digit.
pub open spec fn digit_char(d: int) -> char {
    (48 + d) as char
}

/// A natural number written in decimal, without leading zeros.
pub open spec fn decimal(n: nat) -> Seq<char>
    decreases n,
{
    if n < 10 {
        seq![digit_char(n as int)]
    } else {
        decimal(n / 10) + seq![digit_char((n % 10) as int)]
    }
}

/// A text with every `"` left out.
pub open spec fn unquoted(s: Seq<char>) -> Seq<char> {
    s.filter(|c: char| c != '"')
}

/// Counting the colons of two texts one after the other adds their counts.
pub proof fn lemma_colon_count_concat(a: Seq<char>, b: Seq<char>)
    ensures
        colon_count(a + b) == colon_count(a) + colon_count(b),
    decreases b.len(),
{
    if b.len() == 0 {
        assert(a + b =~= a);
    } else {
        lemma_colon_count_concat(a, b.drop_last());
        assert((a + b).drop_last() =~= a + b.drop_last());
    }
}

/// The text order is transitive.
pub proof fn lemma_text_less_transitive(a: Seq<char>, b: Seq<char>, c: Seq<char>)
    requires
        text_less(a, b),
        text_less(b, c),
    ensures
        text_less(a, c),
    decreases a.len(),
{
    if a.len() > 0 && b.len() > 0 && c.len() > 0 && a[0] == b[0] && b[0] == c[0] {
        lemma_text_less_transitive(a.drop_first(), b.drop_first(), c.drop_first());
    }
}

/// No text comes before itself.
pub proof fn lemma_text_less_irreflexive(a: Seq<char>)
    ensures
        !text_less(a, a),
    decreases a.len(),
{
    if a.len() > 0 {
        lemma_text_less_irreflexive(a.drop_first());
    }
}

/// Of two different texts, exactly one comes before the other.
pub proof fn lemma_text_less_total(a: Seq<char>, b: Seq<char>)
    ensures
        a != b ==> text_less(a, b) || text_less(b, a),
        !(text_less(a, b) && text_less(b, a)),
    decreases a.len(),
{
    if a.len() > 0 && b.len() > 0 {
        lemma_text_less_total(a.drop_first(), b.drop_first());
        if a[0] == b[0] && a.drop_first() == b.drop_first() {
            assert(a =~= seq![a[0]] + a.drop_first());
            assert(b =~= seq![b[0]] + b.drop_first());
        }
    } else if a.len() == 0 && b.len() == 0 {
        assert(a =~= b);
    }
}

/// Two texts that agree up to a point and then differ are ordered by the first
/// characters in which they differ, by code point.
pub proof fn lemma_text_less_first_difference(
    p: Seq<char>,
    x: char,
    y: char,
    s: Seq<char>,
    t: Seq<char>,
)
    requires
        x != y,
    ensures
        text_less(p + seq![x] + s, p + seq![y] + t) == (x < y),
    decreases p.len(),
{
    let a = p + seq![x] + s;
    let b = p + seq![y] + t;
    if p.len() == 0 {
        assert(a[0] == x);
        assert(b[0] == y);
    } else {
        lemma_text_less_first_difference(p.drop_first(), x, y, s, t);
        assert(a.drop_first() =~= p.drop_first() + seq![x] + s);
        assert(b.drop_first() =~= p.drop_first() + seq![y] + t);
        assert(a[0] == b[0]);
    }
}

/// A text comes before every longer text that starts with it, and after none.
pub proof fn lemma_text_less_prefix(p: Seq<char>, rest: Seq<char>)
    requires
        rest.len() > 0,
    ensures
        text_less(p, p + rest),
        !text_less(p + rest, p),
    decreases p.len(),
{
    let b = p + rest;
    if p.len() > 0 {
        lemma_text_less_prefix(p.drop_first(), rest);
        assert(b.drop_first() =~= p.drop_first() + rest);
        assert(b[0] == p[0]);
    }
}

/// Counts the `:` characters of a text.
pub fn count_colons(text: &str) -> (n: usize)
    ensures
        n == colon_count(text@),
{
    let len: usize = text.unicode_len();
    let mut n: usize = 0;
    let mut i: usize = 0;
    while i < len
        invariant
            len == text@.len(),
            i <= len,
            n == colon_count(text@.take(i as int)),
            n <= i,
        decreases len - i,
    {
        let c = text.get_char(i);
        assert(text@.take(i + 1).drop_last() =~= text@.take(i as int));
        if c == ':' {
            n = n + 1;
        }
        i = i + 1;
    }
    assert(text@.take(len as int) =~= text@);
    n
}

/// Whether `a` comes before `b` in Rust's order of texts.
pub fn is_text_less(a: &str, b: &str) -> (r: bool)
    ensures
        r == text_less(a@, b@),
{
    let a_len: usize = a.unicode_len();
    let b_len: usize = b.unicode_len();
    let mut i: usize = 0;
    assert(a@.skip(0) =~= a@);
    assert(b@.skip(0) =~= b@);
    while i < a_len && i < b_len
        invariant
            a_len == a@.len(),
            b_len == b@.len(),
            i <= a_len,
            i <= b_len,
            text_less(a@, b@) == text_less(a@.skip(i as int), b@.skip(i as int)),
        decreases a_len - i,
    {
        let ca = a.get_char(i);
        let cb = b.get_char(i);
        if ca != cb {
            return ca < cb;
        }
        assert(a@.skip(i as int).drop_first() =~= a@.skip(i + 1));
        assert(b@.skip(i as int).drop_first() =~= b@.skip(i + 1));
        i = i + 1;
    }
    i < b_len
}

/// std's `FromIterator<char>` for `String`. Claimed: the text holds the characters in order.
#[verifier::external_body]
pub(crate) fn string_from_chars(chars: &Vec<char>) -> (r: String)
    ensures
        r@ == chars@,
{
    chars.iter().collect()
}

/// Writes a number in decimal, as `to_string` does.
pub fn decimal_text(n: u64) -> (r: String)
    ensures
        r@ == decimal(n as nat),
{
    let mut digits: Vec<char> = Vec::new();
    let mut rest: u64 = n;
    assert(decimal(n as nat) =~= decimal(rest as nat) + digits@);
    while rest >= 10
        invariant
            decimal(n as nat) == decimal(rest as nat) + digits@,
        decreases rest,
    {
        let c = (48u8 + (rest % 10) as u8) as char;
        digits.insert(0, c);
        assert(decimal(rest as nat) == decimal((rest / 10) as nat) + seq![c]);
        assert(decimal(n as nat) =~= decimal((rest / 10) as nat) + digits@);
        rest = rest / 10;
    }
    let c = (48u8 + rest as u8) as char;
    digits.insert(0, c);
    assert(decimal(n as nat) =~= digits@);
    string_from_chars(&digits)
}

/// Leaves every `"` out of a text.
pub fn without_quotes(text: &str) -> (r: String)
    ensures
        r@ == unquoted(text@),
{
    let len: usize = text.unicode_len();
    let mut kept: Vec<char> = Vec::new();
    let mut i: usize = 0;
    while i < len
        invariant
            len == text@.len(),
            i <= len,
            kept@ == unquoted(text@.take(i as int)),
        decreases len - i,
    {
        let c = text.get_char(i);
        assert(text@.take(i + 1).drop_last() =~= text@.take(i as int));
        assert(text@.take(i + 1).last() == c);
        reveal_with_fuel(Seq::filter, 1);
        if c != '"' {
            kept.push(c);
        }
        i = i + 1;
    }
    assert(text@.take(len as int) =~= text@);
    string_from_chars(&kept)
}

} // verus!
