//! Text operations the rules need: trimming, lower-casing, substring search,
//! comparison and concatenation, each stated over the characters of the text.

use vstd::prelude::*;

verus! {

/// Whether a character carries the Unicode `White_Space` property, as
/// `char::is_whitespace` answers it.
pub uninterp spec fn char_is_whitespace(c: char) -> bool;

/// The lower-case form of a text, as `str::to_lowercase` computes it
/// (Unicode `Lowercase` mapping, with its context-dependent final sigma).
pub uninterp spec fn str_to_lowercase(s: Seq<char>) -> Seq<char>;

/// Calls `char::is_whitespace`.
/// Trusted: the answer is `char_is_whitespace(c)`, a function of `c` alone;
/// for an ASCII character it is true exactly for tab, line feed, vertical tab,
/// form feed, carriage return and space (U+0009 to U+000D and U+0020, the
/// ASCII members of `White_Space`). Nothing is stated of other characters.
#[verifier::external_body]
fn is_whitespace(c: char) -> (r: bool)
    ensures
        r == char_is_whitespace(c),
        (c as u32) < 128 ==> (r <==> (9 <= (c as u32) && (c as u32) <= 13 || (c as u32) == 32)),
{
    c.is_whitespace()
}

/// Whether a character is whitespace: for ASCII, U+0009 to U+000D and space;
/// otherwise as `char::is_whitespace` answers.
pub open spec fn whitespace(c: char) -> bool {
    if (c as u32) < 128 {
        9 <= (c as u32) && (c as u32) <= 13 || (c as u32) == 32
    } else {
        char_is_whitespace(c)
    }
}

/// Whether every character of a text is ASCII.
pub open spec fn is_ascii_text(s: Seq<char>) -> bool {
    forall|i: int| 0 <= i < s.len() ==> (#[trigger] s[i] as u32) < 128
}

/// An ASCII upper-case letter turned into its lower-case letter; every
/// other character unchanged.
pub open spec fn ascii_lower(c: char) -> char {
    if 65 <= (c as u32) && (c as u32) <= 90 {
        ((c as u32) + 32) as char
    } else {
        c
    }
}

/// Calls `str::to_lowercase`.
/// Trusted: the result's characters are `str_to_lowercase` of the argument's,
/// a function of the argument alone; on an all-ASCII text that is the text
/// with `A`-`Z` turned into `a`-`z` letter by letter and every other character
/// kept (the Unicode lower-case mapping of the ASCII range, as in the
/// documentation's `"HELLO"` example). Nothing is stated of other texts.
#[verifier::external_body]
fn lowercase_of(s: &str) -> (r: String)
    ensures
        r@ == str_to_lowercase(s@),
        is_ascii_text(s@) ==> r@ == s@.map_values(|c: char| ascii_lower(c)),
{
    s.to_lowercase()
}

/// The lower-case form of a text: letter by letter for an ASCII text,
/// otherwise as `str::to_lowercase` computes it.
pub open spec fn lowercased(s: Seq<char>) -> Seq<char> {
    if is_ascii_text(s) {
        s.map_values(|c: char| ascii_lower(c))
    } else {
        str_to_lowercase(s)
    }
}

/// The text without its leading whitespace.
pub open spec fn trim_start(s: Seq<char>) -> Seq<char>
    decreases s.len(),
{
    if s.len() > 0 && whitespace(s[0]) {
        trim_start(s.drop_first())
    } else {
        s
    }
}

/// The text without its trailing whitespace.
pub open spec fn trim_end(s: Seq<char>) -> Seq<char>
    decreases s.len(),
{
    if s.len() > 0 && whitespace(s.last()) {
        trim_end(s.drop_last())
    } else {
        s
    }
}

/// The text without leading and trailing whitespace.
pub open spec fn trimmed(s: Seq<char>) -> Seq<char> {
    trim_end(trim_start(s))
}

/// The form in which the rules compare a name: trimmed, then lower-cased.
pub open spec fn normalized(s: Seq<char>) -> Seq<char> {
    lowercased(trimmed(s))
}

/// Whether `p` occurs in `s` as a contiguous run of characters.
pub open spec fn contains_text(s: Seq<char>, p: Seq<char>) -> bool {
    exists|i: int| 0 <= i && i + p.len() <= s.len() && #[trigger] s.subrange(i, i + p.len()) == p
}

/// The characters of a text, one by one.
pub fn chars_of(s: &str) -> (v: Vec<char>)
    ensures
        v@ == s@,
{
    let mut v: Vec<char> = Vec::new();
    for c in it: s.chars()
        invariant
            it.seq() == s@,
            v@ == s@.take(it.index()),
    {
        v.push(c);
    }
    assert(s@.take(s@.len() as int) =~= s@);
    v
}

/// The texts of `items` joined, with `sep` between each two neighbours.
pub open spec fn joined(items: Seq<Seq<char>>, sep: Seq<char>) -> Seq<char>
    decreases items.len(),
{
    if items.len() == 0 {
        Seq::empty()
    } else if items.len() == 1 {
        items[0]
    } else {
        joined(items.drop_last(), sep) + sep + items.last()
    }
}

/// The views of a sequence of strings.
pub open spec fn views_of(items: Seq<String>) -> Seq<Seq<char>> {
    items.map_values(|x: String| x@)
}

/// `s` without leading and trailing whitespace (what `str::trim` returns).
pub fn trim_text(s: &str) -> (r: &str)
    ensures
        r@ == trimmed(s@),
{
    let v = chars_of(s);
    let n = v.len();
    let mut i: usize = 0;
    assert(s@.subrange(0, n as int) =~= s@);
    while i < n && is_whitespace(v[i])
        invariant
            i <= n,
            n == v@.len(),
            v@ == s@,
            trim_start(s@) == trim_start(s@.subrange(i as int, n as int)),
        decreases n - i,
    {
        assert(s@.subrange(i as int, n as int).drop_first() =~= s@.subrange(i + 1, n as int));
        i += 1;
    }
    assert(trim_start(s@) == s@.subrange(i as int, n as int));
    let mut j: usize = n;
    while j > i && is_whitespace(v[j - 1])
        invariant
            i <= j <= n,
            n == v@.len(),
            v@ == s@,
            trim_start(s@) == s@.subrange(i as int, n as int),
            trimmed(s@) == trim_end(s@.subrange(i as int, j as int)),
        decreases j,
    {
        assert(s@.subrange(i as int, j as int).drop_last() =~= s@.subrange(i as int, j - 1));
        j -= 1;
    }
    assert(trimmed(s@) == s@.subrange(i as int, j as int));
    s.substring_char(i, j)
}

/// The lower-case form of `s` (what `str::to_lowercase` returns).
pub fn lowercase_text(s: &str) -> (r: String)
    ensures
        r@ == lowercased(s@),
{
    lowercase_of(s)
}

/// `s` trimmed and then lower-cased: the form in which the rules compare names.
pub fn normalize(s: &str) -> (r: String)
    ensures
        r@ == normalized(s@),
{
    lowercase_of(trim_text(s))
}

/// Whether `p` occurs in `s` (what `str::contains` answers for a text pattern).
pub fn text_contains(s: &str, p: &str) -> (r: bool)
    ensures
        r == contains_text(s@, p@),
{
    let sv = chars_of(s);
    let pv = chars_of(p);
    let n = sv.len();
    let m = pv.len();
    if m > n {
        assert(!contains_text(s@, p@));
        return false;
    }
    let mut i: usize = 0;
    while i <= n - m
        invariant
            m <= n,
            n == sv@.len(),
            m == pv@.len(),
            sv@ == s@,
            pv@ == p@,
            i <= n - m + 1,
            forall|k: int| 0 <= k < i ==> #[trigger] s@.subrange(k, k + m) != p@,
        decreases n - m + 1 - i,
    {
        let mut j: usize = 0;
        while j < m && sv[i + j] == pv[j]
            invariant
                j <= m,
                i + m <= n,
                n == sv@.len(),
                m == pv@.len(),
                forall|t: int| 0 <= t < j ==> sv@[i + t] == pv@[t],
            decreases m - j,
        {
            j += 1;
        }
        if j == m {
            assert(s@.subrange(i as int, i + m) =~= p@);
            return true;
        }
        assert(s@.subrange(i as int, i + m)[j as int] != p@[j as int]);
        i += 1;
    }
    assert forall|k: int| 0 <= k && k + p@.len() <= s@.len() implies #[trigger] s@.subrange(
        k,
        k + p@.len(),
    ) != p@ by {
        assert(k < i);
    }
    false
}

/// Whether `s` and `lit` hold the same characters.
pub fn text_equals(s: &str, lit: &str) -> (r: bool)
    ensures
        r == (s@ == lit@),
{
    let a = String::from_str(s);
    let b = String::from_str(lit);
    a == b
}

/// A new string holding the characters of `s`.
pub fn to_owned_text(s: &str) -> (r: String)
    ensures
        r@ == s@,
{
    String::from_str(s)
}

/// `first` followed by `second`, as one new string.
pub fn concat_text(first: &str, second: &str) -> (r: String)
    ensures
        r@ == first@ + second@,
{
    let mut r = String::from_str(first);
    r.append(second);
    r
}

/// `prefix`, then `middle`, then `suffix`, as one new string.
pub fn surround(prefix: &str, middle: &str, suffix: &str) -> (r: String)
    ensures
        r@ == prefix@ + middle@ + suffix@,
{
    let mut r = String::from_str(prefix);
    r.append(middle);
    r.append(suffix);
    r
}

/// The strings of `items` joined, with `sep` between each two neighbours
/// (what `join` on a slice of strings returns).
pub fn join_texts(items: &Vec<String>, sep: &str) -> (r: String)
    ensures
        r@ == joined(views_of(items@), sep@),
{
    let mut r = String::new();
    let ghost all = views_of(items@);
    let n = items.len();
    let mut i: usize = 0;
    while i < n
        invariant
            n == items@.len(),
            i <= n,
            all == views_of(items@),
            r@ == joined(all.take(i as int), sep@),
        decreases n - i,
    {
        assert(all.take(i + 1).drop_last() =~= all.take(i as int));
        if i != 0 {
            r.append(sep);
        }
        r.append(items[i].as_str());
        i += 1;
    }
    assert(all.take(n as int) =~= all);
    r
}

} // verus!
