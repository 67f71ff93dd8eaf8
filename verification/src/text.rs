//! Character-level helpers on which the protocol rules are built: searching,
//! prefixes, whitespace trimming, splitting, and decimal numbers.

use vstd::prelude::*;

verus! {

/// The views of a list of string pairs.
pub open spec fn pair_views(v: Seq<(String, String)>) -> Seq<(Seq<char>, Seq<char>)> {
    v.map_values(|p: (String, String)| (p.0@, p.1@))
}

/// Appends the pair `(name, value)`.
pub(crate) fn push_pair(v: &mut Vec<(String, String)>, name: &str, value: &str)
    ensures
        pair_views(final(v)@) == pair_views(old(v)@).push((name@, value@)),
{
    v.push((String::from_str(name), String::from_str(value)));
    assert(pair_views(v@) =~= pair_views(old(v)@).push((name@, value@)));
}

/// The characters of a string slice, one per element.
pub fn chars_of(s: &str) -> (v: Vec<char>)
    ensures
        v@ == s@,
{
    let mut v: Vec<char> = Vec::new();
    for c in it: s.chars()
        invariant
            v@ == it.seq().take(it.index() as int),
            it.seq() == s@,
    {
        v.push(c);
    }
    v
}

/// The characters of each string of a sequence.
pub open spec fn texts(v: Seq<String>) -> Seq<Seq<char>> {
    v.map_values(|s: String| s@)
}

// ---------------------------------------------------------------------------
// Equality, prefixes and substrings
// ---------------------------------------------------------------------------

/// Whether `a` and `b` hold the same characters.
pub fn text_eq(a: &str, b: &str) -> (r: bool)
    ensures
        r == (a@ == b@),
{
    let va = chars_of(a);
    let vb = chars_of(b);
    if va.len() != vb.len() {
        return false;
    }
    let mut i: usize = 0;
    while i < va.len()
        invariant
            va@ == a@,
            vb@ == b@,
            va.len() == vb.len(),
            i <= va.len(),
            forall|j: int| 0 <= j < i ==> va@[j] == vb@[j],
        decreases va.len() - i,
    {
        if va[i] != vb[i] {
            return false;
        }
        i += 1;
    }
    assert(a@ =~= b@);
    true
}

/// `needle` occurs in `haystack` starting at index `i`.
pub open spec fn occurs_at(haystack: Seq<char>, needle: Seq<char>, i: int) -> bool {
    &&& 0 <= i
    &&& i + needle.len() <= haystack.len()
    &&& haystack.subrange(i, i + needle.len()) == needle
}

/// `needle` occurs somewhere in `haystack`.
pub open spec fn has_substring(haystack: Seq<char>, needle: Seq<char>) -> bool {
    exists|i: int| occurs_at(haystack, needle, i)
}

/// `prefix` is an initial segment of `s`.
pub open spec fn has_prefix(s: Seq<char>, prefix: Seq<char>) -> bool {
    prefix.len() <= s.len() && s.take(prefix.len() as int) == prefix
}

fn matches_at(h: &Vec<char>, n: &Vec<char>, i: usize) -> (r: bool)
    requires
        i + n@.len() <= h@.len(),
    ensures
        r == (h@.subrange(i as int, i + n@.len()) == n@),
{
    let hl = h.len();
    let mut j: usize = 0;
    while j < n.len()
        invariant
            hl == h@.len(),
            i + n@.len() <= h@.len(),
            j <= n@.len(),
            forall|k: int| 0 <= k < j ==> h@[i + k] == n@[k],
        decreases n.len() - j,
    {
        if h[i + j] != n[j] {
            assert(h@.subrange(i as int, i + n@.len())[j as int] != n@[j as int]);
            return false;
        }
        j += 1;
    }
    assert(h@.subrange(i as int, i + n@.len()) =~= n@);
    true
}

/// Whether `needle` occurs in `haystack`.
pub fn contains_text(haystack: &str, needle: &str) -> (r: bool)
    ensures
        r == has_substring(haystack@, needle@),
{
    let h = chars_of(haystack);
    let n = chars_of(needle);
    if n.len() > h.len() {
        assert forall|i: int| !occurs_at(haystack@, needle@, i) by {}
        return false;
    }
    if n.len() == 0 {
        assert(haystack@.subrange(0, 0) =~= needle@);
        assert(occurs_at(haystack@, needle@, 0));
        return true;
    }
    let last = h.len() - n.len();
    let mut i: usize = 0;
    while i <= last
        invariant
            h@ == haystack@,
            n@ == needle@,
            n@.len() >= 1,
            h@.len() <= usize::MAX,
            last == h@.len() - n@.len(),
            i <= last + 1,
            forall|k: int| 0 <= k < i ==> !occurs_at(haystack@, needle@, k),
        decreases last + 1 - i,
    {
        if matches_at(&h, &n, i) {
            assert(occurs_at(haystack@, needle@, i as int));
            return true;
        }
        i += 1;
    }
    assert forall|k: int| !occurs_at(haystack@, needle@, k) by {
        if 0 <= k && k < i {
        }
    }
    false
}

/// Whether `s` begins with `prefix`.
pub fn starts_with_text(s: &str, prefix: &str) -> (r: bool)
    ensures
        r == has_prefix(s@, prefix@),
{
    let h = chars_of(s);
    let p = chars_of(prefix);
    if p.len() > h.len() {
        return false;
    }
    let r = matches_at(&h, &p, 0);
    assert(h@.subrange(0, p@.len() as int) =~= h@.take(p@.len() as int));
    r
}

/// The rest of `s` after `prefix`, when `s` begins with it.
pub fn strip_prefix_text<'a>(s: &'a str, prefix: &str) -> (r: Option<&'a str>)
    ensures
        r is Some == has_prefix(s@, prefix@),
        r matches Some(rest) ==> rest@ == s@.skip(prefix@.len() as int),
{
    if starts_with_text(s, prefix) {
        let n = s.unicode_len();
        let p = prefix.unicode_len();
        let rest = s.substring_char(p, n);
        assert(rest@ =~= s@.skip(prefix@.len() as int));
        Some(rest)
    } else {
        None
    }
}

// ---------------------------------------------------------------------------
// Whitespace and trimming
// ---------------------------------------------------------------------------

/// The characters with the Unicode `White_Space` property.
pub open spec fn is_white_space(c: char) -> bool {
    ||| ('\u{9}' <= c && c <= '\u{d}')
    ||| c == ' '
    ||| c == '\u{85}'
    ||| c == '\u{a0}'
    ||| c == '\u{1680}'
    ||| ('\u{2000}' <= c && c <= '\u{200a}')
    ||| c == '\u{2028}'
    ||| c == '\u{2029}'
    ||| c == '\u{202f}'
    ||| c == '\u{205f}'
    ||| c == '\u{3000}'
}

fn white_space(c: char) -> (r: bool)
    ensures
        r == is_white_space(c),
{
    ('\u{9}' <= c && c <= '\u{d}') || c == ' ' || c == '\u{85}' || c == '\u{a0}' || c == '\u{1680}'
        || ('\u{2000}' <= c && c <= '\u{200a}') || c == '\u{2028}' || c == '\u{2029}' || c
        == '\u{202f}' || c == '\u{205f}' || c == '\u{3000}'
}

/// The number of white-space characters that begin `s`.
pub open spec fn leading_white_space(s: Seq<char>) -> nat
    decreases s.len(),
{
    if s.len() > 0 && is_white_space(s[0]) {
        1 + leading_white_space(s.drop_first())
    } else {
        0
    }
}

/// The number of white-space characters that end `s`.
pub open spec fn trailing_white_space(s: Seq<char>) -> nat
    decreases s.len(),
{
    if s.len() > 0 && is_white_space(s.last()) {
        1 + trailing_white_space(s.drop_last())
    } else {
        0
    }
}

/// `s` without its leading and trailing white space.
pub open spec fn trimmed(s: Seq<char>) -> Seq<char> {
    let t = s.skip(leading_white_space(s) as int);
    t.take(t.len() - trailing_white_space(t))
}

proof fn lemma_leading_white_space(s: Seq<char>, i: int)
    requires
        0 <= i <= s.len(),
        forall|k: int| 0 <= k < i ==> is_white_space(#[trigger] s[k]),
        i == s.len() || !is_white_space(s[i]),
    ensures
        leading_white_space(s) == i,
    decreases i,
{
    if i > 0 {
        let t = s.drop_first();
        assert forall|k: int| 0 <= k < i - 1 implies is_white_space(#[trigger] t[k]) by {
            assert(t[k] == s[k + 1]);
        }
        lemma_leading_white_space(t, i - 1);
    }
}

proof fn lemma_trailing_white_space(s: Seq<char>, i: int)
    requires
        0 <= i <= s.len(),
        forall|k: int| i <= k < s.len() ==> is_white_space(#[trigger] s[k]),
        i == 0 || !is_white_space(s[i - 1]),
    ensures
        trailing_white_space(s) == s.len() - i,
    decreases s.len() - i,
{
    if i < s.len() {
        let t = s.drop_last();
        assert forall|k: int| i <= k < t.len() implies is_white_space(#[trigger] t[k]) by {
            assert(t[k] == s[k]);
        }
        lemma_trailing_white_space(t, i);
    }
}

/// `s` without leading and trailing white space, as `str::trim` gives it.
pub fn trim_text<'a>(s: &'a str) -> (r: &'a str)
    ensures
        r@ == trimmed(s@),
{
    let v = chars_of(s);
    let n = v.len();
    let mut a: usize = 0;
    while a < n && white_space(v[a])
        invariant
            v@ == s@,
            n == v@.len(),
            a <= n,
            forall|k: int| 0 <= k < a ==> is_white_space(#[trigger] v@[k]),
        decreases n - a,
    {
        a += 1;
    }
    proof {
        lemma_leading_white_space(s@, a as int);
    }
    let mut b: usize = n;
    while b > a && white_space(v[b - 1])
        invariant
            v@ == s@,
            n == v@.len(),
            a <= b <= n,
            forall|k: int| b <= k < n ==> is_white_space(#[trigger] v@[k]),
        decreases b - a,
    {
        b -= 1;
    }
    proof {
        let t = s@.skip(a as int);
        assert forall|k: int| b - a <= k < t.len() implies is_white_space(#[trigger] t[k]) by {
            assert(t[k] == s@[k + a]);
        }
        if b > a {
            assert(t[b - a - 1] == s@[b - 1]);
        }
        lemma_trailing_white_space(t, b - a);
        assert(t.take(b - a) =~= s@.subrange(a as int, b as int));
    }
    s.substring_char(a, b)
}

// ---------------------------------------------------------------------------
// Splitting
// ---------------------------------------------------------------------------

/// The pieces of `s` between occurrences of `sep`, as `str::split` yields
/// them: one more piece than there are separators, empty ones included.
pub open spec fn split_on(s: Seq<char>, sep: char) -> Seq<Seq<char>>
    decreases s.len(),
{
    if s.len() == 0 {
        seq![Seq::<char>::empty()]
    } else {
        let prev = split_on(s.drop_last(), sep);
        if s.last() == sep {
            prev.push(Seq::<char>::empty())
        } else {
            prev.update(prev.len() - 1, prev.last().push(s.last()))
        }
    }
}

proof fn lemma_split_on_nonempty(s: Seq<char>, sep: char)
    ensures
        split_on(s, sep).len() >= 1,
    decreases s.len(),
{
    if s.len() > 0 {
        lemma_split_on_nonempty(s.drop_last(), sep);
    }
}

/// Splits `s` at every `sep`.
pub fn split_text<'a>(s: &'a str, sep: char) -> (parts: Vec<&'a str>)
    ensures
        parts@.map_values(|p: &str| p@) == split_on(s@, sep),
{
    let v = chars_of(s);
    let n = v.len();
    let mut parts: Vec<&'a str> = Vec::new();
    let mut start: usize = 0;
    let mut i: usize = 0;
    assert(s@.take(0) =~= Seq::<char>::empty());
    assert(parts@.map_values(|p: &str| p@).push(s@.subrange(0, 0)) =~= seq![Seq::<char>::empty()]);
    while i < n
        invariant
            v@ == s@,
            n == v@.len(),
            start <= i <= n,
            parts@.map_values(|p: &str| p@).push(s@.subrange(start as int, i as int))
                == split_on(s@.take(i as int), sep),
        decreases n - i,
    {
        let ghost prefix = s@.take(i as int);
        let ghost next = s@.take(i + 1);
        proof {
            assert(next.drop_last() =~= prefix);
            assert(next.last() == v@[i as int]);
            lemma_split_on_nonempty(prefix, sep);
        }
        let ghost old_view = parts@.map_values(|p: &str| p@);
        if v[i] == sep {
            let piece = s.substring_char(start, i);
            parts.push(piece);
            assert(parts@.map_values(|p: &str| p@) =~= old_view.push(piece@));
            assert(split_on(next, sep) == split_on(prefix, sep).push(Seq::<char>::empty()));
            assert(s@.subrange(i + 1, i + 1) =~= Seq::<char>::empty());
            assert(parts@.map_values(|p: &str| p@).push(s@.subrange(i + 1, i + 1))
                =~= split_on(next, sep));
            start = i + 1;
        } else {
            assert(s@.subrange(start as int, i + 1) =~= s@.subrange(start as int, i as int).push(
                v@[i as int],
            ));
            assert(parts@.map_values(|p: &str| p@).push(s@.subrange(start as int, i + 1))
                =~= split_on(next, sep));
        }
        i += 1;
    }
    let last = s.substring_char(start, n);
    parts.push(last);
    assert(s@.take(n as int) =~= s@);
    assert(parts@.map_values(|p: &str| p@) =~= split_on(s@, sep));
    parts
}

// ---------------------------------------------------------------------------
// Decimal numbers
// ---------------------------------------------------------------------------

/// The character of a decimal digit.
pub open spec fn digit_char(d: nat) -> char {
    if d == 0 {
        '0'
    } else if d == 1 {
        '1'
    } else if d == 2 {
        '2'
    } else if d == 3 {
        '3'
    } else if d == 4 {
        '4'
    } else if d == 5 {
        '5'
    } else if d == 6 {
        '6'
    } else if d == 7 {
        '7'
    } else if d == 8 {
        '8'
    } else {
        '9'
    }
}

/// The decimal notation of `n`, without sign or leading zeros.
pub open spec fn decimal(n: nat) -> Seq<char>
    decreases n,
{
    if n < 10 {
        seq![digit_char(n)]
    } else {
        decimal(n / 10) + seq![digit_char(n % 10)]
    }
}

fn digit_text(d: u32) -> (r: &'static str)
    requires
        d < 10,
    ensures
        r@ == seq![digit_char(d as nat)],
{
    proof {
        reveal_strlit("0");
        reveal_strlit("1");
        reveal_strlit("2");
        reveal_strlit("3");
        reveal_strlit("4");
        reveal_strlit("5");
        reveal_strlit("6");
        reveal_strlit("7");
        reveal_strlit("8");
        reveal_strlit("9");
    }
    match d {
        0 => "0",
        1 => "1",
        2 => "2",
        3 => "3",
        4 => "4",
        5 => "5",
        6 => "6",
        7 => "7",
        8 => "8",
        _ => "9",
    }
}

/// The decimal notation of `n`, as `u32`'s `Display` writes it.
pub fn decimal_text(n: u32) -> (r: String)
    ensures
        r@ == decimal(n as nat),
    decreases n,
{
    if n < 10 {
        String::from_str(digit_text(n))
    } else {
        let mut r = decimal_text(n / 10);
        r.append(digit_text(n % 10));
        r
    }
}

/// `c` is one of the ASCII digits `0` to `9`.
pub open spec fn is_digit(c: char) -> bool {
    '0' <= c && c <= '9'
}

/// The value of an ASCII digit.
pub open spec fn digit_value(c: char) -> nat {
    (c as int - '0' as int) as nat
}

/// The value of a string of decimal digits.
pub open spec fn digits_value(s: Seq<char>) -> nat
    decreases s.len(),
{
    if s.len() == 0 {
        0
    } else {
        digits_value(s.drop_last()) * 10 + digit_value(s.last())
    }
}

/// The digits that `str::parse::<u32>` reads: all of `s` but a leading `+`.
pub open spec fn unsigned_digits(s: Seq<char>) -> Seq<char> {
    if s.len() > 0 && s[0] == '+' {
        s.drop_first()
    } else {
        s
    }
}

/// What `str::parse::<u32>` gives: the value when `s` is an optional `+`
/// followed by at least one ASCII digit and nothing else, and the value fits
/// in a `u32`; nothing otherwise.
pub open spec fn parsed_u32(s: Seq<char>) -> Option<u32> {
    let d = unsigned_digits(s);
    if d.len() > 0 && (forall|i: int| 0 <= i < d.len() ==> is_digit(#[trigger] d[i]))
        && digits_value(d) <= u32::MAX {
        Some(digits_value(d) as u32)
    } else {
        None
    }
}

proof fn lemma_digits_value_grows(d: Seq<char>, i: int, j: int)
    requires
        0 <= i <= j <= d.len(),
    ensures
        digits_value(d.take(i)) <= digits_value(d.take(j)),
    decreases j - i,
{
    if i < j {
        lemma_digits_value_grows(d, i, j - 1);
        assert(d.take(j).drop_last() =~= d.take(j - 1));
    }
}

/// Reads a `u32` as `str::parse::<u32>` does.
pub fn parse_u32_text(s: &str) -> (r: Option<u32>)
    ensures
        r == parsed_u32(s@),
{
    let v = chars_of(s);
    let n = v.len();
    let start: usize = if n > 0 && v[0] == '+' {
        1
    } else {
        0
    };
    let ghost d = unsigned_digits(s@);
    assert(d =~= s@.skip(start as int));
    if start == n {
        assert(d.len() == 0);
        return None;
    }
    let mut i: usize = start;
    while i < n
        invariant
            v@ == s@,
            n == v@.len(),
            d == s@.skip(start as int),
            d == unsigned_digits(s@),
            start <= i <= n,
            forall|k: int| start <= k < i ==> is_digit(#[trigger] v@[k]),
        decreases n - i,
    {
        if !('0' <= v[i] && v[i] <= '9') {
            assert(!is_digit(d[i - start]));
            return None;
        }
        i += 1;
    }
    assert forall|k: int| 0 <= k < d.len() implies is_digit(#[trigger] d[k]) by {
        assert(d[k] == v@[k + start]);
    }
    let mut acc: u64 = 0;
    let mut j: usize = start;
    while j < n
        invariant
            v@ == s@,
            n == v@.len(),
            d == s@.skip(start as int),
            d == unsigned_digits(s@),
            start <= j <= n,
            forall|k: int| 0 <= k < d.len() ==> is_digit(#[trigger] d[k]),
            acc == digits_value(d.take(j - start)),
            acc <= u32::MAX,
        decreases n - j,
    {
        let ghost k = j - start;
        assert(d.take(k + 1).drop_last() =~= d.take(k));
        assert(d.take(k + 1).last() == v@[j as int]);
        assert(is_digit(d[k]));
        let dv = (v[j] as u32 - '0' as u32) as u64;
        let next = acc * 10 + dv;
        assert(next == digits_value(d.take(k + 1)));
        if next > 4294967295 {
            proof {
                lemma_digits_value_grows(d, k + 1, d.len() as int);
                assert(d.take(d.len() as int) =~= d);
            }
            return None;
        }
        acc = next;
        j += 1;
    }
    assert(d.take(n - start) =~= d);
    Some(acc as u32)
}

proof fn lemma_digit_char(d: nat)
    requires
        d < 10,
    ensures
        digit_value(digit_char(d)) == d,
        is_digit(digit_char(d)),
        digit_char(d) != '+',
{
    assert('0' as int == 48);
    assert('9' as int == 57);
}

proof fn lemma_decimal_digits(n: nat)
    ensures
        decimal(n).len() > 0,
        forall|i: int| 0 <= i < decimal(n).len() ==> is_digit(#[trigger] decimal(n)[i]),
        digits_value(decimal(n)) == n,
        decimal(n)[0] != '+',
    decreases n,
{
    lemma_digit_char(n % 10);
    if n < 10 {
        assert(decimal(n).drop_last() =~= Seq::<char>::empty());
        assert(n % 10 == n);
        assert(digits_value(decimal(n)) == digits_value(Seq::<char>::empty()) * 10 + digit_value(
            digit_char(n),
        ));
    } else {
        lemma_decimal_digits(n / 10);
        let d = decimal(n);
        assert(d.drop_last() =~= decimal(n / 10));
        assert(d.last() == digit_char(n % 10));
        assert forall|i: int| 0 <= i < d.len() implies is_digit(#[trigger] d[i]) by {
            if i < d.len() - 1 {
                assert(d[i] == decimal(n / 10)[i]);
            }
        }
        assert(d[0] == decimal(n / 10)[0]);
        assert(digits_value(d) == digits_value(decimal(n / 10)) * 10 + digit_value(
            digit_char(n % 10),
        ));
        assert((n / 10) * 10 + n % 10 == n);
    }
}

/// Reading back the decimal notation of a number gives the number:
/// `parse_u32_text` undoes `decimal_text`.
pub proof fn law_parse_undoes_decimal(n: u32)
    ensures
        parsed_u32(decimal(n as nat)) == Some(n),
{
    lemma_decimal_digits(n as nat);
}

/// The items of `s` in decimal, separated by `, `.
pub open spec fn decimal_list(s: Seq<u32>) -> Seq<char>
    decreases s.len(),
{
    if s.len() == 0 {
        Seq::empty()
    } else if s.len() == 1 {
        decimal(s[0] as nat)
    } else {
        decimal_list(s.drop_last()) + seq![',', ' '] + decimal(s.last() as nat)
    }
}

/// How `Debug` writes a list of `u32`: `[`, the items separated by `, `, `]`.
pub open spec fn debug_u32_list(s: Seq<u32>) -> Seq<char> {
    seq!['['] + decimal_list(s) + seq![']']
}

/// Writes `items` as `{:?}` writes a `Vec<u32>`.
pub fn debug_u32_list_text(items: &Vec<u32>) -> (r: String)
    ensures
        r@ == debug_u32_list(items@),
{
    proof {
        reveal_strlit("[");
        reveal_strlit("]");
        reveal_strlit(", ");
    }
    let mut r = String::from_str("[");
    let mut i: usize = 0;
    while i < items.len()
        invariant
            i <= items@.len(),
            r@ == seq!['['] + decimal_list(items@.take(i as int)),
        decreases items.len() - i,
    {
        let ghost before = items@.take(i as int);
        assert(items@.take(i + 1).drop_last() =~= before);
        proof {
            reveal_strlit(", ");
        }
        if i > 0 {
            r.append(", ");
        }
        let d = decimal_text(items[i]);
        r.append(d.as_str());
        proof {
            let t = items@.take(i + 1);
            assert(t.last() == items@[i as int]);
            if i == 0 {
                assert(t =~= seq![items@[0]]);
            } else {
                assert(decimal_list(t) == decimal_list(before) + seq![',', ' '] + decimal(
                    items@[i as int] as nat,
                ));
            }
            assert(r@ =~= seq!['['] + decimal_list(t));
        }
        i += 1;
    }
    r.append("]");
    assert(items@.take(items@.len() as int) =~= items@);
    r
}

/// A text holds whatever stands inside it: `needle` occurs in
/// `before + needle + after`.
pub proof fn law_substring_found(before: Seq<char>, needle: Seq<char>, after: Seq<char>)
    ensures
        has_substring(before + needle + after, needle),
{
    let h = before + needle + after;
    assert(h.subrange(before.len() as int, before.len() + needle.len() as int) =~= needle);
    assert(occurs_at(h, needle, before.len() as int));
}

} // verus!
