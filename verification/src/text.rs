//! Character-level string operations with their specifications.

use vstd::prelude::*;

verus! {

/// `String::push` appends one character.
pub assume_specification[ String::push ](s: &mut String, ch: char)
    ensures
        final(s)@ == old(s)@.push(ch),
;

/// The characters of a string slice, in order.
pub fn chars_of(s: &str) -> (v: Vec<char>)
    ensures
        v@ == s@,
{
    let mut v: Vec<char> = Vec::new();
    for c in it: s.chars()
        invariant
            v@ == it.seq().take(it.index() as int),
    {
        v.push(c);
    }
    v
}

/// A string made of the given characters.
pub fn string_from_chars(cs: &[char]) -> (s: String)
    ensures
        s@ == cs@,
{
    let mut s = String::new();
    let mut i: usize = 0;
    while i < cs.len()
        invariant
            i <= cs.len(),
            s@ == cs@.take(i as int),
        decreases cs.len() - i,
    {
        s.push(cs[i]);
        assert(cs@.take(i + 1) == cs@.take(i as int).push(cs@[i as int]));
        i += 1;
    }
    assert(cs@.take(cs.len() as int) == cs@);
    s
}


/// `n` occurs in `h` starting at position `i`.
pub open spec fn occurs_at(h: Seq<char>, n: Seq<char>, i: int) -> bool {
    0 <= i && i + n.len() <= h.len() && h.subrange(i, i + n.len()) == n
}

/// `n` is a substring of `h` (the empty string is a substring of every string).
pub open spec fn contains_seq(h: Seq<char>, n: Seq<char>) -> bool {
    exists|i: int| #[trigger] occurs_at(h, n, i)
}

/// `p` is a prefix of `s`.
pub open spec fn has_prefix(s: Seq<char>, p: Seq<char>) -> bool {
    p.len() <= s.len() && s.subrange(0, p.len() as int) == p
}

/// `p` is a suffix of `s`.
pub open spec fn has_suffix(s: Seq<char>, p: Seq<char>) -> bool {
    p.len() <= s.len() && s.subrange(s.len() - p.len(), s.len() as int) == p
}

/// `s` without the prefix `p`, when `s` starts with `p`.
pub open spec fn strip_prefix_seq(s: Seq<char>, p: Seq<char>) -> Option<Seq<char>> {
    if has_prefix(s, p) {
        Some(s.skip(p.len() as int))
    } else {
        None
    }
}

fn occurs_at_exec(h: &[char], n: &[char], i: usize) -> (b: bool)
    requires
        i + n@.len() <= h@.len(),
    ensures
        b == occurs_at(h@, n@, i as int),
{
    let mut k: usize = 0;
    while k < n.len()
        invariant
            i + n@.len() <= h@.len(),
            h.len() == h@.len(),
            n.len() == n@.len(),
            k <= n@.len(),
            forall|j: int| 0 <= j < k ==> h@[i + j] == n@[j],
        decreases n.len() - k,
    {
        if h[i + k] != n[k] {
            assert(h@.subrange(i as int, i + n@.len())[k as int] != n@[k as int]);
            return false;
        }
        k += 1;
    }
    assert(h@.subrange(i as int, i + n@.len()) =~= n@);
    true
}

/// Whether `n` is a substring of `h`.
pub fn contains_chars(h: &[char], n: &[char]) -> (b: bool)
    ensures
        b == contains_seq(h@, n@),
{
    if n.len() > h.len() {
        return false;
    }
    let last = h.len() - n.len();
    let mut i: usize = 0;
    while i <= last
        invariant
            last + n@.len() == h@.len(),
            forall|j: int| 0 <= j < i ==> !occurs_at(h@, n@, j),
        decreases last + 1 - i,
    {
        if occurs_at_exec(h, n, i) {
            return true;
        }
        if i == last {
            assert forall|j: int| !occurs_at(h@, n@, j) by {
                if 0 <= j <= i {
                }
            }
            return false;
        }
        i += 1;
    }
    false
}

/// Whether `s` starts with `p`.
pub fn starts_with_chars(s: &[char], p: &[char]) -> (b: bool)
    ensures
        b == has_prefix(s@, p@),
{
    if p.len() > s.len() {
        return false;
    }
    let r = occurs_at_exec(s, p, 0);
    r
}

/// Whether `s` ends with `p`.
pub fn ends_with_chars(s: &[char], p: &[char]) -> (b: bool)
    ensures
        b == has_suffix(s@, p@),
{
    if p.len() > s.len() {
        return false;
    }
    let r = occurs_at_exec(s, p, s.len() - p.len());
    r
}

/// The characters `s[from..to]`.
pub fn sub_chars(s: &[char], from: usize, to: usize) -> (v: Vec<char>)
    requires
        from <= to <= s@.len(),
    ensures
        v@ == s@.subrange(from as int, to as int),
{
    let mut v: Vec<char> = Vec::new();
    let mut i: usize = from;
    while i < to
        invariant
            from <= i <= to <= s@.len(),
            v@ == s@.subrange(from as int, i as int),
        decreases to - i,
    {
        v.push(s[i]);
        assert(s@.subrange(from as int, i + 1) == s@.subrange(from as int, i as int).push(s@[i as int]));
        i += 1;
    }
    v
}

/// `s` without the prefix `p`, or `None` when `s` does not start with `p`.
pub fn strip_prefix_chars(s: &[char], p: &[char]) -> (r: Option<Vec<char>>)
    ensures
        r matches Some(v) ==> strip_prefix_seq(s@, p@) == Some(v@),
        r is None ==> strip_prefix_seq(s@, p@) is None,
{
    if starts_with_chars(s, p) {
        Some(sub_chars(s, p.len(), s.len()))
    } else {
        None
    }
}


/// The Unicode `White_Space` property, which `char::is_whitespace` tests and
/// `str::trim` and `str::split_whitespace` use.
pub open spec fn is_unicode_whitespace(c: char) -> bool {
    ||| ('\u{9}' <= c && c <= '\u{d}')
    ||| c == ' '
    ||| c == '\u{85}'
    ||| c == '\u{a0}'
    ||| c == '\u{1680}'
    ||| ('\u{2000}' <= c && c <= '\u{200a}')
    ||| c == '\u{2028}'
    ||| c == '\u{2029}'
    ||| c == '\u{202f}'
    ||| c == '\u{205f}'
    ||| c == '\u{3000}'
}

/// A set of characters that trimming and splitting operate on.
#[derive(Clone, Copy, Debug, PartialEq, Eq)]
pub enum CharClass {
    /// Characters with the Unicode `White_Space` property.
    Whitespace,
    /// Every character except the ASCII digits `0`..`9`.
    NonDigit,
    /// The characters `.`, `,` and `;`.
    TrailingPunctuation,
    /// The characters `<` and `>`.
    AngleBracket,
    /// Exactly the given character.
    Exactly(char),
}

/// Whether `c` belongs to the class.
pub open spec fn in_class(cls: CharClass, c: char) -> bool {
    match cls {
        CharClass::Whitespace => is_unicode_whitespace(c),
        CharClass::NonDigit => !('0' <= c && c <= '9'),
        CharClass::TrailingPunctuation => c == '.' || c == ',' || c == ';',
        CharClass::AngleBracket => c == '<' || c == '>',
        CharClass::Exactly(x) => c == x,
    }
}

/// Whether `c` belongs to the class.
pub fn class_contains(cls: CharClass, c: char) -> (b: bool)
    ensures
        b == in_class(cls, c),
{
    match cls {
        CharClass::Whitespace => {
            ('\u{9}' <= c && c <= '\u{d}') || c == ' ' || c == '\u{85}' || c == '\u{a0}'
                || c == '\u{1680}' || ('\u{2000}' <= c && c <= '\u{200a}') || c == '\u{2028}'
                || c == '\u{2029}' || c == '\u{202f}' || c == '\u{205f}' || c == '\u{3000}'
        },
        CharClass::NonDigit => !('0' <= c && c <= '9'),
        CharClass::TrailingPunctuation => c == '.' || c == ',' || c == ';',
        CharClass::AngleBracket => c == '<' || c == '>',
        CharClass::Exactly(x) => c == x,
    }
}

/// `s` with all leading characters of the class removed.
pub open spec fn trim_start_class(s: Seq<char>, cls: CharClass) -> Seq<char>
    decreases s.len(),
{
    if s.len() > 0 && in_class(cls, s[0]) {
        trim_start_class(s.drop_first(), cls)
    } else {
        s
    }
}

/// `s` with all trailing characters of the class removed.
pub open spec fn trim_end_class(s: Seq<char>, cls: CharClass) -> Seq<char>
    decreases s.len(),
{
    if s.len() > 0 && in_class(cls, s.last()) {
        trim_end_class(s.drop_last(), cls)
    } else {
        s
    }
}

/// `s` with leading and trailing characters of the class removed.
pub open spec fn trim_class(s: Seq<char>, cls: CharClass) -> Seq<char> {
    trim_end_class(trim_start_class(s, cls), cls)
}

/// `s` with leading and trailing Unicode whitespace removed (`str::trim`).
pub open spec fn trim_ws(s: Seq<char>) -> Seq<char> {
    trim_class(s, CharClass::Whitespace)
}

/// `s` with the suffix `p` removed as long as `s` ends with it
/// (`str::trim_end_matches` with a string pattern).
pub open spec fn trim_end_seq(s: Seq<char>, p: Seq<char>) -> Seq<char>
    decreases s.len(),
{
    if p.len() > 0 && has_suffix(s, p) {
        trim_end_seq(s.subrange(0, s.len() - p.len()), p)
    } else {
        s
    }
}

/// The characters of `s` from the first one not in the class.
pub fn trim_start_chars(s: &[char], cls: CharClass) -> (v: Vec<char>)
    ensures
        v@ == trim_start_class(s@, cls),
{
    let mut i: usize = 0;
    assert(s@.skip(0) == s@);
    while i < s.len() && class_contains(cls, s[i])
        invariant
            i <= s@.len(),
            s.len() == s@.len(),
            trim_start_class(s@.skip(i as int), cls) == trim_start_class(s@, cls),
        decreases s.len() - i,
    {
        assert(s@.skip(i as int).drop_first() == s@.skip(i + 1));
        i += 1;
    }
    sub_chars(s, i, s.len())
}

/// The characters of `s` up to the last one not in the class.
pub fn trim_end_chars(s: &[char], cls: CharClass) -> (v: Vec<char>)
    ensures
        v@ == trim_end_class(s@, cls),
{
    let mut j: usize = s.len();
    assert(s@.take(j as int) == s@);
    while j > 0 && class_contains(cls, s[j - 1])
        invariant
            j <= s@.len(),
            s.len() == s@.len(),
            trim_end_class(s@.take(j as int), cls) == trim_end_class(s@, cls),
        decreases j,
    {
        assert(s@.take(j as int).drop_last() == s@.take(j - 1));
        j -= 1;
    }
    assert(s@.subrange(0, j as int) == s@.take(j as int));
    sub_chars(s, 0, j)
}

/// `s` with leading and trailing characters of the class removed.
pub fn trim_chars(s: &[char], cls: CharClass) -> (v: Vec<char>)
    ensures
        v@ == trim_class(s@, cls),
{
    let t = trim_start_chars(s, cls);
    trim_end_chars(&t, cls)
}

/// `s` with the suffix `p` removed as long as `s` ends with it.
pub fn trim_end_matching(s: &[char], p: &[char]) -> (v: Vec<char>)
    ensures
        v@ == trim_end_seq(s@, p@),
{
    let mut j: usize = s.len();
    if p.len() == 0 {
        return sub_chars(s, 0, j);
    }
    assert(s@.take(j as int) == s@);
    loop
        invariant
            p@.len() > 0,
            j <= s@.len(),
            s.len() == s@.len(),
            trim_end_seq(s@.take(j as int), p@) == trim_end_seq(s@, p@),
        decreases j,
    {
        let cur = sub_chars(s, 0, j);
        if !ends_with_chars(&cur, p) {
            assert(s@.take(j as int) == s@.subrange(0, j as int));
            return cur;
        }
        assert(s@.take(j as int).subrange(0, j - p@.len()) == s@.take(j - p@.len()));
        j = j - p.len();
    }
}


/// Index `i` holds the first occurrence of `c` in `s`.
pub open spec fn is_first_index(s: Seq<char>, c: char, i: int) -> bool {
    0 <= i < s.len() && s[i] == c && forall|j: int| 0 <= j < i ==> s[j] != c
}

/// The parts of `s` before and after the first occurrence of `c`
/// (`str::split_once` with a character pattern).
pub open spec fn split_once_seq(s: Seq<char>, c: char) -> Option<(Seq<char>, Seq<char>)> {
    if exists|i: int| #[trigger] is_first_index(s, c, i) {
        let i = choose|i: int| #[trigger] is_first_index(s, c, i);
        Some((s.take(i), s.skip(i + 1)))
    } else {
        None
    }
}

/// The part of `s` after the last occurrence of `c`, or all of `s` when `c`
/// does not occur (the first item of `str::rsplit`).
pub open spec fn after_last(s: Seq<char>, c: char) -> Seq<char>
    decreases s.len(),
{
    if s.len() == 0 {
        s
    } else if s.last() == c {
        Seq::empty()
    } else {
        after_last(s.drop_last(), c).push(s.last())
    }
}

/// The pieces of `s` between characters of the class (`str::split`);
/// there is always at least one piece.
pub open spec fn split_class(s: Seq<char>, cls: CharClass) -> Seq<Seq<char>>
    decreases s.len(),
{
    if s.len() == 0 {
        seq![Seq::empty()]
    } else {
        let parts = split_class(s.drop_last(), cls);
        if in_class(cls, s.last()) {
            parts.push(Seq::empty())
        } else {
            parts.update(parts.len() - 1, parts.last().push(s.last()))
        }
    }
}

/// The pieces that are not empty, in order.
pub open spec fn non_empty(parts: Seq<Seq<char>>) -> Seq<Seq<char>>
    decreases parts.len(),
{
    if parts.len() == 0 {
        parts
    } else if parts.last().len() > 0 {
        non_empty(parts.drop_last()).push(parts.last())
    } else {
        non_empty(parts.drop_last())
    }
}

/// The whitespace-separated words of `s` (`str::split_whitespace`).
pub open spec fn words(s: Seq<char>) -> Seq<Seq<char>> {
    non_empty(split_class(s, CharClass::Whitespace))
}

/// The views of a sequence of character vectors.
pub open spec fn views(v: Seq<Vec<char>>) -> Seq<Seq<char>> {
    v.map_values(|x: Vec<char>| x@)
}

/// The parts of `s` before and after the first `c`.
pub fn split_once_chars(s: &[char], c: char) -> (r: Option<(Vec<char>, Vec<char>)>)
    ensures
        r matches Some((a, b)) ==> split_once_seq(s@, c) == Some((a@, b@)),
        r is None ==> split_once_seq(s@, c) is None,
{
    let mut i: usize = 0;
    while i < s.len()
        invariant
            i <= s@.len(),
            s.len() == s@.len(),
            forall|j: int| 0 <= j < i ==> s@[j] != c,
        decreases s.len() - i,
    {
        if s[i] == c {
            assert(is_first_index(s@, c, i as int));
            let ghost k = choose|k: int| #[trigger] is_first_index(s@, c, k);
            assert(k == i) by {
                if k < i {
                    assert(s@[k] != c);
                } else if k > i {
                    assert(s@[i as int] != c);
                }
            }
            let a = sub_chars(s, 0, i);
            let b = sub_chars(s, i + 1, s.len());
            assert(a@ == s@.take(i as int));
            assert(b@ == s@.skip(i + 1));
            return Some((a, b));
        }
        i += 1;
    }
    assert forall|k: int| !is_first_index(s@, c, k) by {
        if is_first_index(s@, c, k) {
            assert(s@[k] != c);
        }
    }
    None
}

/// The part of `s` after its last `c`, or all of `s`.
pub fn after_last_chars(s: &[char], c: char) -> (v: Vec<char>)
    ensures
        v@ == after_last(s@, c),
{
    let mut j: usize = s.len();
    assert(s@.take(j as int) == s@);
    assert(s@.skip(j as int) == Seq::<char>::empty());
    while j > 0 && s[j - 1] != c
        invariant
            j <= s@.len(),
            s.len() == s@.len(),
            after_last(s@, c) == after_last(s@.take(j as int), c) + s@.skip(j as int),
        decreases j,
    {
        let ghost t = s@.take(j as int);
        assert(t.drop_last() == s@.take(j - 1));
        assert(t.last() == s@[j - 1]);
        assert(s@.skip(j - 1) == seq![s@[j - 1]] + s@.skip(j as int));
        assert(after_last(t, c) == after_last(s@.take(j - 1), c).push(s@[j - 1]));
        assert(after_last(s@.take(j - 1), c).push(s@[j - 1]) + s@.skip(j as int)
            == after_last(s@.take(j - 1), c) + s@.skip(j - 1));
        j -= 1;
    }
    if j > 0 {
        assert(s@.take(j as int).last() == c);
    }
    sub_chars(s, j, s.len())
}

/// The pieces of `s` between characters of the class.
pub fn split_chars(s: &[char], cls: CharClass) -> (parts: Vec<Vec<char>>)
    ensures
        views(parts@) == split_class(s@, cls),
{
    let mut parts: Vec<Vec<char>> = Vec::new();
    let mut cur: Vec<char> = Vec::new();
    let mut i: usize = 0;
    assert(views(parts@).push(cur@) == split_class(s@.take(0), cls));
    while i < s.len()
        invariant
            i <= s@.len(),
            s.len() == s@.len(),
            views(parts@).push(cur@) == split_class(s@.take(i as int), cls),
        decreases s.len() - i,
    {
        let ghost before = views(parts@).push(cur@);
        let ch = s[i];
        assert(s@.take(i + 1).drop_last() == s@.take(i as int));
        assert(s@.take(i + 1).last() == ch);
        if class_contains(cls, ch) {
            parts.push(cur);
            cur = Vec::new();
            assert(views(parts@) == before);
        } else {
            cur.push(ch);
            assert(views(parts@).push(cur@) == before.update(before.len() - 1, before.last().push(ch)));
        }
        i += 1;
    }
    parts.push(cur);
    assert(s@.take(s@.len() as int) == s@);
    parts
}

/// The pieces that are not empty, in order.
pub fn non_empty_parts(parts: &Vec<Vec<char>>) -> (out: Vec<Vec<char>>)
    ensures
        views(out@) == non_empty(views(parts@)),
{
    let mut out: Vec<Vec<char>> = Vec::new();
    let ghost all = views(parts@);
    let mut i: usize = 0;
    assert(views(out@) == non_empty(all.take(0)));
    while i < parts.len()
        invariant
            all == views(parts@),
            i <= parts@.len(),
            views(out@) == non_empty(all.take(i as int)),
        decreases parts.len() - i,
    {
        assert(all.take(i + 1).drop_last() == all.take(i as int));
        assert(all[i as int] == parts@[i as int]@);
        if parts[i].len() > 0 {
            let piece = sub_chars(&parts[i], 0, parts[i].len());
            assert(piece@ == parts@[i as int]@);
            out.push(piece);
            assert(views(out@) == non_empty(all.take(i as int)).push(all[i as int]));
        }
        i += 1;
    }
    assert(all.take(parts@.len() as int) == all);
    out
}

/// The whitespace-separated words of `s`.
pub fn words_of(s: &[char]) -> (out: Vec<Vec<char>>)
    ensures
        views(out@) == words(s@),
{
    let parts = split_chars(s, CharClass::Whitespace);
    non_empty_parts(&parts)
}


/// `c` with ASCII `A`..`Z` mapped to `a`..`z` (`char::to_ascii_lowercase`).
pub open spec fn ascii_lower(c: char) -> char {
    if 'A' <= c && c <= 'Z' {
        ((c as int) + 32) as char
    } else {
        c
    }
}

/// `s` with every ASCII upper-case letter made lower-case (`str::to_ascii_lowercase`).
pub open spec fn ascii_lowercase(s: Seq<char>) -> Seq<char> {
    s.map_values(|c: char| ascii_lower(c))
}

/// `a` and `b` are equal up to ASCII case (`str::eq_ignore_ascii_case`).
pub open spec fn eq_ignore_ascii_case(a: Seq<char>, b: Seq<char>) -> bool {
    ascii_lowercase(a) == ascii_lowercase(b)
}

/// `c` with ASCII upper case made lower case.
pub fn ascii_lower_char(c: char) -> (r: char)
    ensures
        r == ascii_lower(c),
{
    if 'A' <= c && c <= 'Z' {
        let code: u32 = c as u32;
        let l: u8 = (code + 32) as u8;
        l as char
    } else {
        c
    }
}

/// `s` with ASCII upper case made lower case.
pub fn ascii_lowercase_chars(s: &[char]) -> (v: Vec<char>)
    ensures
        v@ == ascii_lowercase(s@),
{
    let mut v: Vec<char> = Vec::new();
    let mut i: usize = 0;
    while i < s.len()
        invariant
            i <= s@.len(),
            s.len() == s@.len(),
            v@ == ascii_lowercase(s@.take(i as int)),
        decreases s.len() - i,
    {
        v.push(ascii_lower_char(s[i]));
        assert(ascii_lowercase(s@.take(i + 1)) == ascii_lowercase(s@.take(i as int)).push(
            ascii_lower(s@[i as int]),
        ));
        i += 1;
    }
    assert(s@.take(s@.len() as int) == s@);
    v
}

/// Whether `a` and `b` are equal up to ASCII case.
pub fn eq_ignore_ascii_case_chars(a: &[char], b: &[char]) -> (r: bool)
    ensures
        r == eq_ignore_ascii_case(a@, b@),
{
    let la = ascii_lowercase_chars(a);
    let lb = ascii_lowercase_chars(b);
    if la.len() != lb.len() {
        assert(ascii_lowercase(a@).len() != ascii_lowercase(b@).len());
        return false;
    }
    let mut i: usize = 0;
    while i < la.len()
        invariant
            la@ == ascii_lowercase(a@),
            lb@ == ascii_lowercase(b@),
            la@.len() == lb@.len(),
            i <= la@.len(),
            forall|j: int| 0 <= j < i ==> la@[j] == lb@[j],
        decreases la.len() - i,
    {
        if la[i] != lb[i] {
            return false;
        }
        i += 1;
    }
    assert(la@ =~= lb@);
    true
}

/// The ASCII digits `0`..`9`.
pub open spec fn is_ascii_digit(c: char) -> bool {
    '0' <= c && c <= '9'
}

/// Every character of `d` is an ASCII digit.
pub open spec fn all_ascii_digits(d: Seq<char>) -> bool {
    forall|i: int| 0 <= i < d.len() ==> is_ascii_digit(#[trigger] d[i])
}

/// The number written by the decimal digits `d`.
pub open spec fn digits_value(d: Seq<char>) -> int
    decreases d.len(),
{
    if d.len() == 0 {
        0
    } else {
        digits_value(d.drop_last()) * 10 + (d.last() as int - '0' as int)
    }
}

/// The integer written by `s` in the syntax `str::parse` accepts for signed
/// integers: an optional `+` or `-` followed by one or more decimal digits.
pub open spec fn decimal_integer(s: Seq<char>) -> Option<int> {
    if s.len() == 0 {
        None
    } else if (s[0] == '+' || s[0] == '-') && s.len() == 1 {
        None
    } else {
        let neg = s[0] == '-';
        let d = if s[0] == '+' || s[0] == '-' { s.drop_first() } else { s };
        if all_ascii_digits(d) {
            Some(if neg { -digits_value(d) } else { digits_value(d) })
        } else {
            None
        }
    }
}

/// What `str::parse::<i64>` returns, as an `Option`.
pub open spec fn parse_i64_seq(s: Seq<char>) -> Option<i64> {
    match decimal_integer(s) {
        Some(v) => if i64::MIN <= v <= i64::MAX {
            Some(v as i64)
        } else {
            None
        },
        None => None,
    }
}

/// What `str::parse::<i32>` returns, as an `Option`.
pub open spec fn parse_i32_seq(s: Seq<char>) -> Option<i32> {
    match decimal_integer(s) {
        Some(v) => if i32::MIN <= v <= i32::MAX {
            Some(v as i32)
        } else {
            None
        },
        None => None,
    }
}

proof fn lemma_digits_value_prefix(d: Seq<char>, k: int)
    requires
        all_ascii_digits(d),
        0 <= k <= d.len(),
    ensures
        0 <= digits_value(d.take(k)) <= digits_value(d),
    decreases d.len(),
{
    if k == d.len() {
        assert(d.take(k) == d);
        if d.len() > 0 {
            lemma_digits_value_prefix(d.drop_last(), 0);
        }
    } else {
        lemma_digits_value_prefix(d.drop_last(), k);
        assert(d.drop_last().take(k) == d.take(k));
        assert(is_ascii_digit(d[d.len() - 1]));
    }
}

/// The value of a decimal numeral, when it has the syntax `str::parse` accepts
/// for signed integers and lies in the `i64` range.
pub fn parse_i64_chars(s: &[char]) -> (r: Option<i64>)
    ensures
        r == parse_i64_seq(s@),
{
    if s.len() == 0 {
        return None;
    }
    if (s[0] == '+' || s[0] == '-') && s.len() == 1 {
        return None;
    }
    let neg = s[0] == '-';
    let start: usize = if s[0] == '+' || s[0] == '-' { 1 } else { 0 };
    let ghost d = if s@[0] == '+' || s@[0] == '-' { s@.drop_first() } else { s@ };
    assert(d == s@.skip(start as int));
    let limit: u128 = if neg { 0x8000_0000_0000_0000 } else { 0x7fff_ffff_ffff_ffff };
    let mut acc: u128 = 0;
    let mut i: usize = start;
    assert(d.take(0) == Seq::<char>::empty());
    while i < s.len()
        invariant
            start <= i <= s@.len(),
            s.len() == s@.len(),
            s@.len() > 0,
            !((s@[0] == '+' || s@[0] == '-') && s@.len() == 1),
            neg == (s@[0] == '-'),
            d == (if s@[0] == '+' || s@[0] == '-' { s@.drop_first() } else { s@ }),
            d == s@.skip(start as int),
            acc <= limit,
            limit == (if neg { 0x8000_0000_0000_0000u128 } else { 0x7fff_ffff_ffff_ffffu128 }),
            all_ascii_digits(d.take(i - start)),
            acc == digits_value(d.take(i - start)),
        decreases s.len() - i,
    {
        let c = s[i];
        assert(d[i - start] == c);
        if !('0' <= c && c <= '9') {
            assert(!all_ascii_digits(d));
            return None;
        }
        let dv: u128 = (c as u32 - '0' as u32) as u128;
        assert(d.take(i + 1 - start).drop_last() == d.take(i - start));
        acc = acc * 10 + dv;
        i += 1;
        if acc > limit {
            proof {
                if all_ascii_digits(d) {
                    lemma_digits_value_prefix(d, i - start);
                }
            }
            return None;
        }
    }
    assert(d.take(i - start) == d);
    if neg {
        if acc == 0x8000_0000_0000_0000 {
            Some(i64::MIN)
        } else {
            let m: i64 = acc as i64;
            Some(-m)
        }
    } else {
        Some(acc as i64)
    }
}

/// The value of a decimal numeral, when it has the syntax `str::parse` accepts
/// for signed integers and lies in the `i32` range.
pub fn parse_i32_chars(s: &[char]) -> (r: Option<i32>)
    ensures
        r == parse_i32_seq(s@),
{
    match parse_i64_chars(s) {
        Some(v) => if i32::MIN as i64 <= v && v <= i32::MAX as i64 {
            Some(v as i32)
        } else {
            None
        },
        None => {
            None
        },
    }
}

/// The decimal digit character for `d` in `0..10`.
pub open spec fn digit_char(d: int) -> char {
    ('0' as int + d) as char
}

/// The decimal numeral of a natural number, without leading zeros.
pub open spec fn nat_decimal(n: nat) -> Seq<char>
    decreases n,
{
    if n < 10 {
        seq![digit_char(n as int)]
    } else {
        nat_decimal((n / 10) as nat).push(digit_char((n % 10) as int))
    }
}

/// The decimal numeral of an integer, as `Display` writes it.
pub open spec fn int_decimal(n: int) -> Seq<char> {
    if n < 0 {
        seq!['-'] + nat_decimal((-n) as nat)
    } else {
        nat_decimal(n as nat)
    }
}

fn digit_of(d: u64) -> (c: char)
    requires
        d < 10,
    ensures
        c == digit_char(d as int),
{
    let b: u8 = d as u8 + 48;
    b as char
}

/// The decimal numeral of `n`, as `Display` writes it.
pub fn decimal_string(n: i64) -> (s: String)
    ensures
        s@ == int_decimal(n as int),
{
    let neg = n < 0;
    let mut rest: u64 = if neg {
        if n == i64::MIN {
            0x8000_0000_0000_0000
        } else {
            (-n) as u64
        }
    } else {
        n as u64
    };
    let ghost mag: nat = rest as nat;
    let mut digits: Vec<char> = Vec::new();
    assert(nat_decimal(mag) == nat_decimal(rest as nat) + digits@);
    while rest >= 10
        invariant
            nat_decimal(mag) == nat_decimal(rest as nat) + digits@,
        decreases rest,
    {
        let c = digit_of(rest % 10);
        let ghost before = digits@;
        digits.insert(0, c);
        assert(nat_decimal(rest as nat) == nat_decimal((rest / 10) as nat).push(c));
        assert(digits@ == seq![c] + before);
        assert(nat_decimal((rest / 10) as nat).push(c) + before
            == nat_decimal((rest / 10) as nat) + digits@);
        rest = rest / 10;
    }
    let first = digit_of(rest);
    digits.insert(0, first);
    assert(nat_decimal(rest as nat) == seq![first]);
    let mut s = String::new();
    if neg {
        s.push('-');
    }
    let mut i: usize = 0;
    let ghost prefix = s@;
    while i < digits.len()
        invariant
            i <= digits@.len(),
            s@ == prefix + digits@.take(i as int),
        decreases digits.len() - i,
    {
        s.push(digits[i]);
        assert(digits@.take(i + 1) == digits@.take(i as int).push(digits@[i as int]));
        i += 1;
    }
    assert(digits@.take(digits@.len() as int) == digits@);
    s
}


/// The view of an optional string.
pub open spec fn opt_view(o: Option<String>) -> Option<Seq<char>> {
    match o {
        Some(s) => Some(s@),
        None => None,
    }
}

/// The views of a sequence of strings.
pub open spec fn string_views(d: Seq<String>) -> Seq<Seq<char>> {
    d.map_values(|s: String| s@)
}

/// Whether two character sequences are equal.
pub fn same_chars(a: &[char], b: &[char]) -> (r: bool)
    ensures
        r == (a@ == b@),
{
    if a.len() != b.len() {
        return false;
    }
    let mut i: usize = 0;
    while i < a.len()
        invariant
            a@.len() == b@.len(),
            i <= a@.len(),
            forall|j: int| 0 <= j < i ==> a@[j] == b@[j],
        decreases a.len() - i,
    {
        if a[i] != b[i] {
            return false;
        }
        i += 1;
    }
    assert(a@ =~= b@);
    true
}

/// Whether the characters of `a` spell the string `b`.
pub fn spells(a: &[char], b: &str) -> (r: bool)
    ensures
        r == (a@ == b@),
{
    let bc = chars_of(b);
    same_chars(a, &bc)
}

/// `s` followed by the characters of `t`.
pub fn push_chars(s: &mut String, t: &[char])
    ensures
        final(s)@ == old(s)@ + t@,
{
    let mut i: usize = 0;
    while i < t.len()
        invariant
            i <= t@.len(),
            s@ == old(s)@ + t@.take(i as int),
        decreases t.len() - i,
    {
        s.push(t[i]);
        assert(t@.take(i + 1) == t@.take(i as int).push(t@[i as int]));
        i += 1;
    }
    assert(t@.take(t@.len() as int) == t@);
}

/// A copy of a string.
pub fn copy_string(s: &str) -> (r: String)
    ensures
        r@ == s@,
{
    let mut r = String::new();
    r.append(s);
    r
}

/// A copy of an optional string.
pub fn copy_opt_string(o: &Option<String>) -> (r: Option<String>)
    ensures
        opt_view(r) == opt_view(*o),
{
    match o {
        Some(s) => Some(copy_string(s.as_str())),
        None => None,
    }
}


pub proof fn lemma_nat_decimal_digits(n: nat)
    ensures
        nat_decimal(n).len() >= 1,
        all_ascii_digits(nat_decimal(n)),
        digits_value(nat_decimal(n)) == n,
    decreases n,
{
    if n < 10 {
        let s = nat_decimal(n);
        assert(s == seq![digit_char(n as int)]);
        assert(s.drop_last() == Seq::<char>::empty());
        assert(digit_char(n as int) as int == '0' as int + n);
        assert(s.last() == digit_char(n as int));
        assert(digits_value(s.drop_last()) == 0);
        assert(digits_value(s) == digits_value(s.drop_last()) * 10 + (s.last() as int - '0' as int));
    } else {
        let q = (n / 10) as nat;
        let r = (n % 10) as int;
        lemma_nat_decimal_digits(q);
        let s = nat_decimal(n);
        assert(s == nat_decimal(q).push(digit_char(r)));
        assert(s.drop_last() == nat_decimal(q));
        assert(digit_char(r) as int == '0' as int + r);
        assert(s.last() == digit_char(r));
        assert(forall|i: int| 0 <= i < s.len() ==> is_ascii_digit(#[trigger] s[i])) by {
            assert forall|i: int| 0 <= i < s.len() implies is_ascii_digit(#[trigger] s[i]) by {
                if i < s.len() - 1 {
                    assert(s[i] == nat_decimal(q)[i]);
                }
            }
        }
        assert(q * 10 + r == n) by (nonlinear_arith)
            requires
                q == n / 10,
                r == n % 10,
        ;
        assert(digits_value(s) == digits_value(s.drop_last()) * 10 + (s.last() as int - '0' as int));
    }
}

/// Reading back the decimal numeral of an `i64` gives the same number: what
/// `Display` writes, `str::parse` reads.
pub proof fn law_decimal_round_trip(n: i64)
    ensures
        parse_i64_seq(int_decimal(n as int)) == Some(n),
        i32::MIN <= n <= i32::MAX ==> parse_i32_seq(int_decimal(n as int)) == Some(n as i32),
{
    if n >= 0 {
        lemma_nat_decimal_digits(n as nat);
        let s = nat_decimal(n as nat);
        assert(is_ascii_digit(s[0]));
    } else {
        let m = (-n) as nat;
        lemma_nat_decimal_digits(m);
        let s = seq!['-'] + nat_decimal(m);
        assert(s[0] == '-');
        assert(s.drop_first() == nat_decimal(m));
    }
}


/// What remains after trimming a suffix pattern no longer ends with it.
pub proof fn lemma_trim_end_seq_done(s: Seq<char>, p: Seq<char>)
    requires
        p.len() > 0,
    ensures
        !has_suffix(trim_end_seq(s, p), p),
        trim_end_seq(s, p).len() <= s.len(),
    decreases s.len(),
{
    if has_suffix(s, p) {
        lemma_trim_end_seq_done(s.subrange(0, s.len() - p.len()), p);
    }
}

/// The part after the last `c` of `x`, `c`, `d` is `d` when `d` has no `c`.
pub proof fn lemma_after_last_of_suffix(x: Seq<char>, c: char, d: Seq<char>)
    requires
        forall|i: int| 0 <= i < d.len() ==> d[i] != c,
    ensures
        after_last(x + seq![c] + d, c) == d,
    decreases d.len(),
{
    let s = x + seq![c] + d;
    if d.len() == 0 {
        assert(s == x.push(c));
        assert(s.last() == c);
    } else {
        assert(s.last() == d.last());
        assert(s.drop_last() == x + seq![c] + d.drop_last());
        lemma_after_last_of_suffix(x, c, d.drop_last());
        assert(d.drop_last().push(d.last()) == d);
    }
}

/// The decimal numeral of an integer is made of digits and a leading `-`,
/// and ends with a digit.
pub proof fn lemma_int_decimal_chars(n: int)
    ensures
        int_decimal(n).len() >= 1,
        is_ascii_digit(int_decimal(n).last()),
        forall|i: int|
            0 <= i < int_decimal(n).len() ==> is_ascii_digit(#[trigger] int_decimal(n)[i])
                || int_decimal(n)[i] == '-',
{
    if n >= 0 {
        lemma_nat_decimal_digits(n as nat);
    } else {
        lemma_nat_decimal_digits((-n) as nat);
        let d = nat_decimal((-n) as nat);
        assert forall|i: int| 0 <= i < int_decimal(n).len() implies is_ascii_digit(
            #[trigger] int_decimal(n)[i],
        ) || int_decimal(n)[i] == '-' by {
            if i > 0 {
                assert(int_decimal(n)[i] == d[i - 1]);
            }
        }
        assert(int_decimal(n).last() == d.last());
    }
}

/// Trimming the end stops at a last character outside the class.
pub proof fn lemma_trim_end_class_keeps(s: Seq<char>, cls: CharClass)
    requires
        s.len() > 0,
        !in_class(cls, s.last()),
    ensures
        trim_end_class(s, cls) == s,
{
}

/// Trimming the start removes a prefix of class characters and stops at a
/// first character outside the class.
pub proof fn lemma_trim_start_class_prefix(w: Seq<char>, b: Seq<char>, cls: CharClass)
    requires
        forall|i: int| 0 <= i < w.len() ==> in_class(cls, #[trigger] w[i]),
        b.len() > 0,
        !in_class(cls, b[0]),
    ensures
        trim_start_class(w + b, cls) == b,
    decreases w.len(),
{
    if w.len() == 0 {
        assert(w + b == b);
    } else {
        assert((w + b)[0] == w[0]);
        assert((w + b).drop_first() == w.drop_first() + b);
        lemma_trim_start_class_prefix(w.drop_first(), b, cls);
    }
}

} // verus!
