//! Character-level helpers for building and inspecting strings.

use vstd::prelude::*;

verus! {

broadcast use vstd::string::group_string_axioms;

/// Appends one character to a string. Calls std's `String::push`, trusted
/// (not proved) to leave the earlier characters and add `c` at the end.
#[verifier::external_body]
pub(crate) fn push_char(s: &mut String, c: char)
    ensures
        final(s)@ == old(s)@.push(c),
{
    s.push(c);
}

/// The characters of a string slice, in order.
pub fn chars_of(s: &str) -> (v: Vec<char>)
    ensures
        v@ == s@,
{
    let mut v: Vec<char> = Vec::new();
    for c in it: s.chars()
        invariant
            it.seq() == s@,
            v@ == s@.take(it.index()),
    {
        v.push(c);
        assert(v@ =~= s@.take(it.index() + 1));
    }
    assert(v@ =~= s@);
    v
}

/// What std's `str::to_uppercase` returns for a string (the Unicode
/// uppercase mapping of each character).
pub uninterp spec fn uppercase(s: Seq<char>) -> Seq<char>;

/// What std's `str::to_lowercase` returns for a string (the Unicode
/// lowercase mapping, final sigma included).
pub uninterp spec fn lowercase(s: Seq<char>) -> Seq<char>;

/// What std's `char::to_uppercase` yields for one character, collected.
pub uninterp spec fn char_uppercase(c: char) -> Seq<char>;

/// The uppercase form of a string. Calls std's `str::to_uppercase`, trusted
/// (not proved) to return a string that depends on the argument alone,
/// named `uppercase`; nothing more is stated of the Unicode mapping.
#[verifier::external_body]
pub(crate) fn to_uppercase(s: &str) -> (res: String)
    ensures
        res@ == uppercase(s@),
{
    s.to_uppercase()
}

/// The lowercase form of a string. Calls std's `str::to_lowercase`, trusted
/// (not proved) to return a string that depends on the argument alone,
/// named `lowercase`; nothing more is stated of the Unicode mapping.
#[verifier::external_body]
pub(crate) fn to_lowercase(s: &str) -> (res: String)
    ensures
        res@ == lowercase(s@),
{
    s.to_lowercase()
}

/// The uppercase form of one character. Calls std's `char::to_uppercase`
/// and collects its characters into a string; trusted (not proved) to
/// depend on the character alone, named `char_uppercase`.
#[verifier::external_body]
pub(crate) fn char_to_uppercase(c: char) -> (res: String)
    ensures
        res@ == char_uppercase(c),
{
    c.to_uppercase().collect::<String>()
}

/// `s` with its first character replaced by that character's uppercase form.
pub open spec fn capitalized(s: Seq<char>) -> Seq<char> {
    if s.len() == 0 {
        s
    } else {
        char_uppercase(s[0]) + s.skip(1)
    }
}

/// `s` with its first character in uppercase; the empty string stays empty.
pub fn capitalize(s: &str) -> (res: String)
    ensures
        res@ == capitalized(s@),
{
    let n = s.unicode_len();
    if n == 0 {
        String::new()
    } else {
        let mut res = char_to_uppercase(s.get_char(0));
        res.append(s.substring_char(1, n));
        assert(s@.subrange(1, n as int) =~= s@.skip(1));
        res
    }
}

/// A string holding the characters of `chars` from `start` up to `end`.
pub fn string_of_range(chars: &Vec<char>, start: usize, end: usize) -> (res: String)
    requires
        start <= end <= chars@.len(),
    ensures
        res@ == chars@.subrange(start as int, end as int),
{
    let mut res = String::new();
    let mut i: usize = start;
    while i < end
        invariant
            start <= i <= end,
            end <= chars@.len(),
            res@ == chars@.subrange(start as int, i as int),
        decreases end - i,
    {
        push_char(&mut res, chars[i]);
        i = i + 1;
        assert(res@ =~= chars@.subrange(start as int, i as int));
    }
    res
}

/// The first position at or after `from` that holds `c`, if any.
pub fn find_char_from(chars: &Vec<char>, from: usize, c: char) -> (res: Option<usize>)
    requires
        from <= chars@.len(),
    ensures
        match res {
            Some(i) => from <= i < chars@.len() && chars@[i as int] == c
                && forall|j: int| from <= j < i ==> chars@[j] != c,
            None => forall|j: int| from <= j < chars@.len() ==> chars@[j] != c,
        },
{
    let mut i: usize = from;
    while i < chars.len()
        invariant
            from <= i <= chars@.len(),
            forall|j: int| from <= j < i ==> chars@[j] != c,
        decreases chars.len() - i,
    {
        if chars[i] == c {
            return Some(i);
        }
        i = i + 1;
    }
    None
}

/// Whether two character sequences are equal, element by element.
pub fn same_chars(a: &Vec<char>, b: &Vec<char>) -> (res: bool)
    ensures
        res == (a@ == b@),
{
    if a.len() != b.len() {
        return false;
    }
    let mut i: usize = 0;
    while i < a.len()
        invariant
            a@.len() == b@.len(),
            i <= a@.len(),
            forall|j: int| 0 <= j < i ==> a@[j] == b@[j],
        decreases a.len() - i,
    {
        if a[i] != b[i] {
            return false;
        }
        i = i + 1;
    }
    assert(a@ =~= b@);
    true
}

/// Whether two strings hold the same characters.
pub fn same_text(a: &str, b: &str) -> (res: bool)
    ensures
        res == (a@ == b@),
{
    same_chars(&chars_of(a), &chars_of(b))
}

/// Whether `s` begins with `prefix`.
pub open spec fn has_prefix(s: Seq<char>, prefix: Seq<char>) -> bool {
    prefix.len() <= s.len() && s.take(prefix.len() as int) == prefix
}

/// Whether `chars` begins with the characters of `prefix`.
pub fn starts_with_chars(chars: &Vec<char>, prefix: &Vec<char>) -> (res: bool)
    ensures
        res == has_prefix(chars@, prefix@),
{
    if prefix.len() > chars.len() {
        return false;
    }
    let mut i: usize = 0;
    while i < prefix.len()
        invariant
            prefix@.len() <= chars@.len(),
            i <= prefix@.len(),
            forall|j: int| 0 <= j < i ==> chars@[j] == prefix@[j],
        decreases prefix.len() - i,
    {
        if chars[i] != prefix[i] {
            assert(chars@.take(prefix@.len() as int)[i as int] != prefix@[i as int]);
            return false;
        }
        i = i + 1;
    }
    assert(chars@.take(prefix@.len() as int) =~= prefix@);
    true
}

/// Whether `needle` occurs in `hay` as a contiguous run of characters.
pub open spec fn occurs_in(needle: Seq<char>, hay: Seq<char>) -> bool {
    exists|i: int| 0 <= i && i + needle.len() <= hay.len() && #[trigger] hay.subrange(i, i + needle.len()) == needle
}

/// Whether `hay` holds the characters of `needle` at position `at`.
pub fn matches_at(hay: &Vec<char>, needle: &Vec<char>, at: usize) -> (res: bool)
    requires
        at <= hay@.len(),
    ensures
        res == (at + needle@.len() <= hay@.len() && hay@.subrange(at as int, at + needle@.len()) == needle@),
{
    if needle.len() > hay.len() - at {
        return false;
    }
    let mut k: usize = 0;
    while k < needle.len()
        invariant
            at + needle@.len() <= hay@.len(),
            hay@.len() <= usize::MAX,
            k <= needle@.len(),
            forall|j: int| 0 <= j < k ==> hay@[at + j] == needle@[j],
        decreases needle.len() - k,
    {
        if hay[at + k] != needle[k] {
            assert(hay@.subrange(at as int, at + needle@.len())[k as int] != needle@[k as int]);
            return false;
        }
        k = k + 1;
    }
    assert(hay@.subrange(at as int, at + needle@.len()) =~= needle@);
    true
}

/// Whether `needle` occurs in `hay`.
pub fn contains_chars(hay: &Vec<char>, needle: &Vec<char>) -> (res: bool)
    ensures
        res == occurs_in(needle@, hay@),
{
    if needle.len() == 0 {
        assert(hay@.subrange(0int, 0int + needle@.len()) =~= needle@);
        return true;
    }
    if needle.len() > hay.len() {
        return false;
    }
    let last = hay.len() - needle.len();
    let mut at: usize = 0;
    while at <= last
        invariant
            last + needle@.len() == hay@.len(),
            hay@.len() <= usize::MAX,
            needle@.len() > 0,
            at <= last + 1,
            forall|i: int| 0 <= i < at ==> #[trigger] hay@.subrange(i, i + needle@.len()) != needle@,
        decreases last + 1 - at,
    {
        if matches_at(hay, needle, at) {
            return true;
        }
        at = at + 1;
    }
    false
}

/// Whether `needle` occurs in the string `hay`.
pub fn str_contains(hay: &str, needle: &str) -> (res: bool)
    ensures
        res == occurs_in(needle@, hay@),
{
    contains_chars(&chars_of(hay), &chars_of(needle))
}

} // verus!
