//! Text primitives that the resolvers rely on, over the characters of a
//! string.

use vstd::prelude::*;
use vstd::string::StrSliceExecFns;

verus! {

/// The characters of a text of one-byte characters, read from its bytes.
fn ascii_characters(text: &str) -> (v: Vec<char>)
    requires
        text.is_ascii(),
    ensures
        v@ == text@,
{
    let bytes = text.as_bytes();
    proof {
        vstd::string::is_ascii_spec_bytes(text);
    }
    let n = bytes.len();
    let mut v: Vec<char> = Vec::new();
    let mut i: usize = 0;
    while i < n
        invariant
            n == text@.len(),
            n == bytes@.len(),
            i <= n,
            text.is_ascii(),
            forall|j: int| 0 <= j < n ==> bytes@[j] == text@[j] as u8,
            v@ == text@.take(i as int),
        decreases n - i,
    {
        let b = bytes[i];
        assert('\0' <= text@[i as int] <= '\u{7f}');
        assert(b as char == text@[i as int]);
        v.push(b as char);
        assert(text@.take(i as int + 1) =~= text@.take(i as int).push(text@[i as int]));
        i += 1;
    }
    assert(text@.take(n as int) =~= text@);
    v
}

/// The characters of a text.
pub(crate) fn characters(text: &str) -> (v: Vec<char>)
    ensures
        v@ == text@,
{
    if text.is_ascii() {
        return ascii_characters(text);
    }
    let n = text.unicode_len();
    let mut v: Vec<char> = Vec::new();
    let mut i: usize = 0;
    while i < n
        invariant
            n == text@.len(),
            i <= n,
            v@ == text@.take(i as int),
        decreases n - i,
    {
        v.push(text.get_char(i));
        assert(text@.take(i as int + 1) =~= text@.take(i as int).push(text@[i as int]));
        i += 1;
    }
    assert(text@.take(n as int) =~= text@);
    v
}

/// Whether `part` stands in `whole` from the place `at` on.
fn stands_at(whole: &Vec<char>, at: usize, part: &Vec<char>) -> (r: bool)
    requires
        at + part.len() <= whole.len(),
    ensures
        r == (whole@.subrange(at as int, at + part.len()) == part@),
{
    let ghost window = whole@.subrange(at as int, at + part.len());
    let mut i: usize = 0;
    while i < part.len()
        invariant
            i <= part.len(),
            at + part.len() <= whole.len(),
            window == whole@.subrange(at as int, at + part.len()),
            forall|j: int| 0 <= j < i ==> window[j] == part@[j],
        decreases part.len() - i,
    {
        if whole[at + i] != part[i] {
            assert(window[i as int] != part@[i as int]);
            return false;
        }
        i += 1;
    }
    assert(window =~= part@);
    true
}

/// Whether two texts hold the same characters.
pub(crate) fn same_text(a: &str, b: &str) -> (r: bool)
    ensures
        r == (a@ == b@),
{
    let x = characters(a);
    let y = characters(b);
    if x.len() != y.len() {
        return false;
    }
    assert(x@.subrange(0, y.len() as int) =~= x@);
    stands_at(&x, 0, &y)
}

/// Whether a text ends with a suffix.
pub(crate) fn ends_with(s: &str, suffix: &str) -> (r: bool)
    ensures
        r == suffix@.is_suffix_of(s@),
{
    let whole = characters(s);
    let part = characters(suffix);
    if part.len() > whole.len() {
        return false;
    }
    stands_at(&whole, whole.len() - part.len(), &part)
}

/// The rest of a text behind a prefix, or `None` where the text does not
/// start with the prefix.
pub(crate) fn strip_prefix<'a>(s: &'a str, prefix: &str) -> (r: Option<&'a str>)
    ensures
        match r {
            Some(rest) => prefix@.is_prefix_of(s@) && rest@ == s@.skip(prefix@.len() as int),
            None => !prefix@.is_prefix_of(s@),
        },
{
    let whole = characters(s);
    let part = characters(prefix);
    if part.len() > whole.len() {
        return None;
    }
    if stands_at(&whole, 0, &part) {
        Some(s.substring_char(part.len(), whole.len()))
    } else {
        None
    }
}

} // verus!
