//! Small verified helpers over `String`/`&str`, seen as sequences of chars.
use vstd::prelude::*;

verus! {

/// Appends one char to a `String` (std `String::push`).
#[verifier::external_body]
pub(crate) fn push_char(s: &mut String, c: char)
    ensures
        final(s)@ == old(s)@.push(c),
{
    s.push(c);
}

/// Collects the chars of a string slice into a vector.
pub fn chars_of(s: &str) -> (v: Vec<char>)
    ensures
        v@ == s@,
{
    let mut v: Vec<char> = Vec::new();
    for c in it: s.chars()
        invariant
            v@ == it.seq().take(it.index()),
            it.seq() == s@,
    {
        v.push(c);
    }
    v
}

} // verus!

verus! {

/// Whether two string slices hold the same chars.
pub fn text_eq(a: &str, b: &str) -> (r: bool)
    ensures
        r == (a@ == b@),
{
    let x = chars_of(a);
    let y = chars_of(b);
    if x.len() != y.len() {
        return false;
    }
    let n = x.len();
    let mut i: usize = 0;
    while i < n
        invariant
            x@ == a@,
            y@ == b@,
            n == x@.len(),
            n == y@.len(),
            i <= n,
            forall|j: int| 0 <= j < i ==> x@[j] == y@[j],
        decreases n - i,
    {
        if x[i] != y[i] {
            return false;
        }
        i = i + 1;
    }
    assert(a@ =~= b@);
    true
}

/// Whether `s` begins with `prefix`.
pub fn starts_with(s: &str, prefix: &str) -> (r: bool)
    ensures
        r == (prefix@.len() <= s@.len() && s@.take(prefix@.len() as int) == prefix@),
{
    let x = chars_of(s);
    let p = chars_of(prefix);
    if p.len() > x.len() {
        return false;
    }
    let n = p.len();
    let mut i: usize = 0;
    while i < n
        invariant
            x@ == s@,
            p@ == prefix@,
            n == p@.len(),
            n <= x@.len(),
            i <= n,
            forall|j: int| 0 <= j < i ==> x@[j] == p@[j],
        decreases n - i,
    {
        if x[i] != p[i] {
            assert(s@.take(n as int)[i as int] != prefix@[i as int]);
            return false;
        }
        i = i + 1;
    }
    assert(s@.take(n as int) =~= prefix@);
    true
}

/// Whether `s` ends with `suffix`.
pub fn ends_with(s: &str, suffix: &str) -> (r: bool)
    ensures
        r == (suffix@.len() <= s@.len() && s@.skip(s@.len() - suffix@.len()) == suffix@),
{
    let x = chars_of(s);
    let p = chars_of(suffix);
    if p.len() > x.len() {
        return false;
    }
    let n = p.len();
    let off = x.len() - n;
    let mut i: usize = 0;
    while i < n
        invariant
            x@ == s@,
            p@ == suffix@,
            n == p@.len(),
            off + n == x.len(),
            x.len() == x@.len(),
            i <= n,
            forall|j: int| 0 <= j < i ==> x@[off + j] == p@[j],
        decreases n - i,
    {
        if x[off + i] != p[i] {
            assert(s@.skip(off as int)[i as int] != suffix@[i as int]);
            return false;
        }
        i = i + 1;
    }
    assert(s@.skip(off as int) =~= suffix@);
    true
}

/// Whether `c` has the Unicode `White_Space` property (what `char::is_whitespace` tests).
pub open spec fn is_white_space(c: char) -> bool {
    ('\u{9}' <= c && c <= '\u{d}') || c == ' ' || c == '\u{85}' || c == '\u{a0}' || c
        == '\u{1680}' || ('\u{2000}' <= c && c <= '\u{200a}') || c == '\u{2028}' || c
        == '\u{2029}' || c == '\u{202f}' || c == '\u{205f}' || c == '\u{3000}'
}

/// Tests whether `c` has the Unicode `White_Space` property.
pub fn white_space(c: char) -> (r: bool)
    ensures
        r == is_white_space(c),
{
    ('\u{9}' <= c && c <= '\u{d}') || c == ' ' || c == '\u{85}' || c == '\u{a0}' || c
        == '\u{1680}' || ('\u{2000}' <= c && c <= '\u{200a}') || c == '\u{2028}' || c
        == '\u{2029}' || c == '\u{202f}' || c == '\u{205f}' || c == '\u{3000}'
}

/// `s` with every white-space char removed.
pub open spec fn without_white_space(s: Seq<char>) -> Seq<char>
    decreases s.len(),
{
    if s.len() == 0 {
        Seq::empty()
    } else if is_white_space(s.last()) {
        without_white_space(s.drop_last())
    } else {
        without_white_space(s.drop_last()).push(s.last())
    }
}

/// Removes every white-space char of `s`.
pub fn remove_white_space(s: &str) -> (r: String)
    ensures
        r@ == without_white_space(s@),
{
    let x = chars_of(s);
    let n = x.len();
    let mut r = String::new();
    let mut i: usize = 0;
    assert(s@.take(0) =~= Seq::<char>::empty());
    while i < n
        invariant
            x@ == s@,
            n == s@.len(),
            i <= n,
            r@ == without_white_space(s@.take(i as int)),
        decreases n - i,
    {
        assert(s@.take(i + 1).drop_last() =~= s@.take(i as int));
        if !white_space(x[i]) {
            push_char(&mut r, x[i]);
        }
        i = i + 1;
    }
    assert(s@.take(n as int) =~= s@);
    r
}

/// The first position at which `needle` occurs in `s`, if any.
pub open spec fn occurs_at(s: Seq<char>, needle: Seq<char>, i: int) -> bool {
    0 <= i && i + needle.len() <= s.len() && s.subrange(i, i + needle.len()) == needle
}

/// `needle` occurs at `i` in `s` and nowhere before.
pub open spec fn first_at(s: Seq<char>, needle: Seq<char>, i: int) -> bool {
    occurs_at(s, needle, i) && forall|j: int| 0 <= j < i ==> !occurs_at(s, needle, j)
}

/// Finds the first occurrence of `needle` in `s` (as a char position).
pub fn find_text(s: &str, needle: &str) -> (r: Option<usize>)
    ensures
        match r {
            Some(i) => occurs_at(s@, needle@, i as int) && forall|j: int|
                0 <= j < i ==> !occurs_at(s@, needle@, j),
            None => forall|j: int| !occurs_at(s@, needle@, j),
        },
{
    let x = chars_of(s);
    let p = chars_of(needle);
    if p.len() > x.len() {
        return None;
    }
    let last = x.len() - p.len();
    let mut i: usize = 0;
    while i <= last
        invariant
            x@ == s@,
            p@ == needle@,
            last + p@.len() == x.len(),
            x.len() == x@.len(),
            i <= last,
            forall|j: int| 0 <= j < i ==> !occurs_at(s@, needle@, j),
        decreases last - i,
    {
        let mut k: usize = 0;
        let mut matched = true;
        while k < p.len()
            invariant
                x@ == s@,
                p@ == needle@,
                last + p@.len() == x.len(),
                x.len() == x@.len(),
                i <= last,
                k <= p@.len(),
                matched ==> forall|j: int| 0 <= j < k ==> x@[i + j] == p@[j],
                !matched ==> !occurs_at(s@, needle@, i as int),
            decreases p@.len() - k,
        {
            if x[i + k] != p[k] {
                matched = false;
                assert(s@.subrange(i as int, i + needle@.len())[k as int] != needle@[k as int]);
                k = p.len();
            } else {
                k = k + 1;
            }
        }
        if matched {
            assert(s@.subrange(i as int, i + needle@.len()) =~= needle@);
            return Some(i);
        }
        if i == last {
            assert forall|j: int| !occurs_at(s@, needle@, j) by {
                if 0 <= j && j + needle@.len() <= s@.len() {
                    assert(j <= i);
                }
            }
            return None;
        }
        i = i + 1;
    }
    assert forall|j: int| !occurs_at(s@, needle@, j) by {
        if 0 <= j && j + needle@.len() <= s@.len() {
            assert(j < i);
        }
    }
    None
}

} // verus!
