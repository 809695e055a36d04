//! Whitespace clean-up of the string form of a token stream.
//!
//! `TokenStream::to_string()` separates every token by a space. The function
//! here removes the spaces that do not help a human reader, and nothing else:
//! every char that is not `' '` is kept, in order.
use vstd::prelude::*;

use crate::text::{chars_of, push_char};

verus! {

/// Chars after which a space is never kept: `(`, `!`, `&`, `[`, `<`, `.`.
pub open spec fn is_opening(c: char) -> bool {
    c == '(' || c == '!' || c == '&' || c == '[' || c == '<' || c == '.'
}

/// Chars before which a space is dropped (unless the char before the space is `>`):
/// `.`, `,`, `(`, `[`, `:`, `;`, `!`, `<`, `>`, `?`.
pub open spec fn hugs_left(c: char) -> bool {
    c == '.' || c == ',' || c == '(' || c == '[' || c == ':' || c == ';' || c == '!' || c == '<'
        || c == '>' || c == '?'
}

/// Chars before which a space that follows `>` is dropped:
/// `>`, `(`, `{`, `[`, `,`, `]`, `:`, `;`, `.`, `!`, `<`, `?`.
pub open spec fn hugs_angle(c: char) -> bool {
    c == '>' || c == '(' || c == '{' || c == '[' || c == ',' || c == ']' || c == ':' || c == ';'
        || c == '.' || c == '!' || c == '<' || c == '?'
}

/// Whether a single space between the non-space char `prev` and `next`
/// (`None` at the end of the input) stays in the output.
pub open spec fn space_kept_between(prev: char, next: Option<char>) -> bool {
    if prev == '>' {
        match next {
            Some(n) => !hugs_angle(n),
            None => true,
        }
    } else if is_opening(prev) {
        false
    } else {
        match next {
            None => false,
            Some(n) => !(hugs_left(n) || (prev == ')' && n == ')') || (prev == '}' && n == '}')
                || (prev == ']' && n == ']')),
        }
    }
}

/// The char after position `i`, if any.
pub open spec fn next_char(s: Seq<char>, i: int) -> Option<char> {
    if i + 1 < s.len() {
        Some(s[i + 1])
    } else {
        None
    }
}

/// Whether the char at position `i` of the input is kept: every char that is not a
/// space is kept; a space is kept only when the char before it exists and is not a
/// space, and the rule `space_kept_between` allows a space between its neighbours.
pub open spec fn kept_at(s: Seq<char>, i: int) -> bool {
    s[i] != ' ' || (i > 0 && s[i - 1] != ' ' && space_kept_between(s[i - 1], next_char(s, i)))
}

/// The output for the first `n` chars of `s`: the kept chars among them, in order.
pub open spec fn readable_prefix(s: Seq<char>, n: int) -> Seq<char>
    decreases n,
{
    if n <= 0 {
        Seq::empty()
    } else if kept_at(s, n - 1) {
        readable_prefix(s, n - 1).push(s[n - 1])
    } else {
        readable_prefix(s, n - 1)
    }
}

/// The cleaned-up form of `s`.
pub open spec fn readable(s: Seq<char>) -> Seq<char> {
    readable_prefix(s, s.len() as int)
}

/// Formats a token stream string by removing unnecessary spaces while keeping
/// the ones that help a reader.
///
/// Runs of spaces shrink to at most one space; a space is dropped after
/// `(`, `!`, `&`, `[`, `<`, `.`, before `.`, `,`, `(`, `[`, `:`, `;`, `!`, `<`, `>`, `?`
/// (after `>` only before `>`, `(`, `{`, `[`, `,`, `]`, `:`, `;`, `.`, `!`,
/// `<`, `?`), between `))`, `}}`
/// and `]]`, at the start, and at the end unless it follows `>`.
/// Only the char `' '` is ever removed.
pub fn readable_token_stream(tokens_str: &str) -> (result: String)
    ensures
        result@ == readable(tokens_str@),
{
    let chars = chars_of(tokens_str);
    let n = chars.len();
    let ghost s = tokens_str@;
    let mut result = String::new();
    let mut last_char = ' ';
    let mut i: usize = 0;
    while i < n
        invariant
            chars@ == s,
            n == s.len(),
            i <= n,
            result@ == readable_prefix(s, i as int),
            i > 0 && s[i - 1] != ' ' ==> last_char == s[i - 1],
            i == 0 || s[i - 1] == ' ' ==> last_char == ' ' || is_opening(last_char) || i == n
                || s[i as int] != ' ',
        decreases n - i,
    {
        let c = chars[i];
        let future_c: Option<char> = if i + 1 < n {
            Some(chars[i + 1])
        } else {
            None
        };
        if c == ' ' {
            if last_char != ' ' {
                let keep = if last_char == '>' {
                    match future_c {
                        Some(f) => !(f == '>' || f == '(' || f == '{' || f == '[' || f == ','
                            || f == ']' || f == ':' || f == ';' || f == '.' || f == '!' || f == '<'
                            || f == '?'),
                        None => true,
                    }
                } else if last_char == '(' || last_char == '!' || last_char == '&' || last_char
                    == '[' || last_char == '<' || last_char == '.' {
                    false
                } else {
                    match future_c {
                        None => false,
                        Some(f) => !(f == '.' || f == ',' || f == '(' || f == '[' || f == ':' || f
                            == ';' || f == '!' || f == '<' || f == '>' || f == '?' || (last_char
                            == ')' && f == ')') || (last_char == '}' && f == '}') || (last_char
                            == ']' && f == ']')),
                    }
                };
                if keep {
                    push_char(&mut result, ' ');
                    last_char = ' ';
                }
            }
        } else {
            push_char(&mut result, c);
            last_char = c;
        }
        i = i + 1;
    }
    result
}

} // verus!

verus! {

/// `s` with every `' '` removed.
pub open spec fn drop_spaces(s: Seq<char>) -> Seq<char>
    decreases s.len(),
{
    if s.len() == 0 {
        Seq::empty()
    } else if s.last() == ' ' {
        drop_spaces(s.drop_last())
    } else {
        drop_spaces(s.drop_last()).push(s.last())
    }
}

/// No two spaces stand next to each other in `s`.
pub open spec fn no_double_space(s: Seq<char>) -> bool {
    forall|k: int| 0 <= k < s.len() - 1 ==> !(#[trigger] s[k] == ' ' && s[k + 1] == ' ')
}

/// The first char at or after position `j` that is not a space.
pub open spec fn next_non_space(s: Seq<char>, j: int) -> Option<char>
    decreases s.len() - j,
{
    if j < 0 || j >= s.len() {
        None
    } else if s[j] != ' ' {
        Some(s[j])
    } else {
        next_non_space(s, j + 1)
    }
}

/// Every space that the clean-up keeps would still be kept once the run of spaces
/// after it is gone: its neighbours in the output allow it.
pub open spec fn spaces_settled(s: Seq<char>) -> bool {
    forall|i: int|
        0 <= i < s.len() && #[trigger] s[i] == ' ' && kept_at(s, i) ==> space_kept_between(
            s[i - 1],
            next_non_space(s, i + 1),
        )
}

proof fn lemma_prefix_shape(s: Seq<char>, n: int)
    requires
        0 <= n <= s.len(),
    ensures
        ({
            let r = readable_prefix(s, n);
            &&& r.len() <= n
            &&& no_double_space(r)
            &&& r.len() > 0 ==> r[0] != ' '
            &&& n > 0 && s[n - 1] != ' ' ==> r.len() > 0 && r.last() == s[n - 1]
            &&& drop_spaces(r) == drop_spaces(s.take(n))
        }),
    decreases n,
{
    if n > 0 {
        lemma_prefix_shape(s, n - 1);
        let r = readable_prefix(s, n - 1);
        assert(s.take(n).drop_last() =~= s.take(n - 1));
        assert(s.take(n).last() == s[n - 1]);
        if kept_at(s, n - 1) {
            let r2 = r.push(s[n - 1]);
            assert(r2.drop_last() =~= r);
            assert forall|k: int| 0 <= k < r2.len() - 1 implies !(#[trigger] r2[k] == ' ' && r2[k
                + 1] == ' ') by {
                if k < r.len() - 1 {
                    assert(r2[k] == r[k] && r2[k + 1] == r[k + 1]);
                }
            }
        }
    } else {
        assert(s.take(0) =~= Seq::<char>::empty());
    }
}

/// Only spaces are removed: apart from `' '`, the output holds exactly the chars of
/// the input, in the same order.
pub proof fn lemma_only_spaces_removed(s: Seq<char>)
    ensures
        drop_spaces(readable(s)) == drop_spaces(s),
{
    lemma_prefix_shape(s, s.len() as int);
    assert(s.take(s.len() as int) =~= s);
}

/// The output is never longer than the input.
pub proof fn lemma_never_longer(s: Seq<char>)
    ensures
        readable(s).len() <= s.len(),
{
    lemma_prefix_shape(s, s.len() as int);
}

/// The output holds no two consecutive spaces and does not start with a space.
pub proof fn lemma_single_spaces(s: Seq<char>)
    ensures
        no_double_space(readable(s)),
        readable(s).len() > 0 ==> readable(s)[0] != ' ',
{
    lemma_prefix_shape(s, s.len() as int);
}

} // verus!

verus! {

/// Every char of `t` passes the keep rule of `t` itself.
pub open spec fn all_kept(t: Seq<char>) -> bool {
    forall|k: int| 0 <= k < t.len() ==> #[trigger] kept_at(t, k)
}

proof fn lemma_all_kept_fixed(t: Seq<char>, n: int)
    requires
        all_kept(t),
        0 <= n <= t.len(),
    ensures
        readable_prefix(t, n) == t.take(n),
    decreases n,
{
    if n > 0 {
        lemma_all_kept_fixed(t, n - 1);
        assert(kept_at(t, n - 1));
        assert(t.take(n) =~= t.take(n - 1).push(t[n - 1]));
    } else {
        assert(t.take(0) =~= Seq::<char>::empty());
    }
}

proof fn lemma_settled_prefix(s: Seq<char>, n: int)
    requires
        spaces_settled(s),
        0 <= n <= s.len(),
    ensures
        ({
            let r = readable_prefix(s, n);
            &&& forall|k: int| 0 <= k < r.len() - 1 ==> #[trigger] kept_at(r, k)
            &&& r.len() > 0 && r.last() == ' ' ==> r.len() >= 2 && r[r.len() - 2] != ' '
                && space_kept_between(r[r.len() - 2], next_non_space(s, n))
        }),
    decreases n,
{
    if n > 0 {
        lemma_settled_prefix(s, n - 1);
        lemma_prefix_shape(s, n - 1);
        lemma_prefix_shape(s, n);
        let r = readable_prefix(s, n - 1);
        let c = s[n - 1];
        if kept_at(s, n - 1) {
            let r2 = r.push(c);
            if c == ' ' {
                assert(s[n - 1] == ' ');
                assert(r.last() == s[n - 2]);
            } else {
                assert(next_non_space(s, n - 1) == Some(c));
            }
            assert forall|k: int| 0 <= k < r2.len() - 1 implies #[trigger] kept_at(r2, k) by {
                assert(r2[k] == r[k]);
                if k > 0 {
                    assert(r2[k - 1] == r[k - 1]);
                }
                if k < r.len() - 1 {
                    assert(kept_at(r, k));
                    assert(r2[k + 1] == r[k + 1]);
                    assert(next_char(r2, k) == next_char(r, k));
                } else {
                    assert(k == r.len() - 1);
                    assert(next_char(r2, k) == Some(c));
                }
            }
        } else {
            assert(c == ' ');
            assert(next_non_space(s, n - 1) == next_non_space(s, n));
        }
    }
}

/// Running the clean-up twice gives the same result as running it once, on every
/// input whose kept spaces are settled (for instance every input without two
/// consecutive spaces, see `lemma_no_double_space_settled`).
pub proof fn lemma_idempotent(s: Seq<char>)
    requires
        spaces_settled(s),
    ensures
        readable(readable(s)) == readable(s),
{
    let t = readable(s);
    lemma_settled_prefix(s, s.len() as int);
    lemma_prefix_shape(s, s.len() as int);
    assert forall|k: int| 0 <= k < t.len() implies #[trigger] kept_at(t, k) by {
        if k == t.len() - 1 && t[k] == ' ' {
            assert(next_non_space(s, s.len() as int) == None::<char>);
            assert(next_char(t, k) == None::<char>);
        }
    }
    lemma_all_kept_fixed(t, t.len() as int);
    assert(t.take(t.len() as int) =~= t);
}

/// An input without two consecutive spaces has all its kept spaces settled.
pub proof fn lemma_no_double_space_settled(s: Seq<char>)
    requires
        no_double_space(s),
    ensures
        spaces_settled(s),
{
    assert forall|i: int|
        0 <= i < s.len() && #[trigger] s[i] == ' ' && kept_at(s, i) implies space_kept_between(
        s[i - 1],
        next_non_space(s, i + 1),
    ) by {
        if i + 1 < s.len() {
            assert(!(s[i] == ' ' && s[i + 1] == ' '));
            assert(next_non_space(s, i + 1) == Some(s[i + 1]));
        } else {
            assert(next_non_space(s, i + 1) == None::<char>);
        }
    }
}

} // verus!
