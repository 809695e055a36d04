//! A plain model of token trees and their consistent string form.
use vstd::prelude::*;

use crate::text::{chars_of, is_white_space, push_char, white_space};

verus! {

/// The delimiter of a group of tokens.
#[derive(Debug, Clone, Copy, PartialEq, Eq, Structural)]
pub enum Delimiter {
    /// `( ... )`
    Parenthesis,
    /// `{ ... }`
    Brace,
    /// `[ ... ]`
    Bracket,
    /// An invisible delimiter.
    Invisible,
}

/// One token tree, holding the text of each token as it prints.
pub enum TokenTree {
    /// A delimited group of token trees.
    Group(Delimiter, Vec<TokenTree>),
    /// An identifier (or keyword), as printed.
    Ident(String),
    /// A punctuation character, and whether it is joined to the next one (the `-`
    /// of `->`).
    Punct { ch: char, joint: bool },
    /// A literal as printed (`text`), and, when it is a string literal, the string it
    /// denotes (`str_value`).
    Literal { text: String, str_value: Option<String> },
}

/// The string that the literal printed as `text` denotes, when `text` is a string
/// literal (`None` otherwise), as syn reads it.
pub uninterp spec fn string_literal_value(text: Seq<char>) -> Option<Seq<char>>;

/// `syn::parse_str::<syn::LitStr>` on `text`, then `LitStr::value`: the string that a
/// string literal denotes. What it gives is named, not stated: syn's reading of
/// escapes and raw strings depends on the text alone.
#[verifier::external_body]
fn lit_str_value(text: &str) -> (r: Option<String>)
    ensures
        match r {
            None => string_literal_value(text@) is None,
            Some(v) => string_literal_value(text@) == Some(v@),
        },
{
    syn::parse_str::<syn::LitStr>(text).ok().map(|lit| lit.value())
}

impl TokenTree {
    /// The literal token printed as `text`, with the string it denotes when it is a
    /// string literal.
    pub fn literal(text: String) -> (r: TokenTree)
        ensures
            r matches TokenTree::Literal { text: t, str_value: v } && t@ == text@ && match v {
                None => string_literal_value(text@) is None,
                Some(v) => string_literal_value(text@) == Some(v@),
            },
    {
        let str_value = lit_str_value(text.as_str());
        TokenTree::Literal { text, str_value }
    }
}

/// `s` without its leading white space.
pub open spec fn trim_start(s: Seq<char>) -> Seq<char>
    decreases s.len(),
{
    if s.len() > 0 && is_white_space(s[0]) {
        trim_start(s.drop_first())
    } else {
        s
    }
}

/// `s` without its trailing white space.
pub open spec fn trim_end(s: Seq<char>) -> Seq<char>
    decreases s.len(),
{
    if s.len() > 0 && is_white_space(s.last()) {
        trim_end(s.drop_last())
    } else {
        s
    }
}

/// Appends `s` without its leading and trailing white space to `out`.
pub fn push_trimmed(out: &mut String, s: &str)
    ensures
        final(out)@ == old(out)@ + trim_end(trim_start(s@)),
{
    let cs = chars_of(s);
    let n = cs.len();
    let mut start: usize = 0;
    assert(s@.subrange(0, n as int) =~= s@);
    while start < n && white_space(cs[start])
        invariant
            cs@ == s@,
            n == s@.len(),
            start <= n,
            trim_start(s@) == trim_start(s@.subrange(start as int, n as int)),
        decreases n - start,
    {
        assert(s@.subrange(start as int, n as int).drop_first() =~= s@.subrange(
            start + 1,
            n as int,
        ));
        start = start + 1;
    }
    assert(trim_start(s@) == s@.subrange(start as int, n as int));
    let mut end: usize = n;
    while end > start && white_space(cs[end - 1])
        invariant
            cs@ == s@,
            n == s@.len(),
            start <= end <= n,
            trim_end(trim_start(s@)) == trim_end(s@.subrange(start as int, end as int)),
        decreases end,
    {
        assert(s@.subrange(start as int, end as int).drop_last() =~= s@.subrange(
            start as int,
            end - 1,
        ));
        end = end - 1;
    }
    assert(trim_end(trim_start(s@)) == s@.subrange(start as int, end as int));
    let mut i = start;
    while i < end
        invariant
            cs@ == s@,
            start <= i <= end <= n,
            n == s@.len(),
            out@ == old(out)@ + s@.subrange(start as int, i as int),
        decreases end - i,
    {
        push_char(out, cs[i]);
        assert(s@.subrange(start as int, i + 1) =~= s@.subrange(start as int, i as int).push(
            s@[i as int],
        ));
        i = i + 1;
    }
}

/// The opening char of a delimiter (nothing for `Delimiter::Invisible`).
pub open spec fn open_text(d: Delimiter) -> Seq<char> {
    match d {
        Delimiter::Parenthesis => seq!['('],
        Delimiter::Brace => seq!['{'],
        Delimiter::Bracket => seq!['['],
        Delimiter::Invisible => Seq::empty(),
    }
}

/// The closing char of a delimiter (nothing for `Delimiter::Invisible`).
pub open spec fn close_text(d: Delimiter) -> Seq<char> {
    match d {
        Delimiter::Parenthesis => seq![')'],
        Delimiter::Brace => seq!['}'],
        Delimiter::Bracket => seq![']'],
        Delimiter::Invisible => Seq::empty(),
    }
}

/// The consistent form of one token tree: groups print their delimiters around the
/// form of their contents, every other token prints its text, trimmed.
pub open spec fn tree_text(t: TokenTree) -> Seq<char>
    decreases t,
{
    match t {
        TokenTree::Group(d, inner) => open_text(d) + stream_text(inner@) + close_text(d),
        TokenTree::Ident(s) => trim_end(trim_start(s@)),
        TokenTree::Punct { ch: c, .. } => trim_end(trim_start(seq![c])),
        TokenTree::Literal { text, str_value: _ } => trim_end(trim_start(text@)),
    }
}

/// The consistent form of a stream: the forms of its trees, with nothing between.
pub open spec fn stream_text(ts: Seq<TokenTree>) -> Seq<char>
    decreases ts,
{
    if ts.len() == 0 {
        Seq::empty()
    } else {
        stream_text(ts.drop_last()) + tree_text(ts.last())
    }
}

fn push_open(out: &mut String, d: Delimiter)
    ensures
        final(out)@ == old(out)@ + open_text(d),
{
    match d {
        Delimiter::Parenthesis => push_char(out, '('),
        Delimiter::Brace => push_char(out, '{'),
        Delimiter::Bracket => push_char(out, '['),
        Delimiter::Invisible => {
            assert(old(out)@ + open_text(d) =~= old(out)@);
        },
    }
}

fn push_close(out: &mut String, d: Delimiter)
    ensures
        final(out)@ == old(out)@ + close_text(d),
{
    match d {
        Delimiter::Parenthesis => push_char(out, ')'),
        Delimiter::Brace => push_char(out, '}'),
        Delimiter::Bracket => push_char(out, ']'),
        Delimiter::Invisible => {
            assert(old(out)@ + close_text(d) =~= old(out)@);
        },
    }
}

fn push_char_trimmed(out: &mut String, c: char)
    ensures
        final(out)@ == old(out)@ + trim_end(trim_start(seq![c])),
{
    let ghost s = seq![c];
    if white_space(c) {
        assert(s.drop_first() =~= Seq::<char>::empty());
        assert(trim_start(s.drop_first()) =~= Seq::<char>::empty());
        assert(trim_end(Seq::<char>::empty()) =~= Seq::<char>::empty());
        assert(old(out)@ + trim_end(trim_start(s)) =~= old(out)@);
    } else {
        assert(trim_start(s) == s);
        assert(s.last() == c);
        assert(trim_end(s) == s);
        push_char(out, c);
    }
}

fn push_stream(out: &mut String, tokens: &Vec<TokenTree>)
    ensures
        final(out)@ == old(out)@ + stream_text(tokens@),
    decreases tokens@,
{
    let n = tokens.len();
    let mut i: usize = 0;
    assert(tokens@.take(0) =~= Seq::<TokenTree>::empty());
    while i < n
        invariant
            n == tokens@.len(),
            i <= n,
            out@ == old(out)@ + stream_text(tokens@.take(i as int)),
        decreases n - i,
    {
        let ghost before = out@;
        match &tokens[i] {
            TokenTree::Group(d, inner) => {
                assert(decreases_to!(tokens@ => tokens@[i as int]));
                push_open(out, *d);
                push_stream(out, inner);
                push_close(out, *d);
                assert(out@ =~= before + tree_text(tokens@[i as int]));
            },
            TokenTree::Ident(s) => {
                push_trimmed(out, s.as_str());
                assert(out@ =~= before + tree_text(tokens@[i as int]));
            },
            TokenTree::Punct { ch: c, .. } => {
                push_char_trimmed(out, *c);
                assert(out@ =~= before + tree_text(tokens@[i as int]));
            },
            TokenTree::Literal { text, str_value: _ } => {
                push_trimmed(out, text.as_str());
                assert(out@ =~= before + tree_text(tokens@[i as int]));
            },
        }
        assert(tokens@.take(i + 1).drop_last() =~= tokens@.take(i as int));
        assert(tokens@.take(i + 1).last() == tokens@[i as int]);
        assert(out@ =~= old(out)@ + stream_text(tokens@.take(i + 1)));
        i = i + 1;
    }
    assert(tokens@.take(n as int) =~= tokens@);
}

/// Converts a token stream to a string with no space between tokens, whatever
/// spacing the tokens' printed form would have had.
pub fn token_stream_to_consistent_string(tokens: Vec<TokenTree>) -> (r: String)
    ensures
        r@ == stream_text(tokens@),
{
    let mut result_str = String::new();
    push_stream(&mut result_str, &tokens);
    result_str
}

} // verus!
