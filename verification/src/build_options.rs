//! Options for the build step that adds `#[always_context]` attributes.
use vstd::prelude::*;

use crate::always_context::{is_comma, known_option, option_token, options_from, settings_options, SkipOption};
use crate::token_tree::{Delimiter, TokenTree};

verus! {

/// Kinds of code that a generated `#[always_context(skip(..))]` attribute skips.
#[derive(Debug, Clone, Copy, PartialEq, Eq, Structural)]
pub enum Skip {
    Macros,
    MacrosShort,
    EasySql,
    Es,
}

/// The options of the build step.
#[derive(Debug, Clone)]
pub struct BuildOptions {
    skip: Vec<Skip>,
}

impl View for BuildOptions {
    type V = Seq<Skip>;

    /// The configured skip options, in order.
    closed spec fn view(&self) -> Seq<Skip> {
        self.skip@
    }
}

impl Default for BuildOptions {
    fn default() -> (r: Self)
        ensures
            r@ == Seq::<Skip>::empty(),
    {
        BuildOptions { skip: Vec::new() }
    }
}

/// The text of one skip option inside `skip(..)`.
pub open spec fn skip_text(s: Skip) -> Seq<char> {
    match s {
        Skip::Macros => "macros"@,
        Skip::MacrosShort => "!"@,
        Skip::EasySql => "easy_sql"@,
        Skip::Es => "es"@,
    }
}

/// The texts of `skips`, separated by `", "`.
pub open spec fn joined_skip_texts(skips: Seq<Skip>) -> Seq<char>
    decreases skips.len(),
{
    if skips.len() == 0 {
        Seq::empty()
    } else if skips.len() == 1 {
        skip_text(skips[0])
    } else {
        joined_skip_texts(skips.drop_last()) + ", "@ + skip_text(skips.last())
    }
}

/// What goes inside `#[always_context(...)]` for the given options:
/// nothing when no option is set, else `skip(` + the options joined by `, ` + `)`.
pub open spec fn attribute_options(skips: Seq<Skip>) -> Seq<char> {
    if skips.len() == 0 {
        Seq::empty()
    } else {
        "skip("@ + joined_skip_texts(skips) + ")"@
    }
}

fn skip_str(s: Skip) -> (r: &'static str)
    ensures
        r@ == skip_text(s),
{
    match s {
        Skip::Macros => "macros",
        Skip::MacrosShort => "!",
        Skip::EasySql => "easy_sql",
        Skip::Es => "es",
    }
}

impl BuildOptions {
    /// Creates options with nothing to skip.
    pub fn new() -> (r: Self)
        ensures
            r@ == Seq::<Skip>::empty(),
    {
        Self::default()
    }

    /// Replaces the skip options of the generated `#[always_context]` attributes.
    pub fn skip(self, skips: Vec<Skip>) -> (r: Self)
        ensures
            r@ == skips@,
    {
        let mut s = self;
        s.skip = skips;
        s
    }

    /// The content that goes inside `#[always_context(...)]`.
    pub fn generate_attribute_options(&self) -> (r: String)
        ensures
            r@ == attribute_options(self@),
    {
        if self.skip.len() == 0 {
            return String::new();
        }
        let mut options = String::new();
        let n = self.skip.len();
        let mut i: usize = 0;
        while i < n
            invariant
                n == self@.len(),
                0 < n,
                i <= n,
                i == 0 ==> options@ == Seq::<char>::empty(),
                i > 0 ==> options@ == joined_skip_texts(self@.take(i as int)),
            decreases n - i,
        {
            let text = skip_str(self.skip[i]);
            if i > 0 {
                options.append(", ");
            }
            options.append(text);
            assert(self@.take(i + 1).drop_last() =~= self@.take(i as int));
            i = i + 1;
        }
        assert(self@.take(n as int) =~= self@);
        let mut r = String::new();
        r.append("skip(");
        r.append(options.as_str());
        r.append(")");
        r
    }
}

/// `o` is how the settings of `#[always_context(..)]` read the text that the skip `s`
/// prints as: `!` or an identifier of that name.
pub open spec fn reads_back_as(s: Skip, o: SkipOption) -> bool {
    match s {
        Skip::MacrosShort => o is Bang,
        _ => o matches SkipOption::Ident(n) && n@ == skip_text(s),
    }
}

/// What the build step writes into `#[always_context(..)]`, read back by the
/// attribute's settings, gives the same settings: with no skips nothing is written (no
/// options, nothing skipped); with skips of macros (`macros` or `!`), every option read
/// back is known, so the settings are made and skip macros. The `easy_sql`/`es` skips
/// are not options of the settings and are left out.
pub proof fn law_skip_options_read_back(skips: Seq<Skip>, opts: Seq<SkipOption>)
    requires
        opts.len() == skips.len(),
        forall|i: int| 0 <= i < skips.len() ==> reads_back_as(#[trigger] skips[i], opts[i]),
        forall|i: int| 0 <= i < skips.len() ==> #[trigger] skips[i] == Skip::Macros || skips[i] == Skip::MacrosShort,
    ensures
        skips.len() == 0 ==> attribute_options(skips) == Seq::<char>::empty(),
        skips.len() > 0 ==> attribute_options(skips) == "skip("@ + joined_skip_texts(skips) + ")"@,
        forall|i: int| 0 <= i < opts.len() ==> known_option(#[trigger] opts[i]),
{
    assert forall|i: int| 0 <= i < opts.len() implies known_option(#[trigger] opts[i]) by {
        assert(reads_back_as(skips[i], opts[i]));
    }
}

/// The token that the text of the skip `s` is: `!`, or an identifier of that name.
pub open spec fn written_as(t: TokenTree, s: Skip) -> bool {
    match s {
        Skip::MacrosShort => match t {
            TokenTree::Punct { ch, joint: _ } => ch == '!',
            _ => false,
        },
        _ => match t {
            TokenTree::Ident(n) => n@ == skip_text(s),
            _ => false,
        },
    }
}

/// `inner` are the tokens of the skips' texts joined by `", "`: each skip's token,
/// a comma between two of them.
pub open spec fn joined_skip_tokens(inner: Seq<TokenTree>, skips: Seq<Skip>) -> bool {
    &&& inner.len() == 2 * skips.len() - 1
    &&& forall|k: int| 0 <= k < skips.len() ==> written_as(#[trigger] inner[2 * k], skips[k])
    &&& forall|k: int| 0 <= k < skips.len() - 1 ==> is_comma(#[trigger] inner[2 * k + 1])
}

/// `ts` are the tokens of `attribute_options(skips)`: none for no skips, else `skip`
/// and a parenthesized group of the skips' tokens.
pub open spec fn attribute_tokens(ts: Seq<TokenTree>, skips: Seq<Skip>) -> bool {
    if skips.len() == 0 {
        ts.len() == 0
    } else {
        &&& ts.len() == 2
        &&& ts[0] matches TokenTree::Ident(k) && k@ == "skip"@
        &&& ts[1] matches TokenTree::Group(Delimiter::Parenthesis, inner) && joined_skip_tokens(inner@, skips)
    }
}

proof fn lemma_options_read_back(inner: Seq<TokenTree>, skips: Seq<Skip>, k: int)
    requires
        skips.len() > 0,
        joined_skip_tokens(inner, skips),
        0 <= k < skips.len(),
    ensures
        options_from(inner, 2 * k) matches Some(v) && v.len() == skips.len() - k && forall|i: int|
            0 <= i < v.len() ==> reads_back_as(skips[k + i], #[trigger] v[i]),
    decreases skips.len() - k,
{
    let t = inner[2 * k];
    assert(written_as(t, skips[k]));
    let o = option_token(t)->0;
    assert(reads_back_as(skips[k], o));
    if k + 1 < skips.len() {
        assert(is_comma(inner[2 * k + 1]));
        lemma_options_read_back(inner, skips, k + 1);
        assert(2 * (k + 1) == 2 * k + 2);
        let rest = options_from(inner, 2 * k + 2)->0;
        let v = seq![o] + rest;
        assert(options_from(inner, 2 * k) == Some(v));
        assert forall|i: int| 0 <= i < v.len() implies reads_back_as(skips[k + i], #[trigger] v[i]) by {
            if i > 0 {
                assert(v[i] == rest[i - 1]);
                assert(reads_back_as(skips[(k + 1) + (i - 1)], rest[i - 1]));
            }
        }
    } else {
        assert(options_from(inner, 2 * k + 1) == Some(Seq::<SkipOption>::empty()));
        assert(seq![o] + Seq::<SkipOption>::empty() =~= seq![o]);
    }
}

/// The tokens of what the build step writes into `#[always_context(..)]` read back,
/// by the attribute's settings, as the same skips: no options for no skips; else one
/// option for each skip, in order (`!` for `!`, the name for the others). With only
/// skips of macros, every option is known, so the settings are made and skip macros.
pub proof fn law_settings_read_back(ts: Seq<TokenTree>, skips: Seq<Skip>)
    requires
        attribute_tokens(ts, skips),
    ensures
        settings_options(ts) matches Some(o) && (skips.len() == 0 ==> o is None) && (skips.len() > 0 ==> (
        o matches Some(v) && v.len() == skips.len() && (forall|i: int|
            0 <= i < v.len() ==> reads_back_as(skips[i], #[trigger] v[i])))),
        (forall|i: int| 0 <= i < skips.len() ==> #[trigger] skips[i] == Skip::Macros || skips[i] == Skip::MacrosShort)
            ==> (settings_options(ts) matches Some(Some(v)) ==> forall|i: int|
            0 <= i < v.len() ==> known_option(#[trigger] v[i])),
{
    if skips.len() > 0 {
        let inner = ts[1]->Group_1@;
        lemma_options_read_back(inner, skips, 0);
        let v = options_from(inner, 0)->0;
        assert forall|i: int| 0 <= i < v.len() implies reads_back_as(skips[i], #[trigger] v[i]) by {
            assert(reads_back_as(skips[0 + i], v[i]));
        }
        if forall|i: int| 0 <= i < skips.len() ==> #[trigger] skips[i] == Skip::Macros || skips[i] == Skip::MacrosShort {
            assert forall|i: int| 0 <= i < v.len() implies known_option(#[trigger] v[i]) by {
                assert(reads_back_as(skips[i], v[i]));
            }
        }
    }
}

} // verus!
