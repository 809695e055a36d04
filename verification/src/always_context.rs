//! The decisions behind the `#[always_context]` attribute: its settings, the
//! attributes that switch context generation off or on, the argument attributes,
//! and the text of the generated context message.
use vstd::prelude::*;

use crate::readable::{readable, readable_token_stream};
use crate::text::{remove_white_space, starts_with, text_eq, without_white_space};
use crate::token_tree::{Delimiter, TokenTree};

verus! {

/// An option inside `skip(..)`: `!` or an identifier.
pub enum SkipOption {
    Bang,
    Ident(String),
}

/// Why the options of `#[always_context(..)]` were refused.
pub enum SettingsError {
    /// An identifier inside `skip(..)` that names no option.
    UnknownOption(String),
    /// The tokens are not `skip(..)` with options separated by commas.
    Syntax,
}

/// The settings of `#[always_context(..)]`: `skip(macros)` or `skip(!)` skips macros.
#[derive(Debug, Clone, Copy)]
pub struct Settings {
    pub skip_macros: bool,
}

/// Whether an option of `skip(..)` is known.
pub open spec fn known_option(o: SkipOption) -> bool {
    match o {
        SkipOption::Bang => true,
        SkipOption::Ident(n) => n@ == "macros"@,
    }
}

impl Settings {
    /// The settings for the options inside `skip(..)` (`None` when there is no
    /// `skip(..)`): every option must be `!` or `macros`; the first other identifier
    /// is refused; any option sets `skip_macros`.
    pub fn from_skip_options(options: Option<Vec<SkipOption>>) -> (r: Result<Settings, SettingsError>)
        ensures
            options is None ==> r == Ok::<Settings, SettingsError>(Settings { skip_macros: false }),
            options is Some && r is Ok ==> (forall|i: int|
                0 <= i < options->0@.len() ==> known_option(#[trigger] options->0@[i]))
                && r->Ok_0.skip_macros == (options->0@.len() > 0),
            r is Err ==> r->Err_0 is UnknownOption,
            options is Some && r is Err ==> exists|i: int|
                0 <= i < options->0@.len() && options->0@[i] == SkipOption::Ident(
                    r->Err_0->UnknownOption_0,
                ) && !known_option(options->0@[i]) && forall|j: int|
                    0 <= j < i ==> known_option(#[trigger] options->0@[j]),
    {
        match options {
            None => Ok(Settings { skip_macros: false }),
            Some(opts) => {
                let mut skip_macros = false;
                let n = opts.len();
                let ghost v = opts@;
                let mut i: usize = 0;
                while i < n
                    invariant
                        n == v.len(),
                        i <= n,
                        opts@ == v,
                        options == Some(opts),
                        forall|j: int| 0 <= j < i ==> known_option(#[trigger] v[j]),
                        skip_macros == (i > 0),
                    decreases n - i,
                {
                    match &opts[i] {
                        SkipOption::Bang => {
                            skip_macros = true;
                        },
                        SkipOption::Ident(name) => {
                            if text_eq(name.as_str(), "macros") {
                                skip_macros = true;
                            } else {
                                let name = name.clone();
                                assert(v[i as int] == SkipOption::Ident(name));
                                assert(!known_option(v[i as int]));
                                assert(options->0@ == v);
                                assert(options->0@[i as int] == SkipOption::Ident(name));
                                return Err(SettingsError::UnknownOption(name));
                            }
                        },
                    }
                    i = i + 1;
                }
                Ok(Settings { skip_macros })
            },
        }
    }
}

/// The option that a token inside `skip(..)` stands for: `!` or an identifier.
pub open spec fn option_token(t: TokenTree) -> Option<SkipOption> {
    match t {
        TokenTree::Punct { ch, joint: _ } => if ch == '!' {
            Some(SkipOption::Bang)
        } else {
            None
        },
        TokenTree::Ident(n) => Some(SkipOption::Ident(n)),
        _ => None,
    }
}

/// Whether the token is a comma.
pub open spec fn is_comma(t: TokenTree) -> bool {
    match t {
        TokenTree::Punct { ch, joint: _ } => ch == ',',
        _ => false,
    }
}

/// The options in `ts` from position `i` on, each `!` or an identifier, each followed
/// by a comma or not; `None` when another token stands where an option should.
pub open spec fn options_from(ts: Seq<TokenTree>, i: int) -> Option<Seq<SkipOption>>
    decreases ts.len() - i,
{
    if i < 0 || i >= ts.len() {
        Some(Seq::empty())
    } else {
        match option_token(ts[i]) {
            None => None,
            Some(o) => {
                let j = if i + 1 < ts.len() && is_comma(ts[i + 1]) {
                    i + 2
                } else {
                    i + 1
                };
                match options_from(ts, j) {
                    None => None,
                    Some(rest) => Some(seq![o] + rest),
                }
            },
        }
    }
}

/// The options that the argument tokens `ts` of `#[always_context(..)]` hold: no
/// tokens give no options (`Some(None)`); `skip(..)` gives the options inside;
/// anything else is refused (`None`).
pub open spec fn settings_options(ts: Seq<TokenTree>) -> Option<Option<Seq<SkipOption>>> {
    if ts.len() == 0 {
        Some(None)
    } else if ts.len() == 2 {
        match (ts[0], ts[1]) {
            (TokenTree::Ident(k), TokenTree::Group(Delimiter::Parenthesis, inner)) => if k@ == "skip"@ {
                match options_from(inner@, 0) {
                    None => None,
                    Some(v) => Some(Some(v)),
                }
            } else {
                None
            },
            _ => None,
        }
    } else {
        None
    }
}

fn read_options(ts: &Vec<TokenTree>) -> (r: Option<Vec<SkipOption>>)
    ensures
        match options_from(ts@, 0) {
            None => r is None,
            Some(v) => r matches Some(w) && w@ == v,
        },
{
    let n = ts.len();
    let mut out: Vec<SkipOption> = Vec::new();
    let mut i: usize = 0;
    while i < n
        invariant
            n == ts@.len(),
            i <= n + 1,
            options_from(ts@, 0) == match options_from(ts@, i as int) {
                None => None,
                Some(rest) => Some(out@ + rest),
            },
        decreases n + 1 - i,
    {
        let o = match &ts[i] {
            TokenTree::Punct { ch, joint: _ } => {
                if *ch == '!' {
                    SkipOption::Bang
                } else {
                    return None;
                }
            },
            TokenTree::Ident(name) => SkipOption::Ident(name.clone()),
            _ => {
                return None;
            },
        };
        let next = if i + 1 < n {
            match &ts[i + 1] {
                TokenTree::Punct { ch, joint: _ } => if *ch == ',' {
                    i + 2
                } else {
                    i + 1
                },
                _ => i + 1,
            }
        } else {
            i + 1
        };
        let ghost before = out@;
        assert(option_token(ts@[i as int]) == Some(o));
        out.push(o);
        proof {
            match options_from(ts@, next as int) {
                None => {},
                Some(rest) => {
                    assert(before + (seq![o] + rest) =~= out@ + rest);
                },
            }
        }
        i = next;
    }
    assert(options_from(ts@, i as int) == Some(Seq::<SkipOption>::empty()));
    assert(out@ + Seq::<SkipOption>::empty() =~= out@);
    Some(out)
}

impl Settings {
    /// The settings that the argument tokens of `#[always_context(..)]` give: read
    /// as `settings_options` says, then checked as `from_skip_options` says.
    pub fn from_tokens(ts: &Vec<TokenTree>) -> (r: Result<Settings, SettingsError>)
        ensures
            match settings_options(ts@) {
                None => r matches Err(SettingsError::Syntax),
                Some(None) => r == Ok::<Settings, SettingsError>(Settings { skip_macros: false }),
                Some(Some(v)) => {
                    &&& r is Ok ==> (forall|i: int| 0 <= i < v.len() ==> known_option(#[trigger] v[i]))
                        && r->Ok_0.skip_macros == (v.len() > 0)
                    &&& r is Err ==> r->Err_0 is UnknownOption && exists|i: int|
                        0 <= i < v.len() && v[i] == SkipOption::Ident(r->Err_0->UnknownOption_0)
                            && !known_option(v[i]) && forall|j: int| 0 <= j < i ==> known_option(#[trigger] v[j])
                },
            },
    {
        if ts.len() == 0 {
            return Settings::from_skip_options(None);
        }
        if ts.len() != 2 {
            return Err(SettingsError::Syntax);
        }
        match (&ts[0], &ts[1]) {
            (TokenTree::Ident(k), TokenTree::Group(Delimiter::Parenthesis, inner)) => {
                if !text_eq(k.as_str(), "skip") {
                    return Err(SettingsError::Syntax);
                }
                match read_options(inner) {
                    None => Err(SettingsError::Syntax),
                    Some(v) => Settings::from_skip_options(Some(v)),
                }
            },
            _ => Err(SettingsError::Syntax),
        }
    }
}

/// How context generation is switched for an item or expression.
#[derive(Debug, Clone, Copy, PartialEq, Eq, Structural)]
pub enum NoContext {
    /// `#[no_context]`: no `.with_context(context!())` at all.
    All,
    /// `#[no_context_inputs]`: context without function names and inputs.
    NoFuncInput,
    /// `#[enable_context]`: context switched back on.
    EnableBack,
}

/// The switch that an attribute's printed form names, if any.
pub open spec fn switch_of(text: Seq<char>) -> Option<NoContext> {
    if text == "#[no_context]"@ {
        Some(NoContext::All)
    } else if text == "#[no_context_inputs]"@ {
        Some(NoContext::NoFuncInput)
    } else if text == "#[enable_context]"@ {
        Some(NoContext::EnableBack)
    } else {
        None
    }
}

fn switch_of_text(text: &str) -> (r: Option<NoContext>)
    ensures
        r == switch_of(text@),
{
    if text_eq(text, "#[no_context]") {
        Some(NoContext::All)
    } else if text_eq(text, "#[no_context_inputs]") {
        Some(NoContext::NoFuncInput)
    } else if text_eq(text, "#[enable_context]") {
        Some(NoContext::EnableBack)
    } else {
        None
    }
}

/// `i` is the position of the first attribute text that names a switch.
pub open spec fn first_switch_at(texts: Seq<String>, i: int) -> bool {
    &&& 0 <= i < texts.len()
    &&& switch_of(texts[i]@) is Some
    &&& forall|j: int| 0 <= j < i ==> switch_of(#[trigger] texts[j]@) is None
}

/// No attribute text names a switch.
pub open spec fn no_switch(texts: Seq<String>) -> bool {
    forall|j: int| 0 <= j < texts.len() ==> switch_of(#[trigger] texts[j]@) is None
}

/// Finds the first attribute (given with its printed form in `texts`) that switches
/// context generation, removes it from `attrs`, and returns its switch.
pub fn always_context_attr_check<A>(attrs: &mut Vec<A>, texts: &Vec<String>) -> (r: Option<NoContext>)
    requires
        old(attrs)@.len() == texts@.len(),
    ensures
        no_switch(texts@) ==> r is None && final(attrs)@ == old(attrs)@,
        forall|i: int|
            first_switch_at(texts@, i) ==> r == switch_of(#[trigger] texts@[i]@) && final(attrs)@
                == old(attrs)@.remove(i),
{
    let n = texts.len();
    let mut i: usize = 0;
    while i < n
        invariant
            n == texts@.len(),
            attrs@ == old(attrs)@,
            old(attrs)@.len() == n,
            i <= n,
            forall|j: int| 0 <= j < i ==> switch_of(#[trigger] texts@[j]@) is None,
        decreases n - i,
    {
        let found = switch_of_text(texts[i].as_str());
        if let Some(k) = found {
            attrs.remove(i);
            assert forall|m: int| first_switch_at(texts@, m) implies m == i by {
                if m < i {
                    assert(switch_of(texts@[m]@) is None);
                } else if m > i {
                    assert(switch_of(texts@[i as int]@) is None);
                }
            }
            return Some(k);
        }
        i = i + 1;
    }
    None
}

/// Sets `no_context` from the first attribute that names a switch, and removes that
/// attribute; without such an attribute nothing changes.
pub fn handle_attributes<A>(attrs: &mut Vec<A>, texts: &Vec<String>, no_context: &mut Option<NoContext>)
    requires
        old(attrs)@.len() == texts@.len(),
    ensures
        no_switch(texts@) ==> final(attrs)@ == old(attrs)@ && *final(no_context) == *old(no_context),
        forall|i: int|
            first_switch_at(texts@, i) ==> *final(no_context) == switch_of(#[trigger] texts@[i]@)
                && final(attrs)@ == old(attrs)@.remove(i),
{
    if let Some(k) = always_context_attr_check(attrs, texts) {
        *no_context = Some(k);
    }
}

/// `true` when the segments of a path type (`None` for a type that is not a path)
/// start with `anyhow` followed by `Result`.
pub open spec fn is_anyhow_result(segments: Option<Seq<Seq<char>>>) -> bool {
    match segments {
        Some(s) => s.len() >= 2 && s[0] == "anyhow"@ && s[1] == "Result"@,
        None => false,
    }
}

/// Returns `true` if the type is `anyhow::Result` (given the identifiers of the
/// segments of its path, or `None` when it is not a path type).
pub fn anyhow_result_check(segments: Option<&Vec<String>>) -> (r: bool)
    ensures
        r == is_anyhow_result(
            match segments {
                Some(v) => Some(v@.map_values(|x: String| x@)),
                None => None,
            },
        ),
{
    match segments {
        Some(v) => {
            if v.len() == 0 {
                return false;
            }
            if !text_eq(v[0].as_str(), "anyhow") {
                return false;
            }
            if v.len() < 2 {
                return false;
            }
            text_eq(v[1].as_str(), "Result")
        },
        None => false,
    }
}

} // verus!

verus! {

/// How an argument is turned into a value for the context message.
#[derive(PartialEq, Eq, Structural)]
pub enum DisplayCall {
    /// The argument itself.
    Nothing,
    /// `.to_token_stream()` on the argument.
    ToTokenStream,
    /// `.iter().map(|el| el.to_token_stream()).collect::<TokenStream>()` on the argument.
    TokensVec,
    /// The tokens of the `#[context(..)]` attribute at this position, appended to the
    /// argument (a method call such as `.len()`).
    Custom(usize),
}

/// What the `#[context(..)]` attributes of one argument ask for.
pub struct ArgData {
    pub display_fn_call: DisplayCall,
    /// Format with `Display` rather than `Debug`.
    pub display: bool,
    /// Whether this is the copy of the argument used for the context message.
    pub duplicate: bool,
    /// Leave the argument out of the context message.
    pub ignore: bool,
}

/// A spec view of `ArgData`.
pub struct ArgDataView {
    pub display_fn_call: DisplayCall,
    pub display: bool,
    pub duplicate: bool,
    pub ignore: bool,
}

impl ArgData {
    pub open spec fn spec_view(&self) -> ArgDataView {
        ArgDataView {
            display_fn_call: self.display_fn_call,
            display: self.display,
            duplicate: self.duplicate,
            ignore: self.ignore,
        }
    }
}

/// The keyword of a `#[context(..)]` attribute: its tokens without white space.
pub open spec fn arg_keyword(tokens: Seq<char>) -> Seq<char> {
    without_white_space(tokens)
}

/// Whether a `#[context(..)]` attribute with these tokens is understood (and so removed).
pub open spec fn arg_attr_known(tokens: Seq<char>) -> bool {
    let k = arg_keyword(tokens);
    k == "display"@ || k == "tokens"@ || k == "tokens_vec"@ || k == "ignore"@ || k == "ignored"@
        || k == "no"@ || (k.len() >= 1 && k[0] == '.')
}

/// The effect of the `#[context(..)]` attribute with these tokens at position `index`.
pub open spec fn arg_step(d: ArgDataView, tokens: Seq<char>, index: nat) -> ArgDataView {
    let k = arg_keyword(tokens);
    if k == "display"@ {
        ArgDataView { display: true, ..d }
    } else if k == "tokens"@ {
        ArgDataView { display: true, display_fn_call: DisplayCall::ToTokenStream, ..d }
    } else if k == "tokens_vec"@ {
        ArgDataView { display: true, display_fn_call: DisplayCall::TokensVec, ..d }
    } else if k == "ignore"@ || k == "ignored"@ || k == "no"@ {
        ArgDataView { ignore: true, ..d }
    } else if k.len() >= 1 && k[0] == '.' {
        ArgDataView { display_fn_call: DisplayCall::Custom(index as usize), ..d }
    } else {
        d
    }
}

/// The data after the first `n` attributes (`None` for an attribute that is not a
/// `#[context(..)]` list, else its tokens as printed).
pub open spec fn arg_data_after(d: ArgDataView, lists: Seq<Option<String>>, n: int) -> ArgDataView
    decreases n,
{
    if n <= 0 {
        d
    } else {
        let before = arg_data_after(d, lists, n - 1);
        match lists[n - 1] {
            Some(t) => arg_step(before, t@, (n - 1) as nat),
            None => before,
        }
    }
}

/// Whether the attribute with this entry stays on the argument.
pub open spec fn arg_attr_stays(entry: Option<String>) -> bool {
    match entry {
        Some(t) => !arg_attr_known(t@),
        None => true,
    }
}

/// The attributes from position `i` on that stay, in order.
pub open spec fn staying_attrs<A>(attrs: Seq<A>, lists: Seq<Option<String>>, i: int) -> Seq<A>
    decreases attrs.len() - i,
{
    if i < 0 || i >= attrs.len() {
        Seq::empty()
    } else if arg_attr_stays(lists[i]) {
        seq![attrs[i]] + staying_attrs(attrs, lists, i + 1)
    } else {
        staying_attrs(attrs, lists, i + 1)
    }
}

fn arg_attr_apply(data: &mut ArgData, tokens: &str, index: usize) -> (known: bool)
    ensures
        final(data).spec_view() == arg_step(old(data).spec_view(), tokens@, index as nat),
        known == arg_attr_known(tokens@),
{
    let k = remove_white_space(tokens);
    let ks = k.as_str();
    if text_eq(ks, "display") {
        data.display = true;
        true
    } else if text_eq(ks, "tokens") {
        data.display = true;
        data.display_fn_call = DisplayCall::ToTokenStream;
        true
    } else if text_eq(ks, "tokens_vec") {
        data.display = true;
        data.display_fn_call = DisplayCall::TokensVec;
        true
    } else if text_eq(ks, "ignore") || text_eq(ks, "ignored") || text_eq(ks, "no") {
        data.ignore = true;
        true
    } else if starts_with(ks, ".") {
        proof {
            reveal_strlit(".");
            assert(k@.take(1)[0] == k@[0]);
        }
        data.display_fn_call = DisplayCall::Custom(index);
        true
    } else {
        proof {
            reveal_strlit(".");
            if k@.len() >= 1 && k@[0] == '.' {
                assert(k@.take(1) =~= "."@);
            }
        }
        false
    }
}

/// Applies the `#[context(..)]` attributes of an argument, in order, and removes
/// every one of them that it understands: `display`, `tokens`, `tokens_vec`,
/// `ignore`/`ignored`/`no`, and a method call starting with `.`.
/// `lists[i]` is the printed tokens of `attrs[i]` when that is a `#[context(..)]` list.
pub fn handle_arg_attrs<A>(attrs: &mut Vec<A>, lists: &Vec<Option<String>>, data: &mut ArgData)
    requires
        old(attrs)@.len() == lists@.len(),
    ensures
        final(data).spec_view() == arg_data_after(old(data).spec_view(), lists@, lists@.len() as int),
        final(attrs)@ == staying_attrs(old(attrs)@, lists@, 0),
{
    let n = lists.len();
    let mut stays: Vec<bool> = Vec::new();
    let mut i: usize = 0;
    while i < n
        invariant
            n == lists@.len(),
            i <= n,
            stays@.len() == i,
            forall|j: int| 0 <= j < i ==> #[trigger] stays@[j] == arg_attr_stays(lists@[j]),
            data.spec_view() == arg_data_after(old(data).spec_view(), lists@, i as int),
            attrs@ == old(attrs)@,
        decreases n - i,
    {
        match &lists[i] {
            Some(t) => {
                let known = arg_attr_apply(data, t.as_str(), i);
                stays.push(!known);
            },
            None => {
                stays.push(true);
            },
        }
        i = i + 1;
    }
    let mut k: usize = n;
    assert(old(attrs)@.take(n as int) =~= old(attrs)@);
    while k > 0
        invariant
            n == lists@.len(),
            n == old(attrs)@.len(),
            k <= n,
            stays@.len() == n,
            forall|j: int| 0 <= j < n ==> #[trigger] stays@[j] == arg_attr_stays(lists@[j]),
            attrs@ == old(attrs)@.take(k as int) + staying_attrs(old(attrs)@, lists@, k as int),
        decreases k,
    {
        k = k - 1;
        let ghost prev = attrs@;
        if !stays[k] {
            attrs.remove(k);
            assert(attrs@ =~= old(attrs)@.take(k as int) + staying_attrs(
                old(attrs)@,
                lists@,
                k as int,
            ));
        } else {
            assert(attrs@ =~= old(attrs)@.take(k as int) + staying_attrs(
                old(attrs)@,
                lists@,
                k as int,
            ));
        }
    }
    assert(old(attrs)@.take(0) + staying_attrs(old(attrs)@, lists@, 0) =~= staying_attrs(
        old(attrs)@,
        lists@,
        0,
    ));
}

/// The text of the generated context message: the readable form of the call, and,
/// when there are arguments, `Arguments:` followed by one `name: {}` entry per
/// argument.
pub open spec fn context_message(call: Seq<char>, inputs: Seq<String>) -> Seq<char> {
    if inputs.len() == 0 {
        readable(call)
    } else {
        readable(call) + "\r\n\r\nArguments:\r\n"@ + argument_entries(inputs, inputs.len() as int)
    }
}

/// The entries of the first `n` arguments.
pub open spec fn argument_entries(inputs: Seq<String>, n: int) -> Seq<char>
    decreases n,
{
    if n <= 0 {
        Seq::empty()
    } else {
        argument_entries(inputs, n - 1) + readable(inputs[n - 1]@) + ": {}\r\n\r\n"@
    }
}

/// Builds the format string of the context message for a call (printed tokens in
/// `call`) and its arguments (printed tokens in `inputs`).
pub fn context_call_message(call: &str, inputs: &Vec<String>) -> (r: String)
    ensures
        r@ == context_message(call@, inputs@),
{
    let mut call_str = readable_token_stream(call);
    if inputs.len() != 0 {
        call_str.append("\r\n\r\nArguments:\r\n");
        let n = inputs.len();
        let mut i: usize = 0;
        while i < n
            invariant
                n == inputs@.len(),
                i <= n,
                call_str@ == readable(call@) + "\r\n\r\nArguments:\r\n"@ + argument_entries(
                    inputs@,
                    i as int,
                ),
            decreases n - i,
        {
            let entry = readable_token_stream(inputs[i].as_str());
            call_str.append(entry.as_str());
            call_str.append(": {}\r\n\r\n");
            i = i + 1;
        }
    }
    call_str
}

/// Each switch attribute has its own meaning, and only its exact printed form has it:
/// `#[no_context]` switches context off entirely, `#[no_context_inputs]` keeps the
/// context but without the call and its inputs, `#[enable_context]` switches it back
/// on; any other attribute switches nothing.
pub proof fn law_switch_attributes(text: Seq<char>)
    ensures
        switch_of(text) == Some(NoContext::All) <==> text == "#[no_context]"@,
        switch_of(text) == Some(NoContext::NoFuncInput) <==> text == "#[no_context_inputs]"@,
        switch_of(text) == Some(NoContext::EnableBack) <==> text == "#[enable_context]"@,
        switch_of(text) is None <==> (text != "#[no_context]"@ && text != "#[no_context_inputs]"@
            && text != "#[enable_context]"@),
{
    reveal_strlit("#[no_context]");
    assert("#[no_context]"@.len() == 13);
    reveal_strlit("#[no_context_inputs]");
    assert("#[no_context_inputs]"@.len() == 20);
    reveal_strlit("#[enable_context]");
    assert("#[enable_context]"@.len() == 17);
}

/// The last `#[context(..)]` attribute of an argument decides how it is shown, whatever
/// came before: `tokens` shows it through `.to_token_stream()`, `tokens_vec` through
/// the token stream of each element, both with `Display`; `display` switches to
/// `Display` and keeps the call chosen before.
pub proof fn law_arg_display_calls(d: ArgDataView, lists: Seq<Option<String>>, n: int)
    requires
        0 < n <= lists.len(),
        lists[n - 1] is Some,
    ensures
        without_white_space(lists[n - 1]->0@) == "tokens"@ ==> arg_data_after(d, lists, n).display
            && arg_data_after(d, lists, n).display_fn_call == DisplayCall::ToTokenStream,
        without_white_space(lists[n - 1]->0@) == "tokens_vec"@ ==> arg_data_after(d, lists, n).display
            && arg_data_after(d, lists, n).display_fn_call == DisplayCall::TokensVec,
        without_white_space(lists[n - 1]->0@) == "display"@ ==> arg_data_after(d, lists, n).display
            && arg_data_after(d, lists, n).display_fn_call == arg_data_after(d, lists, n - 1).display_fn_call,
        without_white_space(lists[n - 1]->0@).len() > 0 && without_white_space(lists[n - 1]->0@)[0] == '.'
            ==> arg_data_after(d, lists, n).display_fn_call == DisplayCall::Custom((n - 1) as usize)
            && arg_data_after(d, lists, n).display == arg_data_after(d, lists, n - 1).display,
        arg_data_after(d, lists, n).duplicate == arg_data_after(d, lists, n - 1).duplicate,
        arg_data_after(d, lists, n).ignore == (arg_data_after(d, lists, n - 1).ignore || without_white_space(
            lists[n - 1]->0@,
        ) == "ignore"@ || without_white_space(lists[n - 1]->0@) == "ignored"@ || without_white_space(
            lists[n - 1]->0@,
        ) == "no"@),
{
    reveal_strlit("tokens");
    assert("tokens"@.len() == 6);
    reveal_strlit("tokens_vec");
    assert("tokens_vec"@.len() == 10);
    reveal_strlit("display");
    assert("display"@.len() == 7);
    reveal_strlit("ignore");
    assert("ignore"@.len() == 6);
    reveal_strlit("ignored");
    assert("ignored"@.len() == 7);
    reveal_strlit("no");
    assert("no"@.len() == 2);
    assert("tokens"@[0] != "ignore"@[0]);
    assert("display"@[0] != "ignored"@[0]);
}

/// The `#[context(..)]` attributes that are understood, and so taken off the
/// argument, are exactly `display`, `tokens`, `tokens_vec`, `ignore`, `ignored`, `no`
/// and a method call starting with `.` (white space aside); any other stays.
pub proof fn law_arg_attrs_taken_off(tokens: Seq<char>)
    ensures
        arg_attr_known(tokens) <==> ({
            let k = without_white_space(tokens);
            k == "display"@ || k == "tokens"@ || k == "tokens_vec"@ || k == "ignore"@ || k == "ignored"@
                || k == "no"@ || (k.len() > 0 && k[0] == '.')
        }),
{
}

} // verus!
