//! The checks and the plan behind the attributes that let a procedural macro return
//! `anyhow::Result<TokenStream>`: the wrapper they generate calls the macro, and
//! turns an error into `compile_error!`.
use quote::ToTokens;
use vstd::prelude::*;

use crate::text::{remove_white_space, text_eq, without_white_space};

verus! {

/// The kind of procedural macro, found from its attribute.
#[derive(Debug, Clone, Copy, PartialEq, Eq, Structural)]
pub enum MacroKind {
    /// `#[proc_macro]` or `#[proc_macro_derive]`: on error only the error is emitted.
    FunctionLike,
    /// `#[proc_macro_attribute]`: on error the error is emitted, then the item.
    Attribute,
}

/// Why a function cannot be wrapped.
#[derive(Debug, Clone, Copy, PartialEq, Eq, Structural)]
pub enum WrapperError {
    /// The function has no return type, or another one than `Result<TokenStream>`.
    WrongReturnType,
    /// An attribute macro whose function does not have two arguments.
    MissingSecondArgument,
    /// An attribute macro whose second argument is `self`.
    SecondArgumentNotTyped,
    /// None of `#[proc_macro]`, `#[proc_macro_derive]`, `#[proc_macro_attribute]`.
    NoMacroAttribute,
    /// A `self` argument.
    SelfArgument,
}

/// How the wrapper is built.
pub struct WrapperPlan {
    pub kind: MacroKind,
    /// The position of the macro attribute, which moves to the wrapper.
    pub attr_index: usize,
    /// For each argument, whether the wrapper passes it on cloned (the second one).
    pub clone_arg: Vec<bool>,
}

/// The kind of procedural macro an attribute path names, if any.
pub open spec fn macro_kind_of(name: Seq<char>) -> Option<MacroKind> {
    if name == "proc_macro"@ || name == "proc_macro_derive"@ {
        Some(MacroKind::FunctionLike)
    } else if name == "proc_macro_attribute"@ {
        Some(MacroKind::Attribute)
    } else {
        None
    }
}

/// The return types that the wrapped function may have, for a given path of `anyhow`.
pub open spec fn return_type_ok(ty: Seq<char>, anyhow_path: Seq<char>) -> bool {
    let t = without_white_space(ty);
    let a = without_white_space(anyhow_path);
    t == a + "::Result<TokenStream>"@ || t == a + "::Result<proc_macro::TokenStream>"@
}

/// The texts of a list of strings.
pub open spec fn texts(v: Seq<String>) -> Seq<Seq<char>> {
    v.map_values(|s: String| s@)
}

/// `i` is the position of the first attribute that names a kind of procedural macro.
pub open spec fn first_macro_attr(names: Seq<Seq<char>>, i: int) -> bool {
    &&& 0 <= i < names.len()
    &&& macro_kind_of(names[i]) is Some
    &&& forall|j: int| 0 <= j < i ==> macro_kind_of(#[trigger] names[j]) is None
}

/// The outcome of the checks, in the order in which they are made: the return type,
/// the macro attribute (and, for an attribute macro, its second argument), then
/// every argument being typed.
pub open spec fn wrapper_outcome(
    return_type: Option<Seq<char>>,
    anyhow_path: Seq<char>,
    typed: Seq<bool>,
    names: Seq<Seq<char>>,
) -> Result<(MacroKind, int), WrapperError> {
    if !(return_type matches Some(t) && return_type_ok(t, anyhow_path)) {
        Err(WrapperError::WrongReturnType)
    } else if !exists|i: int| first_macro_attr(names, i) {
        Err(WrapperError::NoMacroAttribute)
    } else {
        let i = choose|i: int| first_macro_attr(names, i);
        let kind = macro_kind_of(names[i])->0;
        if kind == MacroKind::Attribute && typed.len() < 2 {
            Err(WrapperError::MissingSecondArgument)
        } else if kind == MacroKind::Attribute && !typed[1] {
            Err(WrapperError::SecondArgumentNotTyped)
        } else if exists|k: int| 0 <= k < typed.len() && !typed[k] {
            Err(WrapperError::SelfArgument)
        } else {
            Ok((kind, i))
        }
    }
}

fn macro_kind_of_name(name: &str) -> (r: Option<MacroKind>)
    ensures
        r == macro_kind_of(name@),
{
    if text_eq(name, "proc_macro") || text_eq(name, "proc_macro_derive") {
        Some(MacroKind::FunctionLike)
    } else if text_eq(name, "proc_macro_attribute") {
        Some(MacroKind::Attribute)
    } else {
        None
    }
}

fn check_return_type(ty: &str, anyhow_path: &str) -> (r: bool)
    ensures
        r == return_type_ok(ty@, anyhow_path@),
{
    let t = remove_white_space(ty);
    let a = remove_white_space(anyhow_path);
    let mut e1 = a.clone();
    e1.append("::Result<TokenStream>");
    let mut e2 = a.clone();
    e2.append("::Result<proc_macro::TokenStream>");
    text_eq(t.as_str(), e1.as_str()) || text_eq(t.as_str(), e2.as_str())
}

fn find_macro_attr(attr_names: &Vec<String>) -> (r: Option<(MacroKind, usize)>)
    ensures
        match r {
            None => forall|m: int| !first_macro_attr(texts(attr_names@), m),
            Some((k, i)) => first_macro_attr(texts(attr_names@), i as int) && macro_kind_of(
                attr_names@[i as int]@,
            ) == Some(k),
        },
{
    let n = attr_names.len();
    let mut i: usize = 0;
    while i < n
        invariant
            n == attr_names@.len(),
            i <= n,
            forall|j: int| 0 <= j < i ==> macro_kind_of(#[trigger] attr_names@[j]@) is None,
        decreases n - i,
    {
        if let Some(k) = macro_kind_of_name(attr_names[i].as_str()) {
            return Some((k, i));
        }
        i = i + 1;
    }
    assert forall|m: int| !first_macro_attr(texts(attr_names@), m) by {
        if 0 <= m < n {
            assert(macro_kind_of(attr_names@[m]@) is None);
        }
    }
    None
}

/// Checks a function to be wrapped and plans the wrapper, or says why it cannot be
/// wrapped.
#[verifier::loop_isolation(false)]
fn plan_or_error(
    return_type: Option<&str>,
    anyhow_path: &str,
    typed: &Vec<bool>,
    attr_names: &Vec<String>,
) -> (r: Result<WrapperPlan, WrapperError>)
    ensures
        match wrapper_outcome(
            match return_type { Some(t) => Some(t@), None => None },
            anyhow_path@,
            typed@,
            texts(attr_names@),
        ) {
            Err(e) => r == Err::<WrapperPlan, WrapperError>(e),
            Ok((kind, i)) => r is Ok && r->Ok_0.kind == kind && r->Ok_0.attr_index == i
                && r->Ok_0.clone_arg@.len() == typed@.len() && forall|k: int|
                0 <= k < typed@.len() ==> #[trigger] r->Ok_0.clone_arg@[k] == (k == 1),
        },
{
    let ghost rt = match return_type { Some(t) => Some(t@), None => None::<Seq<char>> };
    let ok = match return_type {
        Some(t) => check_return_type(t, anyhow_path),
        None => false,
    };
    if !ok {
        return Err(WrapperError::WrongReturnType);
    }
    let found = find_macro_attr(attr_names);
    match found {
        None => Err(WrapperError::NoMacroAttribute),
        Some((kind, index)) => {
            assert(first_macro_attr(texts(attr_names@), index as int));
            assert forall|m: int| first_macro_attr(texts(attr_names@), m) implies m == index by {
                if m < index {
                    assert(macro_kind_of(attr_names@[m]@) is None);
                } else if m > index {
                    assert(macro_kind_of(attr_names@[index as int]@) is None);
                }
            }
            if kind == MacroKind::Attribute {
                if typed.len() < 2 {
                    return Err(WrapperError::MissingSecondArgument);
                }
                if !typed[1] {
                    return Err(WrapperError::SecondArgumentNotTyped);
                }
            }
            let m = typed.len();
            let mut clone_arg: Vec<bool> = Vec::new();
            let mut k: usize = 0;
            while k < m
                invariant
                    m == typed@.len(),
                    k <= m,
                    clone_arg@.len() == k,
                    forall|j: int| 0 <= j < k ==> #[trigger] clone_arg@[j] == (j == 1),
                    forall|j: int| 0 <= j < k ==> typed@[j],
                decreases m - k,
            {
                if !typed[k] {
                    assert(!typed@[k as int]);
                    return Err(WrapperError::SelfArgument);
                }
                clone_arg.push(k == 1);
                k = k + 1;
            }
            Ok(WrapperPlan { kind, attr_index: index, clone_arg })
        },
    }
}

/// Checks whether a function can be wrapped: `return_type` is the printed return type
/// (`None` when there is none), `anyhow_path` the printed path of the `anyhow` crate,
/// `typed[k]` whether argument `k` is a typed argument (not `self`), and `attr_names`
/// the printed paths of the function's attributes. The error is the first check that
/// fails; the macro stops on it.
pub fn check_result_wrapper(
    return_type: Option<&str>,
    anyhow_path: &str,
    typed: &Vec<bool>,
    attr_names: &Vec<String>,
) -> (r: Result<(), WrapperError>)
    ensures
        match wrapper_outcome(
            match return_type { Some(t) => Some(t@), None => None },
            anyhow_path@,
            typed@,
            texts(attr_names@),
        ) {
            Err(e) => r == Err::<(), WrapperError>(e),
            Ok(_) => r is Ok,
        },
{
    match plan_or_error(return_type, anyhow_path, typed, attr_names) {
        Ok(_) => Ok(()),
        Err(e) => Err(e),
    }
}

/// The plan of the wrapper for a function that passes `check_result_wrapper`: the kind
/// of macro, the position of its attribute, and which arguments are passed on cloned
/// (the second one).
pub fn plan_result_wrapper(
    return_type: Option<&str>,
    anyhow_path: &str,
    typed: &Vec<bool>,
    attr_names: &Vec<String>,
) -> (r: WrapperPlan)
    requires
        wrapper_outcome(
            match return_type { Some(t) => Some(t@), None => None },
            anyhow_path@,
            typed@,
            texts(attr_names@),
        ) is Ok,
    ensures
        wrapper_outcome(
            match return_type { Some(t) => Some(t@), None => None },
            anyhow_path@,
            typed@,
            texts(attr_names@),
        ) == Ok::<(MacroKind, int), WrapperError>((r.kind, r.attr_index as int)),
        r.clone_arg@.len() == typed@.len(),
        forall|k: int| 0 <= k < typed@.len() ==> #[trigger] r.clone_arg@[k] == (k == 1),
{
    match plan_or_error(return_type, anyhow_path, typed, attr_names) {
        Ok(plan) => plan,
        Err(_) => {
            proof {
                assert(false);
            }
            WrapperPlan { kind: MacroKind::FunctionLike, attr_index: 0, clone_arg: Vec::new() }
        },
    }
}

/// The parts of the function item printed as `item` that the checks read, each with
/// its white space removed: the return type (`None` when there is none), whether each
/// argument is typed (not `self`), and the path of each attribute. `None` when `item`
/// is no function item.
pub uninterp spec fn fn_item_parts(item: Seq<char>) -> Option<(Option<Seq<char>>, Seq<bool>, Seq<Seq<char>>)>;

/// The text with its white space removed, for an optional text.
pub open spec fn opt_without_white_space(t: Option<Seq<char>>) -> Option<Seq<char>> {
    match t {
        None => None,
        Some(x) => Some(without_white_space(x)),
    }
}

/// `syn::parse_str::<syn::ItemFn>` on `item`, then the printed return type, whether
/// each argument is typed, and the printed path of each attribute. Which parts come
/// out is named: it depends on the text alone. The printed forms may differ in white
/// space from one printer to another, so only their white-space-free forms are named.
#[verifier::external_body]
fn parse_fn_item(item: &str) -> (r: Option<(Option<String>, Vec<bool>, Vec<String>)>)
    ensures
        match r {
            None => fn_item_parts(item@) is None,
            Some((rt, typed, names)) => fn_item_parts(item@) == Some(
                (
                    opt_without_white_space(
                        match rt {
                            None => None,
                            Some(t) => Some(t@),
                        },
                    ),
                    typed@,
                    names@.map_values(|n: String| without_white_space(n@)),
                ),
            ),
        },
{
    syn::parse_str::<syn::ItemFn>(item).ok().map(|f| (
        match &f.sig.output {
            syn::ReturnType::Default => None,
            syn::ReturnType::Type(_, t) => Some(t.to_token_stream().to_string()),
        },
        f.sig.inputs.iter().map(|a| matches!(a, syn::FnArg::Typed(_))).collect(),
        f.attrs.iter().map(|a| a.path().to_token_stream().to_string()).collect(),
    ))
}

/// The wrapper plan for the function item printed as `item`, `anyhow_path` being the
/// printed path of the `anyhow` crate: `Ok(None)` when `item` is no function item,
/// the first failing check as `wrapper_outcome` says, else the plan.
pub fn result_wrapper_plan(item: &str, anyhow_path: &str) -> (r: Result<Option<WrapperPlan>, WrapperError>)
    ensures
        match fn_item_parts(item@) {
            None => r == Ok::<Option<WrapperPlan>, WrapperError>(None),
            Some((rt, typed, names)) => match wrapper_outcome(rt, anyhow_path@, typed, names) {
                Err(e) => r == Err::<Option<WrapperPlan>, WrapperError>(e),
                Ok((kind, i)) => r matches Ok(Some(p)) && p.kind == kind && p.attr_index == i
                    && p.clone_arg@.len() == typed.len()
                    && forall|k: int| 0 <= k < typed.len() ==> #[trigger] p.clone_arg@[k] == (k == 1),
            },
        },
{
    match parse_fn_item(item) {
        None => Ok(None),
        Some((rt, typed, names)) => {
            let ghost rt_raw = match &rt {
                None => None::<Seq<char>>,
                Some(t) => Some(t@),
            };
            let rt_clean: Option<String> = match &rt {
                None => None,
                Some(t) => Some(remove_white_space(t.as_str())),
            };
            let mut clean: Vec<String> = Vec::new();
            let n = names.len();
            let mut i: usize = 0;
            while i < n
                invariant
                    n == names@.len(),
                    i <= n,
                    clean@.len() == i,
                    forall|j: int| 0 <= j < i ==> (#[trigger] clean@[j])@ == without_white_space(names@[j]@),
                decreases n - i,
            {
                clean.push(remove_white_space(names[i].as_str()));
                i = i + 1;
            }
            let ghost rt_spec = match &rt_clean {
                None => None::<Seq<char>>,
                Some(t) => Some(t@),
            };
            proof {
                assert(texts(clean@) =~= names@.map_values(|x: String| without_white_space(x@)));
                assert(rt_spec == opt_without_white_space(rt_raw));
            }
            let rt_ref: Option<&str> = match &rt_clean {
                None => None,
                Some(t) => Some(t.as_str()),
            };
            assert(texts(clean@) == (fn_item_parts(item@)->0).2);
            match check_result_wrapper(rt_ref, anyhow_path, &typed, &clean) {
                Err(e) => Err(e),
                Ok(()) => Ok(Some(plan_result_wrapper(rt_ref, anyhow_path, &typed, &clean))),
            }
        },
    }
}

/// The positions (in the original list of `n` attributes) of the attributes that the
/// `anyhow_result` wrapper copies: all but the macro attribute, which moves on its own.
pub fn copied_attr_indices(n: usize, attr_index: usize) -> (r: Vec<usize>)
    requires
        attr_index < n,
    ensures
        forall|j: int| 0 <= j < r@.len() ==> #[trigger] r@[j] < n,
        forall|j: int, k: int| 0 <= j < k < r@.len() ==> r@[j] < r@[k],
        forall|x: usize| x < n ==> (#[trigger] r@.contains(x) <==> x != attr_index),
{
    let mut r: Vec<usize> = Vec::new();
    let mut i: usize = 0;
    while i < n
        invariant
            i <= n,
            attr_index < n,
            forall|j: int| 0 <= j < r@.len() ==> #[trigger] r@[j] < i,
            forall|j: int, k: int| 0 <= j < k < r@.len() ==> r@[j] < r@[k],
            forall|x: usize| x < i ==> (#[trigger] r@.contains(x) <==> x != attr_index),
        decreases n - i,
    {
        let ghost old_r = r@;
        if i != attr_index {
            r.push(i);
            assert(r@[r@.len() - 1] == i);
        }
        assert forall|x: usize| x < i + 1 implies (#[trigger] r@.contains(x) <==> x != attr_index) by {
            if x < i {
                if r@.contains(x) {
                    let w = choose|w: int| 0 <= w < r@.len() && r@[w] == x;
                    if w < old_r.len() {
                        assert(old_r.contains(x));
                    }
                } else {
                    if old_r.contains(x) {
                        let w = choose|w: int| 0 <= w < old_r.len() && old_r[w] == x;
                        assert(r@[w] == x);
                    }
                }
            } else {
                if x != attr_index {
                    assert(r@[r@.len() - 1] == x);
                } else {
                    if r@.contains(x) {
                        let w = choose|w: int| 0 <= w < r@.len() && r@[w] == x;
                        assert(w < old_r.len());
                    }
                }
            }
        }
        i = i + 1;
    }
    r
}

/// The attributes `#[proc_macro]` and `#[proc_macro_derive]` mark function-like
/// macros (their error output is the error alone), `#[proc_macro_attribute]` marks
/// attribute macros (the item follows the error), and no other attribute marks a
/// procedural macro.
pub proof fn law_macro_attribute_kinds(name: Seq<char>)
    ensures
        macro_kind_of(name) == Some(MacroKind::FunctionLike) <==> (name == "proc_macro"@ || name
            == "proc_macro_derive"@),
        macro_kind_of(name) == Some(MacroKind::Attribute) <==> name == "proc_macro_attribute"@,
        macro_kind_of(name) is None <==> (name != "proc_macro"@ && name != "proc_macro_derive"@
            && name != "proc_macro_attribute"@),
{
    reveal_strlit("proc_macro");
    assert("proc_macro"@.len() == 10);
    reveal_strlit("proc_macro_derive");
    assert("proc_macro_derive"@.len() == 17);
    reveal_strlit("proc_macro_attribute");
    assert("proc_macro_attribute"@.len() == 20);
}

/// A function with an accepted return type and only typed arguments whose first
/// procedural-macro attribute is `#[proc_macro_derive]`, at position `i`, is wrapped
/// as a function-like macro whose attribute is the one at `i`.
pub proof fn law_derive_macro_wrapped(
    return_type: Seq<char>,
    anyhow_path: Seq<char>,
    typed: Seq<bool>,
    names: Seq<Seq<char>>,
    i: int,
)
    requires
        return_type_ok(return_type, anyhow_path),
        forall|k: int| 0 <= k < typed.len() ==> #[trigger] typed[k],
        0 <= i < names.len(),
        names[i] == "proc_macro_derive"@,
        forall|j: int| 0 <= j < i ==> macro_kind_of(#[trigger] names[j]) is None,
    ensures
        wrapper_outcome(Some(return_type), anyhow_path, typed, names) == Ok::<(MacroKind, int), WrapperError>(
            (MacroKind::FunctionLike, i),
        ),
{
    law_macro_attribute_kinds(names[i]);
    assert(first_macro_attr(names, i));
    let c = choose|c: int| first_macro_attr(names, c);
    if c < i {
        assert(macro_kind_of(names[c]) is None);
    } else if c > i {
        assert(macro_kind_of(names[i]) is None);
    }
    assert(c == i);
}

} // verus!
