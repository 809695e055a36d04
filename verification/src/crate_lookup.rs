//! Naming a crate from generated code, once the manifest has told where it stands.
use vstd::prelude::*;

use crate::token_tree::TokenTree;

verus! {

/// What the manifest of the crate being compiled says of a dependency.
pub enum FoundCrate {
    /// The dependency is the crate being compiled itself.
    Itself,
    /// The dependency is present under this name (renamed or not).
    Name(String),
    /// The dependency is missing.
    Missing,
}

/// Whether a token is the identifier `crate`.
pub open spec fn is_crate_ident(t: TokenTree) -> bool {
    t matches TokenTree::Ident(s) && s@ == "crate"@
}

/// The path of a crate as found, followed by `after_name`: `crate` for the crate
/// itself, its name else; `None` when it is missing.
pub fn crate_path(found: FoundCrate, after_name: Vec<TokenTree>) -> (r: Option<Vec<TokenTree>>)
    ensures
        match found {
            FoundCrate::Itself => r matches Some(v) && v@.len() == after_name@.len() + 1 && is_crate_ident(v@[0])
                && v@.drop_first() == after_name@,
            FoundCrate::Name(n) => r matches Some(v) && v@ == seq![TokenTree::Ident(n)] + after_name@,
            FoundCrate::Missing => r is None,
        },
{
    let first = match found {
        FoundCrate::Itself => TokenTree::Ident(String::from_str("crate")),
        FoundCrate::Name(n) => TokenTree::Ident(n),
        FoundCrate::Missing => {
            return None;
        },
    };
    let ghost a = after_name@;
    let mut v: Vec<TokenTree> = Vec::new();
    v.push(first);
    let mut after_name = after_name;
    v.append(&mut after_name);
    assert(v@.drop_first() =~= a);
    proof {
        reveal_strlit("crate");
    }
    Some(v)
}

/// The position of the first crate of a list that is present.
pub fn first_found(found: &Vec<FoundCrate>) -> (r: Option<usize>)
    ensures
        match r {
            Some(i) => i < found@.len() && !(found@[i as int] is Missing) && forall|j: int|
                0 <= j < i ==> found@[j] is Missing,
            None => forall|j: int| 0 <= j < found@.len() ==> found@[j] is Missing,
        },
{
    let n = found.len();
    let mut i: usize = 0;
    while i < n
        invariant
            n == found@.len(),
            i <= n,
            forall|j: int| 0 <= j < i ==> found@[j] is Missing,
        decreases n - i,
    {
        match &found[i] {
            FoundCrate::Missing => {},
            _ => {
                return Some(i);
            },
        }
        i = i + 1;
    }
    None
}

/// The message of a macro that needs a crate missing from the dependencies.
pub open spec fn crate_missing_text(for_macro: Seq<char>, crate_name: Seq<char>) -> Seq<char> {
    "Using "@ + for_macro + " requires `"@ + crate_name + "` crate to be present in dependencies! You can add it with `"@
        + crate_name + " = \"*\"` in your Cargo.toml dependencies or with `cargo add "@ + crate_name + "` command."@
}

/// The message of a macro that needs a crate (or the root crate) missing from the
/// dependencies.
pub open spec fn root_crate_missing_text(crate_name: Seq<char>, for_macro: Seq<char>) -> Seq<char> {
    "Using "@ + for_macro + " requires `"@ + crate_name
        + "` (or `easy-macros` crate) to be present in dependencies! You can add it with `"@ + crate_name
        + " = \"*\"` in your Cargo.toml dependencies or with `cargo add "@ + crate_name + "` command."@
}

/// The message of a macro that needs a crate missing from the dependencies.
pub fn crate_missing_panic(for_macro: &str, crate_name: &str) -> (r: String)
    ensures
        r@ == crate_missing_text(for_macro@, crate_name@),
{
    let mut m = String::from_str("Using ");
    m.append(for_macro);
    m.append(" requires `");
    m.append(crate_name);
    m.append("` crate to be present in dependencies! You can add it with `");
    m.append(crate_name);
    m.append(" = \"*\"` in your Cargo.toml dependencies or with `cargo add ");
    m.append(crate_name);
    m.append("` command.");
    m
}

/// The message of a macro that needs a crate (or the root crate) missing from the
/// dependencies.
pub fn root_crate_missing_panic(crate_name: &str, for_macro: &str) -> (r: String)
    ensures
        r@ == root_crate_missing_text(crate_name@, for_macro@),
{
    let mut m = String::from_str("Using ");
    m.append(for_macro);
    m.append(" requires `");
    m.append(crate_name);
    m.append("` (or `easy-macros` crate) to be present in dependencies! You can add it with `");
    m.append(crate_name);
    m.append(" = \"*\"` in your Cargo.toml dependencies or with `cargo add ");
    m.append(crate_name);
    m.append("` command.");
    m
}

} // verus!
