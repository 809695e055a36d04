//! The head of the input of the attribute handling macros: an optional `&` or
//! `&mut` before the expression that is operated on.
use vstd::prelude::*;

use crate::text::text_eq;
use crate::token_tree::TokenTree;

verus! {

/// How the expression is borrowed.
#[derive(Debug, Clone, Copy, PartialEq, Eq, Structural)]
pub enum Reference {
    /// `&expr`
    Ref,
    /// `&mut expr`
    RefMut,
}

/// Whether a token is the punctuation `&`.
pub open spec fn is_amp(t: TokenTree) -> bool {
    t matches TokenTree::Punct { ch, .. } && ch == '&'
}

/// Whether a token is the keyword `mut`.
pub open spec fn is_mut(t: TokenTree) -> bool {
    t matches TokenTree::Ident(s) && s@ == "mut"@
}

/// The borrow that the input `ts` starts with, and how many tokens it takes.
pub open spec fn reference_prefix(ts: Seq<TokenTree>) -> (Option<Reference>, int) {
    if ts.len() > 0 && is_amp(ts[0]) {
        if ts.len() > 1 && is_mut(ts[1]) {
            (Some(Reference::RefMut), 2)
        } else {
            (Some(Reference::Ref), 1)
        }
    } else {
        (None, 0)
    }
}

/// Reads the borrow that the input starts with: the borrow, and how many tokens it
/// takes.
pub fn parse_reference(ts: &Vec<TokenTree>) -> (r: (Option<Reference>, usize))
    ensures
        (r.0, r.1 as int) == reference_prefix(ts@),
{
    let amp = ts.len() > 0 && match &ts[0] {
        TokenTree::Punct { ch, .. } => *ch == '&',
        _ => false,
    };
    if !amp {
        return (None, 0);
    }
    let is_mut_kw = ts.len() > 1 && match &ts[1] {
        TokenTree::Ident(s) => text_eq(s.as_str(), "mut"),
        _ => false,
    };
    if is_mut_kw {
        (Some(Reference::RefMut), 2)
    } else {
        (Some(Reference::Ref), 1)
    }
}


/// How the fields of the input are walked, by the borrow the input is given with.
#[derive(Debug, Clone, Copy, PartialEq, Eq, Structural)]
pub enum FieldsIter {
    /// `.iter()`, with `&`.
    Iter,
    /// `.iter_mut()`, with `&mut`.
    IterMut,
    /// `.into_iter()`, by value.
    IntoIter,
}

/// How the fields are walked for a borrow (`None` for a value).
pub fn fields_iteration(reference: Option<Reference>) -> (r: FieldsIter)
    ensures
        r == (match reference {
            Some(Reference::Ref) => FieldsIter::Iter,
            Some(Reference::RefMut) => FieldsIter::IterMut,
            None => FieldsIter::IntoIter,
        }),
{
    match reference {
        Some(Reference::Ref) => FieldsIter::Iter,
        Some(Reference::RefMut) => FieldsIter::IterMut,
        None => FieldsIter::IntoIter,
    }
}

/// Whether the search for attributes stops at the first attribute found: only when
/// a single attribute is asked for.
pub fn stops_at_first(attributes_len: usize) -> (r: bool)
    ensures
        r == (attributes_len == 1),
{
    attributes_len == 1
}

} // verus!
