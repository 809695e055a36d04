//! A builder that collects the tokens a macro produces.
use vstd::prelude::*;

use crate::token_tree::{Delimiter, TokenTree};

verus! {

/// The tokens collected so far.
pub struct MacroResult {
    result: Vec<TokenTree>,
}

impl View for MacroResult {
    type V = Seq<TokenTree>;

    closed spec fn view(&self) -> Seq<TokenTree> {
        self.result@
    }
}

impl Default for MacroResult {
    fn default() -> (r: Self)
        ensures
            r@ == Seq::<TokenTree>::empty(),
    {
        MacroResult { result: Vec::new() }
    }
}

impl MacroResult {
    /// An empty result.
    pub fn new() -> (r: Self)
        ensures
            r@ == Seq::<TokenTree>::empty(),
    {
        MacroResult { result: Vec::new() }
    }

    /// Appends tokens to the result.
    pub fn add(&mut self, item: Vec<TokenTree>)
        ensures
            final(self)@ == old(self)@ + item@,
    {
        let mut item = item;
        self.result.append(&mut item);
    }

    /// Wraps everything collected so far in braces.
    pub fn braced(&mut self)
        ensures
            final(self)@.len() == 1,
            final(self)@[0] matches TokenTree::Group(d, inner) && d == Delimiter::Brace && inner@ == old(self)@,
    {
        let mut inner: Vec<TokenTree> = Vec::new();
        std::mem::swap(&mut inner, &mut self.result);
        self.result.push(TokenTree::Group(Delimiter::Brace, inner));
    }

    /// The collected tokens.
    pub fn finalize(self) -> (r: Vec<TokenTree>)
        ensures
            r@ == self@,
    {
        self.result
    }
}

} // verus!
