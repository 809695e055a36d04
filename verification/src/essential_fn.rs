//! A handler function of the exhaustive traversal: its parameter types, its name,
//! and whether any node has called it.
use vstd::prelude::*;

use crate::fn_matching::{
    add_view, additional_scan, all_cands, calls_view, cands_view, collect_all_cands,
    inputs_all_present, inputs_check, plan_multi, plan_single, scan_additional, Candidate,
    FieldModel, FnCalls,
};
use crate::text::text_eq;
use crate::type_model::TypeModel;

verus! {

/// One parameter of a function signature.
pub enum FnArgModel {
    /// `self`, `&self` or `&mut self`.
    Receiver,
    /// A typed parameter.
    Typed(TypeModel),
}

/// The parts of a function signature that a handler is known by.
pub struct SignatureModel {
    pub ident: String,
    pub inputs: Vec<FnArgModel>,
}

/// Whether no parameter of the signature is a receiver.
pub open spec fn no_receiver(inputs: Seq<FnArgModel>) -> bool {
    forall|i: int| 0 <= i < inputs.len() ==> #[trigger] inputs[i] is Typed
}

/// The parameter types of a signature without a receiver.
pub open spec fn typed_inputs(inputs: Seq<FnArgModel>) -> Seq<TypeModel> {
    inputs.map_values(|a: FnArgModel| a->Typed_0)
}

/// The message of a handler that no node called.
pub open spec fn unused_message(ident: Seq<char>) -> Seq<char> {
    "Function "@ + ident + " was not used while genereting all_syntax_cases macro output"@
}

/// A handler of the traversal.
pub struct EssentialFnData {
    input_types: Vec<TypeModel>,
    ident: String,
    used_at_least_once: bool,
}

impl EssentialFnData {
    /// The types of the parameters.
    pub closed spec fn types(&self) -> Seq<TypeModel> {
        self.input_types@
    }

    /// The name of the handler.
    pub closed spec fn name(&self) -> Seq<char> {
        self.ident@
    }

    /// Whether the handler was called at least once (or needs no call).
    pub closed spec fn is_used(&self) -> bool {
        self.used_at_least_once
    }

    /// The name of the handler, as a string of its own.
    pub fn ident(&self) -> (r: String)
        ensures
            r@ == self.name(),
    {
        self.ident.clone()
    }

    fn collect_types(inputs: Vec<FnArgModel>) -> (r: Vec<TypeModel>)
        requires
            no_receiver(inputs@),
        ensures
            r@ == typed_inputs(inputs@),
    {
        let ghost orig = inputs@;
        let mut inputs = inputs;
        let n = inputs.len();
        let mut out: Vec<TypeModel> = Vec::new();
        let mut i: usize = 0;
        while i < n
            invariant
                n == orig.len(),
                no_receiver(orig),
                i <= n,
                inputs@ == orig.skip(i as int),
                out@ == typed_inputs(orig).take(i as int),
            decreases n - i,
        {
            let a = inputs.remove(0);
            assert(a == orig[i as int]);
            assert(orig[i as int] is Typed);
            match a {
                FnArgModel::Typed(t) => {
                    out.push(t);
                },
                FnArgModel::Receiver => {},
            }
            assert(inputs@ =~= orig.skip(i + 1));
            assert(out@ =~= typed_inputs(orig).take(i + 1));
            i = i + 1;
        }
        assert(typed_inputs(orig).take(n as int) =~= typed_inputs(orig));
        out
    }

    /// A handler that must be called by some node.
    pub fn new(sig: SignatureModel) -> (r: Self)
        requires
            no_receiver(sig.inputs@),
        ensures
            r.types() == typed_inputs(sig.inputs@),
            r.name() == sig.ident@,
            !r.is_used(),
    {
        let input_types = Self::collect_types(sig.inputs);
        EssentialFnData { input_types, ident: sig.ident, used_at_least_once: false }
    }

    /// A handler that no node needs to call.
    pub fn new_no_check(sig: SignatureModel) -> (r: Self)
        requires
            no_receiver(sig.inputs@),
        ensures
            r.types() == typed_inputs(sig.inputs@),
            r.name() == sig.ident@,
            r.is_used(),
    {
        let input_types = Self::collect_types(sig.inputs);
        EssentialFnData { input_types, ident: sig.ident, used_at_least_once: true }
    }

    /// The calls of the handler for a node with `fields` (reached through a prefix
    /// when `before_dot`), the additional input being `add_ident: add_ty`.
    /// `Ok(None)` when the handler does not fit the node; `Err` where the traversal
    /// stops with an error (a repeated additional input, an unsupported type, a list
    /// that is not borrowed, an additional input out of place). The handler counts as
    /// used once every parameter has a candidate.
    pub fn all_inputs_check(
        &mut self,
        fields: &Vec<FieldModel>,
        before_dot: bool,
        add_ident: &String,
        add_ty: &TypeModel,
    ) -> (r: Result<Option<FnCalls>, ()>)
        ensures
            match inputs_check(old(self).types(), fields@, before_dot, *add_ident, *add_ty) {
                Err(_) => r is Err,
                Ok(None) => r matches Ok(None),
                Ok(Some((calls, lists))) => r matches Ok(Some(fc)) && calls_view(fc.calls@) == calls
                    && fc.list_calls@ == lists,
            },
            final(self).types() == old(self).types(),
            final(self).name() == old(self).name(),
            final(self).is_used() == (old(self).is_used() || inputs_all_present(
                old(self).types(),
                fields@,
                *add_ident,
                *add_ty,
            )),
    {
        let ghost types = self.input_types@;
        let n = self.input_types.len();
        let add = match scan_additional(&self.input_types, add_ident, add_ty) {
            Err(()) => {
                return Err(());
            },
            Ok(a) => a,
        };
        let ghost add_g = add_view(add);
        assert(additional_scan(types, *add_ident, *add_ty, n as int) == Ok::<Option<(int, Candidate)>, ()>(add_g));
        let has_add = add.is_some();
        let cands = match collect_all_cands(&self.input_types, fields, add) {
            Err(()) => {
                return Err(());
            },
            Ok(c) => c,
        };
        let ghost cv = cands_view(cands@);
        assert(cv.len() == n);
        let mut k: usize = 0;
        while k < n
            invariant
                n == cands@.len(),
                cv == cands_view(cands@),
                all_cands(types, fields@, add_g, n as int) == Ok::<Seq<Seq<Candidate>>, ()>(cv),
                additional_scan(types, *add_ident, *add_ty, n as int) == Ok::<Option<(int, Candidate)>, ()>(add_g),
                types == self.input_types@,
                *self == *old(self),
                n == types.len(),
                k <= n,
                forall|q: int| 0 <= q < k ==> #[trigger] cv[q].len() > 0,
            decreases n - k,
        {
            if cands[k].len() == 0 {
                assert(cv[k as int].len() == 0);
                assert(!crate::fn_matching::all_present(cv));
                return Ok(None);
            }
            k = k + 1;
        }
        self.used_at_least_once = true;
        let multiple = if has_add {
            n == 2
        } else {
            n == 1
        };
        if multiple {
            match plan_multi(&cands, before_dot) {
                Err(()) => Err(()),
                Ok(fc) => Ok(Some(fc)),
            }
        } else {
            match plan_single(&cands, before_dot) {
                None => Ok(None),
                Some(args) => {
                    let mut calls: Vec<Vec<crate::fn_matching::ArgToken>> = Vec::new();
                    let ghost a = args@;
                    calls.push(args);
                    assert(calls_view(calls@) =~= seq![a]);
                    let fc = FnCalls { calls, list_calls: Vec::new() };
                    Ok(Some(fc))
                },
            }
        }
    }

    /// Checks that the handler was used: `Err` with the message that the macro stops
    /// with (it emits no output then), exactly when it was not.
    pub fn used_check(&self) -> (r: Result<(), String>)
        ensures
            r is Ok <==> self.is_used(),
            r matches Err(m) ==> m@ == unused_message(self.name()),
    {
        if self.used_at_least_once {
            Ok(())
        } else {
            let mut m = String::from_str("Function ");
            m.append(self.ident.as_str());
            m.append(" was not used while genereting all_syntax_cases macro output");
            Err(m)
        }
    }

    /// Whether the handler is called `name`.
    pub fn name_equals(&self, name: &str) -> (r: bool)
        ensures
            r == (self.name() == name@),
    {
        text_eq(self.ident.as_str(), name)
    }

    /// Marks the handler as used where it is called outside the traversal.
    pub fn used(&mut self)
        ensures
            final(self).is_used(),
            final(self).types() == old(self).types(),
            final(self).name() == old(self).name(),
    {
        self.used_at_least_once = true;
    }
}

} // verus!
