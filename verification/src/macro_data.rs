//! The data of one exhaustive traversal: the handler names, the additional input, and
//! the default, special and system handlers.
use vstd::prelude::*;

use crate::essential_fn::{no_receiver, typed_inputs, EssentialFnData, SignatureModel};
use crate::names::MacroFnNames;
use crate::text::text_eq;
use crate::system_table::{system_handler_name, system_handler_node, system_signatures, SYSTEM_HANDLER_COUNT};
use crate::type_model::{same_type, TypeModel};

verus! {

/// A default handler: the single-identifier path of each of its attributes (`None`
/// for any other attribute), and its signature.
pub struct AttrsSignature {
    pub attrs: Vec<Option<String>>,
    pub sig: SignatureModel,
}

/// Whether an attribute is `#[after_system]`.
pub open spec fn marks_after_system(a: Option<String>) -> bool {
    a matches Some(s) && s@ == "after_system"@
}

/// Whether an attribute `#[after_system]` is among `attrs`.
pub open spec fn is_after_system(attrs: Seq<Option<String>>) -> bool {
    exists|i: int| 0 <= i < attrs.len() && marks_after_system(#[trigger] attrs[i])
}

/// Whether the handler runs after the traversal of the node's children.
pub fn after_system(attrs: &Vec<Option<String>>) -> (r: bool)
    ensures
        r == is_after_system(attrs@),
{
    let n = attrs.len();
    let mut i: usize = 0;
    while i < n
        invariant
            n == attrs@.len(),
            i <= n,
            forall|j: int| 0 <= j < i ==> !marks_after_system(#[trigger] attrs@[j]),
        decreases n - i,
    {
        match &attrs[i] {
            Some(s) => {
                if text_eq(s.as_str(), "after_system") {
                    return true;
                }
            },
            None => {},
        }
        i = i + 1;
    }
    false
}

/// The parsed input of the traversal macro.
pub struct MacroInput {
    pub generated_fn_prefix: String,
    pub additional_input_type: TypeModel,
    pub system_functions_test: bool,
    pub default_cases: Vec<AttrsSignature>,
    pub special_cases: Vec<SignatureModel>,
}

/// The signatures of the default handlers that run after the children (`after`) or
/// before them, in their order.
pub open spec fn defaults_with(d: Seq<AttrsSignature>, after: bool) -> Seq<SignatureModel>
    decreases d.len(),
{
    if d.len() == 0 {
        Seq::empty()
    } else if is_after_system(d.last().attrs@) == after {
        defaults_with(d.drop_last(), after).push(d.last().sig)
    } else {
        defaults_with(d.drop_last(), after)
    }
}

/// `f` is the handler of `sig`, used or not.
pub open spec fn handler_of(f: EssentialFnData, sig: SignatureModel, used: bool) -> bool {
    f.types() == typed_inputs(sig.inputs@) && f.name() == sig.ident@ && f.is_used() == used
}

/// The handlers are those of the signatures, one for one.
pub open spec fn handlers_of(fs: Seq<EssentialFnData>, sigs: Seq<SignatureModel>, used: bool) -> bool {
    fs.len() == sigs.len() && forall|i: int| 0 <= i < fs.len() ==> handler_of(#[trigger] fs[i], sigs[i], used)
}

/// Every signature of the input is without a receiver.
pub open spec fn input_valid(input: MacroInput) -> bool {
    &&& forall|i: int| 0 <= i < input.default_cases@.len() ==> no_receiver(
        (#[trigger] input.default_cases@[i]).sig.inputs@,
    )
    &&& forall|i: int| 0 <= i < input.special_cases@.len() ==> no_receiver((#[trigger] input.special_cases@[i]).inputs@)
}

/// The system handlers for the handler names `names`, one for each kind of node in
/// the order of `system_handler_name`: each takes its node (`system_handler_node`) by
/// `&mut` and then the additional input, of a type written as `add_ty`; each is used
/// from the start exactly when `used`.
pub open spec fn system_handlers(fs: Seq<EssentialFnData>, names: MacroFnNames, add_ty: TypeModel, used: bool) -> bool {
    &&& fs.len() == SYSTEM_HANDLER_COUNT
    &&& forall|k: int|
        0 <= k < fs.len() ==> {
            &&& (#[trigger] fs[k]).name() == system_handler_name(names, k)
            &&& fs[k].types().len() == 2
            &&& fs[k].types()[0] matches TypeModel::Reference { lifetime: None, mutable: true, elem }
                && system_handler_node(*elem, k)
            &&& same_type(fs[k].types()[1], add_ty)
            &&& fs[k].is_used() == used
        }
}

/// The data of one traversal.
pub struct MacroData {
    pub fn_names: MacroFnNames,
    pub additional_input_ty: TypeModel,
    pub default_functions: Vec<EssentialFnData>,
    pub default_functions_after_system: Vec<EssentialFnData>,
    pub special_functions: Vec<EssentialFnData>,
    pub system_functions: Vec<EssentialFnData>,
}

fn handlers(sigs: Vec<SignatureModel>, used: bool) -> (r: Vec<EssentialFnData>)
    requires
        forall|i: int| 0 <= i < sigs@.len() ==> no_receiver((#[trigger] sigs@[i]).inputs@),
    ensures
        handlers_of(r@, sigs@, used),
{
    let ghost orig = sigs@;
    let mut sigs = sigs;
    let n = sigs.len();
    let mut out: Vec<EssentialFnData> = Vec::new();
    let mut i: usize = 0;
    while i < n
        invariant
            n == orig.len(),
            forall|j: int| 0 <= j < orig.len() ==> no_receiver((#[trigger] orig[j]).inputs@),
            i <= n,
            sigs@ == orig.skip(i as int),
            handlers_of(out@, orig.take(i as int), used),
        decreases n - i,
    {
        let sig = sigs.remove(0);
        assert(sig == orig[i as int]);
        let f = if used {
            EssentialFnData::new_no_check(sig)
        } else {
            EssentialFnData::new(sig)
        };
        out.push(f);
        assert(sigs@ =~= orig.skip(i + 1));
        assert(orig.take(i + 1) =~= orig.take(i as int).push(orig[i as int]));
        i = i + 1;
    }
    assert(orig.take(n as int) =~= orig);
    out
}

impl MacroData {
    /// The data of a traversal: the names for the input's prefix, a handler for each
    /// default signature (those marked `#[after_system]` apart), each special one and
    /// each system one. System handlers need no call unless the input asks to test
    /// them.
    pub fn new(input: MacroInput) -> (r: Self)
        requires
            input_valid(input),
        ensures
            r.fn_names.names_for(input.generated_fn_prefix@),
            r.additional_input_ty == input.additional_input_type,
            handlers_of(r.default_functions@, defaults_with(input.default_cases@, false), false),
            handlers_of(r.default_functions_after_system@, defaults_with(input.default_cases@, true), false),
            handlers_of(r.special_functions@, input.special_cases@, false),
            system_handlers(
                r.system_functions@,
                r.fn_names,
                input.additional_input_type,
                !input.system_functions_test,
            ),
    {
        let ghost d_orig = input.default_cases@;
        let MacroInput {
            generated_fn_prefix,
            additional_input_type: additional_type,
            system_functions_test,
            default_cases,
            special_cases,
        } = input;
        let fn_names = MacroFnNames::new(generated_fn_prefix.as_str());
        let system_sigs = system_signatures(&fn_names, &additional_type);
        let mut default_cases = default_cases;
        let n = default_cases.len();
        let mut default_functions: Vec<EssentialFnData> = Vec::new();
        let mut default_functions_after_system: Vec<EssentialFnData> = Vec::new();
        let mut i: usize = 0;
        assert(d_orig.take(0) =~= Seq::<AttrsSignature>::empty());
        while i < n
            invariant
                n == d_orig.len(),
                forall|j: int| 0 <= j < d_orig.len() ==> no_receiver((#[trigger] d_orig[j]).sig.inputs@),
                i <= n,
                default_cases@ == d_orig.skip(i as int),
                handlers_of(default_functions@, defaults_with(d_orig.take(i as int), false), false),
                handlers_of(
                    default_functions_after_system@,
                    defaults_with(d_orig.take(i as int), true),
                    false,
                ),
            decreases n - i,
        {
            let c = default_cases.remove(0);
            assert(c == d_orig[i as int]);
            assert(d_orig.take(i + 1).drop_last() =~= d_orig.take(i as int));
            assert(d_orig.take(i + 1).last() == d_orig[i as int]);
            let AttrsSignature { attrs, sig } = c;
            if after_system(&attrs) {
                default_functions_after_system.push(EssentialFnData::new(sig));
            } else {
                default_functions.push(EssentialFnData::new(sig));
            }
            assert(default_cases@ =~= d_orig.skip(i + 1));
            i = i + 1;
        }
        assert(d_orig.take(n as int) =~= d_orig);
        let special_functions = handlers(special_cases, false);
        let ghost sys = system_sigs@;
        assert forall|i: int| 0 <= i < sys.len() implies no_receiver((#[trigger] sys[i]).inputs@) by {
            assert forall|j: int| 0 <= j < sys[i].inputs@.len() implies #[trigger] sys[i].inputs@[j] is Typed by {
                assert(j == 0 || j == 1);
            }
        }
        let system_functions = handlers(system_sigs, !system_functions_test);
        assert forall|k: int| 0 <= k < system_functions@.len() implies {
            &&& (#[trigger] system_functions@[k]).name() == system_handler_name(fn_names, k)
            &&& system_functions@[k].types().len() == 2
            &&& system_functions@[k].types()[0] matches TypeModel::Reference { lifetime: None, mutable: true, elem }
                && system_handler_node(*elem, k)
            &&& same_type(system_functions@[k].types()[1], additional_type)
            &&& system_functions@[k].is_used() == !system_functions_test
        } by {
            assert(handler_of(system_functions@[k], sys[k], !system_functions_test));
            assert(typed_inputs(sys[k].inputs@)[0] == sys[k].inputs@[0]->Typed_0);
            assert(typed_inputs(sys[k].inputs@)[1] == sys[k].inputs@[1]->Typed_0);
        }
        MacroData {
            fn_names,
            additional_input_ty: additional_type,
            default_functions,
            default_functions_after_system,
            special_functions,
            system_functions,
        }
    }

    /// Marks the first system handler called `name` as used.
    pub fn system_fn_used(&mut self, name: &str)
        requires
            exists|i: int| 0 <= i < old(self).system_functions@.len() && (#[trigger] old(self).system_functions@[i]).name() == name@,
        ensures
            exists|j: int|
                0 <= j < old(self).system_functions@.len() && (#[trigger] old(self).system_functions@[j]).name() == name@
                    && (forall|k: int| 0 <= k < j ==> (#[trigger] old(self).system_functions@[k]).name() != name@)
                    && final(self).system_functions@.len() == old(self).system_functions@.len()
                    && (forall|k: int| 0 <= k < old(self).system_functions@.len() && k != j
                        ==> (#[trigger] final(self).system_functions@[k]) == old(self).system_functions@[k])
                    && final(self).system_functions@[j].is_used()
                    && final(self).system_functions@[j].name() == name@
                    && final(self).system_functions@[j].types() == old(self).system_functions@[j].types(),
            final(self).fn_names == old(self).fn_names,
            final(self).additional_input_ty == old(self).additional_input_ty,
            final(self).default_functions == old(self).default_functions,
            final(self).default_functions_after_system == old(self).default_functions_after_system,
            final(self).special_functions == old(self).special_functions,
    {
        let n = self.system_functions.len();
        let mut j: usize = 0;
        let mut found = false;
        while j < n && !found
            invariant
                n == self.system_functions@.len(),
                *self == *old(self),
                j <= n,
                exists|i: int| 0 <= i < n && (#[trigger] self.system_functions@[i]).name() == name@,
                found ==> j < n && self.system_functions@[j as int].name() == name@,
                forall|k: int| 0 <= k < j ==> (#[trigger] self.system_functions@[k]).name() != name@,
            decreases n - j, (if found { 0int } else { 1int }),
        {
            if self.system_functions[j].name_equals(name) {
                found = true;
            } else {
                j = j + 1;
            }
        }
        if !found {
            assert(false);
            return;
        }
        let ghost before = self.system_functions@;
        let mut f = self.system_functions.remove(j);
        f.used();
        self.system_functions.insert(j, f);
        assert forall|k: int| 0 <= k < n && k != j implies self.system_functions@[k] == before[k] by {}
        assert(self.system_functions@[j as int] == f);
    }
}

} // verus!
