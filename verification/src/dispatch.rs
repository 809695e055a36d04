//! Which handlers a node of the traversal calls: the first special handler that fits
//! it, or else every default and system handler that fits it.
use vstd::prelude::*;

use crate::essential_fn::EssentialFnData;
use crate::fn_matching::{calls_view, inputs_all_present, inputs_check, ArgToken, FieldModel, FnCalls, ListCall,
};
use crate::macro_data::MacroData;
use crate::type_model::TypeModel;

verus! {

/// Fields that a handler is matched against, reached through a prefix when
/// `before_dot`.
pub struct FieldSet {
    pub fields: Vec<FieldModel>,
    pub before_dot: bool,
}

/// The calls planned for one handler, with the handler's name.
pub struct HandlerCalls {
    pub name: String,
    pub calls: FnCalls,
}

/// The planned calls of a handler as values: its name, the argument lists of its
/// calls, and its calls over list elements.
pub open spec fn hc_view(hc: HandlerCalls) -> (Seq<char>, Seq<Seq<ArgToken>>, Seq<ListCall>) {
    (hc.name@, calls_view(hc.calls.calls@), hc.calls.list_calls@)
}

/// The name and parameter types of each handler.
pub open spec fn sigs_of(fs: Seq<EssentialFnData>) -> Seq<(Seq<char>, Seq<TypeModel>)> {
    fs.map_values(|f: EssentialFnData| (f.name(), f.types()))
}

/// The calls of a handler with parameter types `types` for the first field set (from
/// `j` on) that it fits.
pub open spec fn sets_first(
    types: Seq<TypeModel>,
    sets: Seq<FieldSet>,
    ai: String,
    at: TypeModel,
    j: int,
) -> Result<Option<(Seq<Seq<ArgToken>>, Seq<ListCall>)>, ()>
    decreases sets.len() - j,
{
    if j < 0 || j >= sets.len() {
        Ok(None)
    } else {
        match inputs_check(types, sets[j].fields@, sets[j].before_dot, ai, at) {
            Err(_) => Err(()),
            Ok(Some(p)) => Ok(Some(p)),
            Ok(None) => sets_first(types, sets, ai, at, j + 1),
        }
    }
}

/// The calls of the first handler (from `k` on) that fits one of the field sets.
pub open spec fn special_first(
    ts: Seq<(Seq<char>, Seq<TypeModel>)>,
    sets: Seq<FieldSet>,
    ai: String,
    at: TypeModel,
    k: int,
) -> Result<Option<(Seq<char>, Seq<Seq<ArgToken>>, Seq<ListCall>)>, ()>
    decreases ts.len() - k,
{
    if k < 0 || k >= ts.len() {
        Ok(None)
    } else {
        match sets_first(ts[k].1, sets, ai, at, 0) {
            Err(_) => Err(()),
            Ok(Some(p)) => Ok(Some((ts[k].0, p.0, p.1))),
            Ok(None) => special_first(ts, sets, ai, at, k + 1),
        }
    }
}

/// How many field sets (from `j` on) a handler is checked against: up to the first
/// that it fits, or that stops the traversal, or all.
pub open spec fn sets_checked(types: Seq<TypeModel>, sets: Seq<FieldSet>, ai: String, at: TypeModel, j: int) -> int
    decreases sets.len() - j,
{
    if j < 0 || j >= sets.len() {
        sets.len() as int
    } else {
        match inputs_check(types, sets[j].fields@, sets[j].before_dot, ai, at) {
            Ok(None) => sets_checked(types, sets, ai, at, j + 1),
            _ => j + 1,
        }
    }
}

/// Whether the handler has every parameter filled by one of the first `n` sets.
pub open spec fn sets_present(types: Seq<TypeModel>, sets: Seq<FieldSet>, ai: String, at: TypeModel, n: int) -> bool {
    exists|j: int| 0 <= j < n && inputs_all_present(types, #[trigger] sets[j].fields@, ai, at)
}

/// The position of the special handler (from `k` on) that is checked last: the first
/// that fits or stops the traversal, or past the last.
pub open spec fn special_index(ts: Seq<(Seq<char>, Seq<TypeModel>)>, sets: Seq<FieldSet>, ai: String, at: TypeModel, k: int) -> int
    decreases ts.len() - k,
{
    if k < 0 || k >= ts.len() {
        ts.len() as int
    } else {
        match sets_first(ts[k].1, sets, ai, at, 0) {
            Ok(None) => special_index(ts, sets, ai, at, k + 1),
            _ => k,
        }
    }
}

/// The calls of every one of the first `k` handlers that fits the fields, in order.
pub open spec fn collect_calls(
    ts: Seq<(Seq<char>, Seq<TypeModel>)>,
    fields: Seq<FieldModel>,
    before_dot: bool,
    ai: String,
    at: TypeModel,
    k: int,
) -> Result<Seq<(Seq<char>, Seq<Seq<ArgToken>>, Seq<ListCall>)>, ()>
    decreases k,
{
    if k <= 0 {
        Ok(Seq::empty())
    } else {
        match collect_calls(ts, fields, before_dot, ai, at, k - 1) {
            Err(_) => Err(()),
            Ok(s) => match inputs_check(ts[k - 1].1, fields, before_dot, ai, at) {
                Err(_) => Err(()),
                Ok(None) => Ok(s),
                Ok(Some(p)) => Ok(s.push((ts[k - 1].0, p.0, p.1))),
            },
        }
    }
}

/// The calls of the default handlers, then of the system handlers, then (when
/// `with_after`) of the defaults marked `#[after_system]`, that fit the fields.
pub open spec fn defaults_outcome(
    d: MacroData,
    fields: Seq<FieldModel>,
    before_dot: bool,
    ai: String,
    at: TypeModel,
    with_after: bool,
) -> Result<Seq<(Seq<char>, Seq<Seq<ArgToken>>, Seq<ListCall>)>, ()> {
    let dl = d.default_functions@;
    let sl = d.system_functions@;
    let al = d.default_functions_after_system@;
    match collect_calls(sigs_of(dl), fields, before_dot, ai, at, dl.len() as int) {
        Err(_) => Err(()),
        Ok(a) => match collect_calls(sigs_of(sl), fields, before_dot, ai, at, sl.len() as int) {
            Err(_) => Err(()),
            Ok(b) => if with_after {
                match collect_calls(sigs_of(al), fields, before_dot, ai, at, al.len() as int) {
                    Err(_) => Err(()),
                    Ok(c) => Ok(a + b + c),
                }
            } else {
                Ok(a + b)
            },
        },
    }
}

/// The calls for a node: those of the first special handler that fits one of the
/// field sets, or else those of every default and system handler that fits `fields`.
pub open spec fn node_outcome(
    d: MacroData,
    sets: Seq<FieldSet>,
    fields: Seq<FieldModel>,
    before_dot: bool,
    ai: String,
    at: TypeModel,
    with_after: bool,
) -> Result<Seq<(Seq<char>, Seq<Seq<ArgToken>>, Seq<ListCall>)>, ()> {
    match special_first(sigs_of(d.special_functions@), sets, ai, at, 0) {
        Err(_) => Err(()),
        Ok(Some(p)) => Ok(seq![p]),
        Ok(None) => defaults_outcome(d, fields, before_dot, ai, at, with_after),
    }
}

/// The handlers keep their types and names, and stay used once used.
pub open spec fn handlers_kept(before: Seq<EssentialFnData>, after: Seq<EssentialFnData>) -> bool {
    &&& before.len() == after.len()
    &&& forall|i: int|
        0 <= i < before.len() ==> (#[trigger] after[i]).types() == before[i].types() && after[i].name()
            == before[i].name() && (before[i].is_used() ==> after[i].is_used())
}

/// Each handler is used after the check exactly when it was before or it fits the fields.
pub open spec fn handlers_checked(
    before: Seq<EssentialFnData>,
    after: Seq<EssentialFnData>,
    fields: Seq<FieldModel>,
    ai: String,
    at: TypeModel,
) -> bool {
    &&& handlers_kept(before, after)
    &&& forall|i: int|
        0 <= i < before.len() ==> (#[trigger] after[i]).is_used() == (before[i].is_used()
            || inputs_all_present(before[i].types(), fields, ai, at))
}

/// The special handlers after a successful search among them: those checked are used
/// when one of the field sets they were checked against fills them; the others are
/// as they were.
pub open spec fn specials_checked(
    before: Seq<EssentialFnData>,
    after: Seq<EssentialFnData>,
    sets: Seq<FieldSet>,
    ai: String,
    at: TypeModel,
) -> bool {
    &&& handlers_kept(before, after)
    &&& forall|i: int|
        0 <= i < before.len() ==> (#[trigger] after[i]).is_used() == (before[i].is_used() || (i <= special_index(
            sigs_of(before),
            sets,
            ai,
            at,
            0,
        ) && sets_present(before[i].types(), sets, ai, at, sets_checked(before[i].types(), sets, ai, at, 0))))
}

/// The handlers after the calls for a node were found: the special ones searched; the
/// default and system ones (and, `with_after`, the late ones) checked against `fields`
/// unless a special one took the node.
pub open spec fn node_checked(
    d0: MacroData,
    d1: MacroData,
    sets: Seq<FieldSet>,
    fields: Seq<FieldModel>,
    ai: String,
    at: TypeModel,
    with_after: bool,
) -> bool {
    &&& specials_checked(d0.special_functions@, d1.special_functions@, sets, ai, at)
    &&& d1.fn_names == d0.fn_names
    &&& d1.additional_input_ty == d0.additional_input_ty
    &&& if special_first(sigs_of(d0.special_functions@), sets, ai, at, 0) matches Ok(Some(_)) {
        &&& d1.default_functions == d0.default_functions
        &&& d1.system_functions == d0.system_functions
        &&& d1.default_functions_after_system == d0.default_functions_after_system
    } else {
        &&& handlers_checked(d0.default_functions@, d1.default_functions@, fields, ai, at)
        &&& handlers_checked(d0.system_functions@, d1.system_functions@, fields, ai, at)
        &&& with_after ==> handlers_checked(
            d0.default_functions_after_system@,
            d1.default_functions_after_system@,
            fields,
            ai,
            at,
        )
        &&& !with_after ==> d1.default_functions_after_system == d0.default_functions_after_system
    }
}

/// The views of a list of planned calls.
pub open spec fn hcs_view(v: Seq<HandlerCalls>) -> Seq<(Seq<char>, Seq<Seq<ArgToken>>, Seq<ListCall>)> {
    v.map_values(|hc: HandlerCalls| hc_view(hc))
}

fn check_sets(f: &mut EssentialFnData, sets: &Vec<FieldSet>, ai: &String, at: &TypeModel) -> (r: Result<Option<HandlerCalls>, ()>)
    ensures
        match sets_first(old(f).types(), sets@, *ai, *at, 0) {
            Err(_) => r is Err,
            Ok(None) => r matches Ok(None),
            Ok(Some(p)) => r matches Ok(Some(hc)) && hc_view(hc) == (old(f).name(), p.0, p.1),
        },
        final(f).types() == old(f).types(),
        final(f).name() == old(f).name(),
        old(f).is_used() ==> final(f).is_used(),
        r is Ok ==> final(f).is_used() == (old(f).is_used() || sets_present(
            old(f).types(),
            sets@,
            *ai,
            *at,
            sets_checked(old(f).types(), sets@, *ai, *at, 0),
        )),
{
    let ghost types = f.types();
    let n = sets.len();
    let mut j: usize = 0;
    while j < n
        invariant
            n == sets@.len(),
            j <= n,
            f.types() == types,
            types == old(f).types(),
            f.name() == old(f).name(),
            f.is_used() == (old(f).is_used() || sets_present(types, sets@, *ai, *at, j as int)),
            sets_first(types, sets@, *ai, *at, 0) == sets_first(types, sets@, *ai, *at, j as int),
            sets_checked(types, sets@, *ai, *at, 0) == sets_checked(types, sets@, *ai, *at, j as int),
        decreases n - j,
    {
        let set = &sets[j];
        let res = f.all_inputs_check(&set.fields, set.before_dot, ai, at);
        proof {
            let next = sets_present(types, sets@, *ai, *at, j + 1);
            let here = inputs_all_present(types, sets@[j as int].fields@, *ai, *at);
            if next {
                let w = choose|w: int| 0 <= w < j + 1 && inputs_all_present(types, #[trigger] sets@[w].fields@, *ai, *at);
                if w < j {
                    assert(sets_present(types, sets@, *ai, *at, j as int));
                }
            }
            if sets_present(types, sets@, *ai, *at, j as int) {
                let w = choose|w: int| 0 <= w < j && inputs_all_present(types, #[trigger] sets@[w].fields@, *ai, *at);
                assert(next);
            }
            if here {
                assert(next);
            }
            assert(next == (sets_present(types, sets@, *ai, *at, j as int) || here));
        }
        match res {
            Err(()) => {
                return Err(());
            },
            Ok(Some(fc)) => {
                return Ok(Some(HandlerCalls { name: f.ident(), calls: fc }));
            },
            Ok(None) => {},
        }
        j = j + 1;
    }
    Ok(None)
}

impl MacroData {
    /// The calls of the first special handler that fits one of the field sets, tried
    /// in order for each handler.
    pub fn special_call(&mut self, sets: &Vec<FieldSet>, ai: &String, at: &TypeModel) -> (r: Result<Option<HandlerCalls>, ()>)
        ensures
            match special_first(sigs_of(old(self).special_functions@), sets@, *ai, *at, 0) {
                Err(_) => r is Err,
                Ok(None) => r matches Ok(None),
                Ok(Some(p)) => r matches Ok(Some(hc)) && hc_view(hc) == p,
            },
            handlers_kept(old(self).special_functions@, final(self).special_functions@),
            r is Ok ==> specials_checked(old(self).special_functions@, final(self).special_functions@, sets@, *ai, *at),
            final(self).fn_names == old(self).fn_names,
            final(self).additional_input_ty == old(self).additional_input_ty,
            final(self).default_functions == old(self).default_functions,
            final(self).default_functions_after_system == old(self).default_functions_after_system,
            final(self).system_functions == old(self).system_functions,
    {
        let ghost ts = sigs_of(self.special_functions@);
        let n = self.special_functions.len();
        let mut k: usize = 0;
        while k < n
            invariant
                n == self.special_functions@.len(),
                ts == sigs_of(old(self).special_functions@),
                k <= n,
                handlers_kept(old(self).special_functions@, self.special_functions@),
                self.fn_names == old(self).fn_names,
                self.additional_input_ty == old(self).additional_input_ty,
                self.default_functions == old(self).default_functions,
                self.default_functions_after_system == old(self).default_functions_after_system,
                self.system_functions == old(self).system_functions,
                special_first(ts, sets@, *ai, *at, 0) == special_first(ts, sets@, *ai, *at, k as int),
                special_index(ts, sets@, *ai, *at, 0) == special_index(ts, sets@, *ai, *at, k as int),
                forall|i: int|
                    0 <= i < n ==> (#[trigger] self.special_functions@[i]).is_used() == (
                    old(self).special_functions@[i].is_used() || (i < k && sets_present(
                        old(self).special_functions@[i].types(),
                        sets@,
                        *ai,
                        *at,
                        sets_checked(old(self).special_functions@[i].types(), sets@, *ai, *at, 0),
                    ))),
            decreases n - k,
        {
            let ghost before = self.special_functions@;
            let mut f = self.special_functions.remove(k);
            let res = check_sets(&mut f, sets, ai, at);
            self.special_functions.insert(k, f);
            assert(handlers_kept(old(self).special_functions@, self.special_functions@)) by {
                assert forall|i: int| 0 <= i < before.len() && i != k implies self.special_functions@[i] == before[i] by {}
            }
            assert(ts[k as int] == (before[k as int].name(), before[k as int].types()));
            match res {
                Err(()) => {
                    return Err(());
                },
                Ok(Some(hc)) => {
                    return Ok(Some(hc));
                },
                Ok(None) => {},
            }
            k = k + 1;
        }
        Ok(None)
    }

    fn collect_from(
        fs: &mut Vec<EssentialFnData>,
        fields: &Vec<FieldModel>,
        before_dot: bool,
        ai: &String,
        at: &TypeModel,
        out: &mut Vec<HandlerCalls>,
    ) -> (r: Result<(), ()>)
        ensures
            match collect_calls(sigs_of(old(fs)@), fields@, before_dot, *ai, *at, old(fs)@.len() as int) {
                Err(_) => r is Err,
                Ok(s) => r is Ok && hcs_view(final(out)@) == hcs_view(old(out)@) + s,
            },
            r is Ok ==> handlers_checked(old(fs)@, final(fs)@, fields@, *ai, *at),
    {
        let ghost ts = sigs_of(fs@);
        let ghost out0 = hcs_view(out@);
        let ghost orig = fs@;
        let n = fs.len();
        let mut k: usize = 0;
        assert(out0 + Seq::<(Seq<char>, Seq<Seq<ArgToken>>, Seq<ListCall>)>::empty() =~= out0);
        while k < n
            invariant
                n == orig.len(),
                n == fs@.len(),
                ts == sigs_of(orig),
                k <= n,
                orig == old(fs)@,
                out0 == hcs_view(old(out)@),
                forall|i: int| k <= i < n ==> fs@[i] == #[trigger] orig[i],
                forall|i: int|
                    0 <= i < k ==> (#[trigger] fs@[i]).types() == orig[i].types() && fs@[i].name() == orig[i].name()
                        && fs@[i].is_used() == (orig[i].is_used() || inputs_all_present(
                        orig[i].types(),
                        fields@,
                        *ai,
                        *at,
                    )),
                collect_calls(ts, fields@, before_dot, *ai, *at, k as int) is Ok,
                hcs_view(out@) == out0 + collect_calls(ts, fields@, before_dot, *ai, *at, k as int)->Ok_0,
            decreases n - k,
        {
            let ghost before = fs@;
            let ghost ov = hcs_view(out@);
            let mut f = fs.remove(k);
            let res = f.all_inputs_check(fields, before_dot, ai, at);
            fs.insert(k, f);
            assert forall|i: int| 0 <= i < n && i != k implies fs@[i] == before[i] by {}
            assert(ts[k as int] == (orig[k as int].name(), orig[k as int].types()));
            match res {
                Err(()) => {
                    proof {
                        lemma_collect_err_stays(ts, fields@, before_dot, *ai, *at, (k + 1) as int, n as int);
                    }
                    return Err(());
                },
                Ok(Some(fc)) => {
                    let ghost acc = collect_calls(ts, fields@, before_dot, *ai, *at, k as int)->Ok_0;
                    let hc = HandlerCalls { name: fs[k].ident(), calls: fc };
                    out.push(hc);
                    assert(hcs_view(out@) =~= ov.push(hc_view(hc)));
                    assert((out0 + acc).push(hc_view(hc)) =~= out0 + acc.push(hc_view(hc)));
                },
                Ok(None) => {},
            }
            k = k + 1;
        }
        Ok(())
    }

    /// The calls of every default and system handler that fits the fields, in this
    /// order, then those of the defaults marked `#[after_system]` when `with_after`.
    pub fn default_calls(
        &mut self,
        fields: &Vec<FieldModel>,
        before_dot: bool,
        ai: &String,
        at: &TypeModel,
        with_after: bool,
    ) -> (r: Result<Vec<HandlerCalls>, ()>)
        ensures
            match defaults_outcome(*old(self), fields@, before_dot, *ai, *at, with_after) {
                Err(_) => r is Err,
                Ok(s) => r is Ok && hcs_view(r->Ok_0@) == s,
            },
            r is Ok ==> handlers_checked(old(self).default_functions@, final(self).default_functions@, fields@, *ai, *at),
            r is Ok ==> handlers_checked(old(self).system_functions@, final(self).system_functions@, fields@, *ai, *at),
            r is Ok && with_after ==> handlers_checked(
                old(self).default_functions_after_system@,
                final(self).default_functions_after_system@,
                fields@,
                *ai,
                *at,
            ),
            !with_after ==> final(self).default_functions_after_system == old(self).default_functions_after_system,
            final(self).fn_names == old(self).fn_names,
            final(self).additional_input_ty == old(self).additional_input_ty,
            final(self).special_functions == old(self).special_functions,
    {
        let mut out: Vec<HandlerCalls> = Vec::new();
        assert(hcs_view(out@) =~= Seq::<(Seq<char>, Seq<Seq<ArgToken>>, Seq<ListCall>)>::empty());
        if Self::collect_from(&mut self.default_functions, fields, before_dot, ai, at, &mut out).is_err() {
            return Err(());
        }
        if Self::collect_from(&mut self.system_functions, fields, before_dot, ai, at, &mut out).is_err() {
            return Err(());
        }
        if with_after {
            if Self::collect_from(&mut self.default_functions_after_system, fields, before_dot, ai, at, &mut out).is_err() {
                return Err(());
            }
        }
        Ok(out)
    }
}

impl MacroData {
    /// The calls for a node reached as `struct_call` of a struct type: `whole` holds
    /// that one field, `inner` the struct's own fields, reached through it.
    pub fn struct_calls(
        &mut self,
        whole: Vec<FieldModel>,
        inner: Vec<FieldModel>,
        ai: &String,
        at: &TypeModel,
    ) -> (r: Result<Vec<HandlerCalls>, ()>)
        ensures
            match node_outcome(
                *old(self),
                seq![(FieldSet { fields: whole, before_dot: false }), (FieldSet { fields: inner, before_dot: true })],
                inner@,
                true,
                *ai,
                *at,
                true,
            ) {
                Err(_) => r is Err,
                Ok(s) => r is Ok && hcs_view(r->Ok_0@) == s,
            },
            r is Ok ==> node_checked(
                *old(self),
                *final(self),
                seq![(FieldSet { fields: whole, before_dot: false }), (FieldSet { fields: inner, before_dot: true })],
                inner@,
                *ai,
                *at,
                true,
            ),
    {
        let ghost sets_s = seq![FieldSet { fields: whole, before_dot: false }, FieldSet { fields: inner, before_dot: true }];
        let ghost inner_s = inner@;
        let mut sets: Vec<FieldSet> = Vec::new();
        sets.push(FieldSet { fields: whole, before_dot: false });
        sets.push(FieldSet { fields: inner, before_dot: true });
        assert(sets@ =~= sets_s);
        match self.special_call(&sets, ai, at) {
            Err(()) => Err(()),
            Ok(Some(hc)) => {
                let mut v: Vec<HandlerCalls> = Vec::new();
                v.push(hc);
                assert(hcs_view(v@) =~= seq![hc_view(hc)]);
                Ok(v)
            },
            Ok(None) => {
                assert(sets@[1].fields@ == inner_s);
                self.default_calls(&sets[1].fields, true, ai, at, true)
            },
        }
    }

    /// The calls for a match arm whose variant holds the nodes `whole`, passed as they
    /// are.
    pub fn arm_calls(&mut self, whole: Vec<FieldModel>, ai: &String, at: &TypeModel) -> (r: Result<Vec<HandlerCalls>, ()>)
        ensures
            match node_outcome(
                *old(self),
                seq![(FieldSet { fields: whole, before_dot: false })],
                whole@,
                false,
                *ai,
                *at,
                false,
            ) {
                Err(_) => r is Err,
                Ok(s) => r is Ok && hcs_view(r->Ok_0@) == s,
            },
            r is Ok ==> node_checked(
                *old(self),
                *final(self),
                seq![(FieldSet { fields: whole, before_dot: false })],
                whole@,
                *ai,
                *at,
                false,
            ),
    {
        let ghost sets_s = seq![FieldSet { fields: whole, before_dot: false }];
        let ghost whole_s = whole@;
        let mut sets: Vec<FieldSet> = Vec::new();
        sets.push(FieldSet { fields: whole, before_dot: false });
        assert(sets@ =~= sets_s);
        match self.special_call(&sets, ai, at) {
            Err(()) => Err(()),
            Ok(Some(hc)) => {
                let mut v: Vec<HandlerCalls> = Vec::new();
                v.push(hc);
                assert(hcs_view(v@) =~= seq![hc_view(hc)]);
                Ok(v)
            },
            Ok(None) => {
                assert(sets@[0].fields@ == whole_s);
                self.default_calls(&sets[0].fields, false, ai, at, false)
            },
        }
    }
}

/// A special handler that fits a node takes it alone: no default or system handler
/// is called for that node.
pub proof fn law_special_overrides(
    d: MacroData,
    sets: Seq<FieldSet>,
    fields: Seq<FieldModel>,
    before_dot: bool,
    ai: String,
    at: TypeModel,
    with_after: bool,
)
    requires
        special_first(sigs_of(d.special_functions@), sets, ai, at, 0) is Ok,
        special_first(sigs_of(d.special_functions@), sets, ai, at, 0)->Ok_0 is Some,
    ensures
        node_outcome(d, sets, fields, before_dot, ai, at, with_after) == Ok::<
            Seq<(Seq<char>, Seq<Seq<ArgToken>>, Seq<ListCall>)>,
            (),
        >(seq![special_first(sigs_of(d.special_functions@), sets, ai, at, 0)->Ok_0->0]),
{
}

proof fn lemma_collect_err_stays(
    ts: Seq<(Seq<char>, Seq<TypeModel>)>,
    fields: Seq<FieldModel>,
    before_dot: bool,
    ai: String,
    at: TypeModel,
    m: int,
    n: int,
)
    requires
        0 < m <= n,
        collect_calls(ts, fields, before_dot, ai, at, m) is Err,
    ensures
        collect_calls(ts, fields, before_dot, ai, at, n) is Err,
    decreases n - m,
{
    if m < n {
        lemma_collect_err_stays(ts, fields, before_dot, ai, at, m + 1, n);
    }
}

} // verus!
