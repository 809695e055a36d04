//! Matching the parameters of a handler function to the fields of a syntax node,
//! and planning the calls of the handler: the heart of the exhaustive traversal.
use vstd::prelude::*;

use crate::text::text_eq;
use crate::type_model::{type_equals, types_equal, ArgumentsModel, GenericArgModel, TypeModel};

verus! {

/// How a field is borrowed to be passed to a handler.
#[derive(Debug, Clone, Copy, PartialEq, Eq, Structural)]
pub enum ReferenceType {
    Mutable,
    Immutable,
}

/// How the additional input of the traversal is passed on.
#[derive(Debug, Clone, Copy, PartialEq, Eq, Structural)]
pub enum AdditionalType {
    /// It is a reference: passed as it is.
    Reference,
    /// It is a value: passed as `.clone()`.
    NoReference,
}

/// The way the additional input is passed when `active`, for a parameter of type `ty`.
pub open spec fn additional_type_of(active: bool, ty: TypeModel) -> Option<AdditionalType> {
    if active {
        if ty is Reference {
            Some(AdditionalType::Reference)
        } else {
            Some(AdditionalType::NoReference)
        }
    } else {
        None
    }
}

/// The way the additional input is passed when `active` and `ty` is its type.
pub fn additional_type(active: bool, ty: &TypeModel) -> (r: Option<AdditionalType>)
    ensures
        r == additional_type_of(active, *ty),
{
    if active {
        if let TypeModel::Reference { .. } = ty {
            Some(AdditionalType::Reference)
        } else {
            Some(AdditionalType::NoReference)
        }
    } else {
        None
    }
}

/// The way the additional input is passed when `active`, for an element of a list.
pub open spec fn additional_type_no_ref_of(active: bool) -> Option<AdditionalType> {
    if active {
        Some(AdditionalType::NoReference)
    } else {
        None
    }
}

fn additional_type_no_ref(active: bool) -> (r: Option<AdditionalType>)
    ensures
        r == additional_type_no_ref_of(active),
{
    if active {
        Some(AdditionalType::NoReference)
    } else {
        None
    }
}

/// A field (or the additional input) that can be passed for one parameter.
pub struct Candidate {
    /// The name of the field.
    pub ident: String,
    /// How it is borrowed, if at all.
    pub reference_ty: Option<ReferenceType>,
    /// It is a `Vec` or `Punctuated` whose elements are passed one at a time.
    pub list: bool,
    /// It is the additional input, passed in this way.
    pub additional_ty: Option<AdditionalType>,
}

/// The reference kind for a `&mut` (`mutable`) or `&` parameter.
pub open spec fn ref_of(mutable: bool) -> ReferenceType {
    if mutable {
        ReferenceType::Mutable
    } else {
        ReferenceType::Immutable
    }
}

/// A field of type `maybe` matched a reference parameter `&elem` (or `&mut elem`)
/// through a `Vec`, `Box` or `Punctuated` around `elem`. `current` overrides the
/// borrow when the field itself is a reference. `Err` where no comparison is possible.
pub open spec fn wrapper_match(
    maybe: TypeModel,
    mutable: bool,
    elem: TypeModel,
    ident: String,
    additional: bool,
    current: Option<Option<ReferenceType>>,
) -> Result<Option<Candidate>, ()> {
    match maybe {
        TypeModel::Path { path, .. } => {
            if path.segments@.len() == 0 {
                Err(())
            } else {
                let seg = path.segments@.last();
                let name = seg.ident@;
                if name == "Vec"@ || name == "Box"@ || name == "Punctuated"@ {
                    let list = name == "Vec"@ || name == "Punctuated"@;
                    match seg.arguments {
                        ArgumentsModel::Plain => Ok(None),
                        ArgumentsModel::AngleBracketed { args, .. } => {
                            if args@.len() > 0 && args@[0] is Type {
                                match types_equal(elem, args@[0]->Type_0) {
                                    None => Err(()),
                                    Some(true) => Ok(
                                        Some(
                                            Candidate {
                                                ident,
                                                reference_ty: match current {
                                                    Some(c) => c,
                                                    None => Some(ref_of(mutable)),
                                                },
                                                additional_ty: additional_type_no_ref_of(additional),
                                                list,
                                            },
                                        ),
                                    ),
                                    Some(false) => Ok(None),
                                }
                            } else {
                                Ok(None)
                            }
                        },
                        ArgumentsModel::Parenthesized(_) => Err(()),
                    }
                } else {
                    Ok(None)
                }
            }
        },
        _ => Ok(None),
    }
}

/// Whether a field of type `maybe` named `ident` can be passed for a parameter of
/// type `param`: the same type; `&T`/`&mut T` for a field `T`; or a `Vec`, `Box` or
/// `Punctuated` of `T`, possibly behind a reference that is not less mutable.
/// `additional` marks the additional input. `Err` where no comparison is possible.
pub open spec fn arg_match(param: TypeModel, maybe: TypeModel, ident: String, additional: bool) -> Result<Option<Candidate>, ()> {
    match types_equal(param, maybe) {
        None => Err(()),
        Some(true) => Ok(
            Some(
                Candidate {
                    ident,
                    reference_ty: None,
                    additional_ty: additional_type_of(additional, maybe),
                    list: false,
                },
            ),
        ),
        Some(false) => match param {
            TypeModel::Reference { mutable: rm, elem: re, .. } => match types_equal(*re, maybe) {
                None => Err(()),
                Some(true) => Ok(
                    Some(
                        Candidate {
                            ident,
                            reference_ty: Some(ref_of(rm)),
                            additional_ty: additional_type_of(additional, maybe),
                            list: false,
                        },
                    ),
                ),
                Some(false) => match maybe {
                    TypeModel::Reference { mutable: pm, elem: pe, .. } => {
                        if rm && !pm {
                            Ok(None)
                        } else {
                            wrapper_match(*pe, rm, *re, ident, additional, Some(None))
                        }
                    },
                    _ => wrapper_match(maybe, rm, *re, ident, additional, None),
                },
            },
            _ => Ok(None),
        },
    }
}

fn wrapper_arg_match(
    maybe: &TypeModel,
    mutable: bool,
    elem: &TypeModel,
    ident: &String,
    additional: bool,
    current: Option<Option<ReferenceType>>,
) -> (r: Result<Option<Candidate>, ()>)
    ensures
        r == wrapper_match(*maybe, mutable, *elem, *ident, additional, current),
{
    match maybe {
        TypeModel::Path { path, .. } => {
            let n = path.segments.len();
            if n == 0 {
                return Err(());
            }
            let seg = &path.segments[n - 1];
            let name = seg.ident.as_str();
            let is_vec = text_eq(name, "Vec");
            let is_box = text_eq(name, "Box");
            let is_punct = text_eq(name, "Punctuated");
            if is_vec || is_box || is_punct {
                let list = is_vec || is_punct;
                match &seg.arguments {
                    ArgumentsModel::Plain => Ok(None),
                    ArgumentsModel::AngleBracketed { args, .. } => {
                        if args.len() > 0 {
                            match &args[0] {
                                GenericArgModel::Type(ty) => {
                                    match type_equals(elem, ty) {
                                        None => Err(()),
                                        Some(true) => {
                                            let reference_ty = match current {
                                                Some(c) => c,
                                                None => Some(
                                                    if mutable {
                                                        ReferenceType::Mutable
                                                    } else {
                                                        ReferenceType::Immutable
                                                    },
                                                ),
                                            };
                                            Ok(
                                                Some(
                                                    Candidate {
                                                        ident: ident.clone(),
                                                        reference_ty,
                                                        additional_ty: additional_type_no_ref(
                                                            additional,
                                                        ),
                                                        list,
                                                    },
                                                ),
                                            )
                                        },
                                        Some(false) => Ok(None),
                                    }
                                },
                                _ => Ok(None),
                            }
                        } else {
                            Ok(None)
                        }
                    },
                    ArgumentsModel::Parenthesized(_) => Err(()),
                }
            } else {
                Ok(None)
            }
        },
        _ => Ok(None),
    }
}

/// Checks whether a field of type `maybe_ty` named `maybe_ident` can be passed for a
/// parameter of type `reference_ty`, and how. `Err` where no comparison is possible.
pub fn fn_arg_ty_equals(
    reference_ty: &TypeModel,
    maybe_ty: &TypeModel,
    maybe_ident: &String,
    additional_ty: bool,
) -> (r: Result<Option<Candidate>, ()>)
    ensures
        r == arg_match(*reference_ty, *maybe_ty, *maybe_ident, additional_ty),
{
    match type_equals(reference_ty, maybe_ty) {
        None => Err(()),
        Some(true) => Ok(
            Some(
                Candidate {
                    ident: maybe_ident.clone(),
                    reference_ty: None,
                    additional_ty: additional_type(additional_ty, maybe_ty),
                    list: false,
                },
            ),
        ),
        Some(false) => match reference_ty {
            TypeModel::Reference { mutable: rm, elem: re, .. } => match type_equals(re, maybe_ty) {
                None => Err(()),
                Some(true) => Ok(
                    Some(
                        Candidate {
                            ident: maybe_ident.clone(),
                            reference_ty: Some(
                                if *rm {
                                    ReferenceType::Mutable
                                } else {
                                    ReferenceType::Immutable
                                },
                            ),
                            additional_ty: additional_type(additional_ty, maybe_ty),
                            list: false,
                        },
                    ),
                ),
                Some(false) => match maybe_ty {
                    TypeModel::Reference { mutable: pm, elem: pe, .. } => {
                        if *rm && !*pm {
                            Ok(None)
                        } else {
                            wrapper_arg_match(pe, *rm, re, maybe_ident, additional_ty, Some(None))
                        }
                    },
                    _ => wrapper_arg_match(maybe_ty, *rm, re, maybe_ident, additional_ty, None),
                },
            },
            _ => Ok(None),
        },
    }
}

// ---------------------------------------------------------------------------
// Collecting the candidates of every parameter.

/// A named field of a syntax node.
pub struct FieldModel {
    pub ident: String,
    pub ty: TypeModel,
}

/// The candidates among the first `m` fields for the parameter of type `param`, in
/// field order; `Err` where no comparison is possible.
pub open spec fn field_cands(param: TypeModel, fields: Seq<FieldModel>, m: int) -> Result<Seq<Candidate>, ()>
    decreases m,
{
    if m <= 0 {
        Ok(Seq::empty())
    } else {
        match field_cands(param, fields, m - 1) {
            Err(_) => Err(()),
            Ok(s) => match arg_match(param, fields[m - 1].ty, fields[m - 1].ident, false) {
                Err(_) => Err(()),
                Ok(None) => Ok(s),
                Ok(Some(c)) => Ok(s.push(c)),
            },
        }
    }
}

/// The parameter (among the first `k`) that the additional input matches, with its
/// candidate; `Err` when it matches two parameters or a comparison is impossible.
pub open spec fn additional_scan(types: Seq<TypeModel>, ident: String, ty: TypeModel, k: int) -> Result<Option<(int, Candidate)>, ()>
    decreases k,
{
    if k <= 0 {
        Ok(None)
    } else {
        match additional_scan(types, ident, ty, k - 1) {
            Err(_) => Err(()),
            Ok(prev) => match arg_match(types[k - 1], ty, ident, true) {
                Err(_) => Err(()),
                Ok(None) => Ok(prev),
                Ok(Some(c)) => if prev is Some {
                    Err(())
                } else {
                    Ok(Some((k - 1, c)))
                },
            },
        }
    }
}

/// The candidates of the first `k` parameters: the additional input alone for its
/// parameter, the matching fields for every other one.
pub open spec fn all_cands(
    types: Seq<TypeModel>,
    fields: Seq<FieldModel>,
    add: Option<(int, Candidate)>,
    k: int,
) -> Result<Seq<Seq<Candidate>>, ()>
    decreases k,
{
    if k <= 0 {
        Ok(Seq::empty())
    } else {
        match all_cands(types, fields, add, k - 1) {
            Err(_) => Err(()),
            Ok(s) => {
                let own = match add {
                    Some((i, c)) => if i == k - 1 { Some(c) } else { None },
                    None => None,
                };
                match own {
                    Some(c) => Ok(s.push(seq![c])),
                    None => match field_cands(types[k - 1], fields, fields.len() as int) {
                        Err(_) => Err(()),
                        Ok(l) => Ok(s.push(l)),
                    },
                }
            },
        }
    }
}

fn collect_field_cands(param: &TypeModel, fields: &Vec<FieldModel>) -> (r: Result<Vec<Candidate>, ()>)
    ensures
        match field_cands(*param, fields@, fields@.len() as int) {
            Err(_) => r is Err,
            Ok(s) => r is Ok && r->Ok_0@ == s,
        },
{
    let n = fields.len();
    let mut out: Vec<Candidate> = Vec::new();
    let mut k: usize = 0;
    while k < n
        invariant
            n == fields@.len(),
            k <= n,
            field_cands(*param, fields@, k as int) == Ok::<Seq<Candidate>, ()>(out@),
        decreases n - k,
    {
        match fn_arg_ty_equals(param, &fields[k].ty, &fields[k].ident, false) {
            Err(_) => {
                proof {
                    lemma_field_cands_err_stays(*param, fields@, (k + 1) as int, n as int);
                }
                return Err(());
            },
            Ok(None) => {},
            Ok(Some(c)) => {
                out.push(c);
            },
        }
        k = k + 1;
    }
    Ok(out)
}

proof fn lemma_field_cands_err_stays(param: TypeModel, fields: Seq<FieldModel>, m: int, n: int)
    requires
        0 < m <= n,
        field_cands(param, fields, m) is Err,
    ensures
        field_cands(param, fields, n) is Err,
    decreases n - m,
{
    if m < n {
        lemma_field_cands_err_stays(param, fields, m + 1, n);
    }
}

proof fn lemma_additional_err_stays(types: Seq<TypeModel>, ident: String, ty: TypeModel, m: int, n: int)
    requires
        0 < m <= n,
        additional_scan(types, ident, ty, m) is Err,
    ensures
        additional_scan(types, ident, ty, n) is Err,
    decreases n - m,
{
    if m < n {
        lemma_additional_err_stays(types, ident, ty, m + 1, n);
    }
}

proof fn lemma_all_cands_err_stays(
    types: Seq<TypeModel>,
    fields: Seq<FieldModel>,
    add: Option<(int, Candidate)>,
    m: int,
    n: int,
)
    requires
        0 < m <= n,
        all_cands(types, fields, add, m) is Err,
    ensures
        all_cands(types, fields, add, n) is Err,
    decreases n - m,
{
    if m < n {
        lemma_all_cands_err_stays(types, fields, add, m + 1, n);
    }
}

pub(crate) fn scan_additional(types: &Vec<TypeModel>, ident: &String, ty: &TypeModel) -> (r: Result<Option<(usize, Candidate)>, ()>)
    ensures
        match additional_scan(types@, *ident, *ty, types@.len() as int) {
            Err(_) => r is Err,
            Ok(None) => r == Ok::<Option<(usize, Candidate)>, ()>(None),
            Ok(Some((i, c))) => r matches Ok(Some((ri, rc))) && ri == i && rc == c,
        },
{
    let n = types.len();
    let mut found: Option<(usize, Candidate)> = None;
    let mut k: usize = 0;
    while k < n
        invariant
            n == types@.len(),
            k <= n,
            match additional_scan(types@, *ident, *ty, k as int) {
                Err(_) => false,
                Ok(None) => found is None,
                Ok(Some((i, c))) => found matches Some((fi, fc)) && fi == i && fc == c,
            },
        decreases n - k,
    {
        match fn_arg_ty_equals(&types[k], ty, ident, true) {
            Err(_) => {
                proof {
                    lemma_additional_err_stays(types@, *ident, *ty, (k + 1) as int, n as int);
                }
                return Err(());
            },
            Ok(None) => {},
            Ok(Some(c)) => {
                if found.is_some() {
                    proof {
                        lemma_additional_err_stays(types@, *ident, *ty, (k + 1) as int, n as int);
                    }
                    return Err(());
                }
                found = Some((k, c));
            },
        }
        k = k + 1;
    }
    Ok(found)
}

// ---------------------------------------------------------------------------
// Planning the calls.

/// One argument of a planned call: `&mut`/`&` (per `reference`), then the prefix
/// `search_item.` when `prefixed`, the name, and `.clone()` when `clone`.
pub struct ArgToken {
    pub prefixed: bool,
    pub ident: String,
    pub reference: Option<ReferenceType>,
    pub clone: bool,
}

/// The iterator of a list field: the prefix when `prefixed`, the name, then
/// `.iter_mut()` when `mutable`, else `.iter()`.
pub struct ListIter {
    pub prefixed: bool,
    pub ident: String,
    pub mutable: bool,
}

/// `for ____x in <iter> { handler(____x) }`, with the additional input before
/// (`additional_first`) or after the element when there is one.
pub struct ListCall {
    pub iter: ListIter,
    pub additional: Option<ArgToken>,
    pub additional_first: bool,
}

/// The planned calls of a handler: one call per argument list, then the list loops.
pub struct FnCalls {
    pub calls: Vec<Vec<ArgToken>>,
    pub list_calls: Vec<ListCall>,
}

/// The argument for a candidate; `before_dot` says whether the fields are reached
/// through a prefix.
pub open spec fn token_of(c: Candidate, before_dot: bool) -> ArgToken {
    ArgToken {
        prefixed: before_dot && c.additional_ty is None,
        ident: c.ident,
        reference: c.reference_ty,
        clone: c.additional_ty == Some(AdditionalType::NoReference) && c.reference_ty is None,
    }
}

/// The state while the candidates are turned into several calls.
pub struct PlanState {
    pub calls: Seq<Seq<ArgToken>>,
    pub lists: Seq<ListIter>,
    pub add_pos: int,
    pub add_arg: Option<ArgToken>,
    pub failed: bool,
}

/// One candidate (the `index`-th of parameter `r`) in the plan with several calls:
/// a list becomes a loop (it must be borrowed), the additional input is set aside,
/// any other candidate starts or extends the call at position `index`.
pub open spec fn multi_step(st: PlanState, r: int, index: int, c: Candidate, before_dot: bool) -> PlanState {
    let tok = token_of(c, before_dot);
    if c.list {
        match c.reference_ty {
            None => PlanState { failed: true, ..st },
            Some(m) => PlanState {
                lists: st.lists.push(
                    ListIter { prefixed: tok.prefixed, ident: c.ident, mutable: m == ReferenceType::Mutable },
                ),
                ..st
            },
        }
    } else if c.additional_ty is Some {
        PlanState { add_pos: r, add_arg: Some(tok), ..st }
    } else if index < st.calls.len() {
        PlanState { calls: st.calls.update(index, st.calls[index].push(tok)), ..st }
    } else {
        PlanState { calls: st.calls.push(seq![tok]), ..st }
    }
}

/// The plan after the first `m` candidates of parameter `r`.
pub open spec fn multi_list(st: PlanState, r: int, list: Seq<Candidate>, before_dot: bool, m: int) -> PlanState
    decreases m,
{
    if m <= 0 {
        st
    } else {
        multi_step(multi_list(st, r, list, before_dot, m - 1), r, m - 1, list[m - 1], before_dot)
    }
}

/// The plan after the candidates of the first `k` parameters.
pub open spec fn multi_all(cands: Seq<Seq<Candidate>>, before_dot: bool, k: int) -> PlanState
    decreases k,
{
    if k <= 0 {
        PlanState { calls: Seq::empty(), lists: Seq::empty(), add_pos: 0, add_arg: None, failed: false }
    } else {
        multi_list(
            multi_all(cands, before_dot, k - 1),
            k - 1,
            cands[k - 1],
            before_dot,
            cands[k - 1].len() as int,
        )
    }
}

/// The loop for one list iterator.
pub open spec fn list_call_of(it: ListIter, st: PlanState) -> ListCall {
    ListCall { iter: it, additional: st.add_arg, additional_first: st.add_pos == 0 }
}

/// Several calls: one per candidate of the single non-additional parameter, each
/// with the additional input put at its position, and one loop per list.
pub open spec fn multi_plan(cands: Seq<Seq<Candidate>>, before_dot: bool) -> Result<(Seq<Seq<ArgToken>>, Seq<ListCall>), ()> {
    let st = multi_all(cands, before_dot, cands.len() as int);
    if st.failed {
        Err(())
    } else {
        let lists = st.lists.map_values(|it: ListIter| list_call_of(it, st));
        match st.add_arg {
            None => Ok((st.calls, lists)),
            Some(a) => if exists|i: int| 0 <= i < st.calls.len() && st.calls[i].len() < st.add_pos {
                Err(())
            } else {
                Ok((st.calls.map_values(|v: Seq<ArgToken>| v.insert(st.add_pos, a)), lists))
            },
        }
    }
}

/// The first candidate from position `j` on that is no list and whose name is not
/// used yet.
pub open spec fn first_pick(list: Seq<Candidate>, used: Seq<Seq<char>>, j: int) -> Option<int>
    decreases list.len() - j,
{
    if j < 0 || j >= list.len() {
        None
    } else if !list[j].list && !used.contains(list[j].ident@) {
        Some(j)
    } else {
        first_pick(list, used, j + 1)
    }
}

/// The arguments of the single call for the first `k` parameters, with the names
/// used so far; `None` when a parameter has no unused candidate.
pub open spec fn single_all(cands: Seq<Seq<Candidate>>, before_dot: bool, k: int) -> Option<(Seq<ArgToken>, Seq<Seq<char>>)>
    decreases k,
{
    if k <= 0 {
        Some((Seq::empty(), Seq::empty()))
    } else {
        match single_all(cands, before_dot, k - 1) {
            None => None,
            Some((args, used)) => match first_pick(cands[k - 1], used, 0) {
                None => None,
                Some(j) => Some(
                    (
                        args.push(token_of(cands[k - 1][j], before_dot)),
                        used.push(cands[k - 1][j].ident@),
                    ),
                ),
            },
        }
    }
}

/// One call that takes a different field for every parameter; `None` when that is
/// impossible, or when some field that fits a parameter would be left out.
pub open spec fn single_plan(cands: Seq<Seq<Candidate>>, before_dot: bool) -> Option<Seq<ArgToken>> {
    match single_all(cands, before_dot, cands.len() as int) {
        None => None,
        Some((args, used)) => if forall|r: int, j: int|
            0 <= r < cands.len() && 0 <= j < cands[r].len() && !(#[trigger] cands[r][j]).list
                ==> used.contains(cands[r][j].ident@) {
            Some(args)
        } else {
            None
        },
    }
}

/// Whether the handler can be called with the additional input at `add` and every
/// other parameter filled.
pub open spec fn all_present(cands: Seq<Seq<Candidate>>) -> bool {
    forall|r: int| 0 <= r < cands.len() ==> #[trigger] cands[r].len() > 0
}

/// The outcome of the check: `Err` where the traversal stops with an error, `Ok(None)`
/// when the handler does not fit the node, else the calls.
pub open spec fn inputs_check(
    types: Seq<TypeModel>,
    fields: Seq<FieldModel>,
    before_dot: bool,
    add_ident: String,
    add_ty: TypeModel,
) -> Result<Option<(Seq<Seq<ArgToken>>, Seq<ListCall>)>, ()> {
    let n = types.len() as int;
    match additional_scan(types, add_ident, add_ty, n) {
        Err(_) => Err(()),
        Ok(add) => match all_cands(types, fields, add, n) {
            Err(_) => Err(()),
            Ok(cands) => if !all_present(cands) {
                Ok(None)
            } else if (if add is Some { n == 2 } else { n == 1 }) {
                match multi_plan(cands, before_dot) {
                    Err(_) => Err(()),
                    Ok(p) => Ok(Some(p)),
                }
            } else {
                match single_plan(cands, before_dot) {
                    None => Ok(None),
                    Some(args) => Ok(Some((seq![args], Seq::empty()))),
                }
            },
        },
    }
}

/// Whether the check finds every parameter filled (and so marks the handler used).
pub open spec fn inputs_all_present(
    types: Seq<TypeModel>,
    fields: Seq<FieldModel>,
    add_ident: String,
    add_ty: TypeModel,
) -> bool {
    let n = types.len() as int;
    match additional_scan(types, add_ident, add_ty, n) {
        Err(_) => false,
        Ok(add) => match all_cands(types, fields, add, n) {
            Err(_) => false,
            Ok(cands) => all_present(cands),
        },
    }
}

/// The spec view of the candidate lists.
pub open spec fn cands_view(v: Seq<Vec<Candidate>>) -> Seq<Seq<Candidate>> {
    v.map_values(|l: Vec<Candidate>| l@)
}

/// The additional input's match with its index taken as an integer.
pub open spec fn add_view(add: Option<(usize, Candidate)>) -> Option<(int, Candidate)> {
    match add {
        Some((i, c)) => Some((i as int, c)),
        None => None,
    }
}

pub(crate) fn collect_all_cands(
    types: &Vec<TypeModel>,
    fields: &Vec<FieldModel>,
    add: Option<(usize, Candidate)>,
) -> (r: Result<Vec<Vec<Candidate>>, ()>)
    ensures
        match all_cands(types@, fields@, add_view(add), types@.len() as int) {
            Err(_) => r is Err,
            Ok(s) => r is Ok && cands_view(r->Ok_0@) == s,
        },
        r matches Ok(v) ==> v@.len() == types@.len(),
{
    let ghost add_s = add_view(add);
    let n = types.len();
    let (ai, mut ac): (usize, Option<Candidate>) = match add {
        Some((i, c)) => (i, Some(c)),
        None => (n, None),
    };
    let mut out: Vec<Vec<Candidate>> = Vec::new();
    assert(cands_view(out@) =~= Seq::<Seq<Candidate>>::empty());
    let mut r: usize = 0;
    while r < n
        invariant
            n == types@.len(),
            r <= n,
            add_s == add_view(add),
            out@.len() == r,
            add_s is None ==> ai == n && ac is None,
            add_s matches Some((i, c)) ==> ai == i && (r <= ai ==> ac == Some(c)),
            all_cands(types@, fields@, add_s, r as int) == Ok::<Seq<Seq<Candidate>>, ()>(
                cands_view(out@),
            ),
        decreases n - r,
    {
        if r == ai {
            let c = ac.take().unwrap();
            let mut l: Vec<Candidate> = Vec::new();
            l.push(c);
            out.push(l);
            assert(cands_view(out@) =~= all_cands(types@, fields@, add_s, r as int)->Ok_0.push(l@));
        } else {
            match collect_field_cands(&types[r], fields) {
                Err(_) => {
                    proof {
                        assert(all_cands(types@, fields@, add_s, (r + 1) as int) is Err);
                        lemma_all_cands_err_stays(types@, fields@, add_s, (r + 1) as int, n as int);
                    }
                    return Err(());
                },
                Ok(l) => {
                    let ghost lv = l@;
                    out.push(l);
                    assert(cands_view(out@) =~= all_cands(types@, fields@, add_s, r as int)->Ok_0.push(lv));
                },
            }
        }
        r = r + 1;
    }
    Ok(out)
}

fn token_for(c: &Candidate, before_dot: bool) -> (t: ArgToken)
    ensures
        t == token_of(*c, before_dot),
{
    ArgToken {
        prefixed: before_dot && c.additional_ty.is_none(),
        ident: c.ident.clone(),
        reference: c.reference_ty,
        clone: match (c.additional_ty, c.reference_ty) {
            (Some(AdditionalType::NoReference), None) => true,
            _ => false,
        },
    }
}

fn clone_token(t: &ArgToken) -> (r: ArgToken)
    ensures
        r == *t,
{
    ArgToken { prefixed: t.prefixed, ident: t.ident.clone(), reference: t.reference, clone: t.clone }
}

fn clone_opt_token(t: &Option<ArgToken>) -> (r: Option<ArgToken>)
    ensures
        r == *t,
{
    match t {
        Some(x) => Some(clone_token(x)),
        None => None,
    }
}

/// The spec view of planned calls.
pub open spec fn calls_view(v: Seq<Vec<ArgToken>>) -> Seq<Seq<ArgToken>> {
    v.map_values(|l: Vec<ArgToken>| l@)
}

#[verifier::rlimit(40)]
pub(crate) fn plan_multi(cands: &Vec<Vec<Candidate>>, before_dot: bool) -> (r: Result<FnCalls, ()>)
    ensures
        match multi_plan(cands_view(cands@), before_dot) {
            Err(_) => r is Err,
            Ok((calls, lists)) => r is Ok && calls_view(r->Ok_0.calls@) == calls
                && r->Ok_0.list_calls@ == lists,
        },
{
    let ghost cv = cands_view(cands@);
    let n = cands.len();
    let mut calls: Vec<Vec<ArgToken>> = Vec::new();
    let mut lists: Vec<ListIter> = Vec::new();
    let mut add_pos: usize = 0;
    let mut add_arg: Option<ArgToken> = None;
    let mut failed = false;
    assert(calls_view(calls@) =~= Seq::<Seq<ArgToken>>::empty());
    let mut r: usize = 0;
    while r < n
        invariant
            n == cands@.len(),
            cv == cands_view(cands@),
            r <= n,
            multi_all(cv, before_dot, r as int) == (PlanState {
                calls: calls_view(calls@),
                lists: lists@,
                add_pos: add_pos as int,
                add_arg,
                failed,
            }),
        decreases n - r,
    {
        let list = &cands[r];
        let m = list.len();
        let ghost st0 = multi_all(cv, before_dot, r as int);
        assert(cv[r as int] == list@);
        let mut idx: usize = 0;
        while idx < m
            invariant
                n == cands@.len(),
                r < n,
                cv == cands_view(cands@),
                list@ == cv[r as int],
                m == list@.len(),
                idx <= m,
                multi_list(st0, r as int, cv[r as int], before_dot, idx as int) == (PlanState {
                    calls: calls_view(calls@),
                    lists: lists@,
                    add_pos: add_pos as int,
                    add_arg,
                    failed,
                }),
            decreases m - idx,
        {
            let c = &list[idx];
            let tok = token_for(c, before_dot);
            let ghost before_calls = calls_view(calls@);
            if c.list {
                match c.reference_ty {
                    None => {
                        failed = true;
                    },
                    Some(rt) => {
                        lists.push(
                            ListIter {
                                prefixed: tok.prefixed,
                                ident: c.ident.clone(),
                                mutable: rt == ReferenceType::Mutable,
                            },
                        );
                    },
                }
            } else if c.additional_ty.is_some() {
                add_pos = r;
                add_arg = Some(tok);
            } else if idx < calls.len() {
                let mut v = calls.remove(idx);
                let ghost vv = v@;
                v.push(tok);
                calls.insert(idx, v);
                assert(calls_view(calls@) =~= before_calls.update(
                    idx as int,
                    before_calls[idx as int].push(token_of(list@[idx as int], before_dot)),
                ));
            } else {
                let mut v: Vec<ArgToken> = Vec::new();
                v.push(tok);
                calls.push(v);
                assert(calls_view(calls@) =~= before_calls.push(
                    seq![token_of(list@[idx as int], before_dot)],
                ));
            }
            idx = idx + 1;
        }
        r = r + 1;
    }
    let ghost st = multi_all(cv, before_dot, n as int);
    if failed {
        return Err(());
    }
    let ghost lists_spec = st.lists.map_values(|it: ListIter| list_call_of(it, st));
    let mut list_calls: Vec<ListCall> = Vec::new();
    let ln = lists.len();
    let mut k: usize = 0;
    while k < ln
        invariant
            ln == lists@.len(),
            st.lists == lists@,
            st.add_arg == add_arg,
            st.add_pos == add_pos as int,
            k <= ln,
            lists_spec == st.lists.map_values(|it: ListIter| list_call_of(it, st)),
            list_calls@ == lists_spec.take(k as int),
        decreases ln - k,
    {
        let it = &lists[k];
        let lc = ListCall {
            iter: ListIter { prefixed: it.prefixed, ident: it.ident.clone(), mutable: it.mutable },
            additional: clone_opt_token(&add_arg),
            additional_first: add_pos == 0,
        };
        list_calls.push(lc);
        assert(list_calls@ =~= lists_spec.take(k + 1));
        k = k + 1;
    }
    assert(lists_spec.take(ln as int) =~= lists_spec);
    match add_arg {
        None => Ok(FnCalls { calls, list_calls }),
        Some(a) => {
            let cn = calls.len();
            let mut i: usize = 0;
            while i < cn
                invariant
                    cn == calls@.len(),
                    i <= cn,
                    st == multi_all(cv, before_dot, n as int),
                    cv == cands_view(cands@),
                    n == cands@.len(),
                    !st.failed,
                    st.calls == calls_view(calls@),
                    st.add_pos == add_pos as int,
                    st.add_arg == Some(a),
                    forall|j: int| 0 <= j < i ==> calls@[j]@.len() >= add_pos,
                decreases cn - i,
            {
                if calls[i].len() < add_pos {
                    assert(st.calls[i as int].len() < st.add_pos);
                    return Err(());
                }
                i = i + 1;
            }
            assert(!exists|j: int| 0 <= j < st.calls.len() && st.calls[j].len() < st.add_pos) by {
                assert forall|j: int| 0 <= j < st.calls.len() implies st.calls[j].len() >= st.add_pos by {
                    assert(st.calls[j] == calls@[j]@);
                }
            }
            let ghost spec_calls = st.calls.map_values(|v: Seq<ArgToken>| v.insert(st.add_pos, a));
            let ghost orig = calls@;
            let mut out: Vec<Vec<ArgToken>> = Vec::new();
            let mut j: usize = 0;
            while j < cn
                invariant
                    cn == orig.len(),
                    j <= cn,
                    calls@ == orig.skip(j as int),
                    forall|q: int| 0 <= q < cn ==> orig[q]@.len() >= add_pos,
                    st.calls == calls_view(orig),
                    st.add_pos == add_pos as int,
                    spec_calls == st.calls.map_values(|v: Seq<ArgToken>| v.insert(st.add_pos, a)),
                    calls_view(out@) == spec_calls.take(j as int),
                decreases cn - j,
            {
                let mut v = calls.remove(0);
                assert(v@ == orig[j as int]@);
                let ghost prev = calls_view(out@);
                v.insert(add_pos, clone_token(&a));
                assert(st.calls[j as int] == orig[j as int]@);
                assert(v@ == spec_calls[j as int]);
                out.push(v);
                assert(calls_view(out@) =~= prev.push(spec_calls[j as int]));
                assert(calls@ =~= orig.skip(j + 1));
                assert(calls_view(out@) =~= spec_calls.take(j + 1));
                j = j + 1;
            }
            assert(spec_calls.take(cn as int) =~= spec_calls);
            Ok(FnCalls { calls: out, list_calls })
        },
    }
}


/// The names of a list of strings, as char sequences.
pub open spec fn names_view(v: Seq<String>) -> Seq<Seq<char>> {
    v.map_values(|s: String| s@)
}

fn contains_name(used: &Vec<String>, name: &String) -> (r: bool)
    ensures
        r == names_view(used@).contains(name@),
{
    let n = used.len();
    let mut i: usize = 0;
    while i < n
        invariant
            n == used@.len(),
            i <= n,
            forall|j: int| 0 <= j < i ==> used@[j]@ != name@,
        decreases n - i,
    {
        if text_eq(used[i].as_str(), name.as_str()) {
            assert(names_view(used@)[i as int] == name@);
            return true;
        }
        i = i + 1;
    }
    proof {
        if names_view(used@).contains(name@) {
            let j = choose|j: int| 0 <= j < names_view(used@).len() && names_view(used@)[j] == name@;
            assert(used@[j]@ == name@);
        }
    }
    false
}

fn find_pick(list: &Vec<Candidate>, used: &Vec<String>) -> (r: Option<usize>)
    ensures
        match first_pick(list@, names_view(used@), 0) {
            None => r is None,
            Some(j) => r is Some && r->0 == j,
        },
        r matches Some(j) ==> j < list@.len(),
{
    let n = list.len();
    let mut j: usize = 0;
    while j < n
        invariant
            n == list@.len(),
            j <= n,
            first_pick(list@, names_view(used@), 0) == first_pick(list@, names_view(used@), j as int),
        decreases n - j,
    {
        if !list[j].list && !contains_name(used, &list[j].ident) {
            return Some(j);
        }
        j = j + 1;
    }
    None
}

proof fn lemma_single_all_none_stays(cands: Seq<Seq<Candidate>>, before_dot: bool, m: int, n: int)
    requires
        0 < m <= n,
        single_all(cands, before_dot, m) is None,
    ensures
        single_all(cands, before_dot, n) is None,
    decreases n - m,
{
    if m < n {
        lemma_single_all_none_stays(cands, before_dot, m + 1, n);
    }
}

pub(crate) fn plan_single(cands: &Vec<Vec<Candidate>>, before_dot: bool) -> (r: Option<Vec<ArgToken>>)
    ensures
        match single_plan(cands_view(cands@), before_dot) {
            None => r is None,
            Some(args) => r is Some && r->0@ == args,
        },
{
    let ghost cv = cands_view(cands@);
    let n = cands.len();
    let mut args: Vec<ArgToken> = Vec::new();
    let mut used: Vec<String> = Vec::new();
    assert(names_view(used@) =~= Seq::<Seq<char>>::empty());
    let mut k: usize = 0;
    while k < n
        invariant
            n == cands@.len(),
            cv == cands_view(cands@),
            k <= n,
            single_all(cv, before_dot, k as int) == Some((args@, names_view(used@))),
        decreases n - k,
    {
        let list = &cands[k];
        assert(cv[k as int] == list@);
        match find_pick(list, &used) {
            None => {
                proof {
                    assert(single_all(cv, before_dot, (k + 1) as int) is None);
                    lemma_single_all_none_stays(cv, before_dot, (k + 1) as int, n as int);
                }
                return None;
            },
            Some(j) => {
                let ghost used_before = names_view(used@);
                let ghost args_before = args@;
                assert(first_pick(cv[k as int], used_before, 0) == Some(j as int));
                let tok = token_for(&list[j], before_dot);
                let id = list[j].ident.clone();
                assert(id@ == cv[k as int][j as int].ident@);
                args.push(tok);
                used.push(id);
                assert(args@ =~= args_before.push(token_of(cv[k as int][j as int], before_dot)));
                assert(names_view(used@) =~= used_before.push(cv[k as int][j as int].ident@));
                assert(single_all(cv, before_dot, (k + 1) as int) == Some((args@, names_view(used@))));
            },
        }
        k = k + 1;
    }
    let ghost used_s = names_view(used@);
    let mut r: usize = 0;
    while r < n
        invariant
            n == cands@.len(),
            cv == cands_view(cands@),
            used_s == names_view(used@),
            single_all(cv, before_dot, n as int) == Some((args@, used_s)),
            r <= n,
            forall|q: int, j: int|
                0 <= q < r && 0 <= j < cv[q].len() && !(#[trigger] cv[q][j]).list ==> used_s.contains(cv[q][j].ident@),
        decreases n - r,
    {
        let list = &cands[r];
        assert(cv[r as int] == list@);
        let m = list.len();
        let mut j: usize = 0;
        while j < m
            invariant
                n == cands@.len(),
                cv == cands_view(cands@),
                used_s == names_view(used@),
                single_all(cv, before_dot, n as int) == Some((args@, used_s)),
                r < n,
                list@ == cv[r as int],
                m == list@.len(),
                j <= m,
                forall|q: int, i: int|
                    0 <= q < r && 0 <= i < cv[q].len() && !(#[trigger] cv[q][i]).list ==> used_s.contains(cv[q][i].ident@),
                forall|i: int|
                    0 <= i < j && !(#[trigger] cv[r as int][i]).list ==> used_s.contains(cv[r as int][i].ident@),
            decreases m - j,
        {
            if !list[j].list && !contains_name(&used, &list[j].ident) {
                assert(!cv[r as int][j as int].list && !used_s.contains(cv[r as int][j as int].ident@));
                return None;
            }
            j = j + 1;
        }
        r = r + 1;
    }
    Some(args)
}

} // verus!
