//! The system handlers of the exhaustive traversal: one for each kind of syntax node
//! that the traversal descends into, each taking the node by `&mut` and the
//! additional input.
use vstd::prelude::*;

use crate::essential_fn::{FnArgModel, SignatureModel};
use crate::names::MacroFnNames;
use crate::type_model::{copy_type, same_type, ArgumentsModel, GenericArgModel, PathModel, SegmentModel, TypeModel};

verus! {

/// How many system handlers there are.
pub const SYSTEM_HANDLER_COUNT: usize = 48;

/// The name of the `k`-th system handler.
pub open spec fn system_handler_name(n: MacroFnNames, k: int) -> Seq<char> {
    if k == 0 {
        n.item@
    } else if k == 1 {
        n.expr@
    } else if k == 2 {
        n.expr_option@
    } else if k == 3 {
        n.block@
    } else if k == 4 {
        n.stmt@
    } else if k == 5 {
        n.generic_param@
    } else if k == 6 {
        n.generics@
    } else if k == 7 {
        n.type_param_bound@
    } else if k == 8 {
        n.bound_lifetimes@
    } else if k == 9 {
        n.bound_lifetimes_option@
    } else if k == 10 {
        n.where_predicate@
    } else if k == 11 {
        n.impl_item@
    } else if k == 12 {
        n.item_mod_content@
    } else if k == 13 {
        n.fields@
    } else if k == 14 {
        n.trait_item@
    } else if k == 15 {
        n.fields_named@
    } else if k == 16 {
        n.option_box_expr@
    } else if k == 17 {
        n.pat@
    } else if k == 18 {
        n.option_else_expr@
    } else if k == 19 {
        n.arm@
    } else if k == 20 {
        n.angle_bracketed_generic_arguments@
    } else if k == 21 {
        n.field_value@
    } else if k == 22 {
        n.local_init@
    } else if k == 23 {
        n.option_local_init@
    } else if k == 24 {
        n.signature@
    } else if k == 25 {
        n.where_clause@
    } else if k == 26 {
        n.where_clause_option@
    } else if k == 27 {
        n.fn_arg@
    } else if k == 28 {
        n.variadic_pat@
    } else if k == 29 {
        n.variadic@
    } else if k == 30 {
        n.variadic_option@
    } else if k == 31 {
        n.field@
    } else if k == 32 {
        n.option_block@
    } else if k == 33 {
        n.option_eq_expr@
    } else if k == 34 {
        n.field_pat@
    } else if k == 35 {
        n.option_at_pat@
    } else if k == 36 {
        n.arm_guard@
    } else if k == 37 {
        n.option_angle_bracketed_generic_arguments@
    } else if k == 38 {
        n.generic_argument@
    } else if k == 39 {
        n.ty@
    } else if k == 40 {
        n.option_ty@
    } else if k == 41 {
        n.bare_fn_arg@
    } else if k == 42 {
        n.return_type@
    } else if k == 43 {
        n.variant@
    } else if k == 44 {
        n.foreign_item@
    } else if k == 45 {
        n.qself@
    } else if k == 46 {
        n.option_eq_type@
    } else {
        n.option_qself@
    }
}

/// `t` is the path `name`, one segment without arguments.
pub open spec fn is_named(t: TypeModel, name: Seq<char>) -> bool {
    t matches TypeModel::Path { qself: None, path } && !path.leading_colon && path.segments@.len() == 1
        && path.segments@[0].ident@ == name && path.segments@[0].arguments is Plain
}

/// The type argument of `t` when `t` is `name<arg>`, one segment with one type argument.
pub open spec fn generic_arg(t: TypeModel, name: Seq<char>) -> Option<TypeModel> {
    match t {
        TypeModel::Path { qself: None, path } => if !path.leading_colon && path.segments@.len() == 1
            && path.segments@[0].ident@ == name {
            match path.segments@[0].arguments {
                ArgumentsModel::AngleBracketed { colon2: false, args } => if args@.len() == 1 {
                    match args@[0] {
                        GenericArgModel::Type(u) => Some(u),
                        _ => None,
                    }
                } else {
                    None
                },
                _ => None,
            }
        } else {
            None
        },
        _ => None,
    }
}

/// `t` is `name<u>` for a type `u` that `arg` accepts.
pub open spec fn is_generic(t: TypeModel, name: Seq<char>, arg: spec_fn(TypeModel) -> bool) -> bool {
    generic_arg(t, name) matches Some(u) && arg(u)
}

/// The two elements of `t` when `t` is a pair `(a, b)`.
pub open spec fn pair_elems(t: TypeModel) -> Option<(TypeModel, TypeModel)> {
    match t {
        TypeModel::Tuple { elems, trailing_comma: false } => if elems@.len() == 2 {
            Some((elems@[0], elems@[1]))
        } else {
            None
        },
        _ => None,
    }
}

/// `t` is a pair `(a, b)` whose elements `fa` and `fb` accept.
pub open spec fn is_pair(t: TypeModel, fa: spec_fn(TypeModel) -> bool, fb: spec_fn(TypeModel) -> bool) -> bool {
    pair_elems(t) matches Some((a, b)) && fa(a) && fb(b)
}

/// `t` is `Token![tok]`.
pub open spec fn is_token(t: TypeModel, tok: Seq<char>) -> bool {
    t matches TypeModel::Macro { path, tokens } && !path.leading_colon && path.segments@.len() == 1
        && path.segments@[0].ident@ == "Token"@ && path.segments@[0].arguments is Plain && tokens@ == tok
}

/// `t` is `syn::token::Brace`.
pub open spec fn is_brace_token(t: TypeModel) -> bool {
    t matches TypeModel::Path { qself: None, path } && !path.leading_colon && path.segments@.len() == 3
        && path.segments@[0].ident@ == "syn"@ && path.segments@[0].arguments is Plain
        && path.segments@[1].ident@ == "token"@ && path.segments@[1].arguments is Plain
        && path.segments@[2].ident@ == "Brace"@ && path.segments@[2].arguments is Plain
}

/// The syntax node that the `k`-th system handler takes (by `&mut`).
pub open spec fn system_handler_node(t: TypeModel, k: int) -> bool {
    if k == 0 {
        is_named(t, "Item"@)
    } else if k == 1 {
        is_named(t, "Expr"@)
    } else if k == 2 {
        is_generic(t, "Option"@, |u: TypeModel| is_named(u, "Expr"@))
    } else if k == 3 {
        is_named(t, "Block"@)
    } else if k == 4 {
        is_named(t, "Stmt"@)
    } else if k == 5 {
        is_named(t, "GenericParam"@)
    } else if k == 6 {
        is_named(t, "Generics"@)
    } else if k == 7 {
        is_named(t, "TypeParamBound"@)
    } else if k == 8 {
        is_named(t, "BoundLifetimes"@)
    } else if k == 9 {
        is_generic(t, "Option"@, |u: TypeModel| is_named(u, "BoundLifetimes"@))
    } else if k == 10 {
        is_named(t, "WherePredicate"@)
    } else if k == 11 {
        is_named(t, "ImplItem"@)
    } else if k == 12 {
        is_generic(t, "Option"@, |u: TypeModel| is_pair(u, |a: TypeModel| is_brace_token(a), |b: TypeModel| is_generic(b, "Vec"@, |u: TypeModel| is_named(u, "Item"@))))
    } else if k == 13 {
        is_named(t, "Fields"@)
    } else if k == 14 {
        is_named(t, "TraitItem"@)
    } else if k == 15 {
        is_named(t, "FieldsNamed"@)
    } else if k == 16 {
        is_generic(t, "Option"@, |u: TypeModel| is_generic(u, "Box"@, |u: TypeModel| is_named(u, "Expr"@)))
    } else if k == 17 {
        is_named(t, "Pat"@)
    } else if k == 18 {
        is_generic(t, "Option"@, |u: TypeModel| is_pair(u, |a: TypeModel| is_token(a, "else"@), |b: TypeModel| is_generic(b, "Box"@, |u: TypeModel| is_named(u, "Expr"@))))
    } else if k == 19 {
        is_named(t, "Arm"@)
    } else if k == 20 {
        is_named(t, "AngleBracketedGenericArguments"@)
    } else if k == 21 {
        is_named(t, "FieldValue"@)
    } else if k == 22 {
        is_named(t, "LocalInit"@)
    } else if k == 23 {
        is_generic(t, "Option"@, |u: TypeModel| is_named(u, "LocalInit"@))
    } else if k == 24 {
        is_named(t, "Signature"@)
    } else if k == 25 {
        is_named(t, "WhereClause"@)
    } else if k == 26 {
        is_generic(t, "Option"@, |u: TypeModel| is_named(u, "WhereClause"@))
    } else if k == 27 {
        is_named(t, "FnArg"@)
    } else if k == 28 {
        is_generic(t, "Option"@, |u: TypeModel| is_pair(u, |a: TypeModel| is_generic(a, "Box"@, |u: TypeModel| is_named(u, "Pat"@)), |b: TypeModel| is_token(b, ":"@)))
    } else if k == 29 {
        is_named(t, "Variadic"@)
    } else if k == 30 {
        is_generic(t, "Option"@, |u: TypeModel| is_named(u, "Variadic"@))
    } else if k == 31 {
        is_named(t, "Field"@)
    } else if k == 32 {
        is_generic(t, "Option"@, |u: TypeModel| is_named(u, "Block"@))
    } else if k == 33 {
        is_generic(t, "Option"@, |u: TypeModel| is_pair(u, |a: TypeModel| is_token(a, "="@), |b: TypeModel| is_named(b, "Expr"@)))
    } else if k == 34 {
        is_named(t, "FieldPat"@)
    } else if k == 35 {
        is_generic(t, "Option"@, |u: TypeModel| is_pair(u, |a: TypeModel| is_token(a, "@"@), |b: TypeModel| is_generic(b, "Box"@, |u: TypeModel| is_named(u, "Pat"@))))
    } else if k == 36 {
        is_generic(t, "Option"@, |u: TypeModel| is_pair(u, |a: TypeModel| is_token(a, "if"@), |b: TypeModel| is_generic(b, "Box"@, |u: TypeModel| is_named(u, "Expr"@))))
    } else if k == 37 {
        is_generic(t, "Option"@, |u: TypeModel| is_named(u, "AngleBracketedGenericArguments"@))
    } else if k == 38 {
        is_named(t, "GenericArgument"@)
    } else if k == 39 {
        is_named(t, "Type"@)
    } else if k == 40 {
        is_generic(t, "Option"@, |u: TypeModel| is_named(u, "Type"@))
    } else if k == 41 {
        is_named(t, "BareFnArg"@)
    } else if k == 42 {
        is_named(t, "ReturnType"@)
    } else if k == 43 {
        is_named(t, "Variant"@)
    } else if k == 44 {
        is_named(t, "ForeignItem"@)
    } else if k == 45 {
        is_named(t, "QSelf"@)
    } else if k == 46 {
        is_generic(t, "Option"@, |u: TypeModel| is_pair(u, |a: TypeModel| is_token(a, "="@), |b: TypeModel| is_named(b, "Type"@)))
    } else {
        is_generic(t, "Option"@, |u: TypeModel| is_named(u, "QSelf"@))
    }
}

fn seg(name: &str) -> (r: SegmentModel)
    ensures
        r.ident@ == name@,
        r.arguments is Plain,
{
    SegmentModel { ident: String::from_str(name), arguments: ArgumentsModel::Plain }
}

fn one_segment(s: SegmentModel) -> (r: PathModel)
    ensures
        !r.leading_colon,
        r.segments@ == seq![s],
{
    let mut segments: Vec<SegmentModel> = Vec::new();
    segments.push(s);
    PathModel { leading_colon: false, segments }
}

fn plain(name: &str) -> (r: TypeModel)
    ensures
        is_named(r, name@),
{
    TypeModel::Path { qself: None, path: one_segment(seg(name)) }
}

fn generic(name: &str, arg: TypeModel) -> (r: TypeModel)
    ensures
        generic_arg(r, name@) == Some(arg),
{
    let mut args: Vec<GenericArgModel> = Vec::new();
    args.push(GenericArgModel::Type(arg));
    let s = SegmentModel {
        ident: String::from_str(name),
        arguments: ArgumentsModel::AngleBracketed { colon2: false, args },
    };
    TypeModel::Path { qself: None, path: one_segment(s) }
}

fn pair(a: TypeModel, b: TypeModel) -> (r: TypeModel)
    ensures
        pair_elems(r) == Some((a, b)),
{
    let mut elems: Vec<TypeModel> = Vec::new();
    elems.push(a);
    elems.push(b);
    TypeModel::Tuple { elems, trailing_comma: false }
}

/// `Token![tok]`.
fn token(tok: &str) -> (r: TypeModel)
    ensures
        is_token(r, tok@),
{
    TypeModel::Macro { path: one_segment(seg("Token")), tokens: String::from_str(tok) }
}

/// `syn::token::Brace`.
fn brace_token() -> (r: TypeModel)
    ensures
        is_brace_token(r),
{
    let mut segments: Vec<SegmentModel> = Vec::new();
    segments.push(seg("syn"));
    segments.push(seg("token"));
    segments.push(seg("Brace"));
    TypeModel::Path { qself: None, path: PathModel { leading_colon: false, segments } }
}

/// The name of the `k`-th system handler and the type of the node it takes.
fn handler_entry(names: &MacroFnNames, k: usize) -> (r: (String, TypeModel))
    requires
        k < SYSTEM_HANDLER_COUNT,
    ensures
        r.0@ == system_handler_name(*names, k as int),
        system_handler_node(r.1, k as int),
{
    match k {
        0 => (names.item.clone(), plain("Item")),
        1 => (names.expr.clone(), plain("Expr")),
        2 => (names.expr_option.clone(), generic("Option", plain("Expr"))),
        3 => (names.block.clone(), plain("Block")),
        4 => (names.stmt.clone(), plain("Stmt")),
        5 => (names.generic_param.clone(), plain("GenericParam")),
        6 => (names.generics.clone(), plain("Generics")),
        7 => (names.type_param_bound.clone(), plain("TypeParamBound")),
        8 => (names.bound_lifetimes.clone(), plain("BoundLifetimes")),
        9 => (names.bound_lifetimes_option.clone(), generic("Option", plain("BoundLifetimes"))),
        10 => (names.where_predicate.clone(), plain("WherePredicate")),
        11 => (names.impl_item.clone(), plain("ImplItem")),
        12 => (names.item_mod_content.clone(), generic("Option", pair(brace_token(), generic("Vec", plain("Item"))))),
        13 => (names.fields.clone(), plain("Fields")),
        14 => (names.trait_item.clone(), plain("TraitItem")),
        15 => (names.fields_named.clone(), plain("FieldsNamed")),
        16 => (names.option_box_expr.clone(), generic("Option", generic("Box", plain("Expr")))),
        17 => (names.pat.clone(), plain("Pat")),
        18 => (names.option_else_expr.clone(), generic("Option", pair(token("else"), generic("Box", plain("Expr"))))),
        19 => (names.arm.clone(), plain("Arm")),
        20 => (names.angle_bracketed_generic_arguments.clone(), plain("AngleBracketedGenericArguments")),
        21 => (names.field_value.clone(), plain("FieldValue")),
        22 => (names.local_init.clone(), plain("LocalInit")),
        23 => (names.option_local_init.clone(), generic("Option", plain("LocalInit"))),
        24 => (names.signature.clone(), plain("Signature")),
        25 => (names.where_clause.clone(), plain("WhereClause")),
        26 => (names.where_clause_option.clone(), generic("Option", plain("WhereClause"))),
        27 => (names.fn_arg.clone(), plain("FnArg")),
        28 => (names.variadic_pat.clone(), generic("Option", pair(generic("Box", plain("Pat")), token(":")))),
        29 => (names.variadic.clone(), plain("Variadic")),
        30 => (names.variadic_option.clone(), generic("Option", plain("Variadic"))),
        31 => (names.field.clone(), plain("Field")),
        32 => (names.option_block.clone(), generic("Option", plain("Block"))),
        33 => (names.option_eq_expr.clone(), generic("Option", pair(token("="), plain("Expr")))),
        34 => (names.field_pat.clone(), plain("FieldPat")),
        35 => (names.option_at_pat.clone(), generic("Option", pair(token("@"), generic("Box", plain("Pat"))))),
        36 => (names.arm_guard.clone(), generic("Option", pair(token("if"), generic("Box", plain("Expr"))))),
        37 => (names.option_angle_bracketed_generic_arguments.clone(), generic("Option", plain("AngleBracketedGenericArguments"))),
        38 => (names.generic_argument.clone(), plain("GenericArgument")),
        39 => (names.ty.clone(), plain("Type")),
        40 => (names.option_ty.clone(), generic("Option", plain("Type"))),
        41 => (names.bare_fn_arg.clone(), plain("BareFnArg")),
        42 => (names.return_type.clone(), plain("ReturnType")),
        43 => (names.variant.clone(), plain("Variant")),
        44 => (names.foreign_item.clone(), plain("ForeignItem")),
        45 => (names.qself.clone(), plain("QSelf")),
        46 => (names.option_eq_type.clone(), generic("Option", pair(token("="), plain("Type")))),
        _ => (names.option_qself.clone(), generic("Option", plain("QSelf"))),
    }
}

/// The signatures of the system handlers for the handler names `names`: each takes
/// its node as `&mut` and then the additional input, of type `additional_ty`.
pub fn system_signatures(names: &MacroFnNames, additional_ty: &TypeModel) -> (r: Vec<SignatureModel>)
    ensures
        r@.len() == SYSTEM_HANDLER_COUNT,
        forall|k: int|
            0 <= k < r@.len() ==> {
                &&& (#[trigger] r@[k]).ident@ == system_handler_name(*names, k)
                &&& r@[k].inputs@.len() == 2
                &&& r@[k].inputs@[0] matches FnArgModel::Typed(
                    TypeModel::Reference { lifetime: None, mutable: true, elem },
                ) && system_handler_node(*elem, k)
                &&& r@[k].inputs@[1] matches FnArgModel::Typed(t) && same_type(t, *additional_ty)
            },
{
    let mut out: Vec<SignatureModel> = Vec::new();
    let mut k: usize = 0;
    while k < SYSTEM_HANDLER_COUNT
        invariant
            k <= SYSTEM_HANDLER_COUNT,
            out@.len() == k,
            forall|j: int|
                0 <= j < k ==> {
                    &&& (#[trigger] out@[j]).ident@ == system_handler_name(*names, j)
                    &&& out@[j].inputs@.len() == 2
                    &&& out@[j].inputs@[0] matches FnArgModel::Typed(
                        TypeModel::Reference { lifetime: None, mutable: true, elem },
                    ) && system_handler_node(*elem, j)
                    &&& out@[j].inputs@[1] matches FnArgModel::Typed(t) && same_type(t, *additional_ty)
                },
        decreases SYSTEM_HANDLER_COUNT - k,
    {
        let (ident, node) = handler_entry(names, k);
        let node_arg = FnArgModel::Typed(TypeModel::Reference { lifetime: None, mutable: true, elem: Box::new(node) });
        let add_arg = FnArgModel::Typed(copy_type(additional_ty));
        out.push(SignatureModel { ident, inputs: vec![node_arg, add_arg] });
        k = k + 1;
    }
    out
}

} // verus!
