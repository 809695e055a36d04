//! A plain model of Rust types as the parser sees them, and the loose type equality
//! that the syntax-tree traversal uses to match handler parameters to fields.
use vstd::prelude::*;

use crate::text::text_eq;

verus! {

/// A type. Kinds that the matching never looks into hold their printed tokens.
pub enum TypeModel {
    /// `[elem; len]`, with the length expression as printed.
    Array { elem: Box<TypeModel>, len: String },
    /// `fn(..) -> ..`
    BareFn(String),
    /// A type in an invisible group.
    Group(Box<TypeModel>),
    /// `impl Trait`
    ImplTrait(String),
    /// `_`
    Infer,
    /// A macro in type position: its path and its tokens as printed.
    Macro { path: PathModel, tokens: String },
    /// `!`
    Never,
    /// `(elem)`
    Paren(Box<TypeModel>),
    /// A path, possibly with a qualified self type (`<ty as Trait>::..`).
    Path { qself: Option<QSelfModel>, path: PathModel },
    /// `*const elem` or `*mut elem`.
    Ptr { const_token: bool, mutable: bool, elem: Box<TypeModel> },
    /// `&'lifetime mut elem`
    Reference { lifetime: Option<String>, mutable: bool, elem: Box<TypeModel> },
    /// `[elem]`
    Slice(Box<TypeModel>),
    /// `dyn Trait`
    TraitObject(String),
    /// `(elems, ..)`, with whether the last element is followed by a comma.
    Tuple { elems: Vec<TypeModel>, trailing_comma: bool },
    /// Tokens that are no type the parser knows.
    Verbatim(String),
}

/// `<ty as Trait>::..`: the self type, the position of the trait in the path, and
/// whether `as` is present.
pub struct QSelfModel {
    pub ty: Box<TypeModel>,
    pub position: usize,
    pub as_token: bool,
}

/// A path: whether it starts with `::`, and its segments.
pub struct PathModel {
    pub leading_colon: bool,
    pub segments: Vec<SegmentModel>,
}

/// One segment of a path: its identifier and its arguments.
pub struct SegmentModel {
    pub ident: String,
    pub arguments: ArgumentsModel,
}

/// The arguments of a path segment.
pub enum ArgumentsModel {
    /// No arguments.
    Plain,
    /// `<args>`, with whether it is written `::<args>`.
    AngleBracketed { colon2: bool, args: Vec<GenericArgModel> },
    /// `(A, B) -> C`, as printed.
    Parenthesized(String),
}

/// One argument between angle brackets.
pub enum GenericArgModel {
    /// A lifetime, by its name.
    Lifetime(String),
    /// A type.
    Type(TypeModel),
    /// A const expression, as printed.
    Const(String),
    /// `Item = Type`, as printed.
    AssocType(String),
    /// `N = expr`, as printed.
    AssocConst(String),
    /// `Item: Bound`, as printed.
    Constraint(String),
}

// ---------------------------------------------------------------------------
// Structural equality: the same type written the same way.

/// The two types are written the same way.
pub open spec fn same_type(a: TypeModel, b: TypeModel) -> bool
    decreases a,
{
    match (a, b) {
        (TypeModel::Array { elem: e1, len: l1 }, TypeModel::Array { elem: e2, len: l2 }) => l1@
            == l2@ && same_type(*e1, *e2),
        (TypeModel::BareFn(x), TypeModel::BareFn(y)) => x@ == y@,
        (TypeModel::Group(e1), TypeModel::Group(e2)) => same_type(*e1, *e2),
        (TypeModel::ImplTrait(x), TypeModel::ImplTrait(y)) => x@ == y@,
        (TypeModel::Infer, TypeModel::Infer) => true,
        (TypeModel::Macro { path: p1, tokens: t1 }, TypeModel::Macro { path: p2, tokens: t2 }) => t1@
            == t2@ && same_path(p1, p2),
        (TypeModel::Never, TypeModel::Never) => true,
        (TypeModel::Paren(e1), TypeModel::Paren(e2)) => same_type(*e1, *e2),
        (TypeModel::Path { qself: q1, path: p1 }, TypeModel::Path { qself: q2, path: p2 }) => same_path(
            p1,
            p2,
        ) && match (q1, q2) {
            (None, None) => true,
            (Some(x), Some(y)) => x.position == y.position && x.as_token == y.as_token && same_type(
                *x.ty,
                *y.ty,
            ),
            _ => false,
        },
        (
            TypeModel::Ptr { const_token: c1, mutable: m1, elem: e1 },
            TypeModel::Ptr { const_token: c2, mutable: m2, elem: e2 },
        ) => c1 == c2 && m1 == m2 && same_type(*e1, *e2),
        (
            TypeModel::Reference { lifetime: l1, mutable: m1, elem: e1 },
            TypeModel::Reference { lifetime: l2, mutable: m2, elem: e2 },
        ) => m1 == m2 && same_type(*e1, *e2) && match (l1, l2) {
            (None, None) => true,
            (Some(x), Some(y)) => x@ == y@,
            _ => false,
        },
        (TypeModel::Slice(e1), TypeModel::Slice(e2)) => same_type(*e1, *e2),
        (TypeModel::TraitObject(x), TypeModel::TraitObject(y)) => x@ == y@,
        (
            TypeModel::Tuple { elems: v1, trailing_comma: c1 },
            TypeModel::Tuple { elems: v2, trailing_comma: c2 },
        ) => c1 == c2 && same_types(v1@, v2@),
        (TypeModel::Verbatim(x), TypeModel::Verbatim(y)) => x@ == y@,
        _ => false,
    }
}

/// The two sequences of types are written the same way.
pub open spec fn same_types(a: Seq<TypeModel>, b: Seq<TypeModel>) -> bool
    decreases a,
{
    if a.len() == 0 {
        b.len() == 0
    } else {
        b.len() > 0 && same_type(a[0], b[0]) && same_types(a.drop_first(), b.drop_first())
    }
}

/// The two paths are written the same way.
pub open spec fn same_path(a: PathModel, b: PathModel) -> bool
    decreases a,
{
    a.leading_colon == b.leading_colon && same_segments(a.segments@, b.segments@)
}

/// The two sequences of segments are written the same way.
pub open spec fn same_segments(a: Seq<SegmentModel>, b: Seq<SegmentModel>) -> bool
    decreases a,
{
    if a.len() == 0 {
        b.len() == 0
    } else {
        b.len() > 0 && a[0].ident@ == b[0].ident@ && same_arguments(a[0].arguments, b[0].arguments)
            && same_segments(a.drop_first(), b.drop_first())
    }
}

/// The two argument lists are written the same way.
pub open spec fn same_arguments(a: ArgumentsModel, b: ArgumentsModel) -> bool
    decreases a,
{
    match (a, b) {
        (ArgumentsModel::Plain, ArgumentsModel::Plain) => true,
        (
            ArgumentsModel::AngleBracketed { colon2: c1, args: x },
            ArgumentsModel::AngleBracketed { colon2: c2, args: y },
        ) => c1 == c2 && same_generic_args(x@, y@),
        (ArgumentsModel::Parenthesized(x), ArgumentsModel::Parenthesized(y)) => x@ == y@,
        _ => false,
    }
}

/// The two sequences of generic arguments are written the same way.
pub open spec fn same_generic_args(a: Seq<GenericArgModel>, b: Seq<GenericArgModel>) -> bool
    decreases a,
{
    if a.len() == 0 {
        b.len() == 0
    } else {
        b.len() > 0 && same_generic_arg(a[0], b[0]) && same_generic_args(
            a.drop_first(),
            b.drop_first(),
        )
    }
}

/// The two generic arguments are written the same way.
pub open spec fn same_generic_arg(a: GenericArgModel, b: GenericArgModel) -> bool
    decreases a,
{
    match (a, b) {
        (GenericArgModel::Lifetime(x), GenericArgModel::Lifetime(y)) => x@ == y@,
        (GenericArgModel::Type(x), GenericArgModel::Type(y)) => same_type(x, y),
        (GenericArgModel::Const(x), GenericArgModel::Const(y)) => x@ == y@,
        (GenericArgModel::AssocType(x), GenericArgModel::AssocType(y)) => x@ == y@,
        (GenericArgModel::AssocConst(x), GenericArgModel::AssocConst(y)) => x@ == y@,
        (GenericArgModel::Constraint(x), GenericArgModel::Constraint(y)) => x@ == y@,
        _ => false,
    }
}

fn opt_text_eq(a: &Option<String>, b: &Option<String>) -> (r: bool)
    ensures
        r == match (*a, *b) {
            (None, None) => true,
            (Some(x), Some(y)) => x@ == y@,
            _ => false,
        },
{
    match (a, b) {
        (None, None) => true,
        (Some(x), Some(y)) => text_eq(x.as_str(), y.as_str()),
        _ => false,
    }
}

/// Whether two types are written the same way.
pub fn type_same(a: &TypeModel, b: &TypeModel) -> (r: bool)
    ensures
        r == same_type(*a, *b),
    decreases *a,
{
    match (a, b) {
        (TypeModel::Array { elem: e1, len: l1 }, TypeModel::Array { elem: e2, len: l2 }) => {
            text_eq(l1.as_str(), l2.as_str()) && type_same(e1, e2)
        },
        (TypeModel::BareFn(x), TypeModel::BareFn(y)) => text_eq(x.as_str(), y.as_str()),
        (TypeModel::Group(e1), TypeModel::Group(e2)) => type_same(e1, e2),
        (TypeModel::ImplTrait(x), TypeModel::ImplTrait(y)) => text_eq(x.as_str(), y.as_str()),
        (TypeModel::Infer, TypeModel::Infer) => true,
        (TypeModel::Macro { path: p1, tokens: t1 }, TypeModel::Macro { path: p2, tokens: t2 }) => {
            text_eq(t1.as_str(), t2.as_str()) && path_same(p1, p2)
        },
        (TypeModel::Never, TypeModel::Never) => true,
        (TypeModel::Paren(e1), TypeModel::Paren(e2)) => type_same(e1, e2),
        (TypeModel::Path { qself: q1, path: p1 }, TypeModel::Path { qself: q2, path: p2 }) => {
            if !path_same(p1, p2) {
                return false;
            }
            match (q1, q2) {
                (None, None) => true,
                (Some(x), Some(y)) => x.position == y.position && x.as_token == y.as_token
                    && type_same(&x.ty, &y.ty),
                _ => false,
            }
        },
        (
            TypeModel::Ptr { const_token: c1, mutable: m1, elem: e1 },
            TypeModel::Ptr { const_token: c2, mutable: m2, elem: e2 },
        ) => *c1 == *c2 && *m1 == *m2 && type_same(e1, e2),
        (
            TypeModel::Reference { lifetime: l1, mutable: m1, elem: e1 },
            TypeModel::Reference { lifetime: l2, mutable: m2, elem: e2 },
        ) => *m1 == *m2 && type_same(e1, e2) && opt_text_eq(l1, l2),
        (TypeModel::Slice(e1), TypeModel::Slice(e2)) => type_same(e1, e2),
        (TypeModel::TraitObject(x), TypeModel::TraitObject(y)) => text_eq(x.as_str(), y.as_str()),
        (
            TypeModel::Tuple { elems: v1, trailing_comma: c1 },
            TypeModel::Tuple { elems: v2, trailing_comma: c2 },
        ) => {
            assert(v1@.skip(0) =~= v1@);
            assert(v2@.skip(0) =~= v2@);
            *c1 == *c2 && types_same(v1, v2, 0)
        },
        (TypeModel::Verbatim(x), TypeModel::Verbatim(y)) => text_eq(x.as_str(), y.as_str()),
        _ => false,
    }
}

fn types_same(a: &Vec<TypeModel>, b: &Vec<TypeModel>, i: usize) -> (r: bool)
    requires
        i <= a@.len(),
        i <= b@.len(),
    ensures
        r == same_types(a@.skip(i as int), b@.skip(i as int)),
    decreases a@, a@.len() - i,
{
    if i == a.len() {
        return i == b.len();
    }
    if i == b.len() {
        return false;
    }
    assert(a@.skip(i as int)[0] == a@[i as int]);
    assert(b@.skip(i as int)[0] == b@[i as int]);
    assert(a@.skip(i as int).drop_first() =~= a@.skip(i + 1));
    assert(b@.skip(i as int).drop_first() =~= b@.skip(i + 1));
    type_same(&a[i], &b[i]) && types_same(a, b, i + 1)
}

fn path_same(a: &PathModel, b: &PathModel) -> (r: bool)
    ensures
        r == same_path(*a, *b),
    decreases *a,
{
    assert(a.segments@.skip(0) =~= a.segments@);
    assert(b.segments@.skip(0) =~= b.segments@);
    a.leading_colon == b.leading_colon && segments_same(&a.segments, &b.segments, 0)
}

fn segments_same(a: &Vec<SegmentModel>, b: &Vec<SegmentModel>, i: usize) -> (r: bool)
    requires
        i <= a@.len(),
        i <= b@.len(),
    ensures
        r == same_segments(a@.skip(i as int), b@.skip(i as int)),
    decreases a@, a@.len() - i,
{
    if i == a.len() {
        return i == b.len();
    }
    if i == b.len() {
        return false;
    }
    assert(a@.skip(i as int)[0] == a@[i as int]);
    assert(b@.skip(i as int)[0] == b@[i as int]);
    assert(a@.skip(i as int).drop_first() =~= a@.skip(i + 1));
    assert(b@.skip(i as int).drop_first() =~= b@.skip(i + 1));
    text_eq(a[i].ident.as_str(), b[i].ident.as_str()) && arguments_same(
        &a[i].arguments,
        &b[i].arguments,
    ) && segments_same(a, b, i + 1)
}

fn arguments_same(a: &ArgumentsModel, b: &ArgumentsModel) -> (r: bool)
    ensures
        r == same_arguments(*a, *b),
    decreases *a,
{
    match (a, b) {
        (ArgumentsModel::Plain, ArgumentsModel::Plain) => true,
        (
            ArgumentsModel::AngleBracketed { colon2: c1, args: x },
            ArgumentsModel::AngleBracketed { colon2: c2, args: y },
        ) => {
            assert(x@.skip(0) =~= x@);
            assert(y@.skip(0) =~= y@);
            *c1 == *c2 && generic_args_same(x, y, 0)
        },
        (ArgumentsModel::Parenthesized(x), ArgumentsModel::Parenthesized(y)) => text_eq(
            x.as_str(),
            y.as_str(),
        ),
        _ => false,
    }
}

fn generic_args_same(a: &Vec<GenericArgModel>, b: &Vec<GenericArgModel>, i: usize) -> (r: bool)
    requires
        i <= a@.len(),
        i <= b@.len(),
    ensures
        r == same_generic_args(a@.skip(i as int), b@.skip(i as int)),
    decreases a@, a@.len() - i,
{
    if i == a.len() {
        return i == b.len();
    }
    if i == b.len() {
        return false;
    }
    assert(a@.skip(i as int)[0] == a@[i as int]);
    assert(b@.skip(i as int)[0] == b@[i as int]);
    assert(a@.skip(i as int).drop_first() =~= a@.skip(i + 1));
    assert(b@.skip(i as int).drop_first() =~= b@.skip(i + 1));
    generic_arg_same(&a[i], &b[i]) && generic_args_same(a, b, i + 1)
}

fn generic_arg_same(a: &GenericArgModel, b: &GenericArgModel) -> (r: bool)
    ensures
        r == same_generic_arg(*a, *b),
    decreases *a,
{
    match (a, b) {
        (GenericArgModel::Lifetime(x), GenericArgModel::Lifetime(y)) => text_eq(
            x.as_str(),
            y.as_str(),
        ),
        (GenericArgModel::Type(x), GenericArgModel::Type(y)) => type_same(x, y),
        (GenericArgModel::Const(x), GenericArgModel::Const(y)) => text_eq(x.as_str(), y.as_str()),
        (GenericArgModel::AssocType(x), GenericArgModel::AssocType(y)) => text_eq(
            x.as_str(),
            y.as_str(),
        ),
        (GenericArgModel::AssocConst(x), GenericArgModel::AssocConst(y)) => text_eq(
            x.as_str(),
            y.as_str(),
        ),
        (GenericArgModel::Constraint(x), GenericArgModel::Constraint(y)) => text_eq(
            x.as_str(),
            y.as_str(),
        ),
        _ => false,
    }
}

// ---------------------------------------------------------------------------
// Loose equality: the last segment of a path decides, wrappers are looked through.
// `None` stands for a pair of kinds that cannot be compared.

/// Whether two types are equal for the traversal, looking only at the last segment
/// of paths (so `syn::Expr` equals `Expr`), and `None` for a pair of kinds that it
/// cannot compare (two different function pointers, `impl` or `dyn` types, `_`, `!`).
pub open spec fn types_equal(a: TypeModel, b: TypeModel) -> Option<bool>
    decreases a,
{
    if same_type(a, b) {
        Some(true)
    } else {
        match (a, b) {
            (TypeModel::Array { elem: e1, len: l1 }, TypeModel::Array { elem: e2, len: l2 }) => {
                if l1@ != l2@ {
                    Some(false)
                } else {
                    types_equal(*e1, *e2)
                }
            },
            (TypeModel::BareFn(_), TypeModel::BareFn(_)) => None,
            (TypeModel::Group(e1), TypeModel::Group(e2)) => types_equal(*e1, *e2),
            (TypeModel::ImplTrait(_), TypeModel::ImplTrait(_)) => None,
            (TypeModel::Infer, TypeModel::Infer) => None,
            (TypeModel::Macro { path: p1, tokens: t1 }, TypeModel::Macro { path: p2, tokens: t2 }) => {
                if t1@ != t2@ {
                    Some(false)
                } else {
                    paths_equal(p1, p2)
                }
            },
            (TypeModel::Never, TypeModel::Never) => None,
            (TypeModel::Paren(e1), TypeModel::Paren(e2)) => types_equal(*e1, *e2),
            (TypeModel::Path { qself: q1, path: p1 }, TypeModel::Path { qself: q2, path: p2 }) => {
                match paths_equal(p1, p2) {
                    Some(true) => match (q1, q2) {
                        (Some(x), Some(y)) => types_equal(*x.ty, *y.ty),
                        _ => Some(true),
                    },
                    other => other,
                }
            },
            (TypeModel::Ptr { mutable: m1, elem: e1, .. }, TypeModel::Ptr { mutable: m2, elem: e2, .. }) => {
                if m1 != m2 {
                    Some(false)
                } else {
                    types_equal(*e1, *e2)
                }
            },
            (
                TypeModel::Reference { mutable: m1, elem: e1, .. },
                TypeModel::Reference { mutable: m2, elem: e2, .. },
            ) => {
                if m1 != m2 {
                    Some(false)
                } else {
                    types_equal(*e1, *e2)
                }
            },
            (TypeModel::Slice(e1), TypeModel::Slice(e2)) => types_equal(*e1, *e2),
            (TypeModel::TraitObject(_), TypeModel::TraitObject(_)) => None,
            (TypeModel::Tuple { elems: v1, .. }, TypeModel::Tuple { elems: v2, .. }) => {
                if v1@.len() != v2@.len() {
                    Some(false)
                } else {
                    type_seqs_equal(v1@, v2@)
                }
            },
            (TypeModel::Verbatim(x), TypeModel::Verbatim(y)) => Some(x@ == y@),
            _ => Some(false),
        }
    }
}

/// Pairwise loose equality of two sequences of the same length, stopping at the
/// first pair that is not equal or cannot be compared.
pub open spec fn type_seqs_equal(a: Seq<TypeModel>, b: Seq<TypeModel>) -> Option<bool>
    decreases a,
{
    if a.len() == 0 || b.len() == 0 {
        Some(true)
    } else {
        match types_equal(a[0], b[0]) {
            Some(true) => type_seqs_equal(a.drop_first(), b.drop_first()),
            other => other,
        }
    }
}

/// Whether two paths are equal for the traversal: written the same way, or with the
/// same last segment (identifier and arguments); `None` for argument kinds that it
/// cannot compare.
pub open spec fn paths_equal(a: PathModel, b: PathModel) -> Option<bool>
    decreases a,
{
    if same_path(a, b) {
        Some(true)
    } else if a.segments@.len() == 0 || b.segments@.len() == 0 {
        Some(false)
    } else {
        let s1 = a.segments@.last();
        let s2 = b.segments@.last();
        if s1.ident@ != s2.ident@ {
            Some(false)
        } else {
            arguments_equal(s1.arguments, s2.arguments)
        }
    }
}

/// Loose equality of the arguments of two last segments.
pub open spec fn arguments_equal(a: ArgumentsModel, b: ArgumentsModel) -> Option<bool>
    decreases a,
{
    match (a, b) {
        (ArgumentsModel::Plain, ArgumentsModel::Plain) => Some(true),
        (ArgumentsModel::AngleBracketed { args: x, .. }, ArgumentsModel::AngleBracketed { args: y, .. }) => {
            if x@.len() != y@.len() {
                Some(false)
            } else {
                generic_args_equal(x@, y@)
            }
        },
        (ArgumentsModel::Parenthesized(_), ArgumentsModel::Parenthesized(_)) => None,
        _ => Some(false),
    }
}

/// Pairwise loose equality of generic arguments, stopping at the first pair that is
/// not equal or cannot be compared.
pub open spec fn generic_args_equal(a: Seq<GenericArgModel>, b: Seq<GenericArgModel>) -> Option<bool>
    decreases a,
{
    if a.len() == 0 || b.len() == 0 {
        Some(true)
    } else {
        match generic_arg_equal(a[0], b[0]) {
            Some(true) => generic_args_equal(a.drop_first(), b.drop_first()),
            other => other,
        }
    }
}

/// Loose equality of one pair of generic arguments.
pub open spec fn generic_arg_equal(a: GenericArgModel, b: GenericArgModel) -> Option<bool>
    decreases a,
{
    match (a, b) {
        (GenericArgModel::Lifetime(x), GenericArgModel::Lifetime(y)) => Some(x@ == y@),
        (GenericArgModel::Type(x), GenericArgModel::Type(y)) => types_equal(x, y),
        (GenericArgModel::Const(x), GenericArgModel::Const(y)) => Some(x@ == y@),
        (GenericArgModel::AssocType(_), GenericArgModel::AssocType(_)) => None,
        (GenericArgModel::AssocConst(_), GenericArgModel::AssocConst(_)) => None,
        (GenericArgModel::Constraint(_), GenericArgModel::Constraint(_)) => None,
        _ => Some(false),
    }
}

/// Checks whether two types are equal for the traversal, ignoring everything before
/// the last segment of paths; `None` when the pair cannot be compared.
pub fn type_equals(ty1: &TypeModel, ty2: &TypeModel) -> (r: Option<bool>)
    ensures
        r == types_equal(*ty1, *ty2),
    decreases *ty1,
{
    if type_same(ty1, ty2) {
        return Some(true);
    }
    match (ty1, ty2) {
        (TypeModel::Array { elem: e1, len: l1 }, TypeModel::Array { elem: e2, len: l2 }) => {
            if !text_eq(l1.as_str(), l2.as_str()) {
                Some(false)
            } else {
                type_equals(e1, e2)
            }
        },
        (TypeModel::BareFn(_), TypeModel::BareFn(_)) => None,
        (TypeModel::Group(e1), TypeModel::Group(e2)) => type_equals(e1, e2),
        (TypeModel::ImplTrait(_), TypeModel::ImplTrait(_)) => None,
        (TypeModel::Infer, TypeModel::Infer) => None,
        (TypeModel::Macro { path: p1, tokens: t1 }, TypeModel::Macro { path: p2, tokens: t2 }) => {
            if !text_eq(t1.as_str(), t2.as_str()) {
                Some(false)
            } else {
                type_equals_path_check(p1, p2)
            }
        },
        (TypeModel::Never, TypeModel::Never) => None,
        (TypeModel::Paren(e1), TypeModel::Paren(e2)) => type_equals(e1, e2),
        (TypeModel::Path { qself: q1, path: p1 }, TypeModel::Path { qself: q2, path: p2 }) => {
            match type_equals_path_check(p1, p2) {
                Some(true) => match (q1, q2) {
                    (Some(x), Some(y)) => type_equals(&x.ty, &y.ty),
                    _ => Some(true),
                },
                other => other,
            }
        },
        (TypeModel::Ptr { mutable: m1, elem: e1, .. }, TypeModel::Ptr { mutable: m2, elem: e2, .. }) => {
            if *m1 != *m2 {
                Some(false)
            } else {
                type_equals(e1, e2)
            }
        },
        (
            TypeModel::Reference { mutable: m1, elem: e1, .. },
            TypeModel::Reference { mutable: m2, elem: e2, .. },
        ) => {
            if *m1 != *m2 {
                Some(false)
            } else {
                type_equals(e1, e2)
            }
        },
        (TypeModel::Slice(e1), TypeModel::Slice(e2)) => type_equals(e1, e2),
        (TypeModel::TraitObject(_), TypeModel::TraitObject(_)) => None,
        (TypeModel::Tuple { elems: v1, .. }, TypeModel::Tuple { elems: v2, .. }) => {
            if v1.len() != v2.len() {
                Some(false)
            } else {
                assert(v1@.skip(0) =~= v1@);
                assert(v2@.skip(0) =~= v2@);
                type_vecs_equal(v1, v2, 0)
            }
        },
        (TypeModel::Verbatim(x), TypeModel::Verbatim(y)) => Some(text_eq(x.as_str(), y.as_str())),
        _ => Some(false),
    }
}

fn type_vecs_equal(a: &Vec<TypeModel>, b: &Vec<TypeModel>, i: usize) -> (r: Option<bool>)
    requires
        i <= a@.len(),
        a@.len() == b@.len(),
    ensures
        r == type_seqs_equal(a@.skip(i as int), b@.skip(i as int)),
    decreases a@, a@.len() - i,
{
    if i == a.len() {
        return Some(true);
    }
    assert(a@.skip(i as int)[0] == a@[i as int]);
    assert(b@.skip(i as int)[0] == b@[i as int]);
    assert(a@.skip(i as int).drop_first() =~= a@.skip(i + 1));
    assert(b@.skip(i as int).drop_first() =~= b@.skip(i + 1));
    match type_equals(&a[i], &b[i]) {
        Some(true) => type_vecs_equal(a, b, i + 1),
        other => other,
    }
}

/// Checks whether two paths are equal for the traversal: written the same way, or
/// with the same last segment; `None` when the arguments cannot be compared.
pub fn type_equals_path_check(path1: &PathModel, path2: &PathModel) -> (r: Option<bool>)
    ensures
        r == paths_equal(*path1, *path2),
    decreases *path1,
{
    if path_same(path1, path2) {
        return Some(true);
    }
    let n1 = path1.segments.len();
    let n2 = path2.segments.len();
    if n1 == 0 || n2 == 0 {
        return Some(false);
    }
    let s1 = &path1.segments[n1 - 1];
    let s2 = &path2.segments[n2 - 1];
    if !text_eq(s1.ident.as_str(), s2.ident.as_str()) {
        return Some(false);
    }
    match (&s1.arguments, &s2.arguments) {
        (ArgumentsModel::Plain, ArgumentsModel::Plain) => Some(true),
        (ArgumentsModel::AngleBracketed { args: x, .. }, ArgumentsModel::AngleBracketed { args: y, .. }) => {
            if x.len() != y.len() {
                return Some(false);
            }
            assert(x@.skip(0) =~= x@);
            assert(y@.skip(0) =~= y@);
            generic_args_vec_equal(x, y, 0)
        },
        (ArgumentsModel::Parenthesized(_), ArgumentsModel::Parenthesized(_)) => None,
        _ => Some(false),
    }
}

fn generic_args_vec_equal(a: &Vec<GenericArgModel>, b: &Vec<GenericArgModel>, i: usize) -> (r: Option<bool>)
    requires
        i <= a@.len(),
        a@.len() == b@.len(),
    ensures
        r == generic_args_equal(a@.skip(i as int), b@.skip(i as int)),
    decreases a@, a@.len() - i,
{
    if i == a.len() {
        return Some(true);
    }
    assert(a@.skip(i as int)[0] == a@[i as int]);
    assert(b@.skip(i as int)[0] == b@[i as int]);
    assert(a@.skip(i as int).drop_first() =~= a@.skip(i + 1));
    assert(b@.skip(i as int).drop_first() =~= b@.skip(i + 1));
    let first = match (&a[i], &b[i]) {
        (GenericArgModel::Lifetime(x), GenericArgModel::Lifetime(y)) => Some(
            text_eq(x.as_str(), y.as_str()),
        ),
        (GenericArgModel::Type(x), GenericArgModel::Type(y)) => type_equals(x, y),
        (GenericArgModel::Const(x), GenericArgModel::Const(y)) => Some(
            text_eq(x.as_str(), y.as_str()),
        ),
        (GenericArgModel::AssocType(_), GenericArgModel::AssocType(_)) => None,
        (GenericArgModel::AssocConst(_), GenericArgModel::AssocConst(_)) => None,
        (GenericArgModel::Constraint(_), GenericArgModel::Constraint(_)) => None,
        _ => Some(false),
    };
    assert(first == generic_arg_equal(a@[i as int], b@[i as int]));
    match first {
        Some(true) => generic_args_vec_equal(a, b, i + 1),
        other => other,
    }
}


// ---------------------------------------------------------------------------
// Both equalities do not depend on the order of their arguments.

proof fn lemma_same_type_sym(a: TypeModel, b: TypeModel)
    ensures
        same_type(a, b) == same_type(b, a),
    decreases a,
{
    match (a, b) {
        (TypeModel::Array { elem: e1, .. }, TypeModel::Array { elem: e2, .. }) => lemma_same_type_sym(*e1, *e2),
        (TypeModel::Group(e1), TypeModel::Group(e2)) => lemma_same_type_sym(*e1, *e2),
        (TypeModel::Macro { path: p1, .. }, TypeModel::Macro { path: p2, .. }) => lemma_same_path_sym(p1, p2),
        (TypeModel::Paren(e1), TypeModel::Paren(e2)) => lemma_same_type_sym(*e1, *e2),
        (TypeModel::Path { qself: q1, path: p1 }, TypeModel::Path { qself: q2, path: p2 }) => {
            lemma_same_path_sym(p1, p2);
            match (q1, q2) {
                (Some(x), Some(y)) => lemma_same_type_sym(*x.ty, *y.ty),
                _ => {},
            }
        },
        (TypeModel::Ptr { elem: e1, .. }, TypeModel::Ptr { elem: e2, .. }) => lemma_same_type_sym(*e1, *e2),
        (TypeModel::Reference { elem: e1, .. }, TypeModel::Reference { elem: e2, .. }) => lemma_same_type_sym(
            *e1,
            *e2,
        ),
        (TypeModel::Slice(e1), TypeModel::Slice(e2)) => lemma_same_type_sym(*e1, *e2),
        (TypeModel::Tuple { elems: v1, .. }, TypeModel::Tuple { elems: v2, .. }) => {
            assert(decreases_to!(a => v1));
            lemma_same_types_sym(v1@, v2@);
        },
        _ => {},
    }
}

proof fn lemma_same_types_sym(a: Seq<TypeModel>, b: Seq<TypeModel>)
    ensures
        same_types(a, b) == same_types(b, a),
    decreases a,
{
    if a.len() > 0 && b.len() > 0 {
        lemma_same_type_sym(a[0], b[0]);
        lemma_same_types_sym(a.drop_first(), b.drop_first());
    }
}

proof fn lemma_same_path_sym(a: PathModel, b: PathModel)
    ensures
        same_path(a, b) == same_path(b, a),
    decreases a,
{
    assert(decreases_to!(a => a.segments));
    lemma_same_segments_sym(a.segments@, b.segments@);
}

proof fn lemma_same_segments_sym(a: Seq<SegmentModel>, b: Seq<SegmentModel>)
    ensures
        same_segments(a, b) == same_segments(b, a),
    decreases a,
{
    if a.len() > 0 && b.len() > 0 {
        assert(decreases_to!(a => a[0]));
        lemma_same_arguments_sym(a[0].arguments, b[0].arguments);
        lemma_same_segments_sym(a.drop_first(), b.drop_first());
    }
}

proof fn lemma_same_arguments_sym(a: ArgumentsModel, b: ArgumentsModel)
    ensures
        same_arguments(a, b) == same_arguments(b, a),
    decreases a,
{
    match (a, b) {
        (ArgumentsModel::AngleBracketed { args: x, .. }, ArgumentsModel::AngleBracketed { args: y, .. }) => {
            assert(decreases_to!(a => x));
            lemma_same_generic_args_sym(x@, y@);
        },
        _ => {},
    }
}

proof fn lemma_same_generic_args_sym(a: Seq<GenericArgModel>, b: Seq<GenericArgModel>)
    ensures
        same_generic_args(a, b) == same_generic_args(b, a),
    decreases a,
{
    if a.len() > 0 && b.len() > 0 {
        lemma_same_generic_arg_sym(a[0], b[0]);
        lemma_same_generic_args_sym(a.drop_first(), b.drop_first());
    }
}

proof fn lemma_same_generic_arg_sym(a: GenericArgModel, b: GenericArgModel)
    ensures
        same_generic_arg(a, b) == same_generic_arg(b, a),
    decreases a,
{
    match (a, b) {
        (GenericArgModel::Type(x), GenericArgModel::Type(y)) => lemma_same_type_sym(x, y),
        _ => {},
    }
}

/// The loose equality of types does not depend on the order of the two types.
pub proof fn law_types_equal_symmetric(a: TypeModel, b: TypeModel)
    ensures
        types_equal(a, b) == types_equal(b, a),
    decreases a,
{
    lemma_same_type_sym(a, b);
    if !same_type(a, b) {
        match (a, b) {
            (TypeModel::Array { elem: e1, .. }, TypeModel::Array { elem: e2, .. }) => law_types_equal_symmetric(
                *e1,
                *e2,
            ),
            (TypeModel::Group(e1), TypeModel::Group(e2)) => law_types_equal_symmetric(*e1, *e2),
            (TypeModel::Macro { path: p1, .. }, TypeModel::Macro { path: p2, .. }) => law_paths_equal_symmetric(
                p1,
                p2,
            ),
            (TypeModel::Paren(e1), TypeModel::Paren(e2)) => law_types_equal_symmetric(*e1, *e2),
            (TypeModel::Path { qself: q1, path: p1 }, TypeModel::Path { qself: q2, path: p2 }) => {
                law_paths_equal_symmetric(p1, p2);
                match (q1, q2) {
                    (Some(x), Some(y)) => law_types_equal_symmetric(*x.ty, *y.ty),
                    _ => {},
                }
            },
            (TypeModel::Ptr { elem: e1, .. }, TypeModel::Ptr { elem: e2, .. }) => law_types_equal_symmetric(
                *e1,
                *e2,
            ),
            (TypeModel::Reference { elem: e1, .. }, TypeModel::Reference { elem: e2, .. }) => law_types_equal_symmetric(
                *e1,
                *e2,
            ),
            (TypeModel::Slice(e1), TypeModel::Slice(e2)) => law_types_equal_symmetric(*e1, *e2),
            (TypeModel::Tuple { elems: v1, .. }, TypeModel::Tuple { elems: v2, .. }) => {
                assert(decreases_to!(a => v1));
                lemma_type_seqs_equal_sym(v1@, v2@);
            },
            _ => {},
        }
    }
}

proof fn lemma_type_seqs_equal_sym(a: Seq<TypeModel>, b: Seq<TypeModel>)
    ensures
        type_seqs_equal(a, b) == type_seqs_equal(b, a),
    decreases a,
{
    if a.len() > 0 && b.len() > 0 {
        law_types_equal_symmetric(a[0], b[0]);
        lemma_type_seqs_equal_sym(a.drop_first(), b.drop_first());
    }
}

/// The loose equality of paths does not depend on the order of the two paths.
pub proof fn law_paths_equal_symmetric(a: PathModel, b: PathModel)
    ensures
        paths_equal(a, b) == paths_equal(b, a),
    decreases a,
{
    lemma_same_path_sym(a, b);
    if !same_path(a, b) && a.segments@.len() > 0 && b.segments@.len() > 0 {
        assert(decreases_to!(a => a.segments));
        assert(decreases_to!(a.segments@ => a.segments@.last()));
        lemma_arguments_equal_sym(a.segments@.last().arguments, b.segments@.last().arguments);
    }
}

proof fn lemma_arguments_equal_sym(a: ArgumentsModel, b: ArgumentsModel)
    ensures
        arguments_equal(a, b) == arguments_equal(b, a),
    decreases a,
{
    match (a, b) {
        (ArgumentsModel::AngleBracketed { args: x, .. }, ArgumentsModel::AngleBracketed { args: y, .. }) => {
            assert(decreases_to!(a => x));
            lemma_generic_args_equal_sym(x@, y@);
        },
        _ => {},
    }
}

proof fn lemma_generic_args_equal_sym(a: Seq<GenericArgModel>, b: Seq<GenericArgModel>)
    ensures
        generic_args_equal(a, b) == generic_args_equal(b, a),
    decreases a,
{
    if a.len() > 0 && b.len() > 0 {
        lemma_generic_arg_equal_sym(a[0], b[0]);
        lemma_generic_args_equal_sym(a.drop_first(), b.drop_first());
    }
}

proof fn lemma_generic_arg_equal_sym(a: GenericArgModel, b: GenericArgModel)
    ensures
        generic_arg_equal(a, b) == generic_arg_equal(b, a),
    decreases a,
{
    match (a, b) {
        (GenericArgModel::Type(x), GenericArgModel::Type(y)) => law_types_equal_symmetric(x, y),
        _ => {},
    }
}


// ---------------------------------------------------------------------------
// Every type equals itself.

proof fn lemma_same_type_refl(a: TypeModel)
    ensures
        same_type(a, a),
    decreases a,
{
    match a {
        TypeModel::Array { elem, .. } => lemma_same_type_refl(*elem),
        TypeModel::Group(e) => lemma_same_type_refl(*e),
        TypeModel::Macro { path, .. } => lemma_same_path_refl(path),
        TypeModel::Paren(e) => lemma_same_type_refl(*e),
        TypeModel::Path { qself, path } => {
            lemma_same_path_refl(path);
            match qself {
                Some(x) => lemma_same_type_refl(*x.ty),
                None => {},
            }
        },
        TypeModel::Ptr { elem, .. } => lemma_same_type_refl(*elem),
        TypeModel::Reference { elem, .. } => lemma_same_type_refl(*elem),
        TypeModel::Slice(e) => lemma_same_type_refl(*e),
        TypeModel::Tuple { elems, .. } => {
            assert(decreases_to!(a => elems));
            lemma_same_types_refl(elems@);
        },
        _ => {},
    }
}

proof fn lemma_same_types_refl(a: Seq<TypeModel>)
    ensures
        same_types(a, a),
    decreases a,
{
    if a.len() > 0 {
        lemma_same_type_refl(a[0]);
        lemma_same_types_refl(a.drop_first());
    }
}

proof fn lemma_same_path_refl(a: PathModel)
    ensures
        same_path(a, a),
    decreases a,
{
    assert(decreases_to!(a => a.segments));
    lemma_same_segments_refl(a.segments@);
}

proof fn lemma_same_segments_refl(a: Seq<SegmentModel>)
    ensures
        same_segments(a, a),
    decreases a,
{
    if a.len() > 0 {
        assert(decreases_to!(a => a[0]));
        lemma_same_arguments_refl(a[0].arguments);
        lemma_same_segments_refl(a.drop_first());
    }
}

proof fn lemma_same_arguments_refl(a: ArgumentsModel)
    ensures
        same_arguments(a, a),
    decreases a,
{
    match a {
        ArgumentsModel::AngleBracketed { args, .. } => {
            assert(decreases_to!(a => args));
            lemma_same_generic_args_refl(args@);
        },
        _ => {},
    }
}

proof fn lemma_same_generic_args_refl(a: Seq<GenericArgModel>)
    ensures
        same_generic_args(a, a),
    decreases a,
{
    if a.len() > 0 {
        lemma_same_generic_arg_refl(a[0]);
        lemma_same_generic_args_refl(a.drop_first());
    }
}

proof fn lemma_same_generic_arg_refl(a: GenericArgModel)
    ensures
        same_generic_arg(a, a),
    decreases a,
{
    match a {
        GenericArgModel::Type(x) => lemma_same_type_refl(x),
        _ => {},
    }
}

/// Every type equals itself for the traversal, whatever its kind.
pub proof fn law_types_equal_reflexive(a: TypeModel)
    ensures
        types_equal(a, a) == Some(true),
{
    lemma_same_type_refl(a);
}

/// Every path equals itself for the traversal.
pub proof fn law_paths_equal_reflexive(a: PathModel)
    ensures
        paths_equal(a, a) == Some(true),
{
    lemma_same_path_refl(a);
}

// ---------------------------------------------------------------------------
// Copies: a type written the same way, for a second use of it.

proof fn lemma_same_types_pointwise(a: Seq<TypeModel>, b: Seq<TypeModel>)
    requires
        a.len() == b.len(),
        forall|i: int| 0 <= i < a.len() ==> same_type(#[trigger] a[i], b[i]),
    ensures
        same_types(a, b),
    decreases a.len(),
{
    if a.len() > 0 {
        assert(same_type(a[0], b[0]));
        assert forall|i: int| 0 <= i < a.drop_first().len() implies same_type(
            #[trigger] a.drop_first()[i],
            b.drop_first()[i],
        ) by {
            assert(same_type(a[i + 1], b[i + 1]));
        }
        lemma_same_types_pointwise(a.drop_first(), b.drop_first());
    }
}

proof fn lemma_same_segments_pointwise(a: Seq<SegmentModel>, b: Seq<SegmentModel>)
    requires
        a.len() == b.len(),
        forall|i: int|
            0 <= i < a.len() ==> (#[trigger] a[i]).ident@ == b[i].ident@ && same_arguments(
                a[i].arguments,
                b[i].arguments,
            ),
    ensures
        same_segments(a, b),
    decreases a.len(),
{
    if a.len() > 0 {
        assert(a[0].ident@ == b[0].ident@);
        assert forall|i: int| 0 <= i < a.drop_first().len() implies (#[trigger] a.drop_first()[i]).ident@
            == b.drop_first()[i].ident@ && same_arguments(a.drop_first()[i].arguments, b.drop_first()[i].arguments) by {
            assert(a[i + 1].ident@ == b[i + 1].ident@);
        }
        lemma_same_segments_pointwise(a.drop_first(), b.drop_first());
    }
}

proof fn lemma_same_generic_args_pointwise(a: Seq<GenericArgModel>, b: Seq<GenericArgModel>)
    requires
        a.len() == b.len(),
        forall|i: int| 0 <= i < a.len() ==> same_generic_arg(#[trigger] a[i], b[i]),
    ensures
        same_generic_args(a, b),
    decreases a.len(),
{
    if a.len() > 0 {
        assert(same_generic_arg(a[0], b[0]));
        assert forall|i: int| 0 <= i < a.drop_first().len() implies same_generic_arg(
            #[trigger] a.drop_first()[i],
            b.drop_first()[i],
        ) by {
            assert(same_generic_arg(a[i + 1], b[i + 1]));
        }
        lemma_same_generic_args_pointwise(a.drop_first(), b.drop_first());
    }
}

/// A copy of the type, written the same way.
pub fn copy_type(t: &TypeModel) -> (r: TypeModel)
    ensures
        same_type(r, *t),
    decreases t,
{
    match t {
        TypeModel::Array { elem, len } => TypeModel::Array { elem: Box::new(copy_type(elem)), len: len.clone() },
        TypeModel::BareFn(s) => TypeModel::BareFn(s.clone()),
        TypeModel::Group(e) => TypeModel::Group(Box::new(copy_type(e))),
        TypeModel::ImplTrait(s) => TypeModel::ImplTrait(s.clone()),
        TypeModel::Infer => TypeModel::Infer,
        TypeModel::Macro { path, tokens } => TypeModel::Macro { path: copy_path(path), tokens: tokens.clone() },
        TypeModel::Never => TypeModel::Never,
        TypeModel::Paren(e) => TypeModel::Paren(Box::new(copy_type(e))),
        TypeModel::Path { qself, path } => {
            let q = match qself {
                None => None,
                Some(q) => Some(
                    QSelfModel { ty: Box::new(copy_type(&q.ty)), position: q.position, as_token: q.as_token },
                ),
            };
            TypeModel::Path { qself: q, path: copy_path(path) }
        },
        TypeModel::Ptr { const_token, mutable, elem } => TypeModel::Ptr {
            const_token: *const_token,
            mutable: *mutable,
            elem: Box::new(copy_type(elem)),
        },
        TypeModel::Reference { lifetime, mutable, elem } => {
            let l = match lifetime {
                None => None,
                Some(x) => Some(x.clone()),
            };
            TypeModel::Reference { lifetime: l, mutable: *mutable, elem: Box::new(copy_type(elem)) }
        },
        TypeModel::Slice(e) => TypeModel::Slice(Box::new(copy_type(e))),
        TypeModel::TraitObject(s) => TypeModel::TraitObject(s.clone()),
        TypeModel::Tuple { elems, trailing_comma } => TypeModel::Tuple {
            elems: copy_types(elems),
            trailing_comma: *trailing_comma,
        },
        TypeModel::Verbatim(s) => TypeModel::Verbatim(s.clone()),
    }
}

/// A copy of a list of types, written the same way.
pub fn copy_types(v: &Vec<TypeModel>) -> (r: Vec<TypeModel>)
    ensures
        same_types(r@, v@),
    decreases v,
{
    let n = v.len();
    let mut out: Vec<TypeModel> = Vec::new();
    let mut i: usize = 0;
    while i < n
        invariant
            n == v@.len(),
            i <= n,
            out@.len() == i,
            forall|j: int| 0 <= j < i ==> same_type(#[trigger] out@[j], v@[j]),
        decreases n - i,
    {
        assert(decreases_to!(v => v@[i as int]));
        let t = copy_type(&v[i]);
        out.push(t);
        i = i + 1;
    }
    proof {
        lemma_same_types_pointwise(out@, v@);
    }
    out
}

/// A copy of a path, written the same way.
pub fn copy_path(p: &PathModel) -> (r: PathModel)
    ensures
        same_path(r, *p),
    decreases p,
{
    let n = p.segments.len();
    let mut out: Vec<SegmentModel> = Vec::new();
    let mut i: usize = 0;
    while i < n
        invariant
            n == p.segments@.len(),
            i <= n,
            out@.len() == i,
            forall|j: int|
                0 <= j < i ==> (#[trigger] out@[j]).ident@ == p.segments@[j].ident@ && same_arguments(
                    out@[j].arguments,
                    p.segments@[j].arguments,
                ),
        decreases n - i,
    {
        let seg = &p.segments[i];
        assert(decreases_to!(p => p.segments@[i as int].arguments));
        let a = copy_arguments(&seg.arguments);
        out.push(SegmentModel { ident: seg.ident.clone(), arguments: a });
        i = i + 1;
    }
    proof {
        lemma_same_segments_pointwise(out@, p.segments@);
    }
    PathModel { leading_colon: p.leading_colon, segments: out }
}

/// A copy of the arguments of a path segment, written the same way.
pub fn copy_arguments(a: &ArgumentsModel) -> (r: ArgumentsModel)
    ensures
        same_arguments(r, *a),
    decreases a,
{
    match a {
        ArgumentsModel::Plain => ArgumentsModel::Plain,
        ArgumentsModel::Parenthesized(s) => ArgumentsModel::Parenthesized(s.clone()),
        ArgumentsModel::AngleBracketed { colon2, args } => {
            let n = args.len();
            let mut out: Vec<GenericArgModel> = Vec::new();
            let mut i: usize = 0;
            while i < n
                invariant
                    n == args@.len(),
                    i <= n,
                    out@.len() == i,
                    forall|j: int| 0 <= j < i ==> same_generic_arg(#[trigger] out@[j], args@[j]),
                    *a is AngleBracketed,
                    a->args == *args,
                decreases n - i,
            {
                let g = match &args[i] {
                    GenericArgModel::Lifetime(s) => GenericArgModel::Lifetime(s.clone()),
                    GenericArgModel::Type(t) => {
                        assert(decreases_to!(*a => a->args));
                        assert(decreases_to!(a->args => a->args@[i as int]));
                        assert(decreases_to!(a->args@[i as int] => *t));
                        GenericArgModel::Type(copy_type(t))
                    },
                    GenericArgModel::Const(s) => GenericArgModel::Const(s.clone()),
                    GenericArgModel::AssocType(s) => GenericArgModel::AssocType(s.clone()),
                    GenericArgModel::AssocConst(s) => GenericArgModel::AssocConst(s.clone()),
                    GenericArgModel::Constraint(s) => GenericArgModel::Constraint(s.clone()),
                };
                out.push(g);
                i = i + 1;
            }
            proof {
                lemma_same_generic_args_pointwise(out@, args@);
            }
            ArgumentsModel::AngleBracketed { colon2: *colon2, args: out }
        },
    }
}

} // verus!
