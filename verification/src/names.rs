//! Generated identifier names: indexed names and the names of the functions that
//! the exhaustive syntax-tree traversal generates.
use vstd::prelude::*;

use crate::text::push_char;

verus! {

/// The decimal digit for `d < 10`.
pub open spec fn digit_char(d: nat) -> char {
    if d == 0 {
        '0'
    } else if d == 1 {
        '1'
    } else if d == 2 {
        '2'
    } else if d == 3 {
        '3'
    } else if d == 4 {
        '4'
    } else if d == 5 {
        '5'
    } else if d == 6 {
        '6'
    } else if d == 7 {
        '7'
    } else if d == 8 {
        '8'
    } else {
        '9'
    }
}

/// The decimal form of `n`, without leading zeros (`0` is `"0"`).
pub open spec fn decimal(n: nat) -> Seq<char>
    decreases n,
{
    if n < 10 {
        seq![digit_char(n)]
    } else {
        decimal(n / 10).push(digit_char(n % 10))
    }
}

fn digit(d: usize) -> (c: char)
    requires
        d < 10,
    ensures
        c == digit_char(d as nat),
{
    match d {
        0 => '0',
        1 => '1',
        2 => '2',
        3 => '3',
        4 => '4',
        5 => '5',
        6 => '6',
        7 => '7',
        8 => '8',
        _ => '9',
    }
}

/// Appends the decimal form of `n` to `s`.
pub fn push_decimal(s: &mut String, n: usize)
    ensures
        final(s)@ == old(s)@ + decimal(n as nat),
    decreases n,
{
    if n >= 10 {
        push_decimal(s, n / 10);
    }
    push_char(s, digit(n % 10));
    assert(n < 10 ==> n % 10 == n);
}

/// `count` names: `name` followed by `0`, `1`, ..., `count - 1`.
pub open spec fn indexed_names(name: Seq<char>, count: nat) -> Seq<Seq<char>> {
    Seq::new(count, |i: int| name + decimal(i as nat))
}

proof fn lemma_decimal_long(n: nat)
    requires
        n >= 10,
    ensures
        decimal(n).len() >= 2,
    decreases n,
{
    assert(decimal(n / 10).len() >= 1);
    assert(decimal(n).len() == decimal(n / 10).len() + 1);
}

proof fn lemma_digit_injective(x: nat, y: nat)
    requires
        x < 10,
        y < 10,
        digit_char(x) == digit_char(y),
    ensures
        x == y,
{
}

/// Different numbers have different decimal forms.
proof fn lemma_decimal_injective(a: nat, b: nat)
    requires
        decimal(a) == decimal(b),
    ensures
        a == b,
    decreases a,
{
    if a >= 10 {
        lemma_decimal_long(a);
    }
    if b >= 10 {
        lemma_decimal_long(b);
    }
    if a >= 10 && b >= 10 {
        assert(decimal(a).last() == digit_char(a % 10));
        assert(decimal(b).last() == digit_char(b % 10));
        lemma_digit_injective(a % 10, b % 10);
        assert(decimal(a).drop_last() =~= decimal(a / 10));
        assert(decimal(b).drop_last() =~= decimal(b / 10));
        lemma_decimal_injective(a / 10, b / 10);
    } else if a < 10 && b < 10 {
        assert(decimal(a)[0] == digit_char(a));
        assert(decimal(b)[0] == digit_char(b));
        lemma_digit_injective(a, b);
    } else {
        assert(decimal(a).len() != decimal(b).len());
    }
}

/// The indexed names are all different, so they can name different things in the
/// same scope.
pub proof fn law_indexed_names_distinct(name: Seq<char>, count: nat, i: int, j: int)
    requires
        0 <= i < count,
        0 <= j < count,
        i != j,
    ensures
        indexed_names(name, count)[i] != indexed_names(name, count)[j],
{
    let x = indexed_names(name, count)[i];
    let y = indexed_names(name, count)[j];
    if x == y {
        assert(x.skip(name.len() as int) =~= decimal(i as nat));
        assert(y.skip(name.len() as int) =~= decimal(j as nat));
        lemma_decimal_injective(i as nat, j as nat);
    }
}

/// Generates identifiers by appending indices to a base name:
/// `[name0, name1, ..., name{count-1}]`.
pub fn indexed_name(name: &str, count: usize) -> (names: Vec<String>)
    ensures
        names@.len() == count,
        forall|i: int| 0 <= i < count ==> #[trigger] names@[i]@ == indexed_names(name@, count as nat)[i],
{
    let mut names: Vec<String> = Vec::new();
    let mut i: usize = 0;
    while i < count
        invariant
            i <= count,
            names@.len() == i,
            forall|j: int| 0 <= j < i ==> #[trigger] names@[j]@ == name@ + decimal(j as nat),
        decreases count - i,
    {
        let mut n = String::from_str(name);
        push_decimal(&mut n, i);
        names.push(n);
        i = i + 1;
    }
    names
}

/// `prefix` followed by `suffix`.
fn prefixed(prefix: &str, suffix: &str) -> (r: String)
    ensures
        r@ == prefix@ + suffix@,
{
    let mut r = String::from_str(prefix);
    r.append(suffix);
    r
}

/// The names of the handler functions that the traversal generates for one prefix.
pub struct MacroFnNames {
    pub item: String,
    pub expr: String,
    pub expr_option: String,
    pub block: String,
    pub stmt: String,
    pub generics: String,
    pub generic_param: String,
    pub type_param_bound: String,
    pub bound_lifetimes: String,
    pub bound_lifetimes_option: String,
    pub where_predicate: String,
    pub impl_item: String,
    pub item_mod_content: String,
    pub fields: String,
    pub trait_item: String,
    pub fields_named: String,
    pub option_box_expr: String,
    pub pat: String,
    pub option_else_expr: String,
    pub arm: String,
    pub angle_bracketed_generic_arguments: String,
    pub field_value: String,
    pub local_init: String,
    pub option_local_init: String,
    pub signature: String,
    pub where_clause: String,
    pub where_clause_option: String,
    pub fn_arg: String,
    pub variadic_pat: String,
    pub variadic: String,
    pub variadic_option: String,
    pub field: String,
    pub option_block: String,
    pub option_eq_expr: String,
    pub field_pat: String,
    pub option_at_pat: String,
    pub arm_guard: String,
    pub option_angle_bracketed_generic_arguments: String,
    pub generic_argument: String,
    pub ty: String,
    pub option_ty: String,
    pub bare_fn_arg: String,
    pub return_type: String,
    pub variant: String,
    pub foreign_item: String,
    pub qself: String,
    pub option_qself: String,
    pub option_eq_type: String,
    pub additional_input_name: String,
}

impl MacroFnNames {
    /// Every handler name is `prefix` followed by `_<kind>_handle`; the additional
    /// input is always named `__additional_input`.
    pub open spec fn names_for(self, prefix: Seq<char>) -> bool {
        &&& self.item@ == prefix + "_item_handle"@
        &&& self.expr@ == prefix + "_expr_handle"@
        &&& self.expr_option@ == prefix + "_expr_option_handle"@
        &&& self.block@ == prefix + "_block_handle"@
        &&& self.stmt@ == prefix + "_stmt_handle"@
        &&& self.generics@ == prefix + "_generics_handle"@
        &&& self.generic_param@ == prefix + "_generic_param_handle"@
        &&& self.type_param_bound@ == prefix + "_type_param_bound_handle"@
        &&& self.bound_lifetimes@ == prefix + "_bound_lifetimes_handle"@
        &&& self.bound_lifetimes_option@ == prefix + "_bound_lifetimes_option_handle"@
        &&& self.where_predicate@ == prefix + "_where_predicate_handle"@
        &&& self.impl_item@ == prefix + "_impl_item_handle"@
        &&& self.item_mod_content@ == prefix + "_item_mod_content_handle"@
        &&& self.fields@ == prefix + "_fields_handle"@
        &&& self.trait_item@ == prefix + "_trait_item_handle"@
        &&& self.fields_named@ == prefix + "_fields_named_handle"@
        &&& self.option_box_expr@ == prefix + "_option_box_expr_handle"@
        &&& self.pat@ == prefix + "_pat_handle"@
        &&& self.option_else_expr@ == prefix + "_option_else_expr_handle"@
        &&& self.arm@ == prefix + "_arm_handle"@
        &&& self.angle_bracketed_generic_arguments@ == prefix + "_angle_bracketed_generic_arguments_handle"@
        &&& self.field_value@ == prefix + "_field_value_handle"@
        &&& self.local_init@ == prefix + "_local_init_handle"@
        &&& self.option_local_init@ == prefix + "_option_local_init_handle"@
        &&& self.signature@ == prefix + "_signature_handle"@
        &&& self.where_clause@ == prefix + "_where_clause_handle"@
        &&& self.where_clause_option@ == prefix + "_where_clause_option_handle"@
        &&& self.fn_arg@ == prefix + "_fn_arg_handle"@
        &&& self.variadic_pat@ == prefix + "_variadic_pat_handle"@
        &&& self.variadic@ == prefix + "_variadic_handle"@
        &&& self.variadic_option@ == prefix + "_variadic_option_handle"@
        &&& self.field@ == prefix + "_field_handle"@
        &&& self.option_block@ == prefix + "_option_block_handle"@
        &&& self.option_eq_expr@ == prefix + "_option_eq_expr_handle"@
        &&& self.field_pat@ == prefix + "_field_pat_handle"@
        &&& self.option_at_pat@ == prefix + "_option_at_pat_handle"@
        &&& self.arm_guard@ == prefix + "_arm_guard_handle"@
        &&& self.option_angle_bracketed_generic_arguments@ == prefix + "_option_angle_bracketed_generic_arguments_handle"@
        &&& self.generic_argument@ == prefix + "_generic_argument_handle"@
        &&& self.ty@ == prefix + "_type_handle"@
        &&& self.option_ty@ == prefix + "_option_ty_handle"@
        &&& self.bare_fn_arg@ == prefix + "_bare_fn_arg_handle"@
        &&& self.return_type@ == prefix + "_return_type_handle"@
        &&& self.variant@ == prefix + "_variant_handle"@
        &&& self.foreign_item@ == prefix + "_foreign_item_handle"@
        &&& self.qself@ == prefix + "_qself_handle"@
        &&& self.option_qself@ == prefix + "_option_qself_handle"@
        &&& self.option_eq_type@ == prefix + "_option_eq_type_handle"@
        &&& self.additional_input_name@ == "__additional_input"@
    }

    /// Builds the handler names for a prefix.
    pub fn new(fn_name_prefix: &str) -> (r: Self)
        ensures
            r.names_for(fn_name_prefix@),
    {
        MacroFnNames {
            item: prefixed(fn_name_prefix, "_item_handle"),
            expr: prefixed(fn_name_prefix, "_expr_handle"),
            expr_option: prefixed(fn_name_prefix, "_expr_option_handle"),
            block: prefixed(fn_name_prefix, "_block_handle"),
            stmt: prefixed(fn_name_prefix, "_stmt_handle"),
            generics: prefixed(fn_name_prefix, "_generics_handle"),
            generic_param: prefixed(fn_name_prefix, "_generic_param_handle"),
            type_param_bound: prefixed(fn_name_prefix, "_type_param_bound_handle"),
            bound_lifetimes: prefixed(fn_name_prefix, "_bound_lifetimes_handle"),
            bound_lifetimes_option: prefixed(fn_name_prefix, "_bound_lifetimes_option_handle"),
            where_predicate: prefixed(fn_name_prefix, "_where_predicate_handle"),
            impl_item: prefixed(fn_name_prefix, "_impl_item_handle"),
            item_mod_content: prefixed(fn_name_prefix, "_item_mod_content_handle"),
            fields: prefixed(fn_name_prefix, "_fields_handle"),
            trait_item: prefixed(fn_name_prefix, "_trait_item_handle"),
            fields_named: prefixed(fn_name_prefix, "_fields_named_handle"),
            option_box_expr: prefixed(fn_name_prefix, "_option_box_expr_handle"),
            pat: prefixed(fn_name_prefix, "_pat_handle"),
            option_else_expr: prefixed(fn_name_prefix, "_option_else_expr_handle"),
            arm: prefixed(fn_name_prefix, "_arm_handle"),
            angle_bracketed_generic_arguments: prefixed(fn_name_prefix, "_angle_bracketed_generic_arguments_handle"),
            field_value: prefixed(fn_name_prefix, "_field_value_handle"),
            local_init: prefixed(fn_name_prefix, "_local_init_handle"),
            option_local_init: prefixed(fn_name_prefix, "_option_local_init_handle"),
            signature: prefixed(fn_name_prefix, "_signature_handle"),
            where_clause: prefixed(fn_name_prefix, "_where_clause_handle"),
            where_clause_option: prefixed(fn_name_prefix, "_where_clause_option_handle"),
            fn_arg: prefixed(fn_name_prefix, "_fn_arg_handle"),
            variadic_pat: prefixed(fn_name_prefix, "_variadic_pat_handle"),
            variadic: prefixed(fn_name_prefix, "_variadic_handle"),
            variadic_option: prefixed(fn_name_prefix, "_variadic_option_handle"),
            field: prefixed(fn_name_prefix, "_field_handle"),
            option_block: prefixed(fn_name_prefix, "_option_block_handle"),
            option_eq_expr: prefixed(fn_name_prefix, "_option_eq_expr_handle"),
            field_pat: prefixed(fn_name_prefix, "_field_pat_handle"),
            option_at_pat: prefixed(fn_name_prefix, "_option_at_pat_handle"),
            arm_guard: prefixed(fn_name_prefix, "_arm_guard_handle"),
            option_angle_bracketed_generic_arguments: prefixed(fn_name_prefix, "_option_angle_bracketed_generic_arguments_handle"),
            generic_argument: prefixed(fn_name_prefix, "_generic_argument_handle"),
            ty: prefixed(fn_name_prefix, "_type_handle"),
            option_ty: prefixed(fn_name_prefix, "_option_ty_handle"),
            bare_fn_arg: prefixed(fn_name_prefix, "_bare_fn_arg_handle"),
            return_type: prefixed(fn_name_prefix, "_return_type_handle"),
            variant: prefixed(fn_name_prefix, "_variant_handle"),
            foreign_item: prefixed(fn_name_prefix, "_foreign_item_handle"),
            qself: prefixed(fn_name_prefix, "_qself_handle"),
            option_qself: prefixed(fn_name_prefix, "_option_qself_handle"),
            option_eq_type: prefixed(fn_name_prefix, "_option_eq_type_handle"),
            additional_input_name: String::from_str("__additional_input"),
        }
    }
}

} // verus!
