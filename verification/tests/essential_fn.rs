use easy_macros::essential_fn::{EssentialFnData, FnArgModel, SignatureModel};
use easy_macros::fn_matching::{ArgToken, FieldModel, FnCalls, ReferenceType};
use easy_macros::macro_data::{AttrsSignature, MacroData, MacroInput};
use easy_macros::type_model::{
    type_equals, type_equals_path_check, ArgumentsModel, GenericArgModel, PathModel, QSelfModel, SegmentModel,
    TypeModel,
};
use quote::ToTokens;

// ---------------------------------------------------------------------------
// Reading the inputs with syn, as the macros do.

fn text<T: ToTokens>(t: &T) -> String {
    t.to_token_stream().to_string()
}

fn type_model(t: &syn::Type) -> TypeModel {
    match t {
        syn::Type::Array(a) => TypeModel::Array { elem: Box::new(type_model(&a.elem)), len: text(&a.len) },
        syn::Type::BareFn(f) => TypeModel::BareFn(text(f)),
        syn::Type::Group(g) => TypeModel::Group(Box::new(type_model(&g.elem))),
        syn::Type::ImplTrait(i) => TypeModel::ImplTrait(text(i)),
        syn::Type::Infer(_) => TypeModel::Infer,
        syn::Type::Macro(m) => TypeModel::Macro { path: path_model(&m.mac.path), tokens: m.mac.tokens.to_string() },
        syn::Type::Never(_) => TypeModel::Never,
        syn::Type::Paren(p) => TypeModel::Paren(Box::new(type_model(&p.elem))),
        syn::Type::Path(p) => TypeModel::Path {
            qself: p.qself.as_ref().map(|q| QSelfModel {
                ty: Box::new(type_model(&q.ty)),
                position: q.position,
                as_token: q.as_token.is_some(),
            }),
            path: path_model(&p.path),
        },
        syn::Type::Ptr(p) => TypeModel::Ptr {
            const_token: p.const_token.is_some(),
            mutable: p.mutability.is_some(),
            elem: Box::new(type_model(&p.elem)),
        },
        syn::Type::Reference(r) => TypeModel::Reference {
            lifetime: r.lifetime.as_ref().map(|l| l.ident.to_string()),
            mutable: r.mutability.is_some(),
            elem: Box::new(type_model(&r.elem)),
        },
        syn::Type::Slice(s) => TypeModel::Slice(Box::new(type_model(&s.elem))),
        syn::Type::TraitObject(o) => TypeModel::TraitObject(text(o)),
        syn::Type::Tuple(t) => TypeModel::Tuple {
            elems: t.elems.iter().map(type_model).collect(),
            trailing_comma: t.elems.trailing_punct(),
        },
        other => TypeModel::Verbatim(text(other)),
    }
}

fn path_model(p: &syn::Path) -> PathModel {
    PathModel {
        leading_colon: p.leading_colon.is_some(),
        segments: p
            .segments
            .iter()
            .map(|s| SegmentModel { ident: s.ident.to_string(), arguments: arguments_model(&s.arguments) })
            .collect(),
    }
}

fn arguments_model(a: &syn::PathArguments) -> ArgumentsModel {
    match a {
        syn::PathArguments::None => ArgumentsModel::Plain,
        syn::PathArguments::AngleBracketed(ab) => ArgumentsModel::AngleBracketed {
            colon2: ab.colon2_token.is_some(),
            args: ab.args.iter().map(generic_arg_model).collect(),
        },
        syn::PathArguments::Parenthesized(p) => ArgumentsModel::Parenthesized(text(p)),
    }
}

fn generic_arg_model(g: &syn::GenericArgument) -> GenericArgModel {
    match g {
        syn::GenericArgument::Lifetime(l) => GenericArgModel::Lifetime(l.ident.to_string()),
        syn::GenericArgument::Type(t) => GenericArgModel::Type(type_model(t)),
        syn::GenericArgument::AssocType(a) => GenericArgModel::AssocType(text(a)),
        syn::GenericArgument::AssocConst(a) => GenericArgModel::AssocConst(text(a)),
        syn::GenericArgument::Constraint(c) => GenericArgModel::Constraint(text(c)),
        other => GenericArgModel::Const(text(other)),
    }
}

fn ty(s: &str) -> TypeModel {
    type_model(&syn::parse_str::<syn::Type>(s).unwrap())
}

fn path(s: &str) -> PathModel {
    path_model(&syn::parse_str::<syn::Path>(s).unwrap())
}

fn signature(s: &str) -> SignatureModel {
    let sig = syn::parse_str::<syn::Signature>(s).unwrap();
    SignatureModel {
        ident: sig.ident.to_string(),
        inputs: sig
            .inputs
            .iter()
            .map(|a| match a {
                syn::FnArg::Receiver(_) => FnArgModel::Receiver,
                syn::FnArg::Typed(t) => FnArgModel::Typed(type_model(&t.ty)),
            })
            .collect(),
    }
}

fn fields(s: &str) -> Vec<FieldModel> {
    let named = syn::parse_str::<syn::FieldsNamed>(s).unwrap();
    named
        .named
        .iter()
        .map(|f| FieldModel { ident: f.ident.as_ref().unwrap().to_string(), ty: type_model(&f.ty) })
        .collect()
}

// ---------------------------------------------------------------------------
// Writing the planned calls out, in the tokens the macro generates; fields reached
// through a struct are reached through `search_item`.

fn arg_text(a: &ArgToken) -> String {
    let mut s = String::new();
    match a.reference {
        Some(ReferenceType::Mutable) => s.push_str("&mut "),
        Some(ReferenceType::Immutable) => s.push_str("&"),
        None => {}
    }
    if a.prefixed {
        s.push_str("search_item.");
    }
    s.push_str(&a.ident);
    if a.clone {
        s.push_str(".clone()");
    }
    s
}

fn calls_text(name: &str, calls: &FnCalls) -> String {
    let mut s = String::new();
    for args in calls.calls.iter() {
        let args: Vec<String> = args.iter().map(arg_text).collect();
        s.push_str(&format!("{}({});", name, args.join(", ")));
    }
    for l in calls.list_calls.iter() {
        let iter = if l.iter.mutable { "iter_mut" } else { "iter" };
        let call = match &l.additional {
            Some(a) if l.additional_first => format!("{}({}, ____x);", name, arg_text(a)),
            Some(a) => format!("{}(____x, {});", name, arg_text(a)),
            None => format!("{}(____x);", name),
        };
        let prefix = if l.iter.prefixed { "search_item." } else { "" };
        s.push_str(&format!("for ____x in {}{}.{}(){{ {} }}", prefix, l.iter.ident, iter, call));
    }
    normalized(&s)
}

fn normalized(tokens: &str) -> String {
    tokens.parse::<proc_macro2::TokenStream>().unwrap().to_string()
}

fn check(f: &mut EssentialFnData, name: &str, field_text: &str) -> Option<String> {
    let fs = fields(field_text);
    let add_ty = ty("AdditionalInput");
    f.all_inputs_check(&fs, false, &"__additional_input".to_string(), &add_ty)
        .expect("the check does not stop the traversal")
        .map(|c| calls_text(name, &c))
}

// ---------------------------------------------------------------------------

#[test]
fn type_equals_path_test() {
    let path1 = path("Path");
    let path2 = path("syn::Path");
    let path3 = path("proc_macro2::Path");
    let path4 = path("Path<syn::V>");
    let path5 = path("syn::Path<V>");
    let path6 = path("Path<V>");
    let path7 = path("Vec<V>");
    let path8 = path("std::Vec<whatever::lalala::V>");
    let eq = |a: &PathModel, b: &PathModel| type_equals_path_check(a, b).unwrap();

    //Everything before last segment should be ignored
    assert!(eq(&path1, &path2));
    assert!(eq(&path2, &path3));
    assert!(eq(&path1, &path3));
    //Reverse order check
    assert!(eq(&path2, &path1));
    assert!(eq(&path3, &path2));
    assert!(eq(&path3, &path1));
    //Generics check
    //Shouldn't return true if other type doesn't have generics
    assert!(!eq(&path4, &path1));
    assert!(!eq(&path4, &path2));
    assert!(!eq(&path4, &path3));
    //Everything before last segment should be ignored
    assert!(eq(&path4, &path5));
    assert!(eq(&path4, &path6));
    assert!(eq(&path5, &path6));
    //Reverse order check
    assert!(!eq(&path1, &path4));
    assert!(!eq(&path2, &path4));
    assert!(!eq(&path3, &path4));
    assert!(eq(&path5, &path4));
    assert!(eq(&path6, &path4));
    assert!(eq(&path6, &path5));

    //Not matching last segment
    assert!(!eq(&path7, &path1));
    assert!(!eq(&path7, &path2));
    assert!(!eq(&path7, &path3));
    assert!(!eq(&path7, &path4));
    assert!(!eq(&path7, &path5));
    assert!(!eq(&path7, &path6));
    assert!(!eq(&path8, &path1));
    assert!(!eq(&path8, &path2));
    assert!(!eq(&path8, &path3));
    assert!(!eq(&path8, &path4));
    assert!(!eq(&path8, &path5));
    assert!(!eq(&path8, &path6));
    //Reverse order check
    assert!(!eq(&path1, &path7));
    assert!(!eq(&path2, &path7));
    assert!(!eq(&path3, &path7));
    assert!(!eq(&path4, &path7));
    assert!(!eq(&path5, &path7));
    assert!(!eq(&path6, &path7));
    assert!(!eq(&path1, &path8));
    assert!(!eq(&path2, &path8));
    assert!(!eq(&path3, &path8));
    assert!(!eq(&path4, &path8));
    assert!(!eq(&path5, &path8));
    assert!(!eq(&path6, &path8));

    //Matching generics (last segment) and last segment
    assert!(eq(&path7, &path8));
    //Reverse order check
    assert!(eq(&path8, &path7));
}

fn test_vec_eq(vec1: &[&str], vec2: &[&str], expected: bool) {
    for item1 in vec1.iter() {
        for item2 in vec2.iter() {
            assert_eq!(
                type_equals(&ty(item1), &ty(item2)),
                Some(expected),
                "type_equals({}, {}) should be {}",
                item1,
                item2,
                expected
            );
        }
    }
}

#[test]
fn type_equals_test() {
    let all_vectors: Vec<Vec<&str>> = vec![
        vec!["Vec<syn::Item>", "Vec<Item>", "std::Vec<Item>"],
        vec!["Expr", "syn::Expr"],
        vec!["Option<Expr>", "Option<syn::Expr>"],
        vec!["WherePredicate", "syn::WherePredicate"],
        vec!["WhereClause", "syn::WhereClause"],
        vec!["Option<(Box<Pat>, Token![:])>", "Option<(Box<syn::Pat>, Token![:])>", "Option<(Box<Pat>, syn::Token![:])>"],
        vec!["Variadic", "syn::Variadic"],
        vec!["Option<Variadic>", "Option<syn::Variadic>"],
        vec![
            "Option<(token::Brace, Vec<Item>)>",
            "Option<(syn::token::Brace, Vec<Item>)>",
            "Option<(Brace, Vec<syn::Item>)>",
        ],
        vec![
            "Option<(Vec<Item>, token::Brace)>",
            "Option<(Vec<Item>, syn::token::Brace)>",
            "Option<(Vec<syn::Item>, Brace)>",
            "Option<(Vec<syn::Item>, token::Brace)>",
            "Option<(Vec<syn::Item>, syn::token::Brace)>",
        ],
        vec!["Fields", "syn::Fields"],
        vec!["Field", "syn::Field"],
        vec!["FieldPat", "syn::FieldPat"],
        vec!["Option<(Token![=], Expr)>", "Option<(syn::Token![=], Expr)>", "Option<(Token![=], syn::Expr)>"],
        vec!["Option<Box<Expr>>", "Option<Box<syn::Expr>>"],
        vec![
            "Option<(Token![@], Box<Pat>)>",
            "Option<(Token![@], Box<syn::Pat>)>",
            "Option<(syn::Token![@], Box<Pat>)>",
            "Option<(syn::Token![@], Box<syn::Pat>)>",
        ],
        vec![
            "Option<(Token![!], Box<Pat>)>",
            "Option<(Token![!], Box<syn::Pat>)>",
            "Option<(syn::Token![!], Box<Pat>)>",
            "Option<(syn::Token![!], Box<syn::Pat>)>",
        ],
        vec![
            "Option<(Token![else], Box<Expr>)>",
            "Option<(syn::Token![else], Box<Expr>)>",
            "Option<(Token![else], Box<syn::Expr>)>",
            "Option<(syn::Token![else], Box<syn::Expr>)>",
        ],
        vec![
            "Option<(Token![if], Box<Expr>)>",
            "Option<(syn::Token![if], Box<Expr>)>",
            "Option<(Token![if], Box<syn::Expr>)>",
            "Option<(syn::Token![if], Box<syn::Expr>)>",
        ],
    ];
    for v in all_vectors.iter() {
        test_vec_eq(v, v, true);
    }

    //Different Vectors (representing different equal values) should never have equal values (between different vectors)
    for v in all_vectors.iter() {
        for v2 in all_vectors.iter() {
            if v == v2 {
                continue;
            }
            test_vec_eq(v, v2, false);
        }
    }
}

#[test]
fn essential_fn_checks_1_arg_test() {
    let mut fn_data1 = EssentialFnData::new(signature("fn example_fn1(a: &mut syn::Item)"));
    let c = |f: &mut EssentialFnData, s: &str| check(f, "example_fn1", s);

    assert_eq!(c(&mut fn_data1, "{ x: &mut syn::Item, b: &mut syn::Expr, }"), Some(normalized("example_fn1(x);")));
    assert_eq!(c(&mut fn_data1, "{ x: syn::Item, b: syn::Expr, }"), Some(normalized("example_fn1(&mut x);")));
    assert_eq!(
        c(&mut fn_data1, "{ x: Box<syn::Item>, b: Box<syn::Expr>, }"),
        Some(normalized("example_fn1(&mut x);"))
    );
    assert_eq!(c(&mut fn_data1, "{ b: Box<syn::Expr>, }"), None);
    assert_eq!(
        c(&mut fn_data1, "{ x: Box<syn::Item>, b: Box<syn::Expr>, c: Box<syn::Item>, }"),
        Some(normalized("example_fn1(&mut x); example_fn1(&mut c);"))
    );
    assert_eq!(
        c(&mut fn_data1, "{ x: Box<syn::Item>, b: Box<syn::Expr>, list: Vec<syn::Item>, c: Box<syn::Item>, }"),
        Some(normalized(
            "example_fn1(&mut x); example_fn1(&mut c); for ____x in list.iter_mut(){ example_fn1(____x); }"
        ))
    );
    assert_eq!(
        c(
            &mut fn_data1,
            "{ x: Box<syn::Item>, list0: syn::Punctuated<syn::Item, Token![,]>, b: Box<syn::Expr>, list: Vec<syn::Item>, c: Box<syn::Item>, }"
        ),
        Some(normalized(
            "example_fn1(&mut x); example_fn1(&mut c); for ____x in list0.iter_mut(){ example_fn1(____x); } for ____x in list.iter_mut(){ example_fn1(____x); }"
        ))
    );
}

#[test]
fn essential_fn_checks_2_args_test() {
    let mut fn_data1 =
        EssentialFnData::new(signature("fn example_fn1(a: &mut syn::Expr, __additional_input: &mut AdditionalInput)"));
    let mut fn_data2 =
        EssentialFnData::new(signature("fn example_fn2(a: &mut syn::Expr, __additional_input: AdditionalInput)"));
    let c1 = |f: &mut EssentialFnData, s: &str| check(f, "example_fn1", s);
    let c2 = |f: &mut EssentialFnData, s: &str| check(f, "example_fn2", s);

    let f1 = "{ x: &mut syn::Expr, b: &mut syn::Stmt, }";
    assert_eq!(c1(&mut fn_data1, f1), Some(normalized("example_fn1(x, &mut __additional_input);")));
    assert_eq!(c2(&mut fn_data2, f1), Some(normalized("example_fn2(x, __additional_input.clone());")));

    let f2 = "{ x: syn::Expr, b: syn::Stmt, }";
    assert_eq!(c1(&mut fn_data1, f2), Some(normalized("example_fn1(&mut x, &mut __additional_input);")));
    assert_eq!(c2(&mut fn_data2, f2), Some(normalized("example_fn2(&mut x, __additional_input.clone());")));

    let f3 = "{ x: Box<syn::Expr>, b: Box<syn::Stmt>, }";
    assert_eq!(c1(&mut fn_data1, f3), Some(normalized("example_fn1(&mut x, &mut __additional_input);")));
    assert_eq!(c2(&mut fn_data2, f3), Some(normalized("example_fn2(&mut x, __additional_input.clone());")));

    let f4 = "{ b: Box<syn::Stmt>, }";
    assert_eq!(c1(&mut fn_data1, f4), None);
    assert_eq!(c2(&mut fn_data2, f4), None);

    let f5 = "{ x: Box<syn::Expr>, b: Box<syn::Stmt>, c: Box<syn::Expr>, }";
    assert_eq!(
        c1(&mut fn_data1, f5),
        Some(normalized("example_fn1(&mut x, &mut __additional_input); example_fn1(&mut c, &mut __additional_input);"))
    );
    assert_eq!(
        c2(&mut fn_data2, f5),
        Some(normalized("example_fn2(&mut x, __additional_input.clone()); example_fn2(&mut c, __additional_input.clone());"))
    );

    let f6 = "{ x: Box<syn::Expr>, b: Box<syn::Stmt>, list: Vec<syn::Expr>, c: Box<syn::Expr>, }";
    assert_eq!(
        c1(&mut fn_data1, f6),
        Some(normalized(
            "example_fn1(&mut x, &mut __additional_input); example_fn1(&mut c, &mut __additional_input); for ____x in list.iter_mut(){ example_fn1(____x, &mut __additional_input); }"
        ))
    );
    assert_eq!(
        c2(&mut fn_data2, f6),
        Some(normalized(
            "example_fn2(&mut x, __additional_input.clone()); example_fn2(&mut c, __additional_input.clone()); for ____x in list.iter_mut(){ example_fn2(____x, __additional_input.clone()); }"
        ))
    );

    let f7 = "{ x: Box<syn::Expr>, list0: syn::Punctuated<syn::Expr, Token![,]>, b: Box<syn::Stmt>, list: Vec<syn::Expr>, c: Box<syn::Expr>, }";
    assert_eq!(
        c1(&mut fn_data1, f7),
        Some(normalized(
            "example_fn1(&mut x, &mut __additional_input); example_fn1(&mut c, &mut __additional_input); for ____x in list0.iter_mut(){ example_fn1(____x, &mut __additional_input); } for ____x in list.iter_mut(){ example_fn1(____x, &mut __additional_input); }"
        ))
    );
    assert_eq!(
        c2(&mut fn_data2, f7),
        Some(normalized(
            "example_fn2(&mut x, __additional_input.clone()); example_fn2(&mut c, __additional_input.clone()); for ____x in list0.iter_mut(){ example_fn2(____x, __additional_input.clone()); } for ____x in list.iter_mut(){ example_fn2(____x, __additional_input.clone()); }"
        ))
    );
}

#[test]
fn essential_fn_checks_3_args_test() {
    let mut fn_data1 = EssentialFnData::new(signature(
        "fn example_fn1(a: &mut syn::Expr, b: &mut syn::Item, __additional_input: &mut AdditionalInput)",
    ));
    let mut fn_data2 = EssentialFnData::new(signature(
        "fn example_fn2(a: &mut syn::Expr, b: &mut syn::Expr, __additional_input: &mut AdditionalInput)",
    ));
    let c1 = |f: &mut EssentialFnData, s: &str| check(f, "example_fn1", s);
    let c2 = |f: &mut EssentialFnData, s: &str| check(f, "example_fn2", s);

    let f1 = "{ x: &mut syn::Expr, b: &mut syn::Item, }";
    assert_eq!(c1(&mut fn_data1, f1), Some(normalized("example_fn1(x, b, &mut __additional_input);")));
    assert_eq!(c2(&mut fn_data2, f1), None);

    let f2 = "{ x: syn::Expr, b: syn::Expr, }";
    assert_eq!(c1(&mut fn_data1, f2), None);
    assert_eq!(c2(&mut fn_data2, f2), Some(normalized("example_fn2(&mut x, &mut b, &mut __additional_input);")));

    let f3 = "{ x: syn::Expr, b: syn::Expr, a: syn::Item, a2: syn::Item, }";
    assert_eq!(c1(&mut fn_data1, f3), None);
    assert_eq!(c2(&mut fn_data2, f3), Some(normalized("example_fn2(&mut x, &mut b, &mut __additional_input);")));
}

#[test]
fn essential_fn_checks_return_type_debug_test() {
    //Debug issues with ReturnType (because of &mut Box<Type>)
    let mut fn_data1 =
        EssentialFnData::new(signature("fn example_ty_handle(ty: &mut Type, __additional_input: AdditionalInput)"));
    assert_eq!(
        check(&mut fn_data1, "example_ty_handle", "{ arg1: &mut Token![->], arg2: &mut Box<Type> }"),
        Some(normalized("example_ty_handle(arg2, __additional_input.clone());"))
    );
}

#[test]
fn essential_fn_used_state() {
    let mut f = EssentialFnData::new(signature("fn handler(a: &mut syn::Item)"));
    assert!(f.used_check().is_err());
    assert_eq!(
        f.used_check().unwrap_err(),
        "Function handler was not used while genereting all_syntax_cases macro output"
    );
    assert_eq!(check(&mut f, "handler", "{ b: syn::Expr, }"), None);
    assert!(f.used_check().is_err());
    assert_eq!(check(&mut f, "handler", "{ x: syn::Item, }"), Some(normalized("handler(&mut x);")));
    assert!(f.used_check().is_ok());
    assert!(f.name_equals("handler"));
    assert!(!f.name_equals("other"));

    let mut g = EssentialFnData::new_no_check(signature("fn system(a: &mut syn::Item)"));
    assert!(g.used_check().is_ok());
    let mut h = EssentialFnData::new(signature("fn late(a: &mut syn::Item)"));
    h.used();
    assert!(h.used_check().is_ok());
    assert_eq!(check(&mut g, "system", "{ y: syn::Item, }"), Some(normalized("system(&mut y);")));
}

#[test]
fn essential_fn_repeated_additional_input_stops() {
    let mut f = EssentialFnData::new(signature(
        "fn twice(a: &mut AdditionalInput, b: &mut AdditionalInput)",
    ));
    let fs = fields("{ x: syn::Item, }");
    let r = f.all_inputs_check(&fs, false, &"__additional_input".to_string(), &ty("AdditionalInput"));
    assert!(r.is_err());
}

fn macro_data(test_system: bool) -> MacroData {
    let input = MacroInput {
        generated_fn_prefix: "find".to_string(),
        additional_input_type: ty("AdditionalInput"),
        system_functions_test: test_system,
        default_cases: vec![
            AttrsSignature {
                attrs: vec![None],
                sig: signature("fn on_expr(e: &mut syn::Expr, __additional_input: AdditionalInput)"),
            },
            AttrsSignature {
                attrs: vec![Some("after_system".to_string())],
                sig: signature("fn late_expr(e: &mut syn::Expr, __additional_input: AdditionalInput)"),
            },
        ],
        special_cases: vec![signature("fn on_call(c: &mut syn::ExprCall, __additional_input: AdditionalInput)")],
    };
    MacroData::new(input)
}

#[test]
fn macro_data_sorts_handlers() {
    let mut data = macro_data(false);
    assert_eq!(data.fn_names.expr, "find_expr_handle");
    assert_eq!(data.default_functions.len(), 1);
    assert!(data.default_functions[0].name_equals("on_expr"));
    assert_eq!(data.default_functions_after_system.len(), 1);
    assert!(data.default_functions_after_system[0].name_equals("late_expr"));
    assert_eq!(data.special_functions.len(), 1);
    assert_eq!(data.system_functions.len(), 48);
    assert!(data.system_functions[0].name_equals("find_item_handle"));
    assert!(data.system_functions[1].name_equals("find_expr_handle"));
    assert!(data.system_functions[39].name_equals("find_type_handle"));
    assert!(data.system_functions[47].name_equals("find_option_qself_handle"));
    assert!(data.system_functions.iter().all(|f| f.used_check().is_ok()));

    let mut tested = macro_data(true);
    assert!(tested.system_functions[1].used_check().is_err());
    tested.system_fn_used("find_expr_handle");
    assert!(tested.system_functions[1].used_check().is_ok());
    assert!(tested.system_functions[0].used_check().is_err());

    // A struct node holding an expression: no special handler fits, so the default,
    // the system and the late handlers are called, in this order.
    let whole = fields("{ search_item: &mut syn::ExprParen }");
    let inner = fields("{ expr: Box<syn::Expr> }");
    let calls = data
        .struct_calls(whole, inner, &"__additional_input".to_string(), &ty("AdditionalInput"))
        .ok()
        .unwrap();
    let names: Vec<&str> = calls.iter().map(|c| c.name.as_str()).collect();
    assert_eq!(names, vec!["on_expr", "find_expr_handle", "late_expr"]);
    let texts: Vec<String> = calls.iter().map(|c| calls_text(&c.name, &c.calls)).collect();
    assert_eq!(texts.len(), 3);
    assert_eq!(texts[0], normalized("on_expr(&mut search_item.expr, __additional_input.clone());"));

    // A call node: the special handler takes it alone.
    let whole = fields("{ search_item: &mut syn::ExprCall }");
    let inner = fields("{ func: Box<syn::Expr> }");
    let calls = data
        .struct_calls(whole, inner, &"__additional_input".to_string(), &ty("AdditionalInput"))
        .ok()
        .unwrap();
    assert_eq!(calls.len(), 1);
    assert_eq!(calls[0].name, "on_call");
    assert_eq!(calls_text(&calls[0].name, &calls[0].calls), normalized("on_call(search_item, __additional_input.clone());"));
    assert!(data.special_functions[0].used_check().is_ok());
}
