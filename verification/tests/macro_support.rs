use easy_macros::always_context::{
    always_context_attr_check, anyhow_result_check, context_call_message, handle_arg_attrs, handle_attributes, ArgData,
    DisplayCall, NoContext, Settings, SettingsError, SkipOption,
};
use easy_macros::build_options::{BuildOptions, Skip};
use easy_macros::context_info::{
    call_step, CallStep, ExprKind,
    context_call, context_method, macro_switch, method_gets_context, try_context, FoundContextInfo, TryContext,
    UnsupportedExpr,
};
use easy_macros::error_data::ErrorData;
use easy_macros::fn_matching::{additional_type, AdditionalType};
use easy_macros::names::MacroFnNames;
use easy_macros::result_macro::{
    check_result_wrapper, copied_attr_indices, plan_result_wrapper, result_wrapper_plan, MacroKind, WrapperError,
};
use easy_macros::token_tree::{Delimiter, TokenTree};
use easy_macros::type_model::{ArgumentsModel, PathModel, SegmentModel, TypeModel};

#[test]
fn build_options_attribute_text() {
    assert_eq!(BuildOptions::new().generate_attribute_options(), "");
    assert_eq!(BuildOptions::new().skip(vec![Skip::Macros]).generate_attribute_options(), "skip(macros)");
    assert_eq!(
        BuildOptions::default().skip(vec![Skip::MacrosShort, Skip::EasySql, Skip::Es]).generate_attribute_options(),
        "skip(!, easy_sql, es)"
    );
    // A later call replaces the earlier skips.
    assert_eq!(
        BuildOptions::new().skip(vec![Skip::Es]).skip(vec![Skip::Macros]).generate_attribute_options(),
        "skip(macros)"
    );
}

#[test]
fn settings_from_skip_options() {
    assert!(!Settings::from_skip_options(None).ok().unwrap().skip_macros);
    assert!(!Settings::from_skip_options(Some(vec![])).ok().unwrap().skip_macros);
    assert!(Settings::from_skip_options(Some(vec![SkipOption::Bang])).ok().unwrap().skip_macros);
    assert!(Settings::from_skip_options(Some(vec![SkipOption::Ident("macros".to_string())])).ok().unwrap().skip_macros);
    match Settings::from_skip_options(Some(vec![
        SkipOption::Bang,
        SkipOption::Ident("loops".to_string()),
        SkipOption::Ident("other".to_string()),
    ])) {
        Err(SettingsError::UnknownOption(name)) => assert_eq!(name, "loops"),
        _ => panic!("an unknown option is refused"),
    }
}

#[test]
fn context_switch_attributes() {
    let mut attrs = vec!["a", "b", "c"];
    let texts = vec!["#[inline]".to_string(), "#[no_context_inputs]".to_string(), "#[no_context]".to_string()];
    assert_eq!(always_context_attr_check(&mut attrs, &texts), Some(NoContext::NoFuncInput));
    assert_eq!(attrs, vec!["a", "c"]);

    let mut attrs = vec!["a"];
    let texts = vec!["#[inline]".to_string()];
    assert_eq!(always_context_attr_check(&mut attrs, &texts), None);
    assert_eq!(attrs, vec!["a"]);

    let mut attrs = vec!["x", "y"];
    let texts = vec!["#[enable_context]".to_string(), "#[doc]".to_string()];
    let mut switch = Some(NoContext::All);
    handle_attributes(&mut attrs, &texts, &mut switch);
    assert_eq!(switch, Some(NoContext::EnableBack));
    assert_eq!(attrs, vec!["y"]);

    let mut attrs = vec!["x"];
    let texts = vec!["#[doc]".to_string()];
    let mut switch = Some(NoContext::All);
    handle_attributes(&mut attrs, &texts, &mut switch);
    assert_eq!(switch, Some(NoContext::All));
}

#[test]
fn anyhow_result_return_types() {
    let segs = |v: &[&str]| v.iter().map(|s| s.to_string()).collect::<Vec<String>>();
    assert!(anyhow_result_check(Some(&segs(&["anyhow", "Result"]))));
    assert!(anyhow_result_check(Some(&segs(&["anyhow", "Result", "x"]))));
    assert!(!anyhow_result_check(Some(&segs(&["std", "result", "Result"]))));
    assert!(!anyhow_result_check(Some(&segs(&["Result"]))));
    assert!(!anyhow_result_check(Some(&segs(&["anyhow"]))));
    assert!(!anyhow_result_check(None));
    assert!(method_gets_context(true, Some(Some(&segs(&["anyhow", "Result"])))));
    assert!(!method_gets_context(false, Some(Some(&segs(&["anyhow", "Result"])))));
    assert!(!method_gets_context(true, None));
    assert!(!method_gets_context(true, Some(None)));
}

#[test]
fn context_argument_attributes() {
    let mut data = ArgData { display_fn_call: DisplayCall::Nothing, display: false, duplicate: true, ignore: false };
    let mut attrs = vec![0, 1, 2, 3];
    let lists = vec![Some(" display ".to_string()), None, Some("tokens".to_string()), Some("unknown".to_string())];
    handle_arg_attrs(&mut attrs, &lists, &mut data);
    assert!(data.display);
    assert!(data.display_fn_call == DisplayCall::ToTokenStream);
    assert!(!data.ignore);
    assert_eq!(attrs, vec![1, 3]);

    let mut data = ArgData { display_fn_call: DisplayCall::Nothing, display: false, duplicate: true, ignore: false };
    let mut attrs = vec![0, 1];
    let lists = vec![Some("ignore".to_string()), Some(".len()".to_string())];
    handle_arg_attrs(&mut attrs, &lists, &mut data);
    assert!(data.ignore);
    assert!(data.display_fn_call == DisplayCall::Custom(1));
    assert!(attrs.is_empty());
}

#[test]
fn context_messages_for_calls() {
    assert_eq!(context_call_message("foo ( )", &vec![]), "foo()");
    assert_eq!(
        context_call_message("read ( path , 5 )", &vec!["path".to_string(), "5".to_string()]),
        "read(path, 5 )\r\n\r\nArguments:\r\npath: {}\r\n\r\n5: {}\r\n\r\n"
    );
}

#[test]
fn context_info_decisions() {
    assert!(context_call("x . with_context"));
    assert!(context_call("foo () . context"));
    assert!(!context_call("with_context"));
    assert!(!context_call("foo"));
    assert!(context_method("with_context"));
    assert!(context_method("context"));
    assert!(!context_method("contexts"));
    assert_eq!(try_context(Some(NoContext::All)), TryContext::Skip);
    assert_eq!(try_context(Some(NoContext::NoFuncInput)), TryContext::NoInputs);
    assert_eq!(try_context(Some(NoContext::EnableBack)), TryContext::Full);
    assert_eq!(try_context(None), TryContext::Full);
    assert_eq!(macro_switch(None), None);
    assert_eq!(macro_switch(Some(NoContext::All)), None);
    assert_eq!(macro_switch(Some(NoContext::EnableBack)), Some(NoContext::EnableBack));

    let mut info = FoundContextInfo::new();
    assert!(info.no_errors());
    info.unsupported(UnsupportedExpr::If);
    info.unsupported(UnsupportedExpr::ForLoop);
    assert!(!info.no_errors());
    assert_eq!(
        info.error_data(),
        vec![
            "Always Context Macro: ExprIf right before '?' is not supported".to_string(),
            "Always Context Macro: ExprForLoop right before '?' is not supported".to_string(),
        ]
    );
    assert!(info.no_errors());
}

#[test]
fn result_wrapper_plans() {
    let names = |v: &[&str]| v.iter().map(|s| s.to_string()).collect::<Vec<String>>();
    assert!(check_result_wrapper(Some("anyhow :: Result < TokenStream >"), "anyhow", &vec![true], &names(&["doc", "proc_macro"])).is_ok());
    let plan = plan_result_wrapper(
        Some("anyhow :: Result < TokenStream >"),
        "anyhow",
        &vec![true],
        &names(&["doc", "proc_macro"]),
    );
    assert_eq!(plan.kind, MacroKind::FunctionLike);
    assert_eq!(plan.attr_index, 1);

    let plan = plan_result_wrapper(
        Some("anyhow::Result<proc_macro::TokenStream>"),
        "anyhow",
        &vec![true, true],
        &names(&["proc_macro_attribute"]),
    );
    assert_eq!(plan.kind, MacroKind::Attribute);
    assert_eq!(plan.attr_index, 0);

    assert_eq!(
        check_result_wrapper(None, "anyhow", &vec![true], &names(&["proc_macro"])).err(),
        Some(WrapperError::WrongReturnType)
    );
    assert_eq!(
        check_result_wrapper(Some("TokenStream"), "anyhow", &vec![true], &names(&["proc_macro"])).err(),
        Some(WrapperError::WrongReturnType)
    );
    assert_eq!(
        check_result_wrapper(Some("anyhow::Result<TokenStream>"), "anyhow", &vec![true], &names(&["doc"])).err(),
        Some(WrapperError::NoMacroAttribute)
    );
    assert_eq!(
        check_result_wrapper(Some("anyhow::Result<TokenStream>"), "anyhow", &vec![true], &names(&["proc_macro_attribute"])).err(),
        Some(WrapperError::MissingSecondArgument)
    );
    assert_eq!(
        check_result_wrapper(
            Some("anyhow::Result<TokenStream>"),
            "anyhow",
            &vec![true, false],
            &names(&["proc_macro_attribute"])
        ).err(),
        Some(WrapperError::SecondArgumentNotTyped)
    );
    assert_eq!(
        check_result_wrapper(Some("anyhow::Result<TokenStream>"), "anyhow", &vec![false], &names(&["proc_macro"])).err(),
        Some(WrapperError::SelfArgument)
    );
    assert_eq!(copied_attr_indices(4, 1), vec![0, 2, 3]);
}

#[test]
fn macro_fn_names_for_prefix() {
    let names = MacroFnNames::new("find");
    assert_eq!(names.item, "find_item_handle");
    assert_eq!(names.expr_option, "find_expr_option_handle");
    assert_eq!(names.option_qself, "find_option_qself_handle");
    assert_eq!(names.ty, "find_type_handle");
    assert_eq!(names.additional_input_name, "__additional_input");
}

#[test]
fn additional_input_passing() {
    let ctx = || TypeModel::Path {
        qself: None,
        path: PathModel {
            leading_colon: false,
            segments: vec![SegmentModel { ident: "Ctx".to_string(), arguments: ArgumentsModel::Plain }],
        },
    };
    let plain = ctx();
    let reference = TypeModel::Reference { lifetime: None, mutable: true, elem: Box::new(ctx()) };
    assert_eq!(additional_type(true, &plain), Some(AdditionalType::NoReference));
    assert_eq!(additional_type(true, &reference), Some(AdditionalType::Reference));
    assert_eq!(additional_type(false, &reference), None);
}

#[test]
fn build_options_read_back_by_settings() {
    let text = BuildOptions::new().skip(vec![Skip::Macros, Skip::MacrosShort]).generate_attribute_options();
    assert_eq!(text, "skip(macros, !)");
    let read = Settings::from_skip_options(Some(vec![SkipOption::Ident("macros".to_string()), SkipOption::Bang]));
    assert!(read.ok().unwrap().skip_macros);
    assert_eq!(BuildOptions::new().generate_attribute_options(), "");
    assert!(!Settings::from_skip_options(None).ok().unwrap().skip_macros);
}

#[test]
fn result_wrapper_plan_from_item_text() {
    let plan = result_wrapper_plan(
        "#[doc = \"x\"] #[proc_macro] pub fn m(item: TokenStream) -> anyhow :: Result < TokenStream > { Ok(item) }",
        "anyhow",
    )
    .ok()
    .unwrap()
    .unwrap();
    assert_eq!(plan.kind, MacroKind::FunctionLike);
    assert_eq!(plan.attr_index, 1);
    assert_eq!(plan.clone_arg, vec![false]);

    let plan = result_wrapper_plan(
        "#[proc_macro_attribute] fn m(attr: TokenStream, item: TokenStream) -> anyhow::Result<proc_macro::TokenStream> { Ok(item) }",
        ":: anyhow",
    );
    assert_eq!(plan.err(), Some(WrapperError::WrongReturnType));

    let plan = result_wrapper_plan(
        "#[proc_macro_attribute] fn m(attr: TokenStream, item: TokenStream) -> ::anyhow::Result<proc_macro::TokenStream> { Ok(item) }",
        ":: anyhow",
    )
    .ok()
    .unwrap()
    .unwrap();
    assert_eq!(plan.kind, MacroKind::Attribute);
    assert_eq!(plan.attr_index, 0);
    assert_eq!(plan.clone_arg, vec![false, true]);

    assert_eq!(result_wrapper_plan("#[proc_macro] fn m() -> u8 { 0 }", "anyhow").err(), Some(WrapperError::WrongReturnType));
    assert_eq!(
        result_wrapper_plan("fn m(x: u8) -> anyhow::Result<TokenStream> { Ok(x) }", "anyhow").err(),
        Some(WrapperError::NoMacroAttribute)
    );
    assert!(matches!(result_wrapper_plan("struct S;", "anyhow"), Ok(None)));
}

fn token_model(ts: proc_macro2::TokenStream) -> Vec<TokenTree> {
    ts.into_iter()
        .map(|t| match t {
            proc_macro2::TokenTree::Group(g) => {
                let d = match g.delimiter() {
                    proc_macro2::Delimiter::Parenthesis => Delimiter::Parenthesis,
                    proc_macro2::Delimiter::Brace => Delimiter::Brace,
                    proc_macro2::Delimiter::Bracket => Delimiter::Bracket,
                    proc_macro2::Delimiter::None => Delimiter::Invisible,
                };
                TokenTree::Group(d, token_model(g.stream()))
            }
            proc_macro2::TokenTree::Ident(i) => TokenTree::Ident(i.to_string()),
            proc_macro2::TokenTree::Punct(p) => {
                TokenTree::Punct { ch: p.as_char(), joint: p.spacing() == proc_macro2::Spacing::Joint }
            }
            proc_macro2::TokenTree::Literal(l) => TokenTree::literal(l.to_string()),
        })
        .collect()
}

fn attr_tokens(s: &str) -> Vec<TokenTree> {
    token_model(s.parse().unwrap())
}

#[test]
fn settings_from_attribute_tokens() {
    let text = BuildOptions::new().skip(vec![Skip::Macros, Skip::MacrosShort]).generate_attribute_options();
    assert!(Settings::from_tokens(&attr_tokens(&text)).ok().unwrap().skip_macros);
    assert!(!Settings::from_tokens(&attr_tokens("")).ok().unwrap().skip_macros);
    assert!(Settings::from_tokens(&attr_tokens("skip(!)")).ok().unwrap().skip_macros);
    assert!(!Settings::from_tokens(&attr_tokens("skip()")).ok().unwrap().skip_macros);
    match Settings::from_tokens(&attr_tokens("skip(macros es)")) {
        Err(SettingsError::UnknownOption(name)) => assert_eq!(name, "es"),
        _ => panic!("es is not an option here"),
    }
    assert!(matches!(Settings::from_tokens(&attr_tokens("skip[macros]")), Err(SettingsError::Syntax)));
    assert!(matches!(Settings::from_tokens(&attr_tokens("skip(macros) x")), Err(SettingsError::Syntax)));
    assert!(matches!(Settings::from_tokens(&attr_tokens("skip(\"x\")")), Err(SettingsError::Syntax)));
    assert!(matches!(Settings::from_tokens(&attr_tokens("other(!)")), Err(SettingsError::Syntax)));
}

#[test]
fn call_search_steps() {
    assert_eq!(call_step(ExprKind::Call, "foo"), CallStep::Record);
    assert_eq!(call_step(ExprKind::Call, "x . with_context"), CallStep::IntoCallee);
    assert_eq!(call_step(ExprKind::Call, "x . context"), CallStep::IntoCallee);
    assert_eq!(call_step(ExprKind::MethodCall, "context"), CallStep::IntoCallee);
    assert_eq!(call_step(ExprKind::MethodCall, "contexts"), CallStep::Record);
    assert_eq!(call_step(ExprKind::Unsupported(UnsupportedExpr::If), ""), CallStep::Report(UnsupportedExpr::If));
    assert_eq!(call_step(ExprKind::Other, ""), CallStep::IntoParts);
}
