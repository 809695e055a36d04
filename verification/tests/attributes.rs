use easy_macros::attr_input::{parse_reference, Reference};
use easy_macros::attr_unknown::AttrWithUnknown;
use easy_macros::token_tree::{Delimiter, TokenTree};
use proc_macro2::{Spacing, Span};

fn model(ts: proc_macro2::TokenStream) -> Vec<TokenTree> {
    ts.into_iter()
        .map(|t| match t {
            proc_macro2::TokenTree::Group(g) => {
                let d = match g.delimiter() {
                    proc_macro2::Delimiter::Parenthesis => Delimiter::Parenthesis,
                    proc_macro2::Delimiter::Brace => Delimiter::Brace,
                    proc_macro2::Delimiter::Bracket => Delimiter::Bracket,
                    proc_macro2::Delimiter::None => Delimiter::Invisible,
                };
                TokenTree::Group(d, model(g.stream()))
            }
            proc_macro2::TokenTree::Ident(i) => TokenTree::Ident(i.to_string()),
            proc_macro2::TokenTree::Punct(p) => {
                TokenTree::Punct { ch: p.as_char(), joint: p.spacing() == Spacing::Joint }
            }
            proc_macro2::TokenTree::Literal(l) => {
                TokenTree::literal(l.to_string())
            }
        })
        .collect()
}

fn tokens(ts: &[TokenTree]) -> proc_macro2::TokenStream {
    ts.iter()
        .map(|t| -> proc_macro2::TokenTree {
            match t {
                TokenTree::Group(d, inner) => {
                    let d = match d {
                        Delimiter::Parenthesis => proc_macro2::Delimiter::Parenthesis,
                        Delimiter::Brace => proc_macro2::Delimiter::Brace,
                        Delimiter::Bracket => proc_macro2::Delimiter::Bracket,
                        Delimiter::Invisible => proc_macro2::Delimiter::None,
                    };
                    proc_macro2::Group::new(d, tokens(inner)).into()
                }
                TokenTree::Ident(s) => proc_macro2::Ident::new(s, Span::call_site()).into(),
                TokenTree::Punct { ch, joint } => {
                    proc_macro2::Punct::new(*ch, if *joint { Spacing::Joint } else { Spacing::Alone }).into()
                }
                TokenTree::Literal { text, .. } => text.parse::<proc_macro2::Literal>().unwrap().into(),
            }
        })
        .collect()
}

/// An attribute as the macros see it: its tokens and their printed form.
fn attr(s: &str) -> (Vec<TokenTree>, String) {
    let ts = s.parse::<proc_macro2::TokenStream>().unwrap();
    let text = ts.to_string();
    (model(ts), text)
}

fn pattern(s: &str) -> AttrWithUnknown {
    let (ts, text) = attr(s);
    AttrWithUnknown::new(ts, &text).unwrap().unwrap()
}

fn unknown(p: &AttrWithUnknown, s: &str) -> Option<String> {
    let (ts, text) = attr(s);
    p.get_unknown(ts, &text).unwrap().map(|v| tokens(&v).to_string())
}

#[test]
fn attr_pattern_without_marker_is_none() {
    let (ts, text) = attr("#[route(get)]");
    assert!(AttrWithUnknown::new(ts, &text).unwrap().is_none());
}

#[test]
fn attr_pattern_whole_argument() {
    let p = pattern("#[route(__unknown__)]");
    assert_eq!(unknown(&p, "#[route(GET)]"), Some("GET".to_string()));
    assert_eq!(unknown(&p, "#[route(\"/users\")]"), Some("\"/users\"".to_string()));
    assert_eq!(unknown(&p, "#[other(GET)]"), None);
}

#[test]
fn attr_pattern_several_tokens() {
    let p = pattern("#[get(__unknown__, path)]");
    assert_eq!(unknown(&p, "#[get(a + b, path)]"), Some("a + b".to_string()));
    assert_eq!(unknown(&p, "#[get(x, path)]"), Some("x".to_string()));
}

#[test]
fn attr_pattern_inside_identifier() {
    let p = pattern("#[col(user__unknown__)]");
    assert_eq!(unknown(&p, "#[col(user_id)]"), Some("_id".to_string()));
    let q = pattern("#[col(__unknown___id)]");
    assert_eq!(unknown(&q, "#[col(user_id)]"), Some("user".to_string()));
}

#[test]
fn attr_pattern_reads_itself_back() {
    let p = pattern("#[col(__unknown__)]");
    assert_eq!(unknown(&p, "#[col(__unknown__)]"), Some("__unknown__".to_string()));
    let q = pattern("#[col(pre__unknown__post)]");
    assert_eq!(unknown(&q, "#[col(pre__unknown__post)]"), Some("__unknown__".to_string()));
}

#[test]
fn attr_pattern_wrong_shape_is_an_error() {
    let p = pattern("#[get(__unknown__, path)]");
    // The text fits but the marker's group is missing: the tokens do not have the shape.
    let (_, text) = attr("#[get(x, path)]");
    let (ts, _) = attr("#[get]");
    assert!(p.get_unknown(ts, &text).is_err());
    // Fewer tokens than the ones that follow the marker in the pattern.
    let (ts, _) = attr("#[get(path)]");
    assert!(p.get_unknown(ts, &text).is_err());
}

#[test]
fn attr_marker_in_text_but_not_in_tokens_is_an_error() {
    let (ts, _) = attr("#[route(get)]");
    assert!(AttrWithUnknown::new(ts, "#[route(__unknown__)]").is_err());
}

#[test]
fn maybe_ref_input_prefix() {
    let (ts, _) = attr("&mut self.x, #[a]");
    assert_eq!(parse_reference(&ts), (Some(Reference::RefMut), 2));
    let (ts, _) = attr("&self.x, #[a]");
    assert_eq!(parse_reference(&ts), (Some(Reference::Ref), 1));
    let (ts, _) = attr("self.x, #[a]");
    assert_eq!(parse_reference(&ts), (None, 0));
}

#[test]
fn attr_pattern_inside_string_literal() {
    // The marker's place is counted in the literal's value, and the value is cut there.
    let p = pattern("#[doc(\"a__unknown__\")]");
    assert_eq!(unknown(&p, "#[doc(\"aXYZ\")]"), Some("\"XYZ\"".to_string()));
    let q = pattern("#[doc(\"a__unknown__z\")]");
    assert_eq!(unknown(&q, "#[doc(\"aXYz\")]"), Some("\"XY\"".to_string()));
    // Read back from itself, the pattern gives the marker, as a string literal.
    assert_eq!(unknown(&q, "#[doc(\"a__unknown__z\")]"), Some("\"__unknown__\"".to_string()));
}

/// What the pattern finds in each attribute of a list, in order.
fn extract(p: &AttrWithUnknown, attrs: &[&str]) -> Vec<String> {
    attrs.iter().filter_map(|a| unknown(p, a)).collect()
}

#[test]
fn attr_pattern_value_of_each_attribute() {
    let p = pattern("#[serde(rename = __unknown__)]");
    let found = extract(&p, &["#[serde(rename = \"custom_name\")]", "#[serde(rename = \"other_name\")]"]);
    assert_eq!(found, vec!["\"custom_name\"", "\"other_name\""]);
    let none = extract(&pattern("#[route(__unknown__)]"), &["#[derive(Debug)]"]);
    assert!(none.is_empty());
}

#[test]
fn attr_pattern_identifier_suffixes() {
    let p = pattern("#[test_case___unknown__]");
    let found = extract(&p, &["#[test_case_one]", "#[test_case_two]", "#[test_case_foo]", "#[other_attr]"]);
    assert_eq!(found, vec!["one", "two", "foo"]);
}

#[test]
fn attr_pattern_route_parts() {
    let attrs = ["#[route(GET, \"/users\")]", "#[route(POST, \"/users/{id}\")]", "#[route(DELETE, \"/admin/users\")]"];
    assert_eq!(extract(&pattern("#[route(__unknown__, \"/users\")]"), &attrs), vec!["GET"]);
    assert_eq!(extract(&pattern("#[route(POST, __unknown__)]"), &attrs), vec!["\"/users/{id}\""]);
}

#[test]
fn attr_pattern_nested_groups() {
    let attrs = [
        "#[config(database(url = \"postgres://localhost\"))]",
        "#[config(redis(url = \"redis://localhost\"))]",
    ];
    let found = extract(&pattern("#[config(database(url = __unknown__))]"), &attrs);
    assert_eq!(found, vec!["\"postgres://localhost\""]);
}

#[test]
fn attr_pattern_matches_whole_attribute_only() {
    let attrs = ["#[route(GET, \"/users\", auth = true)]"];
    assert_eq!(extract(&pattern("#[route(__unknown__, \"/users\", auth = true)]"), &attrs), vec!["GET"]);
    assert!(extract(&pattern("#[route(__unknown__, \"/users\")]"), &attrs).is_empty());
}

#[test]
fn attr_pattern_inside_nested_arguments() {
    let p = pattern("#[validate(length(min = __unknown__, max = 50))]");
    let name = ["#[validate(length(min = 3, max = 50))]", "#[validate(regex = \"^[a-z]+$\")]"];
    let email = ["#[validate(email)]", "#[validate(length(max = 100))]"];
    assert_eq!(extract(&p, &name), vec!["3"]);
    assert!(extract(&p, &email).is_empty());
}

#[test]
fn literal_token_reads_string_value() {
    match TokenTree::literal("\"a\\nb\"".to_string()) {
        TokenTree::Literal { text, str_value } => {
            assert_eq!(text, "\"a\\nb\"");
            assert_eq!(str_value, Some("a\nb".to_string()));
        }
        _ => panic!("not a literal"),
    }
    match TokenTree::literal("r\"x\"".to_string()) {
        TokenTree::Literal { str_value, .. } => assert_eq!(str_value, Some("x".to_string())),
        _ => panic!("not a literal"),
    }
    match TokenTree::literal("12u8".to_string()) {
        TokenTree::Literal { str_value, .. } => assert_eq!(str_value, None),
        _ => panic!("not a literal"),
    }
}
