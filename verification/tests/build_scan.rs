use easy_macros::build_scan::{edit_order, file_updates, has_always_context, handle_fn, line_pos, FnModel, ItemModel};

fn segs(v: &[&str]) -> Option<Option<Vec<String>>> {
    Some(Some(v.iter().map(|s| s.to_string()).collect()))
}

fn attrs(v: &[&str]) -> Vec<Option<String>> {
    v.iter().map(|s| Some(s.to_string())).collect()
}

#[test]
fn always_context_attribute_found() {
    assert!(has_always_context(&attrs(&["always_context"])));
    assert!(has_always_context(&attrs(&["inline", "always_context::always_context"])));
    assert!(!has_always_context(&attrs(&["inline"])));
    assert!(!has_always_context(&vec![None]));
}

#[test]
fn functions_that_get_context() {
    assert!(handle_fn(&FnModel { returns: segs(&["anyhow", "Result"]), attrs: vec![], line: 3 }));
    assert!(!handle_fn(&FnModel { returns: segs(&["anyhow", "Result"]), attrs: attrs(&["always_context"]), line: 3 }));
    assert!(!handle_fn(&FnModel { returns: segs(&["Result"]), attrs: vec![], line: 3 }));
    assert!(!handle_fn(&FnModel { returns: None, attrs: vec![], line: 3 }));
    assert!(!handle_fn(&FnModel { returns: Some(None), attrs: vec![], line: 3 }));
}

#[test]
fn items_that_get_context() {
    let items = vec![
        ItemModel::Fn(FnModel { returns: segs(&["anyhow", "Result"]), attrs: vec![], line: 1 }),
        ItemModel::Trait { attrs: vec![], line: 5 },
        ItemModel::Impl { attrs: attrs(&["always_context"]), line: 9 },
        ItemModel::Mod(Some(vec![
            ItemModel::Impl { attrs: vec![], line: 12 },
            ItemModel::Other,
            ItemModel::ForeignMod(vec![
                FnModel { returns: segs(&["anyhow", "Result"]), attrs: vec![], line: 20 },
                FnModel { returns: None, attrs: vec![], line: 21 },
            ]),
        ])),
        ItemModel::Mod(None),
    ];
    assert_eq!(file_updates(&items), vec![1, 5, 12, 20]);
    assert_eq!(edit_order(vec![1, 5, 12, 20]), vec![20, 12, 5, 1]);
    assert_eq!(edit_order(vec![3, 9, 3, 1]), vec![9, 3, 3, 1]);
    assert!(edit_order(vec![]).is_empty());
}

#[test]
fn line_positions() {
    assert_eq!(line_pos("a\nb\nc", 0), Ok(0));
    assert_eq!(line_pos("a\nb\nc", 1), Ok(2));
    assert_eq!(line_pos("a\nb\nc", 2), Ok(4));
    assert_eq!(line_pos("fn a()\r\nfn b()", 1), Ok(8));
    assert!(line_pos("abc", 1).is_err());
}
