use easy_macros::add_code::{inject_into_block, AddCodeArgs, AddCodeError, BlockStmt};

/// What the statements of a function body act on.
#[derive(Default)]
struct Env {
    events: Vec<&'static str>,
    i: Option<usize>,
}

#[derive(Debug, PartialEq, Clone, Copy)]
enum Value {
    Unit,
    Num(usize),
    OkUnit,
}

type Expr = fn(&mut Env) -> Value;
type Stmt = fn(&mut Env);
type Body = Vec<BlockStmt<Expr, Stmt>>;

/// Runs a block as Rust would: statements in order, the value at the end. A value
/// in the middle of a block would not compile.
fn run(block: &Body, env: &mut Env) -> Value {
    let mut bound = None;
    for (k, st) in block.iter().enumerate() {
        match st {
            BlockStmt::Tail(e) => {
                let v = e(env);
                if k + 1 == block.len() {
                    return v;
                }
                panic!("a value in the middle of a block does not compile");
            }
            BlockStmt::Stmt(s) => s(env),
            BlockStmt::BindResult(e) => bound = Some(e(env)),
            BlockStmt::ResultTail => return bound.expect("the result is bound before"),
        }
    }
    Value::Unit
}

/// Applies `#[add_code(..)]` with the given entries to a body.
fn add_code(entries: Vec<(&str, Body)>, body: Body) -> Result<Body, AddCodeError> {
    let mut args = AddCodeArgs::new();
    for (name, stmts) in entries {
        args.accept(name, stmts)?;
    }
    let args = args.finish()?;
    let mut block = body;
    inject_into_block(&mut block, args);
    Ok(block)
}

fn push_setup(env: &mut Env) {
    env.events.push("setup");
}

fn push_example(env: &mut Env) {
    env.events.push("example");
}

fn push_teardown(env: &mut Env) {
    env.events.push("teardown");
}

fn example_body_only() -> Body {
    add_code(vec![("before", vec![BlockStmt::Stmt(push_setup as Stmt)])], vec![BlockStmt::Stmt(push_example as Stmt)])
        .unwrap()
}

fn after_with_return() -> Body {
    add_code(
        vec![(
            "after",
            vec![BlockStmt::Stmt(push_teardown as Stmt), BlockStmt::Tail((|_: &mut Env| Value::Num(42)) as Expr)],
        )],
        vec![BlockStmt::Stmt(push_example as Stmt)],
    )
    .unwrap()
}

fn setup_and_teardown() -> Body {
    add_code(
        vec![
            ("before", vec![BlockStmt::Stmt(push_setup as Stmt)]),
            ("after", vec![BlockStmt::Stmt(push_teardown as Stmt)]),
        ],
        vec![BlockStmt::Stmt(push_example as Stmt)],
    )
    .unwrap()
}

#[test]
fn injects_setup_before_example() {
    let mut env = Env::default();
    run(&example_body_only(), &mut env);
    assert_eq!(env.events, vec!["setup", "example"]);
}

#[test]
fn injects_teardown_after_example_and_preserves_return() {
    let mut env = Env::default();
    let value = run(&after_with_return(), &mut env);
    assert_eq!(value, Value::Num(42));
    assert_eq!(env.events, vec!["example", "teardown"]);
}

#[test]
fn injects_setup_and_teardown_in_order() {
    let mut env = Env::default();
    run(&setup_and_teardown(), &mut env);
    assert_eq!(env.events, vec!["setup", "example", "teardown"]);
}

fn run_example_body_only(env: &mut Env) {
    run(&example_body_only(), env);
}

fn check_setup_example(env: &mut Env) {
    assert_eq!(env.events, vec!["setup", "example"]);
}

#[test]
fn injects_ok_end_for_docify_style() -> Result<(), ()> {
    let body = add_code(
        vec![("after", vec![BlockStmt::Tail((|_: &mut Env| Value::OkUnit) as Expr)])],
        vec![BlockStmt::Stmt(run_example_body_only as Stmt), BlockStmt::Stmt(check_setup_example as Stmt)],
    )
    .unwrap();
    let mut env = Env::default();
    match run(&body, &mut env) {
        Value::OkUnit => Ok(()),
        _ => Err(()),
    }
}

fn loop_pushing_block(env: &mut Env) -> Value {
    for _ in 0..1 {
        env.events.push("Block");
    }
    Value::Unit
}

fn injects_after_loop_block() -> Body {
    add_code(
        vec![("after", vec![BlockStmt::Tail((|_: &mut Env| Value::OkUnit) as Expr)])],
        vec![BlockStmt::Tail(loop_pushing_block as Expr)],
    )
    .unwrap()
}

fn let_i_be_5(env: &mut Env) {
    env.i = Some(5);
}

fn loop_from_i(env: &mut Env) -> Value {
    for _ in env.i.expect("`i` is bound before")..6 {
        env.events.push("Will happen once");
    }
    Value::Unit
}

fn injects_before_block() -> Body {
    add_code(vec![("before", vec![BlockStmt::Stmt(let_i_be_5 as Stmt)])], vec![BlockStmt::Tail(loop_from_i as Expr)])
        .unwrap()
}

#[test]
fn injects_block_tests() {
    let mut env = Env::default();
    let value = run(&injects_after_loop_block(), &mut env);
    assert_eq!(value, Value::OkUnit);
    assert_eq!(env.events, vec!["Block"]);
    run(&injects_before_block(), &mut env);
    assert_eq!(env.events.len(), 2);
}

#[test]
fn add_code_tail_value_is_kept_after_teardown() {
    let body = add_code(
        vec![("after", vec![BlockStmt::Stmt(push_teardown as Stmt)])],
        vec![BlockStmt::Stmt(push_example as Stmt), BlockStmt::Tail((|_: &mut Env| Value::Num(7)) as Expr)],
    )
    .unwrap();
    let mut env = Env::default();
    assert_eq!(run(&body, &mut env), Value::Num(7));
    assert_eq!(env.events, vec!["example", "teardown"]);
}

#[test]
fn add_code_argument_errors() {
    let dup_before = add_code(vec![("before", vec![]), ("before", vec![])], vec![]);
    assert!(matches!(dup_before, Err(AddCodeError::DuplicateBefore)));
    let dup_after = add_code(vec![("after", vec![]), ("after", vec![])], vec![]);
    assert!(matches!(dup_after, Err(AddCodeError::DuplicateAfter)));
    let unknown = add_code(vec![("during", vec![])], vec![]);
    assert!(matches!(unknown, Err(AddCodeError::UnknownName)));
    let missing = add_code(vec![], vec![]);
    assert!(matches!(missing, Err(AddCodeError::Missing)));
    assert_eq!(AddCodeError::DuplicateBefore.message(), "duplicate `before`");
    assert_eq!(AddCodeError::DuplicateAfter.message(), "duplicate `after`");
    assert_eq!(AddCodeError::UnknownName.message(), "expected `before` or `after`");
    assert_eq!(AddCodeError::Missing.message(), "missing `before` or `after`");
}
