//! What `always_context` learns about the expression before a `?`, and the small
//! decisions it makes about where context goes.
use vstd::prelude::*;

use crate::always_context::{anyhow_result_check, is_anyhow_result, NoContext};
use crate::error_data::ErrorData;
use crate::text::{ends_with, text_eq};

verus! {

/// What was found in the expression before a `?`: the call (printed), the errors
/// met, and the arguments (printed).
pub struct FoundContextInfo {
    pub call_found: Option<String>,
    pub current_errors: Vec<String>,
    pub inputs_found: Vec<String>,
}

impl ErrorData for FoundContextInfo {
    open spec fn pending(&self) -> Seq<String> {
        self.current_errors@
    }

    fn no_errors(&self) -> (r: bool) {
        self.current_errors.no_errors()
    }

    fn error_data(&mut self) -> (r: Vec<String>) {
        self.current_errors.error_data()
    }
}

/// The kinds of expression that cannot stand right before a `?`.
#[derive(Debug, Clone, Copy, PartialEq, Eq, Structural)]
pub enum UnsupportedExpr {
    Block,
    If,
    Match,
    While,
    Field,
    ForLoop,
    Loop,
    Macro,
    Path,
}

/// The name of the kind, as syn calls it.
pub open spec fn kind_name(k: UnsupportedExpr) -> Seq<char> {
    match k {
        UnsupportedExpr::Block => "ExprBlock"@,
        UnsupportedExpr::If => "ExprIf"@,
        UnsupportedExpr::Match => "ExprMatch"@,
        UnsupportedExpr::While => "ExprWhile"@,
        UnsupportedExpr::Field => "ExprField"@,
        UnsupportedExpr::ForLoop => "ExprForLoop"@,
        UnsupportedExpr::Loop => "ExprLoop"@,
        UnsupportedExpr::Macro => "ExprMacro"@,
        UnsupportedExpr::Path => "ExprPath"@,
    }
}

fn kind_name_str(k: UnsupportedExpr) -> (r: &'static str)
    ensures
        r@ == kind_name(k),
{
    match k {
        UnsupportedExpr::Block => "ExprBlock",
        UnsupportedExpr::If => "ExprIf",
        UnsupportedExpr::Match => "ExprMatch",
        UnsupportedExpr::While => "ExprWhile",
        UnsupportedExpr::Field => "ExprField",
        UnsupportedExpr::ForLoop => "ExprForLoop",
        UnsupportedExpr::Loop => "ExprLoop",
        UnsupportedExpr::Macro => "ExprMacro",
        UnsupportedExpr::Path => "ExprPath",
    }
}

/// The error of an expression of kind `k` right before a `?`.
pub open spec fn unsupported_text(k: UnsupportedExpr) -> Seq<char> {
    "Always Context Macro: "@ + kind_name(k) + " right before '?' is not supported"@
}

impl FoundContextInfo {
    /// Nothing found yet.
    pub fn new() -> (r: Self)
        ensures
            r.call_found is None,
            r.current_errors@.len() == 0,
            r.inputs_found@.len() == 0,
    {
        FoundContextInfo { call_found: None, current_errors: Vec::new(), inputs_found: Vec::new() }
    }

    /// Records that an expression of kind `k` stands right before the `?`.
    pub fn unsupported(&mut self, k: UnsupportedExpr)
        ensures
            final(self).current_errors@.len() == old(self).current_errors@.len() + 1,
            final(self).current_errors@.drop_last() == old(self).current_errors@,
            final(self).current_errors@.last()@ == unsupported_text(k),
            final(self).call_found == old(self).call_found,
            final(self).inputs_found == old(self).inputs_found,
    {
        let mut m = String::from_str("Always Context Macro: ");
        m.append(kind_name_str(k));
        m.append(" right before '?' is not supported");
        self.current_errors.push(m);
        assert(self.current_errors@.drop_last() =~= old(self).current_errors@);
    }
}

/// A called function, printed, that is itself `.with_context` or `.context`: the
/// search goes on inside it.
pub open spec fn is_context_call(func_text: Seq<char>) -> bool {
    ". with_context"@.is_suffix_of(func_text) || ". context"@.is_suffix_of(func_text)
}

/// Whether the printed called function is itself `.with_context` or `.context`.
pub fn context_call(func_text: &str) -> (r: bool)
    ensures
        r == is_context_call(func_text@),
{
    let a = ends_with(func_text, ". with_context");
    let b = ends_with(func_text, ". context");
    proof {
        let s = func_text@;
        let x = ". with_context"@;
        let y = ". context"@;
        if x.len() <= s.len() {
            assert(s.skip(s.len() - x.len()) =~= s.subrange(s.len() - x.len(), s.len() as int));
        }
        if y.len() <= s.len() {
            assert(s.skip(s.len() - y.len()) =~= s.subrange(s.len() - y.len(), s.len() as int));
        }
    }
    a || b
}

/// Whether a called method is `with_context` or `context`: the search goes on in its
/// receiver.
pub fn context_method(name: &str) -> (r: bool)
    ensures
        r == (name@ == "with_context"@ || name@ == "context"@),
{
    text_eq(name, "with_context") || text_eq(name, "context")
}

/// The kind of an expression on the way to the call before a `?`, as far as the
/// search tells kinds apart.
#[derive(Debug, Clone, Copy, PartialEq, Eq, Structural)]
pub enum ExprKind {
    /// A function call.
    Call,
    /// A method call.
    MethodCall,
    /// A kind that cannot stand before a `?`.
    Unsupported(UnsupportedExpr),
    /// Any other kind: the search goes on in its parts.
    Other,
}

/// What the search for the call before a `?` does at an expression.
#[derive(Debug, Clone, Copy, PartialEq, Eq, Structural)]
pub enum CallStep {
    /// Go on in the called function (or the method's receiver): it is itself
    /// `.with_context` or `.context`.
    IntoCallee,
    /// This is the call: record it and its arguments.
    Record,
    /// Report the kind as not supported.
    Report(UnsupportedExpr),
    /// Go on in each part of the expression.
    IntoParts,
}

/// The step of the search at an expression of kind `kind`; `callee` is the printed
/// called function of a call, or the name of the method of a method call.
pub open spec fn call_step_of(kind: ExprKind, callee: Seq<char>) -> CallStep {
    match kind {
        ExprKind::Call => if is_context_call(callee) {
            CallStep::IntoCallee
        } else {
            CallStep::Record
        },
        ExprKind::MethodCall => if callee == "with_context"@ || callee == "context"@ {
            CallStep::IntoCallee
        } else {
            CallStep::Record
        },
        ExprKind::Unsupported(k) => CallStep::Report(k),
        ExprKind::Other => CallStep::IntoParts,
    }
}

/// The step of the search at an expression, as `call_step_of` says.
pub fn call_step(kind: ExprKind, callee: &str) -> (r: CallStep)
    ensures
        r == call_step_of(kind, callee@),
{
    match kind {
        ExprKind::Call => if context_call(callee) {
            CallStep::IntoCallee
        } else {
            CallStep::Record
        },
        ExprKind::MethodCall => if context_method(callee) {
            CallStep::IntoCallee
        } else {
            CallStep::Record
        },
        ExprKind::Unsupported(k) => CallStep::Report(k),
        ExprKind::Other => CallStep::IntoParts,
    }
}

/// What is put around the expression before a `?`.
#[derive(Debug, Clone, Copy, PartialEq, Eq, Structural)]
pub enum TryContext {
    /// Nothing.
    Skip,
    /// `.with_context(context!())`, without the call and its inputs.
    NoInputs,
    /// `.with_context(context!(..))` with the call and its inputs.
    Full,
}

/// The context that a `?` gets under the switch in force.
pub open spec fn try_context_of(switch: Option<NoContext>) -> TryContext {
    match switch {
        Some(NoContext::All) => TryContext::Skip,
        Some(NoContext::NoFuncInput) => TryContext::NoInputs,
        Some(NoContext::EnableBack) | None => TryContext::Full,
    }
}

/// The context that a `?` gets under the switch in force.
pub fn try_context(switch: Option<NoContext>) -> (r: TryContext)
    ensures
        r == try_context_of(switch),
{
    match switch {
        Some(NoContext::All) => TryContext::Skip,
        Some(NoContext::NoFuncInput) => TryContext::NoInputs,
        _ => TryContext::Full,
    }
}

/// The switch under which the statement inside a macro is handled: only a switch
/// other than `#[no_context]` found on the macro turns the handling on.
pub fn macro_switch(found: Option<NoContext>) -> (r: Option<NoContext>)
    ensures
        r == (match found {
            Some(NoContext::All) | None => None,
            Some(s) => Some(s),
        }),
{
    match found {
        Some(NoContext::All) | None => None,
        Some(s) => Some(s),
    }
}

/// Whether a method of an impl or trait gets context: it has a body, and its return
/// type is `anyhow::Result` (given as the segments of its path: `None` when it has no
/// return type, `Some(None)` when the type is not a path).
pub fn method_gets_context(has_body: bool, return_segments: Option<Option<&Vec<String>>>) -> (r: bool)
    ensures
        r == (has_body && match return_segments {
            None => false,
            Some(segs) => is_anyhow_result(
                match segs {
                    Some(v) => Some(v@.map_values(|s: String| s@)),
                    None => None,
                },
            ),
        }),
{
    if !has_body {
        return false;
    }
    match return_segments {
        None => false,
        Some(segs) => anyhow_result_check(segs),
    }
}

/// The search for the call before a `?` passes over anyhow's context methods: at a
/// method call it goes into the receiver exactly when the method is `with_context` or
/// `context`, and records the method call itself otherwise.
pub proof fn law_context_methods_skipped(method: Seq<char>)
    ensures
        call_step_of(ExprKind::MethodCall, method) == CallStep::IntoCallee <==> (method == "with_context"@
            || method == "context"@),
        call_step_of(ExprKind::MethodCall, method) == CallStep::Record <==> (method != "with_context"@
            && method != "context"@),
{
    reveal_strlit("with_context");
    assert("with_context"@.len() == 12);
    reveal_strlit("context");
    assert("context"@.len() == 7);
}

/// A function call whose printed callee ends in `. with_context` or `. context` is
/// passed over in the same way: the search goes into the callee.
pub proof fn law_context_calls_skipped(callee: Seq<char>)
    ensures
        call_step_of(ExprKind::Call, callee) == CallStep::IntoCallee <==> (". with_context"@.is_suffix_of(callee)
            || ". context"@.is_suffix_of(callee)),
        call_step_of(ExprKind::Call, callee) == CallStep::Record <==> !(". with_context"@.is_suffix_of(callee)
            || ". context"@.is_suffix_of(callee)),
{
}

} // verus!
