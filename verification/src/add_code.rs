//! Injecting statements at the beginning and at the end of a function body.
use vstd::prelude::*;

use crate::text::text_eq;

verus! {

/// A statement of a block, as far as the injection reads it.
pub enum BlockStmt<E, S> {
    /// An expression without a trailing semicolon: the value of the block.
    Tail(E),
    /// Any other statement.
    Stmt(S),
    /// `let __add_code_result = { expr };`
    BindResult(E),
    /// `__add_code_result`, as the value of the block.
    ResultTail,
}

/// Why the arguments of `#[add_code(..)]` were refused.
#[derive(Debug, Clone, Copy, PartialEq, Eq, Structural)]
pub enum AddCodeError {
    /// `before = { .. }` given twice.
    DuplicateBefore,
    /// `after = { .. }` given twice.
    DuplicateAfter,
    /// A name other than `before` or `after`.
    UnknownName,
    /// Neither `before` nor `after` given.
    Missing,
}

impl AddCodeError {
    /// The message of the error.
    pub fn message(&self) -> (r: &'static str)
        ensures
            r@ == add_code_error_message(*self),
    {
        match self {
            AddCodeError::DuplicateBefore => "duplicate `before`",
            AddCodeError::DuplicateAfter => "duplicate `after`",
            AddCodeError::UnknownName => "expected `before` or `after`",
            AddCodeError::Missing => "missing `before` or `after`",
        }
    }
}

/// The message of an error.
pub open spec fn add_code_error_message(e: AddCodeError) -> Seq<char> {
    match e {
        AddCodeError::DuplicateBefore => "duplicate `before`"@,
        AddCodeError::DuplicateAfter => "duplicate `after`"@,
        AddCodeError::UnknownName => "expected `before` or `after`"@,
        AddCodeError::Missing => "missing `before` or `after`"@,
    }
}

/// The statements to inject before and after the body.
pub struct AddCodeArgs<E, S> {
    pub before: Option<Vec<BlockStmt<E, S>>>,
    pub after: Option<Vec<BlockStmt<E, S>>>,
}

impl<E, S> AddCodeArgs<E, S> {
    /// No statements yet.
    pub fn new() -> (r: Self)
        ensures
            r.before is None,
            r.after is None,
    {
        AddCodeArgs { before: None, after: None }
    }

    /// Takes one `name = { stmts }` entry: `before` and `after` may each be given once.
    pub fn accept(&mut self, name: &str, stmts: Vec<BlockStmt<E, S>>) -> (r: Result<(), AddCodeError>)
        ensures
            name@ == "before"@ ==> if old(self).before is Some {
                r == Err::<(), AddCodeError>(AddCodeError::DuplicateBefore) && *final(self) == *old(self)
            } else {
                r is Ok && final(self).before == Some(stmts) && final(self).after == old(self).after
            },
            name@ == "after"@ ==> if old(self).after is Some {
                r == Err::<(), AddCodeError>(AddCodeError::DuplicateAfter) && *final(self) == *old(self)
            } else {
                r is Ok && final(self).after == Some(stmts) && final(self).before == old(self).before
            },
            name@ != "before"@ && name@ != "after"@ ==> r == Err::<(), AddCodeError>(
                AddCodeError::UnknownName,
            ) && *final(self) == *old(self),
    {
        proof {
            reveal_strlit("before");
            reveal_strlit("after");
            assert("before"@[0] != "after"@[0]);
        }
        if text_eq(name, "before") {
            if self.before.is_some() {
                return Err(AddCodeError::DuplicateBefore);
            }
            self.before = Some(stmts);
            Ok(())
        } else if text_eq(name, "after") {
            if self.after.is_some() {
                return Err(AddCodeError::DuplicateAfter);
            }
            self.after = Some(stmts);
            Ok(())
        } else {
            Err(AddCodeError::UnknownName)
        }
    }

    /// Ends the arguments: at least one of `before` and `after` must have been given.
    pub fn finish(self) -> (r: Result<Self, AddCodeError>)
        ensures
            self.before is None && self.after is None ==> r == Err::<Self, AddCodeError>(
                AddCodeError::Missing,
            ),
            self.before is Some || self.after is Some ==> r == Ok::<Self, AddCodeError>(self),
    {
        if self.before.is_none() && self.after.is_none() {
            Err(AddCodeError::Missing)
        } else {
            Ok(self)
        }
    }
}

/// The body after the `before` statements are put in front of it.
pub open spec fn with_before<E, S>(body: Seq<BlockStmt<E, S>>, before: Option<Seq<BlockStmt<E, S>>>) -> Seq<BlockStmt<E, S>> {
    match before {
        Some(b) => b + body,
        None => body,
    }
}

/// Whether statements end with a value.
pub open spec fn ends_with_value<E, S>(stmts: Seq<BlockStmt<E, S>>) -> bool {
    stmts.len() > 0 && stmts.last() is Tail
}

/// The body after the `after` statements are put at its end: a final value of the
/// body is bound first; it is given back after them, unless they end with a value of
/// their own, which is then the value of the block.
pub open spec fn with_after<E, S>(body: Seq<BlockStmt<E, S>>, after: Option<Seq<BlockStmt<E, S>>>) -> Seq<BlockStmt<E, S>> {
    match after {
        Some(a) => if ends_with_value(body) {
            let bound = body.drop_last().push(BlockStmt::BindResult(body.last()->Tail_0)) + a;
            if ends_with_value(a) {
                bound
            } else {
                bound.push(BlockStmt::ResultTail)
            }
        } else {
            body + a
        },
        None => body,
    }
}

/// Injects the `before` statements at the beginning of a block and the `after`
/// statements at its end; a final value of the block stays its final value unless the
/// `after` statements end with one.
pub fn inject_into_block<E, S>(block: &mut Vec<BlockStmt<E, S>>, args: AddCodeArgs<E, S>)
    ensures
        final(block)@ == with_after(
            with_before(old(block)@, match args.before { Some(b) => Some(b@), None => None }),
            match args.after { Some(a) => Some(a@), None => None },
        ),
{
    let AddCodeArgs { before, after } = args;
    if let Some(before_stmts) = before {
        let mut stmts = before_stmts;
        stmts.append(block);
        std::mem::swap(block, &mut stmts);
    }
    if let Some(after_stmts) = after {
        let mut after_stmts = after_stmts;
        let is_tail = match block.last() {
            Some(BlockStmt::Tail(_)) => true,
            _ => false,
        };
        if is_tail {
            let after_value = match after_stmts.last() {
                Some(BlockStmt::Tail(_)) => true,
                _ => false,
            };
            let last = block.pop();
            match last {
                Some(BlockStmt::Tail(expr)) => {
                    block.push(BlockStmt::BindResult(expr));
                },
                _ => {},
            }
            block.append(&mut after_stmts);
            if !after_value {
                block.push(BlockStmt::ResultTail);
            }
        } else {
            block.append(&mut after_stmts);
        }
    }
}


/// The injected statements keep their order around the body: the `before`
/// statements first, then the body, then the `after` statements; a body without a
/// final value is left as it is in between (an empty body after `before` statements
/// that end with a value excepted: that value is then the block's).
pub proof fn law_injection_order<E, S>(body: Seq<BlockStmt<E, S>>, before: Seq<BlockStmt<E, S>>, after: Seq<BlockStmt<E, S>>)
    requires
        !ends_with_value(body),
        body.len() > 0 || !ends_with_value(before),
    ensures
        with_after(with_before(body, Some(before)), Some(after)) == before + body + after,
        with_after(with_before(body, None), Some(after)) == body + after,
        with_after(with_before(body, Some(before)), None) == before + body,
{
    assert(!ends_with_value(before + body)) by {
        if body.len() > 0 {
            assert((before + body).last() == body.last());
        } else {
            assert(before + body =~= before);
        }
    }
}

/// A final value of the body stays the value of the block when the `after`
/// statements end with none of their own: the body's statements run, its value is
/// bound, the `after` statements run, and the bound value is given back.
pub proof fn law_after_keeps_value<E, S>(body: Seq<BlockStmt<E, S>>, after: Seq<BlockStmt<E, S>>)
    requires
        ends_with_value(body),
        !ends_with_value(after),
    ensures
        with_after(body, Some(after)) == body.drop_last().push(BlockStmt::BindResult(body.last()->Tail_0)) + after.push(
            BlockStmt::ResultTail,
        ),
{
    let bound = body.drop_last().push(BlockStmt::BindResult(body.last()->Tail_0));
    assert((bound + after).push(BlockStmt::ResultTail) =~= bound + after.push(BlockStmt::ResultTail));
}

} // verus!
