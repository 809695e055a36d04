//! Collecting error messages and showing them at a problematic expression.
use vstd::prelude::*;

verus! {

/// Collects error messages and hands them over, for `expr_error_wrap`.
///
/// `Vec<String>` implements this trait; a type of a user can too, by forwarding
/// to a `Vec<String>` it holds.
pub trait ErrorData {
    /// The messages collected so far, in order (none, unless the type says more).
    open spec fn pending(&self) -> Seq<String> {
        Seq::empty()
    }

    /// Returns `true` if there are no errors, `false` otherwise.
    fn no_errors(&self) -> (r: bool)
        ensures
            r == (self.pending().len() == 0),
    ;

    /// Removes and returns all collected messages; the collection is empty afterwards.
    fn error_data(&mut self) -> (r: Vec<String>)
        ensures
            r@ == old(self).pending(),
            final(self).pending().len() == 0,
    ;
}

impl ErrorData for Vec<String> {
    open spec fn pending(&self) -> Seq<String> {
        self@
    }

    fn no_errors(&self) -> (r: bool) {
        self.len() == 0
    }

    fn error_data(&mut self) -> (r: Vec<String>) {
        let mut data: Vec<String> = Vec::new();
        std::mem::swap(self, &mut data);
        data
    }
}

/// An expression, possibly wrapped in a block that first raises compile errors.
pub enum WrappedExpr<E> {
    /// The expression as it was.
    Plain(E),
    /// `{ compile_error!(errors[0]); ...; compile_error!(errors[n-1]); expr }`.
    WithErrors { errors: Vec<String>, expr: E },
}

/// Wraps an expression in a block that raises one `compile_error!` per collected
/// message, followed by the original expression; when no message was collected the
/// expression stays as it is. The messages are taken out of `error_info`.
pub fn expr_error_wrap<E, D: ErrorData>(expr: E, error_info: &mut D) -> (r: WrappedExpr<E>)
    ensures
        old(error_info).pending().len() == 0 ==> r == WrappedExpr::Plain(expr)
            && final(error_info).pending() == old(error_info).pending(),
        old(error_info).pending().len() != 0 ==> final(error_info).pending().len() == 0 && (
        match r {
            WrappedExpr::WithErrors { errors, expr: e } => errors@ == old(error_info).pending()
                && e == expr,
            WrappedExpr::Plain(_) => false,
        }),
{
    if !error_info.no_errors() {
        let errors = error_info.error_data();
        WrappedExpr::WithErrors { errors, expr }
    } else {
        WrappedExpr::Plain(expr)
    }
}

} // verus!
