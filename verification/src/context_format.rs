//! The `format!` call that the `context!` macro expands to: the file and line come
//! first, then the message given to the macro.
use vstd::prelude::*;

use crate::names::{decimal, push_decimal};

verus! {

/// The format string: `{}:{}` for file and line, then, when the macro was given a
/// message, a line break and that message.
pub open spec fn context_format(message: Seq<char>) -> Seq<char> {
    if message.len() == 0 {
        "{}:{}"@
    } else {
        "{}:{}\r\n"@ + message
    }
}

/// Builds the format string for the message given to `context!` (empty when none).
pub fn context_format_string(message: &str) -> (r: String)
    ensures
        r@ == context_format(message@),
{
    if message.is_empty() {
        String::from_str("{}:{}")
    } else {
        let mut r = String::from_str("{}:{}\r\n");
        r.append(message);
        r
    }
}

/// The arguments of the `format!` call: the file, the line, then the arguments
/// given to `context!`.
pub fn context_format_args<E>(args: Vec<E>, file: E, line: E) -> (r: Vec<E>)
    ensures
        r@ == seq![file, line] + args@,
{
    let mut r: Vec<E> = Vec::new();
    r.push(file);
    r.push(line);
    let mut rest = args;
    r.append(&mut rest);
    r
}


/// What a `context!` closure gives: the file and the line, then, when the macro was
/// given a message, a line break and the message as formatted.
pub open spec fn context_line(file: Seq<char>, line: nat, message: Option<Seq<char>>) -> Seq<char> {
    match message {
        Some(m) => file + ":"@ + decimal(line) + "\r\n"@ + m,
        None => file + ":"@ + decimal(line),
    }
}

/// The text of a `context!` closure at `file` and `line`; `message` is the formatted
/// message, `None` when the macro was given none.
pub fn context_text(file: &str, line: u32, message: Option<&str>) -> (r: String)
    ensures
        r@ == context_line(file@, line as nat, match message { Some(m) => Some(m@), None => None }),
{
    let mut r = String::from_str(file);
    r.append(":");
    push_decimal(&mut r, line as usize);
    match message {
        Some(m) => {
            r.append("\r\n");
            r.append(m);
        },
        None => {},
    }
    r
}

} // verus!
