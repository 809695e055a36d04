use easy_macros::context_format::{context_format_args, context_format_string, context_text};

/// The file and lines that the closures report, as the macro would write them there.
const FILE: &str = "src/tests/context.rs";

#[test]
fn context_basic_usage() {
    // Basic usage with no arguments - just file:line
    let ctx = || context_text(FILE, 9, None);
    let result = ctx();

    // Should match exact format: "src/tests/context.rs:line"
    assert!(result.starts_with("src/tests/context.rs:"));
    // Should not contain \r\n since it's just file:line
    assert!(!result.contains("\r\n"));
    // Should end with a line number (digits)
    assert!(result.ends_with((17 - 8).to_string().as_str()));
}

#[test]
fn context_with_message() {
    // Usage with a simple message
    let ctx = || context_text(FILE, 23, Some("Operation failed"));
    let result = ctx();

    // Should match exact format: "src/tests/context.rs:line\r\nOperation failed"
    assert!(result.starts_with("src/tests/context.rs:"));
    assert!(result.ends_with("\r\nOperation failed"));
    assert!(
        result
            .trim_end_matches("\r\nOperation failed")
            .ends_with((32 - 9).to_string().as_str(),),
    );
}

#[test]
fn context_with_formatting() {
    // Usage with format arguments
    let user_id = 42u64;
    let operation = "delete";

    let ctx = || context_text(FILE, 42, Some(&format!("Failed to {} user {}", operation, user_id)));
    let result = ctx();

    // Should match exact format: "src/tests/context.rs:line\r\nFailed to delete user 42"
    assert!(result.starts_with("src/tests/context.rs:"));
    assert!(result.ends_with("\r\nFailed to delete user 42"));
    // Should have exactly one \r\n separator
    assert_eq!(result.matches("\r\n").count(), 1);
}

#[test]
fn context_multiple_format_args() {
    let file_path = "/path/to/file.txt";
    let line_number = 142;
    let column = 5;

    let ctx = || {
        context_text(
            FILE,
            75,
            Some(&format!("Parse error at {}:{}:{} - unexpected token", file_path, line_number, column)),
        )
    };
    let result = ctx();

    // Should match exact format: "src/tests/context.rs:line\r\nParse error at /path/to/file.txt:142:5 - unexpected token"
    assert!(result.starts_with("src/tests/context.rs:"));
    let expected_message = "Parse error at /path/to/file.txt:142:5 - unexpected token";
    assert!(result.ends_with(&format!("\r\n{}", expected_message)));
    // Should have exactly one \r\n separator
    assert_eq!(result.matches("\r\n").count(), 1);
}

#[test]
fn context_closure_reuse() {
    // Context closures can be stored and reused
    let error_context = || context_text(FILE, 94, Some("Database connection failed"));

    // Use it multiple times
    let ctx1 = error_context();
    let ctx2 = error_context();

    // Both should produce the same context string
    assert_eq!(ctx1, ctx2);
    // Should match exact format: "src/tests/context.rs:line\r\nDatabase connection failed"
    assert!(ctx1.starts_with("src/tests/context.rs:"));
    assert!(ctx1.ends_with("\r\nDatabase connection failed"));
    // Should have exactly one \r\n separator
    assert_eq!(ctx1.matches("\r\n").count(), 1);
}

#[test]
fn format_compiler_test() {
    let test_str = "Str";
    let file = "context-internal/src/lib.rs";
    let _ = format!("file: {}:{} | {test_str} | ", file, 153);
    let _ = format!("{} | file: {}:{}", test_str, file, 154);
}

#[test]
fn context_manual_generation_example() {
    // You can also call the closure manually
    let ctx = || context_text("src/examples.rs", 168, Some(&format!("Operation failed with code {}", 500)));
    let result = ctx();

    assert_eq!(
        result,
        format!(
            "src/examples.rs:{}\r\nOperation failed with code 500",
            175 - 7
        )
    );
}

#[test]
fn context_format_string_shapes() {
    assert_eq!(context_format_string(""), "{}:{}");
    assert_eq!(context_format_string("Failed to {} user {}"), "{}:{}\r\nFailed to {} user {}");
    assert_eq!(context_format_args(vec!["a", "b"], "file", "line"), vec!["file", "line", "a", "b"]);
}
