use easy_macros::error_data::{expr_error_wrap, ErrorData, WrappedExpr};

#[test]
fn error_data_basic_usage() {
    let mut errors = Vec::<String>::new();
    errors.push("Invalid syntax".to_string());
    errors.push("Missing required field".to_string());

    assert!(!errors.no_errors());
    let error_messages = errors.error_data();
    assert!(errors.no_errors());
    assert_eq!(error_messages, vec!["Invalid syntax".to_string(), "Missing required field".to_string()]);
}

#[test]
fn error_data_custom_implementation() {
    #[derive(Default)]
    struct ValidationErrors {
        errors: Vec<String>,
        other_data: String,
    }

    impl ValidationErrors {
        fn add_error(&mut self, msg: &str) {
            self.errors.push(msg.to_string());
        }
    }

    impl ErrorData for ValidationErrors {
        fn no_errors(&self) -> bool {
            self.errors.no_errors()
        }

        fn error_data(&mut self) -> Vec<String> {
            self.errors.error_data()
        }
    }

    let mut validator = ValidationErrors::default();
    validator.add_error("Field 'name' is required");
    validator.add_error("Field 'age' must be a positive number");

    assert!(!validator.no_errors());
    let messages = validator.error_data();
    assert_eq!(messages.len(), 2);
    assert!(validator.no_errors());
    assert!(validator.other_data.is_empty());
}

#[test]
fn expr_error_wrap_leaves_expression_without_errors() {
    let mut errors: Vec<String> = Vec::new();
    let wrapped = expr_error_wrap("x + 1", &mut errors);
    assert!(matches!(wrapped, WrappedExpr::Plain("x + 1")));
}

#[test]
fn expr_error_wrap_raises_every_error_once() {
    let mut errors = vec!["first".to_string(), "second".to_string()];
    let wrapped = expr_error_wrap("x + 1", &mut errors);
    match wrapped {
        WrappedExpr::WithErrors { errors: raised, expr } => {
            assert_eq!(raised, vec!["first".to_string(), "second".to_string()]);
            assert_eq!(expr, "x + 1");
        }
        WrappedExpr::Plain(_) => panic!("the errors must be raised"),
    }
    assert!(errors.is_empty());
}
