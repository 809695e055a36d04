//! Verified building blocks for writing procedural macros: readable and consistent
//! token text, injected code, context messages for `?`, attribute patterns with an
//! unknown part, and the type matching and call planning of an exhaustive syntax-tree
//! traversal.

pub mod text;
pub mod names;
pub mod token_tree;
pub mod readable;
pub mod macro_result;
pub mod crate_lookup;

pub mod error_data;
pub mod context_format;
pub mod always_context;
pub mod context_info;
pub mod build_options;
pub mod build_scan;

pub mod add_code;
pub mod result_macro;

pub mod attr_input;
pub mod attr_unknown;

pub mod type_model;
pub mod fn_matching;
pub mod essential_fn;
pub mod macro_input;
pub mod system_table;
pub mod macro_data;
pub mod dispatch;
