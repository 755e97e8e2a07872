//! Tests for the crate-level facade functions.

use divelog_compute::{supported_functions, validate_formula, validate_formula_with_variables};

#[test]
fn test_validate_formula_valid() {
    assert!(validate_formula("1 + 2").is_none());
    assert!(validate_formula("max(x, y)").is_none());
}

#[test]
fn test_validate_formula_invalid() {
    assert!(validate_formula("").is_some());
    assert!(validate_formula("1 +").is_some());
}

#[test]
fn test_validate_formula_empty_message() {
    assert_eq!(validate_formula("").unwrap(), "empty expression");
    assert_eq!(validate_formula("   ").unwrap(), "empty expression");
}

#[test]
fn lib_test_validate_with_variables() {
    let vars = vec!["x".to_string(), "y".to_string()];
    assert!(validate_formula_with_variables("x + y", vars.clone()).is_none());
    assert!(validate_formula_with_variables("x + z", vars).is_some());
}

#[test]
fn test_validate_with_variables_message() {
    let vars = vec!["x".to_string()];
    assert_eq!(
        validate_formula_with_variables("x + z", vars).unwrap(),
        "unknown variable: z"
    );
}

#[test]
fn test_supported_functions() {
    let funcs = supported_functions();
    assert!(!funcs.is_empty());

    let names: Vec<_> = funcs.iter().map(|f| f.name.as_str()).collect();
    assert!(names.contains(&"min"));
    assert!(names.contains(&"max"));
    assert!(names.contains(&"round"));
    assert!(names.contains(&"abs"));
}

#[test]
fn test_supported_functions_table() {
    let funcs = supported_functions();
    assert_eq!(funcs.len(), 8);
    let arities: Vec<u32> = funcs.iter().map(|f| f.arg_count).collect();
    assert_eq!(arities, vec![2, 2, 2, 1, 1, 1, 1, 3]);
    assert_eq!(funcs[2].signature, "round(x, n)");
    assert_eq!(funcs[7].name, "if");
    assert_eq!(funcs[7].description, "Returns a if cond is true, otherwise b");
}
