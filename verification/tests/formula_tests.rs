//! Tests for the formula parser, validation and error messages.

use divelog_compute::ast::{BinaryOp, Expr, UnaryOp};
use divelog_compute::error::FormulaError;
use divelog_compute::formula::{validate, validate_with_variables};
use divelog_compute::parser::parse;

#[test]
fn test_formula_error_display() {
    let err = FormulaError::ParseError {
        position: 5,
        message: "unexpected token".to_string(),
    };
    assert_eq!(err.message(), "parse error at position 5: unexpected token");

    let err = FormulaError::UnknownVariable("foo".to_string());
    assert_eq!(err.message(), "unknown variable: foo");

    let err = FormulaError::DivisionByZero;
    assert_eq!(err.message(), "division by zero");

    let err = FormulaError::InvalidArgCount {
        function: "min".to_string(),
        expected: 2,
        got: 1,
    };
    assert_eq!(
        err.message(),
        "invalid argument count for min: expected 2, got 1"
    );
}

#[test]
fn test_error_message_other_variants() {
    let err = FormulaError::UnknownFunction("frobnicate".to_string());
    assert_eq!(err.message(), "unknown function: frobnicate");

    let err = FormulaError::TypeError("expected a number".to_string());
    assert_eq!(err.message(), "type error: expected a number");

    let err = FormulaError::EmptyExpression;
    assert_eq!(err.message(), "empty expression");

    let err = FormulaError::ParseError {
        position: 1234567890,
        message: "x".to_string(),
    };
    assert_eq!(err.message(), "parse error at position 1234567890: x");
}

#[test]
fn test_binary_op_precedence() {
    assert!(BinaryOp::Mul.precedence() > BinaryOp::Add.precedence());
    assert!(BinaryOp::Add.precedence() > BinaryOp::Gt.precedence());
    assert!(BinaryOp::And.precedence() > BinaryOp::Or.precedence());
}

#[test]
fn test_op_symbols() {
    assert_eq!(BinaryOp::Add.symbol(), "+");
    assert_eq!(BinaryOp::Gte.symbol(), ">=");
    assert_eq!(BinaryOp::Neq.symbol(), "!=");
    assert_eq!(BinaryOp::And.symbol(), "and");
    assert_eq!(UnaryOp::Neg.symbol(), "-");
    assert_eq!(UnaryOp::Not.symbol(), "not");
}

#[test]
fn test_expr_constructors() {
    let num = Expr::number("42".to_string());
    assert!(matches!(num, Expr::Number(ref s) if s == "42"));

    let var = Expr::variable("depth".to_string());
    assert!(matches!(var, Expr::Variable(ref s) if s == "depth"));

    let binary = Expr::binary(
        BinaryOp::Add,
        Expr::number("1".to_string()),
        Expr::number("2".to_string()),
    );
    assert!(matches!(
        binary,
        Expr::Binary {
            op: BinaryOp::Add,
            ..
        }
    ));
}

#[test]
fn test_parse_number() {
    let expr = parse("42").unwrap();
    assert!(matches!(expr, Expr::Number(ref s) if s == "42"));

    let expr = parse("3.5").unwrap();
    assert!(matches!(expr, Expr::Number(ref s) if s == "3.5"));

    let expr = parse("-5").unwrap();
    assert!(matches!(
        expr,
        Expr::Unary {
            op: UnaryOp::Neg,
            ..
        }
    ));
}

#[test]
fn test_parse_number_exponent() {
    let expr = parse("1e3").unwrap();
    assert!(matches!(expr, Expr::Number(ref s) if s == "1e3"));

    let expr = parse("2.5E-2").unwrap();
    assert!(matches!(expr, Expr::Number(ref s) if s == "2.5E-2"));

    let expr = parse("12.").unwrap();
    assert!(matches!(expr, Expr::Number(ref s) if s == "12."));

    let expr = parse(".5").unwrap();
    assert!(matches!(expr, Expr::Number(ref s) if s == ".5"));

    // A dangling exponent marker is not part of the literal.
    assert!(parse("1e").is_err());
}

#[test]
fn test_parse_variable() {
    let expr = parse("max_depth_m").unwrap();
    assert!(matches!(expr, Expr::Variable(ref s) if s == "max_depth_m"));

    let expr = parse("x").unwrap();
    assert!(matches!(expr, Expr::Variable(ref s) if s == "x"));
}

#[test]
fn test_parse_boolean() {
    let expr = parse("true").unwrap();
    assert!(matches!(expr, Expr::Boolean(true)));

    let expr = parse("FALSE").unwrap();
    assert!(matches!(expr, Expr::Boolean(false)));
}

#[test]
fn test_parse_binary_ops() {
    let expr = parse("1 + 2").unwrap();
    assert!(matches!(
        expr,
        Expr::Binary {
            op: BinaryOp::Add,
            ..
        }
    ));

    let expr = parse("a - b").unwrap();
    assert!(matches!(
        expr,
        Expr::Binary {
            op: BinaryOp::Sub,
            ..
        }
    ));

    let expr = parse("x * y").unwrap();
    assert!(matches!(
        expr,
        Expr::Binary {
            op: BinaryOp::Mul,
            ..
        }
    ));

    let expr = parse("a / b").unwrap();
    assert!(matches!(
        expr,
        Expr::Binary {
            op: BinaryOp::Div,
            ..
        }
    ));
}

#[test]
fn test_parse_comparison_ops() {
    let expr = parse("a > b").unwrap();
    assert!(matches!(
        expr,
        Expr::Binary {
            op: BinaryOp::Gt,
            ..
        }
    ));

    let expr = parse("a >= b").unwrap();
    assert!(matches!(
        expr,
        Expr::Binary {
            op: BinaryOp::Gte,
            ..
        }
    ));

    let expr = parse("a == b").unwrap();
    assert!(matches!(
        expr,
        Expr::Binary {
            op: BinaryOp::Eq,
            ..
        }
    ));

    let expr = parse("a != b").unwrap();
    assert!(matches!(
        expr,
        Expr::Binary {
            op: BinaryOp::Neq,
            ..
        }
    ));
}

#[test]
fn test_parse_logical_ops() {
    let expr = parse("a and b").unwrap();
    assert!(matches!(
        expr,
        Expr::Binary {
            op: BinaryOp::And,
            ..
        }
    ));

    let expr = parse("a or b").unwrap();
    assert!(matches!(
        expr,
        Expr::Binary {
            op: BinaryOp::Or,
            ..
        }
    ));

    let expr = parse("not x").unwrap();
    assert!(matches!(
        expr,
        Expr::Unary {
            op: UnaryOp::Not,
            ..
        }
    ));
}

#[test]
fn test_parse_keywords_case_insensitive() {
    let expr = parse("a AND b").unwrap();
    assert!(matches!(
        expr,
        Expr::Binary {
            op: BinaryOp::And,
            ..
        }
    ));

    let expr = parse("NOT x").unwrap();
    assert!(matches!(
        expr,
        Expr::Unary {
            op: UnaryOp::Not,
            ..
        }
    ));
}

#[test]
fn test_parse_precedence() {
    // Multiplication binds tighter than addition
    let expr = parse("1 + 2 * 3").unwrap();
    if let Expr::Binary { op, left, right } = expr {
        assert_eq!(op, BinaryOp::Add);
        assert!(matches!(*left, Expr::Number(_)));
        assert!(matches!(
            *right,
            Expr::Binary {
                op: BinaryOp::Mul,
                ..
            }
        ));
    } else {
        panic!("Expected binary expression");
    }
}

#[test]
fn test_parse_parentheses() {
    let expr = parse("(1 + 2) * 3").unwrap();
    if let Expr::Binary { op, left, .. } = expr {
        assert_eq!(op, BinaryOp::Mul);
        assert!(matches!(
            *left,
            Expr::Binary {
                op: BinaryOp::Add,
                ..
            }
        ));
    } else {
        panic!("Expected binary expression");
    }
}

#[test]
fn test_parse_function_call() {
    let expr = parse("min(a, b)").unwrap();
    if let Expr::FunctionCall { name, args } = expr {
        assert_eq!(name, "min");
        assert_eq!(args.len(), 2);
    } else {
        panic!("Expected function call");
    }

    let expr = parse("round(x, 2)").unwrap();
    if let Expr::FunctionCall { name, args } = expr {
        assert_eq!(name, "round");
        assert_eq!(args.len(), 2);
    } else {
        panic!("Expected function call");
    }
}

#[test]
fn test_parse_ternary() {
    let expr = parse("x > 0 ? x : -x").unwrap();
    assert!(matches!(expr, Expr::Ternary { .. }));
}

#[test]
fn test_parse_complex_expression() {
    let expr = parse("deco_time_min / bottom_time_min").unwrap();
    if let Expr::Binary { op, left, right } = expr {
        assert_eq!(op, BinaryOp::Div);
        assert!(matches!(*left, Expr::Variable(ref s) if s == "deco_time_min"));
        assert!(matches!(*right, Expr::Variable(ref s) if s == "bottom_time_min"));
    } else {
        panic!("Expected binary expression");
    }
}

#[test]
fn test_parse_nested_functions() {
    let expr = parse("max(min(a, b), c)").unwrap();
    if let Expr::FunctionCall { name, args } = expr {
        assert_eq!(name, "max");
        assert_eq!(args.len(), 2);
        assert!(matches!(args[0], Expr::FunctionCall { .. }));
    } else {
        panic!("Expected function call");
    }
}

#[test]
fn test_parse_empty_arg_list() {
    let expr = parse("now()").unwrap();
    if let Expr::FunctionCall { name, args } = expr {
        assert_eq!(name, "now");
        assert_eq!(args.len(), 0);
    } else {
        panic!("Expected function call");
    }
}

#[test]
fn test_parse_empty() {
    let result = parse("");
    assert!(matches!(result, Err(FormulaError::EmptyExpression)));

    let result = parse("   ");
    assert!(matches!(result, Err(FormulaError::EmptyExpression)));
}

#[test]
fn test_parse_error() {
    let result = parse("1 +");
    assert!(result.is_err());

    let result = parse("1 + 2 @");
    assert!(result.is_err());
}

#[test]
fn test_parse_error_position_of_leftover() {
    let result = parse("1 + 2 @");
    match result {
        Err(FormulaError::ParseError { position, .. }) => assert_eq!(position, 6),
        other => panic!("expected a parse error, got {:?}", other),
    }
}

#[test]
fn test_parse_deterministic() {
    // Two parses of the same text produce identical trees.
    let text = "max_depth_m > 40 ? min(a, b) * 2 : -x + 3.5e1";
    let first = parse(text).unwrap();
    let second = parse(text).unwrap();
    assert_eq!(first, second);
}

#[test]
fn test_validate_valid() {
    assert!(validate("1 + 2").is_ok());
    assert!(validate("x * y").is_ok());
    assert!(validate("min(a, b)").is_ok());
    assert!(validate("x > 0 ? x : -x").is_ok());
}

#[test]
fn test_validate_invalid() {
    assert!(validate("").is_err());
    assert!(validate("1 +").is_err());
    assert!(validate("((1 + 2)").is_err());
}

#[test]
fn mod_test_validate_with_variables() {
    let available = vec!["x", "y"];
    assert!(validate_with_variables("x + y", &available).is_ok());
    assert!(validate_with_variables("x + z", &available).is_err());
}

#[test]
fn test_validate_with_variables_first_missing_name() {
    // The first unresolved variable, in evaluation order, is the one reported.
    let result = validate_with_variables("min(a, b)", &[]);
    match result {
        Err(FormulaError::UnknownVariable(name)) => assert_eq!(name, "a"),
        other => panic!("expected an unknown variable, got {:?}", other),
    }
}
