//! Error type for formula parsing and evaluation.

use vstd::prelude::*;
use vstd::string::StringExecFns;

verus! {

/// Error raised by the formula engine.
#[derive(Debug, Clone, PartialEq)]
pub enum FormulaError {
    /// The expression violates the grammar.  `position` is a byte offset
    /// into the trimmed expression text.
    ParseError { position: usize, message: String },
    /// A variable reference could not be resolved.
    UnknownVariable(String),
    /// A function call names no built-in function.
    UnknownFunction(String),
    /// Reserved for coercion failures.
    TypeError(String),
    /// A division had a right operand equal to zero.
    DivisionByZero,
    /// A built-in function was called with the wrong number of arguments.
    InvalidArgCount { function: String, expected: usize, got: usize },
    /// The trimmed expression text was empty.
    EmptyExpression,
}

/// The decimal digits of `n`, most significant first.
pub open spec fn spec_decimal(n: nat) -> Seq<char>
    decreases n,
{
    if n < 10 {
        seq![spec_digit_char(n)]
    } else {
        spec_decimal(n / 10) + seq![spec_digit_char(n % 10)]
    }
}

/// The character for a single decimal digit.
pub open spec fn spec_digit_char(d: nat) -> char {
    if d == 0 { '0' }
    else if d == 1 { '1' }
    else if d == 2 { '2' }
    else if d == 3 { '3' }
    else if d == 4 { '4' }
    else if d == 5 { '5' }
    else if d == 6 { '6' }
    else if d == 7 { '7' }
    else if d == 8 { '8' }
    else { '9' }
}

/// The message text that `FormulaError::message` returns.
pub open spec fn spec_message(e: FormulaError) -> Seq<char> {
    match e {
        FormulaError::ParseError { position, message } =>
            "parse error at position "@ + spec_decimal(position as nat) + ": "@ + message@,
        FormulaError::UnknownVariable(name) => "unknown variable: "@ + name@,
        FormulaError::UnknownFunction(name) => "unknown function: "@ + name@,
        FormulaError::TypeError(detail) => "type error: "@ + detail@,
        FormulaError::DivisionByZero => "division by zero"@,
        FormulaError::InvalidArgCount { function, expected, got } =>
            "invalid argument count for "@ + function@ + ": expected "@
                + spec_decimal(expected as nat) + ", got "@ + spec_decimal(got as nat),
        FormulaError::EmptyExpression => "empty expression"@,
    }
}

/// A one-character string for the decimal digit `d`.
fn digit_str(d: u64) -> (s: &'static str)
    requires
        d < 10,
    ensures
        s@ == seq![spec_digit_char(d as nat)],
{
    proof {
        reveal_strlit("0");
        reveal_strlit("1");
        reveal_strlit("2");
        reveal_strlit("3");
        reveal_strlit("4");
        reveal_strlit("5");
        reveal_strlit("6");
        reveal_strlit("7");
        reveal_strlit("8");
        reveal_strlit("9");
    }
    if d == 0 { "0" }
    else if d == 1 { "1" }
    else if d == 2 { "2" }
    else if d == 3 { "3" }
    else if d == 4 { "4" }
    else if d == 5 { "5" }
    else if d == 6 { "6" }
    else if d == 7 { "7" }
    else if d == 8 { "8" }
    else { "9" }
}

/// Render `n` in decimal.
pub fn decimal_string(n: u64) -> (s: String)
    ensures
        s@ == spec_decimal(n as nat),
    decreases n,
{
    if n < 10 {
        String::from_str(digit_str(n))
    } else {
        let mut s = decimal_string(n / 10);
        s.append(digit_str(n % 10));
        s
    }
}

impl FormulaError {
    /// The human-readable message for this error.
    pub fn message(&self) -> (s: String)
        ensures
            s@ == spec_message(*self),
    {
        match self {
            FormulaError::ParseError { position, message } => {
                let mut s = String::from_str("parse error at position ");
                s.append(decimal_string(*position as u64).as_str());
                s.append(": ");
                s.append(message.as_str());
                s
            },
            FormulaError::UnknownVariable(name) => {
                let mut s = String::from_str("unknown variable: ");
                s.append(name.as_str());
                s
            },
            FormulaError::UnknownFunction(name) => {
                let mut s = String::from_str("unknown function: ");
                s.append(name.as_str());
                s
            },
            FormulaError::TypeError(detail) => {
                let mut s = String::from_str("type error: ");
                s.append(detail.as_str());
                s
            },
            FormulaError::DivisionByZero => String::from_str("division by zero"),
            FormulaError::InvalidArgCount { function, expected, got } => {
                let mut s = String::from_str("invalid argument count for ");
                s.append(function.as_str());
                s.append(": expected ");
                s.append(decimal_string(*expected as u64).as_str());
                s.append(", got ");
                s.append(decimal_string(*got as u64).as_str());
                s
            },
            FormulaError::EmptyExpression => String::from_str("empty expression"),
        }
    }
}

} // verus!
