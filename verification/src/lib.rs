//! Pure computation core for a dive-log application.
//!
//! The crate provides a small formula language — a verified parser,
//! variable-availability validation and function metadata — together with
//! integer-unit dive and segment statistics.  Every function is stateless:
//! data in, derived data out, no I/O.  Contracts on the public functions
//! state exactly what each call returns.

use vstd::prelude::*;

pub mod ast;
pub mod ble;
pub mod error;
pub mod formula;
pub mod functions;
pub mod metrics;
pub mod models;
pub mod parser;
pub mod storage;

pub use crate::ast::{BinaryOp, Expr, UnaryOp};
pub use crate::error::FormulaError;
pub use crate::functions::FunctionInfo;

use vstd::string::StringSliceAdditionalSpecFns;

use crate::error::{spec_decimal, spec_message};
use crate::formula::spec_missing_var;
use crate::parser::{spec_expr, spec_skip_ws, spec_trimmed};

verus! {

/// Validate a formula expression.  Returns `None` when the expression is
/// well formed, and `Some(message)` with the error text otherwise.
pub fn validate_formula(expression: &str) -> (r: Option<String>)
    ensures
        ({
            let t = spec_trimmed(expression.spec_bytes());
            let ok = t.len() > 0 && (spec_expr(t, 0) matches Some((e, j)) && spec_skip_ws(t, j)
                == t.len());
            &&& (r is None) == ok
            &&& t.len() == 0 ==> (r matches Some(msg) && msg@ == spec_message(
                FormulaError::EmptyExpression,
            ))
            &&& t.len() > 0 ==> match spec_expr(t, 0) {
                Some((e, j)) => spec_skip_ws(t, j) < t.len() ==> (r matches Some(msg) && msg@
                    == "parse error at position "@ + spec_decimal(spec_skip_ws(t, j) as nat)
                    + ": "@ + "unexpected trailing characters"@),
                None => r matches Some(msg) && msg@ == "parse error at position "@
                    + spec_decimal(0) + ": "@ + "invalid syntax"@,
            }
        }),
{
    match formula::validate(expression) {
        Ok(()) => None,
        Err(e) => {
            let m = e.message();
            proof {
                match e {
                    FormulaError::ParseError { position, message } => {
                        assert(m@ == "parse error at position "@ + spec_decimal(position as nat)
                            + ": "@ + message@);
                    },
                    _ => {},
                }
            }
            Some(m)
        },
    }
}

/// Validate a formula and check every variable against `available`.
/// Returns `None` when the expression parses and all its variables are
/// available, and `Some(message)` with the error text otherwise.
pub fn validate_formula_with_variables(expression: &str, available: Vec<String>) -> (r: Option<
    String,
>)
    ensures
        ({
            let t = spec_trimmed(expression.spec_bytes());
            let ok = t.len() > 0 && (spec_expr(t, 0) matches Some((e, j)) && spec_skip_ws(t, j)
                == t.len() && spec_missing_var(e, available.deep_view()) is None);
            &&& (r is None) == ok
            &&& t.len() == 0 ==> (r matches Some(msg) && msg@ == spec_message(
                FormulaError::EmptyExpression,
            ))
            &&& t.len() > 0 ==> match spec_expr(t, 0) {
                Some((e, j)) => spec_skip_ws(t, j) == t.len() ==> match spec_missing_var(
                    e,
                    available.deep_view(),
                ) {
                    Some(name) => r matches Some(msg) && msg@ == "unknown variable: "@ + name,
                    None => true,
                },
                None => true,
            }
        }),
{
    let mut refs: Vec<&str> = Vec::new();
    let mut k: usize = 0;
    while k < available.len()
        invariant
            k <= available@.len(),
            refs@.len() == k,
            forall|i: int| 0 <= i < k ==> refs@[i]@ == available@[i]@,
        decreases available@.len() - k,
    {
        refs.push(available[k].as_str());
        k = k + 1;
    }
    let slice = refs.as_slice();
    proof {
        assert(slice.deep_view() =~= available.deep_view());
    }
    match formula::validate_with_variables(expression, slice) {
        Ok(()) => None,
        Err(e) => {
            let m = e.message();
            proof {
                match e {
                    FormulaError::ParseError { position, message } => {
                        assert(m@ == "parse error at position "@ + spec_decimal(position as nat)
                            + ": "@ + message@);
                    },
                    FormulaError::UnknownVariable(name) => {
                        assert(m@ == "unknown variable: "@ + name@);
                    },
                    _ => {},
                }
            }
            Some(m)
        },
    }
}

/// List the supported built-in formula functions, for display in a user
/// interface.
pub fn supported_functions() -> (r: Vec<FunctionInfo>)
    ensures
        crate::functions::is_function_table(r@),
{
    functions::supported_functions()
}

} // verus!
