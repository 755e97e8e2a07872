//! Formula engine facade: parsing plus variable-availability validation.

use vstd::prelude::*;
use vstd::string::StringExecFns;
use vstd::string::StringSliceAdditionalSpecFns;

use crate::ast::{Expr, ExprModel};
use crate::error::FormulaError;
use crate::parser::{parse, spec_expr, spec_skip_ws, spec_trimmed};

verus! {

/// The first variable of `e`, in evaluation order, whose name is not in
/// `avail`; `None` when every variable reference resolves.
pub open spec fn spec_missing_var(e: ExprModel, avail: Seq<Seq<char>>) -> Option<Seq<char>>
    decreases e,
{
    match e {
        ExprModel::Num { .. } => None,
        ExprModel::Bool { .. } => None,
        ExprModel::Var { name } => if avail.contains(name) {
            None
        } else {
            Some(name)
        },
        ExprModel::Binary { left, right, .. } => match spec_missing_var(*left, avail) {
            Some(name) => Some(name),
            None => spec_missing_var(*right, avail),
        },
        ExprModel::Unary { arg, .. } => spec_missing_var(*arg, avail),
        ExprModel::Call { args, .. } => spec_missing_var_list(args, avail),
        ExprModel::Ternary { cond, yes, no } => match spec_missing_var(*cond, avail) {
            Some(name) => Some(name),
            None => match spec_missing_var(*yes, avail) {
                Some(name) => Some(name),
                None => spec_missing_var(*no, avail),
            },
        },
    }
}

/// The first missing variable across a list of expressions, left to right.
pub open spec fn spec_missing_var_list(args: Seq<ExprModel>, avail: Seq<Seq<char>>) -> Option<
    Seq<char>,
>
    decreases args,
{
    if args.len() == 0 {
        None
    } else {
        match spec_missing_var(args.first(), avail) {
            Some(name) => Some(name),
            None => spec_missing_var_list(args.drop_first(), avail),
        }
    }
}

/// Test whether `name` occurs in `available`.
fn contains_name(available: &[&str], name: &String) -> (r: bool)
    ensures
        r == available.deep_view().contains(name@),
{
    let mut k: usize = 0;
    while k < available.len()
        invariant
            k <= available@.len(),
            available.deep_view().len() == available@.len(),
            forall|k2: int| 0 <= k2 < k ==> available.deep_view()[k2] != name@,
            forall|k2: int| 0 <= k2 < available@.len() ==> available.deep_view()[k2]
                == available@[k2]@,
        decreases available@.len() - k,
    {
        let candidate = String::from_str(available[k]);
        if candidate.eq(name) {
            proof {
                assert(available.deep_view()[k as int] == name@);
            }
            return true;
        }
        k = k + 1;
    }
    proof {
        assert(forall|k2: int|
            0 <= k2 < available.deep_view().len() ==> available.deep_view()[k2] != name@);
    }
    false
}

/// Walk `expr` and report the first variable, in evaluation order, whose
/// name is missing from `available`.
#[verifier::loop_isolation(false)]
fn check_variables(expr: &Expr, available: &[&str]) -> (r: Result<(), FormulaError>)
    ensures
        match r {
            Ok(()) => spec_missing_var(expr.model(), available.deep_view()) is None,
            Err(e) => e matches FormulaError::UnknownVariable(name) && spec_missing_var(
                expr.model(),
                available.deep_view(),
            ) == Some(name@),
        },
    decreases (*expr).size(),
{
    match expr {
        Expr::Number(_) => Ok(()),
        Expr::Boolean(_) => Ok(()),
        Expr::Variable(name) => {
            if contains_name(available, name) {
                Ok(())
            } else {
                Err(FormulaError::UnknownVariable(name.clone()))
            }
        },
        Expr::Binary { left, right, .. } => {
            match check_variables(left, available) {
                Ok(()) => check_variables(right, available),
                Err(e) => Err(e),
            }
        },
        Expr::Unary { expr: inner, .. } => check_variables(inner, available),
        Expr::FunctionCall { name, args } => {
            let ghost ms = crate::ast::models_of(args@);
            let mut k: usize = 0;
            proof {
                crate::ast::lemma_models_of_len(args@);
                assert(ms.skip(0) =~= ms);
            }
            while k < args.len()
                invariant
                    k <= args@.len(),
                    ms == crate::ast::models_of(args@),
                    ms.len() == args@.len(),
                    spec_missing_var_list(ms, available.deep_view()) == spec_missing_var_list(
                        ms.skip(k as int),
                        available.deep_view(),
                    ),
                decreases args@.len() - k,
            {
                proof {
                    crate::ast::lemma_models_of_index(args@, k as int);
                    assert(ms.skip(k as int).first() == ms[k as int]);
                    crate::ast::lemma_size_of_seq_elem(args@, k as int);
                    assert(args@[k as int].size() < (*expr).size());
                }
                match check_variables(&args[k], available) {
                    Ok(()) => {},
                    Err(e) => {
                        proof {
                            let av = available.deep_view();
                            assert(spec_missing_var(ms.skip(k as int).first(), av) is Some);
                            assert((*expr).model() == (ExprModel::Call { name: name@, args: ms }));
                            assert(spec_missing_var((*expr).model(), av)
                                == spec_missing_var_list(ms, av));
                        }
                        return Err(e);
                    },
                }
                proof {
                    assert(ms.skip(k as int).drop_first() =~= ms.skip(k as int + 1));
                }
                k = k + 1;
            }
            proof {
                assert(ms.skip(k as int) =~= Seq::<ExprModel>::empty());
                assert((*expr).model() == (ExprModel::Call { name: name@, args: ms }));
            }
            Ok(())
        },
        Expr::Ternary { condition, then_expr, else_expr } => {
            match check_variables(condition, available) {
                Ok(()) => match check_variables(then_expr, available) {
                    Ok(()) => check_variables(else_expr, available),
                    Err(e) => Err(e),
                },
                Err(e) => Err(e),
            }
        },
    }
}

/// Validate a formula expression without evaluating it: the expression is
/// accepted exactly when it parses.  Variable names are not checked.
pub fn validate(expression: &str) -> (r: Result<(), FormulaError>)
    ensures
        ({
            let t = spec_trimmed(expression.spec_bytes());
            match r {
                Ok(()) => {
                    &&& t.len() > 0
                    &&& spec_expr(t, 0) matches Some((e, j)) && spec_skip_ws(t, j) == t.len()
                },
                Err(err) => match err {
                    FormulaError::EmptyExpression => t.len() == 0,
                    FormulaError::ParseError { position, message } => t.len() > 0 && match spec_expr(
                        t,
                        0,
                    ) {
                        Some((e, j)) => spec_skip_ws(t, j) < t.len() && position == spec_skip_ws(
                            t,
                            j,
                        ) && message@ == "unexpected trailing characters"@,
                        None => position == 0 && message@ == "invalid syntax"@,
                    },
                    _ => false,
                },
            }
        }),
{
    match parse(expression) {
        Ok(_) => Ok(()),
        Err(e) => Err(e),
    }
}

/// Validate a formula and check that every variable it references appears
/// in `available`.  Function names and arities are not checked here; they
/// are only checked when a formula is evaluated.
pub fn validate_with_variables(expression: &str, available: &[&str]) -> (r: Result<
    (),
    FormulaError,
>)
    ensures
        ({
            let t = spec_trimmed(expression.spec_bytes());
            match r {
                Ok(()) => {
                    &&& t.len() > 0
                    &&& spec_expr(t, 0) matches Some((e, j)) && spec_skip_ws(t, j) == t.len()
                        && spec_missing_var(e, available.deep_view()) is None
                },
                Err(err) => match err {
                    FormulaError::EmptyExpression => t.len() == 0,
                    FormulaError::ParseError { position, message } => t.len() > 0 && match spec_expr(
                        t,
                        0,
                    ) {
                        Some((e, j)) => spec_skip_ws(t, j) < t.len() && position == spec_skip_ws(
                            t,
                            j,
                        ) && message@ == "unexpected trailing characters"@,
                        None => position == 0 && message@ == "invalid syntax"@,
                    },
                    FormulaError::UnknownVariable(name) => t.len() > 0 && (spec_expr(
                        t,
                        0,
                    ) matches Some((e, j)) && spec_skip_ws(t, j) == t.len() && spec_missing_var(
                        e,
                        available.deep_view(),
                    ) == Some(name@)),
                    _ => false,
                },
            }
        }),
{
    let ast = match parse(expression) {
        Ok(ast) => ast,
        Err(e) => {
            return Err(e);
        },
    };
    check_variables(&ast, available)
}

} // verus!
