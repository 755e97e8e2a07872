//! Recursive-descent parser for formula expressions.
//!
//! The grammar, from loosest to tightest binding:
//! ternary `?:` → `or` → `and` → comparison → additive → multiplicative →
//! unary (`-`, `not`) → primary (literal, variable, call, parentheses).
//! Keywords (`and`, `or`, `not`, `true`, `false`) match case-insensitively
//! and every binary operator is left-associative.
//!
//! The functions `spec_expr` and its companions below are the grammar's
//! definition; `parse` is proved to return exactly what they describe.

use vstd::prelude::*;
use vstd::slice::slice_subrange;
use vstd::string::StringExecFns;
use vstd::string::StringSliceAdditionalSpecFns;

use crate::ast::{BinaryOp, Expr, ExprModel, UnaryOp};
use crate::error::FormulaError;

verus! {

// ============================================================================
// Byte classes
// ============================================================================

/// Whitespace accepted between tokens: space, tab, carriage return, newline.
pub open spec fn is_space(b: u8) -> bool {
    b == 32 || b == 9 || b == 13 || b == 10
}

/// ASCII decimal digit.
pub open spec fn is_digit_byte(b: u8) -> bool {
    48 <= b <= 57
}

/// Byte that may start an identifier: ASCII letter or underscore.
pub open spec fn is_ident_start(b: u8) -> bool {
    (65 <= b <= 90) || (97 <= b <= 122) || b == 95
}

/// Byte that may continue an identifier: letter, digit or underscore.
pub open spec fn is_ident_byte(b: u8) -> bool {
    is_ident_start(b) || is_digit_byte(b)
}

/// ASCII lower-casing of a single byte.
pub open spec fn lower_byte(b: u8) -> u8 {
    if 65 <= b <= 90 { (b + 32) as u8 } else { b }
}

/// The characters of the byte range `[lo, hi)` of `s` (ASCII bytes only).
pub open spec fn chars_of(s: Seq<u8>, lo: int, hi: int) -> Seq<char> {
    s.subrange(lo, hi).map_values(|b: u8| b as char)
}

// ============================================================================
// Scanning
// ============================================================================

/// First position at or after `i` holding a non-whitespace byte.
pub open spec fn spec_skip_ws(s: Seq<u8>, i: int) -> int
    decreases s.len() - i,
{
    if 0 <= i < s.len() && is_space(s[i]) { spec_skip_ws(s, i + 1) } else { i }
}

/// End of the run of whitespace bytes that precedes `j`.
pub open spec fn spec_rstrip(s: Seq<u8>, j: int) -> int
    decreases j,
{
    if 0 < j <= s.len() && is_space(s[j - 1]) { spec_rstrip(s, j - 1) } else { j }
}

/// The input with leading and trailing whitespace removed.
pub open spec fn spec_trimmed(s: Seq<u8>) -> Seq<u8> {
    let lo = spec_skip_ws(s, 0);
    let hi = spec_rstrip(s, s.len() as int);
    if 0 <= lo <= hi <= s.len() { s.subrange(lo, hi) } else { Seq::empty() }
}

/// End of the run of decimal digits starting at `i`.
pub open spec fn spec_scan_digits(s: Seq<u8>, i: int) -> int
    decreases s.len() - i,
{
    if 0 <= i < s.len() && is_digit_byte(s[i]) { spec_scan_digits(s, i + 1) } else { i }
}

/// End of the run of identifier bytes starting at `i`.
pub open spec fn spec_scan_ident(s: Seq<u8>, i: int) -> int
    decreases s.len() - i,
{
    if 0 <= i < s.len() && is_ident_byte(s[i]) { spec_scan_ident(s, i + 1) } else { i }
}

// ============================================================================
// Keywords and operator tokens
// ============================================================================

/// `or` (case-insensitive) at position `i`.
pub open spec fn kw_or_at(s: Seq<u8>, i: int) -> bool {
    i + 2 <= s.len() && 0 <= i && lower_byte(s[i]) == 111 && lower_byte(s[i + 1]) == 114
}

/// `and` (case-insensitive) at position `i`.
pub open spec fn kw_and_at(s: Seq<u8>, i: int) -> bool {
    i + 3 <= s.len() && 0 <= i && lower_byte(s[i]) == 97 && lower_byte(s[i + 1]) == 110
        && lower_byte(s[i + 2]) == 100
}

/// `not` (case-insensitive) at position `i`.
pub open spec fn kw_not_at(s: Seq<u8>, i: int) -> bool {
    i + 3 <= s.len() && 0 <= i && lower_byte(s[i]) == 110 && lower_byte(s[i + 1]) == 111
        && lower_byte(s[i + 2]) == 116
}

/// `true` (case-insensitive) at position `i`.
pub open spec fn kw_true_at(s: Seq<u8>, i: int) -> bool {
    i + 4 <= s.len() && 0 <= i && lower_byte(s[i]) == 116 && lower_byte(s[i + 1]) == 114
        && lower_byte(s[i + 2]) == 117 && lower_byte(s[i + 3]) == 101
}

/// `false` (case-insensitive) at position `i`.
pub open spec fn kw_false_at(s: Seq<u8>, i: int) -> bool {
    i + 5 <= s.len() && 0 <= i && lower_byte(s[i]) == 102 && lower_byte(s[i + 1]) == 97
        && lower_byte(s[i + 2]) == 108 && lower_byte(s[i + 3]) == 115
        && lower_byte(s[i + 4]) == 101
}

/// Comparison operator at position `i`; two-byte operators take precedence.
pub open spec fn cmp_op_at(s: Seq<u8>, i: int) -> Option<(BinaryOp, int)> {
    if 0 <= i && i + 2 <= s.len() && s[i] == 62 && s[i + 1] == 61 {
        Some((BinaryOp::Gte, i + 2))
    } else if 0 <= i && i + 2 <= s.len() && s[i] == 60 && s[i + 1] == 61 {
        Some((BinaryOp::Lte, i + 2))
    } else if 0 <= i && i + 2 <= s.len() && s[i] == 61 && s[i + 1] == 61 {
        Some((BinaryOp::Eq, i + 2))
    } else if 0 <= i && i + 2 <= s.len() && s[i] == 33 && s[i + 1] == 61 {
        Some((BinaryOp::Neq, i + 2))
    } else if 0 <= i < s.len() && s[i] == 62 {
        Some((BinaryOp::Gt, i + 1))
    } else if 0 <= i < s.len() && s[i] == 60 {
        Some((BinaryOp::Lt, i + 1))
    } else {
        None
    }
}

/// Additive operator at position `i`.
pub open spec fn add_op_at(s: Seq<u8>, i: int) -> Option<(BinaryOp, int)> {
    if 0 <= i < s.len() && s[i] == 43 {
        Some((BinaryOp::Add, i + 1))
    } else if 0 <= i < s.len() && s[i] == 45 {
        Some((BinaryOp::Sub, i + 1))
    } else {
        None
    }
}

/// Multiplicative operator at position `i`.
pub open spec fn mul_op_at(s: Seq<u8>, i: int) -> Option<(BinaryOp, int)> {
    if 0 <= i < s.len() && s[i] == 42 {
        Some((BinaryOp::Mul, i + 1))
    } else if 0 <= i < s.len() && s[i] == 47 {
        Some((BinaryOp::Div, i + 1))
    } else {
        None
    }
}

// ============================================================================
// Number literals
// ============================================================================

/// End of an exponent suffix starting at `i` (`e`/`E`, optional sign,
/// digits); `i` itself when no well-formed exponent is present.
pub open spec fn spec_exp_end(s: Seq<u8>, i: int) -> int {
    if 0 <= i < s.len() && (s[i] == 101 || s[i] == 69) {
        let d = if i + 1 < s.len() && (s[i + 1] == 43 || s[i + 1] == 45) { i + 2 } else { i + 1 };
        let e = spec_scan_digits(s, d);
        if e > d { e } else { i }
    } else {
        i
    }
}

/// Number literal at position `i`: optional sign, then either digits with an
/// optional fraction, or a fraction alone, then an optional exponent.
/// Returns the literal's source text and its end position.
pub open spec fn spec_number(s: Seq<u8>, i: int) -> Option<(ExprModel, int)> {
    if 0 <= i <= s.len() {
        let d = if i < s.len() && (s[i] == 43 || s[i] == 45) { i + 1 } else { i };
        let e1 = spec_scan_digits(s, d);
        if e1 > d {
            let e2 = if e1 < s.len() && s[e1] == 46 { spec_scan_digits(s, e1 + 1) } else { e1 };
            let e3 = spec_exp_end(s, e2);
            Some((ExprModel::Num { lit: chars_of(s, i, e3) }, e3))
        } else if d < s.len() && s[d] == 46 {
            let e2 = spec_scan_digits(s, d + 1);
            if e2 > d + 1 {
                let e3 = spec_exp_end(s, e2);
                Some((ExprModel::Num { lit: chars_of(s, i, e3) }, e3))
            } else {
                None
            }
        } else {
            None
        }
    } else {
        None
    }
}

// ============================================================================
// Grammar
// ============================================================================

/// Argument list after the opening parenthesis of a call: expressions
/// separated by commas, possibly empty.  A separator not followed by an
/// expression is left unconsumed.
pub open spec fn spec_args(s: Seq<u8>, i: int) -> Option<(Seq<ExprModel>, int)>
    decreases s.len() - i, 11int,
{
    if 0 <= i <= s.len() {
        match spec_expr(s, i) {
            Some((e, j)) => if i < j <= s.len() {
                spec_args_tail(s, seq![e], j)
            } else {
                None
            },
            None => Some((Seq::empty(), i)),
        }
    } else {
        None
    }
}

/// Remaining `, expr` groups of an argument list.
pub open spec fn spec_args_tail(s: Seq<u8>, acc: Seq<ExprModel>, i: int) -> Option<
    (Seq<ExprModel>, int),
>
    decreases s.len() - i, 11int,
{
    if 0 <= i <= s.len() {
        let j = spec_skip_ws(s, i);
        if i <= j && j < s.len() && s[j] == 44 {  // ','
            match spec_expr(s, j + 1) {
                Some((e, k)) => if j + 1 <= k <= s.len() {
                    spec_args_tail(s, acc.push(e), k)
                } else {
                    None
                },
                None => Some((acc, i)),
            }
        } else {
            Some((acc, i))
        }
    } else {
        None
    }
}

/// Primary expression at a position already past any whitespace:
/// a parenthesized expression, a boolean literal, a function call,
/// a number literal, or a variable.  An identifier followed by `(` whose
/// argument list or closing parenthesis fails to parse falls back to a
/// plain variable reference, leaving the `(` unconsumed.
pub open spec fn spec_primary(s: Seq<u8>, i: int) -> Option<(ExprModel, int)>
    decreases s.len() - i, 1int,
{
    if 0 <= i < s.len() {
        if s[i] == 40 {  // '('
            match spec_expr(s, i + 1) {
                Some((e, j)) => if i + 1 <= j <= s.len() {
                    let k = spec_skip_ws(s, j);
                    if j <= k && k < s.len() && s[k] == 41 {  // ')'
                        Some((e, k + 1))
                    } else {
                        None
                    }
                } else {
                    None
                },
                None => None,
            }
        } else if kw_true_at(s, i) {
            Some((ExprModel::Bool { value: true }, i + 4))
        } else if kw_false_at(s, i) {
            Some((ExprModel::Bool { value: false }, i + 5))
        } else if is_ident_start(s[i]) {
            spec_call_or_var(s, i)
        } else {
            spec_number(s, i)
        }
    } else {
        None
    }
}

/// A function call, or a plain variable when no argument list follows the
/// identifier or the argument list fails to parse.
pub open spec fn spec_call_or_var(s: Seq<u8>, i: int) -> Option<(ExprModel, int)>
    decreases s.len() - i, 0int,
{
    if 0 <= i < s.len() && is_ident_start(s[i]) {
        let id_end = spec_scan_ident(s, i + 1);
        if i + 1 <= id_end <= s.len() {
            let name = chars_of(s, i, id_end);
            let j = spec_skip_ws(s, id_end);
            if id_end <= j && j < s.len() && s[j] == 40 {  // '('
                match spec_args(s, j + 1) {
                    Some((args, m)) => if j + 1 <= m <= s.len() {
                        let n = spec_skip_ws(s, m);
                        if m <= n && n < s.len() && s[n] == 41 {  // ')'
                            Some((ExprModel::Call { name, args }, n + 1))
                        } else {
                            Some((ExprModel::Var { name }, id_end))
                        }
                    } else {
                        None
                    },
                    None => Some((ExprModel::Var { name }, id_end)),
                }
            } else {
                Some((ExprModel::Var { name }, id_end))
            }
        } else {
            None
        }
    } else {
        None
    }
}

/// Unary layer: any number of prefix `-` or `not` operators, then a primary.
pub open spec fn spec_unary(s: Seq<u8>, i: int) -> Option<(ExprModel, int)>
    decreases s.len() - i, 2int,
{
    if 0 <= i <= s.len() {
        let j = spec_skip_ws(s, i);
        if i <= j && j <= s.len() {
            if j < s.len() && s[j] == 45 {  // '-'
                match spec_unary(s, j + 1) {
                    Some((e, k)) => Some(
                        (ExprModel::Unary { op: UnaryOp::Neg, arg: Box::new(e) }, k),
                    ),
                    None => None,
                }
            } else if kw_not_at(s, j) {
                match spec_unary(s, j + 3) {
                    Some((e, k)) => Some(
                        (ExprModel::Unary { op: UnaryOp::Not, arg: Box::new(e) }, k),
                    ),
                    None => None,
                }
            } else {
                spec_primary(s, j)
            }
        } else {
            None
        }
    } else {
        None
    }
}

/// Multiplicative layer: left-associative chain of `*` and `/`.
pub open spec fn spec_mul(s: Seq<u8>, i: int) -> Option<(ExprModel, int)>
    decreases s.len() - i, 3int,
{
    match spec_unary(s, i) {
        Some((first, j)) => if i < j <= s.len() { spec_mul_tail(s, first, j) } else { None },
        None => None,
    }
}

/// Remaining `op unary` groups of a multiplicative chain.
pub open spec fn spec_mul_tail(s: Seq<u8>, left: ExprModel, i: int) -> Option<(ExprModel, int)>
    decreases s.len() - i, 3int,
{
    if 0 <= i <= s.len() {
        let j = spec_skip_ws(s, i);
        if i <= j {
            match mul_op_at(s, j) {
                Some((op, j2)) => if j < j2 <= s.len() {
                    match spec_unary(s, j2) {
                        Some((right, k)) => if j2 <= k <= s.len() {
                            spec_mul_tail(
                                s,
                                ExprModel::Binary {
                                    op,
                                    left: Box::new(left),
                                    right: Box::new(right),
                                },
                                k,
                            )
                        } else {
                            None
                        },
                        None => None,
                    }
                } else {
                    None
                },
                None => Some((left, i)),
            }
        } else {
            None
        }
    } else {
        None
    }
}

/// Additive layer: left-associative chain of `+` and `-`.
pub open spec fn spec_add(s: Seq<u8>, i: int) -> Option<(ExprModel, int)>
    decreases s.len() - i, 4int,
{
    match spec_mul(s, i) {
        Some((first, j)) => if i < j <= s.len() { spec_add_tail(s, first, j) } else { None },
        None => None,
    }
}

/// Remaining `op multiplicative` groups of an additive chain.
pub open spec fn spec_add_tail(s: Seq<u8>, left: ExprModel, i: int) -> Option<(ExprModel, int)>
    decreases s.len() - i, 4int,
{
    if 0 <= i <= s.len() {
        let j = spec_skip_ws(s, i);
        if i <= j {
            match add_op_at(s, j) {
                Some((op, j2)) => if j < j2 <= s.len() {
                    match spec_mul(s, j2) {
                        Some((right, k)) => if j2 <= k <= s.len() {
                            spec_add_tail(
                                s,
                                ExprModel::Binary {
                                    op,
                                    left: Box::new(left),
                                    right: Box::new(right),
                                },
                                k,
                            )
                        } else {
                            None
                        },
                        None => None,
                    }
                } else {
                    None
                },
                None => Some((left, i)),
            }
        } else {
            None
        }
    } else {
        None
    }
}

/// Comparison layer: left-associative chain of `>`, `<`, `>=`, `<=`, `==`, `!=`.
pub open spec fn spec_cmp(s: Seq<u8>, i: int) -> Option<(ExprModel, int)>
    decreases s.len() - i, 5int,
{
    match spec_add(s, i) {
        Some((first, j)) => if i < j <= s.len() { spec_cmp_tail(s, first, j) } else { None },
        None => None,
    }
}

/// Remaining `op additive` groups of a comparison chain.
pub open spec fn spec_cmp_tail(s: Seq<u8>, left: ExprModel, i: int) -> Option<(ExprModel, int)>
    decreases s.len() - i, 5int,
{
    if 0 <= i <= s.len() {
        let j = spec_skip_ws(s, i);
        if i <= j {
            match cmp_op_at(s, j) {
                Some((op, j2)) => if j < j2 <= s.len() {
                    match spec_add(s, j2) {
                        Some((right, k)) => if j2 <= k <= s.len() {
                            spec_cmp_tail(
                                s,
                                ExprModel::Binary {
                                    op,
                                    left: Box::new(left),
                                    right: Box::new(right),
                                },
                                k,
                            )
                        } else {
                            None
                        },
                        None => None,
                    }
                } else {
                    None
                },
                None => Some((left, i)),
            }
        } else {
            None
        }
    } else {
        None
    }
}

/// Conjunction layer: left-associative chain of `and`.
pub open spec fn spec_and(s: Seq<u8>, i: int) -> Option<(ExprModel, int)>
    decreases s.len() - i, 6int,
{
    match spec_cmp(s, i) {
        Some((first, j)) => if i < j <= s.len() { spec_and_tail(s, first, j) } else { None },
        None => None,
    }
}

/// Remaining `and comparison` groups of a conjunction chain.
pub open spec fn spec_and_tail(s: Seq<u8>, left: ExprModel, i: int) -> Option<(ExprModel, int)>
    decreases s.len() - i, 6int,
{
    if 0 <= i <= s.len() {
        let j = spec_skip_ws(s, i);
        if i <= j && kw_and_at(s, j) {
            match spec_cmp(s, j + 3) {
                Some((right, k)) => if j + 3 <= k <= s.len() {
                    spec_and_tail(
                        s,
                        ExprModel::Binary {
                            op: BinaryOp::And,
                            left: Box::new(left),
                            right: Box::new(right),
                        },
                        k,
                    )
                } else {
                    None
                },
                None => None,
            }
        } else {
            Some((left, i))
        }
    } else {
        None
    }
}

/// Disjunction layer: left-associative chain of `or`.
pub open spec fn spec_or(s: Seq<u8>, i: int) -> Option<(ExprModel, int)>
    decreases s.len() - i, 7int,
{
    match spec_and(s, i) {
        Some((first, j)) => if i < j <= s.len() { spec_or_tail(s, first, j) } else { None },
        None => None,
    }
}

/// Remaining `or conjunction` groups of a disjunction chain.
pub open spec fn spec_or_tail(s: Seq<u8>, left: ExprModel, i: int) -> Option<(ExprModel, int)>
    decreases s.len() - i, 7int,
{
    if 0 <= i <= s.len() {
        let j = spec_skip_ws(s, i);
        if i <= j && kw_or_at(s, j) {
            match spec_and(s, j + 2) {
                Some((right, k)) => if j + 2 <= k <= s.len() {
                    spec_or_tail(
                        s,
                        ExprModel::Binary {
                            op: BinaryOp::Or,
                            left: Box::new(left),
                            right: Box::new(right),
                        },
                        k,
                    )
                } else {
                    None
                },
                None => None,
            }
        } else {
            Some((left, i))
        }
    } else {
        None
    }
}

/// Whole expression: a disjunction, optionally wrapped by a right-associative
/// ternary `cond ? then : else`.
#[verifier::opaque]
pub open spec fn spec_expr(s: Seq<u8>, i: int) -> Option<(ExprModel, int)>
    decreases s.len() - i, 10int,
{
    match spec_or(s, i) {
        Some((cond, j)) => if i < j <= s.len() {
            let k = spec_skip_ws(s, j);
            if j <= k && k < s.len() && s[k] == 63 {  // '?'
                match spec_expr(s, k + 1) {
                    Some((yes, m)) => if k + 1 <= m <= s.len() {
                        let n = spec_skip_ws(s, m);
                        if m <= n && n < s.len() && s[n] == 58 {  // ':'
                            match spec_expr(s, n + 1) {
                                Some((no, p)) => Some(
                                    (
                                        ExprModel::Ternary {
                                            cond: Box::new(cond),
                                            yes: Box::new(yes),
                                            no: Box::new(no),
                                        },
                                        p,
                                    ),
                                ),
                                None => None,
                            }
                        } else {
                            None
                        }
                    } else {
                        None
                    },
                    None => None,
                }
            } else {
                Some((cond, j))
            }
        } else {
            None
        },
        None => None,
    }
}

/// Parsing is a function of the input text alone: a text has at most one
/// parse.  Together with the contract of `parse`, which pins its result to
/// `spec_expr`, repeated calls of `parse` on identical input return
/// identical trees.
pub proof fn lemma_parse_deterministic(
    t: Seq<u8>,
    r1: Option<(ExprModel, int)>,
    r2: Option<(ExprModel, int)>,
)
    requires
        r1 == spec_expr(t, 0),
        r2 == spec_expr(t, 0),
    ensures
        r1 == r2,
{
}

// ============================================================================
// Executable scanning
// ============================================================================

/// Skip whitespace from `i`.
fn skip_ws(s: &[u8], i: usize) -> (j: usize)
    requires
        i <= s@.len(),
    ensures
        j == spec_skip_ws(s@, i as int),
        i <= j <= s@.len(),
{
    let mut j = i;
    while j < s.len() && (s[j] == 32 || s[j] == 9 || s[j] == 13 || s[j] == 10)
        invariant
            i <= j <= s@.len(),
            spec_skip_ws(s@, i as int) == spec_skip_ws(s@, j as int),
        decreases s@.len() - j,
    {
        j = j + 1;
    }
    j
}

/// Trim whitespace from the end of `s`.
fn rstrip(s: &[u8]) -> (j: usize)
    ensures
        j == spec_rstrip(s@, s@.len() as int),
        j <= s@.len(),
{
    let mut j = s.len();
    while j > 0 && (s[j - 1] == 32 || s[j - 1] == 9 || s[j - 1] == 13 || s[j - 1] == 10)
        invariant
            j <= s@.len(),
            spec_rstrip(s@, s@.len() as int) == spec_rstrip(s@, j as int),
        decreases j,
    {
        j = j - 1;
    }
    j
}

/// Scan a run of decimal digits from `i`.
fn scan_digits(s: &[u8], i: usize) -> (j: usize)
    requires
        i <= s@.len(),
    ensures
        j == spec_scan_digits(s@, i as int),
        i <= j <= s@.len(),
        forall|k: int| i <= k < j ==> is_digit_byte(s@[k]),
{
    let mut j = i;
    while j < s.len() && 48 <= s[j] && s[j] <= 57
        invariant
            i <= j <= s@.len(),
            spec_scan_digits(s@, i as int) == spec_scan_digits(s@, j as int),
            forall|k: int| i <= k < j ==> is_digit_byte(s@[k]),
        decreases s@.len() - j,
    {
        j = j + 1;
    }
    j
}

/// Scan a run of identifier bytes from `i`.
fn scan_ident(s: &[u8], i: usize) -> (j: usize)
    requires
        i <= s@.len(),
    ensures
        j == spec_scan_ident(s@, i as int),
        i <= j <= s@.len(),
        forall|k: int| i <= k < j ==> is_ident_byte(s@[k]),
{
    let mut j = i;
    while j < s.len() && ((65 <= s[j] && s[j] <= 90) || (97 <= s[j] && s[j] <= 122) || s[j] == 95
        || (48 <= s[j] && s[j] <= 57))
        invariant
            i <= j <= s@.len(),
            spec_scan_ident(s@, i as int) == spec_scan_ident(s@, j as int),
            forall|k: int| i <= k < j ==> is_ident_byte(s@[k]),
        decreases s@.len() - j,
    {
        j = j + 1;
    }
    j
}

/// ASCII lower-casing of one byte.
fn lower(b: u8) -> (r: u8)
    ensures
        r == lower_byte(b),
{
    if 65 <= b && b <= 90 { b + 32 } else { b }
}

/// Test for `or` (case-insensitive) at `i`.
fn at_kw_or(s: &[u8], i: usize) -> (r: bool)
    requires
        i <= s@.len(),
    ensures
        r == kw_or_at(s@, i as int),
{
    s.len() - i >= 2 && lower(s[i]) == 111 && lower(s[i + 1]) == 114
}

/// Test for `and` (case-insensitive) at `i`.
fn at_kw_and(s: &[u8], i: usize) -> (r: bool)
    requires
        i <= s@.len(),
    ensures
        r == kw_and_at(s@, i as int),
{
    s.len() - i >= 3 && lower(s[i]) == 97 && lower(s[i + 1]) == 110 && lower(s[i + 2]) == 100
}

/// Test for `not` (case-insensitive) at `i`.
fn at_kw_not(s: &[u8], i: usize) -> (r: bool)
    requires
        i <= s@.len(),
    ensures
        r == kw_not_at(s@, i as int),
{
    s.len() - i >= 3 && lower(s[i]) == 110 && lower(s[i + 1]) == 111 && lower(s[i + 2]) == 116
}

/// Test for `true` (case-insensitive) at `i`.
fn at_kw_true(s: &[u8], i: usize) -> (r: bool)
    requires
        i <= s@.len(),
    ensures
        r == kw_true_at(s@, i as int),
{
    s.len() - i >= 4 && lower(s[i]) == 116 && lower(s[i + 1]) == 114 && lower(s[i + 2]) == 117
        && lower(s[i + 3]) == 101
}

/// Test for `false` (case-insensitive) at `i`.
fn at_kw_false(s: &[u8], i: usize) -> (r: bool)
    requires
        i <= s@.len(),
    ensures
        r == kw_false_at(s@, i as int),
{
    s.len() - i >= 5 && lower(s[i]) == 102 && lower(s[i + 1]) == 97 && lower(s[i + 2]) == 108
        && lower(s[i + 3]) == 115 && lower(s[i + 4]) == 101
}

/// Match a comparison operator at `i`.
fn cmp_op(s: &[u8], i: usize) -> (r: Option<(BinaryOp, usize)>)
    requires
        i <= s@.len(),
    ensures
        match r {
            Some((op, j)) => cmp_op_at(s@, i as int) == Some((op, j as int)) && i < j <= s@.len(),
            None => cmp_op_at(s@, i as int) is None,
        },
{
    if s.len() - i >= 2 && s[i] == 62 && s[i + 1] == 61 {
        Some((BinaryOp::Gte, i + 2))
    } else if s.len() - i >= 2 && s[i] == 60 && s[i + 1] == 61 {
        Some((BinaryOp::Lte, i + 2))
    } else if s.len() - i >= 2 && s[i] == 61 && s[i + 1] == 61 {
        Some((BinaryOp::Eq, i + 2))
    } else if s.len() - i >= 2 && s[i] == 33 && s[i + 1] == 61 {
        Some((BinaryOp::Neq, i + 2))
    } else if s.len() - i >= 1 && s[i] == 62 {
        Some((BinaryOp::Gt, i + 1))
    } else if s.len() - i >= 1 && s[i] == 60 {
        Some((BinaryOp::Lt, i + 1))
    } else {
        None
    }
}

/// Match an additive operator at `i`.
fn add_op(s: &[u8], i: usize) -> (r: Option<(BinaryOp, usize)>)
    requires
        i <= s@.len(),
    ensures
        match r {
            Some((op, j)) => add_op_at(s@, i as int) == Some((op, j as int)) && i < j <= s@.len(),
            None => add_op_at(s@, i as int) is None,
        },
{
    if s.len() - i >= 1 && s[i] == 43 {
        Some((BinaryOp::Add, i + 1))
    } else if s.len() - i >= 1 && s[i] == 45 {
        Some((BinaryOp::Sub, i + 1))
    } else {
        None
    }
}

/// Match a multiplicative operator at `i`.
fn mul_op(s: &[u8], i: usize) -> (r: Option<(BinaryOp, usize)>)
    requires
        i <= s@.len(),
    ensures
        match r {
            Some((op, j)) => mul_op_at(s@, i as int) == Some((op, j as int)) && i < j <= s@.len(),
            None => mul_op_at(s@, i as int) is None,
        },
{
    if s.len() - i >= 1 && s[i] == 42 {
        Some((BinaryOp::Mul, i + 1))
    } else if s.len() - i >= 1 && s[i] == 47 {
        Some((BinaryOp::Div, i + 1))
    } else {
        None
    }
}

/// Relies on `String::from_utf8`: a vector of bytes below 0x80 decodes to
/// the string with the corresponding ASCII character for each byte.
#[verifier::external_body]
fn ascii_string(bytes: Vec<u8>) -> (r: String)
    requires
        forall|k: int| 0 <= k < bytes@.len() ==> bytes@[k] < 128,
    ensures
        r@ == bytes@.map_values(|b: u8| b as char),
{
    String::from_utf8(bytes).unwrap_or_default()
}

/// Copy the byte range `[lo, hi)` of `s` into an owned ASCII string.
fn range_string(s: &[u8], lo: usize, hi: usize) -> (r: String)
    requires
        lo <= hi <= s@.len(),
        forall|k: int| lo <= k < hi ==> s@[k] < 128,
    ensures
        r@ == chars_of(s@, lo as int, hi as int),
{
    let mut v: Vec<u8> = Vec::new();
    let mut k = lo;
    while k < hi
        invariant
            lo <= k <= hi <= s@.len(),
            v@ == s@.subrange(lo as int, k as int),
            forall|k2: int| lo <= k2 < hi ==> s@[k2] < 128,
        decreases hi - k,
    {
        v.push(s[k]);
        proof {
            assert(s@.subrange(lo as int, k + 1 as int) =~= s@.subrange(lo as int, k as int).push(
                s@[k as int],
            ));
        }
        k = k + 1;
    }
    let r = ascii_string(v);
    proof {
        assert(r@ =~= chars_of(s@, lo as int, hi as int));
    }
    r
}

// ============================================================================
// Executable grammar
// ============================================================================

/// Parse a number literal at `i`.
#[verifier::rlimit(60)]
fn p_number(s: &[u8], i: usize) -> (r: Option<(Expr, usize)>)
    requires
        i <= s@.len(),
    ensures
        match r {
            Some((e, j)) => spec_number(s@, i as int) == Some((e.model(), j as int)) && i < j
                <= s@.len(),
            None => spec_number(s@, i as int) is None,
        },
{
    let d = if i < s.len() && (s[i] == 43 || s[i] == 45) { i + 1 } else { i };
    let e1 = scan_digits(s, d);
    if e1 > d {
        let e2 = if e1 < s.len() && s[e1] == 46 { scan_digits(s, e1 + 1) } else { e1 };
        let e3 = exp_end(s, e2);
        let lit = range_string(s, i, e3);
        Some((Expr::number(lit), e3))
    } else if d < s.len() && s[d] == 46 {
        let e2 = scan_digits(s, d + 1);
        if e2 > d + 1 {
            let e3 = exp_end(s, e2);
            let lit = range_string(s, i, e3);
            Some((Expr::number(lit), e3))
        } else {
            None
        }
    } else {
        None
    }
}

/// Scan an exponent suffix at `i`, if a well-formed one is present.
fn exp_end(s: &[u8], i: usize) -> (j: usize)
    requires
        i <= s@.len(),
    ensures
        j == spec_exp_end(s@, i as int),
        i <= j <= s@.len(),
        forall|k: int| i <= k < j ==> s@[k] < 128,
{
    if i < s.len() && (s[i] == 101 || s[i] == 69) {
        let d = if i + 1 < s.len() && (s[i + 1] == 43 || s[i + 1] == 45) { i + 2 } else { i + 1 };
        let e = scan_digits(s, d);
        if e > d {
            e
        } else {
            i
        }
    } else {
        i
    }
}

/// Parse a primary expression at a position already past any whitespace.
#[verifier::rlimit(100)]
fn p_primary(s: &[u8], i: usize) -> (r: Option<(Expr, usize)>)
    requires
        i <= s@.len(),
    ensures
        match r {
            Some((e, j)) => spec_primary(s@, i as int) == Some((e.model(), j as int)) && i < j
                <= s@.len(),
            None => spec_primary(s@, i as int) is None,
        },
    decreases s@.len() - i, 1int,
{
    proof {
        reveal(spec_expr);
    }
    if i >= s.len() {
        return None;
    }
    if s[i] == 40 {
        match p_expr(s, i + 1) {
            Some((e, j)) => {
                let k = skip_ws(s, j);
                if k < s.len() && s[k] == 41 {
                    Some((e, k + 1))
                } else {
                    None
                }
            },
            None => None,
        }
    } else if at_kw_true(s, i) {
        Some((Expr::boolean(true), i + 4))
    } else if at_kw_false(s, i) {
        Some((Expr::boolean(false), i + 5))
    } else if (65 <= s[i] && s[i] <= 90) || (97 <= s[i] && s[i] <= 122) || s[i] == 95 {
        p_call_or_var(s, i)
    } else {
        p_number(s, i)
    }
}

/// Parse a function call or variable whose identifier starts at `i`.
#[verifier::rlimit(100)]
#[verifier::spinoff_prover]
fn p_call_or_var(s: &[u8], i: usize) -> (r: Option<(Expr, usize)>)
    requires
        i < s@.len(),
        is_ident_start(s@[i as int]),
    ensures
        match r {
            Some((e, j)) => spec_call_or_var(s@, i as int) == Some((e.model(), j as int)) && i < j
                <= s@.len(),
            None => spec_call_or_var(s@, i as int) is None,
        },
    decreases s@.len() - i, 0int,
{
    let n0 = s.len();
    let id_end = scan_ident(s, i + 1);
    proof {
        assert(forall|k: int| i <= k < id_end ==> s@[k] < 128);
    }
    let name = range_string(s, i, id_end);
    let j = skip_ws(s, id_end);
    if j < n0 && s[j] == 40 {
        match p_args(s, j + 1) {
            Some((args, m)) => {
                let n = skip_ws(s, m);
                if n < s.len() && s[n] == 41 {
                    Some((Expr::function_call(name, args), n + 1))
                } else {
                    Some((Expr::variable(name), id_end))
                }
            },
            None => Some((Expr::variable(name), id_end)),
        }
    } else {
        Some((Expr::variable(name), id_end))
    }
}

/// Parse a comma-separated argument list at `i`.
#[verifier::rlimit(60)]
fn p_args(s: &[u8], i: usize) -> (r: Option<(Vec<Expr>, usize)>)
    requires
        i <= s@.len(),
    ensures
        match r {
            Some((v, j)) => spec_args(s@, i as int) == Some((crate::ast::models_of(v@), j as int))
                && i <= j <= s@.len(),
            None => spec_args(s@, i as int) is None,
        },
    decreases s@.len() - i, 11int,
{
    proof {
        reveal(spec_expr);
    }
    match p_expr(s, i) {
        Some((e, j)) => {
            let mut acc: Vec<Expr> = Vec::new();
            let ghost e_model = e.model();
            acc.push(e);
            proof {
                assert(acc@.drop_last() =~= Seq::<Expr>::empty());
                assert(crate::ast::models_of(Seq::<Expr>::empty()) =~= Seq::<ExprModel>::empty());
                assert(crate::ast::models_of(acc@) =~= seq![e_model]);
            }
            p_args_tail(s, acc, j)
        },
        None => Some((Vec::new(), i)),
    }
}

/// Parse the remaining `, expr` groups of an argument list.
fn p_args_tail(s: &[u8], acc: Vec<Expr>, i: usize) -> (r: Option<(Vec<Expr>, usize)>)
    requires
        i <= s@.len(),
    ensures
        match r {
            Some((v, j)) => spec_args_tail(s@, crate::ast::models_of(acc@), i as int) == Some(
                (crate::ast::models_of(v@), j as int),
            ) && i <= j <= s@.len(),
            None => spec_args_tail(s@, crate::ast::models_of(acc@), i as int) is None,
        },
    decreases s@.len() - i, 11int,
{
    proof {
        reveal(spec_expr);
    }
    let j = skip_ws(s, i);
    if j < s.len() && s[j] == 44 {
        match p_expr(s, j + 1) {
            Some((e, k)) => {
                let mut acc2 = acc;
                let ghost old_view = acc2@;
                let ghost old_models = crate::ast::models_of(old_view);
                let ghost e_model = e.model();
                acc2.push(e);
                proof {
                    assert(acc2@.drop_last() =~= old_view);
                    assert(acc2@.last() == acc2@[acc2@.len() - 1]);
                    assert(crate::ast::models_of(acc2@) == crate::ast::models_of(
                        acc2@.drop_last(),
                    ).push(acc2@.last().model()));
                    assert(crate::ast::models_of(acc2@) =~= old_models.push(e_model));
                }
                p_args_tail(s, acc2, k)
            },
            None => Some((acc, i)),
        }
    } else {
        Some((acc, i))
    }
}

/// Parse a unary expression at `i`.
fn p_unary(s: &[u8], i: usize) -> (r: Option<(Expr, usize)>)
    requires
        i <= s@.len(),
    ensures
        match r {
            Some((e, j)) => spec_unary(s@, i as int) == Some((e.model(), j as int)) && i < j
                <= s@.len(),
            None => spec_unary(s@, i as int) is None,
        },
    decreases s@.len() - i, 2int,
{
    let j = skip_ws(s, i);
    if j < s.len() && s[j] == 45 {
        match p_unary(s, j + 1) {
            Some((e, k)) => Some((Expr::unary(UnaryOp::Neg, e), k)),
            None => None,
        }
    } else if at_kw_not(s, j) {
        let n = s.len();
        proof {
            assert(j + 3 <= n);
        }
        match p_unary(s, j + 3) {
            Some((e, k)) => Some((Expr::unary(UnaryOp::Not, e), k)),
            None => None,
        }
    } else {
        p_primary(s, j)
    }
}

/// Parse a multiplicative chain at `i`.
fn p_mul(s: &[u8], i: usize) -> (r: Option<(Expr, usize)>)
    requires
        i <= s@.len(),
    ensures
        match r {
            Some((e, j)) => spec_mul(s@, i as int) == Some((e.model(), j as int)) && i < j
                <= s@.len(),
            None => spec_mul(s@, i as int) is None,
        },
    decreases s@.len() - i, 3int,
{
    match p_unary(s, i) {
        Some((first, j)) => p_mul_tail(s, first, j),
        None => None,
    }
}

/// Parse the remaining `op unary` groups of a multiplicative chain.
fn p_mul_tail(s: &[u8], left: Expr, i: usize) -> (r: Option<(Expr, usize)>)
    requires
        i <= s@.len(),
    ensures
        match r {
            Some((e, j)) => spec_mul_tail(s@, left.model(), i as int) == Some(
                (e.model(), j as int),
            ) && i <= j <= s@.len(),
            None => spec_mul_tail(s@, left.model(), i as int) is None,
        },
    decreases s@.len() - i, 3int,
{
    let j = skip_ws(s, i);
    match mul_op(s, j) {
        Some((op, j2)) => match p_unary(s, j2) {
            Some((right, k)) => p_mul_tail(s, Expr::binary(op, left, right), k),
            None => None,
        },
        None => Some((left, i)),
    }
}

/// Parse an additive chain at `i`.
fn p_add(s: &[u8], i: usize) -> (r: Option<(Expr, usize)>)
    requires
        i <= s@.len(),
    ensures
        match r {
            Some((e, j)) => spec_add(s@, i as int) == Some((e.model(), j as int)) && i < j
                <= s@.len(),
            None => spec_add(s@, i as int) is None,
        },
    decreases s@.len() - i, 4int,
{
    match p_mul(s, i) {
        Some((first, j)) => p_add_tail(s, first, j),
        None => None,
    }
}

/// Parse the remaining `op multiplicative` groups of an additive chain.
fn p_add_tail(s: &[u8], left: Expr, i: usize) -> (r: Option<(Expr, usize)>)
    requires
        i <= s@.len(),
    ensures
        match r {
            Some((e, j)) => spec_add_tail(s@, left.model(), i as int) == Some(
                (e.model(), j as int),
            ) && i <= j <= s@.len(),
            None => spec_add_tail(s@, left.model(), i as int) is None,
        },
    decreases s@.len() - i, 4int,
{
    let j = skip_ws(s, i);
    match add_op(s, j) {
        Some((op, j2)) => match p_mul(s, j2) {
            Some((right, k)) => p_add_tail(s, Expr::binary(op, left, right), k),
            None => None,
        },
        None => Some((left, i)),
    }
}

/// Parse a comparison chain at `i`.
fn p_cmp(s: &[u8], i: usize) -> (r: Option<(Expr, usize)>)
    requires
        i <= s@.len(),
    ensures
        match r {
            Some((e, j)) => spec_cmp(s@, i as int) == Some((e.model(), j as int)) && i < j
                <= s@.len(),
            None => spec_cmp(s@, i as int) is None,
        },
    decreases s@.len() - i, 5int,
{
    match p_add(s, i) {
        Some((first, j)) => p_cmp_tail(s, first, j),
        None => None,
    }
}

/// Parse the remaining `op additive` groups of a comparison chain.
fn p_cmp_tail(s: &[u8], left: Expr, i: usize) -> (r: Option<(Expr, usize)>)
    requires
        i <= s@.len(),
    ensures
        match r {
            Some((e, j)) => spec_cmp_tail(s@, left.model(), i as int) == Some(
                (e.model(), j as int),
            ) && i <= j <= s@.len(),
            None => spec_cmp_tail(s@, left.model(), i as int) is None,
        },
    decreases s@.len() - i, 5int,
{
    let j = skip_ws(s, i);
    match cmp_op(s, j) {
        Some((op, j2)) => match p_add(s, j2) {
            Some((right, k)) => p_cmp_tail(s, Expr::binary(op, left, right), k),
            None => None,
        },
        None => Some((left, i)),
    }
}

/// Parse a conjunction chain at `i`.
fn p_and(s: &[u8], i: usize) -> (r: Option<(Expr, usize)>)
    requires
        i <= s@.len(),
    ensures
        match r {
            Some((e, j)) => spec_and(s@, i as int) == Some((e.model(), j as int)) && i < j
                <= s@.len(),
            None => spec_and(s@, i as int) is None,
        },
    decreases s@.len() - i, 6int,
{
    match p_cmp(s, i) {
        Some((first, j)) => p_and_tail(s, first, j),
        None => None,
    }
}

/// Parse the remaining `and comparison` groups of a conjunction chain.
fn p_and_tail(s: &[u8], left: Expr, i: usize) -> (r: Option<(Expr, usize)>)
    requires
        i <= s@.len(),
    ensures
        match r {
            Some((e, j)) => spec_and_tail(s@, left.model(), i as int) == Some(
                (e.model(), j as int),
            ) && i <= j <= s@.len(),
            None => spec_and_tail(s@, left.model(), i as int) is None,
        },
    decreases s@.len() - i, 6int,
{
    let j = skip_ws(s, i);
    if at_kw_and(s, j) {
        let n = s.len();
        proof {
            assert(j + 3 <= n);
        }
        match p_cmp(s, j + 3) {
            Some((right, k)) => p_and_tail(s, Expr::binary(BinaryOp::And, left, right), k),
            None => None,
        }
    } else {
        Some((left, i))
    }
}

/// Parse a disjunction chain at `i`.
fn p_or(s: &[u8], i: usize) -> (r: Option<(Expr, usize)>)
    requires
        i <= s@.len(),
    ensures
        match r {
            Some((e, j)) => spec_or(s@, i as int) == Some((e.model(), j as int)) && i < j
                <= s@.len(),
            None => spec_or(s@, i as int) is None,
        },
    decreases s@.len() - i, 7int,
{
    match p_and(s, i) {
        Some((first, j)) => p_or_tail(s, first, j),
        None => None,
    }
}

/// Parse the remaining `or conjunction` groups of a disjunction chain.
fn p_or_tail(s: &[u8], left: Expr, i: usize) -> (r: Option<(Expr, usize)>)
    requires
        i <= s@.len(),
    ensures
        match r {
            Some((e, j)) => spec_or_tail(s@, left.model(), i as int) == Some(
                (e.model(), j as int),
            ) && i <= j <= s@.len(),
            None => spec_or_tail(s@, left.model(), i as int) is None,
        },
    decreases s@.len() - i, 7int,
{
    let j = skip_ws(s, i);
    if at_kw_or(s, j) {
        let n = s.len();
        proof {
            assert(j + 2 <= n);
        }
        match p_and(s, j + 2) {
            Some((right, k)) => p_or_tail(s, Expr::binary(BinaryOp::Or, left, right), k),
            None => None,
        }
    } else {
        Some((left, i))
    }
}

/// Parse a whole expression at `i`.
fn p_expr(s: &[u8], i: usize) -> (r: Option<(Expr, usize)>)
    requires
        i <= s@.len(),
    ensures
        match r {
            Some((e, j)) => spec_expr(s@, i as int) == Some((e.model(), j as int)) && i < j
                <= s@.len(),
            None => spec_expr(s@, i as int) is None,
        },
    decreases s@.len() - i, 10int,
{
    proof {
        reveal(spec_expr);
    }
    match p_or(s, i) {
        Some((cond, j)) => {
            let k = skip_ws(s, j);
            if k < s.len() && s[k] == 63 {
                match p_expr(s, k + 1) {
                    Some((yes, m)) => {
                        let n = skip_ws(s, m);
                        if n < s.len() && s[n] == 58 {
                            match p_expr(s, n + 1) {
                                Some((no, p)) => Some((Expr::ternary(cond, yes, no), p)),
                                None => None,
                            }
                        } else {
                            None
                        }
                    },
                    None => None,
                }
            } else {
                Some((cond, j))
            }
        },
        None => None,
    }
}

// ============================================================================
// Entry point
// ============================================================================

/// Parse a formula expression string into an AST.
///
/// The input is trimmed first.  An empty trimmed input is rejected with
/// `EmptyExpression`; text that the grammar cannot match, or text left over
/// after a successful parse, is rejected with `ParseError`.  On success the
/// returned tree is exactly the one that `spec_expr` ascribes to the input.
pub fn parse(input: &str) -> (r: Result<Expr, FormulaError>)
    ensures
        ({
            let t = spec_trimmed(input.spec_bytes());
            match r {
                Ok(ast) => {
                    &&& t.len() > 0
                    &&& spec_expr(t, 0) matches Some((e, j)) && ast.model() == e && spec_skip_ws(
                        t,
                        j,
                    ) == t.len()
                },
                Err(err) => match err {
                    FormulaError::EmptyExpression => t.len() == 0,
                    FormulaError::ParseError { position, message } => t.len() > 0 && match spec_expr(
                        t,
                        0,
                    ) {
                        Some((e, j)) => spec_skip_ws(t, j) < t.len() && position == spec_skip_ws(
                            t,
                            j,
                        ) && message@ == "unexpected trailing characters"@,
                        None => position == 0 && message@ == "invalid syntax"@,
                    },
                    _ => false,
                },
            }
        }),
{
    let bytes = input.as_bytes();
    let lo = skip_ws(bytes, 0);
    let hi = rstrip(bytes);
    if lo >= hi {
        proof {
            assert(spec_trimmed(input.spec_bytes()).len() == 0);
        }
        return Err(FormulaError::EmptyExpression);
    }
    let t = slice_subrange(bytes, lo, hi);
    proof {
        assert(t@ =~= spec_trimmed(input.spec_bytes()));
    }
    match p_expr(t, 0) {
        Some((ast, j)) => {
            let k = skip_ws(t, j);
            if k == t.len() {
                Ok(ast)
            } else {
                Err(
                    FormulaError::ParseError {
                        position: k,
                        message: String::from_str("unexpected trailing characters"),
                    },
                )
            }
        },
        None => Err(
            FormulaError::ParseError { position: 0, message: String::from_str("invalid syntax") },
        ),
    }
}


} // verus!
