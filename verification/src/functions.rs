//! Static metadata about the built-in formula functions.

use vstd::prelude::*;
use vstd::string::StringExecFns;

verus! {

/// Information about one supported built-in function.
#[derive(Debug, Clone)]
pub struct FunctionInfo {
    pub name: String,
    pub signature: String,
    pub description: String,
    pub arg_count: u32,
}

/// The fixed table of built-in functions: `min`, `max`, `round`, `abs`,
/// `sqrt`, `floor`, `ceil` and `if`, with their signatures and arities.
pub open spec fn is_function_table(s: Seq<FunctionInfo>) -> bool {
    &&& s.len() == 8
    &&& s[0].name@ == "min"@ && s[0].signature@ == "min(a, b)"@ && s[0].arg_count == 2
    &&& s[0].description@ == "Returns the smaller of two values"@
    &&& s[1].name@ == "max"@ && s[1].signature@ == "max(a, b)"@ && s[1].arg_count == 2
    &&& s[1].description@ == "Returns the larger of two values"@
    &&& s[2].name@ == "round"@ && s[2].signature@ == "round(x, n)"@ && s[2].arg_count == 2
    &&& s[2].description@ == "Rounds x to n decimal places"@
    &&& s[3].name@ == "abs"@ && s[3].signature@ == "abs(x)"@ && s[3].arg_count == 1
    &&& s[3].description@ == "Returns the absolute value of x"@
    &&& s[4].name@ == "sqrt"@ && s[4].signature@ == "sqrt(x)"@ && s[4].arg_count == 1
    &&& s[4].description@ == "Returns the square root of x"@
    &&& s[5].name@ == "floor"@ && s[5].signature@ == "floor(x)"@ && s[5].arg_count == 1
    &&& s[5].description@ == "Rounds x down to the nearest integer"@
    &&& s[6].name@ == "ceil"@ && s[6].signature@ == "ceil(x)"@ && s[6].arg_count == 1
    &&& s[6].description@ == "Rounds x up to the nearest integer"@
    &&& s[7].name@ == "if"@ && s[7].signature@ == "if(cond, a, b)"@ && s[7].arg_count == 3
    &&& s[7].description@ == "Returns a if cond is true, otherwise b"@
}

/// List the supported built-in functions, for display in a user interface.
pub fn supported_functions() -> (r: Vec<FunctionInfo>)
    ensures
        is_function_table(r@),
{
    let mut v: Vec<FunctionInfo> = Vec::new();
    v.push(
        FunctionInfo {
            name: String::from_str("min"),
            signature: String::from_str("min(a, b)"),
            description: String::from_str("Returns the smaller of two values"),
            arg_count: 2,
        },
    );
    v.push(
        FunctionInfo {
            name: String::from_str("max"),
            signature: String::from_str("max(a, b)"),
            description: String::from_str("Returns the larger of two values"),
            arg_count: 2,
        },
    );
    v.push(
        FunctionInfo {
            name: String::from_str("round"),
            signature: String::from_str("round(x, n)"),
            description: String::from_str("Rounds x to n decimal places"),
            arg_count: 2,
        },
    );
    v.push(
        FunctionInfo {
            name: String::from_str("abs"),
            signature: String::from_str("abs(x)"),
            description: String::from_str("Returns the absolute value of x"),
            arg_count: 1,
        },
    );
    v.push(
        FunctionInfo {
            name: String::from_str("sqrt"),
            signature: String::from_str("sqrt(x)"),
            description: String::from_str("Returns the square root of x"),
            arg_count: 1,
        },
    );
    v.push(
        FunctionInfo {
            name: String::from_str("floor"),
            signature: String::from_str("floor(x)"),
            description: String::from_str("Rounds x down to the nearest integer"),
            arg_count: 1,
        },
    );
    v.push(
        FunctionInfo {
            name: String::from_str("ceil"),
            signature: String::from_str("ceil(x)"),
            description: String::from_str("Rounds x up to the nearest integer"),
            arg_count: 1,
        },
    );
    v.push(
        FunctionInfo {
            name: String::from_str("if"),
            signature: String::from_str("if(cond, a, b)"),
            description: String::from_str("Returns a if cond is true, otherwise b"),
            arg_count: 3,
        },
    );
    v
}

} // verus!
