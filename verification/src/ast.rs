//! Abstract syntax tree for formula expressions.

use vstd::prelude::*;

verus! {

broadcast use
    vstd::std_specs::vec::axiom_vec_index_decreases,
    vstd::std_specs::vec::axiom_vec_decreases_to_view;

/// The models of a sequence of expressions, element by element.
pub open spec fn models_of(s: Seq<Expr>) -> Seq<ExprModel>
    decreases s,
{
    if s.len() == 0 {
        Seq::empty()
    } else {
        models_of(s.drop_last()).push(s.last().model())
    }
}

/// Combined node count of a sequence of expressions.
pub open spec fn size_of_seq(s: Seq<Expr>) -> nat
    decreases s,
{
    if s.len() == 0 {
        0
    } else {
        size_of_seq(s.drop_last()) + s.last().size()
    }
}

/// An element's node count is bounded by its sequence's combined count.
pub proof fn lemma_size_of_seq_elem(s: Seq<Expr>, k: int)
    requires
        0 <= k < s.len(),
    ensures
        s[k].size() <= size_of_seq(s),
    decreases s.len(),
{
    if k < s.len() - 1 {
        lemma_size_of_seq_elem(s.drop_last(), k);
        assert(s.drop_last()[k] == s[k]);
    }
}

/// `models_of` keeps the sequence length.
pub proof fn lemma_models_of_len(s: Seq<Expr>)
    ensures
        models_of(s).len() == s.len(),
    decreases s.len(),
{
    if s.len() > 0 {
        lemma_models_of_len(s.drop_last());
    }
}

/// `models_of` maps element by element.
pub proof fn lemma_models_of_index(s: Seq<Expr>, k: int)
    requires
        0 <= k < s.len(),
    ensures
        models_of(s).len() == s.len(),
        models_of(s)[k] == s[k].model(),
    decreases s.len(),
{
    lemma_models_of_len(s);
    if k < s.len() - 1 {
        lemma_models_of_index(s.drop_last(), k);
    }
}

/// Binary operators, from arithmetic down to boolean connectives.
#[derive(Debug, Clone, Copy, PartialEq, Eq, Structural)]
pub enum BinaryOp {
    Add,
    Sub,
    Mul,
    Div,
    Gt,
    Lt,
    Gte,
    Lte,
    Eq,
    Neq,
    And,
    Or,
}

/// Binding power of `op`: higher binds tighter.
pub open spec fn spec_precedence(op: BinaryOp) -> u8 {
    match op {
        BinaryOp::Or => 1,
        BinaryOp::And => 2,
        BinaryOp::Eq | BinaryOp::Neq => 3,
        BinaryOp::Gt | BinaryOp::Lt | BinaryOp::Gte | BinaryOp::Lte => 4,
        BinaryOp::Add | BinaryOp::Sub => 5,
        BinaryOp::Mul | BinaryOp::Div => 6,
    }
}

/// The source-text spelling of a binary operator.
pub open spec fn spec_binary_symbol(op: BinaryOp) -> Seq<char> {
    match op {
        BinaryOp::Add => "+"@,
        BinaryOp::Sub => "-"@,
        BinaryOp::Mul => "*"@,
        BinaryOp::Div => "/"@,
        BinaryOp::Gt => ">"@,
        BinaryOp::Lt => "<"@,
        BinaryOp::Gte => ">="@,
        BinaryOp::Lte => "<="@,
        BinaryOp::Eq => "=="@,
        BinaryOp::Neq => "!="@,
        BinaryOp::And => "and"@,
        BinaryOp::Or => "or"@,
    }
}

impl BinaryOp {
    /// Binding power of this operator: higher binds tighter.
    pub fn precedence(&self) -> (p: u8)
        ensures
            p == spec_precedence(*self),
    {
        match self {
            BinaryOp::Or => 1,
            BinaryOp::And => 2,
            BinaryOp::Eq | BinaryOp::Neq => 3,
            BinaryOp::Gt | BinaryOp::Lt | BinaryOp::Gte | BinaryOp::Lte => 4,
            BinaryOp::Add | BinaryOp::Sub => 5,
            BinaryOp::Mul | BinaryOp::Div => 6,
        }
    }

    /// The source-text spelling of this operator.
    pub fn symbol(&self) -> (s: &'static str)
        ensures
            s@ == spec_binary_symbol(*self),
    {
        match self {
            BinaryOp::Add => "+",
            BinaryOp::Sub => "-",
            BinaryOp::Mul => "*",
            BinaryOp::Div => "/",
            BinaryOp::Gt => ">",
            BinaryOp::Lt => "<",
            BinaryOp::Gte => ">=",
            BinaryOp::Lte => "<=",
            BinaryOp::Eq => "==",
            BinaryOp::Neq => "!=",
            BinaryOp::And => "and",
            BinaryOp::Or => "or",
        }
    }
}

/// Unary operators.
#[derive(Debug, Clone, Copy, PartialEq, Eq, Structural)]
pub enum UnaryOp {
    Neg,
    Not,
}

/// The source-text spelling of a unary operator.
pub open spec fn spec_unary_symbol(op: UnaryOp) -> Seq<char> {
    match op {
        UnaryOp::Neg => "-"@,
        UnaryOp::Not => "not"@,
    }
}

impl UnaryOp {
    /// The source-text spelling of this operator.
    pub fn symbol(&self) -> (s: &'static str)
        ensures
            s@ == spec_unary_symbol(*self),
    {
        match self {
            UnaryOp::Neg => "-",
            UnaryOp::Not => "not",
        }
    }
}

/// Mathematical shape of an expression tree.  Number literals keep their
/// source spelling; conversion to a machine number is left to the caller.
pub enum ExprModel {
    Num { lit: Seq<char> },
    Bool { value: bool },
    Var { name: Seq<char> },
    Binary { op: BinaryOp, left: Box<ExprModel>, right: Box<ExprModel> },
    Unary { op: UnaryOp, arg: Box<ExprModel> },
    Call { name: Seq<char>, args: Seq<ExprModel> },
    Ternary { cond: Box<ExprModel>, yes: Box<ExprModel>, no: Box<ExprModel> },
}

/// Expression nodes in the AST.  A numeric literal is kept as its source
/// text (e.g. `"3.5"`), exactly as matched by the parser.
#[derive(Debug, PartialEq)]
pub enum Expr {
    /// Numeric literal, as written in the source.
    Number(String),
    /// Boolean literal.
    Boolean(bool),
    /// Variable reference (e.g. `max_depth_m`).
    Variable(String),
    /// Binary operation (e.g. `a + b`).
    Binary { op: BinaryOp, left: Box<Expr>, right: Box<Expr> },
    /// Unary operation (e.g. `-x`, `not x`).
    Unary { op: UnaryOp, expr: Box<Expr> },
    /// Function call (e.g. `min(a, b)`).
    FunctionCall { name: String, args: Vec<Expr> },
    /// Ternary conditional (e.g. `cond ? a : b`).
    Ternary { condition: Box<Expr>, then_expr: Box<Expr>, else_expr: Box<Expr> },
}

impl Expr {
    /// Node count of this tree, used as a recursion measure.
    pub open spec fn size(self) -> nat
        decreases self,
    {
        match self {
            Expr::Number(_) => 1,
            Expr::Boolean(_) => 1,
            Expr::Variable(_) => 1,
            Expr::Binary { left, right, .. } => 1 + left.size() + right.size(),
            Expr::Unary { expr, .. } => 1 + expr.size(),
            Expr::FunctionCall { args, .. } => 1 + size_of_seq(args@),
            Expr::Ternary { condition, then_expr, else_expr } => 1 + condition.size()
                + then_expr.size() + else_expr.size(),
        }
    }

    /// The mathematical shape of this tree.
    pub open spec fn model(self) -> ExprModel
        decreases self,
    {
        match self {
            Expr::Number(lit) => ExprModel::Num { lit: lit@ },
            Expr::Boolean(value) => ExprModel::Bool { value },
            Expr::Variable(name) => ExprModel::Var { name: name@ },
            Expr::Binary { op, left, right } => ExprModel::Binary {
                op,
                left: Box::new(left.model()),
                right: Box::new(right.model()),
            },
            Expr::Unary { op, expr } => ExprModel::Unary { op, arg: Box::new(expr.model()) },
            Expr::FunctionCall { name, args } => ExprModel::Call {
                name: name@,
                args: models_of(args@),
            },
            Expr::Ternary { condition, then_expr, else_expr } => ExprModel::Ternary {
                cond: Box::new(condition.model()),
                yes: Box::new(then_expr.model()),
                no: Box::new(else_expr.model()),
            },
        }
    }

    /// Build a numeric literal from its source spelling.
    pub fn number(lit: String) -> (e: Expr)
        ensures
            e.model() == (ExprModel::Num { lit: lit@ }),
    {
        Expr::Number(lit)
    }

    /// Build a boolean literal.
    pub fn boolean(b: bool) -> (e: Expr)
        ensures
            e.model() == (ExprModel::Bool { value: b }),
    {
        Expr::Boolean(b)
    }

    /// Build a variable reference.
    pub fn variable(name: String) -> (e: Expr)
        ensures
            e.model() == (ExprModel::Var { name: name@ }),
    {
        Expr::Variable(name)
    }

    /// Build a binary operation.
    pub fn binary(op: BinaryOp, left: Expr, right: Expr) -> (e: Expr)
        ensures
            e.model() == (ExprModel::Binary {
                op,
                left: Box::new(left.model()),
                right: Box::new(right.model()),
            }),
    {
        Expr::Binary { op, left: Box::new(left), right: Box::new(right) }
    }

    /// Build a unary operation.
    pub fn unary(op: UnaryOp, expr: Expr) -> (e: Expr)
        ensures
            e.model() == (ExprModel::Unary { op, arg: Box::new(expr.model()) }),
    {
        Expr::Unary { op, expr: Box::new(expr) }
    }

    /// Build a function call.
    pub fn function_call(name: String, args: Vec<Expr>) -> (e: Expr)
        ensures
            e.model() == (ExprModel::Call { name: name@, args: models_of(args@) }),
    {
        Expr::FunctionCall { name, args }
    }

    /// Build a ternary conditional.
    pub fn ternary(condition: Expr, then_expr: Expr, else_expr: Expr) -> (e: Expr)
        ensures
            e.model() == (ExprModel::Ternary {
                cond: Box::new(condition.model()),
                yes: Box::new(then_expr.model()),
                no: Box::new(else_expr.model()),
            }),
    {
        Expr::Ternary {
            condition: Box::new(condition),
            then_expr: Box::new(then_expr),
            else_expr: Box::new(else_expr),
        }
    }
}

} // verus!
