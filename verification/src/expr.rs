use vstd::prelude::*;

use crate::token::{LiteralKind, SpecLiteral};

verus! {

/// Expression syntax tree. Every node exclusively owns its children: the tree
/// is finite and acyclic by construction.
#[derive(Debug, PartialEq)]
pub enum Expr {
    Assign { name: String, expr: Box<Expr> },
    Literal { kind: LiteralKind },
    Variable(String),
    BinaryOp { left: Box<Expr>, operator: Operator, right: Box<Expr> },
    UnaryOp { operator: Operator, operand: Box<Expr> },
    Grouping(Box<Expr>),
}

/// A semantic operator together with the source position of its token, for
/// error messages that reference the operator site.
#[derive(Debug, PartialEq, Eq, Structural, Clone, Copy)]
pub struct Operator {
    pub op_kind: OperatorKind,
    pub pos: usize,
    pub line: usize,
    pub column: usize,
}

/// The closed set of operator kinds that can appear in a syntax tree.
#[derive(Debug, PartialEq, Eq, Structural, Clone, Copy)]
pub enum OperatorKind {
    // Arithmetic operators
    ///"+"
    Add,
    ///"-"
    Subtract,
    ///"*"
    Multiply,
    ///"/"
    Divide,

    // Comparison operators
    ///"=="
    Equal,
    ///"!="
    NotEqual,
    ///">"
    Greater,
    ///">="
    GreaterEqual,
    ///"<"
    Less,
    ///"<="
    LessEqual,

    // Logical operators
    ///"and"
    And,
    ///"or"
    Or,

    // Unary operators
    ///"!"
    Not,
}

/// Mathematical model of an operator: the kind together with its source
/// position as unbounded integers.
pub struct SpecOperator {
    pub op_kind: OperatorKind,
    pub pos: int,
    pub line: int,
    pub column: int,
}

/// Mathematical model of an expression tree.
pub enum SpecExpr {
    Assign { name: Seq<char>, expr: Box<SpecExpr> },
    Literal { kind: SpecLiteral },
    Variable(Seq<char>),
    BinaryOp { left: Box<SpecExpr>, operator: SpecOperator, right: Box<SpecExpr> },
    UnaryOp { operator: SpecOperator, operand: Box<SpecExpr> },
    Grouping(Box<SpecExpr>),
}

impl View for Operator {
    type V = SpecOperator;

    open spec fn view(&self) -> SpecOperator {
        SpecOperator {
            op_kind: self.op_kind,
            pos: self.pos as int,
            line: self.line as int,
            column: self.column as int,
        }
    }
}

/// The model of an expression tree, node by node.
pub open spec fn expr_model(e: &Expr) -> SpecExpr
    decreases e,
{
    match e {
        Expr::Assign { name, expr } => SpecExpr::Assign {
            name: name@,
            expr: Box::new(expr_model(&*expr)),
        },
        Expr::Literal { kind } => SpecExpr::Literal { kind: kind@ },
        Expr::Variable(name) => SpecExpr::Variable(name@),
        Expr::BinaryOp { left, operator, right } => SpecExpr::BinaryOp {
            left: Box::new(expr_model(&*left)),
            operator: operator@,
            right: Box::new(expr_model(&*right)),
        },
        Expr::UnaryOp { operator, operand } => SpecExpr::UnaryOp {
            operator: operator@,
            operand: Box::new(expr_model(&*operand)),
        },
        Expr::Grouping(inner) => SpecExpr::Grouping(Box::new(expr_model(&*inner))),
    }
}

impl View for Expr {
    type V = SpecExpr;

    open spec fn view(&self) -> SpecExpr {
        expr_model(self)
    }
}

impl DeepView for Expr {
    type V = SpecExpr;

    open spec fn deep_view(&self) -> SpecExpr {
        expr_model(self)
    }
}

} // verus!
