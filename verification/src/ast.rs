//! The syntax-tree model that rules are run over.
//!
//! The external parser produces an already-validated tree in which every
//! node carries a resolvable byte-offset source range. This module holds the
//! crate's own representation of that tree: plain values that contracts can
//! speak about directly. Because the parser guarantees a range for every
//! expression in a successfully parsed tree, the model stores the range as a
//! mandatory field, so no lookup can fail during analysis.

use vstd::prelude::*;

verus! {

/// A half-open span of byte offsets into the original source text.
#[derive(Clone, Copy, Debug, PartialEq, Eq, Structural)]
pub struct SourceRange {
    /// Byte offset at which the span starts.
    pub start: usize,
    /// Byte offset one past the last byte of the span.
    pub end: usize,
}

impl SourceRange {
    /// A span never ends before it starts.
    pub open spec fn wf(self) -> bool {
        self.start <= self.end
    }
}

/// A binary operator, as the grammar distinguishes them.
#[derive(Clone, Copy, Debug, PartialEq, Eq, Structural)]
pub enum BinOp {
    And,
    Caret,
    GreaterThan,
    GreaterThanEqual,
    LessThan,
    LessThanEqual,
    Minus,
    Or,
    Percent,
    Plus,
    Slash,
    Star,
    TildeEqual,
    TwoDots,
    TwoEqual,
}

/// A unary operator.
#[derive(Clone, Copy, Debug, PartialEq, Eq, Structural)]
pub enum UnOp {
    Hash,
    Minus,
    Not,
}

/// An expression node. Every variant records the source range of the whole
/// expression. Literal variants keep the exact source text of their token,
/// so that rules can match on spelling rather than on numeric value.
pub enum Expression {
    /// A binary operation such as `a / b`.
    BinaryOperator { lhs: Box<Expression>, binop: BinOp, rhs: Box<Expression>, range: SourceRange },
    /// A parenthesized expression, `(e)`.
    Parentheses { expression: Box<Expression>, range: SourceRange },
    /// A unary operation such as `-e` or `#e`.
    UnaryOperator { unop: UnOp, expression: Box<Expression>, range: SourceRange },
    /// An anonymous function; its body is a block of statements.
    Function { body: Block, range: SourceRange },
    /// A function call; `exprs` holds every sub-expression appearing in the
    /// call (prefix and arguments), in document order.
    FunctionCall { exprs: Vec<Expression>, range: SourceRange },
    /// A table constructor; `exprs` holds every key and value expression in
    /// document order.
    TableConstructor { exprs: Vec<Expression>, range: SourceRange },
    /// A numeric literal with its exact source text, such as `0` or `0.0`.
    Number { text: String, range: SourceRange },
    /// A string literal with its exact source text.
    Str { text: String, range: SourceRange },
    /// A symbol such as `true`, `false`, `nil` or `...`.
    Symbol { text: String, range: SourceRange },
    /// A variable or field access; `exprs` holds every sub-expression
    /// appearing inside it (index brackets and the like), in document order.
    Var { name: String, exprs: Vec<Expression>, range: SourceRange },
}

impl Expression {
    /// The source range this expression spans.
    pub open spec fn range_spec(self) -> SourceRange {
        match self {
            Expression::BinaryOperator { range, .. } => range,
            Expression::Parentheses { range, .. } => range,
            Expression::UnaryOperator { range, .. } => range,
            Expression::Function { range, .. } => range,
            Expression::FunctionCall { range, .. } => range,
            Expression::TableConstructor { range, .. } => range,
            Expression::Number { range, .. } => range,
            Expression::Str { range, .. } => range,
            Expression::Symbol { range, .. } => range,
            Expression::Var { range, .. } => range,
        }
    }

    /// Returns the source range this expression spans.
    pub fn range(&self) -> (r: SourceRange)
        ensures
            r == self.range_spec(),
    {
        match self {
            Expression::BinaryOperator { range, .. } => *range,
            Expression::Parentheses { range, .. } => *range,
            Expression::UnaryOperator { range, .. } => *range,
            Expression::Function { range, .. } => *range,
            Expression::FunctionCall { range, .. } => *range,
            Expression::TableConstructor { range, .. } => *range,
            Expression::Number { range, .. } => *range,
            Expression::Str { range, .. } => *range,
            Expression::Symbol { range, .. } => *range,
            Expression::Var { range, .. } => *range,
        }
    }
}

/// A statement node.
pub enum Stmt {
    /// An assignment, `a, b = e1, e2`; `vars` holds the assigned-to
    /// expressions, `exprs` the assigned values.
    Assignment { vars: Vec<Expression>, exprs: Vec<Expression> },
    /// A `do ... end` block.
    Do { block: Block },
    /// A function call standing as a statement.
    Call { exprs: Vec<Expression> },
    /// A function declaration, `function f() ... end`.
    FunctionDeclaration { body: Block },
    /// A generic for loop, `for k, v in e do ... end`.
    GenericFor { exprs: Vec<Expression>, block: Block },
    /// An if statement; `else if` chains are represented as a nested if
    /// statement inside `else_block`.
    If { condition: Expression, block: Block, else_block: Option<Block> },
    /// A local assignment, `local a = e`.
    LocalAssignment { exprs: Vec<Expression> },
    /// A local function declaration, `local function f() ... end`.
    LocalFunction { body: Block },
    /// A numeric for loop; `exprs` holds start, end and the optional step.
    NumericFor { exprs: Vec<Expression>, block: Block },
    /// A repeat loop, `repeat ... until e`.
    Repeat { block: Block, condition: Expression },
    /// A while loop, `while e do ... end`.
    While { condition: Expression, block: Block },
    /// A return statement, `return e1, e2`.
    Return { exprs: Vec<Expression> },
}

/// A block: a sequence of statements in document order.
pub struct Block {
    pub stmts: Vec<Stmt>,
}

/// A whole parsed file.
pub struct Ast {
    pub block: Block,
}

} // verus!
