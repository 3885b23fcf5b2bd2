//! The tree visitor: a single-pass traversal that walks every node of a
//! syntax tree exactly once, in document order (left to right, outer before
//! inner), and dispatches to the callbacks a rule overrides. The traversal
//! is written once, generically, and verified once: for any visitor, the
//! observations recorded after a walk are exactly the concatenation of the
//! per-node observations, in visit order. Node kinds a visitor does not
//! observe contribute nothing and are descended through.

use vstd::prelude::*;
use crate::ast::{Ast, Block, Expression, SourceRange, Stmt};

verus! {

/// The callbacks a rule subscribes with. Only expression nodes carry
/// observable callbacks here; every other node kind falls through to the
/// default behavior of continuing the descent.
pub trait Visitor {
    /// The source ranges this visitor has recorded so far.
    spec fn obs(&self) -> Seq<SourceRange>;

    /// What one visit of a single expression node records: a function of
    /// that node alone, independent of any visitor state.
    spec fn node_obs(e: Expression) -> Seq<SourceRange>;

    /// The expression callback, invoked once per expression node.
    fn visit_expression(&mut self, e: &Expression)
        ensures
            final(self).obs() == old(self).obs() + Self::node_obs(*e),
    ;
}

/// The observations a full walk of `e` records: the node's own observation,
/// then those of its sub-expressions in document order.
pub open spec fn expr_obs<V: Visitor>(e: Expression) -> Seq<SourceRange>
    decreases e,
{
    V::node_obs(e) + match e {
        Expression::BinaryOperator { lhs, rhs, .. } => expr_obs::<V>(*lhs) + expr_obs::<V>(*rhs),
        Expression::Parentheses { expression, .. } => expr_obs::<V>(*expression),
        Expression::UnaryOperator { expression, .. } => expr_obs::<V>(*expression),
        Expression::Function { body, .. } => block_obs::<V>(body),
        Expression::FunctionCall { exprs, .. } => exprs_obs::<V>(exprs@),
        Expression::TableConstructor { exprs, .. } => exprs_obs::<V>(exprs@),
        Expression::Number { .. } => Seq::empty(),
        Expression::Str { .. } => Seq::empty(),
        Expression::Symbol { .. } => Seq::empty(),
        Expression::Var { exprs, .. } => exprs_obs::<V>(exprs@),
    }
}

/// The observations a walk of each expression in `es` records, in order.
pub open spec fn exprs_obs<V: Visitor>(es: Seq<Expression>) -> Seq<SourceRange>
    decreases es,
{
    if es.len() == 0 {
        Seq::empty()
    } else {
        exprs_obs::<V>(es.drop_last()) + expr_obs::<V>(es.last())
    }
}

/// The observations a walk of one statement records, in document order.
pub open spec fn stmt_obs<V: Visitor>(s: Stmt) -> Seq<SourceRange>
    decreases s,
{
    match s {
        Stmt::Assignment { vars, exprs } => exprs_obs::<V>(vars@) + exprs_obs::<V>(exprs@),
        Stmt::Do { block } => block_obs::<V>(block),
        Stmt::Call { exprs } => exprs_obs::<V>(exprs@),
        Stmt::FunctionDeclaration { body } => block_obs::<V>(body),
        Stmt::GenericFor { exprs, block } => exprs_obs::<V>(exprs@) + block_obs::<V>(block),
        Stmt::If { condition, block, else_block } => expr_obs::<V>(condition) + block_obs::<V>(
            block,
        ) + match else_block {
            Option::Some(b) => block_obs::<V>(b),
            Option::None => Seq::empty(),
        },
        Stmt::LocalAssignment { exprs } => exprs_obs::<V>(exprs@),
        Stmt::LocalFunction { body } => block_obs::<V>(body),
        Stmt::NumericFor { exprs, block } => exprs_obs::<V>(exprs@) + block_obs::<V>(block),
        Stmt::Repeat { block, condition } => block_obs::<V>(block) + expr_obs::<V>(condition),
        Stmt::While { condition, block } => expr_obs::<V>(condition) + block_obs::<V>(block),
        Stmt::Return { exprs } => exprs_obs::<V>(exprs@),
    }
}

/// The observations a walk of each statement in `ss` records, in order.
pub open spec fn stmts_obs<V: Visitor>(ss: Seq<Stmt>) -> Seq<SourceRange>
    decreases ss,
{
    if ss.len() == 0 {
        Seq::empty()
    } else {
        stmts_obs::<V>(ss.drop_last()) + stmt_obs::<V>(ss.last())
    }
}

/// The observations a walk of a block records, in order.
pub open spec fn block_obs<V: Visitor>(b: Block) -> Seq<SourceRange>
    decreases b,
{
    stmts_obs::<V>(b.stmts@)
}

/// The observations a walk of a whole file records, in order.
pub open spec fn ast_obs<V: Visitor>(a: Ast) -> Seq<SourceRange> {
    block_obs::<V>(a.block)
}

/// Every expression node in the subtree of `e`, in visit order: the node
/// itself first, then the nodes of its sub-expressions, left to right.
pub open spec fn expr_nodes(e: Expression) -> Seq<Expression>
    decreases e,
{
    seq![e] + match e {
        Expression::BinaryOperator { lhs, rhs, .. } => expr_nodes(*lhs) + expr_nodes(*rhs),
        Expression::Parentheses { expression, .. } => expr_nodes(*expression),
        Expression::UnaryOperator { expression, .. } => expr_nodes(*expression),
        Expression::Function { body, .. } => block_nodes(body),
        Expression::FunctionCall { exprs, .. } => exprs_nodes(exprs@),
        Expression::TableConstructor { exprs, .. } => exprs_nodes(exprs@),
        Expression::Number { .. } => Seq::empty(),
        Expression::Str { .. } => Seq::empty(),
        Expression::Symbol { .. } => Seq::empty(),
        Expression::Var { exprs, .. } => exprs_nodes(exprs@),
    }
}

/// Every expression node under each expression of `es`, in visit order.
pub open spec fn exprs_nodes(es: Seq<Expression>) -> Seq<Expression>
    decreases es,
{
    if es.len() == 0 {
        Seq::empty()
    } else {
        exprs_nodes(es.drop_last()) + expr_nodes(es.last())
    }
}

/// Every expression node under one statement, in visit order.
pub open spec fn stmt_nodes(s: Stmt) -> Seq<Expression>
    decreases s,
{
    match s {
        Stmt::Assignment { vars, exprs } => exprs_nodes(vars@) + exprs_nodes(exprs@),
        Stmt::Do { block } => block_nodes(block),
        Stmt::Call { exprs } => exprs_nodes(exprs@),
        Stmt::FunctionDeclaration { body } => block_nodes(body),
        Stmt::GenericFor { exprs, block } => exprs_nodes(exprs@) + block_nodes(block),
        Stmt::If { condition, block, else_block } => expr_nodes(condition) + block_nodes(block)
            + match else_block {
            Option::Some(b) => block_nodes(b),
            Option::None => Seq::empty(),
        },
        Stmt::LocalAssignment { exprs } => exprs_nodes(exprs@),
        Stmt::LocalFunction { body } => block_nodes(body),
        Stmt::NumericFor { exprs, block } => exprs_nodes(exprs@) + block_nodes(block),
        Stmt::Repeat { block, condition } => block_nodes(block) + expr_nodes(condition),
        Stmt::While { condition, block } => expr_nodes(condition) + block_nodes(block),
        Stmt::Return { exprs } => exprs_nodes(exprs@),
    }
}

/// Every expression node under each statement of `ss`, in visit order.
pub open spec fn stmts_nodes(ss: Seq<Stmt>) -> Seq<Expression>
    decreases ss,
{
    if ss.len() == 0 {
        Seq::empty()
    } else {
        stmts_nodes(ss.drop_last()) + stmt_nodes(ss.last())
    }
}

/// Every expression node under a block, in visit order.
pub open spec fn block_nodes(b: Block) -> Seq<Expression>
    decreases b,
{
    stmts_nodes(b.stmts@)
}

/// Every expression node of a whole file, in visit order.
pub open spec fn ast_nodes(a: Ast) -> Seq<Expression> {
    block_nodes(a.block)
}

/// The per-node observations of the nodes in `ns`, concatenated in order.
pub open spec fn nodes_obs<V: Visitor>(ns: Seq<Expression>) -> Seq<SourceRange>
    decreases ns,
{
    if ns.len() == 0 {
        Seq::empty()
    } else {
        nodes_obs::<V>(ns.drop_last()) + V::node_obs(ns.last())
    }
}

/// Concatenating node lists concatenates their observations.
pub proof fn lemma_nodes_obs_add<V: Visitor>(a: Seq<Expression>, b: Seq<Expression>)
    ensures
        nodes_obs::<V>(a + b) == nodes_obs::<V>(a) + nodes_obs::<V>(b),
    decreases b.len(),
{
    if b.len() == 0 {
        assert(a + b =~= a);
        assert(nodes_obs::<V>(a) + nodes_obs::<V>(b) =~= nodes_obs::<V>(a));
    } else {
        lemma_nodes_obs_add::<V>(a, b.drop_last());
        assert((a + b).drop_last() =~= a + b.drop_last());
        assert((a + b).last() == b.last());
        assert((nodes_obs::<V>(a) + nodes_obs::<V>(b.drop_last())) + V::node_obs(b.last()) =~=
            nodes_obs::<V>(a) + (nodes_obs::<V>(b.drop_last()) + V::node_obs(b.last())));
    }
}

/// A single node's observation list is its own observation.
pub proof fn lemma_nodes_obs_singleton<V: Visitor>(e: Expression)
    ensures
        nodes_obs::<V>(seq![e]) == V::node_obs(e),
{
    assert(seq![e].drop_last() =~= Seq::<Expression>::empty());
    assert(seq![e].last() == e);
    assert(nodes_obs::<V>(Seq::<Expression>::empty()) == Seq::<SourceRange>::empty());
    assert(nodes_obs::<V>(seq![e]) == nodes_obs::<V>(Seq::<Expression>::empty()) + V::node_obs(e));
    assert(Seq::<SourceRange>::empty() + V::node_obs(e) =~= V::node_obs(e));
}

/// The observations of a walk of `e` are exactly the per-node observations
/// of the expression nodes the walk visits, in visit order.
pub proof fn lemma_expr_obs_nodes<V: Visitor>(e: Expression)
    ensures
        expr_obs::<V>(e) == nodes_obs::<V>(expr_nodes(e)),
    decreases e,
{
    lemma_nodes_obs_singleton::<V>(e);
    match e {
        Expression::BinaryOperator { lhs, rhs, .. } => {
            lemma_expr_obs_nodes::<V>(*lhs);
            lemma_expr_obs_nodes::<V>(*rhs);
            lemma_nodes_obs_add::<V>(expr_nodes(*lhs), expr_nodes(*rhs));
            lemma_nodes_obs_add::<V>(seq![e], expr_nodes(*lhs) + expr_nodes(*rhs));
        },
        Expression::Parentheses { expression, .. } => {
            lemma_expr_obs_nodes::<V>(*expression);
            lemma_nodes_obs_add::<V>(seq![e], expr_nodes(*expression));
        },
        Expression::UnaryOperator { expression, .. } => {
            lemma_expr_obs_nodes::<V>(*expression);
            lemma_nodes_obs_add::<V>(seq![e], expr_nodes(*expression));
        },
        Expression::Function { body, .. } => {
            lemma_block_obs_nodes::<V>(body);
            lemma_nodes_obs_add::<V>(seq![e], block_nodes(body));
        },
        Expression::FunctionCall { exprs, .. } => {
            lemma_exprs_obs_nodes::<V>(exprs@);
            lemma_nodes_obs_add::<V>(seq![e], exprs_nodes(exprs@));
        },
        Expression::TableConstructor { exprs, .. } => {
            lemma_exprs_obs_nodes::<V>(exprs@);
            lemma_nodes_obs_add::<V>(seq![e], exprs_nodes(exprs@));
        },
        Expression::Number { .. } => {
            lemma_nodes_obs_add::<V>(seq![e], Seq::empty());
            assert(V::node_obs(e) + Seq::<SourceRange>::empty() =~= V::node_obs(e));
        },
        Expression::Str { .. } => {
            lemma_nodes_obs_add::<V>(seq![e], Seq::empty());
            assert(V::node_obs(e) + Seq::<SourceRange>::empty() =~= V::node_obs(e));
        },
        Expression::Symbol { .. } => {
            lemma_nodes_obs_add::<V>(seq![e], Seq::empty());
            assert(V::node_obs(e) + Seq::<SourceRange>::empty() =~= V::node_obs(e));
        },
        Expression::Var { exprs, .. } => {
            lemma_exprs_obs_nodes::<V>(exprs@);
            lemma_nodes_obs_add::<V>(seq![e], exprs_nodes(exprs@));
        },
    }
}

/// As [`lemma_expr_obs_nodes`], for a list of expressions.
pub proof fn lemma_exprs_obs_nodes<V: Visitor>(es: Seq<Expression>)
    ensures
        exprs_obs::<V>(es) == nodes_obs::<V>(exprs_nodes(es)),
    decreases es,
{
    if es.len() == 0 {
    } else {
        lemma_exprs_obs_nodes::<V>(es.drop_last());
        lemma_expr_obs_nodes::<V>(es.last());
        lemma_nodes_obs_add::<V>(exprs_nodes(es.drop_last()), expr_nodes(es.last()));
    }
}

/// As [`lemma_expr_obs_nodes`], for one statement.
pub proof fn lemma_stmt_obs_nodes<V: Visitor>(s: Stmt)
    ensures
        stmt_obs::<V>(s) == nodes_obs::<V>(stmt_nodes(s)),
    decreases s,
{
    match s {
        Stmt::Assignment { vars, exprs } => {
            lemma_exprs_obs_nodes::<V>(vars@);
            lemma_exprs_obs_nodes::<V>(exprs@);
            lemma_nodes_obs_add::<V>(exprs_nodes(vars@), exprs_nodes(exprs@));
        },
        Stmt::Do { block } => {
            lemma_block_obs_nodes::<V>(block);
        },
        Stmt::Call { exprs } => {
            lemma_exprs_obs_nodes::<V>(exprs@);
        },
        Stmt::FunctionDeclaration { body } => {
            lemma_block_obs_nodes::<V>(body);
        },
        Stmt::GenericFor { exprs, block } => {
            lemma_exprs_obs_nodes::<V>(exprs@);
            lemma_block_obs_nodes::<V>(block);
            lemma_nodes_obs_add::<V>(exprs_nodes(exprs@), block_nodes(block));
        },
        Stmt::If { condition, block, else_block } => {
            lemma_expr_obs_nodes::<V>(condition);
            lemma_block_obs_nodes::<V>(block);
            lemma_nodes_obs_add::<V>(expr_nodes(condition), block_nodes(block));
            match else_block {
                Option::Some(b) => {
                    lemma_block_obs_nodes::<V>(b);
                    lemma_nodes_obs_add::<V>(
                        expr_nodes(condition) + block_nodes(block),
                        block_nodes(b),
                    );
                },
                Option::None => {
                    lemma_nodes_obs_add::<V>(
                        expr_nodes(condition) + block_nodes(block),
                        Seq::empty(),
                    );
                    assert((expr_obs::<V>(condition) + block_obs::<V>(block)) + Seq::<
                        SourceRange,
                    >::empty() =~= expr_obs::<V>(condition) + block_obs::<V>(block));
                },
            }
        },
        Stmt::LocalAssignment { exprs } => {
            lemma_exprs_obs_nodes::<V>(exprs@);
        },
        Stmt::LocalFunction { body } => {
            lemma_block_obs_nodes::<V>(body);
        },
        Stmt::NumericFor { exprs, block } => {
            lemma_exprs_obs_nodes::<V>(exprs@);
            lemma_block_obs_nodes::<V>(block);
            lemma_nodes_obs_add::<V>(exprs_nodes(exprs@), block_nodes(block));
        },
        Stmt::Repeat { block, condition } => {
            lemma_block_obs_nodes::<V>(block);
            lemma_expr_obs_nodes::<V>(condition);
            lemma_nodes_obs_add::<V>(block_nodes(block), expr_nodes(condition));
        },
        Stmt::While { condition, block } => {
            lemma_expr_obs_nodes::<V>(condition);
            lemma_block_obs_nodes::<V>(block);
            lemma_nodes_obs_add::<V>(expr_nodes(condition), block_nodes(block));
        },
        Stmt::Return { exprs } => {
            lemma_exprs_obs_nodes::<V>(exprs@);
        },
    }
}

/// As [`lemma_expr_obs_nodes`], for a list of statements.
pub proof fn lemma_stmts_obs_nodes<V: Visitor>(ss: Seq<Stmt>)
    ensures
        stmts_obs::<V>(ss) == nodes_obs::<V>(stmts_nodes(ss)),
    decreases ss,
{
    if ss.len() == 0 {
    } else {
        lemma_stmts_obs_nodes::<V>(ss.drop_last());
        lemma_stmt_obs_nodes::<V>(ss.last());
        lemma_nodes_obs_add::<V>(stmts_nodes(ss.drop_last()), stmt_nodes(ss.last()));
    }
}

/// As [`lemma_expr_obs_nodes`], for a block.
pub proof fn lemma_block_obs_nodes<V: Visitor>(b: Block)
    ensures
        block_obs::<V>(b) == nodes_obs::<V>(block_nodes(b)),
    decreases b,
{
    lemma_stmts_obs_nodes::<V>(b.stmts@);
}

/// The observations of a walk of a whole file are exactly the per-node
/// observations of its expression nodes, in visit order.
pub proof fn lemma_ast_obs_nodes<V: Visitor>(a: Ast)
    ensures
        ast_obs::<V>(a) == nodes_obs::<V>(ast_nodes(a)),
{
    lemma_block_obs_nodes::<V>(a.block);
}

/// Walks every expression in `es`, left to right.
pub fn visit_expressions<V: Visitor>(v: &mut V, es: &Vec<Expression>)
    ensures
        final(v).obs() == old(v).obs() + exprs_obs::<V>(es@),
    decreases es@,
{
    let n = es.len();
    let mut i: usize = 0;
    while i < n
        invariant
            i <= n,
            n == es.len(),
            v.obs() == old(v).obs() + exprs_obs::<V>(es@.take(i as int)),
        decreases n - i,
    {
        proof {
            assert(decreases_to!(es@ => es@[i as int]));
        }
        visit_expression_tree(v, &es[i]);
        proof {
            let pre = es@.take(i as int);
            let post = es@.take(i as int + 1);
            assert(post.drop_last() =~= pre);
            assert(post.last() == es@[i as int]);
            assert(exprs_obs::<V>(post) == exprs_obs::<V>(pre) + expr_obs::<V>(es@[i as int]));
            assert(old(v).obs() + exprs_obs::<V>(pre) + expr_obs::<V>(es@[i as int]) =~= old(
                v,
            ).obs() + (exprs_obs::<V>(pre) + expr_obs::<V>(es@[i as int])));
        }
        i += 1;
    }
    proof {
        assert(es@.take(n as int) =~= es@);
    }
}

/// Walks one expression subtree: the callback fires on the node itself,
/// then the walk descends into its sub-expressions, left to right.
pub fn visit_expression_tree<V: Visitor>(v: &mut V, e: &Expression)
    ensures
        final(v).obs() == old(v).obs() + expr_obs::<V>(*e),
    decreases *e,
{
    v.visit_expression(e);
    match e {
        Expression::BinaryOperator { lhs, rhs, .. } => {
            visit_expression_tree(v, lhs);
            visit_expression_tree(v, rhs);
            proof {
                assert(old(v).obs() + V::node_obs(*e) + expr_obs::<V>(**lhs) + expr_obs::<V>(**rhs)
                    =~= old(v).obs() + (V::node_obs(*e) + (expr_obs::<V>(**lhs) + expr_obs::<V>(
                    **rhs))));
            }
        },
        Expression::Parentheses { expression, .. } => {
            visit_expression_tree(v, expression);
            proof {
                assert(old(v).obs() + V::node_obs(*e) + expr_obs::<V>(**expression) =~= old(
                    v,
                ).obs() + (V::node_obs(*e) + expr_obs::<V>(**expression)));
            }
        },
        Expression::UnaryOperator { expression, .. } => {
            visit_expression_tree(v, expression);
            proof {
                assert(old(v).obs() + V::node_obs(*e) + expr_obs::<V>(**expression) =~= old(
                    v,
                ).obs() + (V::node_obs(*e) + expr_obs::<V>(**expression)));
            }
        },
        Expression::Function { body, .. } => {
            visit_block(v, body);
            proof {
                assert(old(v).obs() + V::node_obs(*e) + block_obs::<V>(*body) =~= old(v).obs() + (
                V::node_obs(*e) + block_obs::<V>(*body)));
            }
        },
        Expression::FunctionCall { exprs, .. } => {
            visit_expressions(v, exprs);
            proof {
                assert(old(v).obs() + V::node_obs(*e) + exprs_obs::<V>(exprs@) =~= old(v).obs() + (
                V::node_obs(*e) + exprs_obs::<V>(exprs@)));
            }
        },
        Expression::TableConstructor { exprs, .. } => {
            visit_expressions(v, exprs);
            proof {
                assert(old(v).obs() + V::node_obs(*e) + exprs_obs::<V>(exprs@) =~= old(v).obs() + (
                V::node_obs(*e) + exprs_obs::<V>(exprs@)));
            }
        },
        Expression::Number { .. } => {
            proof {
                assert(old(v).obs() + V::node_obs(*e) + Seq::<SourceRange>::empty() =~= old(
                    v,
                ).obs() + (V::node_obs(*e) + Seq::<SourceRange>::empty()));
            }
        },
        Expression::Str { .. } => {
            proof {
                assert(old(v).obs() + V::node_obs(*e) + Seq::<SourceRange>::empty() =~= old(
                    v,
                ).obs() + (V::node_obs(*e) + Seq::<SourceRange>::empty()));
            }
        },
        Expression::Symbol { .. } => {
            proof {
                assert(old(v).obs() + V::node_obs(*e) + Seq::<SourceRange>::empty() =~= old(
                    v,
                ).obs() + (V::node_obs(*e) + Seq::<SourceRange>::empty()));
            }
        },
        Expression::Var { exprs, .. } => {
            visit_expressions(v, exprs);
            proof {
                assert(old(v).obs() + V::node_obs(*e) + exprs_obs::<V>(exprs@) =~= old(v).obs() + (
                V::node_obs(*e) + exprs_obs::<V>(exprs@)));
            }
        },
    }
}

/// Walks one statement: its expressions and nested blocks, in document
/// order. Statements themselves carry no callback; they fall through to the
/// default behavior of descending.
pub fn visit_stmt<V: Visitor>(v: &mut V, s: &Stmt)
    ensures
        final(v).obs() == old(v).obs() + stmt_obs::<V>(*s),
    decreases *s,
{
    match s {
        Stmt::Assignment { vars, exprs } => {
            visit_expressions(v, vars);
            visit_expressions(v, exprs);
            proof {
                assert(old(v).obs() + exprs_obs::<V>(vars@) + exprs_obs::<V>(exprs@) =~= old(
                    v,
                ).obs() + (exprs_obs::<V>(vars@) + exprs_obs::<V>(exprs@)));
            }
        },
        Stmt::Do { block } => {
            visit_block(v, block);
        },
        Stmt::Call { exprs } => {
            visit_expressions(v, exprs);
        },
        Stmt::FunctionDeclaration { body } => {
            visit_block(v, body);
        },
        Stmt::GenericFor { exprs, block } => {
            visit_expressions(v, exprs);
            visit_block(v, block);
            proof {
                assert(old(v).obs() + exprs_obs::<V>(exprs@) + block_obs::<V>(*block) =~= old(
                    v,
                ).obs() + (exprs_obs::<V>(exprs@) + block_obs::<V>(*block)));
            }
        },
        Stmt::If { condition, block, else_block } => {
            visit_expression_tree(v, condition);
            visit_block(v, block);
            match else_block {
                Option::Some(b) => {
                    visit_block(v, b);
                    proof {
                        assert(old(v).obs() + expr_obs::<V>(*condition) + block_obs::<V>(*block)
                            + block_obs::<V>(*b) =~= old(v).obs() + (expr_obs::<V>(*condition)
                            + block_obs::<V>(*block) + block_obs::<V>(*b)));
                    }
                },
                Option::None => {
                    proof {
                        assert(old(v).obs() + expr_obs::<V>(*condition) + block_obs::<V>(*block)
                            + Seq::<SourceRange>::empty() =~= old(v).obs() + (expr_obs::<V>(
                            *condition,
                        ) + block_obs::<V>(*block) + Seq::<SourceRange>::empty()));
                    }
                },
            }
        },
        Stmt::LocalAssignment { exprs } => {
            visit_expressions(v, exprs);
        },
        Stmt::LocalFunction { body } => {
            visit_block(v, body);
        },
        Stmt::NumericFor { exprs, block } => {
            visit_expressions(v, exprs);
            visit_block(v, block);
            proof {
                assert(old(v).obs() + exprs_obs::<V>(exprs@) + block_obs::<V>(*block) =~= old(
                    v,
                ).obs() + (exprs_obs::<V>(exprs@) + block_obs::<V>(*block)));
            }
        },
        Stmt::Repeat { block, condition } => {
            visit_block(v, block);
            visit_expression_tree(v, condition);
            proof {
                assert(old(v).obs() + block_obs::<V>(*block) + expr_obs::<V>(*condition) =~= old(
                    v,
                ).obs() + (block_obs::<V>(*block) + expr_obs::<V>(*condition)));
            }
        },
        Stmt::While { condition, block } => {
            visit_expression_tree(v, condition);
            visit_block(v, block);
            proof {
                assert(old(v).obs() + expr_obs::<V>(*condition) + block_obs::<V>(*block) =~= old(
                    v,
                ).obs() + (expr_obs::<V>(*condition) + block_obs::<V>(*block)));
            }
        },
        Stmt::Return { exprs } => {
            visit_expressions(v, exprs);
        },
    }
}

/// Walks every statement of a block, in order.
pub fn visit_block<V: Visitor>(v: &mut V, b: &Block)
    ensures
        final(v).obs() == old(v).obs() + block_obs::<V>(*b),
    decreases *b,
{
    let n = b.stmts.len();
    let mut i: usize = 0;
    while i < n
        invariant
            i <= n,
            n == b.stmts.len(),
            v.obs() == old(v).obs() + stmts_obs::<V>(b.stmts@.take(i as int)),
        decreases n - i,
    {
        proof {
            assert(decreases_to!(*b => b.stmts));
            assert(decreases_to!(b.stmts@ => b.stmts@[i as int]));
        }
        visit_stmt(v, &b.stmts[i]);
        proof {
            let pre = b.stmts@.take(i as int);
            let post = b.stmts@.take(i as int + 1);
            assert(post.drop_last() =~= pre);
            assert(post.last() == b.stmts@[i as int]);
            assert(stmts_obs::<V>(post) == stmts_obs::<V>(pre) + stmt_obs::<V>(
                b.stmts@[i as int],
            ));
            assert(old(v).obs() + stmts_obs::<V>(pre) + stmt_obs::<V>(b.stmts@[i as int]) =~= old(
                v,
            ).obs() + (stmts_obs::<V>(pre) + stmt_obs::<V>(b.stmts@[i as int])));
        }
        i += 1;
    }
    proof {
        assert(b.stmts@.take(n as int) =~= b.stmts@);
    }
}

/// Walks a whole file: every node exactly once, in document order.
pub fn visit_ast<V: Visitor>(v: &mut V, a: &Ast)
    ensures
        final(v).obs() == old(v).obs() + ast_obs::<V>(*a),
{
    visit_block(v, &a.block);
}

} // verus!
