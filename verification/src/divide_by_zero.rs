//! The divide-by-zero rule: flags every division whose divisor is the bare
//! numeric literal `0`, because such a division is almost always a mistake
//! in Lua (where `math.huge` expresses the intended infinity directly).
//!
//! The zero check is a strict comparison of the literal's source text
//! against `0`: spellings such as `0.0`, `00` or `-0` are deliberately not
//! matched, keeping the rule conservative. The degenerate `0 / 0` is
//! exempted as well, since it is not a division-by-zero mistake specifically.

use vstd::prelude::*;
use crate::ast::{Ast, BinOp, Expression, SourceRange};
use crate::diagnostic::{Diagnostic, DiagnosticView, Label, LabelView};
use crate::rule::{Context, Rule, RuleType, Severity};
use crate::visitor::{
    ast_nodes, ast_obs, lemma_ast_obs_nodes, nodes_obs, visit_ast, Visitor,
};
use std::convert::Infallible;

verus! {

/// True iff `e` is a numeric literal whose exact source text is the single
/// character `0` — not `0.0`, `00`, `-0` or any other zero-valued spelling.
pub open spec fn is_zero_literal(e: Expression) -> bool {
    match e {
        Expression::Number { text, .. } => text@ == "0"@,
        _ => false,
    }
}

/// True iff `e` is a division whose right operand is the bare literal `0`
/// and whose left operand is not.
pub open spec fn is_division_by_zero(e: Expression) -> bool {
    match e {
        Expression::BinaryOperator { lhs, binop, rhs, .. } => binop == BinOp::Slash
            && is_zero_literal(*rhs) && !is_zero_literal(*lhs),
        _ => false,
    }
}

/// What the rule records at one node: the range of the whole binary
/// expression if it is a division by the literal zero, nothing otherwise.
pub open spec fn dbz_node_obs(e: Expression) -> Seq<SourceRange> {
    if is_division_by_zero(e) {
        seq![e.range_spec()]
    } else {
        Seq::empty()
    }
}

/// The ranges the rule reports for a whole file, in document order.
pub open spec fn dbz_ranges(a: Ast) -> Seq<SourceRange> {
    ast_obs::<DivideByZeroVisitor>(a)
}

/// The fixed message attached to each finding.
pub open spec fn dbz_message() -> Seq<char> {
    "dividing by zero is not allowed, use math.huge instead"@
}

/// What `pass` promises: one diagnostic per detected division, in document
/// order, each carrying the rule identifier `divide_by_zero`, the fixed
/// message, and a single unannotated label with the range of the whole
/// division expression.
pub open spec fn pass_post(r: Seq<Diagnostic>, a: Ast) -> bool {
    &&& r.len() == dbz_ranges(a).len()
    &&& forall|i: int|
        0 <= i < r.len() ==> (#[trigger] r[i])@ == (DiagnosticView {
            rule_id: "divide_by_zero"@,
            message: dbz_message(),
            labels: seq![LabelView { range: dbz_ranges(a)[i], annotation: Option::None }],
        })
}

/// True iff the expression is a numeric literal whose exact source text is
/// `0`. A deliberately narrow textual match, not a numeric evaluation.
pub fn value_is_zero(value: &Expression) -> (r: bool)
    ensures
        r == is_zero_literal(*value),
{
    match value {
        Expression::Number { text, .. } => {
            let zero: String = "0".to_owned();
            *text == zero
        },
        _ => false,
    }
}

/// The traversal accumulator of the rule: a transient sequence of ranges,
/// built during one walk and discarded once converted to diagnostics.
pub struct DivideByZeroVisitor {
    positions: Vec<SourceRange>,
}

impl Visitor for DivideByZeroVisitor {
    closed spec fn obs(&self) -> Seq<SourceRange> {
        self.positions@
    }

    open spec fn node_obs(e: Expression) -> Seq<SourceRange> {
        dbz_node_obs(e)
    }

    fn visit_expression(&mut self, e: &Expression) {
        let fires: bool = match e {
            Expression::BinaryOperator { lhs, binop, rhs, .. } => match binop {
                BinOp::Slash => value_is_zero(rhs) && !value_is_zero(lhs),
                _ => false,
            },
            _ => false,
        };
        if fires {
            let range = e.range();
            self.positions.push(range);
            proof {
                assert(self.obs() =~= old(self).obs() + dbz_node_obs(*e));
            }
        } else {
            proof {
                assert(self.obs() =~= old(self).obs() + dbz_node_obs(*e));
            }
        }
    }
}

/// The divide-by-zero rule. It recognizes no options, so its configuration
/// is the unit value and its construction can never fail.
pub struct DivideByZeroLint;

impl Rule for DivideByZeroLint {
    type Config = ();

    type Error = Infallible;

    fn new(_config: ()) -> (r: Result<Self, Infallible>)
        ensures
            r is Ok,
    {
        Result::Ok(DivideByZeroLint)
    }

    fn pass(&self, ast: &Ast, _context: &Context) -> (r: Vec<Diagnostic>)
        ensures
            pass_post(r@, *ast),
    {
        let mut visitor = DivideByZeroVisitor { positions: Vec::new() };
        visit_ast(&mut visitor, ast);
        proof {
            assert(visitor.obs() =~= dbz_ranges(*ast));
        }
        let message: String = "dividing by zero is not allowed, use math.huge instead".to_owned();
        let mut diagnostics: Vec<Diagnostic> = Vec::new();
        let n = visitor.positions.len();
        let mut i: usize = 0;
        while i < n
            invariant
                i <= n,
                n == visitor.positions.len(),
                visitor.positions@ == dbz_ranges(*ast),
                message@ == dbz_message(),
                diagnostics@.len() == i,
                forall|j: int|
                    0 <= j < i ==> (#[trigger] diagnostics@[j])@ == (DiagnosticView {
                        rule_id: "divide_by_zero"@,
                        message: dbz_message(),
                        labels: seq![
                            LabelView { range: dbz_ranges(*ast)[j], annotation: Option::None },
                        ],
                    }),
            decreases n - i,
        {
            let label = Label::new(visitor.positions[i]);
            let d = Diagnostic::new("divide_by_zero", message.clone(), label);
            diagnostics.push(d);
            i += 1;
        }
        diagnostics
    }

    fn severity(&self) -> (r: Severity)
        ensures
            r == Severity::Warning,
    {
        Severity::Warning
    }

    fn rule_type(&self) -> (r: RuleType)
        ensures
            r == RuleType::Complexity,
    {
        RuleType::Complexity
    }
}

/// The finding one expression node contributes: the node's range if it is a
/// division by the literal zero, nothing otherwise.
pub open spec fn dbz_find(e: Expression) -> Option<SourceRange> {
    if is_division_by_zero(e) {
        Option::Some(e.range_spec())
    } else {
        Option::None
    }
}

proof fn lemma_nodes_obs_filter_map(ns: Seq<Expression>)
    ensures
        nodes_obs::<DivideByZeroVisitor>(ns) == ns.filter_map(|e: Expression| dbz_find(e)),
    decreases ns.len(),
{
    let f = |e: Expression| dbz_find(e);
    if ns.len() == 0 {
    } else {
        lemma_nodes_obs_filter_map(ns.drop_last());
        let last = ns.last();
        if is_division_by_zero(last) {
            assert(dbz_node_obs(last) =~= seq![last.range_spec()]);
        } else {
            assert(ns.drop_last().filter_map(f) + dbz_node_obs(last) =~= ns.drop_last().filter_map(
                f,
            ));
        }
    }
}

/// Law: the ranges the rule reports for a file are exactly the ranges of
/// its division-by-zero expression nodes, in document order — a diagnostic
/// is produced for a node if and only if the node is a division whose
/// divisor is the bare literal `0` and whose dividend is not.
pub proof fn lemma_ranges_are_exactly_divisions_by_zero(a: Ast)
    ensures
        dbz_ranges(a) == ast_nodes(a).filter_map(|e: Expression| dbz_find(e)),
{
    lemma_ast_obs_nodes::<DivideByZeroVisitor>(a);
    lemma_nodes_obs_filter_map(ast_nodes(a));
}

/// Law: a division `a / b` yields a finding if and only if `b`'s literal
/// source text is exactly `0` and `a`'s literal source text is not.
pub proof fn lemma_division_flagged_iff(
    lhs: Expression,
    binop: BinOp,
    rhs: Expression,
    range: SourceRange,
)
    ensures
        ({
            let e = Expression::BinaryOperator {
                lhs: Box::new(lhs),
                binop,
                rhs: Box::new(rhs),
                range,
            };
            dbz_find(e) == if binop == BinOp::Slash && is_zero_literal(rhs) && !is_zero_literal(
                lhs,
            ) {
                Option::Some(range)
            } else {
                Option::<SourceRange>::None
            }
        }),
{
}

/// Law: an expression that is not a binary operation — or whose operator is
/// anything but the division operator — never yields a finding, whatever its
/// operands look like.
pub proof fn lemma_non_division_not_flagged(e: Expression)
    requires
        !(e matches Expression::BinaryOperator { binop: BinOp::Slash, .. }),
    ensures
        dbz_find(e) is None,
{
}

/// Law: running `pass` twice on the same tree yields identical diagnostic
/// sequences, element for element and in the same order.
pub proof fn lemma_pass_deterministic(r1: Seq<Diagnostic>, r2: Seq<Diagnostic>, a: Ast)
    requires
        pass_post(r1, a),
        pass_post(r2, a),
    ensures
        r1.len() == r2.len(),
        forall|i: int| 0 <= i < r1.len() ==> (#[trigger] r1[i])@ == r2[i]@,
{
}

proof fn lemma_filter_map_all_none(ns: Seq<Expression>)
    requires
        forall|i: int| 0 <= i < ns.len() ==> dbz_find(#[trigger] ns[i]) is None,
    ensures
        ns.filter_map(|e: Expression| dbz_find(e)) == Seq::<SourceRange>::empty(),
    decreases ns.len(),
{
    if ns.len() == 0 {
    } else {
        assert(forall|i: int|
            0 <= i < ns.drop_last().len() ==> dbz_find(#[trigger] ns.drop_last()[i]) is None);
        lemma_filter_map_all_none(ns.drop_last());
        assert(dbz_find(ns.last()) is None);
    }
}

/// Law: a tree with no division-by-zero expression — none at all, or only
/// divisions whose divisor is not the bare literal `0` — yields an empty
/// result.
pub proof fn lemma_no_divisions_no_diagnostics(a: Ast)
    requires
        forall|i: int| 0 <= i < ast_nodes(a).len() ==> !is_division_by_zero(#[trigger] ast_nodes(a)[i]),
    ensures
        dbz_ranges(a) == Seq::<SourceRange>::empty(),
{
    lemma_ranges_are_exactly_divisions_by_zero(a);
    lemma_filter_map_all_none(ast_nodes(a));
}

/// Law: when every expression node of a tree carries a well-formed source
/// range — which the external parser guarantees of a successfully parsed
/// tree — every range the rule reports is well-formed too, since each one is
/// the range of some node of the tree.
pub proof fn lemma_reported_ranges_wf(a: Ast, k: int)
    requires
        forall|i: int|
            0 <= i < ast_nodes(a).len() ==> (#[trigger] ast_nodes(a)[i]).range_spec().wf(),
        0 <= k < dbz_ranges(a).len(),
    ensures
        dbz_ranges(a)[k].wf(),
{
    lemma_ranges_are_exactly_divisions_by_zero(a);
    let f = |e: Expression| dbz_find(e);
    let elt = dbz_ranges(a)[k];
    assert(ast_nodes(a).filter_map(f).contains(elt));
    ast_nodes(a).lemma_filter_map_contains(f, elt);
    let t = choose|t: Expression| #[trigger] ast_nodes(a).contains(t) && f(t) == Some(elt);
    let i = choose|i: int| 0 <= i < ast_nodes(a).len() && ast_nodes(a)[i] == t;
    assert(t.range_spec().wf());
}

} // verus!
