//! Tests for the divide-by-zero rule, run over trees parsed from real Lua
//! source by full_moon and converted into the crate's tree model.

use full_moon::ast as fm;
use full_moon::node::Node;
use luacheck2_lib::ast::{Ast, BinOp, Block, Expression, SourceRange, Stmt, UnOp};
use luacheck2_lib::diagnostic::{Diagnostic, Label};
use luacheck2_lib::divide_by_zero::DivideByZeroLint;
use luacheck2_lib::rule::{Context, Rule, RuleType, Severity};

fn range_of<N: Node>(node: &N) -> SourceRange {
    let (start, end) = node.range().unwrap();
    SourceRange { start: start.bytes(), end: end.bytes() }
}

fn conv_binop(op: &fm::BinOp) -> BinOp {
    match op {
        fm::BinOp::And(_) => BinOp::And,
        fm::BinOp::Caret(_) => BinOp::Caret,
        fm::BinOp::GreaterThan(_) => BinOp::GreaterThan,
        fm::BinOp::GreaterThanEqual(_) => BinOp::GreaterThanEqual,
        fm::BinOp::LessThan(_) => BinOp::LessThan,
        fm::BinOp::LessThanEqual(_) => BinOp::LessThanEqual,
        fm::BinOp::Minus(_) => BinOp::Minus,
        fm::BinOp::Or(_) => BinOp::Or,
        fm::BinOp::Percent(_) => BinOp::Percent,
        fm::BinOp::Plus(_) => BinOp::Plus,
        fm::BinOp::Slash(_) => BinOp::Slash,
        fm::BinOp::Star(_) => BinOp::Star,
        fm::BinOp::TildeEqual(_) => BinOp::TildeEqual,
        fm::BinOp::TwoDots(_) => BinOp::TwoDots,
        fm::BinOp::TwoEqual(_) => BinOp::TwoEqual,
        // Operators outside the plain-Lua grammar; never the division operator.
        _ => BinOp::And,
    }
}

fn conv_unop(op: &fm::UnOp) -> UnOp {
    match op {
        fm::UnOp::Hash(_) => UnOp::Hash,
        fm::UnOp::Minus(_) => UnOp::Minus,
        fm::UnOp::Not(_) => UnOp::Not,
        _ => UnOp::Not,
    }
}

fn conv_args(args: &fm::FunctionArgs, out: &mut Vec<Expression>) {
    match args {
        fm::FunctionArgs::Parentheses { arguments, .. } => {
            for a in arguments.iter() {
                out.push(conv_expr(a));
            }
        }
        fm::FunctionArgs::String(tok) => {
            out.push(Expression::Str { text: tok.token().to_string(), range: range_of(tok) });
        }
        fm::FunctionArgs::TableConstructor(tc) => {
            out.push(Expression::TableConstructor { exprs: conv_table(tc), range: range_of(&**tc) });
        }
        _ => {}
    }
}

fn conv_call_parts<'a, I: Iterator<Item = &'a fm::Suffix>>(
    prefix: &fm::Prefix,
    suffixes: I,
) -> Vec<Expression> {
    let mut out: Vec<Expression> = Vec::new();
    if let fm::Prefix::Expression(e) = prefix {
        out.push(conv_expr(e));
    }
    for suffix in suffixes {
        match suffix {
            fm::Suffix::Call(fm::Call::AnonymousCall(args)) => conv_args(args, &mut out),
            fm::Suffix::Call(fm::Call::MethodCall(mc)) => conv_args(mc.args(), &mut out),
            fm::Suffix::Index(fm::Index::Brackets { expression, .. }) => {
                out.push(conv_expr(expression));
            }
            _ => {}
        }
    }
    out
}

fn conv_table(tc: &fm::TableConstructor) -> Vec<Expression> {
    let mut out: Vec<Expression> = Vec::new();
    for field in tc.fields() {
        match field {
            fm::Field::ExpressionKey { key, value, .. } => {
                out.push(conv_expr(key));
                out.push(conv_expr(value));
            }
            fm::Field::NameKey { value, .. } => out.push(conv_expr(value)),
            fm::Field::NoKey(e) => out.push(conv_expr(e)),
            _ => {}
        }
    }
    out
}

fn conv_var(var: &fm::Var) -> Expression {
    let range = range_of(var);
    match var {
        fm::Var::Name(tok) => {
            Expression::Var { name: tok.token().to_string(), exprs: Vec::new(), range }
        }
        fm::Var::Expression(ve) => Expression::Var {
            name: String::new(),
            exprs: conv_call_parts(ve.prefix(), ve.suffixes()),
            range,
        },
        _ => Expression::Var { name: String::new(), exprs: Vec::new(), range },
    }
}

fn conv_expr(e: &fm::Expression) -> Expression {
    let range = range_of(e);
    match e {
        fm::Expression::BinaryOperator { lhs, binop, rhs } => Expression::BinaryOperator {
            lhs: Box::new(conv_expr(lhs)),
            binop: conv_binop(binop),
            rhs: Box::new(conv_expr(rhs)),
            range,
        },
        fm::Expression::Parentheses { expression, .. } => {
            Expression::Parentheses { expression: Box::new(conv_expr(expression)), range }
        }
        fm::Expression::UnaryOperator { unop, expression } => Expression::UnaryOperator {
            unop: conv_unop(unop),
            expression: Box::new(conv_expr(expression)),
            range,
        },
        fm::Expression::Function(anon) => {
            Expression::Function { body: conv_block(anon.body().block()), range }
        }
        fm::Expression::FunctionCall(fc) => Expression::FunctionCall {
            exprs: conv_call_parts(fc.prefix(), fc.suffixes()),
            range,
        },
        fm::Expression::TableConstructor(tc) => {
            Expression::TableConstructor { exprs: conv_table(tc), range }
        }
        fm::Expression::Number(tok) => {
            Expression::Number { text: tok.token().to_string(), range }
        }
        fm::Expression::String(tok) => Expression::Str { text: tok.token().to_string(), range },
        fm::Expression::Symbol(tok) => Expression::Symbol { text: tok.token().to_string(), range },
        fm::Expression::Var(var) => conv_var(var),
        _ => Expression::Symbol { text: String::new(), range },
    }
}

fn conv_if(i: &fm::If) -> Stmt {
    let mut else_model: Option<Block> = i.else_block().map(conv_block);
    if let Some(else_ifs) = i.else_if() {
        for ei in else_ifs.iter().rev() {
            let inner = Stmt::If {
                condition: conv_expr(ei.condition()),
                block: conv_block(ei.block()),
                else_block: else_model,
            };
            else_model = Some(Block { stmts: vec![inner] });
        }
    }
    Stmt::If {
        condition: conv_expr(i.condition()),
        block: conv_block(i.block()),
        else_block: else_model,
    }
}

fn conv_stmt(s: &fm::Stmt) -> Option<Stmt> {
    match s {
        fm::Stmt::Assignment(a) => Some(Stmt::Assignment {
            vars: a.variables().iter().map(conv_var).collect(),
            exprs: a.expressions().iter().map(conv_expr).collect(),
        }),
        fm::Stmt::Do(d) => Some(Stmt::Do { block: conv_block(d.block()) }),
        fm::Stmt::FunctionCall(fc) => {
            Some(Stmt::Call { exprs: conv_call_parts(fc.prefix(), fc.suffixes()) })
        }
        fm::Stmt::FunctionDeclaration(fd) => {
            Some(Stmt::FunctionDeclaration { body: conv_block(fd.body().block()) })
        }
        fm::Stmt::GenericFor(g) => Some(Stmt::GenericFor {
            exprs: g.expressions().iter().map(conv_expr).collect(),
            block: conv_block(g.block()),
        }),
        fm::Stmt::If(i) => Some(conv_if(i)),
        fm::Stmt::LocalAssignment(l) => Some(Stmt::LocalAssignment {
            exprs: l.expressions().iter().map(conv_expr).collect(),
        }),
        fm::Stmt::LocalFunction(lf) => {
            Some(Stmt::LocalFunction { body: conv_block(lf.body().block()) })
        }
        fm::Stmt::NumericFor(n) => {
            let mut exprs = vec![conv_expr(n.start()), conv_expr(n.end())];
            if let Some(step) = n.step() {
                exprs.push(conv_expr(step));
            }
            Some(Stmt::NumericFor { exprs, block: conv_block(n.block()) })
        }
        fm::Stmt::Repeat(r) => Some(Stmt::Repeat {
            block: conv_block(r.block()),
            condition: conv_expr(r.until()),
        }),
        fm::Stmt::While(w) => Some(Stmt::While {
            condition: conv_expr(w.condition()),
            block: conv_block(w.block()),
        }),
        _ => None,
    }
}

fn conv_block(b: &fm::Block) -> Block {
    let mut stmts: Vec<Stmt> = Vec::new();
    for s in b.stmts() {
        if let Some(cs) = conv_stmt(s) {
            stmts.push(cs);
        }
    }
    if let Some(fm::LastStmt::Return(r)) = b.last_stmt() {
        stmts.push(Stmt::Return { exprs: r.returns().iter().map(conv_expr).collect() });
    }
    Block { stmts }
}

fn parse_model(source: &str) -> Ast {
    let parsed = full_moon::parse(source).unwrap();
    Ast { block: conv_block(parsed.nodes()) }
}

fn run_lint(source: &str) -> Vec<Diagnostic> {
    let lint = DivideByZeroLint::new(()).unwrap();
    lint.pass(&parse_model(source), &Context {})
}

const MESSAGE: &str = "dividing by zero is not allowed, use math.huge instead";

#[test]
fn test_divide_by_zero() {
    let source = "print(1 / 0)\nprint(0 / 0)\nprint(x / 0)\nprint(x / y)\n";
    let diagnostics = run_lint(source);
    assert_eq!(diagnostics.len(), 2);
    for d in &diagnostics {
        assert_eq!(d.rule_id, "divide_by_zero");
        assert_eq!(d.message, MESSAGE);
        assert_eq!(d.labels.len(), 1);
        assert!(d.labels[0].annotation.is_none());
    }
    assert_eq!(diagnostics[0].labels[0].range, SourceRange { start: 6, end: 11 });
    assert_eq!(diagnostics[1].labels[0].range, SourceRange { start: 32, end: 37 });
}

#[test]
fn scenario_variable_divided_by_zero() {
    let diagnostics = run_lint("local y = x / 0");
    assert_eq!(diagnostics.len(), 1);
    assert_eq!(diagnostics[0].rule_id, "divide_by_zero");
    assert_eq!(diagnostics[0].labels[0].range, SourceRange { start: 10, end: 15 });
    let lint = DivideByZeroLint::new(()).unwrap();
    assert_eq!(lint.severity(), Severity::Warning);
}

#[test]
fn scenario_zero_divided_by_zero() {
    assert_eq!(run_lint("local y = 0 / 0").len(), 0);
}

#[test]
fn scenario_zero_divided_by_variable() {
    assert_eq!(run_lint("local y = 0 / x").len(), 0);
}

#[test]
fn scenario_float_spelling_of_zero() {
    assert_eq!(run_lint("local y = x / 0.0").len(), 0);
}

#[test]
fn scenario_wrong_operator() {
    assert_eq!(run_lint("local y = x + 0").len(), 0);
}

#[test]
fn scenario_parenthesized_divisor() {
    // `(0)` parses as a parenthesized expression, not a bare literal value,
    // so the rule does not fire on it.
    assert_eq!(run_lint("local y = (x) / (0)").len(), 0);
}

#[test]
fn no_false_positives_for_other_operators() {
    for source in [
        "local y = x - 0",
        "local y = x * 0",
        "local y = x % 0",
        "local y = x ^ 0",
        "local y = x .. 0",
        "local y = x == 0",
        "local y = x < 0",
    ] {
        assert_eq!(run_lint(source).len(), 0, "false positive on {source}");
    }
}

#[test]
fn other_zero_spellings_do_not_fire() {
    for source in ["local y = x / 00", "local y = x / -0", "local y = x / 0x0"] {
        assert_eq!(run_lint(source).len(), 0, "false positive on {source}");
    }
}

#[test]
fn empty_tree_yields_empty_result() {
    assert_eq!(run_lint("").len(), 0);
}

#[test]
fn non_literal_divisors_do_not_fire() {
    assert_eq!(run_lint("local y = x / z").len(), 0);
    assert_eq!(run_lint("local y = x / f()").len(), 0);
    assert_eq!(run_lint("local y = x / t[1]").len(), 0);
}

#[test]
fn deeply_nested_division_is_found() {
    let mut source = String::from("local y = ");
    for _ in 0..40 {
        source.push('(');
    }
    source.push_str("x / 0");
    for _ in 0..40 {
        source.push(')');
    }
    assert_eq!(run_lint(&source).len(), 1);
}

#[test]
fn divisions_in_nested_constructs_are_found() {
    let source = "\
local function f()\n\
    if x / 0 > 1 then\n\
        return 1 / 0\n\
    end\n\
    while 2 / 0 do\n\
        g(3 / 0)\n\
    end\n\
    repeat\n\
        local t = { [4 / 0] = 1, a = 5 / 0, 6 / 0 }\n\
    until 7 / 0\n\
end\n";
    assert_eq!(run_lint(source).len(), 8);
}

#[test]
fn division_inside_call_arguments_is_found() {
    assert_eq!(run_lint("f(x / 0)").len(), 1);
    assert_eq!(run_lint("x:y(1 / 0)").len(), 1);
    assert_eq!(run_lint("local y = t[1 / 0]").len(), 1);
}

#[test]
fn findings_come_in_document_order() {
    let diagnostics = run_lint("local a = x / 0\nlocal b = y / 0");
    assert_eq!(diagnostics.len(), 2);
    assert!(diagnostics[0].labels[0].range.start < diagnostics[1].labels[0].range.start);
}

#[test]
fn pass_is_idempotent() {
    let source = "print(1 / 0)\nlocal y = x / 0\nlocal z = 0 / 0\n";
    let ast = parse_model(source);
    let lint = DivideByZeroLint::new(()).unwrap();
    let first = lint.pass(&ast, &Context {});
    let second = lint.pass(&ast, &Context {});
    assert_eq!(first, second);
}

#[test]
fn construction_never_fails() {
    assert!(DivideByZeroLint::new(()).is_ok());
}

#[test]
fn severity_and_category_are_fixed() {
    let lint = DivideByZeroLint::new(()).unwrap();
    assert_eq!(lint.severity(), Severity::Warning);
    assert_eq!(lint.rule_type(), RuleType::Complexity);
}

#[test]
fn diagnostics_compare_structurally() {
    let range = SourceRange { start: 3, end: 9 };
    let a = Diagnostic::new("divide_by_zero", MESSAGE.to_owned(), Label::new(range));
    let b = Diagnostic::new("divide_by_zero", MESSAGE.to_owned(), Label::new(range));
    assert_eq!(a, b);
    let c = Diagnostic::new(
        "divide_by_zero",
        MESSAGE.to_owned(),
        Label::new(SourceRange { start: 3, end: 8 }),
    );
    assert_ne!(a, c);
    let d = Diagnostic::new("another_rule", MESSAGE.to_owned(), Label::new(range));
    assert_ne!(a, d);
}

#[test]
fn label_has_no_annotation() {
    let label = Label::new(SourceRange { start: 0, end: 1 });
    assert!(label.annotation.is_none());
    assert_eq!(label.range, SourceRange { start: 0, end: 1 });
}
