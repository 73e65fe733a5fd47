//! Deterministic human-readable rendering of expressions and plans.
//!
//! The rendering is the diagnostic surface of the pass: tests and EXPLAIN
//! output assert exact textual shape.  A cast renders as
//! `CAST(<expr> AS <Type>)`, a binary expression as `<left> <Op> <right>`,
//! and a plan as one line per node, each child indented two further spaces.
//! Every executable renderer is proved equal to its specification.

use vstd::prelude::*;
use vstd::string::*;

use crate::datatypes::DataType;
use crate::error::PlanError;
use crate::expr::{
    Expr, ExprV, exprs_view, lemma_exprs_view_index, lemma_exprs_view_len, Operator, ScalarValueV,
};
use crate::plan::{LogicalPlan, PlanV};

verus! {

/// The decimal digit `d` as text; meaningful for `d < 10`.
pub open spec fn digit_seq(d: nat) -> Seq<char> {
    if d == 0 {
        "0"@
    } else if d == 1 {
        "1"@
    } else if d == 2 {
        "2"@
    } else if d == 3 {
        "3"@
    } else if d == 4 {
        "4"@
    } else if d == 5 {
        "5"@
    } else if d == 6 {
        "6"@
    } else if d == 7 {
        "7"@
    } else if d == 8 {
        "8"@
    } else {
        "9"@
    }
}

/// The decimal rendering of a natural number, most significant digit first.
pub open spec fn dec_str(n: nat) -> Seq<char>
    decreases n,
{
    if n < 10 {
        digit_seq(n)
    } else {
        dec_str(n / 10) + digit_seq(n % 10)
    }
}

/// The decimal rendering of an integer, with a leading minus sign when
/// negative.
pub open spec fn int_str(i: int) -> Seq<char> {
    if i < 0 {
        "-"@ + dec_str((-i) as nat)
    } else {
        dec_str(i as nat)
    }
}

/// The name of a primitive type.
pub open spec fn render_datatype(t: DataType) -> Seq<char> {
    match t {
        DataType::Null => "Null"@,
        DataType::Boolean => "Boolean"@,
        DataType::Int8 => "Int8"@,
        DataType::Int16 => "Int16"@,
        DataType::Int32 => "Int32"@,
        DataType::Int64 => "Int64"@,
        DataType::UInt8 => "UInt8"@,
        DataType::UInt16 => "UInt16"@,
        DataType::UInt32 => "UInt32"@,
        DataType::UInt64 => "UInt64"@,
        DataType::Float32 => "Float32"@,
        DataType::Float64 => "Float64"@,
        DataType::Utf8 => "Utf8"@,
        DataType::Date32 => "Date32"@,
        DataType::Date64 => "Date64"@,
    }
}

/// The name of a binary operator.
pub open spec fn render_op(op: Operator) -> Seq<char> {
    match op {
        Operator::Eq => "Eq"@,
        Operator::NotEq => "NotEq"@,
        Operator::Lt => "Lt"@,
        Operator::LtEq => "LtEq"@,
        Operator::Gt => "Gt"@,
        Operator::GtEq => "GtEq"@,
        Operator::Plus => "Plus"@,
        Operator::Minus => "Minus"@,
        Operator::Multiply => "Multiply"@,
        Operator::Divide => "Divide"@,
        Operator::Modulus => "Modulus"@,
        Operator::And => "And"@,
        Operator::Or => "Or"@,
        Operator::Like => "Like"@,
        Operator::NotLike => "NotLike"@,
    }
}

/// The rendering of a literal value, as `<TypeName>(<value>)`.
pub open spec fn render_scalar(v: ScalarValueV) -> Seq<char> {
    match v {
        ScalarValueV::Null => "Null"@,
        ScalarValueV::Boolean(b) => "Boolean("@ + (if b {
            "true"@
        } else {
            "false"@
        }) + ")"@,
        ScalarValueV::Int8(x) => "Int8("@ + int_str(x as int) + ")"@,
        ScalarValueV::Int16(x) => "Int16("@ + int_str(x as int) + ")"@,
        ScalarValueV::Int32(x) => "Int32("@ + int_str(x as int) + ")"@,
        ScalarValueV::Int64(x) => "Int64("@ + int_str(x as int) + ")"@,
        ScalarValueV::UInt8(x) => "UInt8("@ + dec_str(x as nat) + ")"@,
        ScalarValueV::UInt16(x) => "UInt16("@ + dec_str(x as nat) + ")"@,
        ScalarValueV::UInt32(x) => "UInt32("@ + dec_str(x as nat) + ")"@,
        ScalarValueV::UInt64(x) => "UInt64("@ + dec_str(x as nat) + ")"@,
        ScalarValueV::Utf8(s) => "Utf8(\""@ + s + "\")"@,
    }
}

/// The rendering of an expression tree.
pub open spec fn render_expr(e: ExprV) -> Seq<char>
    decreases e,
{
    match e {
        ExprV::Alias(inner, name) => render_expr(*inner) + " AS "@ + name,
        ExprV::Column(name) => "#"@ + name,
        ExprV::Literal(v) => render_scalar(v),
        ExprV::BinaryExpr { left, op, right } => render_expr(*left) + " "@ + render_op(op) + " "@
            + render_expr(*right),
        ExprV::Not(inner) => "NOT "@ + render_expr(*inner),
        ExprV::IsNull(inner) => render_expr(*inner) + " IS NULL"@,
        ExprV::IsNotNull(inner) => render_expr(*inner) + " IS NOT NULL"@,
        ExprV::Cast { expr, data_type } => "CAST("@ + render_expr(*expr) + " AS "@
            + render_datatype(data_type) + ")"@,
        ExprV::Sort { expr, asc } => render_expr(*expr) + (if asc {
            " ASC"@
        } else {
            " DESC"@
        }),
        ExprV::ScalarFunction { name, args, .. } => name + "("@ + render_exprs(args) + ")"@,
        ExprV::AggregateFunction { name, args, .. } => name + "("@ + render_exprs(args) + ")"@,
        ExprV::Wildcard => "*"@,
        ExprV::Nested(inner) => "("@ + render_expr(*inner) + ")"@,
    }
}

/// The rendering of an expression list, comma-separated.
pub open spec fn render_exprs(es: Seq<ExprV>) -> Seq<char>
    decreases es,
{
    if es.len() == 0 {
        Seq::empty()
    } else if es.len() == 1 {
        render_expr(es[0])
    } else {
        render_expr(es[0]) + ", "@ + render_exprs(es.drop_first())
    }
}

/// Appending one expression to a rendered list appends a separator and its
/// rendering.
pub proof fn lemma_render_exprs_push(es: Seq<ExprV>, x: ExprV)
    ensures
        render_exprs(es.push(x)) == if es.len() == 0 {
            render_expr(x)
        } else {
            render_exprs(es) + ", "@ + render_expr(x)
        },
    decreases es.len(),
{
    if es.len() == 0 {
        assert(es.push(x)[0] == x);
        assert(render_exprs(es.push(x)) == render_expr(x));
    } else {
        assert(es.push(x).drop_first() =~= es.drop_first().push(x));
        lemma_render_exprs_push(es.drop_first(), x);
        if es.len() == 1 {
            assert(render_exprs(es) == render_expr(es[0]));
        } else {
            assert((render_expr(es[0]) + ", "@ + (render_exprs(es.drop_first()) + ", "@
                + render_expr(x))) =~= (render_exprs(es) + ", "@ + render_expr(x)));
        }
    }
}

/// The rendering of a plan tree: one line for the node, then each child on
/// its own line, indented by `prefix` plus two further spaces.
pub open spec fn render_plan(p: PlanV, prefix: Seq<char>) -> Seq<char>
    decreases p,
{
    match p {
        PlanV::Projection { expr, input, .. } => "Projection: "@ + render_exprs(expr) + "\n"@
            + prefix + "  "@ + render_plan(*input, prefix + "  "@),
        PlanV::Selection { expr, input } => "Selection: "@ + render_expr(expr) + "\n"@ + prefix
            + "  "@ + render_plan(*input, prefix + "  "@),
        PlanV::Aggregate { input, group_expr, aggr_expr, .. } => "Aggregate: groupBy=[["@
            + render_exprs(group_expr) + "]], aggr=[["@ + render_exprs(aggr_expr) + "]]"@ + "\n"@
            + prefix + "  "@ + render_plan(*input, prefix + "  "@),
        PlanV::Limit { n, input, .. } => "Limit: "@ + dec_str(n as nat) + "\n"@ + prefix + "  "@
            + render_plan(*input, prefix + "  "@),
        PlanV::Sort { expr, input, .. } => "Sort: "@ + render_exprs(expr) + "\n"@ + prefix + "  "@
            + render_plan(*input, prefix + "  "@),
        PlanV::TableScan { table_name, .. } => "TableScan: "@ + table_name,
        PlanV::InMemoryScan { .. } => "InMemoryScan"@,
        PlanV::ParquetScan { path, .. } => "ParquetScan: "@ + path,
        PlanV::CsvScan { path, .. } => "CsvScan: "@ + path,
        PlanV::EmptyRelation { .. } => "EmptyRelation"@,
        PlanV::CreateExternalTable { name, .. } => "CreateExternalTable: "@ + name,
        PlanV::Explain { plan, .. } => "Explain"@ + "\n"@ + prefix + "  "@ + render_plan(
            *plan,
            prefix + "  "@,
        ),
    }
}

/// The rendering of an error, naming what failed.
pub open spec fn render_error(e: crate::error::ErrorV) -> Seq<char> {
    match e {
        crate::error::ErrorV::UnresolvedColumn(name) => "No field named "@ + name,
        crate::error::ErrorV::UnknownFunction(name) => "Invalid scalar function "@ + name,
        crate::error::ErrorV::IncompatibleTypes(a, b) => "Types "@ + render_datatype(a) + " and "@
            + render_datatype(b) + " have no common supertype"@,
        crate::error::ErrorV::InvalidWildcard => (
        "Wildcard expressions are not valid in a logical query plan"@),
        crate::error::ErrorV::SignatureMismatch(name) => "Too many arguments for scalar function "@
            + name,
        crate::error::ErrorV::DuplicateField(name) => "Duplicate field name "@ + name,
    }
}

/// The decimal digit `d` as text.
fn digit_str(d: u64) -> (r: &'static str)
    requires
        d < 10,
    ensures
        r@ == digit_seq(d as nat),
{
    if d == 0 {
        "0"
    } else if d == 1 {
        "1"
    } else if d == 2 {
        "2"
    } else if d == 3 {
        "3"
    } else if d == 4 {
        "4"
    } else if d == 5 {
        "5"
    } else if d == 6 {
        "6"
    } else if d == 7 {
        "7"
    } else if d == 8 {
        "8"
    } else {
        "9"
    }
}

/// Render a natural number in decimal.
fn u64_to_string(n: u64) -> (r: String)
    ensures
        r@ == dec_str(n as nat),
    decreases n,
{
    if n < 10 {
        String::from_str(digit_str(n))
    } else {
        let mut s = u64_to_string(n / 10);
        s.append(digit_str(n % 10));
        s
    }
}

/// Render a signed integer in decimal.
fn i64_to_string(v: i64) -> (r: String)
    ensures
        r@ == int_str(v as int),
{
    if v >= 0 {
        u64_to_string(v as u64)
    } else if v == i64::MIN {
        let mut s = String::from_str("-");
        s.append(u64_to_string(9223372036854775808u64).as_str());
        proof {
            assert(-(v as int) == 9223372036854775808int);
        }
        s
    } else {
        let mut s = String::from_str("-");
        s.append(u64_to_string((-v) as u64).as_str());
        s
    }
}

impl crate::expr::ScalarValue {
    /// Render this literal value as `<TypeName>(<value>)`.
    pub fn to_string(&self) -> (r: String)
        ensures
            r@ == render_scalar(self@),
    {
        match self {
            crate::expr::ScalarValue::Null => String::from_str("Null"),
            crate::expr::ScalarValue::Boolean(b) => {
                let mut s = String::from_str("Boolean(");
                s.append(if *b {
                    "true"
                } else {
                    "false"
                });
                s.append(")");
                s
            },
            crate::expr::ScalarValue::Int8(x) => {
                let mut s = String::from_str("Int8(");
                s.append(i64_to_string(*x as i64).as_str());
                s.append(")");
                s
            },
            crate::expr::ScalarValue::Int16(x) => {
                let mut s = String::from_str("Int16(");
                s.append(i64_to_string(*x as i64).as_str());
                s.append(")");
                s
            },
            crate::expr::ScalarValue::Int32(x) => {
                let mut s = String::from_str("Int32(");
                s.append(i64_to_string(*x as i64).as_str());
                s.append(")");
                s
            },
            crate::expr::ScalarValue::Int64(x) => {
                let mut s = String::from_str("Int64(");
                s.append(i64_to_string(*x).as_str());
                s.append(")");
                s
            },
            crate::expr::ScalarValue::UInt8(x) => {
                let mut s = String::from_str("UInt8(");
                s.append(u64_to_string(*x as u64).as_str());
                s.append(")");
                s
            },
            crate::expr::ScalarValue::UInt16(x) => {
                let mut s = String::from_str("UInt16(");
                s.append(u64_to_string(*x as u64).as_str());
                s.append(")");
                s
            },
            crate::expr::ScalarValue::UInt32(x) => {
                let mut s = String::from_str("UInt32(");
                s.append(u64_to_string(*x as u64).as_str());
                s.append(")");
                s
            },
            crate::expr::ScalarValue::UInt64(x) => {
                let mut s = String::from_str("UInt64(");
                s.append(u64_to_string(*x).as_str());
                s.append(")");
                s
            },
            crate::expr::ScalarValue::Utf8(text) => {
                let mut s = String::from_str("Utf8(\"");
                s.append(text.as_str());
                s.append("\")");
                s
            },
        }
    }
}

/// The name of a primitive type.
pub fn datatype_to_str(t: &DataType) -> (r: &'static str)
    ensures
        r@ == render_datatype(*t),
{
    match t {
        DataType::Null => "Null",
        DataType::Boolean => "Boolean",
        DataType::Int8 => "Int8",
        DataType::Int16 => "Int16",
        DataType::Int32 => "Int32",
        DataType::Int64 => "Int64",
        DataType::UInt8 => "UInt8",
        DataType::UInt16 => "UInt16",
        DataType::UInt32 => "UInt32",
        DataType::UInt64 => "UInt64",
        DataType::Float32 => "Float32",
        DataType::Float64 => "Float64",
        DataType::Utf8 => "Utf8",
        DataType::Date32 => "Date32",
        DataType::Date64 => "Date64",
    }
}

/// The name of a binary operator.
fn op_to_str(op: &Operator) -> (r: &'static str)
    ensures
        r@ == render_op(*op),
{
    match op {
        Operator::Eq => "Eq",
        Operator::NotEq => "NotEq",
        Operator::Lt => "Lt",
        Operator::LtEq => "LtEq",
        Operator::Gt => "Gt",
        Operator::GtEq => "GtEq",
        Operator::Plus => "Plus",
        Operator::Minus => "Minus",
        Operator::Multiply => "Multiply",
        Operator::Divide => "Divide",
        Operator::Modulus => "Modulus",
        Operator::And => "And",
        Operator::Or => "Or",
        Operator::Like => "Like",
        Operator::NotLike => "NotLike",
    }
}

/// Render an expression list, comma-separated.
pub fn exprs_to_string(es: &Vec<Expr>) -> (r: String)
    ensures
        r@ == render_exprs(exprs_view(es@)),
    decreases es@,
{
    let ghost evs: Seq<ExprV> = exprs_view(es@);
    proof {
        lemma_exprs_view_len(es@);
    }
    let mut out = String::new();
    let mut i: usize = 0;
    while i < es.len()
        invariant
            i <= es.len(),
            evs == exprs_view(es@),
            evs.len() == es@.len(),
            out@ == render_exprs(evs.subrange(0, i as int)),
        decreases es@.len() - i,
    {
        proof {
            assert(decreases_to!(es@ => es@[i as int]));
            lemma_exprs_view_index(es@, i as int);
        }
        if i > 0 {
            out.append(", ");
        }
        let piece = es[i].to_string();
        out.append(piece.as_str());
        proof {
            let pre = evs.subrange(0, i as int);
            assert(pre.push(evs[i as int]) =~= evs.subrange(0, i as int + 1));
            lemma_render_exprs_push(pre, evs[i as int]);
            if i == 0 {
                assert(out@ =~= render_exprs(evs.subrange(0, i as int + 1)));
            } else {
                assert(out@ =~= render_exprs(evs.subrange(0, i as int + 1)));
            }
        }
        i = i + 1;
    }
    proof {
        assert(evs.subrange(0, evs.len() as int) =~= evs);
    }
    out
}

impl Expr {
    /// Render this expression.
    pub fn to_string(&self) -> (r: String)
        ensures
            r@ == render_expr(self@),
        decreases *self,
    {
        match self {
            Expr::Alias(inner, name) => {
                let mut s = inner.to_string();
                s.append(" AS ");
                s.append(name.as_str());
                proof {
                    assert(s@ =~= render_expr(self@));
                }
                s
            },
            Expr::Column(name) => {
                let mut s = String::from_str("#");
                s.append(name.as_str());
                s
            },
            Expr::Literal(v) => v.to_string(),
            Expr::BinaryExpr { left, op, right } => {
                let mut s = left.to_string();
                s.append(" ");
                s.append(op_to_str(op));
                s.append(" ");
                let rs = right.to_string();
                s.append(rs.as_str());
                proof {
                    assert(s@ =~= render_expr(self@));
                }
                s
            },
            Expr::Not(inner) => {
                let mut s = String::from_str("NOT ");
                let is = inner.to_string();
                s.append(is.as_str());
                s
            },
            Expr::IsNull(inner) => {
                let mut s = inner.to_string();
                s.append(" IS NULL");
                s
            },
            Expr::IsNotNull(inner) => {
                let mut s = inner.to_string();
                s.append(" IS NOT NULL");
                s
            },
            Expr::Cast { expr, data_type } => {
                let mut s = String::from_str("CAST(");
                let is = expr.to_string();
                s.append(is.as_str());
                s.append(" AS ");
                s.append(datatype_to_str(data_type));
                s.append(")");
                proof {
                    assert(s@ =~= render_expr(self@));
                }
                s
            },
            Expr::Sort { expr, asc } => {
                let mut s = expr.to_string();
                s.append(if *asc {
                    " ASC"
                } else {
                    " DESC"
                });
                s
            },
            Expr::ScalarFunction { name, args, .. } => {
                let mut s = name.clone();
                s.append("(");
                let al = exprs_to_string(args);
                s.append(al.as_str());
                s.append(")");
                proof {
                    assert(s@ =~= render_expr(self@));
                }
                s
            },
            Expr::AggregateFunction { name, args, .. } => {
                let mut s = name.clone();
                s.append("(");
                let al = exprs_to_string(args);
                s.append(al.as_str());
                s.append(")");
                proof {
                    assert(s@ =~= render_expr(self@));
                }
                s
            },
            Expr::Wildcard => String::from_str("*"),
            Expr::Nested(inner) => {
                let mut s = String::from_str("(");
                let is = inner.to_string();
                s.append(is.as_str());
                s.append(")");
                proof {
                    assert(s@ =~= render_expr(self@));
                }
                s
            },
        }
    }
}

impl LogicalPlan {
    /// Render this plan tree, one line per node.
    pub fn to_string(&self) -> (r: String)
        ensures
            r@ == render_plan(self@, Seq::empty()),
    {
        let prefix = String::new();
        self.fmt_with_prefix(&prefix)
    }

    /// Render this plan tree with each line after the first indented by
    /// `prefix` plus two spaces per nesting level.
    pub fn fmt_with_prefix(&self, prefix: &String) -> (r: String)
        ensures
            r@ == render_plan(self@, prefix@),
        decreases *self, 0int,
    {
        match self {
            LogicalPlan::Projection { expr, input, .. } => {
                let mut s = String::from_str("Projection: ");
                let el = exprs_to_string(expr);
                s.append(el.as_str());
                let cs = child_string(input, prefix);
                s.append(cs.as_str());
                proof {
                    assert(s@ =~= render_plan(self@, prefix@));
                }
                s
            },
            LogicalPlan::Selection { expr, input } => {
                let mut s = String::from_str("Selection: ");
                let es = expr.to_string();
                s.append(es.as_str());
                let cs = child_string(input, prefix);
                s.append(cs.as_str());
                proof {
                    assert(s@ =~= render_plan(self@, prefix@));
                }
                s
            },
            LogicalPlan::Aggregate { input, group_expr, aggr_expr, .. } => {
                let mut s = String::from_str("Aggregate: groupBy=[[");
                let gl = exprs_to_string(group_expr);
                s.append(gl.as_str());
                s.append("]], aggr=[[");
                let al = exprs_to_string(aggr_expr);
                s.append(al.as_str());
                s.append("]]");
                let cs = child_string(input, prefix);
                s.append(cs.as_str());
                proof {
                    assert(s@ =~= render_plan(self@, prefix@));
                }
                s
            },
            LogicalPlan::Limit { n, input, .. } => {
                let mut s = String::from_str("Limit: ");
                let ns = u64_to_string(*n as u64);
                s.append(ns.as_str());
                let cs = child_string(input, prefix);
                s.append(cs.as_str());
                proof {
                    assert(s@ =~= render_plan(self@, prefix@));
                }
                s
            },
            LogicalPlan::Sort { expr, input, .. } => {
                let mut s = String::from_str("Sort: ");
                let el = exprs_to_string(expr);
                s.append(el.as_str());
                let cs = child_string(input, prefix);
                s.append(cs.as_str());
                proof {
                    assert(s@ =~= render_plan(self@, prefix@));
                }
                s
            },
            LogicalPlan::TableScan { table_name, .. } => {
                let mut s = String::from_str("TableScan: ");
                s.append(table_name.as_str());
                s
            },
            LogicalPlan::InMemoryScan { .. } => String::from_str("InMemoryScan"),
            LogicalPlan::ParquetScan { path, .. } => {
                let mut s = String::from_str("ParquetScan: ");
                s.append(path.as_str());
                s
            },
            LogicalPlan::CsvScan { path, .. } => {
                let mut s = String::from_str("CsvScan: ");
                s.append(path.as_str());
                s
            },
            LogicalPlan::EmptyRelation { .. } => String::from_str("EmptyRelation"),
            LogicalPlan::CreateExternalTable { name, .. } => {
                let mut s = String::from_str("CreateExternalTable: ");
                s.append(name.as_str());
                s
            },
            LogicalPlan::Explain { plan, .. } => {
                let mut s = String::from_str("Explain");
                let cs = child_string(plan, prefix);
                s.append(cs.as_str());
                proof {
                    assert(s@ =~= render_plan(self@, prefix@));
                }
                s
            },
        }
    }
}

/// Render a child plan: a line break, the deeper indentation, then the
/// child itself.
fn child_string(child: &LogicalPlan, prefix: &String) -> (r: String)
    ensures
        r@ == "\n"@ + prefix@ + "  "@ + render_plan(child@, prefix@ + "  "@),
    decreases *child, 1int,
{
    let mut deeper = prefix.clone();
    deeper.append("  ");
    let mut s = String::from_str("\n");
    s.append(deeper.as_str());
    let cs = child.fmt_with_prefix(&deeper);
    s.append(cs.as_str());
    proof {
        assert(s@ =~= "\n"@ + prefix@ + "  "@ + render_plan(child@, prefix@ + "  "@));
    }
    s
}

impl PlanError {
    /// A human-readable description of the error.
    pub fn message(&self) -> (r: String)
        ensures
            r@ == render_error(self@),
    {
        match self {
            PlanError::UnresolvedColumn(name) => {
                let mut s = String::from_str("No field named ");
                s.append(name.as_str());
                s
            },
            PlanError::UnknownFunction(name) => {
                let mut s = String::from_str("Invalid scalar function ");
                s.append(name.as_str());
                s
            },
            PlanError::IncompatibleTypes(a, b) => {
                let mut s = String::from_str("Types ");
                s.append(datatype_to_str(a));
                s.append(" and ");
                s.append(datatype_to_str(b));
                s.append(" have no common supertype");
                proof {
                    assert(s@ =~= render_error(self@));
                }
                s
            },
            PlanError::InvalidWildcard => String::from_str(
                "Wildcard expressions are not valid in a logical query plan",
            ),
            PlanError::SignatureMismatch(name) => {
                let mut s = String::from_str("Too many arguments for scalar function ");
                s.append(name.as_str());
                s
            },
            PlanError::DuplicateField(name) => {
                let mut s = String::from_str("Duplicate field name ");
                s.append(name.as_str());
                s
            },
        }
    }
}

} // verus!
