//! The laws of the coercion pass, proved of its specifications.
//!
//! The executable rewriter and optimizer are proved equal to
//! [`spec_rewrite_expr`] and [`spec_optimize`], so every law here holds of
//! the executable pass as well.

use vstd::prelude::*;

use crate::datatypes::{DataType, FieldV};
use crate::display::render_plan;
use crate::error::ErrorV;
use crate::expr::{ExprV, spec_cast_to, spec_type_of};
use crate::coercion::{
    spec_coerce_arg, spec_coerce_args, spec_optimize, spec_rewrite_expr, spec_rewrite_list,
};
use crate::plan::PlanV;
use crate::registry::{ScalarFunctionV, spec_lookup_function};
use crate::supertype::{lemma_supertype_absorbs, spec_supertype};

verus! {

/// A cast of an expression whose type resolves carries exactly the target
/// type.
proof fn lemma_cast_to_type(e: ExprV, to: DataType, s: Seq<FieldV>)
    requires
        spec_cast_to(e, to, s) is Ok,
    ensures
        spec_type_of(spec_cast_to(e, to, s)->Ok_0, s) == Ok::<DataType, ErrorV>(to),
{
}

/// After rewriting a binary expression, the resolved types of its left and
/// right operands under the governing schema are equal.
pub proof fn lemma_binary_rewrite_types_agree(
    e: ExprV,
    s: Seq<FieldV>,
    reg: Seq<ScalarFunctionV>,
)
    requires
        e is BinaryExpr,
        spec_rewrite_expr(e, s, reg) is Ok,
    ensures
        match spec_rewrite_expr(e, s, reg)->Ok_0 {
            ExprV::BinaryExpr { left, right, .. } => spec_type_of(*left, s) is Ok
                && spec_type_of(*left, s) == spec_type_of(*right, s),
            _ => false,
        },
{
    match e {
        ExprV::BinaryExpr { left, op, right } => {
            let l2 = spec_rewrite_expr(*left, s, reg)->Ok_0;
            let r2 = spec_rewrite_expr(*right, s, reg)->Ok_0;
            let lt = spec_type_of(l2, s)->Ok_0;
            let rt = spec_type_of(r2, s)->Ok_0;
            if lt != rt {
                let st = spec_supertype(lt, rt)->Some_0;
                lemma_cast_to_type(l2, st, s);
                lemma_cast_to_type(r2, st, s);
            }
        },
        _ => {},
    }
}

/// Rewriting a scalar-function call whose name is absent from the registry
/// fails with an unknown-function error naming the function; no rewritten
/// expression — and so no cast — is produced.
pub proof fn lemma_unknown_function_fails(
    name: Seq<char>,
    args: Seq<ExprV>,
    return_type: DataType,
    s: Seq<FieldV>,
    reg: Seq<ScalarFunctionV>,
)
    requires
        spec_lookup_function(reg, name) is None,
    ensures
        spec_rewrite_expr(ExprV::ScalarFunction { name, args, return_type }, s, reg) == Err::<
            ExprV,
            ErrorV,
        >(ErrorV::UnknownFunction(name)),
{
}

/// Whether the rewrite reaches a wildcard inside `e`.  The rewrite descends
/// into binary operands, null-check operands, function arguments, aliases
/// and nested wrappers; it does not look inside a cast, a logical not or a
/// sort specification, so a wildcard under those is not reached.
pub open spec fn reaches_wildcard(e: ExprV) -> bool
    decreases e, 0int,
{
    match e {
        ExprV::Wildcard => true,
        ExprV::BinaryExpr { left, right, .. } => reaches_wildcard(*left) || reaches_wildcard(
            *right,
        ),
        ExprV::IsNull(inner) => reaches_wildcard(*inner),
        ExprV::IsNotNull(inner) => reaches_wildcard(*inner),
        ExprV::Alias(inner, _) => reaches_wildcard(*inner),
        ExprV::Nested(inner) => reaches_wildcard(*inner),
        ExprV::ScalarFunction { args, .. } => any_reaches_wildcard(args),
        ExprV::AggregateFunction { args, .. } => any_reaches_wildcard(args),
        _ => false,
    }
}

/// Whether the rewrite reaches a wildcard inside any expression of `es`.
pub open spec fn any_reaches_wildcard(es: Seq<ExprV>) -> bool
    decreases es, 0int,
{
    if es.len() == 0 {
        false
    } else {
        any_reaches_wildcard(es.drop_last()) || reaches_wildcard(es.last())
    }
}

/// Rewriting any expression in which the rewrite reaches a wildcard fails,
/// regardless of nesting depth.
pub proof fn lemma_wildcard_fails(e: ExprV, s: Seq<FieldV>, reg: Seq<ScalarFunctionV>)
    requires
        reaches_wildcard(e),
    ensures
        spec_rewrite_expr(e, s, reg) is Err,
    decreases e, 0int,
{
    match e {
        ExprV::BinaryExpr { left, right, .. } => {
            if reaches_wildcard(*left) {
                lemma_wildcard_fails(*left, s, reg);
            } else {
                if spec_rewrite_expr(*left, s, reg) is Ok {
                    lemma_wildcard_fails(*right, s, reg);
                }
            }
        },
        ExprV::IsNull(inner) => {
            lemma_wildcard_fails(*inner, s, reg);
        },
        ExprV::IsNotNull(inner) => {
            lemma_wildcard_fails(*inner, s, reg);
        },
        ExprV::Alias(inner, _) => {
            lemma_wildcard_fails(*inner, s, reg);
        },
        ExprV::Nested(inner) => {
            lemma_wildcard_fails(*inner, s, reg);
        },
        ExprV::ScalarFunction { name, args, .. } => {
            match spec_lookup_function(reg, name) {
                None => {},
                Some(meta) => {
                    if args.len() <= meta.args.len() {
                        lemma_wildcard_args_fail(args, meta.args, s, reg);
                    }
                },
            }
        },
        ExprV::AggregateFunction { args, .. } => {
            lemma_wildcard_list_fails(args, s, reg);
        },
        _ => {},
    }
}

/// Coercing an argument list in which the rewrite reaches a wildcard fails.
proof fn lemma_wildcard_args_fail(
    args: Seq<ExprV>,
    params: Seq<FieldV>,
    s: Seq<FieldV>,
    reg: Seq<ScalarFunctionV>,
)
    requires
        any_reaches_wildcard(args),
    ensures
        spec_coerce_args(args, params, s, reg) is Err,
    decreases args, 2int,
{
    if any_reaches_wildcard(args.drop_last()) {
        lemma_wildcard_args_fail(args.drop_last(), params, s, reg);
    } else {
        assert(args.len() > 0);
        assert(reaches_wildcard(args.last()));
        if spec_coerce_args(args.drop_last(), params, s, reg) is Ok {
            lemma_wildcard_fails(args.last(), s, reg);
            assert(spec_rewrite_expr(args.last(), s, reg) is Err);
            assert(spec_coerce_arg(args.last(), params[args.len() - 1], s, reg) is Err);
        }
    }
}

/// Rewriting an expression list in which the rewrite reaches a wildcard
/// fails.
proof fn lemma_wildcard_list_fails(es: Seq<ExprV>, s: Seq<FieldV>, reg: Seq<ScalarFunctionV>)
    requires
        any_reaches_wildcard(es),
    ensures
        spec_rewrite_list(es, s, reg) is Err,
    decreases es, 2int,
{
    if any_reaches_wildcard(es.drop_last()) {
        lemma_wildcard_list_fails(es.drop_last(), s, reg);
    } else {
        if spec_rewrite_list(es.drop_last(), s, reg) is Ok {
            lemma_wildcard_fails(es.last(), s, reg);
        }
    }
}

/// A successful coercion of an argument list keeps its length.
proof fn lemma_coerce_args_len(
    args: Seq<ExprV>,
    params: Seq<FieldV>,
    s: Seq<FieldV>,
    reg: Seq<ScalarFunctionV>,
)
    requires
        spec_coerce_args(args, params, s, reg) is Ok,
    ensures
        spec_coerce_args(args, params, s, reg)->Ok_0.len() == args.len(),
    decreases args,
{
    if args.len() > 0 {
        lemma_coerce_args_len(args.drop_last(), params, s, reg);
    }
}

/// Rewriting an already-rewritten expression changes nothing: no redundant
/// cast is ever inserted on top of an inserted cast.
pub proof fn lemma_rewrite_expr_idempotent(e: ExprV, s: Seq<FieldV>, reg: Seq<ScalarFunctionV>)
    requires
        spec_rewrite_expr(e, s, reg) is Ok,
    ensures
        spec_rewrite_expr(spec_rewrite_expr(e, s, reg)->Ok_0, s, reg) == spec_rewrite_expr(
            e,
            s,
            reg,
        ),
    decreases e, 0int,
{
    match e {
        ExprV::BinaryExpr { left, op, right } => {
            let l2 = spec_rewrite_expr(*left, s, reg)->Ok_0;
            let r2 = spec_rewrite_expr(*right, s, reg)->Ok_0;
            lemma_rewrite_expr_idempotent(*left, s, reg);
            lemma_rewrite_expr_idempotent(*right, s, reg);
            let lt = spec_type_of(l2, s)->Ok_0;
            let rt = spec_type_of(r2, s)->Ok_0;
            if lt != rt {
                let st = spec_supertype(lt, rt)->Some_0;
                let lc = spec_cast_to(l2, st, s)->Ok_0;
                let rc = spec_cast_to(r2, st, s)->Ok_0;
                lemma_cast_to_type(l2, st, s);
                lemma_cast_to_type(r2, st, s);
                assert(spec_rewrite_expr(lc, s, reg) == Ok::<ExprV, ErrorV>(lc));
                assert(spec_rewrite_expr(rc, s, reg) == Ok::<ExprV, ErrorV>(rc));
            }
        },
        ExprV::IsNull(inner) => {
            lemma_rewrite_expr_idempotent(*inner, s, reg);
        },
        ExprV::IsNotNull(inner) => {
            lemma_rewrite_expr_idempotent(*inner, s, reg);
        },
        ExprV::ScalarFunction { name, args, return_type } => {
            let meta = spec_lookup_function(reg, name)->Some_0;
            lemma_coerce_args_len(args, meta.args, s, reg);
            lemma_coerce_args_idempotent(args, meta.args, s, reg);
        },
        ExprV::AggregateFunction { name, args, return_type } => {
            lemma_rewrite_list_idempotent(args, s, reg);
        },
        ExprV::Alias(inner, _) => {
            lemma_rewrite_expr_idempotent(*inner, s, reg);
        },
        ExprV::Nested(inner) => {
            lemma_rewrite_expr_idempotent(*inner, s, reg);
        },
        _ => {},
    }
}

/// Coercing an already-coerced argument changes nothing: the supertype
/// absorbs its inputs, so a second pass finds every argument already at its
/// coerced type.
proof fn lemma_coerce_arg_idempotent(
    arg: ExprV,
    param: FieldV,
    s: Seq<FieldV>,
    reg: Seq<ScalarFunctionV>,
)
    requires
        spec_coerce_arg(arg, param, s, reg) is Ok,
    ensures
        spec_coerce_arg(spec_coerce_arg(arg, param, s, reg)->Ok_0, param, s, reg)
            == spec_coerce_arg(arg, param, s, reg),
    decreases arg, 1int,
{
    lemma_rewrite_expr_idempotent(arg, s, reg);
    let a2 = spec_rewrite_expr(arg, s, reg)->Ok_0;
    let actual = spec_type_of(a2, s)->Ok_0;
    if actual != param.data_type {
        let st = spec_supertype(actual, param.data_type)->Some_0;
        let c = spec_cast_to(a2, st, s)->Ok_0;
        lemma_cast_to_type(a2, st, s);
        lemma_supertype_absorbs(actual, param.data_type, st);
        assert(spec_rewrite_expr(c, s, reg) == Ok::<ExprV, ErrorV>(c));
        if st == param.data_type {
            assert(spec_coerce_arg(c, param, s, reg) == Ok::<ExprV, ErrorV>(c));
        } else {
            assert(spec_supertype(st, param.data_type) == Some(st));
            assert(spec_cast_to(c, st, s) == Ok::<ExprV, ErrorV>(c));
        }
    }
}

/// Coercing an already-coerced argument list changes nothing.
proof fn lemma_coerce_args_idempotent(
    args: Seq<ExprV>,
    params: Seq<FieldV>,
    s: Seq<FieldV>,
    reg: Seq<ScalarFunctionV>,
)
    requires
        spec_coerce_args(args, params, s, reg) is Ok,
    ensures
        spec_coerce_args(spec_coerce_args(args, params, s, reg)->Ok_0, params, s, reg)
            == spec_coerce_args(args, params, s, reg),
    decreases args, 0int,
{
    if args.len() > 0 {
        let pre = spec_coerce_args(args.drop_last(), params, s, reg)->Ok_0;
        let last2 = spec_coerce_arg(args.last(), params[args.len() - 1], s, reg)->Ok_0;
        lemma_coerce_args_idempotent(args.drop_last(), params, s, reg);
        lemma_coerce_args_len(args.drop_last(), params, s, reg);
        lemma_coerce_arg_idempotent(args.last(), params[args.len() - 1], s, reg);
        let out = pre.push(last2);
        assert(out.drop_last() =~= pre);
        assert(out.last() == last2);
        assert(out.len() == args.len());
    }
}

/// Rewriting an already-rewritten expression list changes nothing.
proof fn lemma_rewrite_list_idempotent(es: Seq<ExprV>, s: Seq<FieldV>, reg: Seq<ScalarFunctionV>)
    requires
        spec_rewrite_list(es, s, reg) is Ok,
    ensures
        spec_rewrite_list(spec_rewrite_list(es, s, reg)->Ok_0, s, reg) == spec_rewrite_list(
            es,
            s,
            reg,
        ),
    decreases es, 0int,
{
    if es.len() > 0 {
        let pre = spec_rewrite_list(es.drop_last(), s, reg)->Ok_0;
        let last2 = spec_rewrite_expr(es.last(), s, reg)->Ok_0;
        lemma_rewrite_list_idempotent(es.drop_last(), s, reg);
        lemma_rewrite_expr_idempotent(es.last(), s, reg);
        let out = pre.push(last2);
        assert(out.drop_last() =~= pre);
        assert(out.last() == last2);
    }
}

/// Rewriting an already-rewritten plan produces the identical tree: the
/// pass is idempotent, so its rendering — the plan's textual form — is
/// identical as well.
pub proof fn lemma_optimize_idempotent(p: PlanV, reg: Seq<ScalarFunctionV>)
    requires
        spec_optimize(p, reg) is Ok,
    ensures
        spec_optimize(spec_optimize(p, reg)->Ok_0, reg) == spec_optimize(p, reg),
    decreases p,
{
    match p {
        PlanV::Projection { expr, input, .. } => {
            lemma_optimize_idempotent(*input, reg);
            let in2 = spec_optimize(*input, reg)->Ok_0;
            lemma_rewrite_list_idempotent(expr, crate::plan::spec_schema_of(in2), reg);
        },
        PlanV::Selection { expr, input } => {
            lemma_optimize_idempotent(*input, reg);
            let in2 = spec_optimize(*input, reg)->Ok_0;
            lemma_rewrite_expr_idempotent(expr, crate::plan::spec_schema_of(in2), reg);
        },
        PlanV::Aggregate { input, group_expr, aggr_expr, .. } => {
            lemma_optimize_idempotent(*input, reg);
            let in2 = spec_optimize(*input, reg)->Ok_0;
            lemma_rewrite_list_idempotent(group_expr, crate::plan::spec_schema_of(in2), reg);
            lemma_rewrite_list_idempotent(aggr_expr, crate::plan::spec_schema_of(in2), reg);
        },
        PlanV::Limit { input, .. } => {
            lemma_optimize_idempotent(*input, reg);
        },
        PlanV::Sort { expr, input, .. } => {
            lemma_optimize_idempotent(*input, reg);
            let in2 = spec_optimize(*input, reg)->Ok_0;
            lemma_rewrite_list_idempotent(expr, crate::plan::spec_schema_of(in2), reg);
        },
        PlanV::Explain { plan, .. } => {
            lemma_optimize_idempotent(*plan, reg);
        },
        _ => {},
    }
}

/// Rewriting an already-rewritten plan produces a tree whose rendering —
/// its textual form — is identical to its input's.
pub proof fn lemma_optimize_textually_idempotent(
    p: PlanV,
    reg: Seq<ScalarFunctionV>,
    prefix: Seq<char>,
)
    requires
        spec_optimize(p, reg) is Ok,
    ensures
        render_plan(
            spec_optimize(spec_optimize(p, reg)->Ok_0, reg)->Ok_0,
            prefix,
        ) == render_plan(spec_optimize(p, reg)->Ok_0, prefix),
{
    lemma_optimize_idempotent(p, reg);
}

} // verus!
