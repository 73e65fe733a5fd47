//! The type-coercion rewrite: expressions, then whole plans.
//!
//! [`spec_rewrite_expr`] is the specification of the expression rewrite: it
//! recursively rewrites children first, resolves the operand types of every
//! binary expression and scalar-function argument, and inserts a cast to the
//! common supertype wherever the types disagree.  [`spec_optimize`] lifts the
//! rewrite over a plan bottom-up, rewriting each node's expressions against
//! its already-rewritten child's schema and rebuilding the node with a
//! recomputed schema.  [`TypeCoercionRule`] is the executable pass, proved
//! equal to both specifications.

use vstd::prelude::*;

use crate::builder::{LogicalPlanBuilder, spec_build_aggregate, spec_build_projection};
use crate::datatypes::{Field, FieldV, Schema};
use crate::error::{ErrorV, PlanError};
use crate::expr::{
    Expr, ExprV, exprs_view, lemma_exprs_view_index, lemma_exprs_view_len, res_expr_view,
    spec_cast_to, spec_type_of,
};
use crate::plan::{duplicate_stringified, LogicalPlan, PlanV, res_plan_view, spec_schema_of};
use crate::registry::{FunctionRegistry, ScalarFunctionV, spec_lookup_function};
use crate::supertype::spec_supertype;

verus! {

/// The rewrite of one expression under a schema and a function registry.
///
/// Children are rewritten first; a binary expression whose rewritten
/// operands resolve to unequal types has each operand cast to their common
/// supertype; a scalar-function argument that does not match its declared
/// parameter type is cast to the supertype of the two; aggregate arguments
/// are rewritten with no coercion target; a nested wrapper is discarded; a
/// wildcard is rejected.
pub open spec fn spec_rewrite_expr(e: ExprV, s: Seq<FieldV>, reg: Seq<ScalarFunctionV>) -> Result<
    ExprV,
    ErrorV,
>
    decreases e, 0int,
{
    match e {
        ExprV::BinaryExpr { left, op, right } => match spec_rewrite_expr(*left, s, reg) {
            Err(er) => Err(er),
            Ok(l2) => match spec_rewrite_expr(*right, s, reg) {
                Err(er) => Err(er),
                Ok(r2) => match spec_type_of(l2, s) {
                    Err(er) => Err(er),
                    Ok(lt) => match spec_type_of(r2, s) {
                        Err(er) => Err(er),
                        Ok(rt) => if lt == rt {
                            Ok(ExprV::BinaryExpr { left: Box::new(l2), op, right: Box::new(r2) })
                        } else {
                            match spec_supertype(lt, rt) {
                                None => Err(ErrorV::IncompatibleTypes(lt, rt)),
                                Some(st) => match spec_cast_to(l2, st, s) {
                                    Err(er) => Err(er),
                                    Ok(lc) => match spec_cast_to(r2, st, s) {
                                        Err(er) => Err(er),
                                        Ok(rc) => Ok(ExprV::BinaryExpr {
                                            left: Box::new(lc),
                                            op,
                                            right: Box::new(rc),
                                        }),
                                    },
                                },
                            }
                        },
                    },
                },
            },
        },
        ExprV::IsNull(inner) => match spec_rewrite_expr(*inner, s, reg) {
            Err(er) => Err(er),
            Ok(x) => Ok(ExprV::IsNull(Box::new(x))),
        },
        ExprV::IsNotNull(inner) => match spec_rewrite_expr(*inner, s, reg) {
            Err(er) => Err(er),
            Ok(x) => Ok(ExprV::IsNotNull(Box::new(x))),
        },
        ExprV::ScalarFunction { name, args, return_type } => match spec_lookup_function(reg, name) {
            None => Err(ErrorV::UnknownFunction(name)),
            Some(meta) => if args.len() > meta.args.len() {
                Err(ErrorV::SignatureMismatch(name))
            } else {
                match spec_coerce_args(args, meta.args, s, reg) {
                    Err(er) => Err(er),
                    Ok(new_args) => Ok(ExprV::ScalarFunction { name, args: new_args, return_type }),
                }
            },
        },
        ExprV::AggregateFunction { name, args, return_type } => match spec_rewrite_list(
            args,
            s,
            reg,
        ) {
            Err(er) => Err(er),
            Ok(new_args) => Ok(ExprV::AggregateFunction { name, args: new_args, return_type }),
        },
        ExprV::Alias(inner, name) => match spec_rewrite_expr(*inner, s, reg) {
            Err(er) => Err(er),
            Ok(x) => Ok(ExprV::Alias(Box::new(x), name)),
        },
        ExprV::Cast { .. } => Ok(e),
        ExprV::Column(_) => Ok(e),
        ExprV::Literal(_) => Ok(e),
        ExprV::Not(_) => Ok(e),
        ExprV::Sort { .. } => Ok(e),
        ExprV::Wildcard => Err(ErrorV::InvalidWildcard),
        ExprV::Nested(inner) => spec_rewrite_expr(*inner, s, reg),
    }
}

/// The coercion of one scalar-function argument against its declared
/// parameter: the argument is rewritten, and when its resolved type differs
/// from the parameter's it is cast to the supertype of the two — which may
/// itself differ from the declared parameter type.
pub open spec fn spec_coerce_arg(arg: ExprV, param: FieldV, s: Seq<FieldV>, reg: Seq<
    ScalarFunctionV,
>) -> Result<ExprV, ErrorV>
    decreases arg, 1int,
{
    match spec_rewrite_expr(arg, s, reg) {
        Err(er) => Err(er),
        Ok(a2) => match spec_type_of(a2, s) {
            Err(er) => Err(er),
            Ok(actual) => if actual == param.data_type {
                Ok(a2)
            } else {
                match spec_supertype(actual, param.data_type) {
                    None => Err(ErrorV::IncompatibleTypes(actual, param.data_type)),
                    Some(st) => spec_cast_to(a2, st, s),
                }
            },
        },
    }
}

/// The positional coercion of a scalar function's arguments; the first
/// failing position decides the error.
pub open spec fn spec_coerce_args(
    args: Seq<ExprV>,
    params: Seq<FieldV>,
    s: Seq<FieldV>,
    reg: Seq<ScalarFunctionV>,
) -> Result<Seq<ExprV>, ErrorV>
    decreases args, 0int,
{
    if args.len() == 0 {
        Ok(Seq::empty())
    } else {
        match spec_coerce_args(args.drop_last(), params, s, reg) {
            Err(er) => Err(er),
            Ok(pre) => match spec_coerce_arg(args.last(), params[args.len() - 1], s, reg) {
                Err(er) => Err(er),
                Ok(x) => Ok(pre.push(x)),
            },
        }
    }
}

/// The rewrite of an expression list, elementwise; the first failing
/// expression decides the error.
pub open spec fn spec_rewrite_list(es: Seq<ExprV>, s: Seq<FieldV>, reg: Seq<ScalarFunctionV>) -> Result<
    Seq<ExprV>,
    ErrorV,
>
    decreases es, 0int,
{
    if es.len() == 0 {
        Ok(Seq::empty())
    } else {
        match spec_rewrite_list(es.drop_last(), s, reg) {
            Err(er) => Err(er),
            Ok(pre) => match spec_rewrite_expr(es.last(), s, reg) {
                Err(er) => Err(er),
                Ok(x) => Ok(pre.push(x)),
            },
        }
    }
}

/// When every expression before position `i` rewrites and the one at `i`
/// fails, the whole list fails with that error.
pub proof fn lemma_rewrite_list_err(
    es: Seq<ExprV>,
    s: Seq<FieldV>,
    reg: Seq<ScalarFunctionV>,
    i: int,
    er: ErrorV,
)
    requires
        0 <= i < es.len(),
        spec_rewrite_list(es.subrange(0, i), s, reg) is Ok,
        spec_rewrite_expr(es[i], s, reg) == Err::<ExprV, ErrorV>(er),
    ensures
        spec_rewrite_list(es, s, reg) == Err::<Seq<ExprV>, ErrorV>(er),
    decreases es.len(),
{
    if i == es.len() - 1 {
        assert(es.drop_last() =~= es.subrange(0, i));
    } else {
        assert(es.drop_last().subrange(0, i) =~= es.subrange(0, i));
        assert(es.drop_last()[i] == es[i]);
        lemma_rewrite_list_err(es.drop_last(), s, reg, i, er);
    }
}

/// When every argument before position `i` coerces and the one at `i`
/// fails, the whole argument list fails with that error.
pub proof fn lemma_coerce_args_err(
    args: Seq<ExprV>,
    params: Seq<FieldV>,
    s: Seq<FieldV>,
    reg: Seq<ScalarFunctionV>,
    i: int,
    er: ErrorV,
)
    requires
        0 <= i < args.len(),
        spec_coerce_args(args.subrange(0, i), params, s, reg) is Ok,
        spec_coerce_arg(args[i], params[i], s, reg) == Err::<ExprV, ErrorV>(er),
    ensures
        spec_coerce_args(args, params, s, reg) == Err::<Seq<ExprV>, ErrorV>(er),
    decreases args.len(),
{
    if i == args.len() - 1 {
        assert(args.drop_last() =~= args.subrange(0, i));
    } else {
        assert(args.drop_last().subrange(0, i) =~= args.subrange(0, i));
        assert(args.drop_last()[i] == args[i]);
        lemma_coerce_args_err(args.drop_last(), params, s, reg, i, er);
    }
}

/// The rewrite of a whole plan, bottom-up: the single child is rewritten
/// first, the node's own expressions are rewritten against the rewritten
/// child's schema, and the node is rebuilt with a recomputed schema.  Leaf
/// nodes pass through unchanged; the explain wrapper re-enters the rule on
/// its wrapped plan, keeping its verbosity flag and snapshots.
pub open spec fn spec_optimize(p: PlanV, reg: Seq<ScalarFunctionV>) -> Result<PlanV, ErrorV>
    decreases p,
{
    match p {
        PlanV::Projection { expr, input, .. } => match spec_optimize(*input, reg) {
            Err(er) => Err(er),
            Ok(in2) => match spec_rewrite_list(expr, spec_schema_of(in2), reg) {
                Err(er) => Err(er),
                Ok(es) => spec_build_projection(in2, es),
            },
        },
        PlanV::Selection { expr, input } => match spec_optimize(*input, reg) {
            Err(er) => Err(er),
            Ok(in2) => match spec_rewrite_expr(expr, spec_schema_of(in2), reg) {
                Err(er) => Err(er),
                Ok(e2) => Ok(PlanV::Selection { expr: e2, input: Box::new(in2) }),
            },
        },
        PlanV::Aggregate { input, group_expr, aggr_expr, .. } => match spec_optimize(*input, reg) {
            Err(er) => Err(er),
            Ok(in2) => match spec_rewrite_list(group_expr, spec_schema_of(in2), reg) {
                Err(er) => Err(er),
                Ok(g2) => match spec_rewrite_list(aggr_expr, spec_schema_of(in2), reg) {
                    Err(er) => Err(er),
                    Ok(a2) => spec_build_aggregate(in2, g2, a2),
                },
            },
        },
        PlanV::Limit { n, input, .. } => match spec_optimize(*input, reg) {
            Err(er) => Err(er),
            Ok(in2) => Ok(PlanV::Limit {
                n,
                input: Box::new(in2),
                schema: spec_schema_of(in2),
            }),
        },
        PlanV::Sort { expr, input, .. } => match spec_optimize(*input, reg) {
            Err(er) => Err(er),
            Ok(in2) => match spec_rewrite_list(expr, spec_schema_of(in2), reg) {
                Err(er) => Err(er),
                Ok(es) => Ok(PlanV::Sort {
                    expr: es,
                    input: Box::new(in2),
                    schema: spec_schema_of(in2),
                }),
            },
        },
        PlanV::TableScan { .. } => Ok(p),
        PlanV::InMemoryScan { .. } => Ok(p),
        PlanV::ParquetScan { .. } => Ok(p),
        PlanV::CsvScan { .. } => Ok(p),
        PlanV::EmptyRelation { .. } => Ok(p),
        PlanV::CreateExternalTable { .. } => Ok(p),
        PlanV::Explain { verbose, plan, stringified_plans, schema } => match spec_optimize(
            *plan,
            reg,
        ) {
            Err(er) => Err(er),
            Ok(p2) => Ok(PlanV::Explain {
                verbose,
                plan: Box::new(p2),
                stringified_plans,
                schema,
            }),
        },
    }
}

/// The type-coercion optimizer rule, carrying the metadata of the
/// registered scalar functions.
pub struct TypeCoercionRule {
    scalar_functions: FunctionRegistry,
}

impl View for TypeCoercionRule {
    type V = Seq<ScalarFunctionV>;

    closed spec fn view(&self) -> Seq<ScalarFunctionV> {
        self.scalar_functions@
    }
}

impl TypeCoercionRule {
    /// Create a new type-coercion rule using metadata about registered
    /// scalar functions.
    pub fn new(scalar_functions: FunctionRegistry) -> (rule: TypeCoercionRule)
        ensures
            rule@ == scalar_functions@,
    {
        TypeCoercionRule { scalar_functions }
    }

    /// Rewrite an expression list to include explicit casts where required.
    pub fn rewrite_expr_list(&self, expr: &Vec<Expr>, schema: &Schema) -> (r: Result<
        Vec<Expr>,
        PlanError,
    >)
        ensures
            match r {
                Ok(v) => spec_rewrite_list(exprs_view(expr@), schema@, self@) == Ok::<
                    Seq<ExprV>,
                    ErrorV,
                >(exprs_view(v@)),
                Err(er) => spec_rewrite_list(exprs_view(expr@), schema@, self@) == Err::<
                    Seq<ExprV>,
                    ErrorV,
                >(er@),
            },
        decreases expr@, 0int,
    {
        let ghost evs: Seq<ExprV> = exprs_view(expr@);
        proof {
            lemma_exprs_view_len(expr@);
            assert(evs.subrange(0, 0) =~= Seq::<ExprV>::empty());
        }
        let mut out: Vec<Expr> = Vec::new();
        let mut i: usize = 0;
        while i < expr.len()
            invariant
                i <= expr.len(),
                evs == exprs_view(expr@),
                evs.len() == expr@.len(),
                spec_rewrite_list(evs.subrange(0, i as int), schema@, self@) == Ok::<
                    Seq<ExprV>,
                    ErrorV,
                >(exprs_view(out@)),
            decreases expr@.len() - i,
        {
            proof {
                lemma_exprs_view_index(expr@, i as int);
                assert(decreases_to!(expr@ => expr@[i as int]));
            }
            match self.rewrite_expr(&expr[i], schema) {
                Ok(e2) => {
                    let ghost prev: Seq<Expr> = out@;
                    let ghost e2g: Expr = e2;
                    out.push(e2);
                    proof {
                        crate::expr::lemma_exprs_view_push(prev, e2g);
                        assert(evs.subrange(0, i as int + 1).drop_last() =~= evs.subrange(
                            0,
                            i as int,
                        ));
                        assert(evs.subrange(0, i as int + 1).last() == evs[i as int]);
                    }
                },
                Err(er) => {
                    proof {
                        lemma_rewrite_list_err(evs, schema@, self@, i as int, er@);
                    }
                    return Err(er);
                },
            }
            i = i + 1;
        }
        proof {
            assert(evs.subrange(0, evs.len() as int) =~= evs);
        }
        Ok(out)
    }

    /// Rewrite an expression to include explicit casts where required.
    pub fn rewrite_expr(&self, expr: &Expr, schema: &Schema) -> (r: Result<Expr, PlanError>)
        ensures
            res_expr_view(r) == spec_rewrite_expr(expr@, schema@, self@),
        decreases *expr, 0int,
    {
        match expr {
            Expr::BinaryExpr { left, op, right } => {
                let l2 = match self.rewrite_expr(left, schema) {
                    Ok(x) => x,
                    Err(er) => {
                        return Err(er);
                    },
                };
                let r2 = match self.rewrite_expr(right, schema) {
                    Ok(x) => x,
                    Err(er) => {
                        return Err(er);
                    },
                };
                let lt = match l2.get_type(schema) {
                    Ok(t) => t,
                    Err(er) => {
                        return Err(er);
                    },
                };
                let rt = match r2.get_type(schema) {
                    Ok(t) => t,
                    Err(er) => {
                        return Err(er);
                    },
                };
                if lt == rt {
                    Ok(Expr::BinaryExpr { left: Box::new(l2), op: *op, right: Box::new(r2) })
                } else {
                    let st = match crate::supertype::get_supertype(&lt, &rt) {
                        Ok(t) => t,
                        Err(er) => {
                            return Err(er);
                        },
                    };
                    let lc = match l2.cast_to(&st, schema) {
                        Ok(x) => x,
                        Err(er) => {
                            return Err(er);
                        },
                    };
                    let rc = match r2.cast_to(&st, schema) {
                        Ok(x) => x,
                        Err(er) => {
                            return Err(er);
                        },
                    };
                    Ok(Expr::BinaryExpr { left: Box::new(lc), op: *op, right: Box::new(rc) })
                }
            },
            Expr::IsNull(inner) => match self.rewrite_expr(inner, schema) {
                Ok(x) => Ok(Expr::IsNull(Box::new(x))),
                Err(er) => Err(er),
            },
            Expr::IsNotNull(inner) => match self.rewrite_expr(inner, schema) {
                Ok(x) => Ok(Expr::IsNotNull(Box::new(x))),
                Err(er) => Err(er),
            },
            Expr::ScalarFunction { name, args, return_type } => {
                let func_meta = match self.scalar_functions.lookup(name) {
                    Some(m) => m,
                    None => {
                        return Err(PlanError::UnknownFunction(name.clone()));
                    },
                };
                proof {
                    lemma_exprs_view_len(args@);
                }
                if args.len() > func_meta.args.len() {
                    return Err(PlanError::SignatureMismatch(name.clone()));
                }
                let ghost avs: Seq<ExprV> = exprs_view(args@);
                let ghost params: Seq<FieldV> = func_meta@.args;
                proof {
                    assert(avs.subrange(0, 0) =~= Seq::<ExprV>::empty());
                }
                let mut func_args: Vec<Expr> = Vec::new();
                let mut i: usize = 0;
                while i < args.len()
                    invariant
                        i <= args.len(),
                        args@.len() <= func_meta.args@.len(),
                        avs == exprs_view(args@),
                        avs.len() == args@.len(),
                        params == func_meta@.args,
                        params.len() == func_meta.args@.len(),
                        decreases_to!(*expr => args@),
                        spec_lookup_function(self@, name@) == Some(func_meta@),
                        expr@ == (ExprV::ScalarFunction {
                            name: name@,
                            args: avs,
                            return_type: *return_type,
                        }),
                        spec_coerce_args(avs.subrange(0, i as int), params, schema@, self@) == Ok::<
                            Seq<ExprV>,
                            ErrorV,
                        >(exprs_view(func_args@)),
                    decreases args@.len() - i,
                {
                    proof {
                        lemma_exprs_view_index(args@, i as int);
                        assert(decreases_to!(args@ => args@[i as int]));
                        assert(params[i as int] == func_meta.args@[i as int]@);
                    }
                    match self.coerce_arg(&args[i], &func_meta.args[i], schema) {
                        Ok(e2) => {
                            let ghost prev: Seq<Expr> = func_args@;
                            let ghost e2g: Expr = e2;
                            func_args.push(e2);
                            proof {
                                crate::expr::lemma_exprs_view_push(prev, e2g);
                                assert(avs.subrange(0, i as int + 1).drop_last() =~= avs.subrange(
                                    0,
                                    i as int,
                                ));
                                assert(avs.subrange(0, i as int + 1).last() == avs[i as int]);
                            }
                        },
                        Err(er) => {
                            proof {
                                lemma_coerce_args_err(avs, params, schema@, self@, i as int, er@);
                            }
                            return Err(er);
                        },
                    }
                    i = i + 1;
                }
                proof {
                    assert(avs.subrange(0, avs.len() as int) =~= avs);
                }
                Ok(Expr::ScalarFunction {
                    name: name.clone(),
                    args: func_args,
                    return_type: *return_type,
                })
            },
            Expr::AggregateFunction { name, args, return_type } => {
                match self.rewrite_list_inner(args, schema) {
                    Ok(new_args) => Ok(Expr::AggregateFunction {
                        name: name.clone(),
                        args: new_args,
                        return_type: *return_type,
                    }),
                    Err(er) => Err(er),
                }
            },
            Expr::Alias(inner, name) => match self.rewrite_expr(inner, schema) {
                Ok(x) => Ok(Expr::Alias(Box::new(x), name.clone())),
                Err(er) => Err(er),
            },
            Expr::Cast { .. } => Ok(expr.duplicate()),
            Expr::Column(_) => Ok(expr.duplicate()),
            Expr::Literal(_) => Ok(expr.duplicate()),
            Expr::Not(_) => Ok(expr.duplicate()),
            Expr::Sort { .. } => Ok(expr.duplicate()),
            Expr::Wildcard => Err(PlanError::InvalidWildcard),
            Expr::Nested(inner) => self.rewrite_expr(inner, schema),
        }
    }

    /// Rewrite an expression list from inside the expression recursion.
    fn rewrite_list_inner(&self, expr: &Vec<Expr>, schema: &Schema) -> (r: Result<
        Vec<Expr>,
        PlanError,
    >)
        ensures
            match r {
                Ok(v) => spec_rewrite_list(exprs_view(expr@), schema@, self@) == Ok::<
                    Seq<ExprV>,
                    ErrorV,
                >(exprs_view(v@)),
                Err(er) => spec_rewrite_list(exprs_view(expr@), schema@, self@) == Err::<
                    Seq<ExprV>,
                    ErrorV,
                >(er@),
            },
        decreases expr@, 1int,
    {
        self.rewrite_expr_list(expr, schema)
    }

    /// Coerce one scalar-function argument against its declared parameter.
    fn coerce_arg(&self, arg: &Expr, param: &Field, schema: &Schema) -> (r: Result<
        Expr,
        PlanError,
    >)
        ensures
            res_expr_view(r) == spec_coerce_arg(arg@, param@, schema@, self@),
        decreases *arg, 1int,
    {
        let a2 = match self.rewrite_expr(arg, schema) {
            Ok(x) => x,
            Err(er) => {
                return Err(er);
            },
        };
        let actual = match a2.get_type(schema) {
            Ok(t) => t,
            Err(er) => {
                return Err(er);
            },
        };
        let required = param.data_type();
        if actual == required {
            Ok(a2)
        } else {
            let st = match crate::supertype::get_supertype(&actual, &required) {
                Ok(t) => t,
                Err(er) => {
                    return Err(er);
                },
            };
            a2.cast_to(&st, schema)
        }
    }

    /// Rewrite a whole plan bottom-up, rebuilding every expression-bearing
    /// node over its rewritten child.
    pub fn optimize(&mut self, plan: &LogicalPlan) -> (r: Result<LogicalPlan, PlanError>)
        ensures
            res_plan_view(r) == spec_optimize(plan@, old(self)@),
            final(self)@ == old(self)@,
        decreases *plan,
    {
        match plan {
            LogicalPlan::Projection { expr, input, .. } => {
                let in2 = match self.optimize(input) {
                    Ok(p) => p,
                    Err(er) => {
                        return Err(er);
                    },
                };
                let es = match self.rewrite_expr_list(expr, in2.schema()) {
                    Ok(v) => v,
                    Err(er) => {
                        return Err(er);
                    },
                };
                match LogicalPlanBuilder::from(&in2).project(es) {
                    Ok(b) => b.build(),
                    Err(er) => Err(er),
                }
            },
            LogicalPlan::Selection { expr, input } => {
                let in2 = match self.optimize(input) {
                    Ok(p) => p,
                    Err(er) => {
                        return Err(er);
                    },
                };
                let e2 = match self.rewrite_expr(expr, in2.schema()) {
                    Ok(e) => e,
                    Err(er) => {
                        return Err(er);
                    },
                };
                match LogicalPlanBuilder::from(&in2).filter(e2) {
                    Ok(b) => b.build(),
                    Err(er) => Err(er),
                }
            },
            LogicalPlan::Aggregate { input, group_expr, aggr_expr, .. } => {
                let in2 = match self.optimize(input) {
                    Ok(p) => p,
                    Err(er) => {
                        return Err(er);
                    },
                };
                let g2 = match self.rewrite_expr_list(group_expr, in2.schema()) {
                    Ok(v) => v,
                    Err(er) => {
                        return Err(er);
                    },
                };
                let a2 = match self.rewrite_expr_list(aggr_expr, in2.schema()) {
                    Ok(v) => v,
                    Err(er) => {
                        return Err(er);
                    },
                };
                match LogicalPlanBuilder::from(&in2).aggregate(g2, a2) {
                    Ok(b) => b.build(),
                    Err(er) => Err(er),
                }
            },
            LogicalPlan::Limit { n, input, .. } => {
                let in2 = match self.optimize(input) {
                    Ok(p) => p,
                    Err(er) => {
                        return Err(er);
                    },
                };
                match LogicalPlanBuilder::from(&in2).limit(*n) {
                    Ok(b) => b.build(),
                    Err(er) => Err(er),
                }
            },
            LogicalPlan::Sort { expr, input, .. } => {
                let in2 = match self.optimize(input) {
                    Ok(p) => p,
                    Err(er) => {
                        return Err(er);
                    },
                };
                let es = match self.rewrite_expr_list(expr, in2.schema()) {
                    Ok(v) => v,
                    Err(er) => {
                        return Err(er);
                    },
                };
                match LogicalPlanBuilder::from(&in2).sort(es) {
                    Ok(b) => b.build(),
                    Err(er) => Err(er),
                }
            },
            LogicalPlan::TableScan { .. } => Ok(plan.duplicate()),
            LogicalPlan::InMemoryScan { .. } => Ok(plan.duplicate()),
            LogicalPlan::ParquetScan { .. } => Ok(plan.duplicate()),
            LogicalPlan::CsvScan { .. } => Ok(plan.duplicate()),
            LogicalPlan::EmptyRelation { .. } => Ok(plan.duplicate()),
            LogicalPlan::CreateExternalTable { .. } => Ok(plan.duplicate()),
            LogicalPlan::Explain { verbose, plan: inner, stringified_plans, schema } => {
                let p2 = match self.optimize(inner) {
                    Ok(p) => p,
                    Err(er) => {
                        return Err(er);
                    },
                };
                Ok(LogicalPlan::Explain {
                    verbose: *verbose,
                    plan: Box::new(p2),
                    stringified_plans: duplicate_stringified(stringified_plans),
                    schema: schema.duplicate(),
                })
            },
        }
    }

    /// The stable identifier of the rule.
    pub fn name(&self) -> (r: &'static str)
        ensures
            r@ == "type_coercion"@,
    {
        "type_coercion"
    }
}

/// The contract an optimizer pass exposes to a rule pipeline: a stable name
/// and a plan-to-plan transformation.
pub trait OptimizerRule {
    /// Transform a plan into an equivalent plan, or fail.
    fn optimize(&mut self, plan: &LogicalPlan) -> Result<LogicalPlan, PlanError>;

    /// The stable identifier of the rule, for logs and diagnostics.
    fn name(&self) -> &'static str;
}

impl OptimizerRule for TypeCoercionRule {
    fn optimize(&mut self, plan: &LogicalPlan) -> Result<LogicalPlan, PlanError> {
        TypeCoercionRule::optimize(self, plan)
    }

    fn name(&self) -> &'static str {
        TypeCoercionRule::name(self)
    }
}

} // verus!
