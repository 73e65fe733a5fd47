//! The plan builder: validated bottom-up construction of plan nodes.
//!
//! The builder recomputes the output schema of every node it builds from the
//! node's own expressions and its input's schema — schemas are derived, never
//! hand-set.  It rejects a projection or aggregation whose output would carry
//! two fields of one name.

use vstd::prelude::*;
use vstd::string::*;

use crate::datatypes::{Field, FieldV, fields_view, Schema, spec_lookup_field};
use crate::display::render_expr;
use crate::error::{ErrorV, PlanError};
use crate::expr::{
    Expr, ExprV, exprs_view, duplicate_exprs, lemma_exprs_view_index, lemma_exprs_view_len,
    res_type_view, spec_type_of,
};
use crate::plan::{LogicalPlan, PlanV, spec_schema_of};

verus! {

/// The output-field name an expression produces: a column keeps its name, an
/// alias renames, a function call is named by the function, and wrappers are
/// named by what they wrap; any other expression is named by its rendering.
pub open spec fn spec_name_of(e: ExprV) -> Seq<char>
    decreases e,
{
    match e {
        ExprV::Column(name) => name,
        ExprV::Alias(_, name) => name,
        ExprV::ScalarFunction { name, .. } => name,
        ExprV::AggregateFunction { name, .. } => name,
        ExprV::Cast { expr, .. } => spec_name_of(*expr),
        ExprV::Sort { expr, .. } => spec_name_of(*expr),
        ExprV::Nested(inner) => spec_name_of(*inner),
        _ => render_expr(e),
    }
}

/// The output field an expression produces under a schema: a column clones
/// its schema field; any other expression pairs its name with its resolved
/// type and is nullable.  A wildcard produces no field.
pub open spec fn spec_expr_to_field(e: ExprV, s: Seq<FieldV>) -> Result<FieldV, ErrorV> {
    match e {
        ExprV::Column(name) => match spec_lookup_field(s, name) {
            Some(f) => Ok(f),
            None => Err(ErrorV::UnresolvedColumn(name)),
        },
        ExprV::Wildcard => Err(ErrorV::InvalidWildcard),
        _ => match spec_type_of(e, s) {
            Err(er) => Err(er),
            Ok(t) => Ok(FieldV { name: spec_name_of(e), data_type: t, nullable: true }),
        },
    }
}

/// The output fields of an expression list, in order; the first failing
/// expression decides the error.
pub open spec fn spec_exprs_to_fields(es: Seq<ExprV>, s: Seq<FieldV>) -> Result<
    Seq<FieldV>,
    ErrorV,
>
    decreases es.len(),
{
    if es.len() == 0 {
        Ok(Seq::empty())
    } else {
        match spec_exprs_to_fields(es.drop_last(), s) {
            Err(er) => Err(er),
            Ok(fs) => match spec_expr_to_field(es.last(), s) {
                Err(er) => Err(er),
                Ok(f) => Ok(fs.push(f)),
            },
        }
    }
}

/// When every expression before position `i` yields a field and the one at
/// `i` fails, the whole list fails with that error.
pub proof fn lemma_exprs_to_fields_err(es: Seq<ExprV>, s: Seq<FieldV>, i: int, er: ErrorV)
    requires
        0 <= i < es.len(),
        spec_exprs_to_fields(es.subrange(0, i), s) is Ok,
        spec_expr_to_field(es[i], s) == Err::<FieldV, ErrorV>(er),
    ensures
        spec_exprs_to_fields(es, s) == Err::<Seq<FieldV>, ErrorV>(er),
    decreases es.len(),
{
    if i == es.len() - 1 {
        assert(es.drop_last() =~= es.subrange(0, i));
        assert(es.last() == es[i]);
    } else {
        assert(es.drop_last().subrange(0, i) =~= es.subrange(0, i));
        assert(es.drop_last()[i] == es[i]);
        lemma_exprs_to_fields_err(es.drop_last(), s, i, er);
    }
}

/// Whether the name of `fs[i]` already occurs before position `i`.
pub open spec fn name_seen(fs: Seq<FieldV>, i: int) -> bool {
    exists|j: int| 0 <= j < i && fs[j].name == fs[i].name
}

/// The name of the first field that repeats an earlier field's name,
/// scanning from position `i`; `None` when all names from `i` on are new.
pub open spec fn spec_first_duplicate_from(fs: Seq<FieldV>, i: int) -> Option<Seq<char>>
    decreases fs.len() - i,
{
    if i >= fs.len() {
        None
    } else if name_seen(fs, i) {
        Some(fs[i].name)
    } else {
        spec_first_duplicate_from(fs, i + 1)
    }
}

/// The name of the first field that repeats an earlier field's name.
pub open spec fn spec_first_duplicate(fs: Seq<FieldV>) -> Option<Seq<char>> {
    spec_first_duplicate_from(fs, 0)
}

/// A projection node over `input`: its schema is derived from the
/// expression list, which must yield uniquely named fields.
pub open spec fn spec_build_projection(input: PlanV, es: Seq<ExprV>) -> Result<PlanV, ErrorV> {
    match spec_exprs_to_fields(es, spec_schema_of(input)) {
        Err(er) => Err(er),
        Ok(fs) => match spec_first_duplicate(fs) {
            Some(name) => Err(ErrorV::DuplicateField(name)),
            None => Ok(PlanV::Projection { expr: es, input: Box::new(input), schema: fs }),
        },
    }
}

/// An aggregate node over `input`: its schema is derived from the group-by
/// fields followed by the aggregate fields, which together must be uniquely
/// named.
pub open spec fn spec_build_aggregate(input: PlanV, group: Seq<ExprV>, aggr: Seq<ExprV>) -> Result<
    PlanV,
    ErrorV,
> {
    match spec_exprs_to_fields(group + aggr, spec_schema_of(input)) {
        Err(er) => Err(er),
        Ok(fs) => match spec_first_duplicate(fs) {
            Some(name) => Err(ErrorV::DuplicateField(name)),
            None => Ok(PlanV::Aggregate {
                input: Box::new(input),
                group_expr: group,
                aggr_expr: aggr,
                schema: fs,
            }),
        },
    }
}

/// The output-field name an expression produces.
pub fn name_of(e: &Expr) -> (r: String)
    ensures
        r@ == spec_name_of(e@),
    decreases *e,
{
    match e {
        Expr::Column(name) => name.clone(),
        Expr::Alias(_, name) => name.clone(),
        Expr::ScalarFunction { name, .. } => name.clone(),
        Expr::AggregateFunction { name, .. } => name.clone(),
        Expr::Cast { expr, .. } => name_of(expr),
        Expr::Sort { expr, .. } => name_of(expr),
        Expr::Nested(inner) => name_of(inner),
        _ => e.to_string(),
    }
}

/// The output field an expression produces under `schema`.
pub fn expr_to_field(e: &Expr, schema: &Schema) -> (r: Result<Field, PlanError>)
    ensures
        match r {
            Ok(f) => spec_expr_to_field(e@, schema@) == Ok::<FieldV, ErrorV>(f@),
            Err(er) => spec_expr_to_field(e@, schema@) == Err::<FieldV, ErrorV>(er@),
        },
{
    match e {
        Expr::Column(name) => match schema.field_with_name(name) {
            Ok(f) => Ok(f.duplicate()),
            Err(er) => Err(er),
        },
        Expr::Wildcard => Err(PlanError::InvalidWildcard),
        _ => match e.get_type(schema) {
            Err(er) => Err(er),
            Ok(t) => Ok(Field { name: name_of(e), data_type: t, nullable: true }),
        },
    }
}

/// The output fields of an expression list under `schema`, in order.
pub fn exprs_to_fields(es: &Vec<Expr>, schema: &Schema) -> (r: Result<Vec<Field>, PlanError>)
    ensures
        match r {
            Ok(fs) => spec_exprs_to_fields(exprs_view(es@), schema@) == Ok::<Seq<FieldV>, ErrorV>(
                fields_view(fs@),
            ),
            Err(er) => spec_exprs_to_fields(exprs_view(es@), schema@) == Err::<
                Seq<FieldV>,
                ErrorV,
            >(er@),
        },
{
    let ghost evs: Seq<ExprV> = exprs_view(es@);
    proof {
        lemma_exprs_view_len(es@);
    }
    let mut out: Vec<Field> = Vec::new();
    proof {
        assert(evs.subrange(0, 0) =~= Seq::<ExprV>::empty());
        assert(fields_view(out@) =~= Seq::<FieldV>::empty());
    }
    let mut i: usize = 0;
    while i < es.len()
        invariant
            i <= es.len(),
            evs == exprs_view(es@),
            evs.len() == es@.len(),
            spec_exprs_to_fields(evs.subrange(0, i as int), schema@) == Ok::<Seq<FieldV>, ErrorV>(
                fields_view(out@),
            ),
        decreases es.len() - i,
    {
        proof {
            lemma_exprs_view_index(es@, i as int);
        }
        match expr_to_field(&es[i], schema) {
            Ok(f) => {
                let ghost fv: FieldV = f@;
                let ghost pre_fields: Seq<FieldV> = fields_view(out@);
                out.push(f);
                proof {
                    assert(evs.subrange(0, i as int + 1).drop_last() =~= evs.subrange(0, i as int));
                    assert(evs.subrange(0, i as int + 1).last() == evs[i as int]);
                    assert(fields_view(out@) =~= pre_fields.push(fv));
                }
            },
            Err(er) => {
                proof {
                    lemma_exprs_to_fields_err(evs, schema@, i as int, er@);
                }
                return Err(er);
            },
        }
        i = i + 1;
    }
    proof {
        assert(evs.subrange(0, evs.len() as int) =~= evs);
    }
    Ok(out)
}

/// The name of the first field that repeats an earlier field's name.
pub fn first_duplicate(fields: &Vec<Field>) -> (r: Option<String>)
    ensures
        match r {
            Some(name) => spec_first_duplicate(fields_view(fields@)) == Some(name@),
            None => spec_first_duplicate(fields_view(fields@)) is None,
        },
{
    let ghost fs: Seq<FieldV> = fields_view(fields@);
    let mut i: usize = 0;
    while i < fields.len()
        invariant
            i <= fields.len(),
            fs == fields_view(fields@),
            spec_first_duplicate(fs) == spec_first_duplicate_from(fs, i as int),
        decreases fields.len() - i,
    {
        let mut j: usize = 0;
        while j < i
            invariant
                j <= i < fields.len(),
                fs == fields_view(fields@),
                spec_first_duplicate(fs) == spec_first_duplicate_from(fs, i as int),
                forall|k: int| 0 <= k < j ==> fs[k].name != fs[i as int].name,
            decreases i - j,
        {
            if fields[j].name.eq(&fields[i].name) {
                proof {
                    assert(fs.len() == fields@.len());
                    assert(fs[j as int] == fields@[j as int]@);
                    assert(fs[i as int] == fields@[i as int]@);
                    assert(name_seen(fs, i as int));
                    assert(spec_first_duplicate_from(fs, i as int) == Some(fs[i as int].name));
                }
                return Some(fields[i].name.clone());
            }
            j = j + 1;
        }
        proof {
            assert(!name_seen(fs, i as int));
        }
        i = i + 1;
    }
    None
}

/// Builds validated plan nodes bottom-up, recomputing each node's schema.
pub struct LogicalPlanBuilder {
    plan: LogicalPlan,
}

impl View for LogicalPlanBuilder {
    type V = PlanV;

    closed spec fn view(&self) -> PlanV {
        self.plan@
    }
}

impl LogicalPlanBuilder {
    /// Start from an existing plan.
    pub fn from(plan: &LogicalPlan) -> (b: LogicalPlanBuilder)
        ensures
            b@ == plan@,
    {
        LogicalPlanBuilder { plan: plan.duplicate() }
    }

    /// Start from a CSV file scan with a known schema.
    pub fn scan_csv(path: &str, schema: Schema, has_header: bool) -> (b: LogicalPlanBuilder)
        ensures
            b@ == (PlanV::CsvScan { path: path@, schema: schema@, has_header }),
    {
        LogicalPlanBuilder {
            plan: LogicalPlan::CsvScan { path: String::from_str(path), schema, has_header },
        }
    }

    /// Start from an empty relation with a known schema.
    pub fn empty(schema: Schema) -> (b: LogicalPlanBuilder)
        ensures
            b@ == (PlanV::EmptyRelation { schema: schema@ }),
    {
        LogicalPlanBuilder { plan: LogicalPlan::EmptyRelation { schema } }
    }

    /// Build a projection of `expr` over the current plan; fails when a
    /// field cannot be derived or two derived fields share a name.
    pub fn project(&self, expr: Vec<Expr>) -> (r: Result<LogicalPlanBuilder, PlanError>)
        ensures
            match r {
                Ok(b) => spec_build_projection(self@, exprs_view(expr@)) == Ok::<PlanV, ErrorV>(b@),
                Err(er) => spec_build_projection(self@, exprs_view(expr@)) == Err::<PlanV, ErrorV>(
                    er@,
                ),
            },
    {
        let input_schema = self.plan.schema();
        let fields = match exprs_to_fields(&expr, input_schema) {
            Ok(fs) => fs,
            Err(er) => {
                return Err(er);
            },
        };
        match first_duplicate(&fields) {
            Some(name) => Err(PlanError::DuplicateField(name)),
            None => Ok(LogicalPlanBuilder {
                plan: LogicalPlan::Projection {
                    expr,
                    input: Box::new(self.plan.duplicate()),
                    schema: Schema::new(fields),
                },
            }),
        }
    }

    /// Build a selection filtering the current plan by `expr`; the node
    /// shares its child's schema.
    pub fn filter(&self, expr: Expr) -> (r: Result<LogicalPlanBuilder, PlanError>)
        ensures
            match r {
                Ok(b) => b@ == (PlanV::Selection { expr: expr@, input: Box::new(self@) }),
                Err(_) => false,
            },
    {
        Ok(LogicalPlanBuilder {
            plan: LogicalPlan::Selection { expr, input: Box::new(self.plan.duplicate()) },
        })
    }

    /// Build an aggregation of the current plan; its schema is the group-by
    /// fields followed by the aggregate fields, all uniquely named.
    pub fn aggregate(&self, group_expr: Vec<Expr>, aggr_expr: Vec<Expr>) -> (r: Result<
        LogicalPlanBuilder,
        PlanError,
    >)
        ensures
            match r {
                Ok(b) => spec_build_aggregate(
                    self@,
                    exprs_view(group_expr@),
                    exprs_view(aggr_expr@),
                ) == Ok::<PlanV, ErrorV>(b@),
                Err(er) => spec_build_aggregate(
                    self@,
                    exprs_view(group_expr@),
                    exprs_view(aggr_expr@),
                ) == Err::<PlanV, ErrorV>(er@),
            },
    {
        let ghost gv: Seq<ExprV> = exprs_view(group_expr@);
        let ghost av: Seq<ExprV> = exprs_view(aggr_expr@);
        let mut all_expr = duplicate_exprs(&group_expr);
        let mut aggr_copy = duplicate_exprs(&aggr_expr);
        let ghost dgv: Seq<Expr> = all_expr@;
        let ghost dav: Seq<Expr> = aggr_copy@;
        all_expr.append(&mut aggr_copy);
        proof {
            assert(all_expr@ == dgv + dav);
            lemma_exprs_view_len(group_expr@);
            lemma_exprs_view_len(aggr_expr@);
            lemma_exprs_view_len(dgv);
            lemma_exprs_view_len(dav);
            lemma_exprs_view_len(all_expr@);
            assert forall|k: int| 0 <= k < all_expr@.len() implies exprs_view(all_expr@)[k] == (gv
                + av)[k] by {
                lemma_exprs_view_index(all_expr@, k);
                if k < dgv.len() {
                    assert(all_expr@[k] == dgv[k]);
                    lemma_exprs_view_index(dgv, k);
                } else {
                    assert(all_expr@[k] == dav[k - dgv.len() as int]);
                    lemma_exprs_view_index(dav, k - dgv.len() as int);
                }
            }
            assert(exprs_view(all_expr@) =~= gv + av);
        }
        let input_schema = self.plan.schema();
        let fields = match exprs_to_fields(&all_expr, input_schema) {
            Ok(fs) => fs,
            Err(er) => {
                return Err(er);
            },
        };
        match first_duplicate(&fields) {
            Some(name) => Err(PlanError::DuplicateField(name)),
            None => Ok(LogicalPlanBuilder {
                plan: LogicalPlan::Aggregate {
                    input: Box::new(self.plan.duplicate()),
                    group_expr,
                    aggr_expr,
                    schema: Schema::new(fields),
                },
            }),
        }
    }

    /// Build a limit of `n` rows over the current plan; the node shares its
    /// child's schema.
    pub fn limit(&self, n: usize) -> (r: Result<LogicalPlanBuilder, PlanError>)
        ensures
            match r {
                Ok(b) => b@ == (PlanV::Limit {
                    n,
                    input: Box::new(self@),
                    schema: spec_schema_of(self@),
                }),
                Err(_) => false,
            },
    {
        let schema = self.plan.schema().duplicate();
        Ok(LogicalPlanBuilder {
            plan: LogicalPlan::Limit { n, input: Box::new(self.plan.duplicate()), schema },
        })
    }

    /// Build a sort of the current plan by `expr`; the node shares its
    /// child's schema.
    pub fn sort(&self, expr: Vec<Expr>) -> (r: Result<LogicalPlanBuilder, PlanError>)
        ensures
            match r {
                Ok(b) => b@ == (PlanV::Sort {
                    expr: exprs_view(expr@),
                    input: Box::new(self@),
                    schema: spec_schema_of(self@),
                }),
                Err(_) => false,
            },
    {
        let schema = self.plan.schema().duplicate();
        Ok(LogicalPlanBuilder {
            plan: LogicalPlan::Sort { expr, input: Box::new(self.plan.duplicate()), schema },
        })
    }

    /// The built plan.
    pub fn build(&self) -> (r: Result<LogicalPlan, PlanError>)
        ensures
            match r {
                Ok(p) => p@ == self@,
                Err(_) => false,
            },
    {
        Ok(self.plan.duplicate())
    }
}

} // verus!
