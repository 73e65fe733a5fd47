//! The logical plan grammar.
//!
//! [`LogicalPlan`] is a closed recursive variant set: nodes with a single
//! child (projection, selection, aggregate, limit, sort), leaf nodes (the
//! scans, the empty relation and the external-table definition) and the
//! pass-through explain wrapper.  Each node owns its child exclusively and
//! carries its derived output schema; a selection shares the schema of its
//! child.  The mathematical model is [`PlanV`].

use vstd::prelude::*;
use vstd::string::*;

use crate::datatypes::{FieldV, Schema};
use crate::error::{ErrorV, PlanError};
use crate::expr::{duplicate_exprs, Expr, ExprV, exprs_view};

verus! {

/// The file format of an external table definition.
#[derive(Clone, Copy, Debug, PartialEq, Eq, Structural)]
pub enum FileType {
    NdJson,
    Parquet,
    Csv,
}

/// A rendered snapshot of a plan, kept by the explain wrapper.
#[derive(Debug)]
pub struct StringifiedPlan {
    /// Which stage of planning produced the snapshot.
    pub plan_type: String,
    /// The rendered plan itself.
    pub plan: String,
}

/// Mathematical model of a [`StringifiedPlan`].
#[verifier::ext_equal]
pub ghost struct StringifiedPlanV {
    pub plan_type: Seq<char>,
    pub plan: Seq<char>,
}

impl View for StringifiedPlan {
    type V = StringifiedPlanV;

    open spec fn view(&self) -> StringifiedPlanV {
        StringifiedPlanV { plan_type: self.plan_type@, plan: self.plan@ }
    }
}

impl StringifiedPlan {
    /// Build a snapshot from its two rendered parts.
    pub fn new(plan_type: &str, plan: &str) -> (r: StringifiedPlan)
        ensures
            r@ == (StringifiedPlanV { plan_type: plan_type@, plan: plan@ }),
    {
        StringifiedPlan { plan_type: String::from_str(plan_type), plan: String::from_str(plan) }
    }

    /// An owned copy of the snapshot.
    pub fn duplicate(&self) -> (r: StringifiedPlan)
        ensures
            r@ == self@,
    {
        StringifiedPlan { plan_type: self.plan_type.clone(), plan: self.plan.clone() }
    }
}

impl Clone for StringifiedPlan {
    fn clone(&self) -> (r: StringifiedPlan)
        ensures
            r@ == self@,
    {
        self.duplicate()
    }
}

/// The model of a list of snapshots, elementwise.
pub open spec fn stringified_view(ps: Seq<StringifiedPlan>) -> Seq<StringifiedPlanV> {
    ps.map_values(|p: StringifiedPlan| p@)
}

/// An owned copy of a list of snapshots.
pub fn duplicate_stringified(ps: &Vec<StringifiedPlan>) -> (r: Vec<StringifiedPlan>)
    ensures
        stringified_view(r@) == stringified_view(ps@),
{
    let mut out: Vec<StringifiedPlan> = Vec::new();
    let mut i: usize = 0;
    while i < ps.len()
        invariant
            i <= ps.len(),
            out@.len() == i,
            forall|j: int| 0 <= j < i ==> out@[j]@ == ps@[j]@,
        decreases ps.len() - i,
    {
        out.push(ps[i].duplicate());
        i = i + 1;
    }
    proof {
        assert(stringified_view(out@) =~= stringified_view(ps@));
    }
    out
}

/// A logical query plan: a closed recursive variant set.
#[derive(Debug)]
#[allow(inconsistent_fields)]
pub enum LogicalPlan {
    /// Evaluates an expression list over its child's rows.
    Projection { expr: Vec<Expr>, input: Box<LogicalPlan>, schema: Schema },
    /// Filters its child's rows by a predicate; shares the child's schema.
    Selection { expr: Expr, input: Box<LogicalPlan> },
    /// Groups its child's rows and evaluates aggregate expressions.
    Aggregate { input: Box<LogicalPlan>, group_expr: Vec<Expr>, aggr_expr: Vec<Expr>, schema: Schema },
    /// Passes through at most `n` rows of its child.
    Limit { n: usize, input: Box<LogicalPlan>, schema: Schema },
    /// Orders its child's rows by a sort expression list.
    Sort { expr: Vec<Expr>, input: Box<LogicalPlan>, schema: Schema },
    /// Scans a named table of a catalog.
    TableScan { schema_name: String, table_name: String, table_schema: Schema },
    /// Scans rows already held in memory.
    InMemoryScan { schema: Schema },
    /// Scans a Parquet file.
    ParquetScan { path: String, schema: Schema },
    /// Scans a CSV file.
    CsvScan { path: String, schema: Schema, has_header: bool },
    /// Produces no rows.
    EmptyRelation { schema: Schema },
    /// Defines an external table; produces no rows itself.
    CreateExternalTable {
        schema: Schema,
        name: String,
        location: String,
        file_type: FileType,
        has_header: bool,
    },
    /// Carries a child plan and rendered snapshots for diagnostics.
    Explain {
        verbose: bool,
        plan: Box<LogicalPlan>,
        stringified_plans: Vec<StringifiedPlan>,
        schema: Schema,
    },
}

/// Mathematical model of a [`LogicalPlan`].
#[verifier::ext_equal]
#[allow(inconsistent_fields)]
pub ghost enum PlanV {
    Projection { expr: Seq<ExprV>, input: Box<PlanV>, schema: Seq<FieldV> },
    Selection { expr: ExprV, input: Box<PlanV> },
    Aggregate { input: Box<PlanV>, group_expr: Seq<ExprV>, aggr_expr: Seq<ExprV>, schema: Seq<FieldV> },
    Limit { n: usize, input: Box<PlanV>, schema: Seq<FieldV> },
    Sort { expr: Seq<ExprV>, input: Box<PlanV>, schema: Seq<FieldV> },
    TableScan { schema_name: Seq<char>, table_name: Seq<char>, table_schema: Seq<FieldV> },
    InMemoryScan { schema: Seq<FieldV> },
    ParquetScan { path: Seq<char>, schema: Seq<FieldV> },
    CsvScan { path: Seq<char>, schema: Seq<FieldV>, has_header: bool },
    EmptyRelation { schema: Seq<FieldV> },
    CreateExternalTable {
        schema: Seq<FieldV>,
        name: Seq<char>,
        location: Seq<char>,
        file_type: FileType,
        has_header: bool,
    },
    Explain {
        verbose: bool,
        plan: Box<PlanV>,
        stringified_plans: Seq<StringifiedPlanV>,
        schema: Seq<FieldV>,
    },
}

/// The model of a plan tree.
pub open spec fn plan_view(p: LogicalPlan) -> PlanV
    decreases p,
{
    match p {
        LogicalPlan::Projection { expr, input, schema } => PlanV::Projection {
            expr: exprs_view(expr@),
            input: Box::new(plan_view(*input)),
            schema: schema@,
        },
        LogicalPlan::Selection { expr, input } => PlanV::Selection {
            expr: expr@,
            input: Box::new(plan_view(*input)),
        },
        LogicalPlan::Aggregate { input, group_expr, aggr_expr, schema } => PlanV::Aggregate {
            input: Box::new(plan_view(*input)),
            group_expr: exprs_view(group_expr@),
            aggr_expr: exprs_view(aggr_expr@),
            schema: schema@,
        },
        LogicalPlan::Limit { n, input, schema } => PlanV::Limit {
            n,
            input: Box::new(plan_view(*input)),
            schema: schema@,
        },
        LogicalPlan::Sort { expr, input, schema } => PlanV::Sort {
            expr: exprs_view(expr@),
            input: Box::new(plan_view(*input)),
            schema: schema@,
        },
        LogicalPlan::TableScan { schema_name, table_name, table_schema } => PlanV::TableScan {
            schema_name: schema_name@,
            table_name: table_name@,
            table_schema: table_schema@,
        },
        LogicalPlan::InMemoryScan { schema } => PlanV::InMemoryScan { schema: schema@ },
        LogicalPlan::ParquetScan { path, schema } => PlanV::ParquetScan {
            path: path@,
            schema: schema@,
        },
        LogicalPlan::CsvScan { path, schema, has_header } => PlanV::CsvScan {
            path: path@,
            schema: schema@,
            has_header,
        },
        LogicalPlan::EmptyRelation { schema } => PlanV::EmptyRelation { schema: schema@ },
        LogicalPlan::CreateExternalTable { schema, name, location, file_type, has_header } => (
        PlanV::CreateExternalTable {
            schema: schema@,
            name: name@,
            location: location@,
            file_type,
            has_header,
        }),
        LogicalPlan::Explain { verbose, plan, stringified_plans, schema } => PlanV::Explain {
            verbose,
            plan: Box::new(plan_view(*plan)),
            stringified_plans: stringified_view(stringified_plans@),
            schema: schema@,
        },
    }
}

impl View for LogicalPlan {
    type V = PlanV;

    open spec fn view(&self) -> PlanV {
        plan_view(*self)
    }
}

/// The output schema of a plan node; a selection reports its child's.
pub open spec fn spec_schema_of(p: PlanV) -> Seq<FieldV>
    decreases p,
{
    match p {
        PlanV::Projection { schema, .. } => schema,
        PlanV::Selection { input, .. } => spec_schema_of(*input),
        PlanV::Aggregate { schema, .. } => schema,
        PlanV::Limit { schema, .. } => schema,
        PlanV::Sort { schema, .. } => schema,
        PlanV::TableScan { table_schema, .. } => table_schema,
        PlanV::InMemoryScan { schema } => schema,
        PlanV::ParquetScan { schema, .. } => schema,
        PlanV::CsvScan { schema, .. } => schema,
        PlanV::EmptyRelation { schema } => schema,
        PlanV::CreateExternalTable { schema, .. } => schema,
        PlanV::Explain { schema, .. } => schema,
    }
}

/// The model of a fallible plan result.
pub open spec fn res_plan_view(r: Result<LogicalPlan, PlanError>) -> Result<PlanV, ErrorV> {
    match r {
        Ok(p) => Ok(p@),
        Err(er) => Err(er@),
    }
}

impl LogicalPlan {
    /// The output schema of this plan node.
    pub fn schema(&self) -> (s: &Schema)
        ensures
            s@ == spec_schema_of(self@),
        decreases *self,
    {
        match self {
            LogicalPlan::Projection { schema, .. } => schema,
            LogicalPlan::Selection { input, .. } => input.schema(),
            LogicalPlan::Aggregate { schema, .. } => schema,
            LogicalPlan::Limit { schema, .. } => schema,
            LogicalPlan::Sort { schema, .. } => schema,
            LogicalPlan::TableScan { table_schema, .. } => table_schema,
            LogicalPlan::InMemoryScan { schema } => schema,
            LogicalPlan::ParquetScan { schema, .. } => schema,
            LogicalPlan::CsvScan { schema, .. } => schema,
            LogicalPlan::EmptyRelation { schema } => schema,
            LogicalPlan::CreateExternalTable { schema, .. } => schema,
            LogicalPlan::Explain { schema, .. } => schema,
        }
    }

    /// An owned copy of the plan tree.
    pub fn duplicate(&self) -> (r: LogicalPlan)
        ensures
            r@ == self@,
        decreases *self,
    {
        match self {
            LogicalPlan::Projection { expr, input, schema } => LogicalPlan::Projection {
                expr: duplicate_exprs(expr),
                input: Box::new(input.duplicate()),
                schema: schema.duplicate(),
            },
            LogicalPlan::Selection { expr, input } => LogicalPlan::Selection {
                expr: expr.duplicate(),
                input: Box::new(input.duplicate()),
            },
            LogicalPlan::Aggregate { input, group_expr, aggr_expr, schema } => (
            LogicalPlan::Aggregate {
                input: Box::new(input.duplicate()),
                group_expr: duplicate_exprs(group_expr),
                aggr_expr: duplicate_exprs(aggr_expr),
                schema: schema.duplicate(),
            }),
            LogicalPlan::Limit { n, input, schema } => LogicalPlan::Limit {
                n: *n,
                input: Box::new(input.duplicate()),
                schema: schema.duplicate(),
            },
            LogicalPlan::Sort { expr, input, schema } => LogicalPlan::Sort {
                expr: duplicate_exprs(expr),
                input: Box::new(input.duplicate()),
                schema: schema.duplicate(),
            },
            LogicalPlan::TableScan { schema_name, table_name, table_schema } => (
            LogicalPlan::TableScan {
                schema_name: schema_name.clone(),
                table_name: table_name.clone(),
                table_schema: table_schema.duplicate(),
            }),
            LogicalPlan::InMemoryScan { schema } => LogicalPlan::InMemoryScan {
                schema: schema.duplicate(),
            },
            LogicalPlan::ParquetScan { path, schema } => LogicalPlan::ParquetScan {
                path: path.clone(),
                schema: schema.duplicate(),
            },
            LogicalPlan::CsvScan { path, schema, has_header } => LogicalPlan::CsvScan {
                path: path.clone(),
                schema: schema.duplicate(),
                has_header: *has_header,
            },
            LogicalPlan::EmptyRelation { schema } => LogicalPlan::EmptyRelation {
                schema: schema.duplicate(),
            },
            LogicalPlan::CreateExternalTable { schema, name, location, file_type, has_header } => (
            LogicalPlan::CreateExternalTable {
                schema: schema.duplicate(),
                name: name.clone(),
                location: location.clone(),
                file_type: *file_type,
                has_header: *has_header,
            }),
            LogicalPlan::Explain { verbose, plan, stringified_plans, schema } => (
            LogicalPlan::Explain {
                verbose: *verbose,
                plan: Box::new(plan.duplicate()),
                stringified_plans: duplicate_stringified(stringified_plans),
                schema: schema.duplicate(),
            }),
        }
    }
}

impl Clone for LogicalPlan {
    fn clone(&self) -> (r: LogicalPlan)
        ensures
            r@ == self@,
    {
        self.duplicate()
    }
}

} // verus!
