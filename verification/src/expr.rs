//! The expression grammar and the expression type resolver.
//!
//! [`Expr`] is a closed recursive variant set; its mathematical model is
//! [`ExprV`], where names are character sequences and argument lists are
//! sequences.  [`spec_type_of`] resolves the type of an expression under a
//! schema; it is purely informational and inserts no casts.  [`spec_cast_to`]
//! wraps an expression in a cast node when its resolved type differs from a
//! target type.

use vstd::prelude::*;
use vstd::string::*;

use crate::datatypes::{DataType, FieldV, Schema, spec_lookup_field};
use crate::error::{ErrorV, PlanError};
use crate::supertype::spec_supertype;

verus! {

/// A binary operator.
#[derive(Clone, Copy, Debug, PartialEq, Eq, Structural)]
pub enum Operator {
    Eq,
    NotEq,
    Lt,
    LtEq,
    Gt,
    GtEq,
    Plus,
    Minus,
    Multiply,
    Divide,
    Modulus,
    And,
    Or,
    Like,
    NotLike,
}

/// A typed literal value.  Floating-point literals are not representable
/// here; the floating *types* still take part in the lattice.
#[derive(Debug)]
pub enum ScalarValue {
    Null,
    Boolean(bool),
    Int8(i8),
    Int16(i16),
    Int32(i32),
    Int64(i64),
    UInt8(u8),
    UInt16(u16),
    UInt32(u32),
    UInt64(u64),
    Utf8(String),
}

/// Mathematical model of a [`ScalarValue`].
#[verifier::ext_equal]
pub ghost enum ScalarValueV {
    Null,
    Boolean(bool),
    Int8(i8),
    Int16(i16),
    Int32(i32),
    Int64(i64),
    UInt8(u8),
    UInt16(u16),
    UInt32(u32),
    UInt64(u64),
    Utf8(Seq<char>),
}

impl View for ScalarValue {
    type V = ScalarValueV;

    open spec fn view(&self) -> ScalarValueV {
        match self {
            ScalarValue::Null => ScalarValueV::Null,
            ScalarValue::Boolean(v) => ScalarValueV::Boolean(*v),
            ScalarValue::Int8(v) => ScalarValueV::Int8(*v),
            ScalarValue::Int16(v) => ScalarValueV::Int16(*v),
            ScalarValue::Int32(v) => ScalarValueV::Int32(*v),
            ScalarValue::Int64(v) => ScalarValueV::Int64(*v),
            ScalarValue::UInt8(v) => ScalarValueV::UInt8(*v),
            ScalarValue::UInt16(v) => ScalarValueV::UInt16(*v),
            ScalarValue::UInt32(v) => ScalarValueV::UInt32(*v),
            ScalarValue::UInt64(v) => ScalarValueV::UInt64(*v),
            ScalarValue::Utf8(s) => ScalarValueV::Utf8(s@),
        }
    }
}

/// The type a literal value carries.
pub open spec fn spec_scalar_type(v: ScalarValueV) -> DataType {
    match v {
        ScalarValueV::Null => DataType::Null,
        ScalarValueV::Boolean(_) => DataType::Boolean,
        ScalarValueV::Int8(_) => DataType::Int8,
        ScalarValueV::Int16(_) => DataType::Int16,
        ScalarValueV::Int32(_) => DataType::Int32,
        ScalarValueV::Int64(_) => DataType::Int64,
        ScalarValueV::UInt8(_) => DataType::UInt8,
        ScalarValueV::UInt16(_) => DataType::UInt16,
        ScalarValueV::UInt32(_) => DataType::UInt32,
        ScalarValueV::UInt64(_) => DataType::UInt64,
        ScalarValueV::Utf8(_) => DataType::Utf8,
    }
}

impl ScalarValue {
    /// The type this literal value carries.
    pub fn get_datatype(&self) -> (t: DataType)
        ensures
            t == spec_scalar_type(self@),
    {
        match self {
            ScalarValue::Null => DataType::Null,
            ScalarValue::Boolean(_) => DataType::Boolean,
            ScalarValue::Int8(_) => DataType::Int8,
            ScalarValue::Int16(_) => DataType::Int16,
            ScalarValue::Int32(_) => DataType::Int32,
            ScalarValue::Int64(_) => DataType::Int64,
            ScalarValue::UInt8(_) => DataType::UInt8,
            ScalarValue::UInt16(_) => DataType::UInt16,
            ScalarValue::UInt32(_) => DataType::UInt32,
            ScalarValue::UInt64(_) => DataType::UInt64,
            ScalarValue::Utf8(_) => DataType::Utf8,
        }
    }

    /// An owned copy of the value.
    pub fn duplicate(&self) -> (v: ScalarValue)
        ensures
            v@ == self@,
    {
        match self {
            ScalarValue::Null => ScalarValue::Null,
            ScalarValue::Boolean(v) => ScalarValue::Boolean(*v),
            ScalarValue::Int8(v) => ScalarValue::Int8(*v),
            ScalarValue::Int16(v) => ScalarValue::Int16(*v),
            ScalarValue::Int32(v) => ScalarValue::Int32(*v),
            ScalarValue::Int64(v) => ScalarValue::Int64(*v),
            ScalarValue::UInt8(v) => ScalarValue::UInt8(*v),
            ScalarValue::UInt16(v) => ScalarValue::UInt16(*v),
            ScalarValue::UInt32(v) => ScalarValue::UInt32(*v),
            ScalarValue::UInt64(v) => ScalarValue::UInt64(*v),
            ScalarValue::Utf8(s) => ScalarValue::Utf8(s.clone()),
        }
    }
}

impl Clone for ScalarValue {
    fn clone(&self) -> (v: ScalarValue)
        ensures
            v@ == self@,
    {
        self.duplicate()
    }
}

/// A query expression: a closed recursive variant set.
#[derive(Debug)]
pub enum Expr {
    /// A named alias for the wrapped expression.
    Alias(Box<Expr>, String),
    /// A reference to a column of the active schema.
    Column(String),
    /// A typed literal value.
    Literal(ScalarValue),
    /// A binary operation on two operands.
    BinaryExpr { left: Box<Expr>, op: Operator, right: Box<Expr> },
    /// Logical negation.
    Not(Box<Expr>),
    /// A null-check predicate.
    IsNull(Box<Expr>),
    /// A not-null-check predicate.
    IsNotNull(Box<Expr>),
    /// An explicit cast of the inner expression to a target type.
    Cast { expr: Box<Expr>, data_type: DataType },
    /// A sort specification over the inner expression.
    Sort { expr: Box<Expr>, asc: bool },
    /// A scalar function call with its declared return type.
    ScalarFunction { name: String, args: Vec<Expr>, return_type: DataType },
    /// An aggregate function call with its declared return type.
    AggregateFunction { name: String, args: Vec<Expr>, return_type: DataType },
    /// A wildcard marker; it must never reach the coercion pass.
    Wildcard,
    /// A transparent parenthesized wrapper.
    Nested(Box<Expr>),
}

/// Mathematical model of an [`Expr`].
#[verifier::ext_equal]
pub ghost enum ExprV {
    Alias(Box<ExprV>, Seq<char>),
    Column(Seq<char>),
    Literal(ScalarValueV),
    BinaryExpr { left: Box<ExprV>, op: Operator, right: Box<ExprV> },
    Not(Box<ExprV>),
    IsNull(Box<ExprV>),
    IsNotNull(Box<ExprV>),
    Cast { expr: Box<ExprV>, data_type: DataType },
    Sort { expr: Box<ExprV>, asc: bool },
    ScalarFunction { name: Seq<char>, args: Seq<ExprV>, return_type: DataType },
    AggregateFunction { name: Seq<char>, args: Seq<ExprV>, return_type: DataType },
    Wildcard,
    Nested(Box<ExprV>),
}

/// The model of an expression tree.
pub open spec fn expr_view(e: Expr) -> ExprV
    decreases e,
{
    match e {
        Expr::Alias(inner, name) => ExprV::Alias(Box::new(expr_view(*inner)), name@),
        Expr::Column(name) => ExprV::Column(name@),
        Expr::Literal(v) => ExprV::Literal(v@),
        Expr::BinaryExpr { left, op, right } => ExprV::BinaryExpr {
            left: Box::new(expr_view(*left)),
            op,
            right: Box::new(expr_view(*right)),
        },
        Expr::Not(inner) => ExprV::Not(Box::new(expr_view(*inner))),
        Expr::IsNull(inner) => ExprV::IsNull(Box::new(expr_view(*inner))),
        Expr::IsNotNull(inner) => ExprV::IsNotNull(Box::new(expr_view(*inner))),
        Expr::Cast { expr, data_type } => ExprV::Cast {
            expr: Box::new(expr_view(*expr)),
            data_type,
        },
        Expr::Sort { expr, asc } => ExprV::Sort { expr: Box::new(expr_view(*expr)), asc },
        Expr::ScalarFunction { name, args, return_type } => ExprV::ScalarFunction {
            name: name@,
            args: exprs_view(args@),
            return_type,
        },
        Expr::AggregateFunction { name, args, return_type } => ExprV::AggregateFunction {
            name: name@,
            args: exprs_view(args@),
            return_type,
        },
        Expr::Wildcard => ExprV::Wildcard,
        Expr::Nested(inner) => ExprV::Nested(Box::new(expr_view(*inner))),
    }
}

/// The model of a list of expressions, elementwise.
pub open spec fn exprs_view(es: Seq<Expr>) -> Seq<ExprV>
    decreases es,
{
    if es.len() == 0 {
        Seq::empty()
    } else {
        seq![expr_view(es[0])] + exprs_view(es.drop_first())
    }
}

/// The model of an expression list has the same length.
pub broadcast proof fn lemma_exprs_view_len(es: Seq<Expr>)
    ensures
        (#[trigger] exprs_view(es)).len() == es.len(),
    decreases es,
{
    if es.len() > 0 {
        lemma_exprs_view_len(es.drop_first());
    }
}

/// Appending an expression to a list appends its model to the list's model.
pub proof fn lemma_exprs_view_push(prev: Seq<Expr>, x: Expr)
    ensures
        exprs_view(prev.push(x)) == exprs_view(prev).push(expr_view(x)),
{
    lemma_exprs_view_len(prev);
    lemma_exprs_view_len(prev.push(x));
    assert forall|k: int| 0 <= k < prev.push(x).len() implies exprs_view(prev.push(x))[k]
        == exprs_view(prev).push(expr_view(x))[k] by {
        lemma_exprs_view_index(prev.push(x), k);
        if k < prev.len() {
            lemma_exprs_view_index(prev, k);
            assert(prev.push(x)[k] == prev[k]);
        } else {
            assert(prev.push(x)[k] == x);
        }
    }
    assert(exprs_view(prev.push(x)) =~= exprs_view(prev).push(expr_view(x)));
}

/// The model of an expression list is elementwise the model of its elements.
pub broadcast proof fn lemma_exprs_view_index(es: Seq<Expr>, i: int)
    requires
        0 <= i < es.len(),
    ensures
        #[trigger] exprs_view(es)[i] == expr_view(es[i]),
    decreases es,
{
    lemma_exprs_view_len(es);
    if i > 0 {
        lemma_exprs_view_index(es.drop_first(), i - 1);
        lemma_exprs_view_len(es.drop_first());
    }
}

impl View for Expr {
    type V = ExprV;

    open spec fn view(&self) -> ExprV {
        expr_view(*self)
    }
}

/// Whether the result type of the operator is boolean, independent of its
/// operand types.
pub open spec fn produces_boolean(op: Operator) -> bool {
    match op {
        Operator::Eq => true,
        Operator::NotEq => true,
        Operator::Lt => true,
        Operator::LtEq => true,
        Operator::Gt => true,
        Operator::GtEq => true,
        Operator::And => true,
        Operator::Or => true,
        Operator::Like => true,
        Operator::NotLike => true,
        Operator::Plus => false,
        Operator::Minus => false,
        Operator::Multiply => false,
        Operator::Divide => false,
        Operator::Modulus => false,
    }
}

/// The resolved type of an expression under a schema.  Column references
/// resolve through the schema; literals carry their own type; cast, function
/// and predicate nodes report their declared type; an arithmetic binary
/// expression reports the supertype of its operands; a wildcard has no type.
pub open spec fn spec_type_of(e: ExprV, s: Seq<FieldV>) -> Result<DataType, ErrorV>
    decreases e,
{
    match e {
        ExprV::Column(name) => match spec_lookup_field(s, name) {
            Some(f) => Ok(f.data_type),
            None => Err(ErrorV::UnresolvedColumn(name)),
        },
        ExprV::Alias(inner, _) => spec_type_of(*inner, s),
        ExprV::Literal(v) => Ok(spec_scalar_type(v)),
        ExprV::BinaryExpr { left, op, right } => if produces_boolean(op) {
            Ok(DataType::Boolean)
        } else {
            match spec_type_of(*left, s) {
                Err(er) => Err(er),
                Ok(lt) => match spec_type_of(*right, s) {
                    Err(er) => Err(er),
                    Ok(rt) => match spec_supertype(lt, rt) {
                        Some(t) => Ok(t),
                        None => Err(ErrorV::IncompatibleTypes(lt, rt)),
                    },
                },
            }
        },
        ExprV::Not(_) => Ok(DataType::Boolean),
        ExprV::IsNull(_) => Ok(DataType::Boolean),
        ExprV::IsNotNull(_) => Ok(DataType::Boolean),
        ExprV::Cast { data_type, .. } => Ok(data_type),
        ExprV::Sort { expr, .. } => spec_type_of(*expr, s),
        ExprV::ScalarFunction { return_type, .. } => Ok(return_type),
        ExprV::AggregateFunction { return_type, .. } => Ok(return_type),
        ExprV::Wildcard => Err(ErrorV::InvalidWildcard),
        ExprV::Nested(inner) => spec_type_of(*inner, s),
    }
}

/// The model of a fallible expression result.
pub open spec fn res_expr_view(r: Result<Expr, PlanError>) -> Result<ExprV, ErrorV> {
    match r {
        Ok(e) => Ok(e@),
        Err(er) => Err(er@),
    }
}

/// The model of a fallible type result.
pub open spec fn res_type_view(r: Result<DataType, PlanError>) -> Result<DataType, ErrorV> {
    match r {
        Ok(t) => Ok(t),
        Err(er) => Err(er@),
    }
}

/// `e` wrapped in a cast to `to` when its resolved type differs from `to`;
/// `e` unchanged when it already matches.
pub open spec fn spec_cast_to(e: ExprV, to: DataType, s: Seq<FieldV>) -> Result<ExprV, ErrorV> {
    match spec_type_of(e, s) {
        Err(er) => Err(er),
        Ok(t) => if t == to {
            Ok(e)
        } else {
            Ok(ExprV::Cast { expr: Box::new(e), data_type: to })
        },
    }
}

impl Expr {
    /// Resolve the type of this expression under `schema`.
    pub fn get_type(&self, schema: &Schema) -> (r: Result<DataType, PlanError>)
        ensures
            res_type_view(r) == spec_type_of(self@, schema@),
        decreases *self,
    {
        match self {
            Expr::Column(name) => match schema.field_with_name(name) {
                Ok(f) => Ok(f.data_type()),
                Err(er) => Err(er),
            },
            Expr::Alias(inner, _) => inner.get_type(schema),
            Expr::Literal(v) => Ok(v.get_datatype()),
            Expr::BinaryExpr { left, op, right } => {
                if produces_boolean_exec(*op) {
                    Ok(DataType::Boolean)
                } else {
                    match left.get_type(schema) {
                        Err(er) => Err(er),
                        Ok(lt) => match right.get_type(schema) {
                            Err(er) => Err(er),
                            Ok(rt) => crate::supertype::get_supertype(&lt, &rt),
                        },
                    }
                }
            },
            Expr::Not(_) => Ok(DataType::Boolean),
            Expr::IsNull(_) => Ok(DataType::Boolean),
            Expr::IsNotNull(_) => Ok(DataType::Boolean),
            Expr::Cast { data_type, .. } => Ok(*data_type),
            Expr::Sort { expr, .. } => expr.get_type(schema),
            Expr::ScalarFunction { return_type, .. } => Ok(*return_type),
            Expr::AggregateFunction { return_type, .. } => Ok(*return_type),
            Expr::Wildcard => Err(PlanError::InvalidWildcard),
            Expr::Nested(inner) => inner.get_type(schema),
        }
    }

    /// Wrap this expression in a cast to `cast_to_type` when its resolved
    /// type differs; return it unchanged when it already matches.
    pub fn cast_to(&self, cast_to_type: &DataType, schema: &Schema) -> (r: Result<
        Expr,
        PlanError,
    >)
        ensures
            res_expr_view(r) == spec_cast_to(self@, *cast_to_type, schema@),
    {
        match self.get_type(schema) {
            Err(er) => Err(er),
            Ok(t) => if t == *cast_to_type {
                Ok(self.duplicate())
            } else {
                Ok(Expr::Cast { expr: Box::new(self.duplicate()), data_type: *cast_to_type })
            },
        }
    }

    /// An owned copy of the expression tree.
    pub fn duplicate(&self) -> (r: Expr)
        ensures
            r@ == self@,
        decreases *self,
    {
        match self {
            Expr::Alias(inner, name) => Expr::Alias(Box::new(inner.duplicate()), name.clone()),
            Expr::Column(name) => Expr::Column(name.clone()),
            Expr::Literal(v) => Expr::Literal(v.duplicate()),
            Expr::BinaryExpr { left, op, right } => Expr::BinaryExpr {
                left: Box::new(left.duplicate()),
                op: *op,
                right: Box::new(right.duplicate()),
            },
            Expr::Not(inner) => Expr::Not(Box::new(inner.duplicate())),
            Expr::IsNull(inner) => Expr::IsNull(Box::new(inner.duplicate())),
            Expr::IsNotNull(inner) => Expr::IsNotNull(Box::new(inner.duplicate())),
            Expr::Cast { expr, data_type } => Expr::Cast {
                expr: Box::new(expr.duplicate()),
                data_type: *data_type,
            },
            Expr::Sort { expr, asc } => Expr::Sort { expr: Box::new(expr.duplicate()), asc: *asc },
            Expr::ScalarFunction { name, args, return_type } => Expr::ScalarFunction {
                name: name.clone(),
                args: duplicate_exprs(args),
                return_type: *return_type,
            },
            Expr::AggregateFunction { name, args, return_type } => Expr::AggregateFunction {
                name: name.clone(),
                args: duplicate_exprs(args),
                return_type: *return_type,
            },
            Expr::Wildcard => Expr::Wildcard,
            Expr::Nested(inner) => Expr::Nested(Box::new(inner.duplicate())),
        }
    }

    /// The comparison `self < other`.
    pub fn lt(&self, other: &Expr) -> (r: Expr)
        ensures
            r@ == (ExprV::BinaryExpr {
                left: Box::new(self@),
                op: Operator::Lt,
                right: Box::new(other@),
            }),
    {
        Expr::BinaryExpr {
            left: Box::new(self.duplicate()),
            op: Operator::Lt,
            right: Box::new(other.duplicate()),
        }
    }
}

impl Clone for Expr {
    fn clone(&self) -> (r: Expr)
        ensures
            r@ == self@,
    {
        self.duplicate()
    }
}

/// An owned copy of a list of expressions.
pub fn duplicate_exprs(es: &Vec<Expr>) -> (r: Vec<Expr>)
    ensures
        exprs_view(r@) == exprs_view(es@),
        r@.len() == es@.len(),
    decreases es@,
{
    let mut out: Vec<Expr> = Vec::new();
    let mut i: usize = 0;
    while i < es.len()
        invariant
            i <= es.len(),
            out@.len() == i,
            forall|j: int| 0 <= j < i ==> out@[j]@ == es@[j]@,
        decreases es@.len() - i,
    {
        proof {
            assert(decreases_to!(es@ => es@[i as int]));
        }
        out.push(es[i].duplicate());
        i = i + 1;
    }
    proof {
        lemma_exprs_view_len(out@);
        lemma_exprs_view_len(es@);
        assert forall|j: int| 0 <= j < es@.len() implies exprs_view(out@)[j] == exprs_view(es@)[j] by {
            lemma_exprs_view_index(out@, j);
            lemma_exprs_view_index(es@, j);
        }
        assert(exprs_view(out@) =~= exprs_view(es@));
    }
    out
}

/// Whether the result type of the operator is boolean.
fn produces_boolean_exec(op: Operator) -> (r: bool)
    ensures
        r == produces_boolean(op),
{
    match op {
        Operator::Eq => true,
        Operator::NotEq => true,
        Operator::Lt => true,
        Operator::LtEq => true,
        Operator::Gt => true,
        Operator::GtEq => true,
        Operator::And => true,
        Operator::Or => true,
        Operator::Like => true,
        Operator::NotLike => true,
        Operator::Plus => false,
        Operator::Minus => false,
        Operator::Multiply => false,
        Operator::Divide => false,
        Operator::Modulus => false,
    }
}

/// A reference to the column named `name`.
pub fn col(name: &str) -> (e: Expr)
    ensures
        e@ == ExprV::Column(name@),
{
    Expr::Column(String::from_str(name))
}

/// A value that can stand as a typed literal expression.
pub trait Literal {
    /// The model of the literal value this produces.
    spec fn spec_literal(&self) -> ScalarValueV;

    /// The literal value itself.
    fn literal_value(&self) -> (v: ScalarValue)
        ensures
            v@ == self.spec_literal(),
    ;
}

impl Literal for bool {
    open spec fn spec_literal(&self) -> ScalarValueV {
        ScalarValueV::Boolean(*self)
    }

    fn literal_value(&self) -> (v: ScalarValue) {
        ScalarValue::Boolean(*self)
    }
}

impl Literal for i8 {
    open spec fn spec_literal(&self) -> ScalarValueV {
        ScalarValueV::Int8(*self)
    }

    fn literal_value(&self) -> (v: ScalarValue) {
        ScalarValue::Int8(*self)
    }
}

impl Literal for i16 {
    open spec fn spec_literal(&self) -> ScalarValueV {
        ScalarValueV::Int16(*self)
    }

    fn literal_value(&self) -> (v: ScalarValue) {
        ScalarValue::Int16(*self)
    }
}

impl Literal for i32 {
    open spec fn spec_literal(&self) -> ScalarValueV {
        ScalarValueV::Int32(*self)
    }

    fn literal_value(&self) -> (v: ScalarValue) {
        ScalarValue::Int32(*self)
    }
}

impl Literal for i64 {
    open spec fn spec_literal(&self) -> ScalarValueV {
        ScalarValueV::Int64(*self)
    }

    fn literal_value(&self) -> (v: ScalarValue) {
        ScalarValue::Int64(*self)
    }
}

impl Literal for u8 {
    open spec fn spec_literal(&self) -> ScalarValueV {
        ScalarValueV::UInt8(*self)
    }

    fn literal_value(&self) -> (v: ScalarValue) {
        ScalarValue::UInt8(*self)
    }
}

impl Literal for u16 {
    open spec fn spec_literal(&self) -> ScalarValueV {
        ScalarValueV::UInt16(*self)
    }

    fn literal_value(&self) -> (v: ScalarValue) {
        ScalarValue::UInt16(*self)
    }
}

impl Literal for u32 {
    open spec fn spec_literal(&self) -> ScalarValueV {
        ScalarValueV::UInt32(*self)
    }

    fn literal_value(&self) -> (v: ScalarValue) {
        ScalarValue::UInt32(*self)
    }
}

impl Literal for u64 {
    open spec fn spec_literal(&self) -> ScalarValueV {
        ScalarValueV::UInt64(*self)
    }

    fn literal_value(&self) -> (v: ScalarValue) {
        ScalarValue::UInt64(*self)
    }
}

impl Literal for &str {
    open spec fn spec_literal(&self) -> ScalarValueV {
        ScalarValueV::Utf8(self@)
    }

    fn literal_value(&self) -> (v: ScalarValue) {
        ScalarValue::Utf8(String::from_str(self))
    }
}

/// The literal expression carrying `value`.
pub fn lit<T: Literal>(value: T) -> (e: Expr)
    ensures
        e@ == ExprV::Literal(value.spec_literal()),
{
    Expr::Literal(value.literal_value())
}

/// An aggregate function call over a single argument.
pub fn aggregate_expr(name: &str, expr: Expr, return_type: DataType) -> (e: Expr)
    ensures
        e@ == (ExprV::AggregateFunction { name: name@, args: seq![expr@], return_type }),
{
    let ghost argv: ExprV = expr@;
    let args: Vec<Expr> = vec![expr];
    proof {
        lemma_exprs_view_len(args@);
        lemma_exprs_view_index(args@, 0);
        assert(exprs_view(args@) =~= seq![argv]);
    }
    Expr::AggregateFunction { name: String::from_str(name), args, return_type }
}

/// A scalar function call with its declared return type.
pub fn scalar_function(name: &str, args: Vec<Expr>, return_type: DataType) -> (e: Expr)
    ensures
        e@ == (ExprV::ScalarFunction { name: name@, args: exprs_view(args@), return_type }),
{
    Expr::ScalarFunction { name: String::from_str(name), args, return_type }
}

} // verus!
