use type_coercion::builder::LogicalPlanBuilder;
use type_coercion::coercion::{OptimizerRule, TypeCoercionRule};
use type_coercion::datatypes::{DataType, Field, Schema};
use type_coercion::error::PlanError;
use type_coercion::expr::{aggregate_expr, col, lit, scalar_function, Expr, Operator};
use type_coercion::plan::{LogicalPlan, StringifiedPlan};
use type_coercion::registry::{FunctionRegistry, ScalarFunction};
use type_coercion::supertype::get_supertype;

fn aggregate_test_schema() -> Schema {
    Schema::new(vec![
        Field::new("c1", DataType::Utf8, true),
        Field::new("c2", DataType::Int64, true),
        Field::new("c3", DataType::Int64, true),
        Field::new("c4", DataType::Int64, true),
        Field::new("c5", DataType::Int64, true),
        Field::new("c6", DataType::Int64, true),
        Field::new("c7", DataType::Int64, true),
        Field::new("c8", DataType::Int64, true),
        Field::new("c9", DataType::Int64, true),
        Field::new("c10", DataType::Int64, true),
        Field::new("c11", DataType::Float64, true),
        Field::new("c12", DataType::Float64, true),
        Field::new("c13", DataType::Utf8, true),
    ])
}

fn binary_cast_test(left_type: DataType, right_type: DataType, expected: &str) {
    let schema = Schema::new(vec![
        Field::new("c0", left_type, true),
        Field::new("c1", right_type, true),
    ]);

    let expr = Expr::BinaryExpr {
        left: Box::new(col("c0")),
        op: Operator::Plus,
        right: Box::new(col("c1")),
    };

    let scalar_functions = FunctionRegistry::new();
    let rule = TypeCoercionRule::new(scalar_functions);

    let expr2 = rule.rewrite_expr(&expr, &schema).unwrap();

    assert_eq!(expected, expr2.to_string());
}

#[test]
fn test_all_operators() -> Result<(), PlanError> {
    let testdata = "testdata";
    let path = format!("{}/csv/aggregate_test_100.csv", testdata);

    let plan = LogicalPlanBuilder::scan_csv(&path, aggregate_test_schema(), true)
        // filter clause needs the type coercion rule applied
        .filter(col("c7").lt(&lit(5_u8)))?
        .project(vec![col("c1"), col("c2")])?
        .aggregate(
            vec![col("c1")],
            vec![aggregate_expr("SUM", col("c2"), DataType::Int64)],
        )?
        .sort(vec![col("c1")])?
        .limit(10)?
        .build()?;

    let scalar_functions = FunctionRegistry::new();
    let mut rule = TypeCoercionRule::new(scalar_functions);
    let plan = rule.optimize(&plan)?;

    // check that the filter had a cast added
    let plan_str = plan.to_string();
    println!("{}", plan_str);
    let expected_plan_str = "Limit: 10
  Sort: #c1
    Aggregate: groupBy=[[#c1]], aggr=[[SUM(#c2)]]
      Projection: #c1, #c2
        Selection: #c7 Lt CAST(UInt8(5) AS Int64)";
    assert!(plan_str.starts_with(expected_plan_str));

    Ok(())
}

#[test]
fn test_with_csv_plan() -> Result<(), PlanError> {
    let testdata = "testdata";
    let path = format!("{}/csv/aggregate_test_100.csv", testdata);

    let plan = LogicalPlanBuilder::scan_csv(&path, aggregate_test_schema(), true)
        .filter(col("c7").lt(&col("c12")))?
        .build()?;

    let scalar_functions = FunctionRegistry::new();
    let mut rule = TypeCoercionRule::new(scalar_functions);
    let plan = rule.optimize(&plan)?;

    assert!(plan.to_string().starts_with("Selection: CAST(#c7 AS Float64) Lt #c12"));

    Ok(())
}

#[test]
fn test_add_i32_i64() {
    binary_cast_test(
        DataType::Int32,
        DataType::Int64,
        "CAST(#c0 AS Int64) Plus #c1",
    );
    binary_cast_test(
        DataType::Int64,
        DataType::Int32,
        "#c0 Plus CAST(#c1 AS Int64)",
    );
}

#[test]
fn test_add_f32_f64() {
    binary_cast_test(
        DataType::Float32,
        DataType::Float64,
        "CAST(#c0 AS Float64) Plus #c1",
    );
    binary_cast_test(
        DataType::Float64,
        DataType::Float32,
        "#c0 Plus CAST(#c1 AS Float64)",
    );
}

#[test]
fn test_add_i32_f32() {
    binary_cast_test(
        DataType::Int32,
        DataType::Float32,
        "CAST(#c0 AS Float32) Plus #c1",
    );
    binary_cast_test(
        DataType::Float32,
        DataType::Int32,
        "#c0 Plus CAST(#c1 AS Float32)",
    );
}

#[test]
fn test_add_u32_i64() {
    binary_cast_test(
        DataType::UInt32,
        DataType::Int64,
        "CAST(#c0 AS Int64) Plus #c1",
    );
    binary_cast_test(
        DataType::Int64,
        DataType::UInt32,
        "#c0 Plus CAST(#c1 AS Int64)",
    );
}

#[test]
fn test_supertype_identity() {
    let types = vec![
        DataType::Null,
        DataType::Boolean,
        DataType::Int8,
        DataType::Int16,
        DataType::Int32,
        DataType::Int64,
        DataType::UInt8,
        DataType::UInt16,
        DataType::UInt32,
        DataType::UInt64,
        DataType::Float32,
        DataType::Float64,
        DataType::Utf8,
        DataType::Date32,
        DataType::Date64,
    ];
    for t in types {
        assert_eq!(get_supertype(&t, &t).unwrap(), t);
    }
}

#[test]
fn test_supertype_symmetry() {
    let types = vec![
        DataType::Boolean,
        DataType::Int8,
        DataType::Int32,
        DataType::Int64,
        DataType::UInt8,
        DataType::UInt32,
        DataType::UInt64,
        DataType::Float32,
        DataType::Float64,
        DataType::Utf8,
    ];
    for a in &types {
        for b in &types {
            let forward = get_supertype(a, b);
            let backward = get_supertype(b, a);
            match (forward, backward) {
                (Ok(x), Ok(y)) => assert_eq!(x, y),
                (Err(_), Err(_)) => {}
                _ => panic!("supertype not symmetric"),
            }
        }
    }
}

#[test]
fn test_supertype_values() {
    assert_eq!(get_supertype(&DataType::Int32, &DataType::Int64).unwrap(), DataType::Int64);
    assert_eq!(get_supertype(&DataType::UInt32, &DataType::Int64).unwrap(), DataType::Int64);
    assert_eq!(get_supertype(&DataType::UInt32, &DataType::Int32).unwrap(), DataType::Int64);
    assert_eq!(get_supertype(&DataType::UInt8, &DataType::Int8).unwrap(), DataType::Int16);
    assert_eq!(get_supertype(&DataType::UInt8, &DataType::UInt16).unwrap(), DataType::UInt16);
    assert_eq!(get_supertype(&DataType::Int32, &DataType::Float32).unwrap(), DataType::Float32);
    assert_eq!(get_supertype(&DataType::Float32, &DataType::Float64).unwrap(), DataType::Float64);
    assert!(matches!(
        get_supertype(&DataType::UInt64, &DataType::Int64),
        Err(PlanError::IncompatibleTypes(_, _))
    ));
    assert!(matches!(
        get_supertype(&DataType::Utf8, &DataType::Boolean),
        Err(PlanError::IncompatibleTypes(_, _))
    ));
    assert!(matches!(
        get_supertype(&DataType::Date32, &DataType::Date64),
        Err(PlanError::IncompatibleTypes(_, _))
    ));
}

#[test]
fn test_unknown_function_fails() {
    let schema = Schema::new(vec![Field::new("c0", DataType::Int32, true)]);
    let expr = scalar_function("sqrt", vec![col("c0")], DataType::Float64);
    let rule = TypeCoercionRule::new(FunctionRegistry::new());
    let err = rule.rewrite_expr(&expr, &schema).unwrap_err();
    assert!(matches!(err, PlanError::UnknownFunction(_)));
    assert_eq!(err.message(), "Invalid scalar function sqrt");
}

#[test]
fn test_scalar_function_coercion() {
    let schema = Schema::new(vec![
        Field::new("c0", DataType::Int8, true),
        Field::new("c1", DataType::Int64, true),
    ]);
    let mut registry = FunctionRegistry::new();
    registry.register(ScalarFunction::new(
        "my_fn",
        vec![Field::new("a", DataType::Int32, true)],
        DataType::Int32,
    ));
    let rule = TypeCoercionRule::new(registry);

    // An argument narrower than the declared parameter is cast up to it.
    let call = scalar_function("my_fn", vec![col("c0")], DataType::Int32);
    let rewritten = rule.rewrite_expr(&call, &schema).unwrap();
    assert_eq!("my_fn(CAST(#c0 AS Int32))", rewritten.to_string());

    // An argument wider than the declared parameter is cast to the
    // supertype of the two, which here is the argument's own type: the
    // call is kept as it is and ends up not matching the declared type.
    let call = scalar_function("my_fn", vec![col("c1")], DataType::Int32);
    let rewritten = rule.rewrite_expr(&call, &schema).unwrap();
    assert_eq!("my_fn(#c1)", rewritten.to_string());
}

#[test]
fn test_scalar_function_arity() {
    let schema = Schema::new(vec![Field::new("c0", DataType::Int32, true)]);
    let mut registry = FunctionRegistry::new();
    registry.register(ScalarFunction::new(
        "my_fn",
        vec![Field::new("a", DataType::Int32, true)],
        DataType::Int32,
    ));
    let rule = TypeCoercionRule::new(registry);
    let call = scalar_function("my_fn", vec![col("c0"), col("c0")], DataType::Int32);
    let err = rule.rewrite_expr(&call, &schema).unwrap_err();
    assert!(matches!(err, PlanError::SignatureMismatch(_)));
}

#[test]
fn test_wildcard_rejected() {
    let schema = Schema::new(vec![Field::new("c0", DataType::Int32, true)]);
    let rule = TypeCoercionRule::new(FunctionRegistry::new());

    let err = rule.rewrite_expr(&Expr::Wildcard, &schema).unwrap_err();
    assert!(matches!(err, PlanError::InvalidWildcard));

    // A wildcard nested inside a binary expression is still rejected.
    let expr = Expr::BinaryExpr {
        left: Box::new(col("c0")),
        op: Operator::Plus,
        right: Box::new(Expr::Nested(Box::new(Expr::Wildcard))),
    };
    let err = rule.rewrite_expr(&expr, &schema).unwrap_err();
    assert!(matches!(err, PlanError::InvalidWildcard));
}

#[test]
fn test_unresolved_column() {
    let schema = Schema::new(vec![Field::new("c0", DataType::Int32, true)]);
    let rule = TypeCoercionRule::new(FunctionRegistry::new());
    let expr = col("missing").lt(&col("c0"));
    let err = rule.rewrite_expr(&expr, &schema).unwrap_err();
    assert!(matches!(err, PlanError::UnresolvedColumn(_)));
    assert_eq!(err.message(), "No field named missing");
}

#[test]
fn test_incompatible_types() {
    let schema = Schema::new(vec![
        Field::new("c0", DataType::Utf8, true),
        Field::new("c1", DataType::Boolean, true),
    ]);
    let rule = TypeCoercionRule::new(FunctionRegistry::new());
    let expr = Expr::BinaryExpr {
        left: Box::new(col("c0")),
        op: Operator::Plus,
        right: Box::new(col("c1")),
    };
    let err = rule.rewrite_expr(&expr, &schema).unwrap_err();
    assert!(matches!(err, PlanError::IncompatibleTypes(_, _)));
}

#[test]
fn test_duplicate_projection_field() {
    let builder = LogicalPlanBuilder::scan_csv("t.csv", aggregate_test_schema(), true);
    let err = match builder.project(vec![col("c1"), col("c1")]) {
        Ok(_) => panic!("duplicate projection field was accepted"),
        Err(e) => e,
    };
    assert!(matches!(err, PlanError::DuplicateField(_)));
    assert_eq!(err.message(), "Duplicate field name c1");
}

#[test]
fn test_binary_rewrite_types_agree() {
    let schema = Schema::new(vec![
        Field::new("c0", DataType::Int32, true),
        Field::new("c1", DataType::Int64, true),
    ]);
    let rule = TypeCoercionRule::new(FunctionRegistry::new());
    let expr = Expr::BinaryExpr {
        left: Box::new(col("c0")),
        op: Operator::Plus,
        right: Box::new(col("c1")),
    };
    let rewritten = rule.rewrite_expr(&expr, &schema).unwrap();
    match rewritten {
        Expr::BinaryExpr { left, right, .. } => {
            let lt = left.get_type(&schema).unwrap();
            let rt = right.get_type(&schema).unwrap();
            assert_eq!(lt, rt);
            assert_eq!(lt, DataType::Int64);
        }
        _ => panic!("rewrite changed the expression kind"),
    }
}

#[test]
fn test_optimize_idempotent() -> Result<(), PlanError> {
    let plan = LogicalPlanBuilder::scan_csv("t.csv", aggregate_test_schema(), true)
        .filter(col("c7").lt(&lit(5_u8)))?
        .project(vec![col("c1"), col("c2")])?
        .aggregate(
            vec![col("c1")],
            vec![aggregate_expr("SUM", col("c2"), DataType::Int64)],
        )?
        .sort(vec![col("c1")])?
        .limit(10)?
        .build()?;

    let mut rule = TypeCoercionRule::new(FunctionRegistry::new());
    let once = rule.optimize(&plan)?;
    let twice = rule.optimize(&once)?;
    assert_eq!(once.to_string(), twice.to_string());
    Ok(())
}

#[test]
fn test_aggregate_arguments_rewritten() {
    let schema = Schema::new(vec![
        Field::new("c0", DataType::Int32, true),
        Field::new("c1", DataType::Int64, true),
    ]);
    let rule = TypeCoercionRule::new(FunctionRegistry::new());
    let sum_arg = Expr::BinaryExpr {
        left: Box::new(col("c0")),
        op: Operator::Plus,
        right: Box::new(col("c1")),
    };
    let expr = aggregate_expr("SUM", sum_arg, DataType::Int64);
    let rewritten = rule.rewrite_expr(&expr, &schema).unwrap();
    assert_eq!("SUM(CAST(#c0 AS Int64) Plus #c1)", rewritten.to_string());
}

#[test]
fn test_nested_expression_unwrapped() {
    let schema = Schema::new(vec![
        Field::new("c0", DataType::Int32, true),
        Field::new("c1", DataType::Int64, true),
    ]);
    let rule = TypeCoercionRule::new(FunctionRegistry::new());
    let inner = Expr::BinaryExpr {
        left: Box::new(col("c0")),
        op: Operator::Plus,
        right: Box::new(col("c1")),
    };
    let expr = Expr::Nested(Box::new(inner));
    let rewritten = rule.rewrite_expr(&expr, &schema).unwrap();
    assert_eq!("CAST(#c0 AS Int64) Plus #c1", rewritten.to_string());
}

#[test]
fn test_leaf_plan_unchanged() -> Result<(), PlanError> {
    let plan = LogicalPlanBuilder::empty(aggregate_test_schema()).build()?;
    let mut rule = TypeCoercionRule::new(FunctionRegistry::new());
    let optimized = rule.optimize(&plan)?;
    assert_eq!(plan.to_string(), optimized.to_string());
    Ok(())
}

#[test]
fn test_explain_preserves_snapshots() -> Result<(), PlanError> {
    let child = LogicalPlanBuilder::scan_csv("t.csv", aggregate_test_schema(), true)
        .filter(col("c7").lt(&lit(5_u8)))?
        .build()?;
    let schema = Schema::new(vec![Field::new("plan", DataType::Utf8, true)]);
    let plan = LogicalPlan::Explain {
        verbose: true,
        plan: Box::new(child),
        stringified_plans: vec![StringifiedPlan::new("initial logical plan", "Selection")],
        schema,
    };
    let mut rule = TypeCoercionRule::new(FunctionRegistry::new());
    let optimized = rule.optimize(&plan)?;
    match optimized {
        LogicalPlan::Explain { verbose, plan, stringified_plans, .. } => {
            assert!(verbose);
            assert_eq!(stringified_plans.len(), 1);
            assert_eq!(stringified_plans[0].plan_type, "initial logical plan");
            assert!(plan.to_string().starts_with("Selection: #c7 Lt CAST(UInt8(5) AS Int64)"));
        }
        _ => panic!("explain node was not preserved"),
    }
    Ok(())
}

#[test]
fn test_literal_rendering() {
    assert_eq!("UInt8(5)", lit(5_u8).to_string());
    assert_eq!("Int32(-42)", lit(-42_i32).to_string());
    assert_eq!("Int64(1234567890)", lit(1234567890_i64).to_string());
    assert_eq!("UInt64(0)", lit(0_u64).to_string());
    assert_eq!("Boolean(true)", lit(true).to_string());
    assert_eq!("Utf8(\"abc\")", lit("abc").to_string());
}

#[test]
fn test_rule_name() {
    let rule = TypeCoercionRule::new(FunctionRegistry::new());
    assert_eq!("type_coercion", rule.name());
}

#[test]
fn test_rule_through_trait() -> Result<(), PlanError> {
    let plan = LogicalPlanBuilder::scan_csv("t.csv", aggregate_test_schema(), true)
        .filter(col("c7").lt(&col("c12")))?
        .build()?;
    let mut rule = TypeCoercionRule::new(FunctionRegistry::new());
    let rule_obj: &mut dyn OptimizerRule = &mut rule;
    assert_eq!("type_coercion", rule_obj.name());
    let optimized = rule_obj.optimize(&plan)?;
    assert!(optimized.to_string().starts_with("Selection: CAST(#c7 AS Float64) Lt #c12"));
    Ok(())
}

#[test]
fn test_schema_lookup() {
    let schema = aggregate_test_schema();
    let field = schema.field_with_name(&String::from("c12")).unwrap();
    assert_eq!(field.data_type(), DataType::Float64);
    let err = schema.field_with_name(&String::from("nope")).unwrap_err();
    assert!(matches!(err, PlanError::UnresolvedColumn(_)));
}

#[test]
fn test_equal_types_untouched() {
    binary_cast_test(DataType::Int64, DataType::Int64, "#c0 Plus #c1");
    binary_cast_test(DataType::Utf8, DataType::Utf8, "#c0 Plus #c1");
}

#[test]
fn test_passthrough_nodes() {
    let schema = Schema::new(vec![
        Field::new("c0", DataType::Int32, true),
        Field::new("c1", DataType::Int64, true),
    ]);
    let rule = TypeCoercionRule::new(FunctionRegistry::new());
    let mismatched = Expr::BinaryExpr {
        left: Box::new(col("c0")),
        op: Operator::Plus,
        right: Box::new(col("c1")),
    };

    // A cast, a logical not and a sort specification are returned unchanged,
    // even when their inner expression would otherwise be rewritten.
    let cast = Expr::Cast { expr: Box::new(mismatched), data_type: DataType::Int64 };
    let rewritten = rule.rewrite_expr(&cast, &schema).unwrap();
    assert_eq!("CAST(#c0 Plus #c1 AS Int64)", rewritten.to_string());

    let not = Expr::Not(Box::new(col("c0")));
    let rewritten = rule.rewrite_expr(&not, &schema).unwrap();
    assert_eq!("NOT #c0", rewritten.to_string());

    let sort = Expr::Sort { expr: Box::new(col("c0")), asc: false };
    let rewritten = rule.rewrite_expr(&sort, &schema).unwrap();
    assert_eq!("#c0 DESC", rewritten.to_string());
}
