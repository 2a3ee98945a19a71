use otterbrix_bench::names::{
    layer_str, mode_str, parse_mode, program_of, program_string, run_prefix, samples_string,
    scenario_str, ModeError,
};
use otterbrix_bench::plan::{Aggregate, Layer, MutateMode, Scenario, Variant};
use otterbrix_bench::scenarios::{CREATE_TABLE_SQL, TBL, TBL2};
use otterbrix_bench::sql::{
    aggregate_sql, bulk_insert_sql, create_database_sql, create_table_sql, delete_sql,
    insert_row_sql, join_sql, layer_style, select_id_sql, select_name_sql, select_range_sql,
    update_sql, ParamStyle, RowLiteral,
};

#[test]
fn program_and_sample_names() {
    assert_eq!(program_string(Scenario::Headline, Layer::Sys), "s1_headline_sys");
    assert_eq!(program_string(Scenario::Mutate, Layer::Otterbrix), "s10_mutate_otterbrix");
    assert_eq!(
        samples_string(Scenario::RangeScan, Layer::Otterbrix, Variant::RangeSize(100)),
        "s3_range_scan_otterbrix_k100"
    );
    assert_eq!(
        samples_string(Scenario::Aggregation, Layer::SeaOrm, Variant::Aggregate(Aggregate::Sum)),
        "s8_aggregation_seaorm_sum"
    );
    assert_eq!(
        samples_string(Scenario::Mutate, Layer::Sqlx, Variant::Mutation(MutateMode::Delete)),
        "s10_mutate_sqlx_delete"
    );
    assert_eq!(samples_string(Scenario::Open, Layer::Sys, Variant::Whole), "s6_open_sys");
    assert_eq!(layer_str(Layer::SeaOrm), "seaorm");
    assert_eq!(scenario_str(Scenario::Interactive), "s7_interactive");
    assert_eq!(mode_str(MutateMode::Update), "update");
}

#[test]
fn mode_argument() {
    assert_eq!(parse_mode(Some("update")), Ok(MutateMode::Update));
    assert_eq!(parse_mode(Some("delete")), Ok(MutateMode::Delete));
    assert_eq!(parse_mode(Some("UPDATE")), Err(ModeError::Invalid));
    assert_eq!(parse_mode(Some("")), Err(ModeError::Invalid));
    assert_eq!(parse_mode(None), Err(ModeError::Missing));
}

#[test]
fn program_lookup() {
    assert_eq!(program_of("s7_interactive_sqlx"), Some((Scenario::Interactive, Layer::Sqlx)));
    assert_eq!(program_of("s7_interactive_sys"), None);
    assert_eq!(program_of("s10_mutate_seaorm"), Some((Scenario::Mutate, Layer::SeaOrm)));
    assert_eq!(program_of("s1_headline_otterbrix"), Some((Scenario::Headline, Layer::Otterbrix)));
    assert_eq!(program_of("s1_headline"), None);
    assert_eq!(program_of("gen_bench_data"), None);
}

#[test]
fn run_prefixes() {
    assert_eq!(run_prefix("s5_sys_warm_", 3), "s5_sys_warm_3_");
    assert_eq!(run_prefix("s6_ob_", 199), "s6_ob_199_");
}

#[test]
fn statements_with_numbered_parameters() {
    let style = layer_style(Layer::Otterbrix);
    assert_eq!(style, ParamStyle::Numbered);
    assert_eq!(insert_row_sql(TBL, style), "INSERT INTO bench.t (id, name, x) VALUES ($1, $2, $3);");
    assert_eq!(insert_row_sql(TBL2, style), "INSERT INTO bench.u (id, name, x) VALUES ($1, $2, $3);");
    assert_eq!(select_name_sql(style), "SELECT name FROM bench.t WHERE id = $1;");
    assert_eq!(select_id_sql(style), "SELECT id FROM bench.t WHERE id = $1;");
    assert_eq!(select_range_sql(style), "SELECT id, name, x FROM bench.t WHERE id BETWEEN 1 AND $1;");
    assert_eq!(update_sql(style), "UPDATE bench.t SET x = $1 WHERE id = $2;");
    assert_eq!(delete_sql(style), "DELETE FROM bench.t WHERE id = $1;");
}

#[test]
fn statements_with_anonymous_parameters() {
    let style = layer_style(Layer::Sqlx);
    assert_eq!(style, ParamStyle::Anonymous);
    assert_eq!(insert_row_sql(TBL, style), "INSERT INTO bench.t (id, name, x) VALUES (?, ?, ?);");
    assert_eq!(update_sql(style), "UPDATE bench.t SET x = ? WHERE id = ?;");
    assert_eq!(select_name_sql(style), "SELECT name FROM bench.t WHERE id = ?;");
}

#[test]
fn fixed_statements() {
    assert_eq!(aggregate_sql(Aggregate::Sum), "SELECT SUM(x) FROM bench.t;");
    assert_eq!(aggregate_sql(Aggregate::Max), "SELECT MAX(x) FROM bench.t;");
    assert_eq!(
        join_sql(),
        "SELECT t.id, t.name, u.x FROM bench.t AS t INNER JOIN bench.u AS u ON t.id = u.id;"
    );
    assert_eq!(create_database_sql(), "CREATE DATABASE bench;");
    assert_eq!(create_table_sql(TBL), CREATE_TABLE_SQL);
    assert_eq!(create_table_sql(TBL2), "CREATE TABLE bench.u (id bigint, name string, x double);");
}

#[test]
fn bulk_insert_statement() {
    let rows = vec![
        RowLiteral { id: 1, name: "ab".to_string(), x_text: "0.5".to_string() },
        RowLiteral { id: -2, name: "cd".to_string(), x_text: format!("{}", -1.0e6f64) },
    ];
    assert_eq!(
        bulk_insert_sql(&rows),
        "INSERT INTO bench.t (id, name, x) VALUES (1, 'ab', 0.5), (-2, 'cd', -1000000);"
    );
    assert_eq!(bulk_insert_sql(&rows[..1]), "INSERT INTO bench.t (id, name, x) VALUES (1, 'ab', 0.5);");
    assert_eq!(bulk_insert_sql(&[]), "INSERT INTO bench.t (id, name, x) VALUES ;");
    let min = vec![RowLiteral { id: i64::MIN, name: String::new(), x_text: "0".to_string() }];
    assert_eq!(
        bulk_insert_sql(&min),
        format!("INSERT INTO bench.t (id, name, x) VALUES ({}, '', 0);", i64::MIN)
    );
}
