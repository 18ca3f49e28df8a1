use snowflake_connector::bindings::BindingValue;
use snowflake_connector::multiple::{MultipleSnowflakeSQL, SnowflakeSQLStatementType};
use snowflake_connector::request::{binding_key, SnowflakeExecutor};

fn create_data() -> MultipleSnowflakeSQL {
    MultipleSnowflakeSQL {
        database: String::from("TEST_DB"),
        host: String::from("TEST_HOST"),
        statement: Vec::new(),
        additional_statements_count: 0,
        request_id: String::new(),
    }
}

#[test]
fn sql() {
    let executor = SnowflakeExecutor::new(
        String::from("https://HOST.snowflakecomputing.com/api/v2/"),
        String::from("DB"),
    );
    let sql = executor
        .sql(String::from("SELECT * FROM TEST_TABLE WHERE id = ? AND name = ?"))
        .add_binding(BindingValue::Int(69));
    assert_eq!(sql.query.bindings.len(), 1);
    let sql = sql.add_binding(BindingValue::String(String::from("JoMama")));
    assert_eq!(sql.query.bindings.len(), 2);
}

#[test]
fn sql_insertion() {
    let data = create_data();
    let data = data.add_sql(String::from("SELECT * FROM TEST_TABLE;"));
    assert_eq!(1, data.statement.len());
    assert_eq!(0, data.additional_statements_count);
}

#[test]
fn multiple_sql_insertion() {
    let data = create_data();
    let data = data.add_multiple_sql(
        2,
        String::from("SELECT * FROM TEST_TABLE; SELECT * FROM TEST_TABLE;"),
    );
    assert_eq!(2, data.statement.len() + data.additional_statements_count);
}

#[test]
fn bindings_get_positional_keys_and_tags() {
    let executor = SnowflakeExecutor::new(
        String::from("https://HOST.snowflakecomputing.com/api/v2/"),
        String::from("DB"),
    );
    let sql = executor
        .sql(String::from("SELECT * FROM TEST_TABLE WHERE id = ? AND name = ?"))
        .add_binding(BindingValue::Int(69))
        .add_binding(BindingValue::String(String::from("JoMama")));
    assert_eq!(sql.query.bindings.len(), 2);
    assert_eq!(binding_key(0), "1");
    assert_eq!(binding_key(1), "2");
    assert_eq!(sql.query.bindings[0].value_type, "FIXED");
    assert_eq!(sql.query.bindings[1].value_type, "TEXT");
    assert_eq!(sql.query.bindings[0].value, "69");
    assert_eq!(sql.query.bindings[1].value, "JoMama");
}

#[test]
fn batch_concatenation_and_count() {
    let batch = create_data()
        .add_sql(String::from("SELECT A FROM T1;"))
        .add_multiple_sql(3, String::from("SELECT B FROM T2; SELECT B FROM T2; SELECT B FROM T2;"))
        .add_sql(String::from("SELECT C FROM T3;"));
    match batch.finish_sql() {
        SnowflakeSQLStatementType::Multiple(m) => {
            let (statement, count) = m.get_statement();
            assert_eq!(count, 5);
            assert_eq!(
                statement,
                "SELECT A FROM T1; SELECT B FROM T2; SELECT B FROM T2; SELECT B FROM T2; SELECT C FROM T3;"
            );
        }
        SnowflakeSQLStatementType::Single(_) => panic!("expected a multi-statement body"),
    }
}

#[test]
fn batch_of_one_collapses_to_single() {
    let batch = create_data().add_sql(String::from("SELECT 1;"));
    match batch.finish_sql() {
        SnowflakeSQLStatementType::Single(q) => {
            assert_eq!(q.query.statement, "SELECT 1;");
            assert_eq!(q.query.database, "TEST_DB");
        }
        SnowflakeSQLStatementType::Multiple(_) => panic!("expected a single statement"),
    }
}

#[test]
fn builder_options_are_kept() {
    let executor = SnowflakeExecutor::new(String::from("h/"), String::from("DB"));
    let q = executor
        .sql(String::from("SELECT 1"))
        .with_timeout(30)
        .with_role(String::from("ADMIN"))
        .with_warehouse(String::from("WH"));
    assert_eq!(q.query.timeout, Some(30));
    assert_eq!(q.query.role.as_deref(), Some("ADMIN"));
    assert_eq!(q.query.warehouse.as_deref(), Some("WH"));
    assert_eq!(q.request_id.len(), 36);
}
