use snowflake_connector::classify::{
    classify_cancel_status, classify_poll_status, classify_response_status, PollClass,
    ResponseClass,
};
use snowflake_connector::lazy::{
    LazyRowIndexParseError, LazyRowParseError, LazyRowScalarError, LazyRows,
};
use snowflake_connector::multiple::{MultipleSnowflakeSQLResponse, StatementOutcome};
use snowflake_connector::request::{
    cancel_url, host_base_url, partition_url, statements_url, status_url,
};
use snowflake_connector::response::{
    MetaData, PartitionInfo, QueryFailureStatus, RowType, SnowflakeSqlResponse, StatementHandle,
};

fn some(s: &str) -> Option<String> {
    Some(String::from(s))
}

fn row_type(name: &str) -> RowType {
    RowType {
        name: String::from(name),
        database: String::from("DB"),
        schema: String::from("PUBLIC"),
        table: String::from("T"),
        precision: None,
        byte_length: None,
        data_type: String::from("text"),
        scale: None,
        nullable: true,
    }
}

fn partitioned_response() -> SnowflakeSqlResponse {
    SnowflakeSqlResponse {
        result_set_meta_data: MetaData {
            num_rows: 4,
            format: String::from("jsonv2"),
            row_type: vec![row_type("A")],
            partition_info: vec![
                PartitionInfo { row_count: 2, uncompressed_size: 10 },
                PartitionInfo { row_count: 1, uncompressed_size: 5 },
                PartitionInfo { row_count: 1, uncompressed_size: 5 },
            ],
        },
        data: vec![vec![some("r0")], vec![some("r1")]],
        code: String::from("090001"),
        statement_status_url: String::new(),
        request_id: String::new(),
        sql_state: String::from("00000"),
        message: String::new(),
        statement_handle: String::from("h"),
    }
}

#[test]
fn partition_merge_preserves_order_and_count() {
    let mut resp = partitioned_response();
    assert!(resp.has_partitions());
    assert_eq!(resp.partition_indices(), vec![1, 2]);
    resp.merge_partition(vec![vec![some("r2")]]);
    resp.merge_partition(vec![vec![some("r3")]]);
    assert_eq!(resp.data.len(), resp.result_set_meta_data.num_rows);
    let cells: Vec<&str> = resp
        .data
        .iter()
        .map(|row| row[0].as_deref().unwrap())
        .collect();
    assert_eq!(cells, vec!["r0", "r1", "r2", "r3"]);
}

#[test]
fn partition_merge_of_all_segments() {
    let mut resp = partitioned_response();
    resp.merge_partitions(vec![vec![vec![some("r2")]], vec![vec![some("r3")]]]);
    assert_eq!(resp.data.len(), 4);
    assert_eq!(resp.data.len(), resp.result_set_meta_data.num_rows);
    assert_eq!(resp.data[2][0].as_deref(), Some("r2"));
    assert_eq!(resp.data[3][0].as_deref(), Some("r3"));
}

#[test]
fn single_partition_needs_no_fetch() {
    let mut resp = partitioned_response();
    resp.result_set_meta_data.partition_info.truncate(1);
    assert!(!resp.has_partitions());
    assert_eq!(resp.partition_indices(), Vec::<usize>::new());
}

fn failure_status(handle: &str) -> QueryFailureStatus {
    QueryFailureStatus {
        code: String::from("002003"),
        sql_state: String::from("42S02"),
        message: String::from("Object does not exist"),
        statement_handle: StatementHandle::new(String::from(handle)),
        created_on: None,
        statement_status_url: None,
    }
}

fn completed_response() -> SnowflakeSqlResponse {
    SnowflakeSqlResponse {
        result_set_meta_data: MetaData {
            num_rows: 0,
            format: String::from("jsonv2"),
            row_type: Vec::new(),
            partition_info: vec![PartitionInfo { row_count: 0, uncompressed_size: 0 }],
        },
        data: Vec::new(),
        code: String::from("090001"),
        statement_status_url: String::new(),
        request_id: String::new(),
        sql_state: String::from("00000"),
        message: String::new(),
        statement_handle: String::from("H1"),
    }
}

#[test]
fn drain_keeps_only_retryable_handles() {
    let mut batch = MultipleSnowflakeSQLResponse {
        host: String::from("h/"),
        concatenated_statement: String::from("SELECT 1; SELECT 2; SELECT 3;"),
        statement_handles: vec![
            StatementHandle::new(String::from("H1")),
            StatementHandle::new(String::from("H2")),
            StatementHandle::new(String::from("H3")),
        ],
    };
    assert!(!batch.are_all_complete());
    let outcomes = vec![
        StatementOutcome::Completed(completed_response()),
        StatementOutcome::RateLimited(429),
        StatementOutcome::Failed(failure_status("H3")),
    ];
    let results = batch.complete(outcomes);

    assert_eq!(results.len(), 3);
    assert_eq!(results[0].0.handle(), "H1");
    assert!(matches!(results[0].1, StatementOutcome::Completed(_)));
    assert_eq!(results[1].0.handle(), "H2");
    assert!(matches!(results[1].1, StatementOutcome::RateLimited(429)));
    assert_eq!(results[2].0.handle(), "H3");
    match &results[2].1 {
        StatementOutcome::Failed(f) => {
            assert_eq!(f.code(), "002003");
            assert_eq!(f.message(), "Object does not exist");
        }
        other => panic!("H3 must be a terminal failure, got {:?}", other),
    }

    let pending = batch.unfinished_statements();
    assert_eq!(pending.len(), 1);
    assert_eq!(pending[0].handle(), "H2");
    assert!(!batch.are_all_complete());

    let results = batch.complete(vec![StatementOutcome::Completed(completed_response())]);
    assert_eq!(results.len(), 1);
    assert_eq!(results[0].0.handle(), "H2");
    assert!(batch.are_all_complete());
}

#[test]
fn status_code_classification() {
    assert_eq!(classify_response_status(200), ResponseClass::Complete);
    assert_eq!(classify_response_status(202), ResponseClass::InProgress);
    assert_eq!(classify_response_status(408), ResponseClass::InProgress);
    assert_eq!(classify_response_status(422), ResponseClass::Failed);
    assert_eq!(classify_response_status(429), ResponseClass::Unknown);
    assert_eq!(classify_response_status(500), ResponseClass::Unknown);

    assert_eq!(classify_poll_status(200), PollClass::Complete);
    assert_eq!(classify_poll_status(202), PollClass::InProgress);
    assert_eq!(classify_poll_status(408), PollClass::InProgress);
    assert_eq!(classify_poll_status(422), PollClass::Failed);
    assert_eq!(classify_poll_status(429), PollClass::RateLimited);
    assert_eq!(classify_poll_status(503), PollClass::RateLimited);
    assert_eq!(classify_poll_status(504), PollClass::RateLimited);
    assert_eq!(classify_poll_status(500), PollClass::Unknown);

    assert_eq!(classify_cancel_status(200), Ok(()));
    assert_eq!(classify_cancel_status(404), Err(404));
}

#[test]
fn urls_are_assembled_exactly() {
    assert_eq!(
        host_base_url("FIRST-LAST"),
        "https://FIRST-LAST.snowflakecomputing.com/api/v2/"
    );
    assert_eq!(
        statements_url("https://x/api/v2/", "0a404baa"),
        "https://x/api/v2/statements?nullable=false&requestId=0a404baa"
    );
    assert_eq!(
        status_url("https://x/api/v2/", "01ad9ea3"),
        "https://x/api/v2/statements/01ad9ea3?nullable=false"
    );
    assert_eq!(
        partition_url("https://x/api/v2/", "01ad9ea3", 2),
        "https://x/api/v2/statements/01ad9ea3?partition=2"
    );
    assert_eq!(
        cancel_url("https://x/api/v2/", "01ad9ea3"),
        "https://x/api/v2/statements/01ad9ea3/cancel"
    );
}

fn lazy_rows() -> LazyRows {
    let metadata = MetaData {
        num_rows: 2,
        format: String::from("jsonv2"),
        row_type: vec![row_type("ID"), row_type("NAME"), row_type("ID")],
        partition_info: vec![PartitionInfo { row_count: 2, uncompressed_size: 0 }],
    };
    LazyRows::new(
        &metadata,
        vec![
            vec![some("3"), some("\"Parkando\""), some("{")],
            vec![some("4"), None, some("7")],
        ],
    )
}

#[test]
fn lazy_lookup_and_cell_parse() {
    let rows = lazy_rows();
    assert_eq!(rows.get_index_of_column("NAME"), Some(1));
    // With a duplicate column name the later position wins.
    assert_eq!(rows.get_index_of_column("ID"), Some(2));
    assert_eq!(rows.get_index_of_column("MISSING"), None);

    let row = rows.at(0).expect("row 0 exists");
    assert!(rows.at(2).is_none());

    let name = row.get("NAME").expect("NAME parses");
    assert_eq!(name.as_str(), Some("Parkando"));
    match row.get("MISSING") {
        Err(LazyRowParseError::UnknownName(n)) => assert_eq!(n, "MISSING"),
        other => panic!("expected an unknown-name error, got {:?}", other.map(|_| ())),
    }
    // The duplicate name resolves to the last column, whose cell is not JSON.
    assert!(matches!(row.get("ID"), Err(LazyRowParseError::Deserialize(_))));

    let by_index = row.get_from_index(0).expect("cell 0 parses");
    assert_eq!(by_index.as_i64(), Some(3));
    assert!(matches!(
        row.get_from_index(9),
        Err(LazyRowIndexParseError::InvalidIndex(9))
    ));

    let row1 = rows.at(1).expect("row 1 exists");
    assert!(matches!(row1.get("NAME"), Err(LazyRowParseError::NullCell)));
    assert!(matches!(
        row1.get_from_index(1),
        Err(LazyRowIndexParseError::NullCell)
    ));
    let id: i64 = row1.get_scalar("ID").expect("scalar decodes");
    assert_eq!(id, 7);
    match row1.get_scalar::<i64>("MISSING") {
        Err(LazyRowScalarError::UnknownName(n)) => assert_eq!(n, "MISSING"),
        other => panic!("expected an unknown-name error, got {:?}", other),
    }
    match rows.at(0).unwrap().get_scalar::<i64>("NAME") {
        Err(LazyRowScalarError::Decode(c)) => {
            assert_eq!(c, snowflake_connector::decode::DecodeCause::InvalidSyntax)
        }
        other => panic!("expected a decode error, got {:?}", other),
    }
}
