use snowflake_connector::bindings::{BindingValue, SqlDate, SqlDateTime, SqlDecimal, SqlTime};
use snowflake_connector::decode::{
    decode_field, decode_json_field, DecodeCause, DecodeError, DeserializeFromStr,
    SnowflakeDeserialize, SnowflakeSqlResult,
};
use snowflake_connector::response::{MetaData, PartitionInfo, RowType, SnowflakeSqlResponse};

fn some(s: &str) -> Option<String> {
    Some(String::from(s))
}

#[test]
fn scalar_round_trips() {
    let cases: Vec<(BindingValue, &str)> = vec![
        (BindingValue::Bool(true), "true"),
        (BindingValue::Bool(false), "false"),
        (BindingValue::Int(69), "69"),
        (BindingValue::Int(-69), "-69"),
        (BindingValue::BigInt(i64::MIN), "-9223372036854775808"),
        (BindingValue::BigUInt(u64::MAX), "18446744073709551615"),
        (BindingValue::UByte(0), "0"),
        (BindingValue::String(String::from("JoMama")), "JoMama"),
    ];
    for (value, expected) in &cases {
        assert_eq!(value.encode(), *expected);
    }
    assert_eq!(bool::deserialize_from_str(Some("true")), Ok(true));
    assert_eq!(bool::deserialize_from_str(Some("false")), Ok(false));
    assert_eq!(i32::deserialize_from_str(Some("69")).unwrap(), 69);
    assert_eq!(i32::deserialize_from_str(Some("-69")).unwrap(), -69);
    assert_eq!(
        i64::deserialize_from_str(Some("-9223372036854775808")).unwrap(),
        i64::MIN
    );
    assert_eq!(
        u64::deserialize_from_str(Some("18446744073709551615")).unwrap(),
        u64::MAX
    );
    assert_eq!(u8::deserialize_from_str(Some("0")).unwrap(), 0);
    assert_eq!(
        String::deserialize_from_str(Some("JoMama")).unwrap(),
        "JoMama"
    );
}

#[test]
fn integer_parse_errors() {
    assert_eq!(
        i16::deserialize_from_str(Some("40000")),
        Err(DecodeCause::OutOfRange)
    );
    assert_eq!(
        u64::deserialize_from_str(Some("-1")),
        Err(DecodeCause::InvalidSyntax)
    );
    assert_eq!(
        u64::deserialize_from_str(Some("99999999999999999999999999999999999999999")),
        Err(DecodeCause::OutOfRange)
    );
    assert_eq!(
        i64::deserialize_from_str(Some("")),
        Err(DecodeCause::InvalidSyntax)
    );
    assert_eq!(
        i64::deserialize_from_str(Some("12a")),
        Err(DecodeCause::InvalidSyntax)
    );
    assert_eq!(
        i64::deserialize_from_str(Some("+-3")),
        Err(DecodeCause::InvalidSyntax)
    );
    assert_eq!(i64::deserialize_from_str(Some("+7")).unwrap(), 7);
    assert_eq!(
        i64::deserialize_from_str(None),
        Err(DecodeCause::UnexpectedNull)
    );
    assert_eq!(
        bool::deserialize_from_str(Some("TRUE")),
        Err(DecodeCause::InvalidSyntax)
    );
    assert_eq!(
        <Option<i64>>::deserialize_from_str(None).unwrap(),
        None
    );
    assert_eq!(
        <Option<i64>>::deserialize_from_str(Some("5")).unwrap(),
        Some(5)
    );
    assert_eq!(
        <Option<i64>>::deserialize_from_str(Some("x")),
        Err(DecodeCause::InvalidSyntax)
    );
    assert_eq!(
        u128::deserialize_from_str(Some("340282366920938463463374607431768211455")).unwrap(),
        u128::MAX
    );
    assert_eq!(
        i128::deserialize_from_str(Some("-170141183460469231731687303715884105728")).unwrap(),
        i128::MIN
    );
    assert_eq!(
        i128::deserialize_from_str(Some("170141183460469231731687303715884105728")),
        Err(DecodeCause::OutOfRange)
    );
}

#[test]
fn temporal_and_decimal_encodings() {
    assert_eq!(
        BindingValue::DateTime(SqlDateTime { nanos_since_epoch: 1_689_333_321_000_000_000 })
            .encode(),
        "1689333321000000000"
    );
    // 2022-01-08 is 19000 days after the epoch; midnight in epoch millis.
    assert_eq!(
        BindingValue::Date(SqlDate { days_since_epoch: 19000 }).encode(),
        "1641600000000"
    );
    assert_eq!(
        BindingValue::Date(SqlDate { days_since_epoch: 0 }).encode(),
        "0"
    );
    // Two minutes past midnight: 120e9 nanoseconds, over sixty.
    assert_eq!(
        BindingValue::Time(SqlTime { nanos_of_day: 120_000_000_000 }).encode(),
        "2000000000"
    );
    assert_eq!(
        BindingValue::Decimal(SqlDecimal { mantissa: 12345, scale: 2 }).encode(),
        "123.45"
    );
    assert_eq!(
        BindingValue::Decimal(SqlDecimal { mantissa: 0, scale: 2 }).encode(),
        "0.00"
    );
    assert_eq!(
        BindingValue::Decimal(SqlDecimal { mantissa: -5, scale: 1 }).encode(),
        "-0.5"
    );
    assert_eq!(
        BindingValue::Decimal(SqlDecimal { mantissa: 7, scale: 0 }).encode(),
        "7"
    );
    assert_eq!(BindingValue::Char('x').encode(), "x");
}

#[test]
fn calendar_date_decoding() {
    let cases: Vec<(&str, i64)> = vec![
        ("2022-01-08", 19000),
        ("1970-01-01", 0),
        ("1969-12-31", -1),
        ("2000-02-29", 11016),
        ("9999-12-31", 2932896),
        ("0001-01-01", -719162),
    ];
    for (text, days) in &cases {
        let parsed = SqlDate::deserialize_from_str(Some(text)).expect("date parses");
        assert_eq!(parsed.days_since_epoch, *days, "for {text}");
    }
    for bad in [
        "1900-02-29",
        "2023-02-29",
        "2023-13-01",
        "2023-00-10",
        "2023-2-1",
        "2023/02/01",
        "0000-01-01",
        "abc",
        "",
    ] {
        assert_eq!(
            SqlDate::deserialize_from_str(Some(bad)),
            Err(DecodeCause::InvalidSyntax),
            "for {bad}"
        );
    }
    assert_eq!(
        SqlDate::deserialize_from_str(None),
        Err(DecodeCause::UnexpectedNull)
    );
}

#[test]
fn date_time_decoding() {
    let cases: Vec<(&str, i64)> = vec![
        ("1970-01-01 00:00:00", 0),
        ("2023-07-14 10:35:21", 1_689_330_921_000_000_000),
        ("2023-07-14 10:35:21.982", 1_689_330_921_982_000_000),
        ("1969-12-31 23:59:59", -1_000_000_000),
        ("2022-01-08 00:00:01.5", 1_641_600_001_500_000_000),
        ("2022-01-08 00:00:01.000000001", 1_641_600_001_000_000_001),
    ];
    for (text, nanos) in &cases {
        let parsed = SqlDateTime::deserialize_from_str(Some(text)).expect("date-time parses");
        assert_eq!(parsed.nanos_since_epoch, *nanos, "for {text}");
    }
    for bad in [
        "2023-07-14T10:35:21",
        "2023-07-14 24:00:00",
        "2023-07-14 10:60:00",
        "2023-07-14 10:35:61",
        "2023-07-14 10:35:21.",
        "2023-07-14 10:35:21.1234567890",
        "2023-02-29 10:35:21",
        "2023-07-14",
    ] {
        assert_eq!(
            SqlDateTime::deserialize_from_str(Some(bad)),
            Err(DecodeCause::InvalidSyntax),
            "for {bad}"
        );
    }
    // Beyond the nanosecond-representable range.
    assert_eq!(
        SqlDateTime::deserialize_from_str(Some("2300-01-01 00:00:00")),
        Err(DecodeCause::OutOfRange)
    );
    assert_eq!(
        SqlDateTime::deserialize_from_str(None),
        Err(DecodeCause::UnexpectedNull)
    );
}

#[derive(Debug)]
struct ClientRow {
    client_id: i64,
    name: Option<String>,
}

impl SnowflakeDeserialize for ClientRow {
    fn snowflake_deserialize(
        response: SnowflakeSqlResponse,
    ) -> Result<SnowflakeSqlResult<ClientRow>, DecodeError> {
        let mut data = Vec::with_capacity(response.result_set_meta_data.num_rows);
        for row in &response.data {
            assert!(row.len() >= 2);
            data.push(ClientRow {
                client_id: decode_field(row, 0, "client_id")?,
                name: decode_field(row, 1, "name")?,
            });
        }
        Ok(SnowflakeSqlResult { data })
    }
}

fn response_with_rows(rows: Vec<Vec<Option<String>>>) -> SnowflakeSqlResponse {
    let num_rows = rows.len();
    SnowflakeSqlResponse {
        result_set_meta_data: MetaData {
            num_rows,
            format: String::from("jsonv2"),
            row_type: Vec::new(),
            partition_info: vec![PartitionInfo { row_count: num_rows, uncompressed_size: 0 }],
        },
        data: rows,
        code: String::from("090001"),
        statement_status_url: String::new(),
        request_id: String::new(),
        sql_state: String::from("00000"),
        message: String::from("Statement executed successfully."),
        statement_handle: String::from("handle"),
    }
}

#[test]
fn embedded_json_field_decoding() {
    let row: Vec<Option<String>> = vec![
        some("{\"kind\":\"BBQ\",\"score\":7}"),
        some("{not json"),
        None,
    ];
    let value = decode_json_field(&row, 0, "metrics").expect("well-formed JSON cell");
    assert_eq!(value["kind"].as_str(), Some("BBQ"));
    assert_eq!(value["score"].as_i64(), Some(7));

    let err = decode_json_field(&row, 1, "metrics").expect_err("malformed JSON cell");
    assert_eq!(err.cause, DecodeCause::InvalidJson);
    assert_eq!(err.field_name, "metrics");
    assert_eq!(err.raw_value, some("{not json"));

    let err = decode_json_field(&row, 2, "metrics").expect_err("null cell");
    assert_eq!(err.cause, DecodeCause::UnexpectedNull);
    assert_eq!(err.raw_value, None);
}

#[test]
fn typed_row_decode_and_error_attribution() {
    let ok = response_with_rows(vec![vec![some("3"), None]]);
    let decoded = ok.deserialize::<ClientRow>().expect("decoding rows");
    assert_eq!(decoded.data.len(), 1);
    assert_eq!(decoded.data[0].client_id, 3);
    assert_eq!(decoded.data[0].name, None);

    let bad = response_with_rows(vec![vec![some("abc"), some("x")]]);
    let err = bad.deserialize::<ClientRow>().expect_err("first field must fail");
    assert_eq!(err.field_name, "client_id");
    assert_eq!(err.raw_value, some("abc"));
    assert_eq!(err.cause, DecodeCause::InvalidSyntax);
}

struct SnowyRow {
    client_id: String,
    client_name: String,
    site_id: String,
    site_name: String,
    num_permits: Option<i64>,
}

impl SnowflakeDeserialize for SnowyRow {
    fn snowflake_deserialize(
        response: SnowflakeSqlResponse,
    ) -> Result<SnowflakeSqlResult<SnowyRow>, DecodeError> {
        let mut data = Vec::with_capacity(response.result_set_meta_data.num_rows);
        for row in &response.data {
            assert!(row.len() >= 5);
            data.push(SnowyRow {
                client_id: decode_field(row, 0, "client_id")?,
                client_name: decode_field(row, 1, "client_name")?,
                site_id: decode_field(row, 2, "site_id")?,
                site_name: decode_field(row, 3, "site_name")?,
                num_permits: decode_field(row, 4, "num_permits")?,
            });
        }
        Ok(SnowflakeSqlResult { data })
    }
}

fn json_str(v: &serde_json::Value) -> String {
    String::from(v.as_str().expect("expected a string"))
}

fn json_to_response(v: &serde_json::Value) -> SnowflakeSqlResponse {
    let meta = &v["resultSetMetaData"];
    let row_type = meta["rowType"]
        .as_array()
        .expect("rowType array")
        .iter()
        .map(|c| RowType {
            name: json_str(&c["name"]),
            database: json_str(&c["database"]),
            schema: json_str(&c["schema"]),
            table: json_str(&c["table"]),
            precision: c["precision"].as_u64().map(|p| p as u32),
            byte_length: c["byteLength"].as_u64().map(|b| b as usize),
            data_type: json_str(&c["type"]),
            scale: c["scale"].as_i64().map(|s| s as i32),
            nullable: c["nullable"].as_bool().expect("nullable flag"),
        })
        .collect();
    let partition_info = meta["partitionInfo"]
        .as_array()
        .expect("partitionInfo array")
        .iter()
        .map(|p| PartitionInfo {
            row_count: p["rowCount"].as_u64().expect("rowCount") as usize,
            uncompressed_size: p["uncompressedSize"].as_u64().expect("uncompressedSize") as usize,
        })
        .collect();
    let data = v["data"]
        .as_array()
        .expect("data array")
        .iter()
        .map(|row| {
            row.as_array()
                .expect("row array")
                .iter()
                .map(|cell| cell.as_str().map(String::from))
                .collect()
        })
        .collect();
    SnowflakeSqlResponse {
        result_set_meta_data: MetaData {
            num_rows: meta["numRows"].as_u64().expect("numRows") as usize,
            format: json_str(&meta["format"]),
            row_type,
            partition_info,
        },
        data,
        code: json_str(&v["code"]),
        statement_status_url: json_str(&v["statementStatusUrl"]),
        request_id: json_str(&v["requestId"]),
        sql_state: json_str(&v["sqlState"]),
        message: json_str(&v["message"]),
        statement_handle: json_str(&v["statementHandle"]),
    }
}

#[test]
fn deserialize_example() {
    let value: serde_json::Value =
        serde_json::from_str(EXAMPLE).expect("deserializing response");
    let response = json_to_response(&value);

    let sql_res = response
        .deserialize::<SnowyRow>()
        .expect("deserializing snowy rows");
    assert_eq!(sql_res.data.len(), 2);
    assert_eq!(sql_res.data[0].client_id, "3");
    assert_eq!(sql_res.data[0].client_name, "Parkando");
    assert_eq!(sql_res.data[0].site_id, "7a7cb2b5-8f4b-4f49-9875-32576d808de2");
    assert_eq!(sql_res.data[0].site_name, "Grev Turegatan 29 - TCO-garaget");
    assert_eq!(sql_res.data[0].num_permits, None);
}

static EXAMPLE: &str = r#"
{
  "resultSetMetaData": {
    "numRows": 2,
    "format": "jsonv2",
    "partitionInfo": [
      {
        "rowCount": 2,
        "uncompressedSize": 201
      }
    ],
    "rowType": [
      {
        "name": "CLIENT_ID",
        "database": "M46_DATA_SHARE_PARKING",
        "schema": "PUBLIC",
        "table": "SPOTS_AND_AGREEMENTS",
        "byteLength": null,
        "type": "fixed",
        "scale": 0,
        "precision": 38,
        "nullable": false,
        "collation": null,
        "length": null
      },
      {
        "name": "CLIENT_NAME",
        "database": "M46_DATA_SHARE_PARKING",
        "schema": "PUBLIC",
        "table": "SPOTS_AND_AGREEMENTS",
        "byteLength": 16777216,
        "type": "text",
        "scale": null,
        "precision": null,
        "nullable": true,
        "collation": null,
        "length": 16777216
      },
      {
        "name": "SITE_ID",
        "database": "M46_DATA_SHARE_PARKING",
        "schema": "PUBLIC",
        "table": "SPOTS_AND_AGREEMENTS",
        "byteLength": 144,
        "type": "text",
        "scale": null,
        "precision": null,
        "nullable": true,
        "collation": null,
        "length": 36
      },
      {
        "name": "SITE_NAME",
        "database": "M46_DATA_SHARE_PARKING",
        "schema": "PUBLIC",
        "table": "SPOTS_AND_AGREEMENTS",
        "byteLength": 16777216,
        "type": "text",
        "scale": null,
        "precision": null,
        "nullable": true,
        "collation": null,
        "length": 16777216
      },
      {
        "name": "NUM_PERMITS",
        "database": "M46_DATA_SHARE_PARKING",
        "schema": "PUBLIC",
        "table": "SPOTS_AND_AGREEMENTS",
        "byteLength": null,
        "type": "fixed",
        "scale": 0,
        "precision": 38,
        "nullable": true,
        "collation": null,
        "length": null
      }
    ]
  },
  "data": [
    [
      "3",
      "Parkando",
      "7a7cb2b5-8f4b-4f49-9875-32576d808de2",
      "Grev Turegatan 29 - TCO-garaget",
      null
    ],
    [
      "3",
      "Parkando",
      "7a7cb2b5-8f4b-4f49-9875-32576d808de2",
      "Grev Turegatan 29 - TCO-garaget",
      null
    ]
  ],
  "code": "090001",
  "statementStatusUrl": "/api/v2/statements/01ad9ea3-3201-dca3-0000-a219000bb062?requestId=0a404baa-8f14-45f1-894c-a4f8ab7ca9de",
  "requestId": "0a404baa-8f14-45f1-894c-a4f8ab7ca9de",
  "sqlState": "00000",
  "statementHandle": "01ad9ea3-3201-dca3-0000-a219000bb062",
  "message": "Statement executed successfully.",
  "createdOn": 1689333321982
}

"#;
