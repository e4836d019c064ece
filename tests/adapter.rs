use bytes::BytesMut;
use postgres_types::{ToSql, Type};
use steel_postgres::value::{BOOL_OID, BYTEA_OID, INT2_OID, INT4_OID, INT8_OID, TEXT_OID};
use steel_postgres::{
    decode_column, decode_row, decode_rows, encode_parameter, encode_parameters, ColumnType, Param,
    PostgresError, RawColumn, Value,
};

fn col(oid: u32, data: &[u8]) -> RawColumn {
    RawColumn { oid, data: Some(data.to_vec()) }
}

fn null(oid: u32) -> RawColumn {
    RawColumn { oid, data: None }
}

fn wire<T: ToSql>(v: T, ty: &Type) -> Vec<u8> {
    let mut out = BytesMut::new();
    v.to_sql(ty, &mut out).unwrap();
    out.to_vec()
}

#[test]
fn oids_match_client_types() {
    assert_eq!(BOOL_OID, Type::BOOL.oid());
    assert_eq!(BYTEA_OID, Type::BYTEA.oid());
    assert_eq!(INT2_OID, Type::INT2.oid());
    assert_eq!(INT4_OID, Type::INT4.oid());
    assert_eq!(INT8_OID, Type::INT8.oid());
    assert_eq!(TEXT_OID, Type::TEXT.oid());
}

#[test]
fn column_type_from_oid() {
    assert_eq!(ColumnType::from_oid(16), ColumnType::Bool);
    assert_eq!(ColumnType::from_oid(23), ColumnType::Int4);
    assert_eq!(ColumnType::from_oid(Type::FLOAT8.oid()), ColumnType::Other(701));
    assert_eq!(ColumnType::Text.oid(), 25);
    assert_eq!(ColumnType::Other(1082).oid(), 1082);
}

#[test]
fn encode_each_leaf() {
    let params = Value::Vector(vec![
        Value::Bool(true),
        Value::Number(1.5f64.to_bits()),
        Value::Int(-7),
        Value::String("héllo".to_string()),
        Value::Void,
    ]);
    let ps = encode_parameters(&params).unwrap();
    assert_eq!(
        ps,
        vec![
            Param::Bool(true),
            Param::Float8(1.5f64.to_bits()),
            Param::Int4(-7),
            Param::Text("héllo".to_string()),
            Param::Null,
        ]
    );
}

#[test]
fn encode_empty_vector() {
    assert_eq!(encode_parameters(&Value::Vector(vec![])).unwrap(), vec![]);
}

#[test]
fn encode_non_vector_is_type_mismatch() {
    for v in [Value::Int(1), Value::Void, Value::String("x".to_string()), Value::Bytes(vec![1])] {
        assert!(matches!(encode_parameters(&v), Err(PostgresError::TypeMismatch)));
    }
}

#[test]
fn encode_bytes_is_unsupported() {
    let params = Value::Vector(vec![Value::Int(1), Value::Bytes(vec![1, 2]), Value::Vector(vec![])]);
    assert!(matches!(
        encode_parameters(&params),
        Err(PostgresError::UnsupportedParameter { index: 1 })
    ));
}

#[test]
fn encode_nested_vector_is_unsupported() {
    let params = Value::Vector(vec![Value::Void, Value::Vector(vec![Value::Int(1)])]);
    assert!(matches!(
        encode_parameters(&params),
        Err(PostgresError::UnsupportedParameter { index: 1 })
    ));
    assert_eq!(encode_parameter(&Value::Vector(vec![])), None);
}

#[test]
fn decode_bool() {
    assert_eq!(decode_column(&col(BOOL_OID, &[1]), 0, 0).unwrap(), Value::Bool(true));
    assert_eq!(decode_column(&col(BOOL_OID, &[0]), 0, 0).unwrap(), Value::Bool(false));
}

#[test]
fn decode_integers() {
    assert_eq!(decode_column(&col(INT2_OID, &[0xff, 0xfe]), 0, 0).unwrap(), Value::Int(-2));
    assert_eq!(decode_column(&col(INT4_OID, &[0, 1, 0, 0]), 0, 0).unwrap(), Value::Int(65536));
    assert_eq!(
        decode_column(&col(INT8_OID, &[0, 0, 0, 0, 0x7f, 0xff, 0xff, 0xff]), 0, 0).unwrap(),
        Value::Int(i32::MAX)
    );
}

#[test]
fn decode_int8_narrows_to_low_bits() {
    let big = wire((1i64 << 32) + 5, &Type::INT8);
    assert_eq!(decode_column(&col(INT8_OID, &big), 0, 0).unwrap(), Value::Int(5));
    let neg = wire(-1i64, &Type::INT8);
    assert_eq!(decode_column(&col(INT8_OID, &neg), 0, 0).unwrap(), Value::Int(-1));
}

#[test]
fn decode_text_and_bytes() {
    assert_eq!(
        decode_column(&col(TEXT_OID, "añb".as_bytes()), 0, 0).unwrap(),
        Value::String("añb".to_string())
    );
    assert_eq!(decode_column(&col(TEXT_OID, &[]), 0, 0).unwrap(), Value::String(String::new()));
    assert_eq!(decode_column(&col(BYTEA_OID, &[9, 8, 7]), 0, 0).unwrap(), Value::Bytes(vec![9, 8, 7]));
}

#[test]
fn decode_null_of_every_supported_type_is_void() {
    for oid in [BOOL_OID, BYTEA_OID, INT2_OID, INT4_OID, INT8_OID, TEXT_OID] {
        assert_eq!(decode_column(&null(oid), 0, 0).unwrap(), Value::Void);
    }
}

#[test]
fn decode_unsupported_type() {
    let float8 = Type::FLOAT8.oid();
    assert!(matches!(
        decode_column(&col(float8, &[0; 8]), 3, 2),
        Err(PostgresError::UnsupportedColumnType { row: 3, column: 2, oid: 701 })
    ));
    assert!(matches!(
        decode_column(&null(float8), 0, 0),
        Err(PostgresError::UnsupportedColumnType { .. })
    ));
}

#[test]
fn decode_invalid_data() {
    assert!(matches!(
        decode_column(&col(INT4_OID, &[0, 0, 1]), 1, 4),
        Err(PostgresError::InvalidColumnData { row: 1, column: 4, oid: 23 })
    ));
    assert!(matches!(
        decode_column(&col(BOOL_OID, &[]), 0, 0),
        Err(PostgresError::InvalidColumnData { .. })
    ));
    assert!(matches!(
        decode_column(&col(TEXT_OID, &[0xff, 0xfe]), 0, 0),
        Err(PostgresError::InvalidColumnData { .. })
    ));
}

#[test]
fn decode_row_first_error() {
    let row = vec![col(INT4_OID, &[0, 0, 0, 1]), col(INT2_OID, &[1]), col(1082, &[0; 4])];
    assert!(matches!(
        decode_row(&row, 6),
        Err(PostgresError::InvalidColumnData { row: 6, column: 1, oid: 21 })
    ));
}

#[test]
fn query_zero_rows_is_empty_vector() {
    assert_eq!(decode_rows(&vec![]).unwrap(), Value::Vector(vec![]));
}

#[test]
fn query_one_row_keeps_column_order() {
    let row = vec![
        col(TEXT_OID, b"a"),
        col(INT4_OID, &[0, 0, 0, 2]),
        col(BOOL_OID, &[1]),
        null(INT8_OID),
        col(BYTEA_OID, &[3]),
    ];
    assert_eq!(
        decode_rows(&vec![row]).unwrap(),
        Value::Vector(vec![Value::Vector(vec![
            Value::String("a".to_string()),
            Value::Int(2),
            Value::Bool(true),
            Value::Void,
            Value::Bytes(vec![3]),
        ])])
    );
}

#[test]
fn query_zero_columns_gives_empty_rows() {
    assert_eq!(
        decode_rows(&vec![vec![], vec![]]).unwrap(),
        Value::Vector(vec![Value::Vector(vec![]), Value::Vector(vec![])])
    );
}

#[test]
fn query_unsupported_column_discards_rows() {
    let rows = vec![
        vec![col(INT4_OID, &[0, 0, 0, 1])],
        vec![col(INT4_OID, &[0, 0, 0, 2])],
        vec![col(Type::FLOAT8.oid(), &[0; 8])],
    ];
    assert!(matches!(
        decode_rows(&rows),
        Err(PostgresError::UnsupportedColumnType { row: 2, column: 0, oid: 701 })
    ));
}

#[test]
fn round_trip_through_client_encoding() {
    let params = Value::Vector(vec![
        Value::Bool(false),
        Value::Int(i32::MIN),
        Value::String("zé".to_string()),
    ]);
    let ps = encode_parameters(&params).unwrap();
    let mut row = Vec::new();
    for p in &ps {
        row.push(match p {
            Param::Bool(b) => col(BOOL_OID, &wire(*b, &Type::BOOL)),
            Param::Int4(i) => col(INT4_OID, &wire(*i, &Type::INT4)),
            Param::Text(s) => col(TEXT_OID, &wire(s.as_str(), &Type::TEXT)),
            _ => unreachable!(),
        });
    }
    let expected = vec![Value::Bool(false), Value::Int(i32::MIN), Value::String("zé".to_string())];
    assert_eq!(decode_rows(&vec![row]).unwrap(), Value::Vector(vec![Value::Vector(expected)]));
}

#[test]
fn int8_within_range_round_trips() {
    for x in [0i64, 42, -42, i32::MAX as i64, i32::MIN as i64] {
        assert_eq!(decode_column(&col(INT8_OID, &wire(x, &Type::INT8)), 0, 0).unwrap(), Value::Int(x as i32));
    }
}

#[test]
fn void_parameter_is_null() {
    assert_eq!(encode_parameter(&Value::Void), Some(Param::Null));
}

#[test]
fn insert_then_select_scenario() {
    let ps = encode_parameters(&Value::Vector(vec![Value::Int(42)])).unwrap();
    assert_eq!(ps, vec![Param::Int4(42)]);
    let rows = vec![vec![col(INT4_OID, &wire(42i32, &Type::INT4))]];
    assert_eq!(
        decode_rows(&rows).unwrap(),
        Value::Vector(vec![Value::Vector(vec![Value::Int(42)])])
    );
}

#[test]
fn adapter_errors_are_not_client_errors() {
    assert!(!PostgresError::TypeMismatch.is_client_error());
    let e = encode_parameters(&Value::Bool(true)).unwrap_err();
    assert!(!e.is_client_error());
}
