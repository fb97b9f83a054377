use serde_arrow::builder::{deserialize, serialize, Array, ArrayBuilder, FixedSizeListBuilder, Value};
use serde_arrow::error::ErrorKind;
use serde_arrow::schema::{DataType, Field, FieldMeta, STRATEGY_KEY};

fn field(name: &str, data_type: DataType, nullable: bool) -> Field {
    Field {
        name: name.to_owned(),
        data_type,
        nullable,
        metadata: Vec::new(),
    }
}

fn ints(values: &[i64]) -> Value {
    Value::List(values.iter().map(|v| Value::Int(*v)).collect())
}

#[test]
fn list_offsets_of_vec_samples() {
    let f = field(
        "$",
        DataType::LargeList(Box::new(field("element", DataType::Int64, false))),
        false,
    );
    let array = serialize(&f, &vec![ints(&[1, 2]), ints(&[3]), ints(&[])]).unwrap();
    match array {
        Array::LargeList(list) => {
            assert_eq!(list.offsets, vec![0, 2, 3, 3]);
            assert!(list.validity.is_none());
            match *list.element {
                Array::Int64(None, values) => assert_eq!(values, vec![1, 2, 3]),
                other => panic!("unexpected element {other:?}"),
            }
        }
        other => panic!("unexpected array {other:?}"),
    }
}

#[test]
fn null_list_rows_are_empty() {
    let f = field(
        "$",
        DataType::LargeList(Box::new(field("element", DataType::Int64, false))),
        true,
    );
    let array = serialize(&f, &vec![ints(&[1]), Value::Null, ints(&[2, 3])]).unwrap();
    match array {
        Array::LargeList(list) => {
            assert_eq!(list.offsets, vec![0, 1, 1, 3]);
            assert_eq!(list.validity.unwrap().as_bool(), vec![true, false, true]);
        }
        other => panic!("unexpected array {other:?}"),
    }
}

#[test]
fn struct_children_match_the_struct_length() {
    let f = field(
        "$",
        DataType::Struct(vec![
            field("a", DataType::Int32, false),
            field("b", DataType::LargeUtf8, true),
        ]),
        true,
    );
    let records = vec![
        Value::Struct(vec![
            ("a".to_owned(), Value::Int(1)),
            ("b".to_owned(), Value::Str("xy".to_owned())),
        ]),
        Value::Struct(vec![("a".to_owned(), Value::Int(2))]),
        Value::Null,
    ];
    let array = serialize(&f, &records).unwrap();
    match array {
        Array::Struct(s) => {
            assert_eq!(s.len, 3);
            assert_eq!(s.validity.unwrap().as_bool(), vec![true, true, false]);
            match &s.fields[0].1 {
                Array::Int32(None, values) => assert_eq!(values, &vec![1, 2, 0]),
                other => panic!("unexpected child {other:?}"),
            }
            match &s.fields[1].1 {
                Array::LargeUtf8(a) => {
                    assert_eq!(a.offsets, vec![0, 2, 2, 2]);
                    assert_eq!(a.data, b"xy".to_vec());
                    assert_eq!(a.validity.as_ref().unwrap().as_bool(), vec![true, false, false]);
                }
                other => panic!("unexpected child {other:?}"),
            }
        }
        other => panic!("unexpected array {other:?}"),
    }
}

#[test]
fn non_nullable_columns_have_no_validity_and_refuse_nulls() {
    let f = field("$", DataType::Int64, false);
    let array = serialize(&f, &vec![Value::Int(13), Value::Int(21)]).unwrap();
    match array {
        Array::Int64(validity, values) => {
            assert!(validity.is_none());
            assert_eq!(values, vec![13, 21]);
        }
        other => panic!("unexpected array {other:?}"),
    }
    let err = serialize(&f, &vec![Value::Null]).unwrap_err();
    assert_eq!(err.kind, ErrorKind::Invalid);
}

#[test]
fn integers_out_of_range_are_rejected() {
    let f = field("$", DataType::Int32, false);
    let err = serialize(&f, &vec![Value::Int(1 << 40)]).unwrap_err();
    assert_eq!(err.kind, ErrorKind::OutOfRange);
    assert_eq!(err.path(), Some("$"));
}

#[test]
fn mismatched_values_and_unknown_members_fail() {
    let f = field("$", DataType::Boolean, false);
    assert!(serialize(&f, &vec![Value::Int(1)]).is_err());
    let f = field("$", DataType::Struct(vec![field("a", DataType::Boolean, false)]), false);
    let err = serialize(
        &f,
        &vec![Value::Struct(vec![("zz".to_owned(), Value::Bool(true))])],
    )
    .unwrap_err();
    assert_eq!(err.kind, ErrorKind::Shape);
    let err = serialize(
        &f,
        &vec![Value::Struct(vec![
            ("a".to_owned(), Value::Bool(true)),
            ("a".to_owned(), Value::Bool(false)),
        ])],
    )
    .unwrap_err();
    assert_eq!(err.kind, ErrorKind::Shape);
}

#[test]
fn fixed_size_lists_check_their_stride() {
    let f = field(
        "$",
        DataType::FixedSizeList(Box::new(field("element", DataType::Int64, false)), 2),
        true,
    );
    let array = serialize(&f, &vec![ints(&[1, 2]), Value::Null]).unwrap();
    match array {
        Array::FixedSizeList(a) => {
            assert_eq!(a.len, 2);
            assert_eq!(a.n, 2);
            match *a.element {
                Array::Int64(None, values) => assert_eq!(values, vec![1, 2, 0, 0]),
                other => panic!("unexpected element {other:?}"),
            }
        }
        other => panic!("unexpected array {other:?}"),
    }
    let err = serialize(&f, &vec![ints(&[1, 2, 3])]).unwrap_err();
    assert_eq!(err.kind, ErrorKind::Shape);
    assert!(err.message.contains("Invalid number of elements for FixedSizedList"));
}

#[test]
fn fixed_size_list_builder_take_and_finish() {
    let element = ArrayBuilder::from_field("$.element", &field("element", DataType::Int64, false))
        .unwrap();
    let meta = FieldMeta {
        name: "element".to_owned(),
        nullable: false,
        metadata: Vec::new(),
    };
    let mut b = FixedSizeListBuilder::new("$".to_owned(), meta, element, 3, true);
    assert!(b.is_nullable());
    let mut whole = ArrayBuilder::FixedSizedList(b);
    whole.push(&ints(&[1, 2, 3])).unwrap();
    whole.push_none().unwrap();
    b = match whole {
        ArrayBuilder::FixedSizedList(b) => b,
        _ => unreachable!(),
    };
    let taken = b.take();
    assert_eq!(taken.len(), 2);
    assert_eq!(b.len, 0);
    let array = b.into_array().unwrap();
    match array {
        Array::FixedSizeList(a) => assert_eq!(a.len, 0),
        other => panic!("unexpected array {other:?}"),
    }
    match taken.into_array().unwrap() {
        Array::FixedSizeList(a) => {
            assert_eq!(a.len, 2);
            assert_eq!(a.validity.unwrap().as_bool(), vec![true, false]);
        }
        other => panic!("unexpected array {other:?}"),
    }
}

#[test]
fn unsupported_types_are_refused() {
    let f = field("$", DataType::Float64, false);
    assert_eq!(
        ArrayBuilder::from_field("$", &f).unwrap_err().kind,
        ErrorKind::Unsupported
    );
}

#[test]
fn scalar_columns_read_back_as_written() {
    let records = vec![Value::Int(13), Value::Null, Value::Int(42)];
    for dt in [DataType::Int64, DataType::Int32] {
        let f = field("$", dt, true);
        let array = serialize(&f, &records).unwrap();
        let back = deserialize(&array).unwrap();
        assert_eq!(back.len(), 3);
        assert!(matches!(back[0], Value::Int(13)));
        assert!(matches!(back[1], Value::Null));
        assert!(matches!(back[2], Value::Int(42)));
    }
    let f = field("$", DataType::Boolean, false);
    let array = serialize(&f, &vec![Value::Bool(true), Value::Bool(false)]).unwrap();
    let back = deserialize(&array).unwrap();
    assert!(matches!(back[0], Value::Bool(true)));
    assert!(matches!(back[1], Value::Bool(false)));
    let f = field("$", DataType::LargeList(Box::new(field("element", DataType::Int64, false))), false);
    let array = serialize(&f, &vec![Value::List(vec![])]).unwrap();
    assert_eq!(deserialize(&array).unwrap_err().kind, ErrorKind::Unsupported);
}

#[test]
fn string_columns_read_back_as_written() {
    let f = field("$", DataType::LargeUtf8, true);
    let records = vec![
        Value::Str("héllo".to_owned()),
        Value::Null,
        Value::Str(String::new()),
    ];
    let array = serialize(&f, &records).unwrap();
    let back = deserialize(&array).unwrap();
    assert_eq!(back.len(), 3);
    assert!(matches!(&back[0], Value::Str(s) if s == "héllo"));
    assert!(matches!(back[1], Value::Null));
    assert!(matches!(&back[2], Value::Str(s) if s.is_empty()));
}

#[test]
fn invalid_utf8_is_not_read() {
    let array = Array::LargeUtf8(serde_arrow::builder::LargeUtf8Array {
        validity: None,
        offsets: vec![0, 2],
        data: vec![0xff, 0xfe],
    });
    assert_eq!(deserialize(&array).unwrap_err().kind, ErrorKind::Invalid);
}

#[test]
fn dense_unions_record_type_ids_and_offsets() {
    let f = field(
        "$",
        DataType::DenseUnion(vec![
            (0, field("A", DataType::Int64, false)),
            (1, field("B", DataType::Boolean, false)),
        ]),
        false,
    );
    let records = vec![
        Value::Variant(1, Box::new(Value::Bool(true))),
        Value::Variant(0, Box::new(Value::Int(7))),
        Value::Variant(1, Box::new(Value::Bool(false))),
    ];
    match serialize(&f, &records).unwrap() {
        Array::DenseUnion(u) => {
            assert_eq!(u.types, vec![1, 0, 1]);
            assert_eq!(u.offsets, vec![0, 0, 1]);
            assert_eq!(u.fields.len(), 2);
            assert_eq!(u.fields[0].0, 0);
            assert_eq!(u.fields[1].0, 1);
        }
        other => panic!("unexpected array {other:?}"),
    }
    let err = serialize(&f, &vec![Value::Variant(5, Box::new(Value::Null))]).unwrap_err();
    assert_eq!(err.kind, ErrorKind::Shape);
    let bad = field(
        "$",
        DataType::DenseUnion(vec![(1, field("A", DataType::Int64, false))]),
        false,
    );
    assert_eq!(
        ArrayBuilder::from_field("$", &bad).unwrap_err().kind,
        ErrorKind::Unsupported
    );
}

#[test]
fn maps_keep_keys_and_values_parallel() {
    let f = field(
        "$",
        DataType::Mapping(
            Box::new(field("key", DataType::LargeUtf8, false)),
            Box::new(field("value", DataType::Int64, true)),
        ),
        true,
    );
    let records = vec![
        Value::Entries(vec![
            (Value::Str("a".to_owned()), Value::Int(1)),
            (Value::Str("b".to_owned()), Value::Null),
        ]),
        Value::Null,
        Value::Entries(vec![]),
    ];
    match serialize(&f, &records).unwrap() {
        Array::KeyValues(m) => {
            assert_eq!(m.offsets, vec![0, 2, 2, 2]);
            assert_eq!(m.validity.unwrap().as_bool(), vec![true, false, true]);
            match *m.values {
                Array::Int64(Some(validity), values) => {
                    assert_eq!(values, vec![1, 0]);
                    assert_eq!(validity.as_bool(), vec![true, false]);
                }
                other => panic!("unexpected values {other:?}"),
            }
        }
        other => panic!("unexpected array {other:?}"),
    }
    let nullable_keys = field(
        "$",
        DataType::Mapping(
            Box::new(field("key", DataType::LargeUtf8, true)),
            Box::new(field("value", DataType::Int64, false)),
        ),
        false,
    );
    assert_eq!(
        ArrayBuilder::from_field("$", &nullable_keys).unwrap_err().kind,
        ErrorKind::Invalid
    );
}

#[test]
fn dictionaries_store_each_string_once() {
    let f = field(
        "$",
        DataType::Dictionary(Box::new(DataType::UInt32), Box::new(DataType::LargeUtf8)),
        true,
    );
    let records = vec![
        Value::Str("red".to_owned()),
        Value::Str("blue".to_owned()),
        Value::Null,
        Value::Str("red".to_owned()),
    ];
    match serialize(&f, &records).unwrap() {
        Array::Dictionary(d) => {
            assert_eq!(d.indices, vec![0, 1, 0, 0]);
            assert_eq!(d.validity.unwrap().as_bool(), vec![true, true, false, true]);
            assert_eq!(d.values.offsets, vec![0, 3, 7]);
            assert_eq!(d.values.data, b"redblue".to_vec());
        }
        other => panic!("unexpected array {other:?}"),
    }
    let other = field(
        "$",
        DataType::Dictionary(Box::new(DataType::Int8), Box::new(DataType::Utf8)),
        false,
    );
    assert_eq!(
        ArrayBuilder::from_field("$", &other).unwrap_err().kind,
        ErrorKind::Unsupported
    );
}

#[test]
fn date64_columns_parse_strings_by_strategy() {
    let mut f = field("$", DataType::Date64, false);
    f.metadata
        .push((STRATEGY_KEY.to_owned(), "UtcStrAsDate64".to_owned()));
    let records = vec![
        Value::Str("1970-01-01T00:00:01Z".to_owned()),
        Value::Int(5),
        Value::Str("2023-01-02T03:04:05.123+00:00".to_owned()),
    ];
    match serialize(&f, &records).unwrap() {
        Array::Int64(None, values) => assert_eq!(values, vec![1000, 5, 1672628645123]),
        other => panic!("unexpected array {other:?}"),
    }
    let err = serialize(&f, &vec![Value::Str("1970-01-01T00:00:01".to_owned())]).unwrap_err();
    assert_eq!(err.kind, ErrorKind::Invalid);
    let plain = field("$", DataType::Date64, false);
    assert!(serialize(&plain, &vec![Value::Str("1970-01-01T00:00:01".to_owned())]).is_err());
}

#[test]
fn fixed_size_binary_takes_exactly_n_bytes() {
    let f = field("$", DataType::FixedSizeBinary(3), true);
    let records = vec![Value::Bytes(vec![1, 2, 3]), Value::Null];
    match serialize(&f, &records).unwrap() {
        Array::FixedSizeBinary(a) => {
            assert_eq!(a.len, 2);
            assert_eq!(a.n, 3);
            assert_eq!(a.values, vec![1, 2, 3, 0, 0, 0]);
            assert_eq!(a.validity.unwrap().as_bool(), vec![true, false]);
        }
        other => panic!("unexpected array {other:?}"),
    }
    let err = serialize(&f, &vec![Value::Bytes(vec![1, 2])]).unwrap_err();
    assert_eq!(err.kind, ErrorKind::Shape);
}
