use serde_arrow::dates::parse_datetime_millis;
use serde_arrow::error::ErrorKind;
use serde_arrow::from_type::TypeDesc;
use serde_arrow::schema::{DataType, Field, STRATEGY_KEY};
use serde_arrow::tracer::{
    decimal_string, guess_string_type, schema_from_samples, PrimitiveType, Sample, Tracer,
    TracerKind, TracingOptions,
};

fn field(name: &str, data_type: DataType, nullable: bool) -> Field {
    Field {
        name: name.to_owned(),
        data_type,
        nullable,
        metadata: Vec::new(),
    }
}

fn with_strategy(mut f: Field, strategy: &str) -> Field {
    f.metadata
        .push((STRATEGY_KEY.to_owned(), strategy.to_owned()));
    f
}

fn trace(samples: Vec<Sample>) -> Field {
    schema_from_samples(&samples, &TracingOptions::new()).unwrap()
}

fn member(name: &str, sample: Sample) -> (String, Sample) {
    (name.to_owned(), sample)
}

#[test]
fn example_i64() {
    let actual = trace(vec![Sample::I64, Sample::I64, Sample::I64]);
    assert_eq!(actual, field("$", DataType::Int64, false));
}

#[test]
fn example_i32_nullable_some() {
    let expected = field("$", DataType::Int32, true);
    let actual = trace(vec![Sample::Present(Box::new(Sample::I32))]);
    assert_eq!(actual, expected);
    let actual = trace(vec![
        Sample::Missing,
        Sample::Present(Box::new(Sample::I32)),
    ]);
    assert_eq!(actual, expected);
}

#[test]
fn example_simple_struct() {
    let record = || Sample::Struct(vec![member("a", Sample::U32), member("b", Sample::Bool)]);
    let actual = trace(vec![record(), record()]);
    let expected = field(
        "$",
        DataType::Struct(vec![
            field("a", DataType::UInt32, false),
            field("b", DataType::Boolean, false),
        ]),
        false,
    );
    assert_eq!(actual, expected);
}

#[test]
fn example_vec_f32() {
    let actual = trace(vec![
        Sample::Sequence(vec![Sample::F32, Sample::F32]),
        Sample::Sequence(vec![Sample::F32]),
        Sample::Sequence(vec![]),
    ]);
    let expected = field(
        "$",
        DataType::LargeList(Box::new(field("element", DataType::Float32, false))),
        false,
    );
    assert_eq!(actual, expected);
}

#[test]
fn example_vec_nullable_f32() {
    let actual = trace(vec![
        Sample::Sequence(vec![Sample::Present(Box::new(Sample::F32)), Sample::Missing]),
        Sample::Sequence(vec![Sample::Present(Box::new(Sample::F32))]),
        Sample::Sequence(vec![]),
    ]);
    let expected = field(
        "$",
        DataType::LargeList(Box::new(field("element", DataType::Float32, true))),
        false,
    );
    assert_eq!(actual, expected);
}

#[test]
fn example_tuples() {
    let actual = trace(vec![Sample::Tuple(vec![
        Sample::F64,
        Sample::Str("hello world".to_owned()),
    ])]);
    let expected = with_strategy(
        field(
            "$",
            DataType::Struct(vec![
                field("0", DataType::Float64, false),
                field("1", DataType::LargeUtf8, false),
            ]),
            false,
        ),
        "TupleAsStruct",
    );
    assert_eq!(actual, expected);
}

#[test]
fn example() {
    // An item whose content describes itself only through values.
    let types = vec![TypeDesc::Struct(vec![(
        "item".to_owned(),
        TypeDesc::List(Box::new(TypeDesc::Any)),
    )])];
    let options = TracingOptions::new();
    let res = Tracer::from_type(0, &types, &options).and_then(|t| t.to_field(&options));
    let err = res.unwrap_err();
    assert_eq!(err.path(), Some("$.item.element"));
    assert!(err.message.contains("Unknown"));
}

#[test]
fn unsupported_recursive_types() {
    let tree = TypeDesc::Struct(vec![
        (
            "left".to_owned(),
            TypeDesc::Optional(Box::new(TypeDesc::Named(0))),
        ),
        (
            "right".to_owned(),
            TypeDesc::Optional(Box::new(TypeDesc::Named(0))),
        ),
    ]);
    let types = vec![tree];
    let res = Tracer::from_type(0, &types, &TracingOptions::new());
    let err = res.unwrap_err();
    assert!(err.message.contains("Too deeply nested type detected"));
    assert!(err
        .path()
        .unwrap()
        .starts_with("$.left.left.left.left.left.left"));
}

#[test]
fn from_type_of_a_plain_struct() {
    let types = vec![TypeDesc::Struct(vec![
        ("id".to_owned(), TypeDesc::U64),
        (
            "name".to_owned(),
            TypeDesc::Optional(Box::new(TypeDesc::Str)),
        ),
    ])];
    let options = TracingOptions::new();
    let f = Tracer::from_type(0, &types, &options)
        .unwrap()
        .to_field(&options)
        .unwrap();
    let expected = field(
        "$",
        DataType::Struct(vec![
            field("id", DataType::UInt64, false),
            field("name", DataType::LargeUtf8, true),
        ]),
        false,
    );
    assert_eq!(f, expected);
}

#[test]
fn null_fields_allowed_become_null() {
    let mut options = TracingOptions::new();
    options.allow_null_fields = true;
    let f = schema_from_samples(&vec![Sample::Missing], &options).unwrap();
    assert_eq!(f, field("$", DataType::Null, true));
    let err = schema_from_samples(&vec![Sample::Missing], &TracingOptions::new()).unwrap_err();
    assert_eq!(err.kind, ErrorKind::Invalid);
}

#[test]
fn integers_widen_within_signedness() {
    let f = trace(vec![Sample::I8, Sample::I32, Sample::I16]);
    assert_eq!(f.data_type, DataType::Int32);
    let f = trace(vec![Sample::U8, Sample::U64]);
    assert_eq!(f.data_type, DataType::UInt64);
}

#[test]
fn integers_and_floats_meet_in_a_float() {
    assert_eq!(trace(vec![Sample::U8, Sample::F32]).data_type, DataType::Float32);
    assert_eq!(trace(vec![Sample::I32, Sample::F32]).data_type, DataType::Float64);
    assert_eq!(trace(vec![Sample::F32, Sample::F64]).data_type, DataType::Float64);
}

#[test]
fn conflicting_leaves_fail_with_path() {
    let samples = vec![
        Sample::Struct(vec![member("a", Sample::Bool)]),
        Sample::Struct(vec![member("a", Sample::I32)]),
    ];
    let err = schema_from_samples(&samples, &TracingOptions::new()).unwrap_err();
    assert_eq!(err.kind, ErrorKind::Conflict);
    assert_eq!(err.path(), Some("$.a"));
    let err = schema_from_samples(
        &vec![Sample::I32, Sample::Sequence(vec![])],
        &TracingOptions::new(),
    )
    .unwrap_err();
    assert_eq!(err.kind, ErrorKind::Conflict);
}

#[test]
fn signed_and_unsigned_conflict() {
    let err = schema_from_samples(&vec![Sample::I32, Sample::U32], &TracingOptions::new())
        .unwrap_err();
    assert_eq!(err.kind, ErrorKind::Conflict);
}

#[test]
fn struct_members_missing_or_late_become_nullable() {
    let samples = vec![
        Sample::Struct(vec![member("a", Sample::I64), member("b", Sample::Bool)]),
        Sample::Struct(vec![member("a", Sample::I64), member("c", Sample::Str("x".to_owned()))]),
    ];
    let f = trace(samples);
    let expected = field(
        "$",
        DataType::Struct(vec![
            field("a", DataType::Int64, false),
            field("b", DataType::Boolean, true),
            field("c", DataType::LargeUtf8, true),
        ]),
        false,
    );
    assert_eq!(f, expected);
}

#[test]
fn maps_as_struct_and_as_map() {
    let sample = || {
        Sample::Entries(vec![(Sample::Str("k".to_owned()), Sample::I64)])
    };
    let f = trace(vec![sample()]);
    let expected = with_strategy(
        field(
            "$",
            DataType::Struct(vec![field("k", DataType::Int64, false)]),
            false,
        ),
        "MapAsStruct",
    );
    assert_eq!(f, expected);
    let mut options = TracingOptions::new();
    options.map_as_struct = false;
    let f = schema_from_samples(&vec![sample()], &options).unwrap();
    let expected = field(
        "$",
        DataType::Mapping(
            Box::new(field("key", DataType::LargeUtf8, false)),
            Box::new(field("value", DataType::Int64, false)),
        ),
        false,
    );
    assert_eq!(f, expected);
}

#[test]
fn unions_have_consecutive_type_ids() {
    let samples = vec![
        Sample::Variant(1, "B".to_owned(), Box::new(Sample::I32)),
        Sample::Variant(0, "A".to_owned(), Box::new(Sample::Unit)),
    ];
    let f = trace(samples);
    match f.data_type {
        DataType::DenseUnion(children) => {
            assert_eq!(children.len(), 2);
            assert_eq!(children[0].0, 0);
            assert_eq!(children[1].0, 1);
            assert_eq!(children[0].1, field("A", DataType::Null, true));
            assert_eq!(children[1].1, field("B", DataType::Int32, false));
        }
        other => panic!("unexpected type {other:?}"),
    }
}

#[test]
fn union_variant_names_must_agree() {
    let samples = vec![
        Sample::Variant(0, "A".to_owned(), Box::new(Sample::Unit)),
        Sample::Variant(0, "B".to_owned(), Box::new(Sample::Unit)),
    ];
    let err = schema_from_samples(&samples, &TracingOptions::new()).unwrap_err();
    assert_eq!(err.kind, ErrorKind::Conflict);
}

#[test]
fn dates_are_guessed_when_asked() {
    let (t, s) = guess_string_type("2023-01-02T03:04:05", true);
    assert_eq!(t, PrimitiveType::Date64);
    assert_eq!(s.unwrap().name(), "NaiveStrAsDate64");
    let (t, s) = guess_string_type("2023-01-02T03:04:05.123Z", true);
    assert_eq!(t, PrimitiveType::Date64);
    assert_eq!(s.unwrap().name(), "UtcStrAsDate64");
    let (t, _) = guess_string_type("2023-01-02T03:04:05+00:00", true);
    assert_eq!(t, PrimitiveType::Date64);
    let (t, s) = guess_string_type("2023-01-02 03:04:05", true);
    assert_eq!((t, s), (PrimitiveType::LargeUtf8, None));
    let (t, s) = guess_string_type("2023-01-02T03:04:05", false);
    assert_eq!((t, s), (PrimitiveType::LargeUtf8, None));
}

#[test]
fn mixed_date_readings_degrade_to_strings() {
    let mut options = TracingOptions::new();
    options.guess_dates = true;
    let samples = vec![
        Sample::Str("2023-01-02T03:04:05".to_owned()),
        Sample::Str("2023-01-02T03:04:05Z".to_owned()),
    ];
    let f = schema_from_samples(&samples, &options).unwrap();
    assert_eq!(f, field("$", DataType::LargeUtf8, false));
    let f = schema_from_samples(&vec![Sample::Str("2023-01-02T03:04:05Z".to_owned())], &options)
        .unwrap();
    assert_eq!(
        f,
        with_strategy(field("$", DataType::Date64, false), "UtcStrAsDate64")
    );
}

#[test]
fn dictionary_encoding_of_strings() {
    let mut options = TracingOptions::new();
    options.string_dictionary_encoding = true;
    let f = schema_from_samples(&vec![Sample::Str("a".to_owned())], &options).unwrap();
    assert_eq!(
        f.data_type,
        DataType::Dictionary(Box::new(DataType::UInt32), Box::new(DataType::LargeUtf8))
    );
}

#[test]
fn tracer_kinds_follow_samples() {
    let mut t = Tracer::new("$".to_owned(), "$".to_owned());
    let options = TracingOptions::new();
    assert_eq!(t.kind(), TracerKind::Unknown);
    t.trace(&Sample::Unit, &options).unwrap();
    assert_eq!(t.kind(), TracerKind::Primitive);
    t.trace(&Sample::Sequence(vec![Sample::Bool]), &options).unwrap();
    assert_eq!(t.kind(), TracerKind::List);
    assert!(t.is_nullable());
}

#[test]
fn tuple_positions_are_named_in_decimal() {
    assert_eq!(decimal_string(0), "0");
    assert_eq!(decimal_string(7), "7");
    assert_eq!(decimal_string(42), "42");
    assert_eq!(decimal_string(1230), "1230");
}

#[test]
fn iso_date_times_become_milliseconds() {
    let p = parse_datetime_millis;
    assert_eq!(p("1970-01-01T00:00:00", false).unwrap(), 0);
    assert_eq!(p("1969-12-31T23:59:59", false).unwrap(), -1000);
    assert_eq!(p("2000-03-01T00:00:00Z", true).unwrap(), 951868800000);
    assert_eq!(p("2023-01-02T03:04:05.123", false).unwrap(), 1672628645123);
    assert_eq!(p("2023-01-02T03:04:05.5", false).unwrap(), 1672628645500);
    assert_eq!(p("0000-01-01T00:00:00", false).unwrap(), -62167219200000);
    assert!(p("2024-02-29T00:00:00", false).is_ok());
    assert_eq!(p("2023-02-29T00:00:00", false).unwrap_err().kind, ErrorKind::Invalid);
    assert_eq!(p("2023-01-02T24:00:00", false).unwrap_err().kind, ErrorKind::Invalid);
    assert!(p("2023-01-02T03:04:05Z", false).is_err());
    assert!(p("2023-01-02T03:04:05", true).is_err());
}
