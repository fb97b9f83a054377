use serde_arrow::deserializer::{
    ArrayDeserializer, ArrayView, BytesArrayView, DecimalArrayView, DenseUnionArrayView,
    DictionaryArrayView, FixedSizeBinaryArrayView, FixedSizeListArrayView, ListArrayView,
    PrimitiveArrayView, StructArrayView, TimeArrayView, TimestampArrayView,
};
use serde_arrow::error::ErrorKind;
use serde_arrow::reader::{check_union_type_ids, BitsWithOffset};
use serde_arrow::schema::{FieldMeta, Strategy, TimeUnit, STRATEGY_KEY};

fn meta(name: &str) -> FieldMeta {
    FieldMeta {
        name: name.to_owned(),
        nullable: false,
        metadata: Vec::new(),
    }
}

fn ints<'a>(values: &'a [i64]) -> ArrayView<'a> {
    ArrayView::Int64(PrimitiveArrayView {
        values,
        validity: None,
    })
}

#[test]
fn bad_list_layout_is_rejected_by_the_reader() {
    let values = [0_i64; 15];
    let view = ArrayView::List(ListArrayView {
        offsets: &[0, 5, 10, 15],
        validity: Some(BitsWithOffset {
            offset: 0,
            data: &[0b_101],
        }),
        meta: meta("element"),
        element: Box::new(ints(&values)),
    });
    let err = ArrayDeserializer::new("$".to_owned(), None, view).unwrap_err();
    assert!(err.message.contains("data in null values"));
}

#[test]
fn supported_list_is_read() {
    let values = [1_i64, 2, 3];
    let view = ArrayView::LargeList(ListArrayView {
        offsets: &[0, 2, 3, 3],
        validity: None,
        meta: meta("element"),
        element: Box::new(ints(&values)),
    });
    match ArrayDeserializer::new("$".to_owned(), None, view).unwrap() {
        ArrayDeserializer::LargeList(list) => match *list.element {
            ArrayDeserializer::I64(path, _) => assert_eq!(path, "$.element"),
            other => panic!("unexpected element reader {other:?}"),
        },
        other => panic!("unexpected reader {other:?}"),
    }
}

#[test]
fn timestamps_need_utc_or_no_zone() {
    let values = [0_i64];
    let ts = |tz: Option<&str>| {
        ArrayView::Timestamp(TimestampArrayView {
            unit: TimeUnit::Second,
            timezone: tz.map(|t| t.to_owned()),
            values: &values,
            validity: None,
        })
    };
    assert!(ArrayDeserializer::new("$".to_owned(), None, ts(Some("UTC"))).is_ok());
    assert!(ArrayDeserializer::new("$".to_owned(), None, ts(None)).is_ok());
    let err = ArrayDeserializer::new("$".to_owned(), None, ts(Some("Europe/Paris"))).unwrap_err();
    assert_eq!(err.kind, ErrorKind::Unsupported);
    let err = ArrayDeserializer::new(
        "$".to_owned(),
        Some(&Strategy::TupleAsStruct),
        ts(Some("UTC")),
    )
    .unwrap_err();
    assert!(err.message.contains("is not supported for timestamp field"));
}

#[test]
fn date64_reads_naive_or_utc() {
    let values = [0_i64];
    let view = || {
        ArrayView::Date64(PrimitiveArrayView {
            values: &values,
            validity: None,
        })
    };
    match ArrayDeserializer::new("$".to_owned(), Some(&Strategy::NaiveStrAsDate64), view()) {
        Ok(ArrayDeserializer::Date64(d)) => assert!(!d.is_utc),
        other => panic!("unexpected {other:?}"),
    }
    match ArrayDeserializer::new("$".to_owned(), None, view()) {
        Ok(ArrayDeserializer::Date64(d)) => assert!(d.is_utc),
        other => panic!("unexpected {other:?}"),
    }
    assert!(ArrayDeserializer::new("$".to_owned(), Some(&Strategy::MapAsStruct), view()).is_err());
}

#[test]
fn struct_children_get_paths_and_strategies() {
    let values = [5_i64];
    let mut date_meta = meta("when");
    date_meta
        .metadata
        .push((STRATEGY_KEY.to_owned(), "UtcStrAsDate64".to_owned()));
    let view = ArrayView::Struct(StructArrayView {
        len: 1,
        validity: None,
        fields: vec![
            (ints(&values), meta("a")),
            (
                ArrayView::Date64(PrimitiveArrayView {
                    values: &values,
                    validity: None,
                }),
                date_meta,
            ),
        ],
    });
    match ArrayDeserializer::new("$".to_owned(), None, view).unwrap() {
        ArrayDeserializer::Struct(s) => {
            assert_eq!(s.fields.len(), 2);
            assert_eq!(s.fields[0].0, "a");
            assert!(matches!(&s.fields[1].1, ArrayDeserializer::Date64(d) if d.is_utc && d.path == "$.when"));
        }
        other => panic!("unexpected reader {other:?}"),
    }
    let mut bad = meta("x");
    bad.metadata
        .push((STRATEGY_KEY.to_owned(), "NotAStrategy".to_owned()));
    let view = ArrayView::Struct(StructArrayView {
        len: 1,
        validity: None,
        fields: vec![(ints(&values), bad)],
    });
    assert_eq!(
        ArrayDeserializer::new("$".to_owned(), None, view).unwrap_err().kind,
        ErrorKind::Invalid
    );
}

#[test]
fn unions_need_consecutive_type_ids() {
    let values = [1_i64];
    let union = |first: i8, second: i8| {
        ArrayView::DenseUnion(DenseUnionArrayView {
            types: &[0],
            offsets: &[0],
            fields: vec![
                (first, ints(&values), meta("A")),
                (second, ints(&values), meta("B")),
            ],
        })
    };
    assert!(ArrayDeserializer::new("$".to_owned(), None, union(0, 1)).is_ok());
    let err = ArrayDeserializer::new("$".to_owned(), None, union(0, 2)).unwrap_err();
    assert!(err.message.contains("consecutive type ids"));
    assert!(check_union_type_ids(&[0, 1, 2]).is_ok());
    assert_eq!(
        check_union_type_ids(&[1, 0]).unwrap_err().kind,
        ErrorKind::Unsupported
    );
}

#[test]
fn dictionaries_need_integer_indices_and_strings() {
    let keys = [0_u32, 0];
    let strings = BytesArrayView {
        offsets: &[0_i32, 1],
        data: b"a",
        validity: None,
    };
    let view = ArrayView::Dictionary(DictionaryArrayView {
        indices: Box::new(ArrayView::UInt32(PrimitiveArrayView {
            values: &keys,
            validity: None,
        })),
        values: Box::new(ArrayView::Utf8(strings)),
    });
    assert!(ArrayDeserializer::new("$".to_owned(), None, view).is_ok());
    let view = ArrayView::Dictionary(DictionaryArrayView {
        indices: Box::new(ArrayView::Null(2)),
        values: Box::new(ArrayView::Null(1)),
    });
    let err = ArrayDeserializer::new("$".to_owned(), None, view).unwrap_err();
    assert!(err.message.contains("Unsupported dictionary array type"));
}

#[test]
fn map_entries_must_be_a_pair_struct() {
    let values = [1_i64];
    let entries = ArrayView::Struct(StructArrayView {
        len: 1,
        validity: None,
        fields: vec![(ints(&values), meta("key")), (ints(&values), meta("value"))],
    });
    let view = ArrayView::KeyValues(ListArrayView {
        offsets: &[0, 1],
        validity: None,
        meta: meta("entries"),
        element: Box::new(entries),
    });
    assert!(ArrayDeserializer::new("$".to_owned(), None, view).is_ok());
    let view = ArrayView::KeyValues(ListArrayView {
        offsets: &[0, 1],
        validity: None,
        meta: meta("entries"),
        element: Box::new(ints(&values)),
    });
    let err = ArrayDeserializer::new("$".to_owned(), None, view).unwrap_err();
    assert!(err.message.contains("Invalid entries field in map array"));
}

#[test]
fn list_reader_steps_through_offset_pairs() {
    let values = [1_i64, 2, 3];
    let view = ArrayView::LargeList(ListArrayView {
        offsets: &[0, 2, 2, 3],
        validity: Some(BitsWithOffset {
            offset: 0,
            data: &[0b_101],
        }),
        meta: meta("element"),
        element: Box::new(ints(&values)),
    });
    match ArrayDeserializer::new("$".to_owned(), None, view).unwrap() {
        ArrayDeserializer::LargeList(mut list) => {
            assert_eq!(list.next_range().unwrap(), Some((0, 2)));
            assert_eq!(list.next_range().unwrap(), None);
            assert_eq!(list.next_range().unwrap(), Some((2, 3)));
            assert_eq!(list.next_range().unwrap_err().kind, ErrorKind::Exhausted);
        }
        other => panic!("unexpected reader {other:?}"),
    }
}

#[test]
fn struct_and_union_readers_step_rows() {
    let values = [1_i64, 2];
    let view = ArrayView::Struct(StructArrayView {
        len: 2,
        validity: Some(BitsWithOffset {
            offset: 0,
            data: &[0b_10],
        }),
        fields: vec![(ints(&values), meta("a"))],
    });
    match ArrayDeserializer::new("$".to_owned(), None, view).unwrap() {
        ArrayDeserializer::Struct(mut s) => {
            assert_eq!(s.next_row().unwrap(), false);
            assert_eq!(s.next_row().unwrap(), true);
            assert_eq!(s.next_row().unwrap_err().kind, ErrorKind::Exhausted);
        }
        other => panic!("unexpected reader {other:?}"),
    }
    let view = ArrayView::DenseUnion(DenseUnionArrayView {
        types: &[1, 0, 5],
        offsets: &[0, 0, 0],
        fields: vec![(0, ints(&values), meta("A")), (1, ints(&values), meta("B"))],
    });
    match ArrayDeserializer::new("$".to_owned(), None, view).unwrap() {
        ArrayDeserializer::Enum(mut e) => {
            assert_eq!(e.next_variant().unwrap(), (1, 0));
            assert_eq!(e.next_variant().unwrap(), (0, 0));
            assert_eq!(e.next_variant().unwrap_err().kind, ErrorKind::Invalid);
        }
        other => panic!("unexpected reader {other:?}"),
    }
}

#[test]
fn decimal_time_binary_and_fixed_size_views_are_read() {
    let decimals = [12345_i128];
    let view = ArrayView::Decimal128(DecimalArrayView {
        precision: 10,
        scale: 2,
        values: &decimals,
        validity: None,
    });
    assert!(matches!(
        ArrayDeserializer::new("$".to_owned(), None, view).unwrap(),
        ArrayDeserializer::Decimal128(d) if d.precision == 10 && d.scale == 2
    ));
    let times = [1_i64, 2];
    let view = ArrayView::Duration(TimeArrayView {
        unit: TimeUnit::Millisecond,
        values: &times,
        validity: None,
    });
    assert!(matches!(
        ArrayDeserializer::new("$".to_owned(), None, view).unwrap(),
        ArrayDeserializer::Duration(d) if d.unit == TimeUnit::Millisecond
    ));
    let view = ArrayView::Binary(BytesArrayView {
        offsets: &[0_i32, 2],
        data: &[1, 2],
        validity: None,
    });
    assert!(ArrayDeserializer::new("$".to_owned(), None, view).is_ok());
    let view = ArrayView::FixedSizeBinary(FixedSizeBinaryArrayView {
        n: -1,
        data: &[],
        validity: None,
    });
    assert!(ArrayDeserializer::new("$".to_owned(), None, view).is_err());
    let values = [1_i64, 2, 3, 4];
    let view = ArrayView::FixedSizeList(FixedSizeListArrayView {
        n: 2,
        len: 2,
        validity: None,
        meta: meta("element"),
        element: Box::new(ints(&values)),
    });
    match ArrayDeserializer::new("$".to_owned(), None, view).unwrap() {
        ArrayDeserializer::FixedSizeList(l) => {
            assert_eq!(l.n, 2);
            assert!(matches!(*l.element, ArrayDeserializer::I64(ref p, _) if p == "$.element"));
        }
        other => panic!("unexpected reader {other:?}"),
    }
}
