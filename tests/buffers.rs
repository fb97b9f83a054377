use serde_arrow::bit_buffer::{push_validity, push_validity_default, MutableBitBuffer};
use serde_arrow::error::ErrorKind;
use serde_arrow::offsets::MutableOffsetBuffer;
use serde_arrow::schema::{
    get_strategy, is_utc_date64, is_utc_timestamp, lowered_timezone_is_utc, FieldMeta, Strategy,
    STRATEGY_KEY,
};

#[test]
fn bit_buffer_packs_lsb_first() {
    let mut b = MutableBitBuffer::new();
    let bits = [true, false, true, true, false, false, false, true, false, true];
    for bit in bits {
        b.push(bit);
    }
    assert_eq!(b.len(), 10);
    assert_eq!(b.as_bool(), bits.to_vec());
    assert_eq!(b.buffer[0], 0b_1000_1101);
    assert_eq!(b.buffer[1], 0b_0000_0010);
    assert_eq!(b.buffer.len(), 64);
    b.clear();
    assert_eq!(b.len(), 0);
    assert!(b.as_bool().is_empty());
}

#[test]
fn bit_buffer_grows_past_its_reservation() {
    let mut b = MutableBitBuffer::new();
    for i in 0..600 {
        b.push(i % 3 == 0);
    }
    assert_eq!(b.len(), 600);
    assert_eq!(b.buffer.len(), 128);
    let bools = b.as_bool();
    assert!(bools[597]);
    assert!(!bools[598]);
}

#[test]
fn offset_buffer_counts_children() {
    let mut o: MutableOffsetBuffer<i64> = MutableOffsetBuffer::new();
    assert_eq!(o.len(), 0);
    o.push(2).unwrap();
    o.push(1).unwrap();
    o.push_current_items();
    assert_eq!(o.offsets, vec![0, 2, 3, 3]);
    o.inc_current_items().unwrap();
    o.push_current_items();
    assert_eq!(o.offsets, vec![0, 2, 3, 3, 4]);
    assert_eq!(o.len(), 4);
    o.clear();
    assert_eq!(o.offsets, vec![0]);
    assert_eq!(o.current_items, 0);
}

#[test]
fn offset_buffer_rejects_overflow() {
    let mut o: MutableOffsetBuffer<i32> = MutableOffsetBuffer::new();
    o.push(i32::MAX as usize).unwrap();
    let err = o.push(1).unwrap_err();
    assert_eq!(err.kind, ErrorKind::OutOfRange);
    assert_eq!(o.offsets, vec![0, i32::MAX]);
    assert_eq!(o.inc_current_items().unwrap_err().kind, ErrorKind::OutOfRange);
}

#[test]
fn validity_of_non_nullable_columns() {
    let mut none: Option<MutableBitBuffer> = None;
    assert!(push_validity(&mut none, true).is_ok());
    let err = push_validity(&mut none, false).unwrap_err();
    assert_eq!(err.kind, ErrorKind::Invalid);
    push_validity_default(&mut none);
    assert!(none.is_none());

    let mut some = Some(MutableBitBuffer::new());
    push_validity(&mut some, true).unwrap();
    push_validity(&mut some, false).unwrap();
    push_validity_default(&mut some);
    assert_eq!(some.unwrap().as_bool(), vec![true, false, false]);
}

fn meta_field(metadata: Vec<(String, String)>) -> FieldMeta {
    FieldMeta {
        name: "x".to_owned(),
        nullable: false,
        metadata,
    }
}

#[test]
fn strategies_are_read_from_metadata() {
    assert_eq!(get_strategy(&meta_field(vec![])).unwrap(), None);
    let f = meta_field(vec![
        ("other".to_owned(), "y".to_owned()),
        (STRATEGY_KEY.to_owned(), "UtcStrAsDate64".to_owned()),
    ]);
    assert_eq!(get_strategy(&f).unwrap(), Some(Strategy::UtcStrAsDate64));
    let f = meta_field(vec![(STRATEGY_KEY.to_owned(), "NoSuchStrategy".to_owned())]);
    assert_eq!(get_strategy(&f).unwrap_err().kind, ErrorKind::Invalid);
    for s in [
        Strategy::TupleAsStruct,
        Strategy::MapAsStruct,
        Strategy::NaiveStrAsDate64,
        Strategy::UtcStrAsDate64,
        Strategy::EnumsWithNamedFieldsAsMaps,
    ] {
        assert_eq!(Strategy::parse(s.name()).unwrap(), s);
    }
}

#[test]
fn timestamp_time_zones() {
    assert_eq!(is_utc_timestamp(None).unwrap(), false);
    assert_eq!(is_utc_timestamp(Some("UTC")).unwrap(), true);
    assert_eq!(is_utc_timestamp(Some("uTc")).unwrap(), true);
    assert_eq!(
        is_utc_timestamp(Some("Europe/Berlin")).unwrap_err().kind,
        ErrorKind::Unsupported
    );
    assert!(lowered_timezone_is_utc("utc"));
    assert!(!lowered_timezone_is_utc("UTC"));
}

#[test]
fn date64_strategies() {
    assert_eq!(is_utc_date64(None).unwrap(), true);
    assert_eq!(is_utc_date64(Some(&Strategy::UtcStrAsDate64)).unwrap(), true);
    assert_eq!(is_utc_date64(Some(&Strategy::NaiveStrAsDate64)).unwrap(), false);
    assert_eq!(
        is_utc_date64(Some(&Strategy::TupleAsStruct)).unwrap_err().kind,
        ErrorKind::Invalid
    );
}

#[test]
fn buffers_default_to_empty() {
    let b = MutableBitBuffer::default();
    assert_eq!(b.len(), 0);
    let o: MutableOffsetBuffer<i32> = MutableOffsetBuffer::default();
    assert_eq!(o.offsets, vec![0]);
    assert_eq!(o.len(), 0);
}
