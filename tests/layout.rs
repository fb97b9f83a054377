use serde_arrow::error::{Error, ErrorKind};
use serde_arrow::reader::{
    bitset_is_set, check_supported_list_layout, ArrayBufferIterator, BitsWithOffset,
};

fn assert_error_contains<T>(res: &Result<T, Error>, expected: &str) {
    match res {
        Ok(_) => panic!("expected an error containing {expected:?}"),
        Err(e) => assert!(
            e.message.contains(expected),
            "error {:?} does not contain {expected:?}",
            e.message
        ),
    }
}

#[test]
fn test_check_supported_list_layout() {
    assert_error_contains(&check_supported_list_layout::<i32>(None, &[]), "non empty");
    assert_error_contains(
        &check_supported_list_layout::<i32>(None, &[0, 1, 0]),
        "monotonically increasing",
    );
    assert_error_contains(
        &check_supported_list_layout::<i32>(
            Some(BitsWithOffset {
                offset: 0,
                data: &[0b_101],
            }),
            &[0, 5, 10, 15],
        ),
        "data in null values",
    );
}

#[test]
fn supported_list_layouts_pass() {
    assert!(check_supported_list_layout::<i64>(None, &[0]).is_ok());
    assert!(check_supported_list_layout::<i64>(None, &[0, 2, 3, 3]).is_ok());
    let validity = BitsWithOffset {
        offset: 0,
        data: &[0b_101],
    };
    assert!(check_supported_list_layout::<i32>(Some(validity), &[0, 5, 5, 15]).is_ok());
}

#[test]
fn list_layout_with_negative_offset_is_out_of_range() {
    let res = check_supported_list_layout::<i32>(None, &[0, -1]);
    assert_eq!(res.unwrap_err().kind, ErrorKind::OutOfRange);
}

#[test]
fn list_layout_with_short_validity_fails() {
    let validity = BitsWithOffset {
        offset: 6,
        data: &[0xff],
    };
    let res = check_supported_list_layout::<i32>(Some(validity), &[0, 1, 2, 3]);
    assert_eq!(res.unwrap_err().kind, ErrorKind::OutOfRange);
}

#[test]
fn bitset_reads_lsb_first_with_offset() {
    let bits = BitsWithOffset {
        offset: 3,
        data: &[0b_0000_1000, 0b_0000_0001],
    };
    assert_eq!(bitset_is_set(&bits, 0).unwrap(), true);
    assert_eq!(bitset_is_set(&bits, 1).unwrap(), false);
    assert_eq!(bitset_is_set(&bits, 5).unwrap(), true);
    assert_eq!(bitset_is_set(&bits, 13).unwrap_err().kind, ErrorKind::OutOfRange);
}

#[test]
fn buffer_iterator_reads_values_and_nulls() {
    let values = [10_i64, 20, 30];
    let validity = BitsWithOffset {
        offset: 0,
        data: &[0b_101],
    };
    let mut it = ArrayBufferIterator::new(&values, Some(validity));
    assert_eq!(it.peek_next().unwrap(), true);
    assert_eq!(it.next().unwrap(), Some(10));
    assert_eq!(it.peek_next().unwrap(), false);
    assert_eq!(it.next().unwrap(), None);
    assert_eq!(it.next_required().unwrap(), 30);
    let err = it.next().unwrap_err();
    assert_eq!(err.kind, ErrorKind::Exhausted);
    assert!(err.message.contains("Exhausted deserializer"));
    assert_eq!(it.peek_next().unwrap_err().kind, ErrorKind::Exhausted);
}

#[test]
fn buffer_iterator_required_value_rejects_null() {
    let values = [1_i32, 2];
    let validity = BitsWithOffset {
        offset: 0,
        data: &[0b_10],
    };
    let mut it = ArrayBufferIterator::new(&values, Some(validity));
    assert!(it.next_required().is_err());
    it.consume_next();
    assert_eq!(it.next, 2);
}
