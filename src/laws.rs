//! Properties that hold of every column the builders produce and of every
//! schema the tracer emits.
use vstd::prelude::*;

use crate::builder::{
    array_row, array_text, i32_offsets, i64_offsets, row_is_valid, text_rows_valid, value_text, Array,
    Value,
};
use crate::offsets::offsets_monotone;
use crate::schema::{DataType, Field};
use crate::tracer::{field_of, Tracer, TracingOptions};

verus! {

/// Offsets of a produced variable-size column (strings or lists) never
/// decrease: `offsets[i] <= offsets[i + 1]`.
pub proof fn lemma_offsets_monotone(a: Array)
    requires
        a.wf(),
    ensures
        a matches Array::LargeList(l) ==> forall|i: int|
            0 <= i < l.offsets@.len() - 1 ==> #[trigger] l.offsets@[i] <= l.offsets@[i + 1],
        a matches Array::LargeUtf8(s) ==> forall|i: int|
            0 <= i < s.offsets@.len() - 1 ==> #[trigger] s.offsets@[i] <= s.offsets@[i + 1],
        a matches Array::KeyValues(m) ==> forall|i: int|
            0 <= i < m.offsets@.len() - 1 ==> #[trigger] m.offsets@[i] <= m.offsets@[i + 1],
{
    match a {
        Array::LargeList(l) => {
            assert forall|i: int| 0 <= i < l.offsets@.len() - 1 implies #[trigger] l.offsets@[i]
                <= l.offsets@[i + 1] by {
                assert(offsets_monotone(i64_offsets(l.offsets@)));
                assert(i64_offsets(l.offsets@)[i] <= i64_offsets(l.offsets@)[i + 1]);
            }
        },
        Array::LargeUtf8(s) => {
            assert forall|i: int| 0 <= i < s.offsets@.len() - 1 implies #[trigger] s.offsets@[i]
                <= s.offsets@[i + 1] by {
                assert(offsets_monotone(i64_offsets(s.offsets@)));
                assert(i64_offsets(s.offsets@)[i] <= i64_offsets(s.offsets@)[i + 1]);
            }
        },
        Array::KeyValues(m) => {
            assert forall|i: int| 0 <= i < m.offsets@.len() - 1 implies #[trigger] m.offsets@[i]
                <= m.offsets@[i + 1] by {
                assert(offsets_monotone(i32_offsets(m.offsets@)));
                assert(i32_offsets(m.offsets@)[i] <= i32_offsets(m.offsets@)[i + 1]);
            }
        },
        _ => {},
    }
}

/// A produced column that has a validity bitmap has exactly one bit per
/// row.
pub proof fn lemma_validity_length(a: Array)
    requires
        a.wf(),
    ensures
        a.spec_validity() matches Some(v) ==> v@.len() == a.spec_len(),
{
}

/// Every child of a produced struct column is as long as the struct.
pub proof fn lemma_struct_children_equal_length(a: Array)
    requires
        a.wf(),
    ensures
        a matches Array::Struct(s) ==> forall|i: int|
            0 <= i < s.fields@.len() ==> (#[trigger] s.fields@[i]).1.spec_len() == s.len,
{
}

/// A null row of a produced list or map column spans no child values:
/// `offsets[i + 1] == offsets[i]`.
pub proof fn lemma_null_list_rows_empty(a: Array)
    requires
        a.wf(),
    ensures
        a matches Array::LargeList(l) ==> forall|i: int|
            0 <= i < l.offsets@.len() - 1 && !row_is_valid(l.validity, i) ==> #[trigger] l.offsets@[i
                + 1] == l.offsets@[i],
        a matches Array::KeyValues(m) ==> forall|i: int|
            0 <= i < m.offsets@.len() - 1 && !row_is_valid(m.validity, i) ==> #[trigger] m.offsets@[i
                + 1] == m.offsets@[i],
{
}

/// The type ids of a union that tracing emits are `0, 1, 2, ...`.
pub proof fn lemma_union_type_ids_consecutive(t: Tracer, f: Field, options: TracingOptions)
    requires
        field_of(t, f, options),
        t is Union,
    ensures
        f.data_type matches DataType::DenseUnion(children) && forall|i: int|
            0 <= i < children@.len() ==> (#[trigger] children@[i]).0 == i,
{
}

/// Round trip of scalar columns: `serialize` promises that row `i` of the
/// column it returns reads as `records[i]`, and `deserialize` promises that
/// it returns row `i` at position `i`; together, reading back what was
/// written gives exactly the records.
pub proof fn lemma_scalar_round_trip(records: Seq<Value>, a: Array, rows: Seq<Value>)
    requires
        a.spec_len() == records.len(),
        forall|i: int| 0 <= i < records.len() ==> #[trigger] array_row(a, i) == records[i],
        rows.len() == a.spec_len(),
        forall|i: int| 0 <= i < rows.len() ==> #[trigger] rows[i] == array_row(a, i),
    ensures
        rows == records,
{
    assert(rows =~= records);
}

/// A produced dense union numbers its children `0, 1, 2, ...`, and every
/// row names one of them and a row inside it.
pub proof fn lemma_union_columns_consecutive(a: Array)
    requires
        a.wf(),
    ensures
        a matches Array::DenseUnion(u) ==> (forall|j: int|
            0 <= j < u.fields@.len() ==> (#[trigger] u.fields@[j]).0 == j) && (forall|i: int|
            0 <= i < u.types@.len() ==> 0 <= #[trigger] u.types@[i] < u.fields@.len() && 0
                <= u.offsets@[i] < u.fields@[u.types@[i] as int].2.spec_len()),
{
}

/// Every non-null row of a produced dictionary column holds an index into
/// its values.
pub proof fn lemma_dictionary_indices_in_range(a: Array)
    requires
        a.wf(),
    ensures
        a matches Array::Dictionary(d) ==> forall|i: int|
            0 <= i < d.indices@.len() && row_is_valid(d.validity, i) ==> #[trigger] d.indices@[i]
                < d.values.offsets@.len() - 1,
{
}

/// The characters of a string value, nothing for other values.
pub open spec fn value_chars(v: Value) -> Option<Seq<char>> {
    match v {
        Value::Str(s) => Some(s@),
        _ => None,
    }
}

/// A string column that holds the UTF-8 encodings of string records is
/// valid UTF-8 throughout, so reading it back cannot fail.
pub proof fn lemma_text_column_valid(records: Seq<Value>, a: Array)
    requires
        a.spec_len() == records.len(),
        forall|i: int| 0 <= i < records.len() ==> #[trigger] array_text(a, i) == value_text(records[i]),
    ensures
        text_rows_valid(a),
{
    broadcast use vstd::utf8::group_utf8_lib;

    assert forall|i: int| 0 <= i < a.spec_len() implies (#[trigger] array_text(a, i) matches Some(t)
        ==> vstd::utf8::valid_utf8(t)) by {
        assert(array_text(a, i) == value_text(records[i]));
    }
}

/// Round trip of string columns: `serialize` promises that row `i` holds
/// the UTF-8 bytes of `records[i]`, and `deserialize` that the value it
/// returns at `i` encodes to the bytes of row `i`; together, every string
/// read back has the characters of the string written, and every null
/// stays null.
pub proof fn lemma_text_round_trip(records: Seq<Value>, a: Array, rows: Seq<Value>)
    requires
        a.spec_len() == records.len(),
        forall|i: int| 0 <= i < records.len() ==> #[trigger] array_text(a, i) == value_text(records[i]),
        rows.len() == a.spec_len(),
        forall|i: int| 0 <= i < rows.len() ==> #[trigger] value_text(rows[i]) == array_text(a, i),
    ensures
        forall|i: int| 0 <= i < rows.len() ==> #[trigger] value_chars(rows[i]) == value_chars(records[i]),
{
    broadcast use vstd::utf8::group_utf8_lib;

    assert forall|i: int| 0 <= i < rows.len() implies #[trigger] value_chars(rows[i]) == value_chars(
        records[i],
    ) by {
        assert(value_text(rows[i]) == value_text(records[i]));
        if rows[i] is Str && records[i] is Str {
            vstd::utf8::encode_utf8_decode_utf8(rows[i]->Str_0@);
            vstd::utf8::encode_utf8_decode_utf8(records[i]->Str_0@);
        }
    }
}

} // verus!
