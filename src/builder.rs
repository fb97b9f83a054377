use vstd::prelude::*;
use vstd::string::StringSliceAdditionalSpecFns;

use crate::bit_buffer::{push_validity, push_validity_default, validity_bits, validity_wf, MutableBitBuffer};
use crate::error::{Error, ErrorKind};
use crate::dates::{datetime_body, datetime_fields, fields_millis, parse_datetime_millis};
use crate::schema::{
    metadata_lookup, same_text, strategy_in, strategy_named, DataType, Field, FieldMeta, Strategy,
    STRATEGY_KEY,
};
use crate::tracer::child_path;
use crate::offsets::{lemma_offsets_ordered, offsets_monotone, MutableOffsetBuffer};

verus! {

/// The most rows a single column takes.
pub const MAX_ROWS: usize = 2147483647;

/// A record value with the payloads that the columns below store.
#[derive(Debug)]
pub enum Value {
    Null,
    Bool(bool),
    Int(i64),
    Str(String),
    List(Vec<Value>),
    /// Members by name, in any order; absent ones take their default.
    Struct(Vec<(String, Value)>),
    /// Variant index and content of an enum value.
    Variant(u32, Box<Value>),
    /// Key-value pairs of a map, in order.
    Entries(Vec<(Value, Value)>),
    Bytes(Vec<u8>),
}

/// A validity bitmap that, where present, has one bit per row.
pub open spec fn validity_fits(validity: Option<MutableBitBuffer>, len: nat) -> bool {
    &&& validity_wf(validity)
    &&& validity matches Some(b) ==> b@.len() == len
}

/// Whether row `i` is valid: always, without a bitmap.
pub open spec fn row_is_valid(validity: Option<MutableBitBuffer>, i: int) -> bool {
    match validity {
        Some(b) => b@[i],
        None => true,
    }
}

/// A column of nulls; it only counts.
#[derive(Debug)]
pub struct NullBuilder {
    pub path: String,
    pub len: usize,
}

/// A boolean column.
#[derive(Debug)]
pub struct BoolBuilder {
    pub path: String,
    pub validity: Option<MutableBitBuffer>,
    pub values: MutableBitBuffer,
}

/// A 32-bit integer column.
#[derive(Debug)]
pub struct Int32Builder {
    pub path: String,
    pub validity: Option<MutableBitBuffer>,
    pub values: Vec<i32>,
}

/// A 64-bit integer column; a Date64 column whose field carries a date
/// strategy also takes ISO date-time strings, stored as milliseconds.
#[derive(Debug)]
pub struct Int64Builder {
    pub path: String,
    pub validity: Option<MutableBitBuffer>,
    pub values: Vec<i64>,
    pub date_strategy: Option<Strategy>,
}

/// A string column with 64-bit offsets into its UTF-8 bytes.
#[derive(Debug)]
pub struct LargeUtf8Builder {
    pub path: String,
    pub validity: Option<MutableBitBuffer>,
    pub offsets: MutableOffsetBuffer<i64>,
    pub data: Vec<u8>,
}

/// A list column with 64-bit offsets into its element column.
#[derive(Debug)]
pub struct LargeListBuilder {
    /// Levels of nesting below and including this column.
    pub depth: usize,
    pub path: String,
    pub meta: FieldMeta,
    pub validity: Option<MutableBitBuffer>,
    pub offsets: MutableOffsetBuffer<i64>,
    pub element: Box<ArrayBuilder>,
}

/// A list column whose rows all hold `n` elements.
#[derive(Debug)]
pub struct FixedSizeListBuilder {
    /// Levels of nesting below and including this column.
    pub depth: usize,
    pub path: String,
    pub meta: FieldMeta,
    pub validity: Option<MutableBitBuffer>,
    pub len: usize,
    pub n: usize,
    pub current_count: usize,
    pub element: Box<ArrayBuilder>,
}

/// A struct column: one child column per member.
#[derive(Debug)]
pub struct StructBuilder {
    /// Levels of nesting below and including this column.
    pub depth: usize,
    pub path: String,
    pub validity: Option<MutableBitBuffer>,
    pub len: usize,
    pub fields: Vec<(FieldMeta, ArrayBuilder)>,
}

/// The most variants a dense union holds: type ids are 8-bit.
pub const MAX_VARIANTS: usize = 127;

/// A dense union column: per row a type id and an offset into the child
/// of that type.
#[derive(Debug)]
pub struct DenseUnionBuilder {
    pub path: String,
    /// Levels of nesting below and including this column.
    pub depth: usize,
    pub types: Vec<i8>,
    pub offsets: Vec<i32>,
    pub fields: Vec<(FieldMeta, ArrayBuilder)>,
}

/// A map column: 32-bit offsets into parallel key and value columns; keys
/// are never null.
#[derive(Debug)]
pub struct MapBuilder {
    pub path: String,
    /// Levels of nesting below and including this column.
    pub depth: usize,
    pub validity: Option<MutableBitBuffer>,
    pub offsets: MutableOffsetBuffer<i32>,
    pub key_meta: FieldMeta,
    pub value_meta: FieldMeta,
    pub keys: Box<ArrayBuilder>,
    pub values: Box<ArrayBuilder>,
}

/// A dictionary column of strings: each distinct string is stored once,
/// and each row holds the index of its string.
#[derive(Debug)]
pub struct DictionaryBuilder {
    pub path: String,
    pub validity: Option<MutableBitBuffer>,
    pub indices: Vec<u32>,
    /// The distinct strings, in order of first appearance.
    pub values: Vec<String>,
    pub offsets: MutableOffsetBuffer<i64>,
    pub data: Vec<u8>,
}

/// The strings are distinct.
pub open spec fn distinct_strings(values: Seq<String>) -> bool {
    forall|i: int, j: int|
        0 <= i < j < values.len() ==> (#[trigger] values[i])@ != (#[trigger] values[j])@
}

/// A column of byte strings that all have `n` bytes.
#[derive(Debug)]
pub struct FixedSizeBinaryBuilder {
    pub path: String,
    pub validity: Option<MutableBitBuffer>,
    pub n: usize,
    pub len: usize,
    pub values: Vec<u8>,
}

/// A column builder of any supported type.
#[derive(Debug)]
pub enum ArrayBuilder {
    Null(NullBuilder),
    Bool(BoolBuilder),
    I32(Int32Builder),
    I64(Int64Builder),
    LargeUtf8(LargeUtf8Builder),
    LargeList(LargeListBuilder),
    FixedSizedList(FixedSizeListBuilder),
    Struct(StructBuilder),
    DenseUnion(DenseUnionBuilder),
    KeyValues(MapBuilder),
    Dictionary(DictionaryBuilder),
    FixedSizeBinary(FixedSizeBinaryBuilder),
}

impl ArrayBuilder {
    /// The number of rows written.
    pub open spec fn spec_len(&self) -> nat
        decreases self,
    {
        match self {
            ArrayBuilder::Null(b) => b.len as nat,
            ArrayBuilder::Bool(b) => b.values@.len(),
            ArrayBuilder::I32(b) => b.values@.len(),
            ArrayBuilder::I64(b) => b.values@.len(),
            ArrayBuilder::LargeUtf8(b) => (b.offsets.spec_offsets().len() - 1) as nat,
            ArrayBuilder::LargeList(b) => (b.offsets.spec_offsets().len() - 1) as nat,
            ArrayBuilder::FixedSizedList(b) => b.len as nat,
            ArrayBuilder::Struct(b) => b.len as nat,
            ArrayBuilder::DenseUnion(b) => b.types@.len(),
            ArrayBuilder::KeyValues(b) => (b.offsets.spec_offsets().len() - 1) as nat,
            ArrayBuilder::Dictionary(b) => b.indices@.len(),
            ArrayBuilder::FixedSizeBinary(b) => b.len as nat,
        }
    }

    /// Levels of nesting: zero for a leaf, more than any child's otherwise.
    pub open spec fn spec_depth(&self) -> nat {
        match self {
            ArrayBuilder::LargeList(b) => b.depth as nat,
            ArrayBuilder::FixedSizedList(b) => b.depth as nat,
            ArrayBuilder::Struct(b) => b.depth as nat,
            ArrayBuilder::DenseUnion(b) => b.depth as nat,
            ArrayBuilder::KeyValues(b) => b.depth as nat,
            _ => 0,
        }
    }

    /// The validity bitmap, if the column is nullable.
    pub open spec fn spec_validity(&self) -> Option<MutableBitBuffer> {
        match self {
            ArrayBuilder::Null(_) => None,
            ArrayBuilder::Bool(b) => b.validity,
            ArrayBuilder::I32(b) => b.validity,
            ArrayBuilder::I64(b) => b.validity,
            ArrayBuilder::LargeUtf8(b) => b.validity,
            ArrayBuilder::LargeList(b) => b.validity,
            ArrayBuilder::FixedSizedList(b) => b.validity,
            ArrayBuilder::Struct(b) => b.validity,
            ArrayBuilder::DenseUnion(_) => None,
            ArrayBuilder::KeyValues(b) => b.validity,
            ArrayBuilder::Dictionary(b) => b.validity,
            ArrayBuilder::FixedSizeBinary(b) => b.validity,
        }
    }

    /// The Arrow layout holds: one validity bit per row where nullable,
    /// offsets that start at zero, never decrease and end at the child
    /// length, null list rows that are empty, fixed-size lists with `n`
    /// child values per row, and struct children as long as the struct.
    pub open spec fn wf(&self) -> bool
        decreases self,
    {
        &&& self.spec_len() <= MAX_ROWS
        &&& validity_fits(self.spec_validity(), self.spec_len())
        &&& match self {
            ArrayBuilder::Null(_) => true,
            ArrayBuilder::Bool(b) => b.values.wf(),
            ArrayBuilder::I32(_) => true,
            ArrayBuilder::I64(_) => true,
            ArrayBuilder::LargeUtf8(b) => {
                &&& b.offsets.wf()
                &&& b.offsets.spec_offsets().last() == b.data@.len()
                &&& b.offsets.current_items as int == b.data@.len()
            },
            ArrayBuilder::LargeList(b) => {
                &&& b.offsets.wf()
                &&& b.offsets.spec_offsets().last() == b.element.spec_len()
                &&& b.offsets.current_items as int == b.element.spec_len()
                &&& b.element.wf()
                &&& b.element.spec_depth() < b.depth
                &&& forall|i: int|
                    0 <= i < self.spec_len() && !row_is_valid(b.validity, i) ==> #[trigger] b.offsets.spec_offsets()[i
                        + 1] == b.offsets.spec_offsets()[i]
            },
            ArrayBuilder::FixedSizedList(b) => {
                &&& b.element.wf()
                &&& b.element.spec_depth() < b.depth
                &&& b.current_count == 0
                &&& b.element.spec_len() == b.len * b.n
            },
            ArrayBuilder::Struct(b) => {
                &&& forall|i: int|
                    0 <= i < b.fields@.len() ==> (#[trigger] b.fields@[i]).1.wf()
                        && b.fields@[i].1.spec_len() == b.len && b.fields@[i].1.spec_depth() < b.depth
            },
            ArrayBuilder::FixedSizeBinary(b) => b.values@.len() == b.len * b.n && b.n
                <= i32::MAX,
            ArrayBuilder::Dictionary(b) => {
                &&& b.offsets.wf()
                &&& b.offsets.spec_offsets().len() == b.values@.len() + 1
                &&& b.offsets.spec_offsets().last() == b.data@.len()
                &&& b.offsets.current_items as int == b.data@.len()
                &&& b.values@.len() <= u32::MAX
                &&& distinct_strings(b.values@)
                &&& forall|i: int|
                    0 <= i < b.indices@.len() ==> #[trigger] b.indices@[i] < b.values@.len()
                        || !row_is_valid(b.validity, i)
            },
            ArrayBuilder::KeyValues(b) => {
                &&& b.offsets.wf()
                &&& b.offsets.spec_offsets().last() == b.keys.spec_len()
                &&& b.offsets.current_items as int == b.keys.spec_len()
                &&& b.values.spec_len() == b.keys.spec_len()
                &&& b.keys.wf()
                &&& b.values.wf()
                &&& b.keys.spec_validity() is None
                &&& b.keys.spec_depth() < b.depth
                &&& b.values.spec_depth() < b.depth
                &&& forall|i: int|
                    0 <= i < self.spec_len() && !row_is_valid(b.validity, i) ==> #[trigger] b.offsets.spec_offsets()[i
                        + 1] == b.offsets.spec_offsets()[i]
            },
            ArrayBuilder::DenseUnion(b) => {
                &&& b.offsets@.len() == b.types@.len()
                &&& b.fields@.len() <= MAX_VARIANTS
                &&& forall|j: int|
                    0 <= j < b.fields@.len() ==> (#[trigger] b.fields@[j]).1.wf()
                        && b.fields@[j].1.spec_depth() < b.depth
                &&& forall|i: int|
                    0 <= i < b.types@.len() ==> 0 <= #[trigger] b.types@[i] < b.fields@.len()
                        && 0 <= b.offsets@[i] < b.fields@[b.types@[i] as int].1.spec_len()
            },
        }
    }
}

/// Whether the column builders take a field: its type and every type below
/// it is one they build, strides and widths are not negative, dictionaries
/// map `UInt32` to `LargeUtf8`, map keys are not nullable, union type ids
/// run `0, 1, ...` over at most 127 variants, and a Date64 field names no
/// strategy but a date one.
pub open spec fn buildable(f: Field) -> bool
    decreases f,
{
    match f.data_type {
        DataType::Null | DataType::Boolean | DataType::Int32 | DataType::Int64
        | DataType::LargeUtf8 => true,
        DataType::Date64 => metadata_lookup(f.metadata@, STRATEGY_KEY@) matches Some(name) ==> (
        strategy_named(name) == Some(Strategy::NaiveStrAsDate64) || strategy_named(name) == Some(
            Strategy::UtcStrAsDate64,
        )),
        DataType::FixedSizeBinary(n) => n >= 0,
        DataType::Dictionary(i, v) => *i == DataType::UInt32 && *v == DataType::LargeUtf8,
        DataType::LargeList(item) => buildable(*item),
        DataType::FixedSizeList(item, n) => n >= 0 && buildable(*item),
        DataType::Struct(children) => forall|i: int|
            #![trigger children@[i].data_type]
            0 <= i < children@.len() ==> buildable(children@[i]),
        DataType::Mapping(k, v) => !k.nullable && buildable(*k) && buildable(*v),
        DataType::DenseUnion(children) => children@.len() <= MAX_VARIANTS && forall|i: int|
            0 <= i < children@.len() ==> (#[trigger] children@[i]).0 == i && buildable(children@[i].1),
        _ => false,
    }
}

/// Whether the field nests at most `d` levels of child columns.
pub open spec fn nesting_within(f: Field, d: nat) -> bool
    decreases f,
{
    match f.data_type {
        DataType::LargeList(item) => d > 0 && nesting_within(*item, (d - 1) as nat),
        DataType::FixedSizeList(item, _) => d > 0 && nesting_within(*item, (d - 1) as nat),
        DataType::Struct(children) => d > 0 && forall|i: int|
            #![trigger children@[i].data_type]
            0 <= i < children@.len() ==> nesting_within(children@[i], (d - 1) as nat),
        DataType::Mapping(k, v) => d > 0 && nesting_within(*k, (d - 1) as nat) && nesting_within(
            *v,
            (d - 1) as nat,
        ),
        DataType::DenseUnion(children) => d > 0 && forall|i: int|
            0 <= i < children@.len() ==> nesting_within((#[trigger] children@[i]).1, (d - 1) as nat),
        _ => true,
    }
}

/// Every fixed-size list stride in the column fits 32 bits, so the column
/// can be finished.
pub open spec fn strides_fit(b: ArrayBuilder) -> bool
    decreases b,
{
    match b {
        ArrayBuilder::FixedSizedList(c) => c.n <= i32::MAX && strides_fit(*c.element),
        ArrayBuilder::LargeList(c) => strides_fit(*c.element),
        ArrayBuilder::KeyValues(c) => strides_fit(*c.keys) && strides_fit(*c.values),
        ArrayBuilder::Struct(c) => forall|i: int|
            0 <= i < c.fields@.len() ==> strides_fit(#[trigger] c.fields@[i].1),
        ArrayBuilder::DenseUnion(c) => forall|i: int|
            0 <= i < c.fields@.len() ==> strides_fit(#[trigger] c.fields@[i].1),
        _ => true,
    }
}

/// A column whose default row never needs more than room for one row: it
/// writes no child rows (or only plain bytes).
pub open spec fn defaults_in_place(b: ArrayBuilder) -> bool {
    b is Null || b is Bool || b is I32 || b is I64 || b is LargeUtf8 || b is LargeList
        || b is KeyValues || b is FixedSizeBinary || (b is Dictionary && b.spec_validity() is Some)
}

/// The row just written is null where the column is nullable.
pub open spec fn last_row_null(b: ArrayBuilder) -> bool {
    b.spec_validity() matches Some(v) ==> !v@.last()
}

/// A column of nulls, booleans or integers, whose rows read back as values.
pub open spec fn is_scalar(b: ArrayBuilder) -> bool {
    b is Null || b is Bool || b is I32 || b is I64
}

/// Row `i` of a scalar column as a value: null where the validity bit is
/// clear.
pub open spec fn builder_row(b: ArrayBuilder, i: int) -> Value {
    match b {
        ArrayBuilder::Bool(c) => if row_is_valid(c.validity, i) {
            Value::Bool(c.values@[i])
        } else {
            Value::Null
        },
        ArrayBuilder::I32(c) => if row_is_valid(c.validity, i) {
            Value::Int(c.values@[i] as i64)
        } else {
            Value::Null
        },
        ArrayBuilder::I64(c) => if row_is_valid(c.validity, i) {
            Value::Int(c.values@[i])
        } else {
            Value::Null
        },
        _ => Value::Null,
    }
}

/// The bytes of row `i` of a string column: absent where the row is null.
pub open spec fn builder_text(b: ArrayBuilder, i: int) -> Option<Seq<u8>> {
    match b {
        ArrayBuilder::LargeUtf8(c) => if row_is_valid(c.validity, i) {
            Some(c.data@.subrange(c.offsets.spec_offsets()[i], c.offsets.spec_offsets()[i + 1]))
        } else {
            None
        },
        _ => None,
    }
}

/// The string rows before `len` read as they did.
pub open spec fn texts_kept(old: ArrayBuilder, new: ArrayBuilder, len: int) -> bool {
    forall|j: int| 0 <= j < len ==> #[trigger] builder_text(new, j) == builder_text(old, j)
}

/// The UTF-8 bytes of a string value, nothing for other values.
pub open spec fn value_text(v: Value) -> Option<Seq<u8>> {
    match v {
        Value::Str(s) => Some(vstd::utf8::encode_utf8(s@)),
        _ => None,
    }
}

/// The rows before `len` read as they did.
pub open spec fn rows_kept(old: ArrayBuilder, new: ArrayBuilder, len: int) -> bool {
    forall|j: int| 0 <= j < len ==> #[trigger] builder_row(new, j) == builder_row(old, j)
}

fn too_many_rows(path: &str) -> (r: Error)
    ensures
        r.kind == ErrorKind::OutOfRange,
{
    Error::at_path(ErrorKind::OutOfRange, "Too many rows for one column", path)
}

impl ArrayBuilder {
    /// The path of the column, for messages.
    pub fn path(&self) -> &str {
        match self {
            ArrayBuilder::Null(b) => b.path.as_str(),
            ArrayBuilder::Bool(b) => b.path.as_str(),
            ArrayBuilder::I32(b) => b.path.as_str(),
            ArrayBuilder::I64(b) => b.path.as_str(),
            ArrayBuilder::LargeUtf8(b) => b.path.as_str(),
            ArrayBuilder::LargeList(b) => b.path.as_str(),
            ArrayBuilder::FixedSizedList(b) => b.path.as_str(),
            ArrayBuilder::Struct(b) => b.path.as_str(),
            ArrayBuilder::DenseUnion(b) => b.path.as_str(),
            ArrayBuilder::KeyValues(b) => b.path.as_str(),
            ArrayBuilder::Dictionary(b) => b.path.as_str(),
            ArrayBuilder::FixedSizeBinary(b) => b.path.as_str(),
        }
    }

    /// The number of rows written.
    pub fn len(&self) -> (r: usize)
        requires
            self.wf(),
        ensures
            r == self.spec_len(),
    {
        match self {
            ArrayBuilder::Null(b) => b.len,
            ArrayBuilder::Bool(b) => b.values.len(),
            ArrayBuilder::I32(b) => b.values.len(),
            ArrayBuilder::I64(b) => b.values.len(),
            ArrayBuilder::LargeUtf8(b) => b.offsets.len(),
            ArrayBuilder::LargeList(b) => b.offsets.len(),
            ArrayBuilder::FixedSizedList(b) => b.len,
            ArrayBuilder::Struct(b) => b.len,
            ArrayBuilder::DenseUnion(b) => b.types.len(),
            ArrayBuilder::KeyValues(b) => b.offsets.len(),
            ArrayBuilder::Dictionary(b) => b.indices.len(),
            ArrayBuilder::FixedSizeBinary(b) => b.len,
        }
    }

    /// Whether this is a column of nulls.
    pub fn is_null_column(&self) -> (r: bool)
        ensures
            r == self is Null,
    {
        match self {
            ArrayBuilder::Null(_) => true,
            _ => false,
        }
    }

    /// Whether the column takes nulls.
    pub fn is_nullable(&self) -> (r: bool)
        ensures
            r == self.spec_validity() is Some,
    {
        match self {
            ArrayBuilder::Null(_) => false,
            ArrayBuilder::Bool(b) => b.validity.is_some(),
            ArrayBuilder::I32(b) => b.validity.is_some(),
            ArrayBuilder::I64(b) => b.validity.is_some(),
            ArrayBuilder::LargeUtf8(b) => b.validity.is_some(),
            ArrayBuilder::LargeList(b) => b.validity.is_some(),
            ArrayBuilder::FixedSizedList(b) => b.validity.is_some(),
            ArrayBuilder::Struct(b) => b.validity.is_some(),
            ArrayBuilder::DenseUnion(_) => false,
            ArrayBuilder::KeyValues(b) => b.validity.is_some(),
            ArrayBuilder::Dictionary(b) => b.validity.is_some(),
            ArrayBuilder::FixedSizeBinary(b) => b.validity.is_some(),
        }
    }

    /// Writes a default row: null where the column is nullable, otherwise
    /// a zero, false, empty or all-default value.
    pub fn push_default(&mut self) -> (r: Result<(), Error>)
        requires
            old(self).wf(),
        ensures
            r is Ok ==> final(self).wf(),
            r is Ok ==> final(self).spec_len() == old(self).spec_len() + 1,
            r is Ok ==> last_row_null(*final(self)),
            old(self).spec_len() >= MAX_ROWS ==> r is Err,
            defaults_in_place(*old(self)) && old(self).spec_len() < MAX_ROWS ==> r is Ok,
            write_keeps(*old(self), *final(self)),
            r is Ok && is_scalar(*old(self)) ==> is_scalar(*final(self)) && rows_kept(
                *old(self),
                *final(self),
                old(self).spec_len() as int,
            ),
            r is Ok && is_scalar(*old(self)) && old(self).spec_validity() is Some ==> builder_row(
                *final(self),
                old(self).spec_len() as int,
            ) == Value::Null,
            r is Ok && (*old(self)) is LargeUtf8 ==> texts_kept(
                *old(self),
                *final(self),
                old(self).spec_len() as int,
            ),
            r is Ok && (*old(self)) is LargeUtf8 && old(self).spec_validity() is Some ==> builder_text(
                *final(self),
                old(self).spec_len() as int,
            ) is None,
        decreases old(self).spec_depth(),
    {
        if self.len() >= MAX_ROWS {
            return Err(too_many_rows(self.path()));
        }
        match self {
            ArrayBuilder::Null(b) => {
                b.len = b.len + 1;
                Ok(())
            },
            ArrayBuilder::Bool(b) => {
                push_validity_default(&mut b.validity);
                b.values.push(false);
                Ok(())
            },
            ArrayBuilder::I32(b) => {
                push_validity_default(&mut b.validity);
                b.values.push(0);
                Ok(())
            },
            ArrayBuilder::I64(b) => {
                push_validity_default(&mut b.validity);
                b.values.push(0);
                Ok(())
            },
            ArrayBuilder::LargeUtf8(b) => {
                let ghost b0 = *b;
                push_validity_default(&mut b.validity);
                b.offsets.push_current_items();
                proof {
                    let o0 = b0.offsets.spec_offsets();
                    assert forall|j: int| 0 <= j < o0.len() - 1 implies #[trigger] builder_text(
                        ArrayBuilder::LargeUtf8(*b),
                        j,
                    ) == builder_text(ArrayBuilder::LargeUtf8(b0), j) by {
                        assert(b.offsets.spec_offsets()[j] == o0[j]);
                        assert(b.offsets.spec_offsets()[j + 1] == o0[j + 1]);
                    }
                }
                Ok(())
            },
            ArrayBuilder::LargeList(b) => {
                push_validity_default(&mut b.validity);
                b.offsets.push_current_items();
                Ok(())
            },
            ArrayBuilder::FixedSizedList(b) => {
                push_validity_default(&mut b.validity);
                let ghost len0 = b.element.spec_len();
                let mut failure: Option<Error> = None;
                let mut k: usize = 0;
                while k < b.n && failure.is_none()
                    invariant
                        k <= b.n,
                        b.element.spec_depth() < b.depth,
                        b.depth == old(self).spec_depth(),
                        b.current_count == 0,
                        len0 == b.len * b.n,
                        b.len < MAX_ROWS,
                        b.len == old(self).spec_len(),
                        validity_fits(b.validity, (b.len + 1) as nat),
                        b.validity matches Some(v) ==> !v@.last(),
                        b.validity is Some == old(self).spec_validity() is Some,
                        failure is None ==> b.element.wf() && b.element.spec_len() == len0 + k,
                    decreases b.n - k,
                {
                    match b.element.push_default() {
                        Ok(()) => {},
                        Err(e) => {
                            failure = Some(e);
                        },
                    }
                    k = k + 1;
                }
                match failure {
                    Some(e) => Err(e),
                    None => {
                        assert((b.len + 1) * b.n == b.len * b.n + b.n) by (nonlinear_arith);
                        b.len = b.len + 1;
                        Ok(())
                    },
                }
            },
            ArrayBuilder::Struct(b) => {
                push_validity_default(&mut b.validity);
                let ghost start = b.fields@;
                let mut failure: Option<Error> = None;
                let mut k: usize = 0;
                while k < b.fields.len() && failure.is_none()
                    invariant
                        k <= b.fields@.len() == start.len(),
                        b.depth == old(self).spec_depth(),
                        forall|j: int|
                            k <= j < start.len() ==> #[trigger] b.fields@[j] == start[j],
                        forall|j: int|
                            0 <= j < start.len() ==> (#[trigger] b.fields@[j]).1.spec_depth()
                                == start[j].1.spec_depth(),
                        failure is None ==> forall|j: int|
                            0 <= j < k ==> (#[trigger] b.fields@[j]).1.wf()
                                && b.fields@[j].1.spec_len() == b.len + 1,
                        forall|j: int|
                            0 <= j < start.len() ==> (#[trigger] start[j]).1.wf()
                                && start[j].1.spec_len() == b.len && start[j].1.spec_depth()
                                < b.depth,
                        b.len < MAX_ROWS,
                        b.len == old(self).spec_len(),
                        validity_fits(b.validity, (b.len + 1) as nat),
                        b.validity matches Some(v) ==> !v@.last(),
                        b.validity is Some == old(self).spec_validity() is Some,
                    decreases b.fields.len() - k,
                {
                    let child = &mut b.fields[k].1;
                    match child.push_default() {
                        Ok(()) => {},
                        Err(e) => {
                            failure = Some(e);
                        },
                    }
                    k = k + 1;
                }
                match failure {
                    Some(e) => Err(e),
                    None => {
                        b.len = b.len + 1;
                        Ok(())
                    },
                }
            },
            ArrayBuilder::FixedSizeBinary(b) => {
                push_validity_default(&mut b.validity);
                let ghost len0 = b.values@.len();
                let mut k: usize = 0;
                while k < b.n
                    invariant
                        k <= b.n <= i32::MAX,
                        b.values@.len() == len0 + k,
                        len0 == b.len * b.n,
                        b.len < MAX_ROWS,
                        b.len == old(self).spec_len(),
                        validity_fits(b.validity, (b.len + 1) as nat),
                        b.validity matches Some(v) ==> !v@.last(),
                        b.validity is Some == old(self).spec_validity() is Some,
                    decreases b.n - k,
                {
                    b.values.push(0);
                    k = k + 1;
                }
                assert((b.len + 1) * b.n == b.len * b.n + b.n) by (nonlinear_arith);
                b.len = b.len + 1;
                Ok(())
            },
            ArrayBuilder::Dictionary(b) => {
                if b.validity.is_some() {
                    push_validity_default(&mut b.validity);
                    b.indices.push(0);
                } else {
                    let k = match b.intern("") {
                        Ok(k) => k,
                        Err(e) => {
                            return Err(e);
                        },
                    };
                    b.indices.push(k);
                }
                Ok(())
            },
            ArrayBuilder::KeyValues(b) => {
                push_validity_default(&mut b.validity);
                b.offsets.push_current_items();
                Ok(())
            },
            ArrayBuilder::DenseUnion(b) => {
                let ghost b0 = *b;
                if b.fields.len() == 0 {
                    return Err(Error::at_path(
                        ErrorKind::Shape,
                        "A union without variants has no default",
                        b.path.as_str(),
                    ));
                }
                let child_len = b.fields[0].1.len();
                let ghost fields0 = b.fields@;
                let child = &mut b.fields[0].1;
                match child.push_default() {
                    Ok(()) => {},
                    Err(e) => {
                        return Err(e);
                    },
                }
                b.types.push(0);
                b.offsets.push(child_len as i32);
                assert(forall|j: int|
                    0 < j < fields0.len() ==> #[trigger] b.fields@[j] == fields0[j]);
                assert(b.fields@[0].1.spec_len() == fields0[0].1.spec_len() + 1);
                assert forall|i: int|
                    0 <= i < b.types@.len() implies 0 <= #[trigger] b.types@[i] < b.fields@.len()
                        && 0 <= b.offsets@[i] < b.fields@[b.types@[i] as int].1.spec_len() by {
                    if i < b.types@.len() - 1 {
                        assert(b.types@[i] == b0.types@[i]);
                        assert(b.offsets@[i] == b0.offsets@[i]);
                        assert(0 <= b0.types@[i] < b0.fields@.len() && 0 <= b0.offsets@[i]
                            < b0.fields@[b0.types@[i] as int].1.spec_len());
                    }
                }
                Ok(())
            },
        }
    }
}

/// Whether a column takes a value of this kind at all.
pub open spec fn accepts_kind(b: ArrayBuilder, v: Value) -> bool {
    match v {
        Value::Null => b is Null || b.spec_validity() is Some,
        Value::Bool(_) => b is Bool,
        Value::Int(_) => b is I32 || b is I64,
        Value::Str(_) => b is LargeUtf8 || b is Dictionary || (b matches ArrayBuilder::I64(c)
            && c.date_strategy is Some),
        Value::List(_) => b is LargeList || b is FixedSizedList,
        Value::Struct(_) => b is Struct,
        Value::Variant(_, _) => b is DenseUnion,
        Value::Entries(_) => b is KeyValues,
        Value::Bytes(_) => b is FixedSizeBinary,
    }
}

/// Both builders are of the same column type.
pub open spec fn same_variant(old: ArrayBuilder, new: ArrayBuilder) -> bool {
    &&& (old is Null <==> new is Null)
    &&& (old is Bool <==> new is Bool)
    &&& (old is I32 <==> new is I32)
    &&& (old is I64 <==> new is I64)
    &&& (old is LargeUtf8 <==> new is LargeUtf8)
    &&& (old is LargeList <==> new is LargeList)
    &&& (old is FixedSizedList <==> new is FixedSizedList)
    &&& (old is Struct <==> new is Struct)
    &&& (old is DenseUnion <==> new is DenseUnion)
    &&& (old is KeyValues <==> new is KeyValues)
    &&& (old is Dictionary <==> new is Dictionary)
    &&& (old is FixedSizeBinary <==> new is FixedSizeBinary)
}

/// A Date64 column that also takes date-time strings.
pub open spec fn takes_dates(b: ArrayBuilder) -> bool {
    b matches ArrayBuilder::I64(c) && c.date_strategy is Some
}

/// What a write keeps: the column type, the nesting depth and whether the
/// column is nullable.
pub open spec fn write_keeps(old: ArrayBuilder, new: ArrayBuilder) -> bool {
    &&& same_variant(old, new)
    &&& takes_dates(old) == takes_dates(new)
    &&& new.spec_depth() == old.spec_depth()
    &&& new.spec_validity() is Some == old.spec_validity() is Some
}

/// A successful write leaves a well-formed column one row longer.
pub open spec fn wrote_row(old: ArrayBuilder, new: ArrayBuilder) -> bool {
    &&& new.wf()
    &&& new.spec_len() == old.spec_len() + 1
}

/// Appends `bytes` to `data`.
fn append_bytes(data: &mut Vec<u8>, bytes: &[u8])
    ensures
        final(data)@ == old(data)@ + bytes@,
{
    let mut i: usize = 0;
    while i < bytes.len()
        invariant
            i <= bytes@.len(),
            data@ == old(data)@ + bytes@.subrange(0, i as int),
        decreases bytes.len() - i,
    {
        data.push(bytes[i]);
        i = i + 1;
        assert(data@ =~= old(data)@ + bytes@.subrange(0, i as int));
    }
    assert(bytes@.subrange(0, bytes@.len() as int) =~= bytes@);
}

impl DictionaryBuilder {
    /// The index of `s` among the distinct strings, added if new.
    pub fn intern(&mut self, s: &str) -> (r: Result<u32, Error>)
        requires
            ArrayBuilder::Dictionary(*old(self)).wf(),
        ensures
            r is Ok ==> ArrayBuilder::Dictionary(*final(self)).wf() && r->Ok_0 < final(self).values@.len() && final(self).values@[r->Ok_0 as int]@ == s@,
            r is Ok ==> final(self).indices == old(self).indices,
            final(self).validity == old(self).validity,
            final(self).path == old(self).path,
            r is Ok && (exists|j: int| 0 <= j < old(self).values@.len() && old(self).values@[j]@ == s@)
                ==> final(self).values@ == old(self).values@,
    {
        let mut i: usize = 0;
        let mut found = false;
        while i < self.values.len() && !found
            invariant
                i <= self.values@.len(),
                self.values@.len() <= u32::MAX,
                found ==> i < self.values@.len() && self.values@[i as int]@ == s@,
                !found ==> forall|j: int| 0 <= j < i ==> (#[trigger] self.values@[j])@ != s@,
            decreases self.values.len() - i + if found {
                0int
            } else {
                1int
            },
        {
            if same_text(self.values[i].as_str(), s) {
                found = true;
            } else {
                i = i + 1;
            }
        }
        if found {
            return Ok(i as u32);
        }
        if self.values.len() >= u32::MAX as usize {
            return Err(Error::at_path(
                ErrorKind::OutOfRange,
                "Too many distinct dictionary values",
                self.path.as_str(),
            ));
        }
        let bytes = s.as_bytes();
        match self.offsets.push(bytes.len()) {
            Ok(()) => {},
            Err(e) => {
                return Err(e);
            },
        }
        append_bytes(&mut self.data, bytes);
        let k = self.values.len();
        self.values.push(s.to_owned());
        assert(distinct_strings(self.values@)) by {
            assert forall|a: int, b: int|
                0 <= a < b < self.values@.len() implies (#[trigger] self.values@[a])@ != (
                #[trigger] self.values@[b])@ by {
                if b < k {
                    assert(self.values@[a] == old(self).values@[a]);
                    assert(self.values@[b] == old(self).values@[b]);
                }
            }
        }
        Ok(k as u32)
    }
}

impl ArrayBuilder {
    /// Writes a null row; a column that is not nullable refuses it.
    pub fn push_none(&mut self) -> (r: Result<(), Error>)
        requires
            old(self).wf(),
        ensures
            write_keeps(*old(self), *final(self)),
            r is Ok ==> wrote_row(*old(self), *final(self)) && last_row_null(*final(self)),
            !accepts_kind(*old(self), Value::Null) ==> r is Err && r->Err_0.kind
                == ErrorKind::Invalid && *final(self) == *old(self),
            old(self).spec_len() >= MAX_ROWS ==> r is Err,
            accepts_kind(*old(self), Value::Null) && defaults_in_place(*old(self)) && old(self).spec_len() < MAX_ROWS ==> r is Ok,
            r is Ok && is_scalar(*old(self)) ==> is_scalar(*final(self)) && rows_kept(
                *old(self),
                *final(self),
                old(self).spec_len() as int,
            ) && builder_row(*final(self), old(self).spec_len() as int) == Value::Null,
            r is Ok && (*old(self)) is LargeUtf8 ==> texts_kept(
                *old(self),
                *final(self),
                old(self).spec_len() as int,
            ) && builder_text(*final(self), old(self).spec_len() as int) is None,
    {
        if !self.is_nullable() && !self.is_null_column() {
            return Err(Error::at_path(
                ErrorKind::Invalid,
                "cannot push null for non-nullable array",
                self.path(),
            ));
        }
        self.push_default()
    }

    /// Writes one row holding `v`.
    #[verifier::rlimit(100)]
    #[verifier::spinoff_prover]
    pub fn push(&mut self, v: &Value) -> (r: Result<(), Error>)
        requires
            old(self).wf(),
        ensures
            write_keeps(*old(self), *final(self)),
            r is Ok ==> wrote_row(*old(self), *final(self)),
            !accepts_kind(*old(self), *v) ==> r is Err,
            old(self).spec_len() >= MAX_ROWS ==> r is Err,
            r is Ok && *v is Null ==> last_row_null(*final(self)),
            *v is Null && accepts_kind(*old(self), Value::Null) && defaults_in_place(*old(self))
                && old(self).spec_len() < MAX_ROWS ==> r is Ok,
            *v matches Value::Int(x) ==> ((*old(self)) is I64 && old(self).spec_len() < MAX_ROWS
                ==> r is Ok && (*final(self))->I64_0.values@ == (*old(self))->I64_0.values@.push(x)),
            *v matches Value::Int(x) ==> ((*old(self)) is I32 && old(self).spec_len() < MAX_ROWS
                ==> (r is Ok <==> i32::MIN <= x <= i32::MAX)),
            *v matches Value::Int(x) ==> ((*old(self)) is I32 && r is Ok ==> (*final(self))->I32_0.values@
                == (*old(self))->I32_0.values@.push(x as i32)),
            *v matches Value::Bool(x) ==> ((*old(self)) is Bool && old(self).spec_len() < MAX_ROWS
                ==> r is Ok && (*final(self))->Bool_0.values@ == (*old(self))->Bool_0.values@.push(x)),
            *v matches Value::Str(x) ==> ((*old(self)) is LargeUtf8 && r is Ok
                ==> (*final(self))->LargeUtf8_0.data@ == (*old(self))->LargeUtf8_0.data@
                + vstd::utf8::encode_utf8(x@)),
            *v matches Value::Str(x) ==> ((*old(self)) is I64 && r is Ok ==> (
            *final(self))->I64_0.values@ == (*old(self))->I64_0.values@.push(
                fields_millis(
                    datetime_fields(
                        datetime_body(
                            x@,
                            (*old(self))->I64_0.date_strategy == Some(Strategy::UtcStrAsDate64),
                        ),
                    ),
                ) as i64,
            )),
            *v matches Value::Bytes(bytes) ==> ((*old(self)) is FixedSizeBinary ==> (r is Ok ==> (
            *final(self))->FixedSizeBinary_0.values@ == (*old(self))->FixedSizeBinary_0.values@
                + bytes@) && (bytes@.len() != (*old(self))->FixedSizeBinary_0.n ==> r is Err)),
            *v matches Value::List(items) ==> ((*old(self)) is FixedSizedList && items@.len()
                != (*old(self))->FixedSizedList_0.n ==> r is Err),
            r is Ok && !(*v is Null) ==> !last_row_null(*final(self)) || final(self).spec_validity() is None,
            r is Ok && is_scalar(*old(self)) ==> is_scalar(*final(self)) && rows_kept(
                *old(self),
                *final(self),
                old(self).spec_len() as int,
            ),
            r is Ok && is_scalar(*old(self)) && !takes_dates(*old(self)) ==> builder_row(
                *final(self),
                old(self).spec_len() as int,
            ) == *v,
            r is Ok && (*old(self)) is LargeUtf8 ==> texts_kept(
                *old(self),
                *final(self),
                old(self).spec_len() as int,
            ) && builder_text(*final(self), old(self).spec_len() as int) == value_text(*v),
        decreases v,
    {
        match v {
            Value::Null => {
                return self.push_none();
            },
            _ => {},
        }
        if self.len() >= MAX_ROWS {
            return Err(too_many_rows(self.path()));
        }
        match (self, v) {
            (ArrayBuilder::Bool(b), Value::Bool(x)) => {
                let _ = push_validity(&mut b.validity, true);
                b.values.push(*x);
                Ok(())
            },
            (ArrayBuilder::I64(b), Value::Int(x)) => {
                let _ = push_validity(&mut b.validity, true);
                b.values.push(*x);
                Ok(())
            },
            (ArrayBuilder::I64(b), Value::Str(x)) => {
                let utc = match b.date_strategy {
                    Some(Strategy::NaiveStrAsDate64) => false,
                    Some(Strategy::UtcStrAsDate64) => true,
                    _ => {
                        return Err(Error::at_path(
                            ErrorKind::Invalid,
                            "strings are taken only by Date64 columns with a date strategy",
                            b.path.as_str(),
                        ));
                    },
                };
                let millis = match parse_datetime_millis(x.as_str(), utc) {
                    Ok(m) => m,
                    Err(e) => {
                        return Err(e);
                    },
                };
                let _ = push_validity(&mut b.validity, true);
                b.values.push(millis);
                Ok(())
            },
            (ArrayBuilder::I32(b), Value::Int(x)) => {
                if *x < i32::MIN as i64 || *x > i32::MAX as i64 {
                    return Err(Error::at_path(
                        ErrorKind::OutOfRange,
                        "value does not fit the 32-bit integer column",
                        b.path.as_str(),
                    ));
                }
                let _ = push_validity(&mut b.validity, true);
                b.values.push(*x as i32);
                Ok(())
            },
            (ArrayBuilder::LargeUtf8(b), Value::Str(x)) => {
                let ghost b0 = *b;
                let bytes = x.as_str().as_bytes();
                match b.offsets.push(bytes.len()) {
                    Ok(()) => {},
                    Err(e) => {
                        return Err(e);
                    },
                }
                append_bytes(&mut b.data, bytes);
                let _ = push_validity(&mut b.validity, true);
                proof {
                    let o0 = b0.offsets.spec_offsets();
                    let o1 = b.offsets.spec_offsets();
                    assert forall|j: int| 0 <= j < o0.len() - 1 implies #[trigger] builder_text(
                        ArrayBuilder::LargeUtf8(*b),
                        j,
                    ) == builder_text(ArrayBuilder::LargeUtf8(b0), j) by {
                        assert(o1[j] == o0[j]);
                        assert(o1[j + 1] == o0[j + 1]);
                        lemma_offsets_ordered(o0, j, j + 1);
                        lemma_offsets_ordered(o0, j + 1, o0.len() - 1);
                        assert(b.data@.subrange(o0[j], o0[j + 1]) =~= b0.data@.subrange(
                            o0[j],
                            o0[j + 1],
                        ));
                    }
                    let k = o0.len() - 1;
                    assert(o1[k] == b0.data@.len());
                    assert(o1[k + 1] == b.data@.len());
                    assert(b.data@.subrange(o1[k], o1[k + 1]) =~= bytes@);
                }
                Ok(())
            },
            (ArrayBuilder::LargeList(b), Value::List(items)) => {
                let ghost elem0 = b.element.spec_len();
                let ghost b0 = *b;
                let mut failure: Option<Error> = None;
                let mut i: usize = 0;
                while i < items.len() && failure.is_none()
                    invariant
                        i <= items@.len(),
                        decreases_to!(*v => *items),
                        b.offsets == b0.offsets,
                        b.validity == b0.validity,
                        b.path == b0.path,
                        b.depth == b0.depth,
                        b.element.spec_depth() < b.depth,
                        b.depth == old(self).spec_depth(),
                        b.validity is Some == old(self).spec_validity() is Some,
                        failure is None ==> b.element.wf() && b.element.spec_len() == elem0 + i,
                    decreases items.len() - i,
                {
                    proof {
                        assert(decreases_to!(*items => items[i as int]));
                    }
                    match b.element.push(&items[i]) {
                        Ok(()) => {},
                        Err(e) => {
                            failure = Some(e);
                        },
                    }
                    i = i + 1;
                }
                match failure {
                    Some(e) => {
                        return Err(e);
                    },
                    None => {},
                }
                match b.offsets.push(items.len()) {
                    Ok(()) => {},
                    Err(e) => {
                        return Err(e);
                    },
                }
                let _ = push_validity(&mut b.validity, true);
                Ok(())
            },
            (ArrayBuilder::FixedSizedList(b), Value::List(items)) => {
                b.current_count = 0;
                let ghost elem0 = b.element.spec_len();
                let ghost b0 = *b;
                let mut failure: Option<Error> = None;
                let mut i: usize = 0;
                while i < items.len() && failure.is_none()
                    invariant
                        i <= items@.len(),
                        decreases_to!(*v => *items),
                        b.validity == b0.validity,
                        b.path == b0.path,
                        b.len == b0.len,
                        b.n == b0.n,
                        b.depth == b0.depth,
                        b.element.spec_depth() < b.depth,
                        b.depth == old(self).spec_depth(),
                        b.validity is Some == old(self).spec_validity() is Some,
                        b.current_count == i,
                        failure is None ==> b.element.wf() && b.element.spec_len() == elem0 + i,
                    decreases items.len() - i,
                {
                    b.current_count = b.current_count + 1;
                    proof {
                        assert(decreases_to!(*items => items[i as int]));
                    }
                    match b.element.push(&items[i]) {
                        Ok(()) => {},
                        Err(e) => {
                            failure = Some(e);
                        },
                    }
                    i = i + 1;
                }
                match failure {
                    Some(e) => {
                        return Err(e);
                    },
                    None => {},
                }
                if b.current_count != b.n {
                    return Err(Error::at_path(
                        ErrorKind::Shape,
                        "Invalid number of elements for FixedSizedList",
                        b.path.as_str(),
                    ));
                }
                let _ = push_validity(&mut b.validity, true);
                assert((b.len + 1) * b.n == b.len * b.n + b.n) by (nonlinear_arith);
                b.len = b.len + 1;
                b.current_count = 0;
                Ok(())
            },
            (ArrayBuilder::Struct(b), Value::Struct(members)) => {
                let ghost start = b.fields@;
                let mut seen: Vec<bool> = Vec::new();
                let mut k: usize = 0;
                while k < b.fields.len()
                    invariant
                        k <= b.fields@.len(),
                        seen@.len() == k,
                        forall|j: int| 0 <= j < k ==> !seen@[j],
                    decreases b.fields.len() - k,
                {
                    seen.push(false);
                    k = k + 1;
                }
                let mut failure: Option<Error> = None;
                let mut i: usize = 0;
                while i < members.len() && failure.is_none()
                    invariant
                        i <= members@.len(),
                        decreases_to!(*v => *members),
                        b.fields@.len() == start.len() == seen@.len(),
                        b.depth == old(self).spec_depth(),
                        b.len == old(self).spec_len(),
                        b.len < MAX_ROWS,
                        b.validity is Some == old(self).spec_validity() is Some,
                        validity_fits(b.validity, b.len as nat),
                        forall|j: int|
                            0 <= j < start.len() ==> (#[trigger] b.fields@[j]).1.spec_depth()
                                == start[j].1.spec_depth() && start[j].1.spec_depth() < b.depth,
                        failure is None ==> forall|j: int|
                            0 <= j < start.len() ==> (#[trigger] b.fields@[j]).1.wf()
                                && b.fields@[j].1.spec_len() == b.len + if seen@[j] {
                                1int
                            } else {
                                0int
                            },
                    decreases members.len() - i,
                {
                    let mut idx: usize = 0;
                    while idx < b.fields.len() && b.fields[idx].0.name != members[i].0
                        invariant
                            idx <= b.fields@.len(),
                            i < members@.len(),
                        decreases b.fields.len() - idx,
                    {
                        idx = idx + 1;
                    }
                    if idx == b.fields.len() {
                        failure = Some(
                            Error::at_path(
                                ErrorKind::Shape,
                                "Unknown field for this struct",
                                b.path.as_str(),
                            ),
                        );
                    } else if seen[idx] {
                        failure = Some(
                            Error::at_path(
                                ErrorKind::Shape,
                                "Duplicate field in one record",
                                b.path.as_str(),
                            ),
                        );
                    } else {
                        seen.set(idx, true);
                        let child = &mut b.fields[idx].1;
                        proof {
                            assert(decreases_to!(*members => members[i as int]));
                        }
                        match child.push(&members[i].1) {
                            Ok(()) => {},
                            Err(e) => {
                                failure = Some(e);
                            },
                        }
                    }
                    i = i + 1;
                }
                match failure {
                    Some(e) => {
                        return Err(e);
                    },
                    None => {},
                }
                let mut k: usize = 0;
                while k < b.fields.len() && failure.is_none()
                    invariant
                        k <= b.fields@.len(),
                        b.fields@.len() == start.len() == seen@.len(),
                        b.depth == old(self).spec_depth(),
                        b.len == old(self).spec_len(),
                        b.len < MAX_ROWS,
                        b.validity is Some == old(self).spec_validity() is Some,
                        validity_fits(b.validity, b.len as nat),
                        forall|j: int|
                            0 <= j < start.len() ==> (#[trigger] b.fields@[j]).1.spec_depth()
                                == start[j].1.spec_depth() && start[j].1.spec_depth() < b.depth,
                        failure is None ==> forall|j: int|
                            0 <= j < start.len() ==> (#[trigger] b.fields@[j]).1.wf()
                                && b.fields@[j].1.spec_len() == b.len + if seen@[j] || j < k {
                                1int
                            } else {
                                0int
                            },
                    decreases b.fields.len() - k,
                {
                    if !seen[k] {
                        let child = &mut b.fields[k].1;
                        match child.push_default() {
                            Ok(()) => {},
                            Err(e) => {
                                failure = Some(e);
                            },
                        }
                    }
                    k = k + 1;
                }
                match failure {
                    Some(e) => {
                        return Err(e);
                    },
                    None => {},
                }
                let _ = push_validity(&mut b.validity, true);
                b.len = b.len + 1;
                Ok(())
            },
            (ArrayBuilder::FixedSizeBinary(b), Value::Bytes(bytes)) => {
                if bytes.len() != b.n {
                    return Err(Error::at_path(
                        ErrorKind::Shape,
                        "FixedSizeBinary takes exactly n bytes per value",
                        b.path.as_str(),
                    ));
                }
                append_bytes(&mut b.values, bytes.as_slice());
                assert((b.len + 1) * b.n == b.len * b.n + b.n) by (nonlinear_arith);
                let _ = push_validity(&mut b.validity, true);
                b.len = b.len + 1;
                Ok(())
            },
            (ArrayBuilder::Dictionary(b), Value::Str(x)) => {
                let k = match b.intern(x.as_str()) {
                    Ok(k) => k,
                    Err(e) => {
                        return Err(e);
                    },
                };
                let _ = push_validity(&mut b.validity, true);
                b.indices.push(k);
                Ok(())
            },
            (ArrayBuilder::KeyValues(b), Value::Entries(entries)) => {
                let ghost keys0 = b.keys.spec_len();
                let ghost b0 = *b;
                let mut failure: Option<Error> = None;
                let mut i: usize = 0;
                while i < entries.len() && failure.is_none()
                    invariant
                        i <= entries@.len(),
                        decreases_to!(*v => *entries),
                        b.offsets == b0.offsets,
                        b.validity == b0.validity,
                        b.path == b0.path,
                        b.depth == b0.depth,
                        b.keys.spec_depth() < b.depth,
                        b.values.spec_depth() < b.depth,
                        b.depth == old(self).spec_depth(),
                        b.validity is Some == old(self).spec_validity() is Some,
                        failure is None ==> b.keys.wf() && b.values.wf() && b.keys.spec_len() == keys0
                            + i && b.values.spec_len() == keys0 + i && b.keys.spec_validity() is None,
                    decreases entries.len() - i,
                {
                    proof {
                        assert(decreases_to!(*entries => entries[i as int]));
                    }
                    match b.keys.push(&entries[i].0) {
                        Ok(()) => match b.values.push(&entries[i].1) {
                            Ok(()) => {},
                            Err(e) => {
                                failure = Some(e);
                            },
                        },
                        Err(e) => {
                            failure = Some(e);
                        },
                    }
                    i = i + 1;
                }
                match failure {
                    Some(e) => {
                        return Err(e);
                    },
                    None => {},
                }
                match b.offsets.push(entries.len()) {
                    Ok(()) => {},
                    Err(e) => {
                        return Err(e);
                    },
                }
                let _ = push_validity(&mut b.validity, true);
                Ok(())
            },
            (ArrayBuilder::DenseUnion(b), Value::Variant(idx, inner)) => {
                let ghost b0 = *b;
                let k = *idx as usize;
                if k >= b.fields.len() {
                    return Err(Error::at_path(
                        ErrorKind::Shape,
                        "Unknown variant index for this union",
                        b.path.as_str(),
                    ));
                }
                let child_len = b.fields[k].1.len();
                let ghost fields0 = b.fields@;
                let child = &mut b.fields[k].1;
                match child.push(inner) {
                    Ok(()) => {},
                    Err(e) => {
                        return Err(e);
                    },
                }
                b.types.push(k as i8);
                b.offsets.push(child_len as i32);
                assert(forall|j: int|
                    0 <= j < fields0.len() && j != k ==> #[trigger] b.fields@[j] == fields0[j]);
                assert(b.fields@[k as int].1.spec_len() == fields0[k as int].1.spec_len() + 1);
                assert forall|i: int|
                    0 <= i < b.types@.len() implies 0 <= #[trigger] b.types@[i] < b.fields@.len()
                        && 0 <= b.offsets@[i] < b.fields@[b.types@[i] as int].1.spec_len() by {
                    if i < b.types@.len() - 1 {
                        assert(b.types@[i] == b0.types@[i]);
                        assert(b.offsets@[i] == b0.offsets@[i]);
                        assert(0 <= b0.types@[i] < b0.fields@.len() && 0 <= b0.offsets@[i]
                            < b0.fields@[b0.types@[i] as int].1.spec_len());
                    }
                }
                Ok(())
            },
            (b, _) => Err(Error::at_path(
                ErrorKind::Invalid,
                "the value does not match the column type",
                b.path(),
            )),
        }
    }
}

/// A finished, owned column: validity, offsets, values and children as
/// Arrow lays them out.
#[derive(Debug)]
pub enum Array {
    Null(usize),
    Boolean(Option<MutableBitBuffer>, MutableBitBuffer),
    Int32(Option<MutableBitBuffer>, Vec<i32>),
    Int64(Option<MutableBitBuffer>, Vec<i64>),
    LargeUtf8(LargeUtf8Array),
    LargeList(ListArray),
    FixedSizeList(FixedSizeListArray),
    Struct(StructArray),
    DenseUnion(DenseUnionArray),
    KeyValues(MapArray),
    Dictionary(DictionaryArray),
    FixedSizeBinary(FixedSizeBinaryArray),
}

/// Byte strings of `n` bytes each, stored back to back.
#[derive(Debug)]
pub struct FixedSizeBinaryArray {
    pub len: usize,
    pub validity: Option<MutableBitBuffer>,
    pub n: i32,
    pub values: Vec<u8>,
}

/// Dictionary-encoded strings: per row an index into the distinct values.
#[derive(Debug)]
pub struct DictionaryArray {
    pub validity: Option<MutableBitBuffer>,
    pub indices: Vec<u32>,
    pub values: LargeUtf8Array,
}

/// Maps: validity, offsets into the key and value columns, and those
/// columns.
#[derive(Debug)]
pub struct MapArray {
    pub validity: Option<MutableBitBuffer>,
    pub offsets: Vec<i32>,
    pub key_meta: FieldMeta,
    pub value_meta: FieldMeta,
    pub keys: Box<Array>,
    pub values: Box<Array>,
}

/// 32-bit offsets as integers.
pub open spec fn i32_offsets(offsets: Seq<i32>) -> Seq<int> {
    offsets.map_values(|o: i32| o as int)
}

/// Dense unions: per row a type id and an offset into the child of that
/// type; child `j` has type id `j`.
#[derive(Debug)]
pub struct DenseUnionArray {
    pub types: Vec<i8>,
    pub offsets: Vec<i32>,
    pub fields: Vec<(i8, FieldMeta, Array)>,
}

/// Strings: validity, offsets into `data`, and the UTF-8 bytes.
#[derive(Debug)]
pub struct LargeUtf8Array {
    pub validity: Option<MutableBitBuffer>,
    pub offsets: Vec<i64>,
    pub data: Vec<u8>,
}

/// Lists: validity, offsets into the element column, and that column.
#[derive(Debug)]
pub struct ListArray {
    pub validity: Option<MutableBitBuffer>,
    pub offsets: Vec<i64>,
    pub meta: FieldMeta,
    pub element: Box<Array>,
}

/// Lists of `n` elements each.
#[derive(Debug)]
pub struct FixedSizeListArray {
    pub len: usize,
    pub validity: Option<MutableBitBuffer>,
    pub n: i32,
    pub meta: FieldMeta,
    pub element: Box<Array>,
}

/// Structs: validity and one child column per member.
#[derive(Debug)]
pub struct StructArray {
    pub len: usize,
    pub validity: Option<MutableBitBuffer>,
    pub fields: Vec<(FieldMeta, Array)>,
}

/// Offsets as integers.
pub open spec fn i64_offsets(offsets: Seq<i64>) -> Seq<int> {
    offsets.map_values(|o: i64| o as int)
}

/// A column of nulls, booleans or integers.
pub open spec fn is_scalar_array(a: Array) -> bool {
    a is Null || a is Boolean || a is Int32 || a is Int64
}

/// Row `i` of a scalar column as a value: null where the validity bit is
/// clear.
pub open spec fn array_row(a: Array, i: int) -> Value {
    match a {
        Array::Boolean(validity, values) => if row_is_valid(validity, i) {
            Value::Bool(values@[i])
        } else {
            Value::Null
        },
        Array::Int32(validity, values) => if row_is_valid(validity, i) {
            Value::Int(values@[i] as i64)
        } else {
            Value::Null
        },
        Array::Int64(validity, values) => if row_is_valid(validity, i) {
            Value::Int(values@[i])
        } else {
            Value::Null
        },
        _ => Value::Null,
    }
}

/// The bytes of row `i` of a string column: absent where the row is null.
pub open spec fn array_text(a: Array, i: int) -> Option<Seq<u8>> {
    match a {
        Array::LargeUtf8(c) => if row_is_valid(c.validity, i) {
            Some(c.data@.subrange(c.offsets@[i] as int, c.offsets@[i + 1] as int))
        } else {
            None
        },
        _ => None,
    }
}

/// The field types whose columns hold scalars.
pub open spec fn is_scalar_type(dt: DataType) -> bool {
    dt is Null || dt is Boolean || dt is Int32 || dt is Int64
}

impl Array {
    /// The number of rows.
    pub open spec fn spec_len(&self) -> nat
        decreases self,
    {
        match self {
            Array::Null(n) => *n as nat,
            Array::Boolean(_, v) => v@.len(),
            Array::Int32(_, v) => v@.len(),
            Array::Int64(_, v) => v@.len(),
            Array::LargeUtf8(a) => (a.offsets@.len() - 1) as nat,
            Array::LargeList(a) => (a.offsets@.len() - 1) as nat,
            Array::FixedSizeList(a) => a.len as nat,
            Array::Struct(a) => a.len as nat,
            Array::DenseUnion(a) => a.types@.len(),
            Array::KeyValues(a) => (a.offsets@.len() - 1) as nat,
            Array::Dictionary(a) => a.indices@.len(),
            Array::FixedSizeBinary(a) => a.len as nat,
        }
    }

    /// The validity bitmap, if the column is nullable.
    pub open spec fn spec_validity(&self) -> Option<MutableBitBuffer> {
        match self {
            Array::Null(_) => None,
            Array::Boolean(v, _) => *v,
            Array::Int32(v, _) => *v,
            Array::Int64(v, _) => *v,
            Array::LargeUtf8(a) => a.validity,
            Array::LargeList(a) => a.validity,
            Array::FixedSizeList(a) => a.validity,
            Array::Struct(a) => a.validity,
            Array::DenseUnion(_) => None,
            Array::KeyValues(a) => a.validity,
            Array::Dictionary(a) => a.validity,
            Array::FixedSizeBinary(a) => a.validity,
        }
    }

    /// The Arrow layout: one validity bit per row where nullable; offsets
    /// that start at zero, never decrease and end at the child length; null
    /// list rows that are empty; `n` child values per fixed-size list row;
    /// struct children as long as the struct.
    pub open spec fn wf(&self) -> bool
        decreases self,
    {
        &&& validity_fits(self.spec_validity(), self.spec_len())
        &&& match self {
            Array::Null(_) => true,
            Array::Boolean(_, v) => v.wf(),
            Array::Int32(_, _) => true,
            Array::Int64(_, _) => true,
            Array::LargeUtf8(a) => {
                &&& offsets_monotone(i64_offsets(a.offsets@))
                &&& i64_offsets(a.offsets@).last() == a.data@.len()
            },
            Array::LargeList(a) => {
                &&& offsets_monotone(i64_offsets(a.offsets@))
                &&& i64_offsets(a.offsets@).last() == a.element.spec_len()
                &&& a.element.wf()
                &&& forall|i: int|
                    0 <= i < a.offsets@.len() - 1 && !row_is_valid(a.validity, i)
                        ==> #[trigger] a.offsets@[i + 1] == a.offsets@[i]
            },
            Array::FixedSizeList(a) => {
                &&& a.element.wf()
                &&& a.n >= 0
                &&& a.element.spec_len() == a.len * a.n
            },
            Array::Struct(a) => forall|i: int|
                0 <= i < a.fields@.len() ==> (#[trigger] a.fields@[i]).1.wf()
                    && a.fields@[i].1.spec_len() == a.len,
            Array::FixedSizeBinary(a) => a.n >= 0 && a.values@.len() == a.len * a.n,
            Array::Dictionary(a) => {
                &&& offsets_monotone(i64_offsets(a.values.offsets@))
                &&& i64_offsets(a.values.offsets@).last() == a.values.data@.len()
                &&& a.values.validity is None
                &&& forall|i: int|
                    0 <= i < a.indices@.len() ==> #[trigger] a.indices@[i] < a.values.offsets@.len()
                        - 1 || !row_is_valid(a.validity, i)
            },
            Array::KeyValues(a) => {
                &&& offsets_monotone(i32_offsets(a.offsets@))
                &&& i32_offsets(a.offsets@).last() == a.keys.spec_len()
                &&& a.values.spec_len() == a.keys.spec_len()
                &&& a.keys.wf()
                &&& a.values.wf()
                &&& a.keys.spec_validity() is None
                &&& forall|i: int|
                    0 <= i < a.offsets@.len() - 1 && !row_is_valid(a.validity, i)
                        ==> #[trigger] a.offsets@[i + 1] == a.offsets@[i]
            },
            Array::DenseUnion(a) => {
                &&& a.offsets@.len() == a.types@.len()
                &&& forall|j: int|
                    0 <= j < a.fields@.len() ==> (#[trigger] a.fields@[j]).2.wf() && a.fields@[j].0
                        == j
                &&& forall|i: int|
                    0 <= i < a.types@.len() ==> 0 <= #[trigger] a.types@[i] < a.fields@.len()
                        && 0 <= a.offsets@[i] < a.fields@[a.types@[i] as int].2.spec_len()
            },
        }
    }
}

impl ArrayBuilder {
    /// Hands the buffers over to a finished column; fails only where a
    /// fixed-size list's stride does not fit 32 bits.
    pub fn into_array(self) -> (r: Result<Array, Error>)
        requires
            self.wf(),
        ensures
            r is Ok ==> r->Ok_0.wf() && r->Ok_0.spec_len() == self.spec_len()
                && r->Ok_0.spec_validity() == self.spec_validity(),
            r is Ok <==> strides_fit(self),
            self matches ArrayBuilder::FixedSizedList(b) ==> (r is Ok ==> (r->Ok_0 matches Array::FixedSizeList(a)
                && a.n == b.n && a.len == b.len && a.validity == b.validity)),
            is_scalar(self) ==> r is Ok && is_scalar_array(r->Ok_0) && forall|i: int|
                0 <= i < self.spec_len() ==> #[trigger] array_row(r->Ok_0, i) == builder_row(self, i),
            self is LargeUtf8 ==> r is Ok && r->Ok_0 is LargeUtf8 && forall|i: int|
                0 <= i < self.spec_len() ==> #[trigger] array_text(r->Ok_0, i) == builder_text(
                    self,
                    i,
                ),
        decreases self,
    {
        match self {
            ArrayBuilder::Null(b) => Ok(Array::Null(b.len)),
            ArrayBuilder::Bool(b) => Ok(Array::Boolean(b.validity, b.values)),
            ArrayBuilder::I32(b) => Ok(Array::Int32(b.validity, b.values)),
            ArrayBuilder::I64(b) => Ok(Array::Int64(b.validity, b.values)),
            ArrayBuilder::LargeUtf8(b) => {
                assert(i64_offsets(b.offsets.offsets@) =~= b.offsets.spec_offsets());
                Ok(
                    Array::LargeUtf8(
                        LargeUtf8Array {
                            validity: b.validity,
                            offsets: b.offsets.offsets,
                            data: b.data,
                        },
                    ),
                )
            },
            ArrayBuilder::LargeList(b) => {
                let ghost offs = b.offsets.spec_offsets();
                assert(i64_offsets(b.offsets.offsets@) =~= offs);
                let element = match b.element.into_array() {
                    Ok(a) => a,
                    Err(e) => {
                        return Err(e);
                    },
                };
                let r = Array::LargeList(
                    ListArray {
                        validity: b.validity,
                        offsets: b.offsets.offsets,
                        meta: b.meta,
                        element: Box::new(element),
                    },
                );
                assert forall|i: int|
                    0 <= i < b.offsets.offsets@.len() - 1 && !row_is_valid(b.validity, i)
                        implies #[trigger] b.offsets.offsets@[i + 1] == b.offsets.offsets@[i] by {
                    assert(offs[i + 1] == offs[i]);
                }
                Ok(r)
            },
            ArrayBuilder::FixedSizedList(b) => {
                if b.n > i32::MAX as usize {
                    return Err(Error::at_path(
                        ErrorKind::OutOfRange,
                        "FixedSizeList stride does not fit 32 bits",
                        b.path.as_str(),
                    ));
                }
                let element = match b.element.into_array() {
                    Ok(a) => a,
                    Err(e) => {
                        return Err(e);
                    },
                };
                Ok(
                    Array::FixedSizeList(
                        FixedSizeListArray {
                            len: b.len,
                            validity: b.validity,
                            n: b.n as i32,
                            meta: b.meta,
                            element: Box::new(element),
                        },
                    ),
                )
            },
            ArrayBuilder::Struct(b) => {
                let ghost start = b.fields@;
                proof {
                    assert forall|j: int| 0 <= j < start.len() implies decreases_to!(self => #[trigger] start[j].1) by {
                        assert(decreases_to!(b.fields => b.fields[j]));
                    }
                }
                let mut fields = b.fields;
                let mut out: Vec<(FieldMeta, Array)> = Vec::new();
                while fields.len() > 0
                    invariant
                        out@.len() + fields@.len() == start.len(),
                        forall|j: int| 0 <= j < start.len() ==> decreases_to!(self => #[trigger] start[j].1),
                        !is_scalar(self),
                        !(self is LargeUtf8),
                        strides_fit(self) <==> forall|j: int|
                            0 <= j < start.len() ==> strides_fit(#[trigger] start[j].1),
                        forall|j: int| 0 <= j < out@.len() ==> strides_fit(#[trigger] start[j].1),
                        forall|j: int|
                            0 <= j < fields@.len() ==> #[trigger] fields@[j] == start[out@.len() + j],
                        forall|j: int|
                            0 <= j < start.len() ==> (#[trigger] start[j]).1.wf()
                                && start[j].1.spec_len() == b.len && start[j].1.spec_depth() < b.depth,
                        forall|j: int|
                            0 <= j < out@.len() ==> (#[trigger] out@[j]).1.wf()
                                && out@[j].1.spec_len() == b.len,
                    decreases fields.len(),
                {
                    let (meta, child) = fields.remove(0);
                    assert(child == start[out@.len() as int].1);
                    let arr = match child.into_array() {
                        Ok(a) => a,
                        Err(e) => {
                            return Err(e);
                        },
                    };
                    out.push((meta, arr));
                }
                Ok(Array::Struct(StructArray { len: b.len, validity: b.validity, fields: out }))
            },
            ArrayBuilder::FixedSizeBinary(b) => Ok(
                Array::FixedSizeBinary(
                    FixedSizeBinaryArray {
                        len: b.len,
                        validity: b.validity,
                        n: b.n as i32,
                        values: b.values,
                    },
                ),
            ),
            ArrayBuilder::Dictionary(b) => {
                assert(i64_offsets(b.offsets.offsets@) =~= b.offsets.spec_offsets());
                Ok(
                    Array::Dictionary(
                        DictionaryArray {
                            validity: b.validity,
                            indices: b.indices,
                            values: LargeUtf8Array {
                                validity: None,
                                offsets: b.offsets.offsets,
                                data: b.data,
                            },
                        },
                    ),
                )
            },
            ArrayBuilder::KeyValues(b) => {
                let ghost offs = b.offsets.spec_offsets();
                assert(i32_offsets(b.offsets.offsets@) =~= offs);
                let keys = match b.keys.into_array() {
                    Ok(a) => a,
                    Err(e) => {
                        return Err(e);
                    },
                };
                let values = match b.values.into_array() {
                    Ok(a) => a,
                    Err(e) => {
                        return Err(e);
                    },
                };
                assert forall|i: int|
                    0 <= i < b.offsets.offsets@.len() - 1 && !row_is_valid(b.validity, i)
                        implies #[trigger] b.offsets.offsets@[i + 1] == b.offsets.offsets@[i] by {
                    assert(offs[i + 1] == offs[i]);
                }
                Ok(
                    Array::KeyValues(
                        MapArray {
                            validity: b.validity,
                            offsets: b.offsets.offsets,
                            key_meta: b.key_meta,
                            value_meta: b.value_meta,
                            keys: Box::new(keys),
                            values: Box::new(values),
                        },
                    ),
                )
            },
            ArrayBuilder::DenseUnion(b) => {
                let ghost start = b.fields@;
                proof {
                    assert forall|j: int| 0 <= j < start.len() implies decreases_to!(self => #[trigger] start[j].1) by {
                        assert(decreases_to!(b.fields => b.fields[j]));
                    }
                }
                let mut fields = b.fields;
                let mut out: Vec<(i8, FieldMeta, Array)> = Vec::new();
                while fields.len() > 0
                    invariant
                        out@.len() + fields@.len() == start.len() <= MAX_VARIANTS,
                        forall|j: int|
                            0 <= j < fields@.len() ==> #[trigger] fields@[j] == start[out@.len() + j],
                        forall|j: int| 0 <= j < start.len() ==> (#[trigger] start[j]).1.wf(),
                        forall|j: int|
                            0 <= j < out@.len() ==> (#[trigger] out@[j]).2.wf() && out@[j].0 == j
                                && out@[j].2.spec_len() == start[j].1.spec_len(),
                        forall|j: int| 0 <= j < start.len() ==> decreases_to!(self => #[trigger] start[j].1),
                        !is_scalar(self),
                        !(self is LargeUtf8),
                        strides_fit(self) <==> forall|j: int|
                            0 <= j < start.len() ==> strides_fit(#[trigger] start[j].1),
                        forall|j: int| 0 <= j < out@.len() ==> strides_fit(#[trigger] start[j].1),
                    decreases fields.len(),
                {
                    let (meta, child) = fields.remove(0);
                    assert(child == start[out@.len() as int].1);
                    let arr = match child.into_array() {
                        Ok(a) => a,
                        Err(e) => {
                            return Err(e);
                        },
                    };
                    let id = out.len() as i8;
                    out.push((id, meta, arr));
                }
                Ok(Array::DenseUnion(DenseUnionArray { types: b.types, offsets: b.offsets, fields: out }))
            },
        }
    }
}

fn empty_validity(nullable: bool) -> (r: Option<MutableBitBuffer>)
    ensures
        validity_fits(r, 0),
        r is Some == nullable,
{
    if nullable {
        Some(MutableBitBuffer::new())
    } else {
        None
    }
}

impl FieldMeta {
    /// A copy with the same name and nullability.
    pub fn copy(&self) -> (r: FieldMeta)
        ensures
            r.name@ == self.name@,
            r.nullable == self.nullable,
    {
        FieldMeta { name: self.name.clone(), nullable: self.nullable, metadata: self.metadata.clone() }
    }

    /// The name, nullability and metadata of a schema field.
    pub fn of_field(field: &Field) -> (r: FieldMeta)
        ensures
            r.name@ == field.name@,
            r.nullable == field.nullable,
    {
        FieldMeta {
            name: field.name.clone(),
            nullable: field.nullable,
            metadata: field.metadata.clone(),
        }
    }
}

impl ArrayBuilder {
    /// Levels of nesting.
    pub fn depth(&self) -> (r: usize)
        ensures
            r == self.spec_depth(),
    {
        match self {
            ArrayBuilder::LargeList(b) => b.depth,
            ArrayBuilder::FixedSizedList(b) => b.depth,
            ArrayBuilder::Struct(b) => b.depth,
            ArrayBuilder::DenseUnion(b) => b.depth,
            ArrayBuilder::KeyValues(b) => b.depth,
            _ => 0,
        }
    }

    /// A builder of the same shape with no rows.
    pub fn empty_like(&self) -> (r: ArrayBuilder)
        requires
            self.wf(),
        ensures
            r.wf(),
            r.spec_len() == 0,
            write_keeps(*self, r),
        decreases self,
    {
        match self {
            ArrayBuilder::Null(b) => ArrayBuilder::Null(NullBuilder { path: b.path.clone(), len: 0 }),
            ArrayBuilder::Bool(b) => ArrayBuilder::Bool(
                BoolBuilder {
                    path: b.path.clone(),
                    validity: empty_validity(b.validity.is_some()),
                    values: MutableBitBuffer::new(),
                },
            ),
            ArrayBuilder::I32(b) => ArrayBuilder::I32(
                Int32Builder {
                    path: b.path.clone(),
                    validity: empty_validity(b.validity.is_some()),
                    values: Vec::new(),
                },
            ),
            ArrayBuilder::I64(b) => ArrayBuilder::I64(
                Int64Builder {
                    path: b.path.clone(),
                    validity: empty_validity(b.validity.is_some()),
                    values: Vec::new(),
                    date_strategy: b.date_strategy,
                },
            ),
            ArrayBuilder::LargeUtf8(b) => ArrayBuilder::LargeUtf8(
                LargeUtf8Builder {
                    path: b.path.clone(),
                    validity: empty_validity(b.validity.is_some()),
                    offsets: MutableOffsetBuffer::new(),
                    data: Vec::new(),
                },
            ),
            ArrayBuilder::LargeList(b) => {
                let element = b.element.empty_like();
                let offsets: MutableOffsetBuffer<i64> = MutableOffsetBuffer::new();
                assert(offsets.spec_offsets().last() == 0);
                let r = ArrayBuilder::LargeList(
                    LargeListBuilder {
                        depth: b.depth,
                        path: b.path.clone(),
                        meta: b.meta.clone(),
                        validity: empty_validity(b.validity.is_some()),
                        offsets,
                        element: Box::new(element),
                    },
                );
                assert(r.wf());
                r
            },
            ArrayBuilder::FixedSizedList(b) => {
                let element = b.element.empty_like();
                assert(0 * b.n == 0);
                let r = ArrayBuilder::FixedSizedList(
                    FixedSizeListBuilder {
                        depth: b.depth,
                        path: b.path.clone(),
                        meta: b.meta.clone(),
                        validity: empty_validity(b.validity.is_some()),
                        len: 0,
                        n: b.n,
                        current_count: 0,
                        element: Box::new(element),
                    },
                );
                assert(r.wf());
                r
            },
            ArrayBuilder::Struct(b) => {
                let mut fields: Vec<(FieldMeta, ArrayBuilder)> = Vec::new();
                let mut i: usize = 0;
                while i < b.fields.len()
                    invariant
                        i <= b.fields@.len(),
                        fields@.len() == i,
                        forall|j: int|
                            0 <= j < b.fields@.len() ==> (#[trigger] b.fields@[j]).1.wf()
                                && b.fields@[j].1.spec_depth() < b.depth,
                        forall|j: int|
                            0 <= j < i ==> (#[trigger] fields@[j]).1.wf() && fields@[j].1.spec_len()
                                == 0 && fields@[j].1.spec_depth() < b.depth,
                        decreases_to!(*self => b.fields),
                    decreases b.fields.len() - i,
                {
                    proof {
                        assert(decreases_to!(b.fields => b.fields[i as int]));
                    }
                    let child = b.fields[i].1.empty_like();
                    fields.push((b.fields[i].0.clone(), child));
                    i = i + 1;
                }
                let r = ArrayBuilder::Struct(
                    StructBuilder {
                        depth: b.depth,
                        path: b.path.clone(),
                        validity: empty_validity(b.validity.is_some()),
                        len: 0,
                        fields,
                    },
                );
                assert(r.wf());
                r
            },
            ArrayBuilder::FixedSizeBinary(b) => {
                let r = ArrayBuilder::FixedSizeBinary(
                    FixedSizeBinaryBuilder {
                        path: b.path.clone(),
                        validity: empty_validity(b.validity.is_some()),
                        n: b.n,
                        len: 0,
                        values: Vec::new(),
                    },
                );
                assert(0 * b.n == 0);
                r
            },
            ArrayBuilder::Dictionary(b) => {
                let offsets: MutableOffsetBuffer<i64> = MutableOffsetBuffer::new();
                let r = ArrayBuilder::Dictionary(
                    DictionaryBuilder {
                        path: b.path.clone(),
                        validity: empty_validity(b.validity.is_some()),
                        indices: Vec::new(),
                        values: Vec::new(),
                        offsets,
                        data: Vec::new(),
                    },
                );
                assert(r.wf());
                r
            },
            ArrayBuilder::KeyValues(b) => {
                let keys = b.keys.empty_like();
                let values = b.values.empty_like();
                let offsets: MutableOffsetBuffer<i32> = MutableOffsetBuffer::new();
                assert(offsets.spec_offsets().last() == 0);
                let r = ArrayBuilder::KeyValues(
                    MapBuilder {
                        depth: b.depth,
                        path: b.path.clone(),
                        validity: empty_validity(b.validity.is_some()),
                        offsets,
                        key_meta: b.key_meta.clone(),
                        value_meta: b.value_meta.clone(),
                        keys: Box::new(keys),
                        values: Box::new(values),
                    },
                );
                assert(r.wf());
                r
            },
            ArrayBuilder::DenseUnion(b) => {
                let mut fields: Vec<(FieldMeta, ArrayBuilder)> = Vec::new();
                let mut i: usize = 0;
                while i < b.fields.len()
                    invariant
                        i <= b.fields@.len() <= MAX_VARIANTS,
                        fields@.len() == i,
                        forall|j: int|
                            0 <= j < b.fields@.len() ==> (#[trigger] b.fields@[j]).1.wf()
                                && b.fields@[j].1.spec_depth() < b.depth,
                        forall|j: int|
                            0 <= j < i ==> (#[trigger] fields@[j]).1.wf() && fields@[j].1.spec_len()
                                == 0 && fields@[j].1.spec_depth() < b.depth,
                        decreases_to!(*self => b.fields),
                    decreases b.fields.len() - i,
                {
                    proof {
                        assert(decreases_to!(b.fields => b.fields[i as int]));
                    }
                    let child = b.fields[i].1.empty_like();
                    fields.push((b.fields[i].0.clone(), child));
                    i = i + 1;
                }
                let r = ArrayBuilder::DenseUnion(
                    DenseUnionBuilder {
                        depth: b.depth,
                        path: b.path.clone(),
                        types: Vec::new(),
                        offsets: Vec::new(),
                        fields,
                    },
                );
                assert(r.wf());
                r
            },
        }
    }

    /// Moves the rows out into the returned builder and leaves this one
    /// empty, of the same shape.
    pub fn take(&mut self) -> (r: ArrayBuilder)
        requires
            old(self).wf(),
        ensures
            r == *old(self),
            final(self).wf(),
            final(self).spec_len() == 0,
            write_keeps(*old(self), *final(self)),
    {
        let mut other = self.empty_like();
        std::mem::swap(self, &mut other);
        other
    }

    /// An empty builder for a schema field; the supported types are null,
    /// boolean, 32- and 64-bit integers, large strings, large lists,
    /// fixed-size lists and structs.
    pub fn from_field(path: &str, field: &Field) -> (r: Result<ArrayBuilder, Error>)
        ensures
            r is Ok ==> r->Ok_0.wf() && r->Ok_0.spec_len() == 0,
            r is Ok && !(field.data_type is Null) && !(field.data_type is DenseUnion) ==> (
            r->Ok_0.spec_validity() is Some <==> field.nullable),
            r is Ok && is_scalar_type(field.data_type) ==> is_scalar(r->Ok_0) && !takes_dates(
                r->Ok_0,
            ),
            r is Ok && field.data_type is LargeUtf8 ==> r->Ok_0 is LargeUtf8,
            r is Ok && field.data_type is Null ==> r->Ok_0 is Null,
            r is Ok && field.data_type is Boolean ==> r->Ok_0 is Bool,
            r is Ok && field.data_type is Int32 ==> r->Ok_0 is I32,
            r is Ok && field.data_type is Int64 ==> r->Ok_0 is I64,
            r is Ok ==> buildable(*field),
            r is Ok && r->Ok_0.spec_validity() is Some ==> field.nullable,
            forall|d: nat| #[trigger]
                nesting_within(*field, d) ==> (r is Ok ==> r->Ok_0.spec_depth() <= d) && (buildable(
                    *field,
                ) && d <= usize::MAX - 2 ==> r is Ok),
        decreases field,
    {
        let p = path.to_owned();
        match &field.data_type {
            DataType::Null => Ok(ArrayBuilder::Null(NullBuilder { path: p, len: 0 })),
            DataType::Boolean => Ok(
                ArrayBuilder::Bool(
                    BoolBuilder {
                        path: p,
                        validity: empty_validity(field.nullable),
                        values: MutableBitBuffer::new(),
                    },
                ),
            ),
            DataType::Int32 => Ok(
                ArrayBuilder::I32(
                    Int32Builder { path: p, validity: empty_validity(field.nullable), values: Vec::new() },
                ),
            ),
            DataType::Int64 => Ok(
                ArrayBuilder::I64(
                    Int64Builder {
                        path: p,
                        validity: empty_validity(field.nullable),
                        values: Vec::new(),
                        date_strategy: None,
                    },
                ),
            ),
            DataType::Date64 => {
                let date_strategy = match strategy_in(&field.metadata) {
                    Ok(None) => None,
                    Ok(Some(Strategy::NaiveStrAsDate64)) => Some(Strategy::NaiveStrAsDate64),
                    Ok(Some(Strategy::UtcStrAsDate64)) => Some(Strategy::UtcStrAsDate64),
                    Ok(Some(_)) => {
                        return Err(Error::at_path(
                            ErrorKind::Invalid,
                            "Invalid strategy for a Date64 field",
                            path,
                        ));
                    },
                    Err(e) => {
                        return Err(e);
                    },
                };
                Ok(
                    ArrayBuilder::I64(
                        Int64Builder {
                            path: p,
                            validity: empty_validity(field.nullable),
                            values: Vec::new(),
                            date_strategy,
                        },
                    ),
                )
            },
            DataType::LargeUtf8 => Ok(
                ArrayBuilder::LargeUtf8(
                    LargeUtf8Builder {
                        path: p,
                        validity: empty_validity(field.nullable),
                        offsets: MutableOffsetBuffer::new(),
                        data: Vec::new(),
                    },
                ),
            ),
            DataType::LargeList(item) => {
                let item_path = child_path(path, item.name.as_str());
                let element = match ArrayBuilder::from_field(item_path.as_str(), item) {
                    Ok(b) => b,
                    Err(e) => {
                        proof {
                            assert forall|d: nat| #[trigger]
                                nesting_within(*field, d) implies !(buildable(*field) && d
                                <= usize::MAX - 2) by {
                                if buildable(*field) && d <= usize::MAX - 2 {
                                    assert(nesting_within(**item, (d - 1) as nat));
                                    assert(buildable(**item));
                                }
                            }
                        }
                        return Err(e);
                    },
                };
                let d = element.depth();
                proof {
                    assert forall|dd: nat| #[trigger] nesting_within(*field, dd) implies d + 1 <= dd by {
                        assert(nesting_within(**item, (dd - 1) as nat));
                    }
                }
                if d == usize::MAX {
                    proof {
                        assert forall|dd: nat| #[trigger]
                            nesting_within(*field, dd) implies !(buildable(*field) && dd
                            <= usize::MAX - 2) by {
                            if buildable(*field) && dd <= usize::MAX - 2 {
                                assert(nesting_within(**item, (dd - 1) as nat));
                            }
                        }
                    }
                    return Err(Error::at_path(ErrorKind::OutOfRange, "Too deeply nested", path));
                }
                Ok(
                    ArrayBuilder::LargeList(
                        LargeListBuilder {
                            depth: d + 1,
                            path: p,
                            meta: FieldMeta::of_field(item),
                            validity: empty_validity(field.nullable),
                            offsets: MutableOffsetBuffer::new(),
                            element: Box::new(element),
                        },
                    ),
                )
            },
            DataType::FixedSizeList(item, n) => {
                if *n < 0 {
                    proof {
                        assert forall|dd: nat| #[trigger]
                            nesting_within(*field, dd) implies !(buildable(*field) && dd
                            <= usize::MAX - 2) by {
                            if buildable(*field) && dd <= usize::MAX - 2 {
                                assert(nesting_within(**item, (dd - 1) as nat));
                            }
                        }
                    }
                    return Err(Error::at_path(
                        ErrorKind::Invalid,
                        "Negative FixedSizeList stride",
                        path,
                    ));
                }
                let item_path = child_path(path, item.name.as_str());
                let element = match ArrayBuilder::from_field(item_path.as_str(), item) {
                    Ok(b) => b,
                    Err(e) => {
                        proof {
                            assert forall|dd: nat| #[trigger]
                                nesting_within(*field, dd) implies !(buildable(*field) && dd
                                <= usize::MAX - 2) by {
                                if buildable(*field) && dd <= usize::MAX - 2 {
                                    assert(nesting_within(**item, (dd - 1) as nat));
                                }
                            }
                        }
                        return Err(e);
                    },
                };
                let d = element.depth();
                proof {
                    assert forall|dd: nat| #[trigger] nesting_within(*field, dd) implies d + 1 <= dd by {
                        assert(nesting_within(**item, (dd - 1) as nat));
                    }
                }
                if d == usize::MAX {
                    proof {
                        assert forall|dd: nat| #[trigger]
                            nesting_within(*field, dd) implies !(buildable(*field) && dd
                            <= usize::MAX - 2) by {
                            if buildable(*field) && dd <= usize::MAX - 2 {
                                assert(nesting_within(**item, (dd - 1) as nat));
                            }
                        }
                    }
                    return Err(Error::at_path(ErrorKind::OutOfRange, "Too deeply nested", path));
                }
                Ok(
                    ArrayBuilder::FixedSizedList(
                        FixedSizeListBuilder::new(
                            p,
                            FieldMeta::of_field(item),
                            element,
                            *n as usize,
                            field.nullable,
                        ),
                    ),
                )
            },
            DataType::Struct(children) => {
                let mut fields: Vec<(FieldMeta, ArrayBuilder)> = Vec::new();
                let mut depth: usize = 1;
                let mut i: usize = 0;
                while i < children.len()
                    invariant
                        i <= children@.len(),
                        fields@.len() == i,
                        depth < usize::MAX,
                        1 <= depth,
                        forall|j: int|
                            0 <= j < i ==> (#[trigger] fields@[j]).1.wf() && fields@[j].1.spec_len()
                                == 0 && fields@[j].1.spec_depth() < depth,
                        decreases_to!(*field => *children),
                        field.data_type == DataType::Struct(*children),
                        forall|j: int| 0 <= j < i ==> #[trigger] buildable(children@[j]),
                        forall|dd: nat| #[trigger] nesting_within(*field, dd) ==> depth <= dd,
                    decreases children.len() - i,
                {
                    proof {
                        assert(decreases_to!(*children => children[i as int]));
                    }
                    let child_field = &children[i];
                    let cp = child_path(path, child_field.name.as_str());
                    let child = match ArrayBuilder::from_field(cp.as_str(), child_field) {
                        Ok(b) => b,
                        Err(e) => {
                            proof {
                            assert forall|dd: nat| #[trigger]
                                nesting_within(*field, dd) implies !(buildable(*field) && dd
                                <= usize::MAX - 2) by {
                                if buildable(*field) && dd <= usize::MAX - 2 {
                                    assert(field.data_type is Struct);
                                    assert(field.data_type->Struct_0 == *children);
                                    assert(children@[i as int].data_type == children@[i as int].data_type);
                                    assert(nesting_within(children@[i as int], (dd - 1) as nat));
                                    assert(buildable(children@[i as int]));
                                }
                            }
                        }
                        return Err(e);
                        },
                    };
                    let d = child.depth();
                    proof {
                        assert forall|dd: nat| #[trigger] nesting_within(*field, dd) implies d + 1 <= dd by {
                            assert(field.data_type is Struct);
                                    assert(field.data_type->Struct_0 == *children);
                                    assert(children@[i as int].data_type == children@[i as int].data_type);
                                    assert(nesting_within(children@[i as int], (dd - 1) as nat));
                                    assert(buildable(children@[i as int]));
                        }
                    }
                    if d >= usize::MAX - 1 {
                        proof {
                            assert forall|dd: nat| #[trigger]
                                nesting_within(*field, dd) implies !(buildable(*field) && dd
                                <= usize::MAX - 2) by {
                                if buildable(*field) && dd <= usize::MAX - 2 {
                                    assert(field.data_type is Struct);
                                    assert(field.data_type->Struct_0 == *children);
                                    assert(children@[i as int].data_type == children@[i as int].data_type);
                                    assert(nesting_within(children@[i as int], (dd - 1) as nat));
                                    assert(buildable(children@[i as int]));
                                }
                            }
                        }
                        return Err(Error::at_path(ErrorKind::OutOfRange, "Too deeply nested", path));
                    }
                    if d + 1 > depth {
                        depth = d + 1;
                    }
                    fields.push((FieldMeta::of_field(child_field), child));
                    i = i + 1;
                }
                proof {
                    assert(field.data_type is Struct);
                    assert(field.data_type->Struct_0 == *children);
                    assert forall|k: int| 0 <= k < children@.len() implies buildable(children@[k]) by {
                        assert(children@[k].data_type == children@[k].data_type);
                    }
                    assert(buildable(*field));
                    assert(forall|dd: nat| #[trigger] nesting_within(*field, dd) ==> depth <= dd);
                }
                Ok(
                    ArrayBuilder::Struct(
                        StructBuilder {
                            depth,
                            path: p,
                            validity: empty_validity(field.nullable),
                            len: 0,
                            fields,
                        },
                    ),
                )
            },
            DataType::FixedSizeBinary(n) => {
                if *n < 0 {
                    return Err(Error::at_path(
                        ErrorKind::Invalid,
                        "Negative FixedSizeBinary width",
                        path,
                    ));
                }
                let r = ArrayBuilder::FixedSizeBinary(
                    FixedSizeBinaryBuilder {
                        path: p,
                        validity: empty_validity(field.nullable),
                        n: *n as usize,
                        len: 0,
                        values: Vec::new(),
                    },
                );
                assert(0 * (*n as usize) == 0);
                Ok(r)
            },
            DataType::Dictionary(index_type, value_type) => {
                match (&**index_type, &**value_type) {
                    (DataType::UInt32, DataType::LargeUtf8) => {
                        let offsets: MutableOffsetBuffer<i64> = MutableOffsetBuffer::new();
                        let r = ArrayBuilder::Dictionary(
                            DictionaryBuilder {
                                path: p,
                                validity: empty_validity(field.nullable),
                                indices: Vec::new(),
                                values: Vec::new(),
                                offsets,
                                data: Vec::new(),
                            },
                        );
                        assert(r.wf());
                        Ok(r)
                    },
                    _ => Err(Error::at_path(
                        ErrorKind::Unsupported,
                        "Only dictionaries of UInt32 indices into LargeUtf8 values are built",
                        path,
                    )),
                }
            },
            DataType::Mapping(key, value) => {
                if key.nullable {
                    proof {
                        assert forall|dd: nat| #[trigger]
                            nesting_within(*field, dd) implies !(buildable(*field) && dd
                            <= usize::MAX - 2) by {
                            if buildable(*field) && dd <= usize::MAX - 2 {
                                assert(nesting_within(**key, (dd - 1) as nat));
                                assert(nesting_within(**value, (dd - 1) as nat));
                            }
                        }
                    }
                    return Err(Error::at_path(ErrorKind::Invalid, "Map keys must not be nullable", path));
                }
                let keys = match ArrayBuilder::from_field(
                    child_path(path, key.name.as_str()).as_str(),
                    key,
                ) {
                    Ok(b) => b,
                    Err(e) => {
                        proof {
                            assert forall|dd: nat| #[trigger]
                                nesting_within(*field, dd) implies !(buildable(*field) && dd
                                <= usize::MAX - 2) by {
                                if buildable(*field) && dd <= usize::MAX - 2 {
                                    assert(nesting_within(**key, (dd - 1) as nat));
                                    assert(nesting_within(**value, (dd - 1) as nat));
                                }
                            }
                        }
                        return Err(e);
                    },
                };
                if keys.is_nullable() {
                    proof {
                        assert forall|dd: nat| #[trigger]
                            nesting_within(*field, dd) implies !(buildable(*field) && dd
                            <= usize::MAX - 2) by {
                            if buildable(*field) && dd <= usize::MAX - 2 {
                                assert(nesting_within(**key, (dd - 1) as nat));
                                assert(nesting_within(**value, (dd - 1) as nat));
                            }
                        }
                    }
                    return Err(Error::at_path(ErrorKind::Invalid, "Map keys must not be nullable", path));
                }
                let values = match ArrayBuilder::from_field(
                    child_path(path, value.name.as_str()).as_str(),
                    value,
                ) {
                    Ok(b) => b,
                    Err(e) => {
                        proof {
                            assert forall|dd: nat| #[trigger]
                                nesting_within(*field, dd) implies !(buildable(*field) && dd
                                <= usize::MAX - 2) by {
                                if buildable(*field) && dd <= usize::MAX - 2 {
                                    assert(nesting_within(**key, (dd - 1) as nat));
                                    assert(nesting_within(**value, (dd - 1) as nat));
                                }
                            }
                        }
                        return Err(e);
                    },
                };
                let dk = keys.depth();
                let dv = values.depth();
                let d = if dk > dv {
                    dk
                } else {
                    dv
                };
                proof {
                    assert forall|dd: nat| #[trigger] nesting_within(*field, dd) implies d + 1 <= dd by {
                        assert(nesting_within(**key, (dd - 1) as nat));
                        assert(nesting_within(**value, (dd - 1) as nat));
                    }
                }
                if d == usize::MAX {
                    proof {
                        assert forall|dd: nat| #[trigger]
                            nesting_within(*field, dd) implies !(buildable(*field) && dd
                            <= usize::MAX - 2) by {
                            if buildable(*field) && dd <= usize::MAX - 2 {
                                assert(nesting_within(**key, (dd - 1) as nat));
                                assert(nesting_within(**value, (dd - 1) as nat));
                            }
                        }
                    }
                    return Err(Error::at_path(ErrorKind::OutOfRange, "Too deeply nested", path));
                }
                let offsets: MutableOffsetBuffer<i32> = MutableOffsetBuffer::new();
                assert(offsets.spec_offsets().last() == 0);
                Ok(
                    ArrayBuilder::KeyValues(
                        MapBuilder {
                            depth: d + 1,
                            path: p,
                            validity: empty_validity(field.nullable),
                            offsets,
                            key_meta: FieldMeta::of_field(key),
                            value_meta: FieldMeta::of_field(value),
                            keys: Box::new(keys),
                            values: Box::new(values),
                        },
                    ),
                )
            },
            DataType::DenseUnion(children) => {
                if children.len() > MAX_VARIANTS {
                    return Err(Error::at_path(
                        ErrorKind::Unsupported,
                        "Too many variants for a dense union",
                        path,
                    ));
                }
                let mut fields: Vec<(FieldMeta, ArrayBuilder)> = Vec::new();
                let mut depth: usize = 1;
                let mut i: usize = 0;
                while i < children.len()
                    invariant
                        i <= children@.len() <= MAX_VARIANTS,
                        fields@.len() == i,
                        depth < usize::MAX,
                        1 <= depth,
                        forall|j: int|
                            0 <= j < i ==> (#[trigger] fields@[j]).1.wf() && fields@[j].1.spec_len()
                                == 0 && fields@[j].1.spec_depth() < depth,
                        decreases_to!(*field => *children),
                        field.data_type == DataType::DenseUnion(*children),
                        forall|j: int|
                            0 <= j < i ==> (#[trigger] children@[j]).0 == j && buildable(children@[j].1),
                        forall|dd: nat| #[trigger] nesting_within(*field, dd) ==> depth <= dd,
                    decreases children.len() - i,
                {
                    proof {
                        assert(decreases_to!(*children => children[i as int]));
                    }
                    if children[i].0 < 0 || children[i].0 as usize != i {
                        return Err(Error::at_path(
                            ErrorKind::Unsupported,
                            "Only unions with consecutive type ids are currently supported",
                            path,
                        ));
                    }
                    let child_field = &children[i].1;
                    let cp = child_path(path, child_field.name.as_str());
                    let child = match ArrayBuilder::from_field(cp.as_str(), child_field) {
                        Ok(b) => b,
                        Err(e) => {
                            proof {
                            assert forall|dd: nat| #[trigger]
                                nesting_within(*field, dd) implies !(buildable(*field) && dd
                                <= usize::MAX - 2) by {
                                if buildable(*field) && dd <= usize::MAX - 2 {
                                    assert(field.data_type is DenseUnion);
                                    assert(field.data_type->DenseUnion_0 == *children);
                                    assert(nesting_within(children@[i as int].1, (dd - 1) as nat));
                                    assert(buildable(children@[i as int].1));
                                }
                            }
                        }
                        return Err(e);
                        },
                    };
                    let d = child.depth();
                    proof {
                        assert forall|dd: nat| #[trigger] nesting_within(*field, dd) implies d + 1 <= dd by {
                            assert(field.data_type is DenseUnion);
                                    assert(field.data_type->DenseUnion_0 == *children);
                                    assert(nesting_within(children@[i as int].1, (dd - 1) as nat));
                                    assert(buildable(children@[i as int].1));
                        }
                    }
                    if d >= usize::MAX - 1 {
                        proof {
                            assert forall|dd: nat| #[trigger]
                                nesting_within(*field, dd) implies !(buildable(*field) && dd
                                <= usize::MAX - 2) by {
                                if buildable(*field) && dd <= usize::MAX - 2 {
                                    assert(field.data_type is DenseUnion);
                                    assert(field.data_type->DenseUnion_0 == *children);
                                    assert(nesting_within(children@[i as int].1, (dd - 1) as nat));
                                    assert(buildable(children@[i as int].1));
                                }
                            }
                        }
                        return Err(Error::at_path(ErrorKind::OutOfRange, "Too deeply nested", path));
                    }
                    if d + 1 > depth {
                        depth = d + 1;
                    }
                    fields.push((FieldMeta::of_field(child_field), child));
                    i = i + 1;
                }
                proof {
                    assert(field.data_type is DenseUnion);
                    assert(field.data_type->DenseUnion_0 == *children);
                    assert(buildable(*field));
                    assert(forall|dd: nat| #[trigger] nesting_within(*field, dd) ==> depth <= dd);
                }
                Ok(
                    ArrayBuilder::DenseUnion(
                        DenseUnionBuilder {
                            depth,
                            path: p,
                            types: Vec::new(),
                            offsets: Vec::new(),
                            fields,
                        },
                    ),
                )
            },
            _ => Err(Error::at_path(
                ErrorKind::Unsupported,
                "data type is not supported by the column builders",
                path,
            )),
        }
    }
}

impl FixedSizeListBuilder {
    /// An empty list column of stride `n` over the given element column.
    pub fn new(
        path: String,
        meta: FieldMeta,
        element: ArrayBuilder,
        n: usize,
        is_nullable: bool,
    ) -> (r: FixedSizeListBuilder)
        requires
            element.spec_depth() < usize::MAX,
        ensures
            r.path == path,
            r.meta == meta,
            r.n == n,
            r.len == 0,
            r.current_count == 0,
            *r.element == element,
            r.validity is Some == is_nullable,
            element.wf() && element.spec_len() == 0 ==> ArrayBuilder::FixedSizedList(r).wf(),
            r.depth == element.spec_depth() + 1,
    {
        let depth = element.depth() + 1;
        FixedSizeListBuilder {
            depth,
            path,
            meta,
            n,
            len: 0,
            current_count: 0,
            validity: empty_validity(is_nullable),
            element: Box::new(element),
        }
    }

    /// Moves the rows out into the returned builder and leaves this one
    /// empty.
    pub fn take(&mut self) -> (r: ArrayBuilder)
        requires
            ArrayBuilder::FixedSizedList(*old(self)).wf(),
        ensures
            r == ArrayBuilder::FixedSizedList(*old(self)),
            ArrayBuilder::FixedSizedList(*final(self)).wf(),
            final(self).len == 0,
            final(self).n == old(self).n,
            final(self).path@ == old(self).path@,
            final(self).meta.name@ == old(self).meta.name@,
            final(self).meta.nullable == old(self).meta.nullable,
            final(self).validity is Some == old(self).validity is Some,
    {
        let mut whole = ArrayBuilder::FixedSizedList(
            FixedSizeListBuilder {
                depth: self.depth,
                path: self.path.clone(),
                meta: self.meta.copy(),
                n: self.n,
                len: 0,
                current_count: 0,
                validity: empty_validity(self.validity.is_some()),
                element: Box::new(self.element.empty_like()),
            },
        );
        match &mut whole {
            ArrayBuilder::FixedSizedList(b) => {
                std::mem::swap(self, b);
            },
            _ => {},
        }
        whole
    }

    /// Well-formed with a row under way, of which `current_count` elements
    /// are written.
    pub open spec fn row_wf(&self) -> bool {
        &&& self.element.wf()
        &&& self.element.spec_depth() < self.depth
        &&& self.len < MAX_ROWS
        &&& validity_fits(self.validity, self.len as nat)
        &&& self.element.spec_len() == self.len * self.n + self.current_count
    }

    /// Opens a row.
    pub fn start(&mut self)
        requires
            old(self).row_wf(),
        ensures
            final(self).current_count == 0,
            old(self).current_count == 0 ==> final(self).row_wf() && *final(self) == *old(self),
    {
        self.current_count = 0;
    }

    /// Writes the next element of the open row.
    pub fn element(&mut self, v: &Value) -> (r: Result<(), Error>)
        requires
            old(self).row_wf(),
        ensures
            r is Ok ==> final(self).row_wf() && final(self).current_count == old(self).current_count
                + 1 && final(self).len == old(self).len && final(self).n == old(self).n
                && final(self).depth == old(self).depth,
            !accepts_kind(*old(self).element, *v) ==> r is Err,
            old(self).element.spec_len() >= MAX_ROWS ==> r is Err,
            r is Ok && is_scalar(*old(self).element) && !takes_dates(*old(self).element) ==> builder_row(
                *final(self).element,
                old(self).element.spec_len() as int,
            ) == *v,
            r is Ok && *old(self).element is LargeUtf8 ==> builder_text(
                *final(self).element,
                old(self).element.spec_len() as int,
            ) == value_text(*v),
    {
        self.current_count = self.current_count + 1;
        self.element.push(v)
    }

    /// Closes the open row, which must hold exactly `n` elements.
    pub fn end(&mut self) -> (r: Result<(), Error>)
        requires
            old(self).row_wf(),
        ensures
            r is Ok <==> old(self).current_count == old(self).n,
            r is Ok ==> ArrayBuilder::FixedSizedList(*final(self)).wf() && final(self).len == old(self).len + 1,
            r is Ok ==> final(self).validity is Some == old(self).validity is Some
                && validity_bits(final(self).validity) == if old(self).validity is Some {
                validity_bits(old(self).validity).push(true)
            } else {
                validity_bits(old(self).validity)
            },
            r is Ok ==> final(self).element == old(self).element && final(self).path == old(self).path
                && final(self).meta == old(self).meta && final(self).n == old(self).n,
            r is Err ==> *final(self) == *old(self) && r->Err_0.kind == ErrorKind::Shape
                && r->Err_0.message@ == "Invalid number of elements for FixedSizedList"@,
    {
        if self.current_count != self.n {
            return Err(Error::at_path(
                ErrorKind::Shape,
                "Invalid number of elements for FixedSizedList",
                self.path.as_str(),
            ));
        }
        let _ = push_validity(&mut self.validity, true);
        assert((self.len + 1) * self.n == self.len * self.n + self.n) by (nonlinear_arith);
        self.len = self.len + 1;
        self.current_count = 0;
        Ok(())
    }

    /// Whether rows may be null.
    pub fn is_nullable(&self) -> (r: bool)
        ensures
            r == self.validity is Some,
    {
        self.validity.is_some()
    }

    /// The finished column.
    pub fn into_array(self) -> (r: Result<Array, Error>)
        requires
            ArrayBuilder::FixedSizedList(self).wf(),
        ensures
            r is Ok ==> r->Ok_0.wf() && r->Ok_0.spec_len() == self.len,
            r is Ok <==> self.n <= i32::MAX && strides_fit(*self.element),
            r is Ok ==> (r->Ok_0 matches Array::FixedSizeList(a) && a.n == self.n && a.len == self.len
                && a.validity == self.validity),
    {
        ArrayBuilder::FixedSizedList(self).into_array()
    }
}

/// Whether a record fits a scalar column: null where the column is nullable
/// (or of type null), a boolean for a boolean column, an integer in range
/// for an integer column.
pub open spec fn scalar_fits(f: Field, v: Value) -> bool {
    match v {
        Value::Null => f.nullable || f.data_type is Null,
        Value::Bool(_) => f.data_type is Boolean,
        Value::Int(x) => f.data_type is Int64 || (f.data_type is Int32 && i32::MIN <= x <= i32::MAX),
        _ => false,
    }
}

/// Writes the records into a column of the field's type, one row each.
pub fn serialize(field: &Field, records: &Vec<Value>) -> (r: Result<Array, Error>)
    ensures
        r is Ok ==> r->Ok_0.wf() && r->Ok_0.spec_len() == records@.len(),
        r is Ok && !(field.data_type is Null) && !(field.data_type is DenseUnion) ==> (
        r->Ok_0.spec_validity() is Some <==> field.nullable),
        r is Ok && is_scalar_type(field.data_type) ==> is_scalar_array(r->Ok_0) && forall|i: int|
            0 <= i < records@.len() ==> #[trigger] array_row(r->Ok_0, i) == records@[i],
        is_scalar_type(field.data_type) && records@.len() <= MAX_ROWS && (forall|i: int|
            0 <= i < records@.len() ==> scalar_fits(*field, #[trigger] records@[i])) ==> r is Ok,
        r is Ok && field.data_type is LargeUtf8 ==> r->Ok_0 is LargeUtf8 && forall|i: int|
            0 <= i < records@.len() ==> #[trigger] array_text(r->Ok_0, i) == value_text(records@[i]),
{
    proof {
        assert(is_scalar_type(field.data_type) ==> nesting_within(*field, 0) && buildable(*field));
    }
    let mut builder = match ArrayBuilder::from_field("$", field) {
        Ok(b) => b,
        Err(e) => {
            return Err(e);
        },
    };
    let ghost nullable = builder.spec_validity() is Some;
    let ghost fits = is_scalar_type(field.data_type) && records@.len() <= MAX_ROWS && (forall|i: int|
        0 <= i < records@.len() ==> scalar_fits(*field, #[trigger] records@[i]));
    let mut i: usize = 0;
    while i < records.len()
        invariant
            i <= records@.len(),
            builder.wf(),
            builder.spec_len() == i,
            (builder.spec_validity() is Some) == nullable,
            field.data_type is LargeUtf8 ==> builder is LargeUtf8 && forall|j: int|
                0 <= j < i ==> #[trigger] builder_text(builder, j) == value_text(records@[j]),
            is_scalar_type(field.data_type) ==> is_scalar(builder) && !takes_dates(builder) && forall|j: int|
                0 <= j < i ==> #[trigger] builder_row(builder, j) == records@[j],
            field.data_type is Null ==> builder is Null,
            field.data_type is Boolean ==> builder is Bool,
            field.data_type is Int32 ==> builder is I32,
            field.data_type is Int64 ==> builder is I64,
            !(field.data_type is Null) && !(field.data_type is DenseUnion) ==> (nullable <==> field.nullable),
            fits == (is_scalar_type(field.data_type) && records@.len() <= MAX_ROWS && (forall|k: int|
                0 <= k < records@.len() ==> scalar_fits(*field, #[trigger] records@[k]))),
        decreases records.len() - i,
    {
        proof {
            if fits {
                assert(scalar_fits(*field, records@[i as int]));
            }
        }
        match builder.push(&records[i]) {
            Ok(()) => {},
            Err(e) => {
                return Err(e);
            },
        }
        i = i + 1;
    }
    builder.into_array()
}

/// Relies on `std::str::from_utf8`: it succeeds on valid UTF-8, and the
/// text it returns is encoded by exactly those bytes.
#[verifier::external_body]
fn text_from_utf8(bytes: &[u8]) -> (r: Option<String>)
    ensures
        vstd::utf8::valid_utf8(bytes@) ==> r is Some,
        r matches Some(s) ==> vstd::utf8::encode_utf8(s@) == bytes@,
{
    match std::str::from_utf8(bytes) {
        Ok(s) => Some(s.to_owned()),
        Err(_) => None,
    }
}

/// Every non-null row of a string column holds valid UTF-8.
pub open spec fn text_rows_valid(a: Array) -> bool {
    forall|i: int|
        0 <= i < a.spec_len() ==> (#[trigger] array_text(a, i) matches Some(t)
            ==> vstd::utf8::valid_utf8(t))
}

/// Reads every row of a string column back as a value.
#[verifier::rlimit(60)]
fn deserialize_text(a: &LargeUtf8Array) -> (r: Result<Vec<Value>, Error>)
    requires
        Array::LargeUtf8(*a).wf(),
    ensures
        r is Ok ==> r->Ok_0@.len() == Array::LargeUtf8(*a).spec_len() && forall|i: int|
            0 <= i < r->Ok_0@.len() ==> #[trigger] value_text(r->Ok_0@[i]) == array_text(
                Array::LargeUtf8(*a),
                i,
            ),
        text_rows_valid(Array::LargeUtf8(*a)) ==> r is Ok,
        r is Err ==> r->Err_0.kind == ErrorKind::Invalid,
{
    let ghost whole = Array::LargeUtf8(*a);
    let ghost offs = i64_offsets(a.offsets@);
    let n = a.offsets.len() - 1;
    let valid = match &a.validity {
        Some(v) => Some(v.as_bool()),
        None => None,
    };
    let mut out: Vec<Value> = Vec::new();
    let mut i: usize = 0;
    while i < n
        invariant
            n == a.offsets@.len() - 1,
            n == whole.spec_len(),
            whole == Array::LargeUtf8(*a),
            whole.wf(),
            offs == i64_offsets(a.offsets@),
            i <= n,
            valid matches Some(vb) ==> a.validity matches Some(v) && vb@ == v@,
            valid is None ==> a.validity is None,
            out@.len() == i,
            forall|j: int| 0 <= j < i ==> #[trigger] value_text(out@[j]) == array_text(whole, j),
            text_rows_valid(whole) ==> forall|j: int|
                i <= j < n ==> (#[trigger] array_text(whole, j) matches Some(t)
                    ==> vstd::utf8::valid_utf8(t)),
        decreases n - i,
    {
        let is_valid = match &valid {
            Some(vb) => vb[i],
            None => true,
        };
        if is_valid {
            proof {
                assert(offsets_monotone(offs));
                assert(offs[i as int] == a.offsets@[i as int] as int);
                assert(offs[i + 1] == a.offsets@[i + 1] as int);
                assert(offs[offs.len() - 1] == a.data@.len());
                lemma_offsets_ordered(offs, i as int, i + 1);
                lemma_offsets_ordered(offs, i + 1, offs.len() - 1);
            }
            let dlen = a.data.len();
            assert(0 <= a.offsets@[i as int] <= a.offsets@[i + 1] <= dlen);
            let start = a.offsets[i] as usize;
            let end = a.offsets[i + 1] as usize;
            let data = a.data.as_slice();
            assert(data@ == a.data@);
            let bytes = vstd::slice::slice_subrange(data, start, end);
            assert(array_text(whole, i as int) == Some(bytes@));
            match text_from_utf8(bytes) {
                Some(text) => {
                    out.push(Value::Str(text));
                },
                None => {
                    return Err(Error::new(ErrorKind::Invalid, "string column holds invalid UTF-8"));
                },
            }
        } else {
            out.push(Value::Null);
        }
        i = i + 1;
    }
    Ok(out)
}

/// Reads every row of a scalar or string column back as a value; other
/// columns are not read here.
pub fn deserialize(a: &Array) -> (r: Result<Vec<Value>, Error>)
    requires
        a.wf(),
    ensures
        is_scalar_array(*a) ==> r is Ok,
        *a is LargeUtf8 && text_rows_valid(*a) ==> r is Ok,
        r is Ok ==> (is_scalar_array(*a) || *a is LargeUtf8) && r->Ok_0@.len() == a.spec_len(),
        r is Ok && is_scalar_array(*a) ==> forall|i: int|
            0 <= i < a.spec_len() ==> #[trigger] r->Ok_0@[i] == array_row(*a, i),
        r is Ok && *a is LargeUtf8 ==> forall|i: int|
            0 <= i < a.spec_len() ==> #[trigger] value_text(r->Ok_0@[i]) == array_text(*a, i),
        r is Err ==> r->Err_0.kind == ErrorKind::Unsupported || r->Err_0.kind
            == ErrorKind::Invalid,
{
    let mut out: Vec<Value> = Vec::new();
    match a {
        Array::LargeUtf8(s) => {
            return deserialize_text(s);
        },
        Array::Null(n) => {
            let mut i: usize = 0;
            while i < *n
                invariant
                    i <= *n,
                    out@.len() == i,
                    forall|j: int| 0 <= j < i ==> #[trigger] out@[j] == Value::Null,
                decreases *n - i,
            {
                out.push(Value::Null);
                i = i + 1;
            }
        },
        Array::Boolean(validity, values) => {
            let bits = values.as_bool();
            let valid = match validity {
                Some(v) => Some(v.as_bool()),
                None => None,
            };
            let mut i: usize = 0;
            while i < bits.len()
                invariant
                    i <= bits@.len(),
                    bits@ == values@,
                    *a == Array::Boolean(*validity, *values),
                    valid matches Some(vb) ==> validity matches Some(v) && vb@ == v@,
                    valid is None ==> validity is None,
                    validity matches Some(v) ==> v@.len() == values@.len(),
                    out@.len() == i,
                    forall|j: int| 0 <= j < i ==> #[trigger] out@[j] == array_row(*a, j),
                decreases bits.len() - i,
            {
                let is_valid = match &valid {
                    Some(vb) => vb[i],
                    None => true,
                };
                if is_valid {
                    out.push(Value::Bool(bits[i]));
                } else {
                    out.push(Value::Null);
                }
                i = i + 1;
            }
        },
        Array::Int32(validity, values) => {
            let valid = match validity {
                Some(v) => Some(v.as_bool()),
                None => None,
            };
            let mut i: usize = 0;
            while i < values.len()
                invariant
                    i <= values@.len(),
                    valid matches Some(vb) ==> validity matches Some(v) && vb@ == v@,
                    valid is None ==> validity is None,
                    *a == Array::Int32(*validity, *values),
                    validity matches Some(v) ==> v@.len() == values@.len(),
                    out@.len() == i,
                    forall|j: int| 0 <= j < i ==> #[trigger] out@[j] == array_row(*a, j),
                decreases values.len() - i,
            {
                let is_valid = match &valid {
                    Some(vb) => vb[i],
                    None => true,
                };
                if is_valid {
                    out.push(Value::Int(values[i] as i64));
                } else {
                    out.push(Value::Null);
                }
                i = i + 1;
            }
        },
        Array::Int64(validity, values) => {
            let valid = match validity {
                Some(v) => Some(v.as_bool()),
                None => None,
            };
            let mut i: usize = 0;
            while i < values.len()
                invariant
                    i <= values@.len(),
                    valid matches Some(vb) ==> validity matches Some(v) && vb@ == v@,
                    valid is None ==> validity is None,
                    *a == Array::Int64(*validity, *values),
                    validity matches Some(v) ==> v@.len() == values@.len(),
                    out@.len() == i,
                    forall|j: int| 0 <= j < i ==> #[trigger] out@[j] == array_row(*a, j),
                decreases values.len() - i,
            {
                let is_valid = match &valid {
                    Some(vb) => vb[i],
                    None => true,
                };
                if is_valid {
                    out.push(Value::Int(values[i]));
                } else {
                    out.push(Value::Null);
                }
                i = i + 1;
            }
        },
        _ => {
            return Err(Error::new(
                ErrorKind::Unsupported,
                "only null, boolean, integer and string columns are read back as values",
            ));
        },
    }
    Ok(out)
}

} // verus!
