use vstd::prelude::*;

use crate::error::{Error, ErrorKind};
use crate::offsets::{offsets_int, Offset};
use crate::reader::{
    bitset_is_set, check_supported_list_layout, check_union_type_ids, list_layout_supported, row_valid,
    validity_readable, ArrayBufferIterator, BitsWithOffset,
};
use crate::schema::{
    get_strategy, is_utc_date64, is_utc_timestamp, lowercase_of, metadata_lookup,
    strategy_named, FieldMeta, Strategy, TimeUnit, STRATEGY_KEY,
};
use crate::tracer::child_path;

verus! {

/// A borrowed column of fixed-width values.
#[derive(Debug)]
pub struct PrimitiveArrayView<'a, T> {
    pub values: &'a [T],
    pub validity: Option<BitsWithOffset<'a>>,
}

/// A borrowed boolean column: values and validity are both bitmaps.
#[derive(Debug)]
pub struct BooleanArrayView<'a> {
    pub len: usize,
    pub values: BitsWithOffset<'a>,
    pub validity: Option<BitsWithOffset<'a>>,
}

/// A borrowed timestamp column.
#[derive(Debug)]
pub struct TimestampArrayView<'a> {
    pub unit: TimeUnit,
    pub timezone: Option<String>,
    pub values: &'a [i64],
    pub validity: Option<BitsWithOffset<'a>>,
}

/// A borrowed string or binary column.
#[derive(Debug)]
pub struct BytesArrayView<'a, O> {
    pub offsets: &'a [O],
    pub data: &'a [u8],
    pub validity: Option<BitsWithOffset<'a>>,
}

/// A borrowed list column (also the layout of a map, whose element is the
/// struct of keys and values).
#[derive(Debug)]
pub struct ListArrayView<'a, O> {
    pub offsets: &'a [O],
    pub validity: Option<BitsWithOffset<'a>>,
    pub meta: FieldMeta,
    pub element: Box<ArrayView<'a>>,
}

/// A borrowed struct column.
#[derive(Debug)]
pub struct StructArrayView<'a> {
    pub len: usize,
    pub validity: Option<BitsWithOffset<'a>>,
    pub fields: Vec<(ArrayView<'a>, FieldMeta)>,
}

/// A borrowed dictionary column: integer indices into a string column.
#[derive(Debug)]
pub struct DictionaryArrayView<'a> {
    pub indices: Box<ArrayView<'a>>,
    pub values: Box<ArrayView<'a>>,
}

/// A borrowed dense union: per row a type id and an offset into the child
/// of that type.
#[derive(Debug)]
pub struct DenseUnionArrayView<'a> {
    pub types: &'a [i8],
    pub offsets: &'a [i32],
    pub fields: Vec<(i8, ArrayView<'a>, FieldMeta)>,
}

/// A borrowed decimal column: 128-bit values with precision and scale.
#[derive(Debug)]
pub struct DecimalArrayView<'a> {
    pub precision: u8,
    pub scale: i8,
    pub values: &'a [i128],
    pub validity: Option<BitsWithOffset<'a>>,
}

/// A borrowed time-of-day or duration column with its unit.
#[derive(Debug)]
pub struct TimeArrayView<'a, T> {
    pub unit: TimeUnit,
    pub values: &'a [T],
    pub validity: Option<BitsWithOffset<'a>>,
}

/// A borrowed column of byte strings of `n` bytes each.
#[derive(Debug)]
pub struct FixedSizeBinaryArrayView<'a> {
    pub n: i32,
    pub data: &'a [u8],
    pub validity: Option<BitsWithOffset<'a>>,
}

/// A borrowed list column whose rows all hold `n` elements.
#[derive(Debug)]
pub struct FixedSizeListArrayView<'a> {
    pub n: i32,
    pub len: usize,
    pub validity: Option<BitsWithOffset<'a>>,
    pub meta: FieldMeta,
    pub element: Box<ArrayView<'a>>,
}

/// A zero-copy view of a column whose buffers someone else owns.
#[derive(Debug)]
pub enum ArrayView<'a> {
    Null(usize),
    Boolean(BooleanArrayView<'a>),
    Int8(PrimitiveArrayView<'a, i8>),
    Int16(PrimitiveArrayView<'a, i16>),
    Int32(PrimitiveArrayView<'a, i32>),
    Int64(PrimitiveArrayView<'a, i64>),
    UInt8(PrimitiveArrayView<'a, u8>),
    UInt16(PrimitiveArrayView<'a, u16>),
    UInt32(PrimitiveArrayView<'a, u32>),
    UInt64(PrimitiveArrayView<'a, u64>),
    Date32(PrimitiveArrayView<'a, i32>),
    Date64(PrimitiveArrayView<'a, i64>),
    Timestamp(TimestampArrayView<'a>),
    Utf8(BytesArrayView<'a, i32>),
    LargeUtf8(BytesArrayView<'a, i64>),
    List(ListArrayView<'a, i32>),
    LargeList(ListArrayView<'a, i64>),
    Struct(StructArrayView<'a>),
    KeyValues(ListArrayView<'a, i32>),
    Dictionary(DictionaryArrayView<'a>),
    DenseUnion(DenseUnionArrayView<'a>),
    Decimal128(DecimalArrayView<'a>),
    Time32(TimeArrayView<'a, i32>),
    Time64(TimeArrayView<'a, i64>),
    Duration(TimeArrayView<'a, i64>),
    Binary(BytesArrayView<'a, i32>),
    LargeBinary(BytesArrayView<'a, i64>),
    FixedSizeBinary(FixedSizeBinaryArrayView<'a>),
    FixedSizeList(FixedSizeListArrayView<'a>),
}

/// The strategy that a child's metadata selects: `None` where the stored
/// name is not a strategy.
pub open spec fn meta_strategy(meta: FieldMeta) -> Option<Option<Strategy>> {
    match metadata_lookup(meta.metadata@, STRATEGY_KEY@) {
        None => Some(None),
        Some(name) => match strategy_named(name) {
            Some(s) => Some(Some(s)),
            None => None,
        },
    }
}

/// A child that can be read: its strategy parses and its view is supported.
pub open spec fn child_supported(meta: FieldMeta, v: ArrayView) -> bool
    decreases v, 1nat,
{
    &&& meta_strategy(meta) is Some
    &&& view_supported(meta_strategy(meta)->0, v)
}

pub open spec fn is_date_strategy(s: Option<Strategy>) -> bool {
    s is None || s == Some(Strategy::UtcStrAsDate64) || s == Some(Strategy::NaiveStrAsDate64)
}

pub open spec fn is_index_view(v: ArrayView) -> bool {
    v is Int8 || v is Int16 || v is Int32 || v is Int64 || v is UInt8 || v is UInt16 || v is UInt32
        || v is UInt64
}

/// The views that reading supports: dates with a date strategy,
/// timestamps in UTC or without a zone, lists and maps whose null rows are
/// empty, maps whose entries are a struct of two children, dictionaries of
/// integer indices into strings, unions with type ids `0, 1, 2, ...`, and
/// children that are supported in turn.
pub open spec fn view_supported(strategy: Option<Strategy>, v: ArrayView) -> bool
    decreases v, 0nat,
{
    match v {
        ArrayView::Date64(_) => is_date_strategy(strategy),
        ArrayView::Timestamp(t) => is_date_strategy(strategy) && (t.timezone matches Some(tz)
            ==> lowercase_of(tz@) == "utc"@),
        ArrayView::List(l) => list_layout_supported(l.validity, offsets_int(l.offsets@))
            && child_supported(l.meta, *l.element),
        ArrayView::LargeList(l) => list_layout_supported(l.validity, offsets_int(l.offsets@))
            && child_supported(l.meta, *l.element),
        ArrayView::KeyValues(l) => list_layout_supported(l.validity, offsets_int(l.offsets@))
            && (*l.element matches ArrayView::Struct(entries) && entries.fields@.len() == 2
            && child_supported(entries.fields@[0].1, entries.fields@[0].0) && child_supported(
            entries.fields@[1].1,
            entries.fields@[1].0,
        )),
        ArrayView::Struct(s) => forall|j: int|
            0 <= j < s.fields@.len() ==> child_supported(
                (#[trigger] s.fields@[j]).1,
                s.fields@[j].0,
            ),
        ArrayView::Dictionary(d) => is_index_view(*d.indices) && (*d.values is Utf8
            || *d.values is LargeUtf8),
        ArrayView::FixedSizeBinary(b) => b.n >= 0,
        ArrayView::FixedSizeList(l) => l.n >= 0 && child_supported(l.meta, *l.element),
        ArrayView::DenseUnion(u) => forall|j: int|
            0 <= j < u.fields@.len() ==> (#[trigger] u.fields@[j]).0 == j && child_supported(
                u.fields@[j].2,
                u.fields@[j].1,
            ),
        _ => true,
    }
}

/// Reads a Date64 or timestamp column; `is_utc` says whether values are
/// read as UTC or as naive local time.
#[derive(Debug)]
pub struct Date64Deserializer<'a> {
    pub path: String,
    pub values: ArrayBufferIterator<'a, i64>,
    pub unit: TimeUnit,
    pub is_utc: bool,
}

/// Reads a string column.
#[derive(Debug)]
pub struct StringDeserializer<'a, O: Offset> {
    pub path: String,
    pub view: BytesArrayView<'a, O>,
    pub next: usize,
}

/// Reads a list column through its element reader.
#[derive(Debug)]
pub struct ListDeserializer<'a, O: Offset> {
    pub path: String,
    pub element: Box<ArrayDeserializer<'a>>,
    pub offsets: &'a [O],
    pub validity: Option<BitsWithOffset<'a>>,
    pub next: usize,
}

/// Reads a struct column through one reader per member.
#[derive(Debug)]
pub struct StructDeserializer<'a> {
    pub path: String,
    pub fields: Vec<(String, ArrayDeserializer<'a>)>,
    pub validity: Option<BitsWithOffset<'a>>,
    pub len: usize,
    pub next: usize,
}

/// Reads a map column through its key and value readers.
#[derive(Debug)]
pub struct MapDeserializer<'a> {
    pub path: String,
    pub keys: Box<ArrayDeserializer<'a>>,
    pub values: Box<ArrayDeserializer<'a>>,
    pub offsets: &'a [i32],
    pub validity: Option<BitsWithOffset<'a>>,
    pub next: usize,
}

/// Reads a dictionary column: integer indices into string values.
#[derive(Debug)]
pub struct DictionaryDeserializer<'a> {
    pub path: String,
    pub indices: Box<ArrayDeserializer<'a>>,
    pub values: Box<ArrayDeserializer<'a>>,
}

/// Reads a decimal column.
#[derive(Debug)]
pub struct DecimalDeserializer<'a> {
    pub path: String,
    pub precision: u8,
    pub scale: i8,
    pub values: ArrayBufferIterator<'a, i128>,
}

/// Reads a time-of-day or duration column in its unit.
#[derive(Debug)]
pub struct TimeDeserializer<'a, T: Copy> {
    pub path: String,
    pub unit: TimeUnit,
    pub values: ArrayBufferIterator<'a, T>,
}

/// Reads a binary column.
#[derive(Debug)]
pub struct BinaryDeserializer<'a, O: Offset> {
    pub path: String,
    pub view: BytesArrayView<'a, O>,
    pub next: usize,
}

/// Reads a fixed-size binary column of `n`-byte values.
#[derive(Debug)]
pub struct FixedSizeBinaryDeserializer<'a> {
    pub path: String,
    pub n: usize,
    pub data: &'a [u8],
    pub validity: Option<BitsWithOffset<'a>>,
    pub next: usize,
}

/// Reads a fixed-size list column through its element reader.
#[derive(Debug)]
pub struct FixedSizeListDeserializer<'a> {
    pub path: String,
    pub element: Box<ArrayDeserializer<'a>>,
    pub validity: Option<BitsWithOffset<'a>>,
    pub n: usize,
    pub len: usize,
    pub next: usize,
}

/// Reads a dense union through one reader per variant.
#[derive(Debug)]
pub struct EnumDeserializer<'a> {
    pub path: String,
    pub types: &'a [i8],
    pub offsets: &'a [i32],
    pub variants: Vec<(String, ArrayDeserializer<'a>)>,
    pub next: usize,
}

/// A reader for a column of any supported type.
#[derive(Debug)]
pub enum ArrayDeserializer<'a> {
    Null(String, usize),
    Bool(String, BooleanArrayView<'a>, usize),
    I8(String, ArrayBufferIterator<'a, i8>),
    I16(String, ArrayBufferIterator<'a, i16>),
    I32(String, ArrayBufferIterator<'a, i32>),
    I64(String, ArrayBufferIterator<'a, i64>),
    U8(String, ArrayBufferIterator<'a, u8>),
    U16(String, ArrayBufferIterator<'a, u16>),
    U32(String, ArrayBufferIterator<'a, u32>),
    U64(String, ArrayBufferIterator<'a, u64>),
    Date32(String, ArrayBufferIterator<'a, i32>),
    Date64(Date64Deserializer<'a>),
    Utf8(StringDeserializer<'a, i32>),
    LargeUtf8(StringDeserializer<'a, i64>),
    List(ListDeserializer<'a, i32>),
    LargeList(ListDeserializer<'a, i64>),
    Struct(StructDeserializer<'a>),
    KeyValues(MapDeserializer<'a>),
    Dictionary(DictionaryDeserializer<'a>),
    Enum(EnumDeserializer<'a>),
    Decimal128(DecimalDeserializer<'a>),
    Time32(TimeDeserializer<'a, i32>),
    Time64(TimeDeserializer<'a, i64>),
    Duration(TimeDeserializer<'a, i64>),
    Binary(BinaryDeserializer<'a, i32>),
    LargeBinary(BinaryDeserializer<'a, i64>),
    FixedSizeBinary(FixedSizeBinaryDeserializer<'a>),
    FixedSizeList(FixedSizeListDeserializer<'a>),
}

/// An iterator over `values` and `validity`, at the first row.
pub open spec fn reads_buffer<T>(
    buffer: Seq<T>,
    validity: Option<BitsWithOffset>,
    next: usize,
    values: Seq<T>,
    view_validity: Option<BitsWithOffset>,
) -> bool {
    buffer == values && validity == view_validity && next == 0
}

/// Whether `d` reads the view `v` at `path` with the given strategy: the
/// reader of the view's type, over the view's own buffers, at the first
/// row; a Date64 reader reads as UTC unless the strategy says naive, a
/// timestamp reader keeps its unit and reads as UTC exactly when it has a
/// zone; children are read at `path.name` with their own strategies.
pub open spec fn reads(d: ArrayDeserializer, strategy: Option<Strategy>, v: ArrayView, path: Seq<char>) -> bool
    decreases v,
{
    match v {
        ArrayView::Null(n) => d matches ArrayDeserializer::Null(p, m) && p@ == path && m == n,
        ArrayView::Boolean(view) => d matches ArrayDeserializer::Bool(p, bv, c) && p@ == path && bv
            == view && c == 0,
        ArrayView::Int8(view) => d matches ArrayDeserializer::I8(p, it) && p@ == path && reads_buffer(
            it.buffer@,
            it.validity,
            it.next,
            view.values@,
            view.validity,
        ),
        ArrayView::Int16(view) => d matches ArrayDeserializer::I16(p, it) && p@ == path && reads_buffer(
            it.buffer@,
            it.validity,
            it.next,
            view.values@,
            view.validity,
        ),
        ArrayView::Int32(view) => d matches ArrayDeserializer::I32(p, it) && p@ == path && reads_buffer(
            it.buffer@,
            it.validity,
            it.next,
            view.values@,
            view.validity,
        ),
        ArrayView::Int64(view) => d matches ArrayDeserializer::I64(p, it) && p@ == path && reads_buffer(
            it.buffer@,
            it.validity,
            it.next,
            view.values@,
            view.validity,
        ),
        ArrayView::UInt8(view) => d matches ArrayDeserializer::U8(p, it) && p@ == path && reads_buffer(
            it.buffer@,
            it.validity,
            it.next,
            view.values@,
            view.validity,
        ),
        ArrayView::UInt16(view) => d matches ArrayDeserializer::U16(p, it) && p@ == path && reads_buffer(
            it.buffer@,
            it.validity,
            it.next,
            view.values@,
            view.validity,
        ),
        ArrayView::UInt32(view) => d matches ArrayDeserializer::U32(p, it) && p@ == path && reads_buffer(
            it.buffer@,
            it.validity,
            it.next,
            view.values@,
            view.validity,
        ),
        ArrayView::UInt64(view) => d matches ArrayDeserializer::U64(p, it) && p@ == path && reads_buffer(
            it.buffer@,
            it.validity,
            it.next,
            view.values@,
            view.validity,
        ),
        ArrayView::Date32(view) => d matches ArrayDeserializer::Date32(p, it) && p@ == path && reads_buffer(
            it.buffer@,
            it.validity,
            it.next,
            view.values@,
            view.validity,
        ),
        ArrayView::Date64(view) => d matches ArrayDeserializer::Date64(x) && x.path@ == path
            && reads_buffer(x.values.buffer@, x.values.validity, x.values.next, view.values@, view.validity)
            && x.unit == TimeUnit::Millisecond && x.is_utc == (strategy != Some(Strategy::NaiveStrAsDate64)),
        ArrayView::Timestamp(view) => d matches ArrayDeserializer::Date64(x) && x.path@ == path
            && reads_buffer(x.values.buffer@, x.values.validity, x.values.next, view.values@, view.validity)
            && x.unit == view.unit && x.is_utc == view.timezone is Some,
        ArrayView::Utf8(view) => d matches ArrayDeserializer::Utf8(x) && x.path@ == path && x.view
            == view && x.next == 0,
        ArrayView::LargeUtf8(view) => d matches ArrayDeserializer::LargeUtf8(x) && x.path@ == path
            && x.view == view && x.next == 0,
        ArrayView::List(view) => d matches ArrayDeserializer::List(x) && x.path@ == path && x.offsets
            == view.offsets && x.validity == view.validity && x.next == 0 && reads(
            *x.element,
            meta_strategy(view.meta)->0,
            *view.element,
            path + "."@ + view.meta.name@,
        ),
        ArrayView::LargeList(view) => d matches ArrayDeserializer::LargeList(x) && x.path@ == path
            && x.offsets == view.offsets && x.validity == view.validity && x.next == 0 && reads(
            *x.element,
            meta_strategy(view.meta)->0,
            *view.element,
            path + "."@ + view.meta.name@,
        ),
        ArrayView::Struct(view) => d matches ArrayDeserializer::Struct(x) && x.path@ == path
            && x.validity == view.validity && x.len == view.len && x.next == 0 && x.fields@.len()
            == view.fields@.len() && forall|i: int|
            0 <= i < view.fields@.len() ==> (#[trigger] x.fields@[i]).0@ == view.fields@[i].1.name@
                && reads(
                x.fields@[i].1,
                meta_strategy(view.fields@[i].1)->0,
                view.fields@[i].0,
                path + "."@ + view.fields@[i].1.name@,
            ),
        ArrayView::KeyValues(view) => d matches ArrayDeserializer::KeyValues(x) && x.path@ == path
            && x.offsets == view.offsets && x.validity == view.validity && x.next == 0 && (
            *view.element matches ArrayView::Struct(e) && e.fields@.len() == 2 && reads(
                *x.keys,
                meta_strategy(e.fields@[0].1)->0,
                e.fields@[0].0,
                path + "."@ + e.fields@[0].1.name@,
            ) && reads(
                *x.values,
                meta_strategy(e.fields@[1].1)->0,
                e.fields@[1].0,
                path + "."@ + e.fields@[1].1.name@,
            )),
        ArrayView::Dictionary(view) => d matches ArrayDeserializer::Dictionary(x) && x.path@ == path
            && reads(*x.indices, None, *view.indices, path) && reads(*x.values, None, *view.values, path),
        ArrayView::Decimal128(view) => d matches ArrayDeserializer::Decimal128(x) && x.path@ == path
            && x.precision == view.precision && x.scale == view.scale && reads_buffer(
            x.values.buffer@,
            x.values.validity,
            x.values.next,
            view.values@,
            view.validity,
        ),
        ArrayView::Time32(view) => d matches ArrayDeserializer::Time32(x) && x.path@ == path && x.unit
            == view.unit && reads_buffer(
            x.values.buffer@,
            x.values.validity,
            x.values.next,
            view.values@,
            view.validity,
        ),
        ArrayView::Time64(view) => d matches ArrayDeserializer::Time64(x) && x.path@ == path && x.unit
            == view.unit && reads_buffer(
            x.values.buffer@,
            x.values.validity,
            x.values.next,
            view.values@,
            view.validity,
        ),
        ArrayView::Duration(view) => d matches ArrayDeserializer::Duration(x) && x.path@ == path
            && x.unit == view.unit && reads_buffer(
            x.values.buffer@,
            x.values.validity,
            x.values.next,
            view.values@,
            view.validity,
        ),
        ArrayView::Binary(view) => d matches ArrayDeserializer::Binary(x) && x.path@ == path && x.view
            == view && x.next == 0,
        ArrayView::LargeBinary(view) => d matches ArrayDeserializer::LargeBinary(x) && x.path@ == path
            && x.view == view && x.next == 0,
        ArrayView::FixedSizeBinary(view) => d matches ArrayDeserializer::FixedSizeBinary(x) && x.path@
            == path && x.n == view.n && x.data@ == view.data@ && x.validity == view.validity && x.next
            == 0,
        ArrayView::FixedSizeList(view) => d matches ArrayDeserializer::FixedSizeList(x) && x.path@
            == path && x.n == view.n && x.len == view.len && x.validity == view.validity && x.next == 0
            && reads(
            *x.element,
            meta_strategy(view.meta)->0,
            *view.element,
            path + "."@ + view.meta.name@,
        ),
        ArrayView::DenseUnion(view) => d matches ArrayDeserializer::Enum(x) && x.path@ == path
            && x.types == view.types && x.offsets == view.offsets && x.next == 0 && x.variants@.len()
            == view.fields@.len() && forall|i: int|
            0 <= i < view.fields@.len() ==> (#[trigger] x.variants@[i]).0@ == view.fields@[i].2.name@
                && reads(
                x.variants@[i].1,
                meta_strategy(view.fields@[i].2)->0,
                view.fields@[i].1,
                path + "."@ + view.fields@[i].2.name@,
            ),
    }
}

/// The strategy behind an optional reference.
pub open spec fn strategy_of(s: Option<&Strategy>) -> Option<Strategy> {
    match s {
        Some(x) => Some(*x),
        None => None,
    }
}

fn meta_strategy_of(meta: &FieldMeta) -> (r: Result<Option<Strategy>, Error>)
    ensures
        r is Ok <==> meta_strategy(*meta) is Some,
        r is Ok ==> r->Ok_0 == meta_strategy(*meta)->0,
{
    get_strategy(meta)
}

impl<'a> ArrayDeserializer<'a> {
    /// A reader for `array` at `path`, read with the given strategy; fails
    /// where the view is not supported, and says why.
    #[verifier::rlimit(100)]
    #[verifier::spinoff_prover]
    pub fn new(path: String, strategy: Option<&Strategy>, array: ArrayView<'a>) -> (r: Result<
        ArrayDeserializer<'a>,
        Error,
    >)
        ensures
            r is Ok <==> view_supported(strategy_of(strategy), array),
            r is Ok ==> reads(r->Ok_0, strategy_of(strategy), array, path@),
            array matches ArrayView::DenseUnion(u) && (exists|j: int|
                0 <= j < u.fields@.len() && (#[trigger] u.fields@[j]).0 != j) ==> r is Err
                && r->Err_0.message@ == "Only unions with consecutive type ids are currently supported"@,
            array is Timestamp && !is_date_strategy(strategy_of(strategy)) ==> r is Err
                && r->Err_0.message@ == "Invalid strategy: it is not supported for timestamp field"@,
            array matches ArrayView::Dictionary(d) && !(is_index_view(*d.indices) && (*d.values is Utf8
                || *d.values is LargeUtf8)) ==> r is Err && r->Err_0.message@
                == "Unsupported dictionary array type"@,
            array matches ArrayView::KeyValues(l) && list_layout_supported(
                l.validity,
                offsets_int(l.offsets@),
            ) && !(*l.element matches ArrayView::Struct(e) && e.fields@.len() == 2) ==> r is Err
                && r->Err_0.message@ == "Invalid entries field in map array"@,
        decreases array,
    {
        match array {
            ArrayView::Null(n) => Ok(ArrayDeserializer::Null(path, n)),
            ArrayView::Boolean(view) => Ok(ArrayDeserializer::Bool(path, view, 0)),
            ArrayView::Int8(view) => Ok(
                ArrayDeserializer::I8(path, ArrayBufferIterator::new(view.values, view.validity)),
            ),
            ArrayView::Int16(view) => Ok(
                ArrayDeserializer::I16(path, ArrayBufferIterator::new(view.values, view.validity)),
            ),
            ArrayView::Int32(view) => Ok(
                ArrayDeserializer::I32(path, ArrayBufferIterator::new(view.values, view.validity)),
            ),
            ArrayView::Int64(view) => Ok(
                ArrayDeserializer::I64(path, ArrayBufferIterator::new(view.values, view.validity)),
            ),
            ArrayView::UInt8(view) => Ok(
                ArrayDeserializer::U8(path, ArrayBufferIterator::new(view.values, view.validity)),
            ),
            ArrayView::UInt16(view) => Ok(
                ArrayDeserializer::U16(path, ArrayBufferIterator::new(view.values, view.validity)),
            ),
            ArrayView::UInt32(view) => Ok(
                ArrayDeserializer::U32(path, ArrayBufferIterator::new(view.values, view.validity)),
            ),
            ArrayView::UInt64(view) => Ok(
                ArrayDeserializer::U64(path, ArrayBufferIterator::new(view.values, view.validity)),
            ),
            ArrayView::Date32(view) => Ok(
                ArrayDeserializer::Date32(path, ArrayBufferIterator::new(view.values, view.validity)),
            ),
            ArrayView::Date64(view) => {
                let is_utc = match is_utc_date64(strategy) {
                    Ok(b) => b,
                    Err(e) => {
                        return Err(e);
                    },
                };
                Ok(
                    ArrayDeserializer::Date64(
                        Date64Deserializer {
                            path,
                            values: ArrayBufferIterator::new(view.values, view.validity),
                            unit: TimeUnit::Millisecond,
                            is_utc,
                        },
                    ),
                )
            },
            ArrayView::Timestamp(view) => {
                match strategy {
                    Some(Strategy::NaiveStrAsDate64) | Some(Strategy::UtcStrAsDate64) | None => {},
                    Some(_) => {
                        return Err(Error::at_path(
                            ErrorKind::Invalid,
                            "Invalid strategy: it is not supported for timestamp field",
                            path.as_str(),
                        ));
                    },
                }
                let tz = match &view.timezone {
                    Some(t) => Some(t.as_str()),
                    None => None,
                };
                let is_utc = match is_utc_timestamp(tz) {
                    Ok(b) => b,
                    Err(e) => {
                        return Err(e);
                    },
                };
                Ok(
                    ArrayDeserializer::Date64(
                        Date64Deserializer {
                            path,
                            values: ArrayBufferIterator::new(view.values, view.validity),
                            unit: view.unit,
                            is_utc,
                        },
                    ),
                )
            },
            ArrayView::Utf8(view) => Ok(
                ArrayDeserializer::Utf8(StringDeserializer { path, view, next: 0 }),
            ),
            ArrayView::LargeUtf8(view) => Ok(
                ArrayDeserializer::LargeUtf8(StringDeserializer { path, view, next: 0 }),
            ),
            ArrayView::List(view) => {
                match check_supported_list_layout(view.validity, view.offsets) {
                    Ok(()) => {},
                    Err(e) => {
                        return Err(e);
                    },
                }
                let s = match meta_strategy_of(&view.meta) {
                    Ok(s) => s,
                    Err(e) => {
                        return Err(e);
                    },
                };
                let child_path = child_path(path.as_str(), view.meta.name.as_str());
                let element = match ArrayDeserializer::new(child_path, s.as_ref(), *view.element) {
                    Ok(d) => d,
                    Err(e) => {
                        return Err(e);
                    },
                };
                Ok(
                    ArrayDeserializer::List(
                        ListDeserializer {
                            path,
                            element: Box::new(element),
                            offsets: view.offsets,
                            validity: view.validity,
                            next: 0,
                        },
                    ),
                )
            },
            ArrayView::LargeList(view) => {
                match check_supported_list_layout(view.validity, view.offsets) {
                    Ok(()) => {},
                    Err(e) => {
                        return Err(e);
                    },
                }
                let s = match meta_strategy_of(&view.meta) {
                    Ok(s) => s,
                    Err(e) => {
                        return Err(e);
                    },
                };
                let child_path = child_path(path.as_str(), view.meta.name.as_str());
                let element = match ArrayDeserializer::new(child_path, s.as_ref(), *view.element) {
                    Ok(d) => d,
                    Err(e) => {
                        return Err(e);
                    },
                };
                Ok(
                    ArrayDeserializer::LargeList(
                        ListDeserializer {
                            path,
                            element: Box::new(element),
                            offsets: view.offsets,
                            validity: view.validity,
                            next: 0,
                        },
                    ),
                )
            },
            ArrayView::Struct(view) => {
                let ghost start = view.fields@;
                proof {
                    assert forall|j: int| 0 <= j < start.len() implies decreases_to!(array => #[trigger] start[j].0) by {
                        assert(decreases_to!(view.fields => view.fields[j]));
                    }
                }
                let validity = view.validity;
                let len = view.len;
                let mut fields = view.fields;
                let mut out: Vec<(String, ArrayDeserializer<'a>)> = Vec::new();
                while fields.len() > 0
                    invariant
                        out@.len() + fields@.len() == start.len(),
                        forall|j: int|
                            0 <= j < fields@.len() ==> #[trigger] fields@[j] == start[out@.len() + j],
                        forall|j: int|
                            0 <= j < out@.len() ==> child_supported((#[trigger] start[j]).1, start[j].0),
                        forall|j: int|
                            0 <= j < out@.len() ==> (#[trigger] out@[j]).0@ == start[j].1.name@ && reads(
                                out@[j].1,
                                meta_strategy(start[j].1)->0,
                                start[j].0,
                                path@ + "."@ + start[j].1.name@,
                            ),
                        forall|j: int| 0 <= j < start.len() ==> decreases_to!(array => #[trigger] start[j].0),
                        array matches ArrayView::Struct(sv) && sv.fields@ == start,
                    decreases fields.len(),
                {
                    let ghost k = out@.len() as int;
                    let (child, meta) = fields.remove(0);
                    assert((child, meta) == start[k]);
                    let st = match meta_strategy_of(&meta) {
                        Ok(st) => st,
                        Err(e) => {
                            return Err(e);
                        },
                    };
                    let cp = child_path(path.as_str(), meta.name.as_str());
                    let d = match ArrayDeserializer::new(cp, st.as_ref(), child) {
                        Ok(d) => d,
                        Err(e) => {
                            return Err(e);
                        },
                    };
                    out.push((meta.name, d));
                }
                Ok(
                    ArrayDeserializer::Struct(
                        StructDeserializer { path, fields: out, validity, len, next: 0 },
                    ),
                )
            },
            ArrayView::DenseUnion(view) => {
                let ghost start = view.fields@;
                proof {
                    assert forall|j: int| 0 <= j < start.len() implies decreases_to!(array => #[trigger] start[j].1) by {
                        assert(decreases_to!(view.fields => view.fields[j]));
                    }
                }
                let mut ids: Vec<i8> = Vec::new();
                let mut q: usize = 0;
                while q < view.fields.len()
                    invariant
                        q <= view.fields@.len(),
                        ids@.len() == q,
                        forall|j: int| 0 <= j < q ==> #[trigger] ids@[j] == view.fields@[j].0,
                    decreases view.fields.len() - q,
                {
                    ids.push(view.fields[q].0);
                    q = q + 1;
                }
                let ids_s = ids.as_slice();
                assert(ids_s@ == ids@);
                match check_union_type_ids(ids_s) {
                    Ok(()) => {},
                    Err(e) => {
                        proof {
                            let j = choose|j: int| 0 <= j < ids_s@.len() && ids_s@[j] != j;
                            assert(ids@[j] == view.fields@[j].0);
                            assert(start[j].0 != j);
                        }
                        return Err(e);
                    },
                }
                assert forall|j: int| 0 <= j < start.len() implies #[trigger] start[j].0 == j by {
                    assert(ids@[j] == view.fields@[j].0);
                    assert(ids_s@[j] == j);
                }
                let types = view.types;
                let offsets = view.offsets;
                let mut fields = view.fields;
                let mut out: Vec<(String, ArrayDeserializer<'a>)> = Vec::new();
                while fields.len() > 0
                    invariant
                        out@.len() + fields@.len() == start.len(),
                        forall|j: int|
                            0 <= j < fields@.len() ==> #[trigger] fields@[j] == start[out@.len() + j],
                        forall|j: int|
                            0 <= j < out@.len() ==> (#[trigger] start[j]).0 == j && child_supported(
                                start[j].2,
                                start[j].1,
                            ),
                        forall|j: int|
                            0 <= j < out@.len() ==> (#[trigger] out@[j]).0@ == start[j].2.name@ && reads(
                                out@[j].1,
                                meta_strategy(start[j].2)->0,
                                start[j].1,
                                path@ + "."@ + start[j].2.name@,
                            ),
                        forall|j: int| 0 <= j < start.len() ==> decreases_to!(array => #[trigger] start[j].1),
                        array matches ArrayView::DenseUnion(uv) && uv.fields@ == start,
                        forall|j: int| 0 <= j < start.len() ==> #[trigger] start[j].0 == j,
                    decreases fields.len(),
                {
                    let ghost k = out@.len() as int;
                    let idx = out.len();
                    let (type_id, child, meta) = fields.remove(0);
                    assert((type_id, child, meta) == start[k]);
                    let st = match meta_strategy_of(&meta) {
                        Ok(st) => st,
                        Err(e) => {
                            return Err(e);
                        },
                    };
                    let cp = child_path(path.as_str(), meta.name.as_str());
                    let d = match ArrayDeserializer::new(cp, st.as_ref(), child) {
                        Ok(d) => d,
                        Err(e) => {
                            return Err(e);
                        },
                    };
                    out.push((meta.name, d));
                }
                Ok(
                    ArrayDeserializer::Enum(
                        EnumDeserializer { path, types, offsets, variants: out, next: 0 },
                    ),
                )
            },
            ArrayView::KeyValues(view) => {
                match check_supported_list_layout(view.validity, view.offsets) {
                    Ok(()) => {},
                    Err(e) => {
                        return Err(e);
                    },
                }
                let offsets = view.offsets;
                let validity = view.validity;
                let entries = match *view.element {
                    ArrayView::Struct(entries) => entries,
                    _ => {
                        return Err(Error::at_path(
                            ErrorKind::Invalid,
                            "Invalid entries field in map array",
                            path.as_str(),
                        ));
                    },
                };
                if entries.fields.len() != 2 {
                    return Err(Error::at_path(
                        ErrorKind::Invalid,
                        "Invalid entries field in map array",
                        path.as_str(),
                    ));
                }
                let ghost start = entries.fields@;
                proof {
                    assert(decreases_to!(entries.fields => entries.fields[0]));
                    assert(decreases_to!(entries.fields => entries.fields[1]));
                    assert(decreases_to!(array => start[0].0));
                    assert(decreases_to!(array => start[1].0));
                }
                let mut fs = entries.fields;
                let (values_view, values_meta) = fs.remove(1);
                let (keys_view, keys_meta) = fs.remove(0);
                let key_strategy = match meta_strategy_of(&keys_meta) {
                    Ok(st) => st,
                    Err(e) => {
                        return Err(e);
                    },
                };
                let keys = match ArrayDeserializer::new(
                    child_path(path.as_str(), keys_meta.name.as_str()),
                    key_strategy.as_ref(),
                    keys_view,
                ) {
                    Ok(d) => d,
                    Err(e) => {
                        return Err(e);
                    },
                };
                let value_strategy = match meta_strategy_of(&values_meta) {
                    Ok(st) => st,
                    Err(e) => {
                        return Err(e);
                    },
                };
                let values = match ArrayDeserializer::new(
                    child_path(path.as_str(), values_meta.name.as_str()),
                    value_strategy.as_ref(),
                    values_view,
                ) {
                    Ok(d) => d,
                    Err(e) => {
                        return Err(e);
                    },
                };
                Ok(
                    ArrayDeserializer::KeyValues(
                        MapDeserializer {
                            path,
                            keys: Box::new(keys),
                            values: Box::new(values),
                            offsets,
                            validity,
                            next: 0,
                        },
                    ),
                )
            },
            ArrayView::Decimal128(view) => Ok(
                ArrayDeserializer::Decimal128(
                    DecimalDeserializer {
                        path,
                        precision: view.precision,
                        scale: view.scale,
                        values: ArrayBufferIterator::new(view.values, view.validity),
                    },
                ),
            ),
            ArrayView::Time32(view) => Ok(
                ArrayDeserializer::Time32(
                    TimeDeserializer {
                        path,
                        unit: view.unit,
                        values: ArrayBufferIterator::new(view.values, view.validity),
                    },
                ),
            ),
            ArrayView::Time64(view) => Ok(
                ArrayDeserializer::Time64(
                    TimeDeserializer {
                        path,
                        unit: view.unit,
                        values: ArrayBufferIterator::new(view.values, view.validity),
                    },
                ),
            ),
            ArrayView::Duration(view) => Ok(
                ArrayDeserializer::Duration(
                    TimeDeserializer {
                        path,
                        unit: view.unit,
                        values: ArrayBufferIterator::new(view.values, view.validity),
                    },
                ),
            ),
            ArrayView::Binary(view) => Ok(
                ArrayDeserializer::Binary(BinaryDeserializer { path, view, next: 0 }),
            ),
            ArrayView::LargeBinary(view) => Ok(
                ArrayDeserializer::LargeBinary(BinaryDeserializer { path, view, next: 0 }),
            ),
            ArrayView::FixedSizeBinary(view) => {
                if view.n < 0 {
                    return Err(Error::at_path(
                        ErrorKind::Invalid,
                        "Negative FixedSizeBinary width",
                        path.as_str(),
                    ));
                }
                Ok(
                    ArrayDeserializer::FixedSizeBinary(
                        FixedSizeBinaryDeserializer {
                            path,
                            n: view.n as usize,
                            data: view.data,
                            validity: view.validity,
                            next: 0,
                        },
                    ),
                )
            },
            ArrayView::FixedSizeList(view) => {
                if view.n < 0 {
                    return Err(Error::at_path(
                        ErrorKind::Invalid,
                        "Negative FixedSizeList stride",
                        path.as_str(),
                    ));
                }
                let s = match meta_strategy_of(&view.meta) {
                    Ok(s) => s,
                    Err(e) => {
                        return Err(e);
                    },
                };
                let child_path = child_path(path.as_str(), view.meta.name.as_str());
                let element = match ArrayDeserializer::new(child_path, s.as_ref(), *view.element) {
                    Ok(d) => d,
                    Err(e) => {
                        return Err(e);
                    },
                };
                Ok(
                    ArrayDeserializer::FixedSizeList(
                        FixedSizeListDeserializer {
                            path,
                            element: Box::new(element),
                            validity: view.validity,
                            n: view.n as usize,
                            len: view.len,
                            next: 0,
                        },
                    ),
                )
            },
            ArrayView::Dictionary(view) => {
                let index_ok = match &*view.indices {
                    ArrayView::Int8(_) | ArrayView::Int16(_) | ArrayView::Int32(_)
                    | ArrayView::Int64(_) | ArrayView::UInt8(_) | ArrayView::UInt16(_)
                    | ArrayView::UInt32(_) | ArrayView::UInt64(_) => true,
                    _ => false,
                };
                let values_ok = match &*view.values {
                    ArrayView::Utf8(_) | ArrayView::LargeUtf8(_) => true,
                    _ => false,
                };
                if !index_ok || !values_ok {
                    return Err(Error::at_path(
                        ErrorKind::Unsupported,
                        "Unsupported dictionary array type",
                        path.as_str(),
                    ));
                }
                let indices = match ArrayDeserializer::new(path.clone(), None, *view.indices) {
                    Ok(d) => d,
                    Err(e) => {
                        return Err(e);
                    },
                };
                let values = match ArrayDeserializer::new(path.clone(), None, *view.values) {
                    Ok(d) => d,
                    Err(e) => {
                        return Err(e);
                    },
                };
                Ok(
                    ArrayDeserializer::Dictionary(
                        DictionaryDeserializer {
                            path,
                            indices: Box::new(indices),
                            values: Box::new(values),
                        },
                    ),
                )
            },
        }
    }
}

impl<'a, O: Offset> ListDeserializer<'a, O> {
    /// Steps to the next row: `None` for a null row, otherwise the range of
    /// element rows it spans. Fails past the last row.
    pub fn next_range(&mut self) -> (r: Result<Option<(usize, usize)>, Error>)
        ensures
            final(self).offsets == old(self).offsets,
            final(self).validity == old(self).validity,
            old(self).next + 1 >= old(self).offsets@.len() ==> r is Err && r->Err_0.kind
                == ErrorKind::Exhausted,
            r is Ok ==> final(self).next == old(self).next + 1,
            r is Ok <==> old(self).next + 1 < old(self).offsets@.len() && validity_readable(
                old(self).validity,
                old(self).next as int,
            ) && (row_valid(old(self).validity, old(self).next as int) ==> 0 <= old(self).offsets@[old(self).next as int].as_int() <= usize::MAX && 0 <= old(self).offsets@[old(self).next + 1].as_int() <= usize::MAX),
            r matches Ok(None) ==> !row_valid(old(self).validity, old(self).next as int),
            r matches Ok(Some(range)) ==> row_valid(old(self).validity, old(self).next as int)
                && range.0 == old(self).offsets@[old(self).next as int].as_int() && range.1 == old(self).offsets@[old(self).next + 1].as_int(),
    {
        if self.offsets.len() == 0 || self.next >= self.offsets.len() - 1 {
            return Err(Error::at_path(
                ErrorKind::Exhausted,
                "Exhausted deserializer",
                self.path.as_str(),
            ));
        }
        let i = self.next;
        let valid = match &self.validity {
            Some(bits) => match bitset_is_set(bits, i) {
                Ok(b) => b,
                Err(e) => {
                    return Err(e);
                },
            },
            None => true,
        };
        if !valid {
            self.next = i + 1;
            return Ok(None);
        }
        let start = match self.offsets[i].try_into_usize() {
            Ok(v) => v,
            Err(e) => {
                return Err(e);
            },
        };
        let end = match self.offsets[i + 1].try_into_usize() {
            Ok(v) => v,
            Err(e) => {
                return Err(e);
            },
        };
        self.next = i + 1;
        Ok(Some((start, end)))
    }
}

impl<'a> StructDeserializer<'a> {
    /// Steps to the next row: whether it holds a struct (its members are
    /// read at the same row of each child) or is null. Fails past the last
    /// row.
    pub fn next_row(&mut self) -> (r: Result<bool, Error>)
        ensures
            final(self).len == old(self).len,
            final(self).validity == old(self).validity,
            old(self).next >= old(self).len ==> r is Err && r->Err_0.kind == ErrorKind::Exhausted,
            r is Ok <==> old(self).next < old(self).len && validity_readable(
                old(self).validity,
                old(self).next as int,
            ),
            r is Ok ==> final(self).next == old(self).next + 1 && old(self).next < old(self).len,
            r is Ok ==> r->Ok_0 == row_valid(old(self).validity, old(self).next as int),
    {
        if self.next >= self.len {
            return Err(Error::at_path(
                ErrorKind::Exhausted,
                "Exhausted deserializer",
                self.path.as_str(),
            ));
        }
        let i = self.next;
        let valid = match &self.validity {
            Some(bits) => match bitset_is_set(bits, i) {
                Ok(b) => b,
                Err(e) => {
                    return Err(e);
                },
            },
            None => true,
        };
        self.next = i + 1;
        Ok(valid)
    }
}

impl<'a> EnumDeserializer<'a> {
    /// Steps to the next row: the variant it holds and the row inside that
    /// variant's child. Fails past the last row or on a type id that names
    /// no variant.
    pub fn next_variant(&mut self) -> (r: Result<(usize, usize), Error>)
        ensures
            final(self).types == old(self).types,
            final(self).offsets == old(self).offsets,
            final(self).variants@.len() == old(self).variants@.len(),
            r is Ok <==> old(self).next < old(self).types@.len() && old(self).next < old(self).offsets@.len() && 0 <= old(self).types@[old(self).next as int] < old(self).variants@.len() && 0 <= old(self).offsets@[old(self).next as int],
            r is Ok ==> r->Ok_0.0 == old(self).types@[old(self).next as int] && r->Ok_0.1 == old(self).offsets@[old(self).next as int] && final(self).next == old(self).next + 1,
    {
        let i = self.next;
        if i >= self.types.len() || i >= self.offsets.len() {
            return Err(Error::at_path(
                ErrorKind::Exhausted,
                "Exhausted deserializer",
                self.path.as_str(),
            ));
        }
        let t = self.types[i];
        let o = self.offsets[i];
        if t < 0 || t as usize >= self.variants.len() || o < 0 {
            return Err(Error::at_path(
                ErrorKind::Invalid,
                "Invalid type id or offset in dense union",
                self.path.as_str(),
            ));
        }
        self.next = i + 1;
        Ok((t as usize, o as usize))
    }
}

} // verus!
