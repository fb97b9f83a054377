use vstd::prelude::*;

use crate::error::{Error, ErrorKind};

verus! {

/// The resolution of a time value.
#[derive(Debug, Clone, Copy, PartialEq, Eq, Structural)]
pub enum TimeUnit {
    Second,
    Millisecond,
    Microsecond,
    Nanosecond,
}

/// An Arrow data type, possibly nested.
#[derive(Debug, PartialEq, Eq)]
pub enum DataType {
    Null,
    Boolean,
    Int8,
    Int16,
    Int32,
    Int64,
    UInt8,
    UInt16,
    UInt32,
    UInt64,
    Float16,
    Float32,
    Float64,
    /// Precision and scale.
    Decimal128(u8, i8),
    Utf8,
    LargeUtf8,
    Binary,
    LargeBinary,
    /// Bytes per value.
    FixedSizeBinary(i32),
    Date32,
    Date64,
    Time32(TimeUnit),
    Time64(TimeUnit),
    /// Unit and optional time zone.
    Timestamp(TimeUnit, Option<String>),
    Duration(TimeUnit),
    List(Box<Field>),
    LargeList(Box<Field>),
    /// Item field and stride.
    FixedSizeList(Box<Field>, i32),
    Struct(Vec<Field>),
    /// Key field and value field.
    Mapping(Box<Field>, Box<Field>),
    /// Type id and field of each variant.
    DenseUnion(Vec<(i8, Field)>),
    /// Index type and value type.
    Dictionary(Box<DataType>, Box<DataType>),
}

/// A named, typed column with its metadata.
#[derive(Debug, PartialEq, Eq)]
pub struct Field {
    pub name: String,
    pub data_type: DataType,
    pub nullable: bool,
    pub metadata: Vec<(String, String)>,
}

/// Name, nullability and metadata of a child column.
#[derive(Debug, Clone)]
pub struct FieldMeta {
    pub name: String,
    pub nullable: bool,
    pub metadata: Vec<(String, String)>,
}

/// The metadata key under which a field records its strategy.
pub const STRATEGY_KEY: &'static str = "SERDE_ARROW::STRATEGY";

/// How a field is read and written where its Arrow type alone does not say.
#[derive(Debug, Clone, Copy, PartialEq, Eq, Structural)]
pub enum Strategy {
    TupleAsStruct,
    MapAsStruct,
    NaiveStrAsDate64,
    UtcStrAsDate64,
    EnumsWithNamedFieldsAsMaps,
}

/// The name under which a strategy is stored.
pub open spec fn strategy_name(s: Strategy) -> Seq<char> {
    match s {
        Strategy::TupleAsStruct => "TupleAsStruct"@,
        Strategy::MapAsStruct => "MapAsStruct"@,
        Strategy::NaiveStrAsDate64 => "NaiveStrAsDate64"@,
        Strategy::UtcStrAsDate64 => "UtcStrAsDate64"@,
        Strategy::EnumsWithNamedFieldsAsMaps => "EnumsWithNamedFieldsAsMaps"@,
    }
}

/// The strategy stored under `name`, if any.
pub open spec fn strategy_named(name: Seq<char>) -> Option<Strategy> {
    if name == "TupleAsStruct"@ {
        Some(Strategy::TupleAsStruct)
    } else if name == "MapAsStruct"@ {
        Some(Strategy::MapAsStruct)
    } else if name == "NaiveStrAsDate64"@ {
        Some(Strategy::NaiveStrAsDate64)
    } else if name == "UtcStrAsDate64"@ {
        Some(Strategy::UtcStrAsDate64)
    } else if name == "EnumsWithNamedFieldsAsMaps"@ {
        Some(Strategy::EnumsWithNamedFieldsAsMaps)
    } else {
        None
    }
}

/// Whether two texts are equal.
pub fn same_text(a: &str, b: &str) -> (r: bool)
    ensures
        r == (a@ == b@),
{
    let x = a.to_owned();
    let y = b.to_owned();
    x == y
}

impl Strategy {
    /// The stored name of the strategy.
    pub fn name(&self) -> (r: &'static str)
        ensures
            r@ == strategy_name(*self),
    {
        match self {
            Strategy::TupleAsStruct => "TupleAsStruct",
            Strategy::MapAsStruct => "MapAsStruct",
            Strategy::NaiveStrAsDate64 => "NaiveStrAsDate64",
            Strategy::UtcStrAsDate64 => "UtcStrAsDate64",
            Strategy::EnumsWithNamedFieldsAsMaps => "EnumsWithNamedFieldsAsMaps",
        }
    }

    /// Parses a stored name; an unknown name is invalid.
    pub fn parse(s: &str) -> (r: Result<Strategy, Error>)
        ensures
            r is Ok <==> strategy_named(s@) is Some,
            r is Ok ==> r->Ok_0 == strategy_named(s@)->0,
            r is Err ==> r->Err_0.kind == ErrorKind::Invalid && r->Err_0.message@
                == "Unknown strategy"@,
    {
        if same_text(s, "TupleAsStruct") {
            Ok(Strategy::TupleAsStruct)
        } else if same_text(s, "MapAsStruct") {
            Ok(Strategy::MapAsStruct)
        } else if same_text(s, "NaiveStrAsDate64") {
            Ok(Strategy::NaiveStrAsDate64)
        } else if same_text(s, "UtcStrAsDate64") {
            Ok(Strategy::UtcStrAsDate64)
        } else if same_text(s, "EnumsWithNamedFieldsAsMaps") {
            Ok(Strategy::EnumsWithNamedFieldsAsMaps)
        } else {
            Err(Error::new(ErrorKind::Invalid, "Unknown strategy"))
        }
    }
}

/// The value of the first metadata entry under `key`.
pub open spec fn metadata_lookup(md: Seq<(String, String)>, key: Seq<char>) -> Option<Seq<char>>
    decreases md.len(),
{
    if md.len() == 0 {
        None
    } else if md[0].0@ == key {
        Some(md[0].1@)
    } else {
        metadata_lookup(md.drop_first(), key)
    }
}

/// The strategy that a field's metadata selects, if any.
pub fn get_strategy(meta: &FieldMeta) -> (r: Result<Option<Strategy>, Error>)
    ensures
        metadata_lookup(meta.metadata@, STRATEGY_KEY@) is None ==> r == Ok::<
            Option<Strategy>,
            Error,
        >(None),
        metadata_lookup(meta.metadata@, STRATEGY_KEY@) matches Some(name) ==> (r is Ok
            <==> strategy_named(name) is Some),
        metadata_lookup(meta.metadata@, STRATEGY_KEY@) matches Some(name) ==> (r is Ok
            ==> r->Ok_0 == strategy_named(name)),
        r is Err ==> r->Err_0.kind == ErrorKind::Invalid,
{
    strategy_in(&meta.metadata)
}

/// The strategy that metadata entries select, if any.
pub fn strategy_in(metadata: &Vec<(String, String)>) -> (r: Result<Option<Strategy>, Error>)
    ensures
        metadata_lookup(metadata@, STRATEGY_KEY@) is None ==> r == Ok::<
            Option<Strategy>,
            Error,
        >(None),
        metadata_lookup(metadata@, STRATEGY_KEY@) matches Some(name) ==> (r is Ok
            <==> strategy_named(name) is Some),
        metadata_lookup(metadata@, STRATEGY_KEY@) matches Some(name) ==> (r is Ok
            ==> r->Ok_0 == strategy_named(name)),
        r is Err ==> r->Err_0.kind == ErrorKind::Invalid,
{
    let mut i: usize = 0;
    assert(metadata@.subrange(0, metadata@.len() as int) =~= metadata@);
    while i < metadata.len()
        invariant
            i <= metadata@.len(),
            metadata_lookup(metadata@, STRATEGY_KEY@) == metadata_lookup(
                metadata@.subrange(i as int, metadata@.len() as int),
                STRATEGY_KEY@,
            ),
        decreases metadata.len() - i,
    {
        let ghost rest = metadata@.subrange(i as int, metadata@.len() as int);
        assert(rest[0] == metadata@[i as int]);
        if same_text(metadata[i].0.as_str(), STRATEGY_KEY) {
            return match Strategy::parse(metadata[i].1.as_str()) {
                Ok(s) => Ok(Some(s)),
                Err(e) => Err(e),
            };
        }
        assert(rest.drop_first() =~= metadata@.subrange(
            i + 1,
            metadata@.len() as int,
        ));
        i = i + 1;
    }
    Ok(None)
}

/// The lower-case form of a text, as Unicode defines it.
pub uninterp spec fn lowercase_of(s: Seq<char>) -> Seq<char>;

/// Relies on `str::to_lowercase`: the result depends on the characters alone.
#[verifier::external_body]
fn to_lowercase(s: &str) -> (r: String)
    ensures
        r@ == lowercase_of(s@),
{
    s.to_lowercase()
}

/// Whether a time zone name, already lower-cased, denotes UTC.
pub fn lowered_timezone_is_utc(lowered: &str) -> (r: bool)
    ensures
        r == (lowered@ == "utc"@),
{
    same_text(lowered, "utc")
}

/// Whether a timestamp column's time zone means UTC (`"utc"` in any case);
/// no zone means local, naive time, and any other zone is not supported.
pub fn is_utc_timestamp(timezone: Option<&str>) -> (r: Result<bool, Error>)
    ensures
        timezone is None ==> r == Ok::<bool, Error>(false),
        timezone matches Some(tz) ==> (r is Ok <==> lowercase_of(tz@) == "utc"@),
        timezone is Some ==> (r is Ok ==> r->Ok_0),
        r is Err ==> r->Err_0.kind == ErrorKind::Unsupported && r->Err_0.message@
            == "Unsupported timezone: is not supported"@,
{
    match timezone {
        Some(tz) => {
            let lowered = to_lowercase(tz);
            if lowered_timezone_is_utc(lowered.as_str()) {
                Ok(true)
            } else {
                Err(Error::new(ErrorKind::Unsupported, "Unsupported timezone: is not supported"))
            }
        },
        None => Ok(false),
    }
}

/// Whether a Date64 column is read as UTC: the default and `UtcStrAsDate64`
/// are, `NaiveStrAsDate64` is not, and any other strategy is invalid here.
pub fn is_utc_date64(strategy: Option<&Strategy>) -> (r: Result<bool, Error>)
    ensures
        strategy is None ==> r == Ok::<bool, Error>(true),
        strategy == Some(&Strategy::UtcStrAsDate64) ==> r == Ok::<bool, Error>(true),
        strategy == Some(&Strategy::NaiveStrAsDate64) ==> r == Ok::<bool, Error>(false),
        r is Err <==> (strategy is Some && *strategy->0 != Strategy::UtcStrAsDate64
            && *strategy->0 != Strategy::NaiveStrAsDate64),
        r is Err ==> r->Err_0.kind == ErrorKind::Invalid && r->Err_0.message@
            == "Invalid strategy: it is not supported for date64 deserializer"@,
{
    match strategy {
        None => Ok(true),
        Some(Strategy::UtcStrAsDate64) => Ok(true),
        Some(Strategy::NaiveStrAsDate64) => Ok(false),
        Some(_) => Err(
            Error::new(ErrorKind::Invalid, "Invalid strategy: it is not supported for date64 deserializer"),
        ),
    }
}

} // verus!
