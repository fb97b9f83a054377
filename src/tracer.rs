use vstd::prelude::*;
use vstd::string::StringExecFns;

use crate::dates::{matches_naive_datetime, matches_utc_datetime, naive_datetime, utc_datetime};
use crate::error::{Error, ErrorKind};
use crate::schema::{metadata_lookup, strategy_name, DataType, Field, Strategy, STRATEGY_KEY};

verus! {

/// The leaf types that tracing can infer.
#[derive(Debug, Clone, Copy, PartialEq, Eq, Structural)]
pub enum PrimitiveType {
    Null,
    Boolean,
    Int8,
    Int16,
    Int32,
    Int64,
    UInt8,
    UInt16,
    UInt32,
    UInt64,
    Float32,
    Float64,
    LargeUtf8,
    LargeBinary,
    Date64,
}

/// Width rank of a signed integer type (0: not one).
pub open spec fn signed_rank(t: PrimitiveType) -> int {
    match t {
        PrimitiveType::Int8 => 1,
        PrimitiveType::Int16 => 2,
        PrimitiveType::Int32 => 3,
        PrimitiveType::Int64 => 4,
        _ => 0,
    }
}

/// Width rank of an unsigned integer type (0: not one).
pub open spec fn unsigned_rank(t: PrimitiveType) -> int {
    match t {
        PrimitiveType::UInt8 => 1,
        PrimitiveType::UInt16 => 2,
        PrimitiveType::UInt32 => 3,
        PrimitiveType::UInt64 => 4,
        _ => 0,
    }
}

pub open spec fn is_integer(t: PrimitiveType) -> bool {
    signed_rank(t) > 0 || unsigned_rank(t) > 0
}

pub open spec fn is_float(t: PrimitiveType) -> bool {
    t == PrimitiveType::Float32 || t == PrimitiveType::Float64
}

pub open spec fn is_text(t: PrimitiveType) -> bool {
    t == PrimitiveType::LargeUtf8 || t == PrimitiveType::Date64
}

/// The float type that holds both a float type `f` and an integer type `i`
/// exactly where it can: `Float32` keeps integers up to 16 bits.
pub open spec fn float_for(f: PrimitiveType, i: PrimitiveType) -> PrimitiveType {
    if f == PrimitiveType::Float32 && signed_rank(i) <= 2 && unsigned_rank(i) <= 2 {
        PrimitiveType::Float32
    } else {
        PrimitiveType::Float64
    }
}

/// What a leaf becomes after observing `(b, sb)` where it was `(a, sa)`:
/// null gives way to anything, integers widen within their signedness,
/// integers and floats meet in a float, strings that disagree on a date
/// reading stay strings, and anything else conflicts.
pub open spec fn leaf_join(
    a: PrimitiveType,
    sa: Option<Strategy>,
    b: PrimitiveType,
    sb: Option<Strategy>,
) -> Option<(PrimitiveType, Option<Strategy>)> {
    if a == PrimitiveType::Null {
        Some((b, sb))
    } else if b == PrimitiveType::Null {
        Some((a, sa))
    } else if is_text(a) && is_text(b) {
        if a == b && sa == sb {
            Some((a, sa))
        } else {
            Some((PrimitiveType::LargeUtf8, None))
        }
    } else if a == b {
        Some((a, sa))
    } else if signed_rank(a) > 0 && signed_rank(b) > 0 {
        Some((if signed_rank(a) >= signed_rank(b) { a } else { b }, None))
    } else if unsigned_rank(a) > 0 && unsigned_rank(b) > 0 {
        Some((if unsigned_rank(a) >= unsigned_rank(b) { a } else { b }, None))
    } else if is_float(a) && is_float(b) {
        Some((PrimitiveType::Float64, None))
    } else if is_float(a) && is_integer(b) {
        Some((float_for(a, b), None))
    } else if is_integer(a) && is_float(b) {
        Some((float_for(b, a), None))
    } else {
        None
    }
}

fn signed_rank_of(t: PrimitiveType) -> (r: u8)
    ensures
        r == signed_rank(t),
{
    match t {
        PrimitiveType::Int8 => 1,
        PrimitiveType::Int16 => 2,
        PrimitiveType::Int32 => 3,
        PrimitiveType::Int64 => 4,
        _ => 0,
    }
}

fn unsigned_rank_of(t: PrimitiveType) -> (r: u8)
    ensures
        r == unsigned_rank(t),
{
    match t {
        PrimitiveType::UInt8 => 1,
        PrimitiveType::UInt16 => 2,
        PrimitiveType::UInt32 => 3,
        PrimitiveType::UInt64 => 4,
        _ => 0,
    }
}

/// Combines two leaf observations as `leaf_join` says.
pub fn join_leaf(
    a: PrimitiveType,
    sa: Option<Strategy>,
    b: PrimitiveType,
    sb: Option<Strategy>,
) -> (r: Option<(PrimitiveType, Option<Strategy>)>)
    ensures
        r == leaf_join(a, sa, b, sb),
{
    let is_text_a = a == PrimitiveType::LargeUtf8 || a == PrimitiveType::Date64;
    let is_text_b = b == PrimitiveType::LargeUtf8 || b == PrimitiveType::Date64;
    let fa = a == PrimitiveType::Float32 || a == PrimitiveType::Float64;
    let fb = b == PrimitiveType::Float32 || b == PrimitiveType::Float64;
    let (sra, srb, ura, urb) = (
        signed_rank_of(a),
        signed_rank_of(b),
        unsigned_rank_of(a),
        unsigned_rank_of(b),
    );
    if a == PrimitiveType::Null {
        Some((b, sb))
    } else if b == PrimitiveType::Null {
        Some((a, sa))
    } else if is_text_a && is_text_b {
        if a == b && sa == sb {
            Some((a, sa))
        } else {
            Some((PrimitiveType::LargeUtf8, None))
        }
    } else if a == b {
        Some((a, sa))
    } else if sra > 0 && srb > 0 {
        Some((
            if sra >= srb {
                a
            } else {
                b
            },
            None,
        ))
    } else if ura > 0 && urb > 0 {
        Some((
            if ura >= urb {
                a
            } else {
                b
            },
            None,
        ))
    } else if fa && fb {
        Some((PrimitiveType::Float64, None))
    } else if fa && (srb > 0 || urb > 0) {
        let f = if a == PrimitiveType::Float32 && srb <= 2 && urb <= 2 {
            PrimitiveType::Float32
        } else {
            PrimitiveType::Float64
        };
        Some((f, None))
    } else if (sra > 0 || ura > 0) && fb {
        let f = if b == PrimitiveType::Float32 && sra <= 2 && ura <= 2 {
            PrimitiveType::Float32
        } else {
            PrimitiveType::Float64
        };
        Some((f, None))
    } else {
        None
    }
}

impl PrimitiveType {
    pub open spec fn spec_data_type(self) -> DataType {
        match self {
            PrimitiveType::Null => DataType::Null,
            PrimitiveType::Boolean => DataType::Boolean,
            PrimitiveType::Int8 => DataType::Int8,
            PrimitiveType::Int16 => DataType::Int16,
            PrimitiveType::Int32 => DataType::Int32,
            PrimitiveType::Int64 => DataType::Int64,
            PrimitiveType::UInt8 => DataType::UInt8,
            PrimitiveType::UInt16 => DataType::UInt16,
            PrimitiveType::UInt32 => DataType::UInt32,
            PrimitiveType::UInt64 => DataType::UInt64,
            PrimitiveType::Float32 => DataType::Float32,
            PrimitiveType::Float64 => DataType::Float64,
            PrimitiveType::LargeUtf8 => DataType::LargeUtf8,
            PrimitiveType::LargeBinary => DataType::LargeBinary,
            PrimitiveType::Date64 => DataType::Date64,
        }
    }

    /// The Arrow type of the leaf.
    pub fn data_type(&self) -> (r: DataType)
        ensures
            r == self.spec_data_type(),
    {
        match self {
            PrimitiveType::Null => DataType::Null,
            PrimitiveType::Boolean => DataType::Boolean,
            PrimitiveType::Int8 => DataType::Int8,
            PrimitiveType::Int16 => DataType::Int16,
            PrimitiveType::Int32 => DataType::Int32,
            PrimitiveType::Int64 => DataType::Int64,
            PrimitiveType::UInt8 => DataType::UInt8,
            PrimitiveType::UInt16 => DataType::UInt16,
            PrimitiveType::UInt32 => DataType::UInt32,
            PrimitiveType::UInt64 => DataType::UInt64,
            PrimitiveType::Float32 => DataType::Float32,
            PrimitiveType::Float64 => DataType::Float64,
            PrimitiveType::LargeUtf8 => DataType::LargeUtf8,
            PrimitiveType::LargeBinary => DataType::LargeBinary,
            PrimitiveType::Date64 => DataType::Date64,
        }
    }
}

/// The decimal digits of `n`.
pub open spec fn decimal(n: nat) -> Seq<char>
    decreases n,
{
    if n < 10 {
        seq![digit_char(n)]
    } else {
        decimal(n / 10) + seq![digit_char(n % 10)]
    }
}

pub open spec fn digit_char(d: nat) -> char {
    if d == 0 {
        '0'
    } else if d == 1 {
        '1'
    } else if d == 2 {
        '2'
    } else if d == 3 {
        '3'
    } else if d == 4 {
        '4'
    } else if d == 5 {
        '5'
    } else if d == 6 {
        '6'
    } else if d == 7 {
        '7'
    } else if d == 8 {
        '8'
    } else {
        '9'
    }
}

fn digit_str(d: usize) -> (r: &'static str)
    requires
        d < 10,
    ensures
        r@ == seq![digit_char(d as nat)],
{
    proof {
        reveal_strlit("0");
        reveal_strlit("1");
        reveal_strlit("2");
        reveal_strlit("3");
        reveal_strlit("4");
        reveal_strlit("5");
        reveal_strlit("6");
        reveal_strlit("7");
        reveal_strlit("8");
        reveal_strlit("9");
    }
    let r = if d == 0 {
        "0"
    } else if d == 1 {
        "1"
    } else if d == 2 {
        "2"
    } else if d == 3 {
        "3"
    } else if d == 4 {
        "4"
    } else if d == 5 {
        "5"
    } else if d == 6 {
        "6"
    } else if d == 7 {
        "7"
    } else if d == 8 {
        "8"
    } else {
        "9"
    };
    assert(r@ =~= seq![digit_char(d as nat)]);
    r
}

/// Writes `n` in decimal, the name of the `n`-th tuple element.
pub fn decimal_string(n: usize) -> (r: String)
    ensures
        r@ == decimal(n as nat),
    decreases n,
{
    if n < 10 {
        let mut r = String::new();
        r.append(digit_str(n));
        assert(r@ =~= decimal(n as nat));
        r
    } else {
        let mut r = decimal_string(n / 10);
        r.append(digit_str(n % 10));
        r
    }
}

/// The path of a child node: the parent's path, a dot, the child's name.
pub fn child_path(path: &str, name: &str) -> (r: String)
    ensures
        r@ == path@ + "."@ + name@,
{
    let mut r = path.to_owned();
    r.append(".");
    r.append(name);
    r
}

/// The shape of one record value as tracing sees it: scalars carry no
/// payload but strings (dates are guessed from them), composites carry their
/// parts and names.
#[derive(Debug)]
pub enum Sample {
    Unit,
    /// An absent optional value.
    Missing,
    /// A present optional value.
    Present(Box<Sample>),
    Bool,
    Char,
    I8,
    I16,
    I32,
    I64,
    U8,
    U16,
    U32,
    U64,
    F32,
    F64,
    Str(String),
    Bytes,
    Sequence(Vec<Sample>),
    Tuple(Vec<Sample>),
    Struct(Vec<(String, Sample)>),
    Entries(Vec<(Sample, Sample)>),
    /// Variant index, variant name and content (`Unit` for a unit variant).
    Variant(u32, String, Box<Sample>),
}

/// Settings of schema tracing.
#[derive(Debug, Clone, Copy)]
pub struct TracingOptions {
    /// Columns that never saw a value become `Null`; otherwise they fail.
    pub allow_null_fields: bool,
    /// Maps become structs keyed by their (string) keys.
    pub map_as_struct: bool,
    /// String leaves become dictionaries with `UInt32` indices.
    pub string_dictionary_encoding: bool,
    /// Strings that read as ISO date-times become `Date64`.
    pub guess_dates: bool,
    /// How deep a type description may be followed.
    pub from_type_budget: usize,
}

impl TracingOptions {
    pub fn new() -> (r: TracingOptions)
        ensures
            !r.allow_null_fields,
            r.map_as_struct,
            !r.string_dictionary_encoding,
            !r.guess_dates,
            r.from_type_budget == 100,
    {
        TracingOptions {
            allow_null_fields: false,
            map_as_struct: true,
            string_dictionary_encoding: false,
            guess_dates: false,
            from_type_budget: 100,
        }
    }
}

/// How a struct tracer came to be.
#[derive(Debug, Clone, Copy, PartialEq, Eq, Structural)]
pub enum StructMode {
    Struct,
    /// A map traced as a struct keyed by its keys.
    FromMap,
}

/// A node that has seen no value yet.
#[derive(Debug)]
pub struct UnknownTracer {
    pub name: String,
    pub path: String,
    pub nullable: bool,
}

/// A leaf column.
#[derive(Debug)]
pub struct PrimitiveTracer {
    pub name: String,
    pub path: String,
    pub nullable: bool,
    pub item_type: PrimitiveType,
    pub strategy: Option<Strategy>,
}

/// A list column and its item.
#[derive(Debug)]
pub struct ListTracer {
    pub name: String,
    pub path: String,
    pub nullable: bool,
    pub item_tracer: Box<Tracer>,
}

/// A struct member: its name, its tracer, and whether the record under way
/// has set it.
#[derive(Debug)]
pub struct StructField {
    pub name: String,
    pub tracer: Tracer,
    pub seen: bool,
}

/// A struct column; `started` once a first record has ended.
#[derive(Debug)]
pub struct StructTracer {
    pub name: String,
    pub path: String,
    pub nullable: bool,
    pub mode: StructMode,
    pub fields: Vec<StructField>,
    pub started: bool,
}

/// A tuple column, one tracer per position.
#[derive(Debug)]
pub struct TupleTracer {
    pub name: String,
    pub path: String,
    pub nullable: bool,
    pub field_tracers: Vec<Tracer>,
}

/// A map column: keys and values.
#[derive(Debug)]
pub struct MapTracer {
    pub name: String,
    pub path: String,
    pub nullable: bool,
    pub key_tracer: Box<Tracer>,
    pub value_tracer: Box<Tracer>,
}

/// A variant seen under its index.
#[derive(Debug)]
pub struct UnionVariant {
    pub name: String,
    pub tracer: Tracer,
}

/// An enum column; slot `i` holds variant `i` once seen.
#[derive(Debug)]
pub struct UnionTracer {
    pub name: String,
    pub path: String,
    pub nullable: bool,
    pub variants: Vec<Option<UnionVariant>>,
}

/// A node of schema inference, refined by each observation.
#[derive(Debug)]
pub enum Tracer {
    Unknown(UnknownTracer),
    Primitive(PrimitiveTracer),
    List(ListTracer),
    Struct(StructTracer),
    Tuple(TupleTracer),
    Mapping(MapTracer),
    Union(UnionTracer),
}

/// The family of a tracer node.
#[derive(Debug, Clone, Copy, PartialEq, Eq, Structural)]
pub enum TracerKind {
    Unknown,
    Primitive,
    List,
    Struct,
    Tuple,
    Mapping,
    Union,
}

/// A fresh node: nothing seen, not nullable, at the given name and path.
pub open spec fn is_fresh(t: Tracer, name: Seq<char>, path: Seq<char>) -> bool {
    &&& t is Unknown
    &&& t.spec_name() == name
    &&& t.spec_path() == path
    &&& !t.spec_nullable()
}

impl Tracer {
    pub open spec fn spec_name(&self) -> Seq<char> {
        match self {
            Tracer::Unknown(t) => t.name@,
            Tracer::Primitive(t) => t.name@,
            Tracer::List(t) => t.name@,
            Tracer::Struct(t) => t.name@,
            Tracer::Tuple(t) => t.name@,
            Tracer::Mapping(t) => t.name@,
            Tracer::Union(t) => t.name@,
        }
    }

    pub open spec fn spec_path(&self) -> Seq<char> {
        match self {
            Tracer::Unknown(t) => t.path@,
            Tracer::Primitive(t) => t.path@,
            Tracer::List(t) => t.path@,
            Tracer::Struct(t) => t.path@,
            Tracer::Tuple(t) => t.path@,
            Tracer::Mapping(t) => t.path@,
            Tracer::Union(t) => t.path@,
        }
    }

    pub open spec fn spec_nullable(&self) -> bool {
        match self {
            Tracer::Unknown(t) => t.nullable,
            Tracer::Primitive(t) => t.nullable,
            Tracer::List(t) => t.nullable,
            Tracer::Struct(t) => t.nullable,
            Tracer::Tuple(t) => t.nullable,
            Tracer::Mapping(t) => t.nullable,
            Tracer::Union(t) => t.nullable,
        }
    }

    pub open spec fn spec_kind(&self) -> TracerKind {
        match self {
            Tracer::Unknown(_) => TracerKind::Unknown,
            Tracer::Primitive(_) => TracerKind::Primitive,
            Tracer::List(_) => TracerKind::List,
            Tracer::Struct(_) => TracerKind::Struct,
            Tracer::Tuple(_) => TracerKind::Tuple,
            Tracer::Mapping(_) => TracerKind::Mapping,
            Tracer::Union(_) => TracerKind::Union,
        }
    }

    /// The node with its nullable flag set and nothing else changed.
    pub open spec fn marked_nullable(self) -> Tracer {
        match self {
            Tracer::Unknown(t) => Tracer::Unknown(UnknownTracer { nullable: true, ..t }),
            Tracer::Primitive(t) => Tracer::Primitive(PrimitiveTracer { nullable: true, ..t }),
            Tracer::List(t) => Tracer::List(ListTracer { nullable: true, ..t }),
            Tracer::Struct(t) => Tracer::Struct(StructTracer { nullable: true, ..t }),
            Tracer::Tuple(t) => Tracer::Tuple(TupleTracer { nullable: true, ..t }),
            Tracer::Mapping(t) => Tracer::Mapping(MapTracer { nullable: true, ..t }),
            Tracer::Union(t) => Tracer::Union(UnionTracer { nullable: true, ..t }),
        }
    }

    /// A node that has seen nothing.
    pub fn new(name: String, path: String) -> (r: Tracer)
        ensures
            is_fresh(r, name@, path@),
    {
        Tracer::Unknown(UnknownTracer { name, path, nullable: false })
    }

    pub fn name(&self) -> (r: &str)
        ensures
            r@ == self.spec_name(),
    {
        match self {
            Tracer::Unknown(t) => t.name.as_str(),
            Tracer::Primitive(t) => t.name.as_str(),
            Tracer::List(t) => t.name.as_str(),
            Tracer::Struct(t) => t.name.as_str(),
            Tracer::Tuple(t) => t.name.as_str(),
            Tracer::Mapping(t) => t.name.as_str(),
            Tracer::Union(t) => t.name.as_str(),
        }
    }

    pub fn path(&self) -> (r: &str)
        ensures
            r@ == self.spec_path(),
    {
        match self {
            Tracer::Unknown(t) => t.path.as_str(),
            Tracer::Primitive(t) => t.path.as_str(),
            Tracer::List(t) => t.path.as_str(),
            Tracer::Struct(t) => t.path.as_str(),
            Tracer::Tuple(t) => t.path.as_str(),
            Tracer::Mapping(t) => t.path.as_str(),
            Tracer::Union(t) => t.path.as_str(),
        }
    }

    pub fn is_nullable(&self) -> (r: bool)
        ensures
            r == self.spec_nullable(),
    {
        match self {
            Tracer::Unknown(t) => t.nullable,
            Tracer::Primitive(t) => t.nullable,
            Tracer::List(t) => t.nullable,
            Tracer::Struct(t) => t.nullable,
            Tracer::Tuple(t) => t.nullable,
            Tracer::Mapping(t) => t.nullable,
            Tracer::Union(t) => t.nullable,
        }
    }

    pub fn kind(&self) -> (r: TracerKind)
        ensures
            r == self.spec_kind(),
    {
        match self {
            Tracer::Unknown(_) => TracerKind::Unknown,
            Tracer::Primitive(_) => TracerKind::Primitive,
            Tracer::List(_) => TracerKind::List,
            Tracer::Struct(_) => TracerKind::Struct,
            Tracer::Tuple(_) => TracerKind::Tuple,
            Tracer::Mapping(_) => TracerKind::Mapping,
            Tracer::Union(_) => TracerKind::Union,
        }
    }

    /// Records that the column may hold nulls.
    pub fn mark_nullable(&mut self)
        ensures
            *final(self) == old(self).marked_nullable(),
    {
        match self {
            Tracer::Unknown(t) => {
                t.nullable = true;
            },
            Tracer::Primitive(t) => {
                t.nullable = true;
            },
            Tracer::List(t) => {
                t.nullable = true;
            },
            Tracer::Struct(t) => {
                t.nullable = true;
            },
            Tracer::Tuple(t) => {
                t.nullable = true;
            },
            Tracer::Mapping(t) => {
                t.nullable = true;
            },
            Tracer::Union(t) => {
                t.nullable = true;
            },
        }
    }

    fn conflict(&self, observed: &str) -> (r: Error)
        ensures
            r.kind == ErrorKind::Conflict,
    {
        let mut message = "Conflicting observations: ".to_owned();
        message.append(observed);
        message.append(" seen where the column is already typed otherwise");
        Error::at_path(ErrorKind::Conflict, message.as_str(), self.path())
    }
}

/// Whether a leaf observation fits the node: an unknown node takes it, a
/// leaf joins it, and any other node takes only a null.
pub open spec fn leaf_accepts(t: Tracer, p: PrimitiveType, s: Option<Strategy>) -> bool {
    match t {
        Tracer::Unknown(_) => true,
        Tracer::Primitive(pt) => leaf_join(pt.item_type, pt.strategy, p, s) is Some,
        _ => p == PrimitiveType::Null,
    }
}

/// Whether a node can become (or already is) a composite of the given
/// kind: an unknown node and a null leaf can become anything.
pub open spec fn composite_accepts(t: Tracer, kind: TracerKind) -> bool {
    match t {
        Tracer::Unknown(_) => true,
        Tracer::Primitive(pt) => pt.item_type == PrimitiveType::Null,
        _ => t.spec_kind() == kind,
    }
}

/// The node after it became a composite: name and path kept, nullable
/// where it was, or where it had seen only nulls.
pub open spec fn became_composite(old: Tracer, new: Tracer, kind: TracerKind) -> bool {
    &&& new.spec_kind() == kind
    &&& new.spec_name() == old.spec_name()
    &&& new.spec_path() == old.spec_path()
    &&& new.spec_nullable() == (old.spec_nullable() || old is Primitive)
}

impl Tracer {
    /// Observes a leaf value of the given type.
    pub fn ensure_leaf(&mut self, item_type: PrimitiveType, strategy: Option<Strategy>) -> (r:
        Result<(), Error>)
        ensures
            final(self).spec_name() == old(self).spec_name(),
            final(self).spec_path() == old(self).spec_path(),
            r is Ok <==> leaf_accepts(*old(self), item_type, strategy),
            r is Err ==> *final(self) == *old(self) && r->Err_0.kind == ErrorKind::Conflict,
            r is Ok && *old(self) is Unknown ==> (*final(self) matches Tracer::Primitive(p)
                && p.item_type == item_type && p.strategy == strategy && p.nullable == (
            old(self).spec_nullable() || item_type == PrimitiveType::Null)),
            r is Ok && *old(self) is Primitive ==> (*final(self) matches Tracer::Primitive(p) && (
            p.item_type,
            p.strategy,
            ) == leaf_join(
                (*old(self))->Primitive_0.item_type,
                (*old(self))->Primitive_0.strategy,
                item_type,
                strategy,
            )->0 && p.nullable == (old(self).spec_nullable() || (*old(self))->Primitive_0.item_type == PrimitiveType::Null || item_type == PrimitiveType::Null)),
            r is Ok && !(*old(self) is Unknown || *old(self) is Primitive) ==> *final(self) == old(self).marked_nullable(),
    {
        match self {
            Tracer::Unknown(t) => {
                let nullable = t.nullable || item_type == PrimitiveType::Null;
                let name = t.name.clone();
                let path = t.path.clone();
                *self = Tracer::Primitive(
                    PrimitiveTracer { name, path, nullable, item_type, strategy },
                );
                Ok(())
            },
            Tracer::Primitive(t) => {
                match join_leaf(t.item_type, t.strategy, item_type, strategy) {
                    Some((joined, joined_strategy)) => {
                        t.nullable = t.nullable || t.item_type == PrimitiveType::Null || item_type
                            == PrimitiveType::Null;
                        t.item_type = joined;
                        t.strategy = joined_strategy;
                        Ok(())
                    },
                    None => Err(Error::at_path(
                        ErrorKind::Conflict,
                        "Conflicting leaf types observed for one column",
                        t.path.as_str(),
                    )),
                }
            },
            _ => {
                if item_type == PrimitiveType::Null {
                    self.mark_nullable();
                    Ok(())
                } else {
                    Err(self.conflict("a leaf value"))
                }
            },
        }
    }

    /// The name and path of the node, copied.
    fn name_and_path(&self) -> (r: (String, String))
        ensures
            r.0@ == self.spec_name(),
            r.1@ == self.spec_path(),
    {
        (self.name().to_owned(), self.path().to_owned())
    }

    /// Observes a sequence: the node becomes a list.
    pub fn ensure_list(&mut self) -> (r: Result<(), Error>)
        ensures
            r is Ok <==> composite_accepts(*old(self), TracerKind::List),
            r is Err ==> *final(self) == *old(self) && r->Err_0.kind == ErrorKind::Conflict,
            r is Ok && *old(self) is List ==> *final(self) == *old(self),
            r is Ok ==> became_composite(*old(self), *final(self), TracerKind::List),
            r is Ok && !(*old(self) is List) ==> (*final(self) matches Tracer::List(l) && is_fresh(
                *l.item_tracer,
                "element"@,
                old(self).spec_path() + "."@ + "element"@,
            )),
    {
        match self {
            Tracer::List(_) => Ok(()),
            Tracer::Unknown(_) | Tracer::Primitive(PrimitiveTracer {
                item_type: PrimitiveType::Null,
                ..
            }) => {
                let nullable = self.is_nullable() || self.kind() == TracerKind::Primitive;
                let (name, path) = self.name_and_path();
                let item_path = child_path(path.as_str(), "element");
                let item = Tracer::new("element".to_owned(), item_path);
                *self = Tracer::List(ListTracer { name, path, nullable, item_tracer: Box::new(item) });
                Ok(())
            },
            _ => Err(self.conflict("a sequence")),
        }
    }

    /// Observes a map traced as a map: the node becomes a map.
    pub fn ensure_map(&mut self) -> (r: Result<(), Error>)
        ensures
            r is Ok <==> composite_accepts(*old(self), TracerKind::Mapping),
            r is Err ==> *final(self) == *old(self) && r->Err_0.kind == ErrorKind::Conflict,
            r is Ok && *old(self) is Mapping ==> *final(self) == *old(self),
            r is Ok ==> became_composite(*old(self), *final(self), TracerKind::Mapping),
            r is Ok && !(*old(self) is Mapping) ==> (*final(self) matches Tracer::Mapping(m)
                && is_fresh(*m.key_tracer, "key"@, old(self).spec_path() + "."@ + "key"@)
                && is_fresh(*m.value_tracer, "value"@, old(self).spec_path() + "."@ + "value"@)),
    {
        match self {
            Tracer::Mapping(_) => Ok(()),
            Tracer::Unknown(_) | Tracer::Primitive(PrimitiveTracer {
                item_type: PrimitiveType::Null,
                ..
            }) => {
                let nullable = self.is_nullable() || self.kind() == TracerKind::Primitive;
                let (name, path) = self.name_and_path();
                let key = Tracer::new("key".to_owned(), child_path(path.as_str(), "key"));
                let value = Tracer::new("value".to_owned(), child_path(path.as_str(), "value"));
                *self = Tracer::Mapping(
                    MapTracer {
                        name,
                        path,
                        nullable,
                        key_tracer: Box::new(key),
                        value_tracer: Box::new(value),
                    },
                );
                Ok(())
            },
            _ => Err(self.conflict("a map")),
        }
    }

    /// Observes a struct (or a map traced as one): the node becomes a struct
    /// of that mode.
    pub fn ensure_struct(&mut self, mode: StructMode) -> (r: Result<(), Error>)
        ensures
            r is Ok <==> composite_accepts(*old(self), TracerKind::Struct) && ((*old(self)) matches Tracer::Struct(st) ==> st.mode == mode),
            r is Err ==> *final(self) == *old(self) && r->Err_0.kind == ErrorKind::Conflict,
            r is Ok && *old(self) is Struct ==> *final(self) == *old(self),
            r is Ok ==> became_composite(*old(self), *final(self), TracerKind::Struct),
            r is Ok ==> (*final(self))->Struct_0.mode == mode,
            r is Ok && !(*old(self) is Struct) ==> (*final(self))->Struct_0.fields@.len() == 0
                && !(*final(self))->Struct_0.started,
    {
        match self {
            Tracer::Struct(t) => {
                if t.mode == mode {
                    Ok(())
                } else {
                    Err(Error::at_path(
                        ErrorKind::Conflict,
                        "Conflicting struct modes: a struct and a map traced as struct",
                        t.path.as_str(),
                    ))
                }
            },
            Tracer::Unknown(_) | Tracer::Primitive(PrimitiveTracer {
                item_type: PrimitiveType::Null,
                ..
            }) => {
                let nullable = self.is_nullable() || self.kind() == TracerKind::Primitive;
                let (name, path) = self.name_and_path();
                *self = Tracer::Struct(
                    StructTracer { name, path, nullable, mode, fields: Vec::new(), started: false },
                );
                Ok(())
            },
            _ => Err(self.conflict("a struct")),
        }
    }

    /// Observes a tuple of `len` elements: the node becomes a tuple whose
    /// positions are named `0`, `1`, ...
    pub fn ensure_tuple(&mut self, len: usize) -> (r: Result<(), Error>)
        ensures
            r is Ok <==> composite_accepts(*old(self), TracerKind::Tuple) && ((*old(self)) matches Tracer::Tuple(tt) ==> tt.field_tracers@.len() == len),
            r is Err ==> *final(self) == *old(self) && r->Err_0.kind == ErrorKind::Conflict,
            r is Ok && *old(self) is Tuple ==> *final(self) == *old(self),
            r is Ok ==> became_composite(*old(self), *final(self), TracerKind::Tuple),
            r is Ok ==> (*final(self))->Tuple_0.field_tracers@.len() == len,
            r is Ok && !(*old(self) is Tuple) ==> forall|i: int|
                0 <= i < len ==> is_fresh(
                    #[trigger] (*final(self))->Tuple_0.field_tracers@[i],
                    decimal(i as nat),
                    old(self).spec_path() + "."@ + decimal(i as nat),
                ),
    {
        match self {
            Tracer::Tuple(t) => {
                if t.field_tracers.len() == len {
                    Ok(())
                } else {
                    Err(Error::at_path(
                        ErrorKind::Conflict,
                        "Conflicting tuple lengths observed",
                        t.path.as_str(),
                    ))
                }
            },
            Tracer::Unknown(_) | Tracer::Primitive(PrimitiveTracer {
                item_type: PrimitiveType::Null,
                ..
            }) => {
                let nullable = self.is_nullable() || self.kind() == TracerKind::Primitive;
                let (name, path) = self.name_and_path();
                let mut field_tracers: Vec<Tracer> = Vec::new();
                let mut i: usize = 0;
                while i < len
                    invariant
                        i <= len,
                        path@ == old(self).spec_path(),
                        field_tracers@.len() == i,
                        forall|j: int|
                            0 <= j < i ==> is_fresh(
                                #[trigger] field_tracers@[j],
                                decimal(j as nat),
                                path@ + "."@ + decimal(j as nat),
                            ),
                    decreases len - i,
                {
                    let field_name = decimal_string(i);
                    let field_path = child_path(path.as_str(), field_name.as_str());
                    field_tracers.push(Tracer::new(field_name, field_path));
                    i = i + 1;
                }
                *self = Tracer::Tuple(TupleTracer { name, path, nullable, field_tracers });
                Ok(())
            },
            _ => Err(self.conflict("a tuple")),
        }
    }

    /// Observes an enum value: the node becomes a union.
    pub fn ensure_union(&mut self) -> (r: Result<(), Error>)
        ensures
            r is Ok <==> composite_accepts(*old(self), TracerKind::Union),
            r is Err ==> *final(self) == *old(self) && r->Err_0.kind == ErrorKind::Conflict,
            r is Ok && *old(self) is Union ==> *final(self) == *old(self),
            r is Ok ==> became_composite(*old(self), *final(self), TracerKind::Union),
            r is Ok && !(*old(self) is Union) ==> (*final(self))->Union_0.variants@.len() == 0,
    {
        match self {
            Tracer::Union(_) => Ok(()),
            Tracer::Unknown(_) | Tracer::Primitive(PrimitiveTracer {
                item_type: PrimitiveType::Null,
                ..
            }) => {
                let nullable = self.is_nullable() || self.kind() == TracerKind::Primitive;
                let (name, path) = self.name_and_path();
                *self = Tracer::Union(UnionTracer { name, path, nullable, variants: Vec::new() });
                Ok(())
            },
            _ => Err(self.conflict("an enum value")),
        }
    }
}

impl StructTracer {
    /// The index of the member named `key`, added if new; a member first
    /// seen after the first record may be absent from earlier ones, so it
    /// starts nullable. The member counts as set in the record under way.
    pub fn ensure_field(&mut self, key: &str) -> (r: usize)
        ensures
            final(self).name == old(self).name,
            final(self).path == old(self).path,
            final(self).nullable == old(self).nullable,
            final(self).mode == old(self).mode,
            final(self).started == old(self).started,
            r < final(self).fields@.len(),
            final(self).fields@[r as int].name@ == key@,
            final(self).fields@[r as int].seen,
            r < old(self).fields@.len() ==> old(self).fields@[r as int].name@ == key@
                && final(self).fields@.len() == old(self).fields@.len()
                && final(self).fields@[r as int].tracer == old(self).fields@[r as int].tracer,
            forall|j: int|
                0 <= j < old(self).fields@.len() && j != r ==> #[trigger] final(self).fields@[j]
                    == old(self).fields@[j],
            r == old(self).fields@.len() ==> (forall|j: int|
                0 <= j < old(self).fields@.len() ==> old(self).fields@[j].name@ != key@),
            r == old(self).fields@.len() ==> final(self).fields@.len() == r + 1
                && final(self).fields@[r as int].tracer is Unknown
                && final(self).fields@[r as int].tracer.spec_name() == key@
                && final(self).fields@[r as int].tracer.spec_path() == old(self).path@ + "."@ + key@
                && final(self).fields@[r as int].tracer.spec_nullable() == old(self).started,
    {
        let mut i: usize = 0;
        while i < self.fields.len()
            invariant
                i <= self.fields@.len(),
                *self == *old(self),
                forall|j: int| 0 <= j < i ==> self.fields@[j].name@ != key@,
            decreases self.fields.len() - i,
        {
            if self.fields[i].name == key.to_owned() {
                let f = &mut self.fields[i];
                f.seen = true;
                return i;
            }
            i = i + 1;
        }
        let mut tracer = Tracer::new(key.to_owned(), child_path(self.path.as_str(), key));
        if self.started {
            tracer.mark_nullable();
        }
        self.fields.push(StructField { name: key.to_owned(), tracer, seen: true });
        i
    }

    /// Ends a record: every member it did not set becomes nullable, and the
    /// next record starts with no member set.
    pub fn end(&mut self)
        ensures
            final(self).name == old(self).name,
            final(self).path == old(self).path,
            final(self).nullable == old(self).nullable,
            final(self).mode == old(self).mode,
            final(self).started,
            final(self).fields@.len() == old(self).fields@.len(),
            forall|j: int|
                0 <= j < old(self).fields@.len() ==> {
                    &&& (#[trigger] final(self).fields@[j]).name == old(self).fields@[j].name
                    &&& !final(self).fields@[j].seen
                    &&& final(self).fields@[j].tracer == if old(self).fields@[j].seen {
                        old(self).fields@[j].tracer
                    } else {
                        old(self).fields@[j].tracer.marked_nullable()
                    }
                },
    {
        let mut i: usize = 0;
        while i < self.fields.len()
            invariant
                i <= self.fields@.len(),
                self.name == old(self).name,
                self.path == old(self).path,
                self.nullable == old(self).nullable,
                self.mode == old(self).mode,
                self.fields@.len() == old(self).fields@.len(),
                forall|j: int|
                    i <= j < self.fields@.len() ==> #[trigger] self.fields@[j] == old(self).fields@[j],
                forall|j: int|
                    0 <= j < i ==> {
                        &&& (#[trigger] self.fields@[j]).name == old(self).fields@[j].name
                        &&& !self.fields@[j].seen
                        &&& self.fields@[j].tracer == if old(self).fields@[j].seen {
                            old(self).fields@[j].tracer
                        } else {
                            old(self).fields@[j].tracer.marked_nullable()
                        }
                    },
            decreases self.fields.len() - i,
        {
            let f = &mut self.fields[i];
            if !f.seen {
                f.tracer.mark_nullable();
            }
            f.seen = false;
            i = i + 1;
        }
        self.started = true;
    }
}

impl UnionTracer {
    /// Records variant `idx` under `name`; the slot of an index holds one
    /// name only.
    pub fn ensure_variant(&mut self, name: &str, idx: usize) -> (r: Result<(), Error>)
        ensures
            final(self).name == old(self).name,
            final(self).path == old(self).path,
            final(self).nullable == old(self).nullable,
            r is Ok <==> idx < usize::MAX && !(idx < old(self).variants@.len() && (
            old(self).variants@[idx as int] matches Some(v) && v.name@ != name@)),
            r is Err ==> *final(self) == *old(self),
            r is Err && idx < usize::MAX ==> r->Err_0.kind == ErrorKind::Conflict,
            r is Ok ==> final(self).variants@.len() == if idx < old(self).variants@.len() {
                old(self).variants@.len() as int
            } else {
                idx + 1
            },
            r is Ok ==> (final(self).variants@[idx as int] matches Some(v) && v.name@ == name@),
            r is Ok && idx < old(self).variants@.len() && old(self).variants@[idx as int] is Some
                ==> final(self).variants@[idx as int] == old(self).variants@[idx as int],
            r is Ok && !(idx < old(self).variants@.len() && old(self).variants@[idx as int] is Some)
                ==> is_fresh(
                final(self).variants@[idx as int]->0.tracer,
                name@,
                old(self).path@ + "."@ + name@,
            ),
            r is Ok ==> forall|j: int|
                0 <= j < final(self).variants@.len() && j != idx ==> #[trigger] final(self).variants@[j] == if j < old(self).variants@.len() {
                    old(self).variants@[j]
                } else {
                    None
                },
    {
        if idx == usize::MAX {
            return Err(Error::at_path(
                ErrorKind::OutOfRange,
                "Variant index out of range",
                self.path.as_str(),
            ));
        }
        if idx < self.variants.len() {
            match &self.variants[idx] {
                Some(v) => {
                    if v.name == name.to_owned() {
                        return Ok(());
                    } else {
                        return Err(Error::at_path(
                            ErrorKind::Conflict,
                            "Conflicting variant names for one variant index",
                            self.path.as_str(),
                        ));
                    }
                },
                None => {},
            }
        }
        while self.variants.len() <= idx
            invariant
                idx < usize::MAX,
                self.name == old(self).name,
                self.path == old(self).path,
                self.nullable == old(self).nullable,
                self.variants@.len() >= old(self).variants@.len(),
                self.variants@.len() <= if idx < old(self).variants@.len() {
                    old(self).variants@.len() as int
                } else {
                    idx + 1
                },
                forall|j: int|
                    0 <= j < self.variants@.len() ==> #[trigger] self.variants@[j] == if j < old(self).variants@.len() {
                        old(self).variants@[j]
                    } else {
                        None
                    },
            decreases idx + 1 - self.variants.len(),
        {
            self.variants.push(None);
        }
        let tracer = Tracer::new(name.to_owned(), child_path(self.path.as_str(), name));
        self.variants.set(idx, Some(UnionVariant { name: name.to_owned(), tracer }));
        Ok(())
    }
}

/// The leaf type of a string sample: with date guessing, a naive ISO
/// date-time is a `Date64` read naively, one in UTC a `Date64` read as UTC;
/// any other string is `LargeUtf8`.
pub open spec fn string_leaf(s: Seq<char>, guess_dates: bool) -> (PrimitiveType, Option<Strategy>) {
    if guess_dates && naive_datetime(s) {
        (PrimitiveType::Date64, Some(Strategy::NaiveStrAsDate64))
    } else if guess_dates && utc_datetime(s) {
        (PrimitiveType::Date64, Some(Strategy::UtcStrAsDate64))
    } else {
        (PrimitiveType::LargeUtf8, None)
    }
}

/// The longest text that can be an ISO date-time.
const DATETIME_MAX_LEN: usize = 35;

/// Classifies a string sample as `string_leaf` says.
pub fn guess_string_type(s: &str, guess_dates: bool) -> (r: (PrimitiveType, Option<Strategy>))
    ensures
        r == string_leaf(s@, guess_dates),
{
    if !guess_dates {
        return (PrimitiveType::LargeUtf8, None);
    }
    let n = s.unicode_len();
    if n > DATETIME_MAX_LEN {
        proof {
            assert(!naive_datetime(s@));
            assert(!utc_datetime(s@));
        }
        return (PrimitiveType::LargeUtf8, None);
    }
    let mut chars: Vec<char> = Vec::new();
    let mut i: usize = 0;
    while i < n
        invariant
            n == s@.len(),
            i <= n,
            chars@ == s@.subrange(0, i as int),
        decreases n - i,
    {
        chars.push(s.get_char(i));
        i = i + 1;
    }
    assert(chars@ =~= s@);
    if matches_naive_datetime(&chars) {
        (PrimitiveType::Date64, Some(Strategy::NaiveStrAsDate64))
    } else if matches_utc_datetime(&chars) {
        (PrimitiveType::Date64, Some(Strategy::UtcStrAsDate64))
    } else {
        (PrimitiveType::LargeUtf8, None)
    }
}

impl Tracer {
    /// Observes variant `idx` named `name` of an enum: the node becomes a
    /// union whose slot `idx` holds that variant.
    pub fn ensure_union_variant(&mut self, name: &str, idx: usize) -> (r: Result<(), Error>)
        ensures
            trace_keeps(*old(self), *final(self)),
            r is Ok ==> (*final(self) matches Tracer::Union(u) && idx < u.variants@.len() && (
            u.variants@[idx as int] matches Some(v) && v.name@ == name@)),
            r is Ok <==> composite_accepts(*old(self), TracerKind::Union) && idx < usize::MAX && !(
            *old(self) matches Tracer::Union(u) && idx < u.variants@.len() && (
            u.variants@[idx as int] matches Some(v) && v.name@ != name@)),
            r is Ok ==> forall|j: int|
                0 <= j < (*final(self))->Union_0.variants@.len() && j != idx ==> #[trigger] (
                *final(self))->Union_0.variants@[j] == if *old(self) is Union && j < (*old(self))->Union_0.variants@.len() {
                (*old(self))->Union_0.variants@[j]
            } else {
                None
            },
            r is Ok && !(*old(self) matches Tracer::Union(u) && idx < u.variants@.len()
                && u.variants@[idx as int] is Some) ==> is_fresh(
                (*final(self))->Union_0.variants@[idx as int]->0.tracer,
                name@,
                old(self).spec_path() + "."@ + name@,
            ),
            r is Err ==> r->Err_0.kind == ErrorKind::Conflict || idx == usize::MAX,
    {
        match self.ensure_union() {
            Ok(()) => {},
            Err(e) => {
                return Err(e);
            },
        }
        match self {
            Tracer::Union(u) => u.ensure_variant(name, idx),
            _ => Ok(()),
        }
    }
}

/// The leaf type of a scalar sample; `None` for absent, optional and
/// composite samples.
pub open spec fn sample_leaf(s: Sample, guess_dates: bool) -> Option<(PrimitiveType, Option<Strategy>)> {
    match s {
        Sample::Unit => Some((PrimitiveType::Null, None)),
        Sample::Bool => Some((PrimitiveType::Boolean, None)),
        Sample::Char => Some((PrimitiveType::UInt32, None)),
        Sample::I8 => Some((PrimitiveType::Int8, None)),
        Sample::I16 => Some((PrimitiveType::Int16, None)),
        Sample::I32 => Some((PrimitiveType::Int32, None)),
        Sample::I64 => Some((PrimitiveType::Int64, None)),
        Sample::U8 => Some((PrimitiveType::UInt8, None)),
        Sample::U16 => Some((PrimitiveType::UInt16, None)),
        Sample::U32 => Some((PrimitiveType::UInt32, None)),
        Sample::U64 => Some((PrimitiveType::UInt64, None)),
        Sample::F32 => Some((PrimitiveType::Float32, None)),
        Sample::F64 => Some((PrimitiveType::Float64, None)),
        Sample::Str(t) => Some(string_leaf(t@, guess_dates)),
        Sample::Bytes => Some((PrimitiveType::LargeBinary, None)),
        _ => None,
    }
}

/// A sample made of scalars, absences and optional wrappers only.
pub open spec fn is_leaf_sample(s: Sample, guess_dates: bool) -> bool
    decreases s,
{
    match s {
        Sample::Missing => true,
        Sample::Present(inner) => is_leaf_sample(*inner, guess_dates),
        _ => sample_leaf(s, guess_dates) is Some,
    }
}

/// What a leaf-like node holds: whether it has a type yet, that type, its
/// strategy, and whether it is nullable.
pub open spec fn leaf_view(t: Tracer) -> Option<(bool, PrimitiveType, Option<Strategy>, bool)> {
    match t {
        Tracer::Unknown(u) => Some((false, PrimitiveType::Null, None, u.nullable)),
        Tracer::Primitive(p) => Some((true, p.item_type, p.strategy, p.nullable)),
        _ => None,
    }
}

/// The leaf-like node after a leaf sample, by the convergence rules: an
/// absence marks it nullable, a present value marks it nullable and is
/// traced, a first scalar gives the node its type, a later one joins it
/// (`None`: the observations conflict).
pub open spec fn leaf_step(
    v: (bool, PrimitiveType, Option<Strategy>, bool),
    s: Sample,
    guess_dates: bool,
) -> Option<(bool, PrimitiveType, Option<Strategy>, bool)>
    decreases s,
{
    match s {
        Sample::Missing => Some((v.0, v.1, v.2, true)),
        Sample::Present(inner) => leaf_step((v.0, v.1, v.2, true), *inner, guess_dates),
        _ => match sample_leaf(s, guess_dates) {
            Some(l) => if !v.0 {
                Some((true, l.0, l.1, v.3 || l.0 == PrimitiveType::Null))
            } else {
                match leaf_join(v.1, v.2, l.0, l.1) {
                    Some(j) => Some(
                        (true, j.0, j.1, v.3 || v.1 == PrimitiveType::Null || l.0 == PrimitiveType::Null),
                    ),
                    None => None,
                }
            },
            None => None,
        },
    }
}

/// The root after tracing the first `n` leaf samples from a fresh node.
pub open spec fn leaf_fold(samples: Seq<Sample>, n: nat, guess_dates: bool) -> Option<
    (bool, PrimitiveType, Option<Strategy>, bool),
>
    decreases n,
{
    if n == 0 {
        Some((false, PrimitiveType::Null, None, false))
    } else {
        match leaf_fold(samples, (n - 1) as nat, guess_dates) {
            Some(v) => leaf_step(v, samples[n - 1], guess_dates),
            None => None,
        }
    }
}

/// A leaf-like node after the first `n` of `items`, starting from `v`.
pub open spec fn leaf_fold_from(
    v: (bool, PrimitiveType, Option<Strategy>, bool),
    items: Seq<Sample>,
    n: nat,
    guess_dates: bool,
) -> Option<(bool, PrimitiveType, Option<Strategy>, bool)>
    decreases n,
{
    if n == 0 {
        Some(v)
    } else {
        match leaf_fold_from(v, items, (n - 1) as nat, guess_dates) {
            Some(w) => leaf_step(w, items[n - 1], guess_dates),
            None => None,
        }
    }
}

/// What a node that takes a sequence holds for its items: the item of a
/// list, or a fresh item for a node that becomes a list.
pub open spec fn list_start(t: Tracer) -> Option<(bool, PrimitiveType, Option<Strategy>, bool)> {
    match t {
        Tracer::List(l) => leaf_view(*l.item_tracer),
        Tracer::Unknown(_) => Some((false, PrimitiveType::Null, None, false)),
        Tracer::Primitive(p) => if p.item_type == PrimitiveType::Null {
            Some((false, PrimitiveType::Null, None, false))
        } else {
            None
        },
        _ => None,
    }
}

/// A sequence sample of leaf samples.
pub open spec fn is_leaf_sequence(s: Sample, guess_dates: bool) -> bool {
    s matches Sample::Sequence(items) && all_leaf_samples(items@, guess_dates)
}

/// The list item after the first `n` sequence samples, from a fresh root.
pub open spec fn seq_fold(samples: Seq<Sample>, n: nat, guess_dates: bool) -> Option<
    (bool, PrimitiveType, Option<Strategy>, bool),
>
    decreases n,
{
    if n == 0 {
        Some((false, PrimitiveType::Null, None, false))
    } else {
        match seq_fold(samples, (n - 1) as nat, guess_dates) {
            Some(w) => leaf_fold_from(
                w,
                samples[n - 1]->Sequence_0@,
                samples[n - 1]->Sequence_0@.len(),
                guess_dates,
            ),
            None => None,
        }
    }
}

proof fn lemma_fold_from_stays_none(
    v: (bool, PrimitiveType, Option<Strategy>, bool),
    items: Seq<Sample>,
    n: nat,
    guess_dates: bool,
)
    requires
        n <= items.len(),
        leaf_fold_from(v, items, n, guess_dates) is None,
    ensures
        leaf_fold_from(v, items, items.len(), guess_dates) is None,
    decreases items.len() - n,
{
    if n < items.len() {
        lemma_fold_from_stays_none(v, items, n + 1, guess_dates);
    }
}

proof fn lemma_seq_fold_stays_none(samples: Seq<Sample>, n: nat, guess_dates: bool)
    requires
        n <= samples.len(),
        seq_fold(samples, n, guess_dates) is None,
    ensures
        seq_fold(samples, samples.len(), guess_dates) is None,
    decreases samples.len() - n,
{
    if n < samples.len() {
        lemma_seq_fold_stays_none(samples, n + 1, guess_dates);
    }
}

/// The kind of node a sample turns an accepting tracer into; a null or
/// absent value leaves the kind as it is.
pub open spec fn sample_kind(s: Sample, map_as_struct: bool) -> Option<TracerKind>
    decreases s,
{
    match s {
        Sample::Unit => None,
        Sample::Missing => None,
        Sample::Present(inner) => sample_kind(*inner, map_as_struct),
        Sample::Sequence(_) => Some(TracerKind::List),
        Sample::Tuple(_) => Some(TracerKind::Tuple),
        Sample::Struct(_) => Some(TracerKind::Struct),
        Sample::Entries(_) => Some(
            if map_as_struct {
                TracerKind::Struct
            } else {
                TracerKind::Mapping
            },
        ),
        Sample::Variant(_, _, _) => Some(TracerKind::Union),
        _ => Some(TracerKind::Primitive),
    }
}

/// Whether a sample tells that the column may hold nulls.
pub open spec fn sample_is_optional(s: Sample) -> bool {
    s is Unit || s is Missing || s is Present
}

/// What tracing keeps of a node whatever the sample: its name and path,
/// and its nullable flag once set.
pub open spec fn trace_keeps(old: Tracer, new: Tracer) -> bool {
    &&& new.spec_name() == old.spec_name()
    &&& new.spec_path() == old.spec_path()
    &&& old.spec_nullable() ==> new.spec_nullable()
}

impl Tracer {
    /// Refines the node, and the nodes below it, by one sample.
    pub fn trace(&mut self, sample: &Sample, options: &TracingOptions) -> (r: Result<(), Error>)
        ensures
            trace_keeps(*old(self), *final(self)),
            r is Ok && sample_kind(*sample, options.map_as_struct) is Some ==> final(self).spec_kind()
                == sample_kind(*sample, options.map_as_struct)->0,
            r is Ok && sample_kind(*sample, options.map_as_struct) is None ==> final(self).spec_kind() == old(self).spec_kind() || old(self).spec_kind() == TracerKind::Unknown,
            r is Ok && sample_is_optional(*sample) ==> final(self).spec_nullable(),
            is_leaf_sample(*sample, options.guess_dates) && leaf_view(*old(self)) is Some ==> (r is Ok
                <==> leaf_step(leaf_view(*old(self))->0, *sample, options.guess_dates) is Some),
            is_leaf_sequence(*sample, options.guess_dates) && list_start(*old(self)) is Some ==> (r is Ok
                <==> leaf_fold_from(
                list_start(*old(self))->0,
                (*sample)->Sequence_0@,
                (*sample)->Sequence_0@.len(),
                options.guess_dates,
            ) is Some),
            is_leaf_sequence(*sample, options.guess_dates) && list_start(*old(self)) is Some && r is Ok
                ==> (*final(self)) is List && final(self).spec_nullable() == (old(self).spec_nullable()
                || *old(self) is Primitive) && list_start(*final(self)) == leaf_fold_from(
                list_start(*old(self))->0,
                (*sample)->Sequence_0@,
                (*sample)->Sequence_0@.len(),
                options.guess_dates,
            ),
            is_leaf_sample(*sample, options.guess_dates) && leaf_view(*old(self)) is Some && r is Ok
                ==> leaf_view(*final(self)) == leaf_step(
                leaf_view(*old(self))->0,
                *sample,
                options.guess_dates,
            ),
        decreases sample,
    {
        match sample {
            Sample::Unit => self.ensure_leaf(PrimitiveType::Null, None),
            Sample::Missing => {
                self.mark_nullable();
                Ok(())
            },
            Sample::Present(inner) => {
                self.mark_nullable();
                self.trace(inner, options)
            },
            Sample::Bool => self.ensure_leaf(PrimitiveType::Boolean, None),
            Sample::Char => self.ensure_leaf(PrimitiveType::UInt32, None),
            Sample::I8 => self.ensure_leaf(PrimitiveType::Int8, None),
            Sample::I16 => self.ensure_leaf(PrimitiveType::Int16, None),
            Sample::I32 => self.ensure_leaf(PrimitiveType::Int32, None),
            Sample::I64 => self.ensure_leaf(PrimitiveType::Int64, None),
            Sample::U8 => self.ensure_leaf(PrimitiveType::UInt8, None),
            Sample::U16 => self.ensure_leaf(PrimitiveType::UInt16, None),
            Sample::U32 => self.ensure_leaf(PrimitiveType::UInt32, None),
            Sample::U64 => self.ensure_leaf(PrimitiveType::UInt64, None),
            Sample::F32 => self.ensure_leaf(PrimitiveType::Float32, None),
            Sample::F64 => self.ensure_leaf(PrimitiveType::Float64, None),
            Sample::Str(text) => {
                let (t, s) = guess_string_type(text.as_str(), options.guess_dates);
                self.ensure_leaf(t, s)
            },
            Sample::Bytes => self.ensure_leaf(PrimitiveType::LargeBinary, None),
            Sample::Sequence(items) => {
                let ghost start = list_start(*self);
                let ghost leafy = all_leaf_samples(items@, options.guess_dates) && start is Some;
                match self.ensure_list() {
                    Ok(()) => {},
                    Err(e) => {
                        return Err(e);
                    },
                }
                match self {
                    Tracer::List(l) => {
                        let mut failure: Option<Error> = None;
                        let mut i: usize = 0;
                        while i < items.len() && failure.is_none()
                            invariant
                                i <= items@.len(),
                                leafy == (all_leaf_samples(items@, options.guess_dates) && start is Some),
                                leafy && failure is None ==> leaf_fold_from(
                                    start->0,
                                    items@,
                                    i as nat,
                                    options.guess_dates,
                                ) is Some && leaf_view(*l.item_tracer) == leaf_fold_from(
                                    start->0,
                                    items@,
                                    i as nat,
                                    options.guess_dates,
                                ),
                                leafy && failure is Some ==> leaf_fold_from(
                                    start->0,
                                    items@,
                                    i as nat,
                                    options.guess_dates,
                                ) is None,
                                l.nullable == (old(self).spec_nullable() || *old(self) is Primitive),
                                l.name@ == old(self).spec_name(),
                                l.path@ == old(self).spec_path(),
                                old(self).spec_nullable() ==> l.nullable,
                                decreases_to!(*sample => *items),
                            decreases items.len() - i,
                        {
                            proof {
                                assert(decreases_to!(*items => items[i as int]));
                            }
                            proof {
                                if leafy {
                                    assert(is_leaf_sample(items@[i as int], options.guess_dates));
                                }
                            }
                            match l.item_tracer.trace(&items[i], options) {
                                Ok(()) => {},
                                Err(e) => {
                                    failure = Some(e);
                                },
                            }
                            i = i + 1;
                        }
                        match failure {
                            Some(e) => {
                                proof {
                                    if leafy {
                                        lemma_fold_from_stays_none(
                                            start->0,
                                            items@,
                                            i as nat,
                                            options.guess_dates,
                                        );
                                    }
                                }
                                Err(e)
                            },
                            None => Ok(()),
                        }
                    },
                    _ => Ok(()),
                }
            },
            Sample::Tuple(items) => {
                match self.ensure_tuple(items.len()) {
                    Ok(()) => {},
                    Err(e) => {
                        return Err(e);
                    },
                }
                match self {
                    Tracer::Tuple(t) => {
                        let mut failure: Option<Error> = None;
                        let mut i: usize = 0;
                        while i < items.len() && failure.is_none()
                            invariant
                                i <= items@.len(),
                                t.field_tracers@.len() == items@.len(),
                                t.name@ == old(self).spec_name(),
                                t.path@ == old(self).spec_path(),
                                old(self).spec_nullable() ==> t.nullable,
                                decreases_to!(*sample => *items),
                            decreases items.len() - i,
                        {
                            proof {
                                assert(decreases_to!(*items => items[i as int]));
                            }
                            let child = &mut t.field_tracers[i];
                            match child.trace(&items[i], options) {
                                Ok(()) => {},
                                Err(e) => {
                                    failure = Some(e);
                                },
                            }
                            i = i + 1;
                        }
                        match failure {
                            Some(e) => Err(e),
                            None => Ok(()),
                        }
                    },
                    _ => Ok(()),
                }
            },
            Sample::Struct(members) => {
                match self.ensure_struct(StructMode::Struct) {
                    Ok(()) => {},
                    Err(e) => {
                        return Err(e);
                    },
                }
                match self {
                    Tracer::Struct(st) => {
                        let mut failure: Option<Error> = None;
                        let mut i: usize = 0;
                        while i < members.len() && failure.is_none()
                            invariant
                                i <= members@.len(),
                                st.name@ == old(self).spec_name(),
                                st.path@ == old(self).spec_path(),
                                old(self).spec_nullable() ==> st.nullable,
                                decreases_to!(*sample => *members),
                            decreases members.len() - i,
                        {
                            proof {
                                assert(decreases_to!(*members => members[i as int]));
                            }
                            let idx = st.ensure_field(members[i].0.as_str());
                            let child = &mut st.fields[idx].tracer;
                            match child.trace(&members[i].1, options) {
                                Ok(()) => {},
                                Err(e) => {
                                    failure = Some(e);
                                },
                            }
                            i = i + 1;
                        }
                        match failure {
                            Some(e) => Err(e),
                            None => {
                                st.end();
                                Ok(())
                            },
                        }
                    },
                    _ => Ok(()),
                }
            },
            Sample::Entries(entries) => {
                if options.map_as_struct {
                    match self.ensure_struct(StructMode::FromMap) {
                        Ok(()) => {},
                        Err(e) => {
                            return Err(e);
                        },
                    }
                    match self {
                        Tracer::Struct(st) => {
                            let mut failure: Option<Error> = None;
                            let mut i: usize = 0;
                            while i < entries.len() && failure.is_none()
                                invariant
                                    i <= entries@.len(),
                                    st.name@ == old(self).spec_name(),
                                    st.path@ == old(self).spec_path(),
                                    old(self).spec_nullable() ==> st.nullable,
                                    decreases_to!(*sample => *entries),
                                decreases entries.len() - i,
                            {
                                proof {
                                    assert(decreases_to!(*entries => entries[i as int]));
                                }
                                match &entries[i].0 {
                                    Sample::Str(key) => {
                                        let idx = st.ensure_field(key.as_str());
                                        let child = &mut st.fields[idx].tracer;
                                        match child.trace(&entries[i].1, options) {
                                            Ok(()) => {},
                                            Err(e) => {
                                                failure = Some(e);
                                            },
                                        }
                                    },
                                    _ => {
                                        failure = Some(
                                            Error::at_path(
                                                ErrorKind::Invalid,
                                                "Invalid argument: cannot interpret key as string",
                                                st.path.as_str(),
                                            ),
                                        );
                                    },
                                }
                                i = i + 1;
                            }
                            match failure {
                                Some(e) => Err(e),
                                None => {
                                    st.end();
                                    Ok(())
                                },
                            }
                        },
                        _ => Ok(()),
                    }
                } else {
                    match self.ensure_map() {
                        Ok(()) => {},
                        Err(e) => {
                            return Err(e);
                        },
                    }
                    match self {
                        Tracer::Mapping(m) => {
                            let mut failure: Option<Error> = None;
                            let mut i: usize = 0;
                            while i < entries.len() && failure.is_none()
                                invariant
                                    i <= entries@.len(),
                                    m.name@ == old(self).spec_name(),
                                    m.path@ == old(self).spec_path(),
                                    old(self).spec_nullable() ==> m.nullable,
                                    decreases_to!(*sample => *entries),
                                decreases entries.len() - i,
                            {
                                proof {
                                    assert(decreases_to!(*entries => entries[i as int]));
                                }
                                match m.key_tracer.trace(&entries[i].0, options) {
                                    Ok(()) => match m.value_tracer.trace(&entries[i].1, options) {
                                        Ok(()) => {},
                                        Err(e) => {
                                            failure = Some(e);
                                        },
                                    },
                                    Err(e) => {
                                        failure = Some(e);
                                    },
                                }
                                i = i + 1;
                            }
                            match failure {
                                Some(e) => Err(e),
                                None => Ok(()),
                            }
                        },
                        _ => Ok(()),
                    }
                }
            },
            Sample::Variant(index, name, content) => {
                let idx = *index as usize;
                match self.ensure_union_variant(name.as_str(), idx) {
                    Ok(()) => {},
                    Err(e) => {
                        return Err(e);
                    },
                }
                match self {
                    Tracer::Union(u) => {
                        match &mut u.variants[idx] {
                            Some(v) => v.tracer.trace(content, options),
                            None => Ok(()),
                        }
                    },
                    _ => Ok(()),
                }
            },
        }
    }
}

/// The strategy that the field of a node records.
pub open spec fn tracer_strategy(t: Tracer) -> Option<Strategy> {
    match t {
        Tracer::Primitive(p) => p.strategy,
        Tracer::Tuple(_) => Some(Strategy::TupleAsStruct),
        Tracer::Struct(st) => if st.mode == StructMode::FromMap {
            Some(Strategy::MapAsStruct)
        } else {
            None
        },
        _ => None,
    }
}

/// Whether `dt` is the type that node `t` stands for: a leaf its type (a
/// string leaf may be dictionary encoded), a list a large list of its item,
/// a struct or tuple a struct with one child per member, a map a map of its
/// keys and values, an enum a dense union with type ids `0, 1, ...` and one
/// child per variant slot, and a node that saw nothing `Null`; children are
/// in turn the fields of the child nodes.
pub open spec fn data_type_fits(t: Tracer, dt: DataType, options: TracingOptions) -> bool
    decreases t, 0nat,
{
    match t {
        Tracer::Unknown(_) => dt == DataType::Null,
        Tracer::Primitive(p) => if p.item_type == PrimitiveType::LargeUtf8
            && options.string_dictionary_encoding {
            dt == DataType::Dictionary(Box::new(DataType::UInt32), Box::new(DataType::LargeUtf8))
        } else {
            dt == p.item_type.spec_data_type()
        },
        Tracer::List(l) => dt matches DataType::LargeList(item) && field_of(
            *l.item_tracer,
            *item,
            options,
        ),
        Tracer::Struct(st) => dt matches DataType::Struct(children) && children@.len()
            == st.fields@.len() && forall|i: int|
            0 <= i < children@.len() ==> field_of(
                st.fields@[i].tracer,
                #[trigger] children@[i],
                options,
            ),
        Tracer::Tuple(tt) => dt matches DataType::Struct(children) && children@.len()
            == tt.field_tracers@.len() && forall|i: int|
            0 <= i < children@.len() ==> field_of(
                tt.field_tracers@[i],
                #[trigger] children@[i],
                options,
            ),
        Tracer::Mapping(m) => dt matches DataType::Mapping(k, v) && field_of(
            *m.key_tracer,
            *k,
            options,
        ) && field_of(*m.value_tracer, *v, options),
        Tracer::Union(u) => dt matches DataType::DenseUnion(children) && children@.len()
            == u.variants@.len() && forall|i: int|
            0 <= i < children@.len() ==> (#[trigger] children@[i]).0 == i && (u.variants@[i] matches Some(
                v,
            ) ==> field_of(v.tracer, children@[i].1, options)),
    }
}

/// The field `f` is what node `t` stands for: same name, nullable where the
/// node is (or saw nothing but nulls), the type `data_type_fits` gives, and
/// the node's strategy recorded in the metadata.
pub open spec fn field_of(t: Tracer, f: Field, options: TracingOptions) -> bool
    decreases t, 1nat,
{
    &&& f.name@ == t.spec_name()
    &&& f.nullable == (t.spec_nullable() || t is Unknown || (t matches Tracer::Primitive(p)
        && p.item_type == PrimitiveType::Null))
    &&& data_type_fits(t, f.data_type, options)
    &&& metadata_lookup(f.metadata@, STRATEGY_KEY@) == match tracer_strategy(t) {
        Some(s) => Some(strategy_name(s)),
        None => None::<Seq<char>>,
    }
}

/// Whether a node can become a field: no node below saw nothing while
/// null columns are not allowed, and no enum has more variants than 8-bit
/// type ids tell apart.
pub open spec fn field_ok(t: Tracer, options: TracingOptions) -> bool
    decreases t,
{
    match t {
        Tracer::Unknown(_) => options.allow_null_fields,
        Tracer::Primitive(_) => true,
        Tracer::List(l) => field_ok(*l.item_tracer, options),
        Tracer::Struct(st) => forall|i: int|
            0 <= i < st.fields@.len() ==> field_ok(#[trigger] st.fields@[i].tracer, options),
        Tracer::Tuple(tt) => forall|i: int|
            0 <= i < tt.field_tracers@.len() ==> field_ok(#[trigger] tt.field_tracers@[i], options),
        Tracer::Mapping(m) => field_ok(*m.key_tracer, options) && field_ok(*m.value_tracer, options),
        Tracer::Union(u) => u.variants@.len() <= MAX_UNION_VARIANTS && forall|i: int|
            0 <= i < u.variants@.len() ==> (#[trigger] u.variants@[i] matches Some(v) ==> field_ok(
                v.tracer,
                options,
            )),
    }
}

proof fn lemma_tuple_field_not_ok(tt: TupleTracer, i: int, options: TracingOptions)
    requires
        0 <= i < tt.field_tracers@.len(),
        !field_ok(tt.field_tracers@[i], options),
    ensures
        !field_ok(Tracer::Tuple(tt), options),
{
    let t = Tracer::Tuple(tt);
    assert(t is Tuple);
    assert(t->Tuple_0 == tt);
    assert(field_ok(t, options) ==> field_ok(t->Tuple_0.field_tracers@[i], options));
}

/// Metadata that records a strategy, or none.
fn strategy_metadata(strategy: Option<Strategy>) -> (r: Vec<(String, String)>)
    ensures
        metadata_lookup(r@, STRATEGY_KEY@) == match strategy {
            Some(s) => Some(strategy_name(s)),
            None => None::<Seq<char>>,
        },
{
    let mut r: Vec<(String, String)> = Vec::new();
    match strategy {
        Some(s) => {
            r.push((STRATEGY_KEY.to_owned(), s.name().to_owned()));
            assert(r@.drop_first() =~= Seq::<(String, String)>::empty());
        },
        None => {},
    }
    r
}

/// The largest number of variants that 8-bit type ids can tell apart.
pub const MAX_UNION_VARIANTS: usize = 128;

impl Tracer {
    /// The field that the node stands for, with its children.
    pub fn to_field(&self, options: &TracingOptions) -> (r: Result<Field, Error>)
        ensures
            r is Ok ==> field_of(*self, r->Ok_0, *options),
            r is Ok <==> field_ok(*self, *options),
        decreases self,
    {
        let name = self.name().to_owned();
        let nullable = self.is_nullable();
        match self {
            Tracer::Unknown(t) => {
                if !options.allow_null_fields {
                    return Err(Error::at_path(
                        ErrorKind::Invalid,
                        "Unknown type: no value was observed for this column, and null fields are not allowed",
                        t.path.as_str(),
                    ));
                }
                Ok(Field { name, data_type: DataType::Null, nullable: true, metadata: Vec::new() })
            },
            Tracer::Primitive(p) => {
                let data_type = if p.item_type == PrimitiveType::LargeUtf8
                    && options.string_dictionary_encoding {
                    DataType::Dictionary(Box::new(DataType::UInt32), Box::new(DataType::LargeUtf8))
                } else {
                    p.item_type.data_type()
                };
                Ok(
                    Field {
                        name,
                        data_type,
                        nullable: nullable || p.item_type == PrimitiveType::Null,
                        metadata: strategy_metadata(p.strategy),
                    },
                )
            },
            Tracer::List(l) => {
                let item = match l.item_tracer.to_field(options) {
                    Ok(f) => f,
                    Err(e) => {
                        return Err(e);
                    },
                };
                Ok(
                    Field {
                        name,
                        data_type: DataType::LargeList(Box::new(item)),
                        nullable,
                        metadata: Vec::new(),
                    },
                )
            },
            Tracer::Struct(st) => {
                let mut children: Vec<Field> = Vec::new();
                let mut i: usize = 0;
                while i < st.fields.len()
                    invariant
                        i <= st.fields@.len(),
                        children@.len() == i,
                        forall|j: int|
                            0 <= j < i ==> field_of(
                                st.fields@[j].tracer,
                                #[trigger] children@[j],
                                *options,
                            ),
                        forall|j: int| 0 <= j < i ==> field_ok(#[trigger] st.fields@[j].tracer, *options),
                        decreases_to!(*self => st.fields),
                        !(*self is Unknown),
                        *self == Tracer::Struct(*st),
                    decreases st.fields.len() - i,
                {
                    proof {
                        assert(decreases_to!(st.fields => st.fields[i as int]));
                    }
                    let child = match st.fields[i].tracer.to_field(options) {
                        Ok(f) => f,
                        Err(e) => {
                            return Err(e);
                        },
                    };
                    children.push(child);
                    i = i + 1;
                }
                let strategy = if st.mode == StructMode::FromMap {
                    Some(Strategy::MapAsStruct)
                } else {
                    None
                };
                Ok(
                    Field {
                        name,
                        data_type: DataType::Struct(children),
                        nullable,
                        metadata: strategy_metadata(strategy),
                    },
                )
            },
            Tracer::Tuple(tt) => {
                let mut children: Vec<Field> = Vec::new();
                let mut i: usize = 0;
                while i < tt.field_tracers.len()
                    invariant
                        i <= tt.field_tracers@.len(),
                        children@.len() == i,
                        forall|j: int|
                            0 <= j < i ==> field_of(
                                tt.field_tracers@[j],
                                #[trigger] children@[j],
                                *options,
                            ),
                        forall|j: int| 0 <= j < i ==> field_ok(#[trigger] tt.field_tracers@[j], *options),
                        decreases_to!(*self => tt.field_tracers),
                        !(*self is Unknown),
                        *self == Tracer::Tuple(*tt),
                    decreases tt.field_tracers.len() - i,
                {
                    proof {
                        assert(decreases_to!(tt.field_tracers => tt.field_tracers[i as int]));
                    }
                    let child = match tt.field_tracers[i].to_field(options) {
                        Ok(f) => f,
                        Err(e) => {
                            proof {
                                lemma_tuple_field_not_ok(*tt, i as int, *options);
                            }
                            return Err(e);
                        },
                    };
                    children.push(child);
                    i = i + 1;
                }
                Ok(
                    Field {
                        name,
                        data_type: DataType::Struct(children),
                        nullable,
                        metadata: strategy_metadata(Some(Strategy::TupleAsStruct)),
                    },
                )
            },
            Tracer::Mapping(m) => {
                let key = match m.key_tracer.to_field(options) {
                    Ok(f) => f,
                    Err(e) => {
                        return Err(e);
                    },
                };
                let value = match m.value_tracer.to_field(options) {
                    Ok(f) => f,
                    Err(e) => {
                        return Err(e);
                    },
                };
                Ok(
                    Field {
                        name,
                        data_type: DataType::Mapping(Box::new(key), Box::new(value)),
                        nullable,
                        metadata: Vec::new(),
                    },
                )
            },
            Tracer::Union(u) => {
                if u.variants.len() > MAX_UNION_VARIANTS {
                    return Err(Error::at_path(
                        ErrorKind::OutOfRange,
                        "Too many enum variants for a dense union",
                        u.path.as_str(),
                    ));
                }
                let mut children: Vec<(i8, Field)> = Vec::new();
                let mut i: usize = 0;
                while i < u.variants.len()
                    invariant
                        i <= u.variants@.len() <= MAX_UNION_VARIANTS,
                        children@.len() == i,
                        forall|j: int|
                            0 <= j < i ==> (#[trigger] children@[j]).0 == j && (u.variants@[j] matches Some(
                                v,
                            ) ==> field_of(v.tracer, children@[j].1, *options)),
                        forall|j: int|
                            0 <= j < i ==> (#[trigger] u.variants@[j] matches Some(v) ==> field_ok(
                                v.tracer,
                                *options,
                            )),
                        decreases_to!(*self => u.variants),
                        !(*self is Unknown),
                        *self == Tracer::Union(*u),
                    decreases u.variants.len() - i,
                {
                    proof {
                        assert(decreases_to!(u.variants => u.variants[i as int]));
                    }
                    let child = match &u.variants[i] {
                        Some(v) => match v.tracer.to_field(options) {
                            Ok(f) => f,
                            Err(e) => {
                                return Err(e);
                            },
                        },
                        None => Field {
                            name: String::new(),
                            data_type: DataType::Null,
                            nullable: true,
                            metadata: Vec::new(),
                        },
                    };
                    children.push((i as i8, child));
                    i = i + 1;
                }
                Ok(
                    Field {
                        name,
                        data_type: DataType::DenseUnion(children),
                        nullable,
                        metadata: Vec::new(),
                    },
                )
            },
        }
    }

    /// Traces every sample from a fresh root named `$`.
    pub fn from_samples(samples: &Vec<Sample>, options: &TracingOptions) -> (r: Result<
        Tracer,
        Error,
    >)
        ensures
            r is Ok ==> r->Ok_0.spec_name() == "$"@ && r->Ok_0.spec_path() == "$"@,
            all_leaf_samples(samples@, options.guess_dates) ==> (r is Ok <==> leaf_fold(
                samples@,
                samples@.len(),
                options.guess_dates,
            ) is Some),
            all_leaf_samples(samples@, options.guess_dates) && r is Ok ==> leaf_view(r->Ok_0)
                == leaf_fold(samples@, samples@.len(), options.guess_dates),
            all_leaf_sequences(samples@, options.guess_dates) && samples@.len() > 0 ==> (r is Ok
                <==> seq_fold(samples@, samples@.len(), options.guess_dates) is Some),
            all_leaf_sequences(samples@, options.guess_dates) && samples@.len() > 0 && r is Ok ==> (
            r->Ok_0 is List && !r->Ok_0.spec_nullable() && list_start(r->Ok_0) == seq_fold(
                samples@,
                samples@.len(),
                options.guess_dates,
            )),
    {
        let mut tracer = Tracer::new("$".to_owned(), "$".to_owned());
        let mut i: usize = 0;
        while i < samples.len()
            invariant
                i <= samples@.len(),
                tracer.spec_name() == "$"@,
                tracer.spec_path() == "$"@,
                all_leaf_samples(samples@, options.guess_dates) ==> leaf_fold(
                    samples@,
                    i as nat,
                    options.guess_dates,
                ) is Some && leaf_view(tracer) == leaf_fold(samples@, i as nat, options.guess_dates),
                all_leaf_sequences(samples@, options.guess_dates) ==> seq_fold(
                    samples@,
                    i as nat,
                    options.guess_dates,
                ) is Some && list_start(tracer) == seq_fold(samples@, i as nat, options.guess_dates)
                    && !tracer.spec_nullable() && (i > 0 ==> tracer is List) && (i == 0 ==> tracer is Unknown),
            decreases samples.len() - i,
        {
            proof {
                if all_leaf_sequences(samples@, options.guess_dates) {
                    assert(is_leaf_sequence(samples@[i as int], options.guess_dates));
                }
            }
            match tracer.trace(&samples[i], options) {
                Ok(()) => {},
                Err(e) => {
                    proof {
                        if all_leaf_samples(samples@, options.guess_dates) {
                            lemma_leaf_fold_stays_none(samples@, (i + 1) as nat, options.guess_dates);
                        }
                        if all_leaf_sequences(samples@, options.guess_dates) {
                            lemma_seq_fold_stays_none(samples@, (i + 1) as nat, options.guess_dates);
                        }
                    }
                    return Err(e);
                },
            }
            i = i + 1;
        }
        Ok(tracer)
    }
}

/// Every sample is a sequence of leaf samples.
pub open spec fn all_leaf_sequences(samples: Seq<Sample>, guess_dates: bool) -> bool {
    forall|i: int| 0 <= i < samples.len() ==> is_leaf_sequence(#[trigger] samples[i], guess_dates)
}

/// Every sample is a leaf sample.
pub open spec fn all_leaf_samples(samples: Seq<Sample>, guess_dates: bool) -> bool {
    forall|i: int| 0 <= i < samples.len() ==> is_leaf_sample(#[trigger] samples[i], guess_dates)
}

/// Once a fold of leaf samples has failed, longer ones fail too.
proof fn lemma_leaf_fold_stays_none(samples: Seq<Sample>, n: nat, guess_dates: bool)
    requires
        n <= samples.len(),
        leaf_fold(samples, n, guess_dates) is None,
    ensures
        leaf_fold(samples, samples.len(), guess_dates) is None,
    decreases samples.len() - n,
{
    if n < samples.len() {
        lemma_leaf_fold_stays_none(samples, n + 1, guess_dates);
    }
}

/// The field of a root that saw only leaf samples: named `$`, nullable
/// where it saw a null or nothing, of its leaf type (`Null` if it saw no
/// value; a dictionary for strings when asked), with its strategy.
pub open spec fn leaf_field(
    v: (bool, PrimitiveType, Option<Strategy>, bool),
    f: Field,
    options: TracingOptions,
) -> bool {
    &&& f.name@ == "$"@
    &&& leaf_field_type(v, f, options)
}

/// The nullability, type and strategy of the field of a leaf-like node.
pub open spec fn leaf_field_type(
    v: (bool, PrimitiveType, Option<Strategy>, bool),
    f: Field,
    options: TracingOptions,
) -> bool {
    &&& f.nullable == (v.3 || !v.0 || v.1 == PrimitiveType::Null)
    &&& f.data_type == if !v.0 {
        DataType::Null
    } else if v.1 == PrimitiveType::LargeUtf8 && options.string_dictionary_encoding {
        DataType::Dictionary(Box::new(DataType::UInt32), Box::new(DataType::LargeUtf8))
    } else {
        v.1.spec_data_type()
    }
    &&& metadata_lookup(f.metadata@, STRATEGY_KEY@) == if v.0 {
        match v.2 {
            Some(s) => Some(strategy_name(s)),
            None => None::<Seq<char>>,
        }
    } else {
        None::<Seq<char>>
    }
}

/// The schema field that the samples imply: trace them all, then turn the
/// root into a field named `$`.
pub fn schema_from_samples(samples: &Vec<Sample>, options: &TracingOptions) -> (r: Result<
    Field,
    Error,
>)
    ensures
        r is Ok ==> r->Ok_0.name@ == "$"@ && exists|t: Tracer|
            t.spec_name() == "$"@ && #[trigger] field_of(t, r->Ok_0, *options),
        all_leaf_samples(samples@, options.guess_dates) ==> (r is Ok <==> (leaf_fold(
            samples@,
            samples@.len(),
            options.guess_dates,
        ) matches Some(v) && (v.0 || options.allow_null_fields))),
        all_leaf_samples(samples@, options.guess_dates) && r is Ok ==> leaf_field(
            leaf_fold(samples@, samples@.len(), options.guess_dates)->0,
            r->Ok_0,
            *options,
        ),
        all_leaf_sequences(samples@, options.guess_dates) && samples@.len() > 0 ==> (r is Ok <==> (
        seq_fold(samples@, samples@.len(), options.guess_dates) matches Some(v) && (v.0
            || options.allow_null_fields))),
        all_leaf_sequences(samples@, options.guess_dates) && samples@.len() > 0 && r is Ok ==> (
        r->Ok_0.name@ == "$"@ && !r->Ok_0.nullable && (r->Ok_0.data_type matches DataType::LargeList(
            item,
        ) && leaf_field_type(
            seq_fold(samples@, samples@.len(), options.guess_dates)->0,
            *item,
            *options,
        ))),
{
    match Tracer::from_samples(samples, options) {
        Ok(t) => {
            let r = t.to_field(options);
            proof {
                if r is Ok {
                    assert(field_of(t, r->Ok_0, *options));
                }
                if all_leaf_sequences(samples@, options.guess_dates) && samples@.len() > 0 {
                    assert(t is List);
                    let it = *t->List_0.item_tracer;
                    assert(leaf_view(it) is Some);
                    assert(field_ok(t, *options) == field_ok(it, *options));
                    if r is Ok {
                        assert(data_type_fits(t, r->Ok_0.data_type, *options));
                        let item = r->Ok_0.data_type->LargeList_0;
                        assert(field_of(it, *item, *options));
                    }
                }
            }
            r
        },
        Err(e) => Err(e),
    }
}

} // verus!
