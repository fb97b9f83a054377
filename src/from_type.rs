use vstd::prelude::*;

use crate::error::{Error, ErrorKind};
use crate::tracer::{trace_keeps, PrimitiveType, StructMode, Tracer, TracingOptions};

verus! {

/// A self-description of a record type: what a type's generic description
/// protocol reports of each branch. `Named` refers to an entry of a table
/// of types, which is how a type can mention itself.
#[derive(Debug)]
pub enum TypeDesc {
    /// A type that describes itself only through values; tracing learns
    /// nothing from it.
    Any,
    Unit,
    Bool,
    Char,
    I8,
    I16,
    I32,
    I64,
    U8,
    U16,
    U32,
    U64,
    F32,
    F64,
    Str,
    Bytes,
    Optional(Box<TypeDesc>),
    List(Box<TypeDesc>),
    Tuple(Vec<TypeDesc>),
    Struct(Vec<(String, TypeDesc)>),
    Entries(Box<TypeDesc>, Box<TypeDesc>),
    /// The variants of an enum, by index: name and content.
    Enum(Vec<(String, TypeDesc)>),
    Named(usize),
}

/// Whether every branch of the description ends within `budget` levels
/// (a reference to a missing type counts as an end: it fails otherwise).
pub open spec fn fits_budget(desc: TypeDesc, types: Seq<TypeDesc>, budget: nat) -> bool
    decreases budget,
{
    if budget == 0 {
        false
    } else {
        let b = (budget - 1) as nat;
        match desc {
            TypeDesc::Optional(inner) => fits_budget(*inner, types, b),
            TypeDesc::Named(k) => k >= types.len() || fits_budget(types[k as int], types, b),
            TypeDesc::List(item) => fits_budget(*item, types, b),
            TypeDesc::Entries(k, v) => fits_budget(*k, types, b) && fits_budget(*v, types, b),
            TypeDesc::Tuple(items) => forall|i: int|
                0 <= i < items@.len() ==> fits_budget(#[trigger] items@[i], types, b),
            TypeDesc::Struct(members) => forall|i: int|
                0 <= i < members@.len() ==> fits_budget((#[trigger] members@[i]).1, types, b),
            TypeDesc::Enum(variants) => forall|i: int|
                0 <= i < variants@.len() ==> fits_budget((#[trigger] variants@[i]).1, types, b),
            _ => true,
        }
    }
}

/// A struct whose first member is an optional reference to the struct
/// itself never fits any budget: tracing it always fails.
pub proof fn lemma_self_reference_never_fits(types: Seq<TypeDesc>, budget: nat)
    requires
        types.len() > 0,
        types[0] matches TypeDesc::Struct(members) && members@.len() > 0 && (members@[0].1 matches TypeDesc::Optional(
            inner,
        ) && *inner == TypeDesc::Named(0)),
    ensures
        !fits_budget(types[0], types, budget),
    decreases budget,
{
    if budget > 0 {
        let members = types[0]->Struct_0;
        let first = members@[0].1;
        assert(fits_budget(types[0], types, budget) ==> fits_budget(
            first,
            types,
            (budget - 1) as nat,
        ));
        let inner = first->Optional_0;
        if budget >= 2 {
            assert(fits_budget(first, types, (budget - 1) as nat) == fits_budget(
                *inner,
                types,
                (budget - 2) as nat,
            ));
            if budget >= 3 {
                lemma_self_reference_never_fits(types, (budget - 3) as nat);
                assert(fits_budget(*inner, types, (budget - 2) as nat) == fits_budget(
                    types[0],
                    types,
                    (budget - 3) as nat,
                ));
            }
        }
    }
}

/// The message of a description nested deeper than the budget allows.
pub open spec fn too_deep_message() -> Seq<char> {
    "Too deeply nested type detected"@
}

fn leaf_of(desc: &TypeDesc) -> (r: Option<PrimitiveType>)
    ensures
        r is Some ==> !(*desc is Optional || *desc is Named || *desc is List || *desc is Entries
            || *desc is Tuple || *desc is Struct || *desc is Enum),
{
    match desc {
        TypeDesc::Unit => Some(PrimitiveType::Null),
        TypeDesc::Bool => Some(PrimitiveType::Boolean),
        TypeDesc::Char => Some(PrimitiveType::UInt32),
        TypeDesc::I8 => Some(PrimitiveType::Int8),
        TypeDesc::I16 => Some(PrimitiveType::Int16),
        TypeDesc::I32 => Some(PrimitiveType::Int32),
        TypeDesc::I64 => Some(PrimitiveType::Int64),
        TypeDesc::U8 => Some(PrimitiveType::UInt8),
        TypeDesc::U16 => Some(PrimitiveType::UInt16),
        TypeDesc::U32 => Some(PrimitiveType::UInt32),
        TypeDesc::U64 => Some(PrimitiveType::UInt64),
        TypeDesc::F32 => Some(PrimitiveType::Float32),
        TypeDesc::F64 => Some(PrimitiveType::Float64),
        TypeDesc::Str => Some(PrimitiveType::LargeUtf8),
        TypeDesc::Bytes => Some(PrimitiveType::LargeBinary),
        _ => None,
    }
}

impl Tracer {
    /// Refines the node by every branch of a type description, following at
    /// most `budget` levels of nesting.
    pub fn trace_type(&mut self, desc: &TypeDesc, types: &Vec<TypeDesc>, budget: usize) -> (r:
        Result<(), Error>)
        ensures
            trace_keeps(*old(self), *final(self)),
            budget == 0 ==> r is Err && r->Err_0.kind == ErrorKind::Unsupported
                && r->Err_0.message@ == too_deep_message() && r->Err_0.annotations@.len() == 1
                && r->Err_0.annotations@[0].1@ == old(self).spec_path(),
            !fits_budget(*desc, types@, budget as nat) ==> r is Err,
        decreases budget,
    {
        if budget == 0 {
            return Err(Error::at_path(
                ErrorKind::Unsupported,
                "Too deeply nested type detected",
                self.path(),
            ));
        }
        let inner_budget = budget - 1;
        match leaf_of(desc) {
            Some(t) => {
                return self.ensure_leaf(t, None);
            },
            None => {},
        }
        match desc {
            TypeDesc::Optional(inner) => {
                self.mark_nullable();
                self.trace_type(inner, types, inner_budget)
            },
            TypeDesc::Named(k) => {
                if *k >= types.len() {
                    return Err(Error::at_path(
                        ErrorKind::Invalid,
                        "Type description refers to an unknown type",
                        self.path(),
                    ));
                }
                self.trace_type(&types[*k], types, inner_budget)
            },
            TypeDesc::List(item) => {
                match self.ensure_list() {
                    Ok(()) => {},
                    Err(e) => {
                        return Err(e);
                    },
                }
                match self {
                    Tracer::List(l) => l.item_tracer.trace_type(item, types, inner_budget),
                    _ => Ok(()),
                }
            },
            TypeDesc::Entries(key, value) => {
                match self.ensure_map() {
                    Ok(()) => {},
                    Err(e) => {
                        return Err(e);
                    },
                }
                match self {
                    Tracer::Mapping(m) => match m.key_tracer.trace_type(key, types, inner_budget) {
                        Ok(()) => m.value_tracer.trace_type(value, types, inner_budget),
                        Err(e) => Err(e),
                    },
                    _ => Ok(()),
                }
            },
            TypeDesc::Tuple(items) => {
                match self.ensure_tuple(items.len()) {
                    Ok(()) => {},
                    Err(e) => {
                        return Err(e);
                    },
                }
                match self {
                    Tracer::Tuple(t) => {
                        let mut failure: Option<Error> = None;
                        let mut i: usize = 0;
                        while i < items.len() && failure.is_none()
                            invariant
                                i <= items@.len(),
                                t.field_tracers@.len() == items@.len(),
                                failure is None ==> forall|j: int|
                                    0 <= j < i ==> fits_budget(
                                        #[trigger] items@[j],
                                        types@,
                                        inner_budget as nat,
                                    ),
                                t.name@ == old(self).spec_name(),
                                t.path@ == old(self).spec_path(),
                                old(self).spec_nullable() ==> t.nullable,
                                inner_budget < budget,
                                inner_budget == budget - 1,
                            decreases items.len() - i,
                        {
                            let child = &mut t.field_tracers[i];
                            match child.trace_type(&items[i], types, inner_budget) {
                                Ok(()) => {},
                                Err(e) => {
                                    failure = Some(e);
                                },
                            }
                            i = i + 1;
                        }
                        match failure {
                            Some(e) => Err(e),
                            None => Ok(()),
                        }
                    },
                    _ => Ok(()),
                }
            },
            TypeDesc::Struct(members) => {
                match self.ensure_struct(StructMode::Struct) {
                    Ok(()) => {},
                    Err(e) => {
                        return Err(e);
                    },
                }
                match self {
                    Tracer::Struct(st) => {
                        let mut failure: Option<Error> = None;
                        let mut i: usize = 0;
                        while i < members.len() && failure.is_none()
                            invariant
                                i <= members@.len(),
                                failure is None ==> forall|j: int|
                                    0 <= j < i ==> fits_budget(
                                        (#[trigger] members@[j]).1,
                                        types@,
                                        inner_budget as nat,
                                    ),
                                st.name@ == old(self).spec_name(),
                                st.path@ == old(self).spec_path(),
                                old(self).spec_nullable() ==> st.nullable,
                                inner_budget < budget,
                                inner_budget == budget - 1,
                            decreases members.len() - i,
                        {
                            let idx = st.ensure_field(members[i].0.as_str());
                            let child = &mut st.fields[idx].tracer;
                            match child.trace_type(&members[i].1, types, inner_budget) {
                                Ok(()) => {},
                                Err(e) => {
                                    failure = Some(e);
                                },
                            }
                            i = i + 1;
                        }
                        match failure {
                            Some(e) => Err(e),
                            None => {
                                st.end();
                                Ok(())
                            },
                        }
                    },
                    _ => Ok(()),
                }
            },
            TypeDesc::Enum(variants) => {
                match self.ensure_union() {
                    Ok(()) => {},
                    Err(e) => {
                        return Err(e);
                    },
                }
                match self {
                    Tracer::Union(u) => {
                        let mut failure: Option<Error> = None;
                        let mut i: usize = 0;
                        while i < variants.len() && failure.is_none()
                            invariant
                                i <= variants@.len(),
                                failure is None ==> forall|j: int|
                                    0 <= j < i ==> fits_budget(
                                        (#[trigger] variants@[j]).1,
                                        types@,
                                        inner_budget as nat,
                                    ),
                                u.name@ == old(self).spec_name(),
                                u.path@ == old(self).spec_path(),
                                old(self).spec_nullable() ==> u.nullable,
                                inner_budget < budget,
                                inner_budget == budget - 1,
                            decreases variants.len() - i,
                        {
                            match u.ensure_variant(variants[i].0.as_str(), i) {
                                Ok(()) => {
                                    match &mut u.variants[i] {
                                        Some(v) => {
                                            match v.tracer.trace_type(
                                                &variants[i].1,
                                                types,
                                                inner_budget,
                                            ) {
                                                Ok(()) => {},
                                                Err(e) => {
                                                    failure = Some(e);
                                                },
                                            }
                                        },
                                        None => {},
                                    }
                                },
                                Err(e) => {
                                    failure = Some(e);
                                },
                            }
                            i = i + 1;
                        }
                        match failure {
                            Some(e) => Err(e),
                            None => Ok(()),
                        }
                    },
                    _ => Ok(()),
                }
            },
            _ => Ok(()),
        }
    }

    /// Traces the type `types[root]` from a fresh root named `$`.
    pub fn from_type(root: usize, types: &Vec<TypeDesc>, options: &TracingOptions) -> (r: Result<
        Tracer,
        Error,
    >)
        ensures
            r is Ok ==> r->Ok_0.spec_name() == "$"@ && r->Ok_0.spec_path() == "$"@,
            root >= types@.len() ==> r is Err,
            root < types@.len() && !fits_budget(types@[root as int], types@, options.from_type_budget as nat)
                ==> r is Err,
            root < types@.len() && options.from_type_budget == 0 ==> r is Err
                && r->Err_0.message@ == too_deep_message(),
    {
        if root >= types.len() {
            return Err(Error::new(ErrorKind::Invalid, "Type description refers to an unknown type"));
        }
        let mut tracer = Tracer::new("$".to_owned(), "$".to_owned());
        match tracer.trace_type(&types[root], types, options.from_type_budget) {
            Ok(()) => Ok(tracer),
            Err(e) => Err(e),
        }
    }
}

} // verus!
