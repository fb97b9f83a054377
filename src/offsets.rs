use vstd::prelude::*;

use crate::error::{Error, ErrorKind};

verus! {

/// An integer type that Arrow uses for list and binary offsets.
pub trait Offset: Sized + Copy {
    /// The offset as a mathematical integer.
    spec fn as_int(&self) -> int;

    /// The largest value of the type.
    spec fn max_int() -> int;

    fn zero() -> (r: Self)
        ensures
            r.as_int() == 0,
    ;

    /// Converts a count; fails where the type cannot hold it.
    fn try_from_usize(n: usize) -> (r: Result<Self, Error>)
        ensures
            r is Ok <==> n <= Self::max_int(),
            r is Ok ==> r->Ok_0.as_int() == n,
            r is Err ==> r->Err_0.kind == ErrorKind::OutOfRange,
    ;

    /// Adds a non-negative amount; fails where the sum does not fit.
    fn checked_add_offset(self, other: Self) -> (r: Result<Self, Error>)
        requires
            other.as_int() >= 0,
        ensures
            r is Ok <==> self.as_int() + other.as_int() <= Self::max_int(),
            r is Ok ==> r->Ok_0.as_int() == self.as_int() + other.as_int(),
            r is Err ==> r->Err_0.kind == ErrorKind::OutOfRange,
    ;

    /// Converts to an index; fails on a negative offset.
    fn try_into_usize(self) -> (r: Result<usize, Error>)
        ensures
            r is Ok <==> 0 <= self.as_int() <= usize::MAX,
            r is Ok ==> r->Ok_0 == self.as_int(),
            r is Err ==> r->Err_0.kind == ErrorKind::OutOfRange,
    ;
}

impl Offset for i32 {
    open spec fn as_int(&self) -> int {
        *self as int
    }

    open spec fn max_int() -> int {
        i32::MAX as int
    }

    fn zero() -> (r: i32) {
        0
    }

    fn try_from_usize(n: usize) -> (r: Result<i32, Error>) {
        if n <= i32::MAX as usize {
            Ok(n as i32)
        } else {
            Err(Error::new(ErrorKind::OutOfRange, "count does not fit an i32 offset"))
        }
    }

    fn checked_add_offset(self, other: i32) -> (r: Result<i32, Error>) {
        match self.checked_add(other) {
            Some(v) => Ok(v),
            None => Err(Error::new(ErrorKind::OutOfRange, "i32 offset overflow")),
        }
    }

    fn try_into_usize(self) -> (r: Result<usize, Error>) {
        if self >= 0 && (self as i64) as u64 <= usize::MAX as u64 {
            Ok(self as usize)
        } else {
            Err(Error::new(ErrorKind::OutOfRange, "negative offset"))
        }
    }
}

impl Offset for i64 {
    open spec fn as_int(&self) -> int {
        *self as int
    }

    open spec fn max_int() -> int {
        i64::MAX as int
    }

    fn zero() -> (r: i64) {
        0
    }

    fn try_from_usize(n: usize) -> (r: Result<i64, Error>) {
        if n as u64 <= i64::MAX as u64 {
            Ok(n as i64)
        } else {
            Err(Error::new(ErrorKind::OutOfRange, "count does not fit an i64 offset"))
        }
    }

    fn checked_add_offset(self, other: i64) -> (r: Result<i64, Error>) {
        match self.checked_add(other) {
            Some(v) => Ok(v),
            None => Err(Error::new(ErrorKind::OutOfRange, "i64 offset overflow")),
        }
    }

    fn try_into_usize(self) -> (r: Result<usize, Error>) {
        if self >= 0 && self as u64 <= usize::MAX as u64 {
            Ok(self as usize)
        } else {
            Err(Error::new(ErrorKind::OutOfRange, "offset does not fit an index"))
        }
    }
}

/// The offsets as mathematical integers.
pub open spec fn offsets_int<O: Offset>(offsets: Seq<O>) -> Seq<int> {
    offsets.map_values(|o: O| o.as_int())
}

/// Non-decreasing from zero: each row spans `offsets[i]..offsets[i + 1]`.
pub open spec fn offsets_monotone(offsets: Seq<int>) -> bool {
    &&& offsets.len() >= 1
    &&& offsets[0] == 0
    &&& forall|i: int| 0 <= i < offsets.len() - 1 ==> #[trigger] offsets[i] <= offsets[i + 1]
}

/// In monotone offsets, a later offset is never smaller than an earlier one.
pub proof fn lemma_offsets_ordered(offsets: Seq<int>, i: int, j: int)
    requires
        offsets_monotone(offsets),
        0 <= i <= j < offsets.len(),
    ensures
        0 <= offsets[i] <= offsets[j],
    decreases j,
{
    if j > i {
        lemma_offsets_ordered(offsets, i, j - 1);
        assert(offsets[j - 1] <= offsets[j]);
    } else if i > 0 {
        lemma_offsets_ordered(offsets, i - 1, i - 1);
        assert(offsets[i - 1] <= offsets[i]);
    }
}

/// A growing offset buffer: `offsets` closes each pushed row, and
/// `current_items` counts the child values written so far.
#[derive(Debug, Clone)]
pub struct MutableOffsetBuffer<O> {
    pub offsets: Vec<O>,
    pub current_items: O,
}

impl<O: Offset> MutableOffsetBuffer<O> {
    /// The offsets as integers.
    pub open spec fn spec_offsets(&self) -> Seq<int> {
        offsets_int(self.offsets@)
    }

    /// Offsets start at zero, never decrease, and never pass the count of
    /// child values.
    pub open spec fn wf(&self) -> bool {
        &&& offsets_monotone(self.spec_offsets())
        &&& self.spec_offsets().last() <= self.current_items.as_int()
        &&& 0 <= self.current_items.as_int()
    }

    /// An empty buffer: one offset, zero.
    pub fn new() -> (r: Self)
        ensures
            r.wf(),
            r.spec_offsets() == seq![0int],
            r.current_items.as_int() == 0,
    {
        let mut offsets: Vec<O> = Vec::new();
        offsets.push(O::zero());
        let r = MutableOffsetBuffer { offsets, current_items: O::zero() };
        assert(r.spec_offsets() =~= seq![0int]);
        r
    }

    /// The number of rows pushed (one less than the number of offsets).
    pub fn len(&self) -> (r: usize)
        requires
            self.wf(),
        ensures
            r == self.spec_offsets().len() - 1,
    {
        self.offsets.len() - 1
    }

    /// Closes a row that holds `num_children` further child values.
    pub fn push(&mut self, num_children: usize) -> (r: Result<(), Error>)
        requires
            old(self).wf(),
        ensures
            final(self).wf(),
            r is Ok <==> old(self).current_items.as_int() + num_children <= O::max_int(),
            r is Ok ==> final(self).current_items.as_int() == old(self).current_items.as_int()
                + num_children,
            r is Ok ==> final(self).spec_offsets() == old(self).spec_offsets().push(
                final(self).current_items.as_int(),
            ),
            r is Err ==> *final(self) == *old(self) && r->Err_0.kind == ErrorKind::OutOfRange,
    {
        let n = match O::try_from_usize(num_children) {
            Ok(n) => n,
            Err(e) => {
                return Err(e);
            },
        };
        let next = match self.current_items.checked_add_offset(n) {
            Ok(v) => v,
            Err(e) => {
                return Err(e);
            },
        };
        self.current_items = next;
        self.offsets.push(next);
        assert(self.spec_offsets() =~= old(self).spec_offsets().push(next.as_int()));
        Ok(())
    }

    /// Closes a row that ends at the current count of child values.
    pub fn push_current_items(&mut self)
        requires
            old(self).wf(),
        ensures
            final(self).wf(),
            final(self).current_items == old(self).current_items,
            final(self).spec_offsets() == old(self).spec_offsets().push(
                old(self).current_items.as_int(),
            ),
    {
        let c = self.current_items;
        self.offsets.push(c);
        assert(self.spec_offsets() =~= old(self).spec_offsets().push(c.as_int()));
    }

    /// Counts one more child value of the open row.
    pub fn inc_current_items(&mut self) -> (r: Result<(), Error>)
        requires
            old(self).wf(),
        ensures
            final(self).wf(),
            final(self).offsets == old(self).offsets,
            r is Ok <==> old(self).current_items.as_int() + 1 <= O::max_int(),
            r is Ok ==> final(self).current_items.as_int() == old(self).current_items.as_int()
                + 1,
            r is Err ==> *final(self) == *old(self) && r->Err_0.kind == ErrorKind::OutOfRange,
    {
        let one = match O::try_from_usize(1) {
            Ok(n) => n,
            Err(e) => {
                return Err(e);
            },
        };
        match self.current_items.checked_add_offset(one) {
            Ok(v) => {
                self.current_items = v;
                Ok(())
            },
            Err(e) => Err(e),
        }
    }

    /// Back to the empty buffer.
    pub fn clear(&mut self)
        ensures
            final(self).wf(),
            final(self).spec_offsets() == seq![0int],
            final(self).current_items.as_int() == 0,
    {
        *self = Self::new();
    }
}

impl<O: Offset> Default for MutableOffsetBuffer<O> {
    /// An empty buffer: one offset, zero.
    fn default() -> (r: Self)
        ensures
            r.wf(),
            r.spec_offsets() == seq![0int],
            r.current_items.as_int() == 0,
    {
        Self::new()
    }
}

} // verus!
