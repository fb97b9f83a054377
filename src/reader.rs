use vstd::prelude::*;

use crate::bit_buffer::bit_at;
use crate::error::{Error, ErrorKind};
use crate::offsets::{offsets_int, Offset};

verus! {

/// A borrowed validity bitmap whose first row sits at bit `offset` (a
/// sliced array starts mid-byte).
#[derive(Debug, Clone, Copy)]
pub struct BitsWithOffset<'a> {
    pub offset: usize,
    pub data: &'a [u8],
}

/// Row `i` of the bitmap lies inside its bytes.
pub open spec fn bit_readable(bits: BitsWithOffset, i: int) -> bool {
    &&& 0 <= i
    &&& bits.offset + i <= usize::MAX
    &&& (bits.offset + i) / 8 < bits.data@.len()
}

/// Whether row `i` is marked valid.
pub open spec fn bit_value(bits: BitsWithOffset, i: int) -> bool {
    bit_at(bits.data@, bits.offset + i)
}

/// Row `i` can be read: there is no bitmap, or the bit lies inside it.
pub open spec fn validity_readable(validity: Option<BitsWithOffset>, i: int) -> bool {
    match validity {
        Some(bits) => bit_readable(bits, i),
        None => true,
    }
}

/// Row `i` holds a value: there is no bitmap, or its bit is set.
pub open spec fn row_valid(validity: Option<BitsWithOffset>, i: int) -> bool {
    match validity {
        Some(bits) => bit_value(bits, i),
        None => true,
    }
}

/// Reads the validity bit of row `idx`; fails where the bitmap is too short.
pub fn bitset_is_set(set: &BitsWithOffset, idx: usize) -> (r: Result<bool, Error>)
    ensures
        r is Ok <==> bit_readable(*set, idx as int),
        r is Ok ==> r->Ok_0 == bit_value(*set, idx as int),
        r is Err ==> r->Err_0.kind == ErrorKind::OutOfRange,
{
    let pos = match set.offset.checked_add(idx) {
        Some(p) => p,
        None => {
            return Err(Error::new(ErrorKind::OutOfRange, "bit index overflows"));
        },
    };
    let byte: usize = pos / 8;
    if byte >= set.data.len() {
        return Err(Error::new(ErrorKind::OutOfRange, "bit index out of bounds of the bitmap"));
    }
    let k: u8 = (pos % 8) as u8;
    Ok(set.data[byte] & (1u8 << k) != 0)
}

/// The value in slot `i`: absent where the row is null.
pub open spec fn slot_value<T>(
    buffer: Seq<T>,
    validity: Option<BitsWithOffset>,
    i: int,
) -> Option<T> {
    if row_valid(validity, i) {
        Some(buffer[i])
    } else {
        None
    }
}

/// A cursor over a values buffer and its optional validity bitmap.
#[derive(Debug)]
pub struct ArrayBufferIterator<'a, T: Copy> {
    pub buffer: &'a [T],
    pub validity: Option<BitsWithOffset<'a>>,
    pub next: usize,
}

impl<'a, T: Copy> ArrayBufferIterator<'a, T> {
    pub fn new(buffer: &'a [T], validity: Option<BitsWithOffset<'a>>) -> (r: Self)
        ensures
            r.buffer@ == buffer@,
            r.validity == validity,
            r.next == 0,
    {
        ArrayBufferIterator { buffer, validity, next: 0 }
    }

    /// Reads the slot under the cursor and advances past it, null or not.
    pub fn next(&mut self) -> (r: Result<Option<T>, Error>)
        ensures
            final(self).buffer == old(self).buffer,
            final(self).validity == old(self).validity,
            old(self).next >= old(self).buffer@.len() ==> r is Err && r->Err_0.kind
                == ErrorKind::Exhausted && r->Err_0.message@ == "Exhausted deserializer"@,
            r is Ok <==> old(self).next < old(self).buffer@.len() && validity_readable(
                old(self).validity,
                old(self).next as int,
            ),
            r is Ok ==> r->Ok_0 == slot_value(
                old(self).buffer@,
                old(self).validity,
                old(self).next as int,
            ) && final(self).next == old(self).next + 1,
            r is Err ==> final(self).next == old(self).next,
    {
        if self.next >= self.buffer.len() {
            return Err(Error::new(ErrorKind::Exhausted, "Exhausted deserializer"));
        }
        let pos = self.next;
        let valid = match &self.validity {
            Some(validity) => match bitset_is_set(validity, pos) {
                Ok(b) => b,
                Err(e) => {
                    return Err(e);
                },
            },
            None => true,
        };
        self.next = pos + 1;
        if valid {
            Ok(Some(self.buffer[pos]))
        } else {
            Ok(None)
        }
    }

    /// Reads a slot that must hold a value.
    pub fn next_required(&mut self) -> (r: Result<T, Error>)
        ensures
            final(self).buffer == old(self).buffer,
            final(self).validity == old(self).validity,
            old(self).next >= old(self).buffer@.len() ==> r is Err && r->Err_0.kind
                == ErrorKind::Exhausted && r->Err_0.message@ == "Exhausted deserializer"@,
            r is Ok <==> old(self).next < old(self).buffer@.len() && validity_readable(
                old(self).validity,
                old(self).next as int,
            ) && row_valid(old(self).validity, old(self).next as int),
            r is Ok ==> r->Ok_0 == old(self).buffer@[old(self).next as int] && final(self).next
                == old(self).next + 1,
    {
        match self.next() {
            Ok(Some(v)) => Ok(v),
            Ok(None) => Err(Error::new(ErrorKind::Invalid, "missing value: the slot is null")),
            Err(e) => Err(e),
        }
    }

    /// Whether the slot under the cursor holds a value, without moving.
    pub fn peek_next(&self) -> (r: Result<bool, Error>)
        ensures
            self.next >= self.buffer@.len() ==> r is Err && r->Err_0.kind == ErrorKind::Exhausted
                && r->Err_0.message@ == "Exhausted deserializer"@,
            r is Ok <==> self.next < self.buffer@.len() && validity_readable(
                self.validity,
                self.next as int,
            ),
            r is Ok ==> r->Ok_0 == row_valid(self.validity, self.next as int),
    {
        if self.next >= self.buffer.len() {
            return Err(Error::new(ErrorKind::Exhausted, "Exhausted deserializer"));
        }
        match &self.validity {
            Some(validity) => bitset_is_set(validity, self.next),
            None => Ok(true),
        }
    }

    /// Skips the slot under the cursor.
    pub fn consume_next(&mut self)
        requires
            old(self).next < usize::MAX,
        ensures
            final(self).buffer == old(self).buffer,
            final(self).validity == old(self).validity,
            final(self).next == old(self).next + 1,
    {
        self.next = self.next + 1;
    }
}

/// Every offset can be used as an index.
pub open spec fn offsets_usable(offsets: Seq<int>) -> bool {
    forall|i: int| 0 <= i < offsets.len() ==> 0 <= #[trigger] offsets[i] <= usize::MAX
}

/// The layout that reading supports: at least one offset, every offset
/// usable as an index, non-decreasing, and each null row an empty segment.
pub open spec fn list_layout_supported(
    validity: Option<BitsWithOffset>,
    offsets: Seq<int>,
) -> bool {
    &&& offsets.len() >= 1
    &&& forall|i: int|
        0 <= i < offsets.len() - 1 ==> {
            &&& 0 <= #[trigger] offsets[i] <= usize::MAX
            &&& 0 <= offsets[i + 1] <= usize::MAX
            &&& offsets[i] <= offsets[i + 1]
            &&& validity_readable(validity, i)
            &&& !row_valid(validity, i) ==> offsets[i] == offsets[i + 1]
        }
}

/// Checks that list offsets and validity have the supported layout. Arrow
/// itself lets a null row cover a non-empty segment; reading rejects that.
pub fn check_supported_list_layout<O: Offset>(
    validity: Option<BitsWithOffset>,
    offsets: &[O],
) -> (r: Result<(), Error>)
    ensures
        r is Ok <==> list_layout_supported(validity, offsets_int(offsets@)),
        offsets@.len() == 0 ==> r is Err && r->Err_0.kind == ErrorKind::Unsupported
            && r->Err_0.message@ == "Unsupported: list offsets must be non empty"@,
        offsets@.len() > 0 && validity is None && offsets_usable(offsets_int(offsets@)) && (exists|
            i: int,
        |
            0 <= i < offsets@.len() - 1 && #[trigger] offsets_int(offsets@)[i] > offsets_int(
                offsets@,
            )[i + 1]) ==> r is Err && r->Err_0.message@
            == "Unsupported: list offsets are assumed to be monotonically increasing"@,
        offsets@.len() > 0 && offsets_usable(offsets_int(offsets@)) && (forall|i: int|
            0 <= i < offsets@.len() - 1 ==> #[trigger] offsets_int(offsets@)[i] <= offsets_int(
                offsets@,
            )[i + 1] && validity_readable(validity, i)) && !list_layout_supported(
            validity,
            offsets_int(offsets@),
        ) ==> r is Err && r->Err_0.message@
            == "Unsupported: lists with data in null values are currently not supported in deserialization"@,
        r is Err ==> r->Err_0.kind == ErrorKind::Unsupported || r->Err_0.kind
            == ErrorKind::OutOfRange,
{
    let ghost ints = offsets_int(offsets@);
    if offsets.len() == 0 {
        return Err(Error::new(ErrorKind::Unsupported, "Unsupported: list offsets must be non empty"));
    }
    let mut i: usize = 0;
    while i < offsets.len() - 1
        invariant
            ints == offsets_int(offsets@),
            offsets@.len() >= 1,
            i <= offsets@.len() - 1,
            forall|j: int|
                0 <= j < i ==> {
                    &&& 0 <= #[trigger] ints[j] <= usize::MAX
                    &&& 0 <= ints[j + 1] <= usize::MAX
                    &&& ints[j] <= ints[j + 1]
                    &&& validity_readable(validity, j)
                    &&& !row_valid(validity, j) ==> ints[j] == ints[j + 1]
                },
        decreases offsets.len() - 1 - i,
    {
        assert(ints[i as int] == offsets@[i as int].as_int());
        assert(ints[i + 1] == offsets@[i + 1].as_int());
        let curr = match offsets[i].try_into_usize() {
            Ok(v) => v,
            Err(e) => {
                return Err(e);
            },
        };
        let next = match offsets[i + 1].try_into_usize() {
            Ok(v) => v,
            Err(e) => {
                return Err(e);
            },
        };
        if next < curr {
            return Err(
                Error::new(
                    ErrorKind::Unsupported,
                    "Unsupported: list offsets are assumed to be monotonically increasing",
                ),
            );
        }
        match &validity {
            Some(bits) => {
                let valid = match bitset_is_set(bits, i) {
                    Ok(b) => b,
                    Err(e) => {
                        return Err(e);
                    },
                };
                if !valid && next - curr != 0 {
                    return Err(
                        Error::new(
                            ErrorKind::Unsupported,
                            "Unsupported: lists with data in null values are currently not supported in deserialization",
                        ),
                    );
                }
            },
            None => {},
        }
        i = i + 1;
    }
    Ok(())
}

/// Checks that a dense union's type ids are `0, 1, 2, ...` in field
/// order; other numberings are not supported.
pub fn check_union_type_ids(type_ids: &[i8]) -> (r: Result<(), Error>)
    ensures
        r is Ok <==> forall|i: int| 0 <= i < type_ids@.len() ==> type_ids@[i] == i,
        r is Err ==> r->Err_0.kind == ErrorKind::Unsupported && r->Err_0.message@
            == "Only unions with consecutive type ids are currently supported"@,
{
    let mut i: usize = 0;
    while i < type_ids.len()
        invariant
            i <= type_ids@.len(),
            forall|j: int| 0 <= j < i ==> type_ids@[j] == j,
        decreases type_ids.len() - i,
    {
        if type_ids[i] < 0 || type_ids[i] as usize != i {
            return Err(Error::new(
                ErrorKind::Unsupported,
                "Only unions with consecutive type ids are currently supported",
            ));
        }
        i = i + 1;
    }
    Ok(())
}

} // verus!
