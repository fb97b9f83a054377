use vstd::prelude::*;

use crate::error::{Error, ErrorKind};

verus! {

/// Whether bit `k` (0 = least significant) of `b` is set.
pub open spec fn byte_bit(b: u8, k: u8) -> bool {
    b & (1u8 << k) != 0
}

/// Bit `i` of an LSB-first packed bitmap.
pub open spec fn bit_at(bytes: Seq<u8>, i: int) -> bool {
    byte_bit(bytes[i / 8], (i % 8) as u8)
}

proof fn lemma_set_bit(b: u8, k: u8, j: u8)
    requires
        k < 8,
        j < 8,
    ensures
        byte_bit(b | (1u8 << k), j) == (j == k || byte_bit(b, j)),
{
    assert(((b | (1u8 << k)) & (1u8 << j) != 0) == (j == k || (b & (1u8 << j)) != 0))
        by (bit_vector)
        requires
            k < 8,
            j < 8,
    ;
}

proof fn lemma_zero_bit(j: u8)
    requires
        j < 8,
    ensures
        !byte_bit(0u8, j),
{
    assert((0u8 & (1u8 << j)) == 0) by (bit_vector);
}

/// A growable validity bitmap: bit `i` is stored LSB-first at byte `i / 8`.
#[derive(Debug, Clone)]
pub struct MutableBitBuffer {
    pub buffer: Vec<u8>,
    pub len: usize,
    pub capacity: usize,
}

impl View for MutableBitBuffer {
    type V = Seq<bool>;

    open spec fn view(&self) -> Seq<bool> {
        Seq::new(self.len as nat, |i: int| bit_at(self.buffer@, i))
    }
}

impl Default for MutableBitBuffer {
    /// An empty bitmap with nothing reserved.
    fn default() -> (r: Self)
        ensures
            r.wf(),
            r@ == Seq::<bool>::empty(),
    {
        MutableBitBuffer::new()
    }
}

impl MutableBitBuffer {
    /// Capacity is counted in bits and always matches the bytes held; the
    /// bits past `len` are clear, and growth is by 64 bytes at a time.
    pub open spec fn wf(&self) -> bool {
        &&& self.capacity == 8 * self.buffer@.len()
        &&& self.len <= self.capacity
        &&& self.capacity <= self.len + 512
        &&& self.capacity % 512 == 0
        &&& forall|i: int| self.len <= i < self.capacity ==> !#[trigger] bit_at(self.buffer@, i)
    }

    pub fn new() -> (r: MutableBitBuffer)
        ensures
            r.wf(),
            r.capacity == 0,
            r.buffer@.len() == 0,
            r@ == Seq::<bool>::empty(),
    {
        MutableBitBuffer { buffer: Vec::new(), len: 0, capacity: 0 }
    }

    /// The bits as booleans, in order.
    pub fn as_bool(&self) -> (r: Vec<bool>)
        requires
            self.wf(),
        ensures
            r@ == self@,
    {
        let mut r: Vec<bool> = Vec::new();
        let mut i: usize = 0;
        while i < self.len
            invariant
                self.wf(),
                i <= self.len,
                r@ == self@.subrange(0, i as int),
            decreases self.len - i,
        {
            let k: u8 = (i % 8) as u8;
            let flag: u8 = 1u8 << k;
            r.push((self.buffer[i / 8] & flag) == flag);
            proof {
                let b = self.buffer@[(i / 8) as int];
                assert(((b & flag) == flag) == (b & flag != 0)) by (bit_vector)
                    requires
                        flag == 1u8 << k,
                        k < 8,
                ;
            }
            i = i + 1;
            assert(r@ =~= self@.subrange(0, i as int));
        }
        assert(r@ =~= self@);
        r
    }

    /// The number of bits pushed.
    pub fn len(&self) -> (r: usize)
        ensures
            r == self@.len(),
    {
        self.len
    }

    /// Appends one bit.
    pub fn push(&mut self, value: bool)
        requires
            old(self).wf(),
            old(self)@.len() + 1024 < usize::MAX,
        ensures
            final(self).wf(),
            final(self)@ == old(self)@.push(value),
    {
        if self.len >= self.capacity {
            let mut k: usize = 0;
            while k < 64
                invariant
                    k <= 64,
                    self.len == old(self).len,
                    self.len == old(self).capacity,
                    self.buffer@.len() == old(self).buffer@.len() + k,
                    self.capacity == old(self).capacity + 8 * k,
                    old(self).capacity % 512 == 0,
                    self.buffer@.subrange(0, old(self).buffer@.len() as int) == old(self).buffer@,
                    forall|j: int|
                        old(self).buffer@.len() <= j < self.buffer@.len() ==> self.buffer@[j] == 0,
                    old(self).wf(),
                    old(self)@.len() + 1024 < usize::MAX,
                decreases 64 - k,
            {
                self.buffer.push(0);
                self.capacity = self.capacity + 8;
                k = k + 1;
            }
            assert forall|i: int| self.len <= i < self.capacity implies !#[trigger] bit_at(
                self.buffer@,
                i,
            ) by {
                assert(self.buffer@[i / 8] == 0);
                lemma_zero_bit((i % 8) as u8);
            }
            assert forall|i: int| 0 <= i < self.len implies bit_at(self.buffer@, i) == bit_at(
                old(self).buffer@,
                i,
            ) by {
                assert(self.buffer@[i / 8] == self.buffer@.subrange(
                    0,
                    old(self).buffer@.len() as int,
                )[i / 8]);
            }
            assert(self@ =~= old(self)@);
        }
        let ghost mid = *self;
        assert(mid.wf());
        assert(mid.len < mid.capacity);
        if value {
            let byte: usize = self.len / 8;
            let k: u8 = (self.len % 8) as u8;
            let b: u8 = self.buffer[byte];
            self.buffer.set(byte, b | (1u8 << k));
            assert forall|i: int| 0 <= i < self.capacity && i != mid.len implies bit_at(
                self.buffer@,
                i,
            ) == bit_at(mid.buffer@, i) by {
                if i / 8 == byte as int {
                    lemma_set_bit(b, k, (i % 8) as u8);
                }
            }
            proof {
                lemma_set_bit(b, k, k);
            }
        }
        assert forall|i: int| mid.len < i < self.capacity implies !#[trigger] bit_at(
            self.buffer@,
            i,
        ) by {
            assert(!bit_at(mid.buffer@, i));
        }
        self.len = self.len + 1;
        assert(self@ =~= old(self)@.push(value));
    }

    /// Drops every bit and the reserved space.
    pub fn clear(&mut self)
        ensures
            final(self).wf(),
            final(self).capacity == 0,
            final(self).buffer@.len() == 0,
            final(self)@ == Seq::<bool>::empty(),
    {
        *self = MutableBitBuffer::new();
    }
}

/// A validity bitmap that is present exactly when the column is nullable.
pub open spec fn validity_wf(validity: Option<MutableBitBuffer>) -> bool {
    match validity {
        Some(b) => b.wf(),
        None => true,
    }
}

/// The validity bits recorded so far; an absent bitmap records nothing.
pub open spec fn validity_bits(validity: Option<MutableBitBuffer>) -> Seq<bool> {
    match validity {
        Some(b) => b@,
        None => Seq::empty(),
    }
}

/// Records whether the next row holds a value. A column without a bitmap
/// takes only valid rows.
pub fn push_validity(buffer: &mut Option<MutableBitBuffer>, value: bool) -> (r: Result<(), Error>)
    requires
        validity_wf(*old(buffer)),
        validity_bits(*old(buffer)).len() + 1024 < usize::MAX,
    ensures
        validity_wf(*final(buffer)),
        old(buffer).is_some() ==> r is Ok,
        old(buffer).is_some() ==> final(buffer).is_some() && validity_bits(*final(buffer))
            == validity_bits(*old(buffer)).push(value),
        old(buffer).is_none() ==> final(buffer).is_none() && (r is Ok <==> value),
        r is Err ==> r->Err_0.kind == ErrorKind::Invalid && r->Err_0.message@
            == "cannot push null for non-nullable array"@,
{
    match buffer {
        Some(b) => {
            b.push(value);
            Ok(())
        },
        None => {
            if value {
                Ok(())
            } else {
                Err(Error::new(ErrorKind::Invalid, "cannot push null for non-nullable array"))
            }
        },
    }
}

/// Records a default row: null where the column is nullable, nothing
/// otherwise.
pub fn push_validity_default(buffer: &mut Option<MutableBitBuffer>)
    requires
        validity_wf(*old(buffer)),
        validity_bits(*old(buffer)).len() + 1024 < usize::MAX,
    ensures
        validity_wf(*final(buffer)),
        final(buffer).is_some() == old(buffer).is_some(),
        old(buffer).is_some() ==> validity_bits(*final(buffer)) == validity_bits(
            *old(buffer),
        ).push(false),
        old(buffer).is_none() ==> *final(buffer) == *old(buffer),
{
    match buffer {
        Some(b) => {
            b.push(false);
        },
        None => {},
    }
}

} // verus!
