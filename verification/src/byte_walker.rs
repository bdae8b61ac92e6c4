//! Bounds-checked byte cursors.
//!
//! [`SliceByteWalker`] is a position-tracking read cursor over a borrowed
//! byte buffer; [`VecByteWalker`] owns a growable buffer and adds writes.
//! All fixed-width reads and writes are little-endian. Any fixed-width
//! access whose range `[offset, offset + width)` exceeds the buffer fails
//! with [`DatError::OutOfRange`]; the one exception is `take_bytes`, a
//! "read remaining" convenience that clamps its count to the bytes left.

use vstd::prelude::*;
use vstd::arithmetic::div_mod::{lemma_fundamental_div_mod_converse, lemma_small_mod};

use crate::error::DatError;

verus! {

/// The value of two little-endian bytes.
pub open spec fn u16_of(b0: u8, b1: u8) -> u16 {
    (b0 as int + b1 as int * 0x100) as u16
}

/// The value of four little-endian bytes.
pub open spec fn u32_of(b0: u8, b1: u8, b2: u8, b3: u8) -> u32 {
    (b0 as int + b1 as int * 0x100 + b2 as int * 0x10000 + b3 as int * 0x1000000) as u32
}

/// The value of eight little-endian bytes.
pub open spec fn u64_of(b: Seq<u8>) -> u64
    recommends
        b.len() == 8,
{
    (b[0] as int + b[1] as int * 0x100 + b[2] as int * 0x10000 + b[3] as int * 0x1000000
        + b[4] as int * 0x100000000 + b[5] as int * 0x10000000000
        + b[6] as int * 0x1000000000000 + b[7] as int * 0x100000000000000) as u64
}

/// The two little-endian bytes of a value.
pub open spec fn le16(x: u16) -> Seq<u8> {
    seq![(x as int % 0x100) as u8, (x as int / 0x100 % 0x100) as u8]
}

/// The four little-endian bytes of a value.
pub open spec fn le32(x: u32) -> Seq<u8> {
    seq![
        (x as int % 0x100) as u8,
        (x as int / 0x100 % 0x100) as u8,
        (x as int / 0x10000 % 0x100) as u8,
        (x as int / 0x1000000 % 0x100) as u8,
    ]
}

/// Re-encoding the value of two little-endian bytes gives the bytes back.
pub proof fn lemma_le16_round(b0: u8, b1: u8)
    ensures
        le16(u16_of(b0, b1)) =~= seq![b0, b1],
{
    let v = b0 as int + b1 as int * 0x100;
    lemma_fundamental_div_mod_converse(v, 0x100, b1 as int, b0 as int);
    lemma_small_mod(b1 as nat, 0x100);
}

/// Re-encoding the value of four little-endian bytes gives the bytes back.
pub proof fn lemma_le32_round(b0: u8, b1: u8, b2: u8, b3: u8)
    ensures
        le32(u32_of(b0, b1, b2, b3)) =~= seq![b0, b1, b2, b3],
{
    let v = b0 as int + b1 as int * 0x100 + b2 as int * 0x10000 + b3 as int * 0x1000000;
    let k1 = b1 as int + b2 as int * 0x100 + b3 as int * 0x10000;
    let k2 = b2 as int + b3 as int * 0x100;
    lemma_fundamental_div_mod_converse(v, 0x100, k1, b0 as int);
    lemma_fundamental_div_mod_converse(k1, 0x100, k2, b1 as int);
    lemma_fundamental_div_mod_converse(
        v,
        0x10000,
        k2,
        b0 as int + b1 as int * 0x100,
    );
    lemma_fundamental_div_mod_converse(k2, 0x100, b3 as int, b2 as int);
    lemma_fundamental_div_mod_converse(
        v,
        0x1000000,
        b3 as int,
        b0 as int + b1 as int * 0x100 + b2 as int * 0x10000,
    );
    lemma_small_mod(b1 as nat, 0x100);
    lemma_small_mod(b3 as nat, 0x100);
}

/// A read cursor over a borrowed byte buffer.
pub struct SliceByteWalker<'a> {
    pub slice: &'a [u8],
    pub offset: usize,
}

impl<'a> SliceByteWalker<'a> {
    /// The cursor's invariant at rest: the offset never passes the end.
    pub open spec fn wf(&self) -> bool {
        self.offset <= self.slice@.len()
    }

    pub fn new(slice: &'a [u8]) -> (r: Self)
        ensures
            r.slice@ == slice@,
            r.offset == 0,
            r.wf(),
    {
        Self { slice, offset: 0 }
    }

    pub fn offset(&self) -> (r: usize)
        ensures
            r == self.offset,
    {
        self.offset
    }

    pub fn len(&self) -> (r: usize)
        ensures
            r == self.slice@.len(),
    {
        self.slice.len()
    }

    pub fn remaining(&self) -> (r: usize)
        requires
            self.wf(),
        ensures
            r == self.slice@.len() - self.offset,
    {
        self.slice.len() - self.offset
    }

    pub fn goto_usize(&mut self, offset: usize)
        requires
            offset <= old(self).slice@.len(),
        ensures
            final(self).slice == old(self).slice,
            final(self).offset == offset,
            final(self).wf(),
    {
        self.offset = offset;
    }

    pub fn skip(&mut self, count: usize)
        requires
            old(self).offset + count <= old(self).slice@.len(),
        ensures
            final(self).slice == old(self).slice,
            final(self).offset == old(self).offset + count,
            final(self).wf(),
    {
        // Binds the buffer length so the offset arithmetic stays in range.
        let _bound: usize = self.slice.len();
        self.offset = self.offset + count;
    }

    /// Reads the byte at an absolute offset without moving the cursor.
    pub fn read_u8_at(&self, at: usize) -> (r: Result<u8, DatError>)
        ensures
            at + 1 <= self.slice@.len() ==> r == Ok::<u8, DatError>(self.slice@[at as int]),
            at + 1 > self.slice@.len() ==> r == Err::<u8, DatError>(
                DatError::OutOfRange {
                    buffer_length: self.slice@.len() as usize,
                    requested_index: at,
                },
            ),
    {
        if at < self.slice.len() {
            Ok(self.slice[at])
        } else {
            Err(DatError::OutOfRange { buffer_length: self.slice.len(), requested_index: at })
        }
    }

    /// Reads a little-endian 32-bit value at an absolute offset without
    /// moving the cursor.
    pub fn read_u32_at(&self, at: usize) -> (r: Result<u32, DatError>)
        ensures
            at + 4 <= self.slice@.len() ==> r == Ok::<u32, DatError>(
                u32_of(
                    self.slice@[at as int],
                    self.slice@[at + 1],
                    self.slice@[at + 2],
                    self.slice@[at + 3],
                ),
            ),
            at + 4 > self.slice@.len() ==> r == Err::<u32, DatError>(
                DatError::OutOfRange {
                    buffer_length: self.slice@.len() as usize,
                    requested_index: at,
                },
            ),
    {
        if at < self.slice.len() && self.slice.len() - at >= 4 {
            let b0 = self.slice[at];
            let b1 = self.slice[at + 1];
            let b2 = self.slice[at + 2];
            let b3 = self.slice[at + 3];
            Ok(
                b0 as u32 + b1 as u32 * 0x100 + b2 as u32 * 0x10000 + b3 as u32
                    * 0x1000000,
            )
        } else {
            Err(DatError::OutOfRange { buffer_length: self.slice.len(), requested_index: at })
        }
    }

    /// Reads one byte at the cursor and advances past it.
    pub fn step_u8(&mut self) -> (r: Result<u8, DatError>)
        ensures
            final(self).slice == old(self).slice,
            old(self).offset + 1 <= old(self).slice@.len() ==> {
                &&& r == Ok::<u8, DatError>(old(self).slice@[old(self).offset as int])
                &&& final(self).offset == old(self).offset + 1
            },
            old(self).offset + 1 > old(self).slice@.len() ==> {
                &&& r == Err::<u8, DatError>(
                    DatError::OutOfRange {
                        buffer_length: old(self).slice@.len() as usize,
                        requested_index: old(self).offset,
                    },
                )
                &&& final(self).offset == old(self).offset
            },
    {
        if self.offset < self.slice.len() {
            let b = self.slice[self.offset];
            self.offset = self.offset + 1;
            Ok(b)
        } else {
            Err(
                DatError::OutOfRange {
                    buffer_length: self.slice.len(),
                    requested_index: self.offset,
                },
            )
        }
    }

    /// Reads a little-endian 16-bit value at the cursor and advances past it.
    pub fn step_u16(&mut self) -> (r: Result<u16, DatError>)
        ensures
            final(self).slice == old(self).slice,
            old(self).offset + 2 <= old(self).slice@.len() ==> {
                &&& r == Ok::<u16, DatError>(
                    u16_of(
                        old(self).slice@[old(self).offset as int],
                        old(self).slice@[old(self).offset + 1],
                    ),
                )
                &&& final(self).offset == old(self).offset + 2
            },
            old(self).offset + 2 > old(self).slice@.len() ==> {
                &&& r == Err::<u16, DatError>(
                    DatError::OutOfRange {
                        buffer_length: old(self).slice@.len() as usize,
                        requested_index: old(self).offset,
                    },
                )
                &&& final(self).offset == old(self).offset
            },
    {
        if self.offset < self.slice.len() && self.slice.len() - self.offset >= 2 {
            let b0 = self.slice[self.offset];
            let b1 = self.slice[self.offset + 1];
            self.offset = self.offset + 2;
            Ok(b0 as u16 + b1 as u16 * 0x100)
        } else {
            Err(
                DatError::OutOfRange {
                    buffer_length: self.slice.len(),
                    requested_index: self.offset,
                },
            )
        }
    }

    /// Reads a little-endian 32-bit value at the cursor and advances past it.
    pub fn step_u32(&mut self) -> (r: Result<u32, DatError>)
        ensures
            final(self).slice == old(self).slice,
            old(self).offset + 4 <= old(self).slice@.len() ==> {
                &&& r == Ok::<u32, DatError>(
                    u32_of(
                        old(self).slice@[old(self).offset as int],
                        old(self).slice@[old(self).offset + 1],
                        old(self).slice@[old(self).offset + 2],
                        old(self).slice@[old(self).offset + 3],
                    ),
                )
                &&& final(self).offset == old(self).offset + 4
            },
            old(self).offset + 4 > old(self).slice@.len() ==> {
                &&& r == Err::<u32, DatError>(
                    DatError::OutOfRange {
                        buffer_length: old(self).slice@.len() as usize,
                        requested_index: old(self).offset,
                    },
                )
                &&& final(self).offset == old(self).offset
            },
    {
        let at = self.offset;
        match self.read_u32_at(at) {
            Ok(v) => {
                let _bound: usize = self.slice.len();
                self.offset = self.offset + 4;
                Ok(v)
            },
            Err(e) => Err(e),
        }
    }

    /// Reads up to `amount` bytes at the cursor, clamped to what is left,
    /// and advances past them.
    pub fn take_bytes(&mut self, amount: usize) -> (r: &'a [u8])
        requires
            old(self).wf(),
        ensures
            final(self).slice == old(self).slice,
            final(self).offset == old(self).offset + spec_min(
                amount as int,
                old(self).slice@.len() - old(self).offset,
            ),
            r@ == old(self).slice@.subrange(
                old(self).offset as int,
                old(self).offset + spec_min(
                    amount as int,
                    old(self).slice@.len() - old(self).offset,
                ),
            ),
            final(self).wf(),
    {
        let rem = self.slice.len() - self.offset;
        let take_amt = if amount < rem {
            amount
        } else {
            rem
        };
        let r = &self.slice[self.offset..self.offset + take_amt];
        self.offset = self.offset + take_amt;
        r
    }

    /// Reads up to `amount` bytes at an absolute offset, clamped to what is
    /// left there; fails only when the offset itself is past the end.
    pub fn read_bytes_at(&self, at: usize, amount: usize) -> (r: Result<&'a [u8], DatError>)
        ensures
            at < self.slice@.len() ==> {
                &&& r is Ok
                &&& r->Ok_0@ == self.slice@.subrange(
                    at as int,
                    at + spec_min(amount as int, self.slice@.len() - at),
                )
            },
            at >= self.slice@.len() ==> r == Err::<&'a [u8], DatError>(
                DatError::OutOfRange {
                    buffer_length: self.slice@.len() as usize,
                    requested_index: at,
                },
            ),
    {
        if at >= self.slice.len() {
            return Err(
                DatError::OutOfRange { buffer_length: self.slice.len(), requested_index: at },
            );
        }
        let rem = self.slice.len() - at;
        let take_amt = if amount < rem {
            amount
        } else {
            rem
        };
        Ok(&self.slice[at..at + take_amt])
    }
}

/// The smaller of two mathematical integers.
pub open spec fn spec_min(a: int, b: int) -> int {
    if a < b {
        a
    } else {
        b
    }
}

} // verus!

verus! {

/// A write cursor over an owned, growable byte buffer.
pub struct VecByteWalker {
    pub data: Vec<u8>,
    pub offset: usize,
}

impl VecByteWalker {
    pub fn new() -> (r: Self)
        ensures
            r.data@ == Seq::<u8>::empty(),
            r.offset == 0,
    {
        Self { data: Vec::new(), offset: 0 }
    }

    /// A zero-filled buffer of the given size, cursor at the start.
    pub fn with_size(size: usize) -> (r: Self)
        ensures
            r.data@.len() == size,
            forall|i: int| 0 <= i < size ==> r.data@[i] == 0u8,
            r.offset == 0,
    {
        let mut data: Vec<u8> = Vec::new();
        let mut i: usize = 0;
        while i < size
            invariant
                i <= size,
                data@.len() == i,
                forall|j: int| 0 <= j < i ==> data@[j] == 0u8,
            decreases size - i,
        {
            data.push(0u8);
            i = i + 1;
        }
        Self { data, offset: 0 }
    }

    /// Wraps an existing buffer, cursor at the start.
    pub fn on(data: Vec<u8>) -> (r: Self)
        ensures
            r.data@ == data@,
            r.offset == 0,
    {
        Self { data, offset: 0 }
    }

    pub fn len(&self) -> (r: usize)
        ensures
            r == self.data@.len(),
    {
        self.data.len()
    }

    pub fn offset(&self) -> (r: usize)
        ensures
            r == self.offset,
    {
        self.offset
    }

    pub fn into_vec(self) -> (r: Vec<u8>)
        ensures
            r@ == self.data@,
    {
        self.data
    }

    /// Reads the byte at an absolute offset.
    pub fn read_u8_at(&self, at: usize) -> (r: Result<u8, DatError>)
        ensures
            at + 1 <= self.data@.len() ==> r == Ok::<u8, DatError>(self.data@[at as int]),
            at + 1 > self.data@.len() ==> r == Err::<u8, DatError>(
                DatError::OutOfRange {
                    buffer_length: self.data@.len() as usize,
                    requested_index: at,
                },
            ),
    {
        if at < self.data.len() {
            Ok(self.data[at])
        } else {
            Err(DatError::OutOfRange { buffer_length: self.data.len(), requested_index: at })
        }
    }

    /// Reads a little-endian 32-bit value at an absolute offset.
    pub fn read_u32_at(&self, at: usize) -> (r: Result<u32, DatError>)
        ensures
            at + 4 <= self.data@.len() ==> r == Ok::<u32, DatError>(
                u32_of(
                    self.data@[at as int],
                    self.data@[at + 1],
                    self.data@[at + 2],
                    self.data@[at + 3],
                ),
            ),
            at + 4 > self.data@.len() ==> r == Err::<u32, DatError>(
                DatError::OutOfRange {
                    buffer_length: self.data@.len() as usize,
                    requested_index: at,
                },
            ),
    {
        if at < self.data.len() && self.data.len() - at >= 4 {
            let b0 = self.data[at];
            let b1 = self.data[at + 1];
            let b2 = self.data[at + 2];
            let b3 = self.data[at + 3];
            Ok(b0 as u32 + b1 as u32 * 0x100 + b2 as u32 * 0x10000 + b3 as u32 * 0x1000000)
        } else {
            Err(DatError::OutOfRange { buffer_length: self.data.len(), requested_index: at })
        }
    }

    /// Reads a little-endian 64-bit value at an absolute offset.
    pub fn read_u64_le_at(&self, at: usize) -> (r: Result<u64, DatError>)
        ensures
            at + 8 <= self.data@.len() ==> r == Ok::<u64, DatError>(
                u64_of(self.data@.subrange(at as int, at + 8)),
            ),
            at + 8 > self.data@.len() ==> r == Err::<u64, DatError>(
                DatError::OutOfRange {
                    buffer_length: self.data@.len() as usize,
                    requested_index: at,
                },
            ),
    {
        if at < self.data.len() && self.data.len() - at >= 8 {
            let b0 = self.data[at];
            let b1 = self.data[at + 1];
            let b2 = self.data[at + 2];
            let b3 = self.data[at + 3];
            let b4 = self.data[at + 4];
            let b5 = self.data[at + 5];
            let b6 = self.data[at + 6];
            let b7 = self.data[at + 7];
            let v = b0 as u64 + b1 as u64 * 0x100 + b2 as u64 * 0x10000 + b3 as u64 * 0x1000000
                + b4 as u64 * 0x100000000 + b5 as u64 * 0x10000000000
                + b6 as u64 * 0x1000000000000 + b7 as u64 * 0x100000000000000;
            proof {
                let s = self.data@.subrange(at as int, at + 8);
                assert(s[0] == b0 && s[1] == b1 && s[2] == b2 && s[3] == b3 && s[4] == b4
                    && s[5] == b5 && s[6] == b6 && s[7] == b7);
            }
            Ok(v)
        } else {
            Err(DatError::OutOfRange { buffer_length: self.data.len(), requested_index: at })
        }
    }

    /// Overwrites the byte at an absolute offset.
    pub fn write_u8_at(&mut self, at: usize, v: u8)
        requires
            at < old(self).data@.len(),
        ensures
            final(self).data@ == old(self).data@.update(at as int, v),
            final(self).offset == old(self).offset,
    {
        self.data.set(at, v);
    }

    /// Appends one byte at the cursor, which must sit at the end of the
    /// buffer.
    pub fn write_u8(&mut self, v: u8)
        requires
            old(self).offset == old(self).data@.len(),
        ensures
            final(self).data@ == old(self).data@.push(v),
            final(self).offset == old(self).offset + 1,
    {
        self.data.push(v);
        let _bound: usize = self.data.len();
        self.offset = self.offset + 1;
    }

    /// Appends a value as two little-endian bytes at the cursor, which must
    /// sit at the end of the buffer.
    pub fn write_u16(&mut self, v: u16)
        requires
            old(self).offset == old(self).data@.len(),
        ensures
            final(self).data@ == old(self).data@ + le16(v),
            final(self).offset == old(self).offset + 2,
    {
        self.data.push((v % 0x100) as u8);
        self.data.push((v / 0x100 % 0x100) as u8);
        let _bound: usize = self.data.len();
        self.offset = self.offset + 2;
        proof {
            assert(self.data@ =~= old(self).data@ + le16(v));
        }
    }

    /// Appends a value as four little-endian bytes at the cursor, which must
    /// sit at the end of the buffer.
    pub fn write_u32(&mut self, v: u32)
        requires
            old(self).offset == old(self).data@.len(),
        ensures
            final(self).data@ == old(self).data@ + le32(v),
            final(self).offset == old(self).offset + 4,
    {
        self.data.push((v % 0x100) as u8);
        self.data.push((v / 0x100 % 0x100) as u8);
        self.data.push((v / 0x10000 % 0x100) as u8);
        self.data.push((v / 0x1000000 % 0x100) as u8);
        let _bound: usize = self.data.len();
        self.offset = self.offset + 4;
        proof {
            assert(self.data@ =~= old(self).data@ + le32(v));
        }
    }

    /// Appends a run of bytes at the cursor, which must sit at the end of
    /// the buffer.
    pub fn write_bytes(&mut self, bytes: &[u8])
        requires
            old(self).offset == old(self).data@.len(),
        ensures
            final(self).data@ == old(self).data@ + bytes@,
            final(self).offset == old(self).offset + bytes@.len(),
    {
        self.data.extend_from_slice(bytes);
        let _bound: usize = self.data.len();
        self.offset = self.offset + bytes.len();
    }

    /// Swaps the eight-byte windows starting at `a` and at `b`; equal
    /// offsets are a no-op, and distinct windows must not overlap.
    pub fn swap_8_bytes(&mut self, a: usize, b: usize)
        requires
            a + 8 <= old(self).data@.len(),
            b + 8 <= old(self).data@.len(),
            a + 8 <= b || b + 8 <= a || a == b,
        ensures
            final(self).data@.len() == old(self).data@.len(),
            forall|i: int| a <= i < a + 8 ==> #[trigger] final(self).data@[i] == old(self).data@[i - a + b],
            forall|i: int| b <= i < b + 8 ==> #[trigger] final(self).data@[i] == old(self).data@[i - b + a],
            forall|i: int|
                0 <= i < old(self).data@.len() && !(a <= i < a + 8) && !(b <= i < b + 8)
                    ==> final(self).data@[i] == old(self).data@[i],
            final(self).offset == old(self).offset,
    {
        let mut j: usize = 0;
        while j < 8
            invariant
                j <= 8,
                a + 8 <= self.data@.len(),
                b + 8 <= self.data@.len(),
                a + 8 <= b || b + 8 <= a || a == b,
                self.data@.len() == old(self).data@.len(),
                forall|i: int| a <= i < a + j ==> #[trigger] self.data@[i] == old(self).data@[i - a + b],
                forall|i: int| b <= i < b + j ==> #[trigger] self.data@[i] == old(self).data@[i - b + a],
                forall|i: int| a + j <= i < a + 8 ==> #[trigger] self.data@[i] == old(self).data@[i],
                forall|i: int| b + j <= i < b + 8 ==> #[trigger] self.data@[i] == old(self).data@[i],
                forall|i: int|
                    0 <= i < old(self).data@.len() && !(a <= i < a + 8) && !(b <= i < b + 8)
                        ==> self.data@[i] == old(self).data@[i],
                self.offset == old(self).offset,
            decreases 8 - j,
        {
            let _bound: usize = self.data.len();
            let t = self.data[a + j];
            let u = self.data[b + j];
            self.data.set(a + j, u);
            self.data.set(b + j, t);
            j = j + 1;
        }
    }

    /// Swaps the eight-byte windows starting at `a` and at `b` by the
    /// exclusive-or trick; the windows must not overlap, and equal offsets
    /// are refused because the trick would zero the window instead.
    pub fn swap_8_bytes_xor(&mut self, a: usize, b: usize)
        requires
            a + 8 <= old(self).data@.len(),
            b + 8 <= old(self).data@.len(),
            a + 8 <= b || b + 8 <= a,
        ensures
            final(self).data@.len() == old(self).data@.len(),
            forall|i: int| a <= i < a + 8 ==> #[trigger] final(self).data@[i] == old(self).data@[i - a + b],
            forall|i: int| b <= i < b + 8 ==> #[trigger] final(self).data@[i] == old(self).data@[i - b + a],
            forall|i: int|
                0 <= i < old(self).data@.len() && !(a <= i < a + 8) && !(b <= i < b + 8)
                    ==> final(self).data@[i] == old(self).data@[i],
            final(self).offset == old(self).offset,
    {
        let mut j: usize = 0;
        while j < 8
            invariant
                j <= 8,
                a + 8 <= self.data@.len(),
                b + 8 <= self.data@.len(),
                a + 8 <= b || b + 8 <= a,
                self.data@.len() == old(self).data@.len(),
                forall|i: int| a <= i < a + j ==> #[trigger] self.data@[i] == old(self).data@[i - a + b],
                forall|i: int| b <= i < b + j ==> #[trigger] self.data@[i] == old(self).data@[i - b + a],
                forall|i: int| a + j <= i < a + 8 ==> #[trigger] self.data@[i] == old(self).data@[i],
                forall|i: int| b + j <= i < b + 8 ==> #[trigger] self.data@[i] == old(self).data@[i],
                forall|i: int|
                    0 <= i < old(self).data@.len() && !(a <= i < a + 8) && !(b <= i < b + 8)
                        ==> self.data@[i] == old(self).data@[i],
                self.offset == old(self).offset,
            decreases 8 - j,
        {
            let _bound: usize = self.data.len();
            let x = self.data[a + j];
            let y = self.data[b + j];
            let x1 = x ^ y;
            let y1 = x1 ^ y;
            let x2 = x1 ^ y1;
            proof {
                assert(x1 ^ y == x && (x ^ y) ^ (x1 ^ y) == y) by (bit_vector)
                    requires
                        x1 == x ^ y,
                ;
            }
            self.data.set(a + j, x2);
            self.data.set(b + j, y1);
            j = j + 1;
        }
    }

    /// Overwrites a run of bytes at an absolute offset, transparently
    /// growing the buffer when the run extends past its end; the gap left
    /// between the old end and a farther offset is zero-filled.
    pub fn write_bytes_at(&mut self, at: usize, bytes: &[u8])
        requires
            at + bytes@.len() <= usize::MAX,
        ensures
            final(self).data@.len() == if at + bytes@.len() > old(self).data@.len() {
                at + bytes@.len()
            } else {
                old(self).data@.len() as int
            },
            forall|i: int|
                at <= i < at + bytes@.len() ==> #[trigger] final(self).data@[i] == bytes@[i - at],
            forall|i: int|
                0 <= i < old(self).data@.len() && !(at <= i < at + bytes@.len())
                    ==> #[trigger] final(self).data@[i] == old(self).data@[i],
            forall|i: int|
                old(self).data@.len() <= i < at ==> #[trigger] final(self).data@[i] == 0u8,
            final(self).offset == old(self).offset,
    {
        let n = bytes.len();
        if at > self.data.len() || n > self.data.len() - at {
            self.set_size(at + n);
        }
        let mut j: usize = 0;
        while j < n
            invariant
                n == bytes@.len(),
                at + n <= self.data@.len(),
                j <= n,
                self.offset == old(self).offset,
                self.data@.len() == if at + n > old(self).data@.len() {
                    at + n
                } else {
                    old(self).data@.len() as int
                },
                forall|i: int|
                    at <= i < at + j ==> #[trigger] self.data@[i] == bytes@[i - at],
                forall|i: int|
                    0 <= i < old(self).data@.len() && !(at <= i < at + n)
                        ==> #[trigger] self.data@[i] == old(self).data@[i],
                forall|i: int|
                    old(self).data@.len() <= i < at ==> #[trigger] self.data@[i] == 0u8,
            decreases n - j,
        {
            self.data.set(at + j, bytes[j]);
            j = j + 1;
        }
    }

    /// Grows the buffer with zero bytes or shrinks it to the given size.
    pub fn set_size(&mut self, size: usize)
        ensures
            final(self).data@.len() == size,
            forall|i: int|
                0 <= i < size && i < old(self).data@.len() ==> final(self).data@[i] == old(
                    self,
                ).data@[i],
            forall|i: int|
                old(self).data@.len() <= i < size ==> final(self).data@[i] == 0u8,
            final(self).offset == old(self).offset,
    {
        if size <= self.data.len() {
            self.data.truncate(size);
        } else {
            let mut i = self.data.len();
            while i < size
                invariant
                    old(self).data@.len() <= i <= size,
                    self.data@.len() == i,
                    self.offset == old(self).offset,
                    forall|j: int| 0 <= j < old(self).data@.len() ==> self.data@[j] == old(self).data@[j],
                    forall|j: int| old(self).data@.len() <= j < i ==> self.data@[j] == 0u8,
                decreases size - i,
            {
                self.data.push(0u8);
                i = i + 1;
            }
        }
    }
}

} // verus!
