//! An in-memory NOR flash part: `SIZE` bytes in `ERASE`-byte sectors, written
//! `WRITE` bytes at a time. Erasing sets bytes to `0xFF`; writing can only
//! clear bits, so writing a 1 over a 0 fails.
use vstd::prelude::*;

verus! {

/// Why a flash operation failed.
#[derive(Clone, Copy, Debug, PartialEq, Eq, Structural)]
pub enum FlashError {
    /// The arguments are not properly aligned.
    NotAligned,
    /// The arguments are out of bounds.
    OutOfBounds,
    /// The part refused the write.
    Other,
}

/// The bounds and alignment check of a read or write of `length` bytes at
/// `offset` with the given alignment, on a part of `capacity` bytes.
pub open spec fn spec_check_slice(capacity: int, align: int, offset: int, length: int) -> Result<(), FlashError> {
    if length > capacity || offset > capacity - length {
        Err(FlashError::OutOfBounds)
    } else if offset % align != 0 || length % align != 0 {
        Err(FlashError::NotAligned)
    } else {
        Ok(())
    }
}

/// The bounds and alignment check of an erase of `[from, to)`.
pub open spec fn spec_check_erase(capacity: int, erase: int, from: int, to: int) -> Result<(), FlashError> {
    if from > to || to > capacity {
        Err(FlashError::OutOfBounds)
    } else if from % erase != 0 || to % erase != 0 {
        Err(FlashError::NotAligned)
    } else {
        Ok(())
    }
}

fn check_slice(capacity: usize, align: usize, offset: u32, length: usize) -> (r: Result<(), FlashError>)
    requires
        align > 0,
    ensures
        r == spec_check_slice(capacity as int, align as int, offset as int, length as int),
{
    let offset = offset as usize;
    if length > capacity || offset > capacity - length {
        return Err(FlashError::OutOfBounds);
    }
    if offset % align != 0 || length % align != 0 {
        return Err(FlashError::NotAligned);
    }
    Ok(())
}

/// True when writing `b` over `cur` only clears bits.
pub open spec fn spec_only_clears(cur: u8, b: u8) -> bool {
    cur & b == b
}

/// The first position from `i` on where writing `bytes` at `offset` would set
/// a cleared bit.
pub open spec fn spec_first_conflict(data: Seq<u8>, offset: int, bytes: Seq<u8>, i: nat) -> Option<int>
    decreases bytes.len() - i,
{
    if i >= bytes.len() {
        None
    } else if !spec_only_clears(data[offset + i], bytes[i as int]) {
        Some(i as int)
    } else {
        spec_first_conflict(data, offset, bytes, i + 1)
    }
}

/// `data` with `bytes[..k]` written at `offset`.
pub open spec fn spec_written(data: Seq<u8>, offset: int, bytes: Seq<u8>, k: int) -> Seq<u8> {
    Seq::new(data.len(), |j: int| if offset <= j < offset + k { bytes[j - offset] } else { data[j] })
}

/// What writing `bytes` at `offset` answers, and the bytes the part then
/// holds: a failed check or a refusing part leaves it untouched; else the bytes
/// up to the first conflicting one are written, and a conflict fails the write.
pub open spec fn spec_write_outcome(
    data: Seq<u8>,
    refuses: bool,
    capacity: int,
    align: int,
    offset: int,
    bytes: Seq<u8>,
) -> (Result<(), FlashError>, Seq<u8>) {
    match spec_check_slice(capacity, align, offset, bytes.len() as int) {
        Err(e) => (Err(e), data),
        Ok(()) => if refuses {
            (Err(FlashError::Other), data)
        } else {
            match spec_first_conflict(data, offset, bytes, 0) {
                None => (Ok(()), spec_written(data, offset, bytes, bytes.len() as int)),
                Some(k) => (Err(FlashError::Other), spec_written(data, offset, bytes, k)),
            }
        },
    }
}

/// An in-memory NOR flash part.
pub struct InMemoryFlash<const SIZE: usize, const ERASE: usize, const WRITE: usize> {
    data: Vec<u8>,
    fail_writes: bool,
}

impl<const SIZE: usize, const ERASE: usize, const WRITE: usize> InMemoryFlash<SIZE, ERASE, WRITE> {
    /// The bytes the part holds.
    pub closed spec fn bytes(&self) -> Seq<u8> {
        self.data@
    }

    /// True while every write is refused.
    pub closed spec fn refuses_writes(&self) -> bool {
        self.fail_writes
    }

    /// The part always holds exactly `SIZE` bytes.
    #[verifier::type_invariant]
    closed spec fn holds_size(&self) -> bool {
        self.data@.len() == SIZE
    }

    /// A fully erased part that takes writes.
    pub fn new() -> (r: Self)
        ensures
            r.bytes() == Seq::new(SIZE as nat, |i: int| 0xFFu8),
            r.bytes().len() == SIZE,
            !r.refuses_writes(),
    {
        let mut data: Vec<u8> = Vec::new();
        for i in 0..SIZE
            invariant
                data@.len() == i,
                forall|j: int| 0 <= j < i ==> data@[j] == 0xFF,
        {
            data.push(0xFF);
        }
        assert(data@ =~= Seq::new(SIZE as nat, |i: int| 0xFFu8));
        InMemoryFlash { data, fail_writes: false }
    }

    /// Rejects every write while set: a part that stops taking data.
    pub fn fail_writes(&mut self, fail: bool)
        ensures
            final(self).bytes() == old(self).bytes(),
            final(self).refuses_writes() == fail,
    {
        proof {
            use_type_invariant(&*self);
        }
        self.fail_writes = fail;
    }

    /// The capacity of the part in bytes.
    pub fn capacity(&self) -> (r: usize)
        ensures
            r == SIZE,
    {
        SIZE
    }

    /// Reads `bytes.len()` bytes at `offset`; `OutOfBounds` past the end.
    pub fn read(&self, offset: u32, bytes: &mut [u8]) -> (r: Result<(), FlashError>)
        ensures
            self.bytes().len() == SIZE,
            r == spec_check_slice(SIZE as int, 1, offset as int, old(bytes)@.len() as int),
            r is Ok ==> final(bytes)@ == self.bytes().subrange(offset as int, offset + old(bytes)@.len()),
            r is Err ==> final(bytes)@ == old(bytes)@,
    {
        proof {
            use_type_invariant(self);
        }
        let c = check_slice(SIZE, 1, offset, bytes.len());
        if c.is_err() {
            return c;
        }
        let o = offset as usize;
        let n = bytes.len();
        for i in 0..n
            invariant
                n == bytes@.len(),
                o + n <= SIZE,
                self.data@.len() == SIZE,
                forall|j: int| 0 <= j < i ==> bytes@[j] == self.data@[o + j],
        {
            bytes[i] = self.data[o + i];
        }
        assert(bytes@ =~= self.bytes().subrange(offset as int, offset + n));
        Ok(())
    }

    /// Erases `[from, to)` to `0xFF`.
    pub fn erase(&mut self, from: u32, to: u32) -> (r: Result<(), FlashError>)
        requires
            ERASE > 0,
        ensures
            old(self).bytes().len() == SIZE,
            final(self).bytes().len() == SIZE,
            r == spec_check_erase(SIZE as int, ERASE as int, from as int, to as int),
            final(self).refuses_writes() == old(self).refuses_writes(),
            r is Ok ==> final(self).bytes() == Seq::new(
                SIZE as nat,
                |j: int| if from <= j < to { 0xFFu8 } else { old(self).bytes()[j] },
            ),
            r is Err ==> final(self).bytes() == old(self).bytes(),
    {
        proof {
            use_type_invariant(&*self);
        }
        let f = from as usize;
        let t = to as usize;
        if f > t || t > SIZE {
            return Err(FlashError::OutOfBounds);
        }
        if f % ERASE != 0 || t % ERASE != 0 {
            return Err(FlashError::NotAligned);
        }
        for i in f..t
            invariant
                f <= t <= SIZE,
                self.data@.len() == SIZE,
                self.fail_writes == old(self).fail_writes,
                forall|j: int| 0 <= j < SIZE ==> self.data@[j] == if f <= j < i { 0xFFu8 } else { old(self).data@[j] },
        {
            self.data[i] = 0xFF;
        }
        assert(self.bytes() =~= Seq::new(
            SIZE as nat,
            |j: int| if from <= j < to { 0xFFu8 } else { old(self).bytes()[j] },
        ));
        Ok(())
    }

    /// Writes `bytes` at `offset`. Out-of-bounds or misaligned writes are
    /// refused untouched, and so is every write while the part refuses
    /// writes. Otherwise the bytes are written in order; a byte that would set
    /// a cleared bit fails the write with `Other`, leaving the bytes before it
    /// written and the rest untouched.
    pub fn write(&mut self, offset: u32, bytes: &[u8]) -> (r: Result<(), FlashError>)
        requires
            WRITE > 0,
        ensures
            old(self).bytes().len() == SIZE,
            final(self).bytes().len() == SIZE,
            final(self).refuses_writes() == old(self).refuses_writes(),
            (r, final(self).bytes()) == spec_write_outcome(
                old(self).bytes(),
                old(self).refuses_writes(),
                SIZE as int,
                WRITE as int,
                offset as int,
                bytes@,
            ),
    {
        proof {
            use_type_invariant(&*self);
        }
        let c = check_slice(SIZE, WRITE, offset, bytes.len());
        if c.is_err() {
            return c;
        }
        if self.fail_writes {
            return Err(FlashError::Other);
        }
        let o = offset as usize;
        let n = bytes.len();
        let ghost d0 = self.data@;
        let mut i: usize = 0;
        while i < n
            invariant
                n == bytes@.len(),
                o + n <= SIZE,
                o == offset,
                d0 == old(self).bytes(),
                spec_check_slice(SIZE as int, WRITE as int, offset as int, bytes@.len() as int) is Ok,
                !old(self).refuses_writes(),
                d0.len() == SIZE,
                self.data@.len() == SIZE,
                self.fail_writes == old(self).fail_writes,
                i <= n,
                self.data@ == spec_written(d0, o as int, bytes@, i as int),
                spec_first_conflict(d0, o as int, bytes@, 0) == spec_first_conflict(d0, o as int, bytes@, i as nat),
            decreases n - i,
        {
            let cur = self.data[o + i];
            let b = bytes[i];
            assert(cur == d0[o + i]);
            if cur & b != b {
                assert(!spec_only_clears(d0[o + i], bytes@[i as int]));
                assert(spec_first_conflict(d0, o as int, bytes@, i as nat) == Some(i as int));
                return Err(FlashError::Other);
            }
            self.data[o + i] = cur & b;
            proof {
                assert(self.data@ =~= spec_written(d0, o as int, bytes@, i + 1));
            }
            i += 1;
        }
        assert(spec_first_conflict(d0, o as int, bytes@, n as nat) is None);
        Ok(())
    }
}

/// Writing over erased bytes never conflicts: an erased part takes any write.
pub proof fn lemma_erased_takes_any_write(b: u8)
    ensures
        spec_only_clears(0xFFu8, b),
{
    assert(0xFFu8 & b == b) by (bit_vector);
}

} // verus!
