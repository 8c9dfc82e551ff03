//! A bounds-checked remote buffer: the host's view of one call's guest
//! memory.
//!
//! Copying script and data bytes into the guest, and reading result bytes
//! back out, are copy-in/copy-out operations against a capacity-bounded
//! region that fail cleanly on out-of-range offsets — never unchecked
//! address arithmetic.

use vstd::prelude::*;

use crate::errors::{ErrorModel, ExecutionError};

verus! {

/// The contents of a region after writing `src` at `offset`: bytes inside
/// the written window come from `src`, all others are unchanged.
pub open spec fn spec_written(region: Seq<u8>, offset: int, src: Seq<u8>) -> Seq<u8> {
    region.map(
        |i: int, b: u8|
            if offset <= i < offset + src.len() {
                src[i - offset]
            } else {
                b
            },
    )
}

/// The message of the failure that an out-of-range copy yields.
pub open spec fn spec_out_of_range_msg() -> Seq<char> {
    "copy past the end of the guest region"@
}

/// The bounds rule every boundary copy obeys: a copy of `len` bytes at
/// `offset` fits a region of `capacity` bytes. Computed without wrapping,
/// whatever the arguments.
pub fn copy_fits(offset: u64, len: u64, capacity: u64) -> (r: bool)
    ensures
        r == (offset + len <= capacity),
{
    len <= capacity && offset <= capacity - len
}

/// A capacity-bounded byte region standing for one call's isolated guest
/// memory. Its view is its full contents; its length never changes.
pub struct GuestRegion {
    bytes: Vec<u8>,
}

impl View for GuestRegion {
    type V = Seq<u8>;

    closed spec fn view(&self) -> Seq<u8> {
        self.bytes@
    }
}

impl GuestRegion {
    /// A zero-filled region of `capacity` bytes.
    pub fn new(capacity: usize) -> (r: Self)
        ensures
            r@ == Seq::<u8>::new(capacity as nat, |i: int| 0u8),
    {
        GuestRegion { bytes: vec![0u8; capacity] }
    }

    /// The region's capacity in bytes.
    pub fn capacity(&self) -> (r: usize)
        ensures
            r == self@.len(),
    {
        self.bytes.len()
    }

    /// Copy-in: writes all of `src` into the region starting at `offset`.
    /// Fails, leaving the region unchanged, exactly when the write would run
    /// past the region's capacity.
    pub fn write_at(&mut self, offset: usize, src: &[u8]) -> (r: Result<(), ExecutionError>)
        ensures
            r is Ok <==> offset + src@.len() <= old(self)@.len(),
            r is Ok ==> final(self)@ == spec_written(old(self)@, offset as int, src@),
            r matches Err(e) ==> final(self)@ == old(self)@ && e@ == ErrorModel::GuestFault(
                spec_out_of_range_msg(),
            ),
    {
        let len = src.len();
        if len > self.bytes.len() || offset > self.bytes.len() - len {
            return Err(ExecutionError::GuestFault(
                "copy past the end of the guest region".to_owned(),
            ));
        }
        let n = self.bytes.len();
        let mut j: usize = 0;
        while j < len
            invariant
                j <= len,
                len == src@.len(),
                offset + len <= n,
                n == self.bytes@.len(),
                self.bytes@.len() == old(self)@.len(),
                forall|i: int| 0 <= i < j ==> self.bytes@[offset + i] == src@[i],
                forall|i: int|
                    0 <= i < self.bytes@.len() && !(offset <= i < offset + j)
                        ==> self.bytes@[i] == old(self)@[i],
            decreases len - j,
        {
            self.bytes[offset + j] = src[j];
            j = j + 1;
        }
        proof {
            assert(self.bytes@ =~= spec_written(old(self)@, offset as int, src@));
        }
        Ok(())
    }

    /// Copy-out: reads `len` bytes starting at `offset`. Fails exactly when
    /// the read would run past the region's capacity.
    pub fn read_at(&self, offset: usize, len: usize) -> (r: Result<Vec<u8>, ExecutionError>)
        ensures
            r is Ok <==> offset + len <= self@.len(),
            r matches Ok(v) ==> v@ == self@.subrange(offset as int, offset + len),
            r matches Err(e) ==> e@ == ErrorModel::GuestFault(spec_out_of_range_msg()),
    {
        if len > self.bytes.len() || offset > self.bytes.len() - len {
            return Err(ExecutionError::GuestFault(
                "copy past the end of the guest region".to_owned(),
            ));
        }
        let n = self.bytes.len();
        let mut out: Vec<u8> = Vec::new();
        let mut j: usize = 0;
        while j < len
            invariant
                j <= len,
                offset + len <= n,
                n == self.bytes@.len(),
                out@ =~= self.bytes@.subrange(offset as int, offset + j),
            decreases len - j,
        {
            out.push(self.bytes[offset + j]);
            j = j + 1;
        }
        Ok(out)
    }
}

} // verus!
