//! The memory ceiling: page rounding and the per-call growth tracker.
//!
//! A requested ceiling in bytes is rounded *up* to whole pages (and to at
//! least one page), so the effective ceiling is never silently below the
//! requested value; the documented effective ceiling is exactly
//! [`effective_ceiling`]. Every guest memory-growth request is checked
//! against it, and a refusal is remembered as a structured out-of-memory
//! cause instead of a free-text message.

use vstd::prelude::*;

use vstd::arithmetic::div_mod::lemma_fundamental_div_mod;

verus! {

/// Size in bytes of one guest memory page: the fixed allocation granularity
/// of the guest's memory region.
pub const PAGE_SIZE: u64 = 65536;

/// The number of whole pages that cover a requested ceiling of `bytes`:
/// rounded up, and at least one page so the guest can always be
/// instantiated.
pub open spec fn spec_page_count(bytes: u32) -> int {
    let rounded = ((bytes as int) + (PAGE_SIZE as int) - 1) / (PAGE_SIZE as int);
    if rounded == 0 {
        1
    } else {
        rounded
    }
}

/// The ceiling actually enforced for a requested ceiling of `bytes`: the
/// page-rounded size in bytes, never below the request.
pub open spec fn spec_effective_ceiling(bytes: u32) -> int {
    spec_page_count(bytes) * (PAGE_SIZE as int)
}

/// The page count for a requested ceiling, rounding up.
pub fn page_count(bytes: u32) -> (r: u64)
    ensures
        r == spec_page_count(bytes),
        1 <= r <= 65536,
{
    let full = (bytes as u64 + PAGE_SIZE - 1) / PAGE_SIZE;
    if full == 0 {
        1
    } else {
        full
    }
}

/// The effective, page-rounded memory ceiling in bytes for a requested
/// ceiling of `bytes`. Rounding is upward: the effective ceiling is never
/// below the requested one.
pub fn effective_ceiling(bytes: u32) -> (r: u64)
    ensures
        r == spec_effective_ceiling(bytes),
        r >= bytes,
        r % PAGE_SIZE == 0,
{
    let pages = page_count(bytes);
    proof {
        if bytes > 0 {
            lemma_fundamental_div_mod((bytes as int) + (PAGE_SIZE as int) - 1, PAGE_SIZE as int);
        }
    }
    pages * PAGE_SIZE
}

/// Tracks one call's guest memory growth against the effective ceiling.
///
/// The runtime consults the tracker on every growth request; a request that
/// would take the guest memory above the ceiling is refused, and the refusal
/// is remembered so the call's failure can be classified as out-of-memory.
pub struct MemoryTracker {
    ceiling: Option<u64>,
    refused: bool,
}

impl MemoryTracker {
    /// The effective ceiling this tracker enforces, in bytes; `None` is
    /// unlimited.
    pub closed spec fn spec_ceiling(self) -> Option<u64> {
        self.ceiling
    }

    /// Whether some growth request of this call was refused.
    pub closed spec fn spec_refused(self) -> bool {
        self.refused
    }

    /// Whether a ceiling allows a desired total memory size.
    pub open spec fn spec_allows(ceiling: Option<u64>, desired: int) -> bool {
        match ceiling {
            None => true,
            Some(c) => desired <= c,
        }
    }

    /// A fresh tracker for one call, enforcing the page-rounded form of the
    /// requested ceiling, or nothing when no ceiling is configured.
    pub fn new(memory_limit: Option<u32>) -> (r: Self)
        ensures
            !r.spec_refused(),
            match memory_limit {
                None => r.spec_ceiling() is None,
                Some(bytes) => r.spec_ceiling() == Some(spec_effective_ceiling(bytes) as u64),
            },
    {
        match memory_limit {
            None => MemoryTracker { ceiling: None, refused: false },
            Some(bytes) => MemoryTracker {
                ceiling: Some(effective_ceiling(bytes)),
                refused: false,
            },
        }
    }

    /// One growth request: may the guest memory become `desired` bytes in
    /// total? Allowed exactly when the ceiling (if any) is not exceeded; a
    /// refusal is remembered.
    pub fn on_grow(&mut self, desired: u64) -> (allowed: bool)
        ensures
            allowed == Self::spec_allows(old(self).spec_ceiling(), desired as int),
            final(self).spec_ceiling() == old(self).spec_ceiling(),
            final(self).spec_refused() == (old(self).spec_refused() || !allowed),
    {
        let allowed = match self.ceiling {
            None => true,
            Some(c) => desired <= c,
        };
        if !allowed {
            self.refused = true;
        }
        allowed
    }

    /// Whether this call ran out of memory: some growth request was refused.
    pub fn was_refused(&self) -> (r: bool)
        ensures
            r == self.spec_refused(),
    {
        self.refused
    }
}

} // verus!
