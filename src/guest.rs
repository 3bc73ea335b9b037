//! Guest linear memory and the buffer descriptors that point into it.
//!
//! A guest hands the host a (pointer, length) pair for each buffer. Before a
//! driver sees any byte, the span is checked against the size of the guest's
//! memory, computed without overflow, and spans that one call would read and
//! write at once are checked for overlap. A refused descriptor is a memory
//! fault, kept apart from the driver's own errors.

use vstd::prelude::*;

use crate::error::{error_of, status_of, Errno, Error};

verus! {

/// A contiguous span of guest memory: `len` bytes starting at `ptr`.
#[derive(Clone, Copy, PartialEq, Eq, Structural, Debug)]
pub struct GuestBytes {
    pub ptr: u32,
    pub len: u32,
}

/// A malformed guest call, found before any driver is reached.
#[derive(Clone, Copy, PartialEq, Eq, Structural, Debug)]
pub enum MemoryFault {
    /// The span runs past the end of guest memory.
    OutOfBounds,
    /// A span the driver reads overlaps a span it writes in the same call.
    Overlap,
}

impl GuestBytes {
    /// One past the last byte of the span.
    pub open spec fn end(self) -> int {
        self.ptr + self.len
    }

    /// The span lies inside a memory of `size` bytes.
    pub open spec fn fits(self, size: int) -> bool {
        self.end() <= size
    }

    /// The two spans share at least one byte.
    pub open spec fn overlaps(self, other: GuestBytes) -> bool {
        self.len > 0 && other.len > 0 && self.ptr < other.end() && other.ptr < self.end()
    }
}

/// The bytes that a span designates in `mem`.
pub open spec fn span_of(mem: Seq<u8>, d: GuestBytes) -> Seq<u8> {
    mem.subrange(d.ptr as int, d.end())
}

/// `mem` with the bytes from `at` on replaced by `data`.
pub open spec fn splice(mem: Seq<u8>, at: int, data: Seq<u8>) -> Seq<u8> {
    mem.subrange(0, at) + data + mem.subrange(at + data.len(), mem.len() as int)
}

/// The driver outcome that a guest status and a value report.
pub open spec fn outcome_of<T>(s: Errno, v: T) -> Result<T, Error> {
    match error_of(s) {
        Some(e) => Err(e),
        None => Ok(v),
    }
}

/// A driver outcome is recovered from its status and, on success, its value.
pub proof fn lemma_outcome_of_status<T>(r: Result<T, Error>, v: T)
    requires
        r matches Ok(x) ==> x == v,
    ensures
        outcome_of(status_of(r), v) == r,
{
}

/// A span passes the bounds check exactly when it ends inside memory, so a
/// span past the end is refused whatever its length; an empty span inside
/// memory is accepted, designates no bytes, overlaps no span, and writing
/// its bytes back leaves memory as it was.
pub proof fn lemma_span_bounds(mem: Seq<u8>, d: GuestBytes, other: GuestBytes)
    ensures
        d.fits(mem.len() as int) <==> d.ptr + d.len <= mem.len(),
        d.len == 0 && d.ptr <= mem.len() ==> {
            &&& d.fits(mem.len() as int)
            &&& span_of(mem, d) == Seq::<u8>::empty()
            &&& !d.overlaps(other)
            &&& splice(mem, d.ptr as int, span_of(mem, d)) == mem
        },
{
    if d.len == 0 && d.ptr <= mem.len() {
        assert(span_of(mem, d) =~= Seq::<u8>::empty());
        assert(splice(mem, d.ptr as int, span_of(mem, d)) =~= mem);
    }
}

/// Checks that a span lies inside a memory of `size` bytes.
pub fn check_span(d: GuestBytes, size: usize) -> (r: Result<(), MemoryFault>)
    ensures
        r is Ok <==> d.fits(size as int),
        r matches Err(f) ==> f == MemoryFault::OutOfBounds,
{
    if (d.ptr as u64) + (d.len as u64) <= size as u64 {
        Ok(())
    } else {
        Err(MemoryFault::OutOfBounds)
    }
}

/// Checks that a span the driver reads and a span it writes share no byte.
pub fn check_disjoint(a: GuestBytes, b: GuestBytes) -> (r: Result<(), MemoryFault>)
    ensures
        r is Ok <==> !a.overlaps(b),
        r matches Err(f) ==> f == MemoryFault::Overlap,
{
    let a_end = a.ptr as u64 + a.len as u64;
    let b_end = b.ptr as u64 + b.len as u64;
    if a.len > 0 && b.len > 0 && (a.ptr as u64) < b_end && (b.ptr as u64) < a_end {
        Err(MemoryFault::Overlap)
    } else {
        Ok(())
    }
}

/// Copies the bytes of a span out of guest memory.
pub fn read_span(mem: &Vec<u8>, d: GuestBytes) -> (r: Result<Vec<u8>, MemoryFault>)
    ensures
        r is Ok <==> d.fits(mem@.len() as int),
        r matches Ok(v) ==> v@ == span_of(mem@, d),
        r matches Err(f) ==> f == MemoryFault::OutOfBounds,
{
    match check_span(d, mem.len()) {
        Err(f) => Err(f),
        Ok(()) => {
            let start = d.ptr as usize;
            let n = d.len as usize;
            let mut out: Vec<u8> = Vec::with_capacity(n);
            let mut i: usize = 0;
            while i < n
                invariant
                    start + n <= mem.len(),
                    start == d.ptr,
                    n == d.len,
                    i <= n,
                    out@ == mem@.subrange(start as int, start + i),
                decreases n - i,
            {
                out.push(mem[start + i]);
                i += 1;
                assert(out@ =~= mem@.subrange(start as int, start + i));
            }
            Ok(out)
        }
    }
}

/// Copies `data` into guest memory at the start of a span of the same length.
pub fn write_span(mem: &mut Vec<u8>, d: GuestBytes, data: &Vec<u8>)
    requires
        d.fits(old(mem)@.len() as int),
        data@.len() == d.len,
    ensures
        final(mem)@ == splice(old(mem)@, d.ptr as int, data@),
{
    let start = d.ptr as usize;
    let n = d.len as usize;
    let mut i: usize = 0;
    while i < n
        invariant
            start + n <= mem.len(),
            start == d.ptr,
            n == d.len,
            n == data@.len(),
            i <= n,
            mem@.len() == old(mem)@.len(),
            forall|j: int| 0 <= j < start ==> mem@[j] == old(mem)@[j],
            forall|j: int| start <= j < start + i ==> mem@[j] == data@[j - start],
            forall|j: int| start + i <= j < mem@.len() ==> mem@[j] == old(mem)@[j],
        decreases n - i,
    {
        mem.set(start + i, data[i]);
        i += 1;
    }
    assert(mem@ =~= splice(old(mem)@, d.ptr as int, data@));
}

} // verus!
