//! Guest calls into an SPI driver.

use vstd::prelude::*;

use crate::error::{status_from_result, Errno};
use crate::guest::{
    check_disjoint, lemma_outcome_of_status, outcome_of, read_span, span_of, splice, write_span,
    GuestBytes, MemoryFault,
};
use crate::spi::Spi;

verus! {

/// Opens an SPI bus for the guest: its status, and the handle on success
/// (`-1` otherwise).
pub fn spi_init<D: Spi>(drv: &mut D, dev: u32, baud: u32, mosi: i32, miso: i32, sck: i32, cs: i32) -> (r: (Errno, i32))
    ensures
        D::init_post(*old(drv), dev, baud, mosi, miso, sck, cs, *final(drv), outcome_of(r.0, r.1)),
        r.0 != Errno::Success ==> r.1 == -1,
{
    let res = drv.init(dev, baud, mosi, miso, sck, cs);
    let s = status_from_result(&res);
    let h = match res {
        Ok(h) => h,
        Err(_) => -1,
    };
    proof {
        lemma_outcome_of_status(res, h);
    }
    (s, h)
}

/// Closes an SPI handle for the guest.
pub fn spi_deinit<D: Spi>(drv: &mut D, handle: i32) -> (r: Errno)
    ensures
        D::deinit_post(*old(drv), handle, *final(drv), outcome_of(r, ())),
{
    let res = drv.deinit(handle);
    proof {
        lemma_outcome_of_status(res, ());
    }
    status_from_result(&res)
}

/// Reads from the bus into the guest span `buff`.
///
/// The driver is handed a copy of the span; what it leaves there reaches
/// guest memory only when it succeeds. A span outside guest memory is refused
/// before the driver is called.
pub fn spi_read<D: Spi>(drv: &mut D, mem: &mut Vec<u8>, handle: i32, buff: GuestBytes) -> (r: Result<Errno, MemoryFault>)
    ensures
        r is Err <==> !buff.fits(old(mem)@.len() as int),
        r matches Err(f) ==> f == MemoryFault::OutOfBounds && *final(drv) == *old(drv) && final(mem)@ == old(mem)@,
        r matches Ok(s) ==> exists|after: Seq<u8>|
            #![trigger D::read_post(*old(drv), handle, span_of(old(mem)@, buff), *final(drv), after, outcome_of(s, ()))]
            after.len() == buff.len
            && D::read_post(*old(drv), handle, span_of(old(mem)@, buff), *final(drv), after, outcome_of(s, ()))
            && final(mem)@ == (if s == Errno::Success { splice(old(mem)@, buff.ptr as int, after) } else { old(mem)@ }),
{
    match read_span(mem, buff) {
        Err(f) => Err(f),
        Ok(mut bytes) => {
            let res = drv.read(handle, bytes.as_mut_slice());
            proof {
                lemma_outcome_of_status(res, ());
            }
            let s = status_from_result(&res);
            if s.is_ok() {
                write_span(mem, buff, &bytes);
            }
            assert(D::read_post(*old(drv), handle, span_of(old(mem)@, buff), *final(drv), bytes@, outcome_of(s, ())));
            Ok(s)
        }
    }
}

/// Writes the guest bytes of `data` to the bus.
///
/// A span outside guest memory is refused before the driver is called.
pub fn spi_write<D: Spi>(drv: &mut D, mem: &Vec<u8>, handle: i32, data: GuestBytes) -> (r: Result<Errno, MemoryFault>)
    ensures
        r is Err <==> !data.fits(mem@.len() as int),
        r matches Err(f) ==> f == MemoryFault::OutOfBounds && *final(drv) == *old(drv),
        r matches Ok(s) ==> D::write_post(*old(drv), handle, span_of(mem@, data), *final(drv), outcome_of(s, ())),
{
    match read_span(mem, data) {
        Err(f) => Err(f),
        Ok(bytes) => {
            let res = drv.write(handle, bytes.as_slice());
            proof {
                lemma_outcome_of_status(res, ());
            }
            Ok(status_from_result(&res))
        }
    }
}

/// Clocks the guest bytes of `write` out while reading into the guest span
/// `read`.
///
/// Spans outside guest memory, and a `read` that overlaps `write`, are refused
/// before the driver is called. What the driver leaves in its copy of `read`
/// reaches guest memory only when it succeeds.
pub fn spi_transfer<D: Spi>(
    drv: &mut D,
    mem: &mut Vec<u8>,
    handle: i32,
    read: GuestBytes,
    write: GuestBytes,
) -> (r: Result<Errno, MemoryFault>)
    ensures
        r == Err::<Errno, MemoryFault>(MemoryFault::OutOfBounds)
            <==> !read.fits(old(mem)@.len() as int) || !write.fits(old(mem)@.len() as int),
        r == Err::<Errno, MemoryFault>(MemoryFault::Overlap)
            <==> read.fits(old(mem)@.len() as int) && write.fits(old(mem)@.len() as int) && read.overlaps(write),
        r is Err ==> *final(drv) == *old(drv) && final(mem)@ == old(mem)@,
        r matches Ok(s) ==> exists|after: Seq<u8>|
            #![trigger D::transfer_post(*old(drv), handle, span_of(old(mem)@, read), span_of(old(mem)@, write), *final(drv), after, outcome_of(s, ()))]
            after.len() == read.len
            && D::transfer_post(*old(drv), handle, span_of(old(mem)@, read), span_of(old(mem)@, write), *final(drv), after, outcome_of(s, ()))
            && final(mem)@ == (if s == Errno::Success { splice(old(mem)@, read.ptr as int, after) } else { old(mem)@ }),
{
    let mut inbound = match read_span(mem, read) {
        Err(f) => {
            return Err(f);
        },
        Ok(v) => v,
    };
    let outbound = match read_span(mem, write) {
        Err(f) => {
            return Err(f);
        },
        Ok(v) => v,
    };
    if let Err(f) = check_disjoint(read, write) {
        return Err(f);
    }
    let res = drv.transfer(handle, inbound.as_mut_slice(), outbound.as_slice());
    proof {
        lemma_outcome_of_status(res, ());
    }
    let s = status_from_result(&res);
    if s.is_ok() {
        write_span(mem, read, &inbound);
    }
    assert(D::transfer_post(*old(drv), handle, span_of(old(mem)@, read), span_of(old(mem)@, write), *final(drv), inbound@, outcome_of(s, ())));
    Ok(s)
}

/// Clocks the guest span `data` out and replaces it with what came in.
///
/// A span outside guest memory is refused before the driver is called. What
/// the driver leaves in its copy of the span reaches guest memory only when it
/// succeeds.
pub fn spi_transfer_inplace<D: Spi>(drv: &mut D, mem: &mut Vec<u8>, handle: i32, data: GuestBytes) -> (r: Result<Errno, MemoryFault>)
    ensures
        r is Err <==> !data.fits(old(mem)@.len() as int),
        r matches Err(f) ==> f == MemoryFault::OutOfBounds && *final(drv) == *old(drv) && final(mem)@ == old(mem)@,
        r matches Ok(s) ==> exists|after: Seq<u8>|
            #![trigger D::transfer_inplace_post(*old(drv), handle, span_of(old(mem)@, data), *final(drv), after, outcome_of(s, ()))]
            after.len() == data.len
            && D::transfer_inplace_post(*old(drv), handle, span_of(old(mem)@, data), *final(drv), after, outcome_of(s, ()))
            && final(mem)@ == (if s == Errno::Success { splice(old(mem)@, data.ptr as int, after) } else { old(mem)@ }),
{
    match read_span(mem, data) {
        Err(f) => Err(f),
        Ok(mut bytes) => {
            let res = drv.transfer_inplace(handle, bytes.as_mut_slice());
            proof {
                lemma_outcome_of_status(res, ());
            }
            let s = status_from_result(&res);
            if s.is_ok() {
                write_span(mem, data, &bytes);
            }
            assert(D::transfer_inplace_post(*old(drv), handle, span_of(old(mem)@, data), *final(drv), bytes@, outcome_of(s, ())));
            Ok(s)
        }
    }
}

} // verus!
