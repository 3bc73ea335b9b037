//! Guest calls into an I2C driver.

use vstd::prelude::*;

use crate::error::{status_from_result, Errno};
use crate::guest::{
    check_disjoint, lemma_outcome_of_status, outcome_of, read_span, span_of, splice, write_span,
    GuestBytes, MemoryFault,
};
use crate::i2c::I2c;

verus! {

/// Opens an I2C bus for the guest: its status, and the handle on success
/// (`-1` otherwise).
pub fn i2c_init<D: I2c>(drv: &mut D, port: u32, baud: u32, sda: i32, scl: i32) -> (r: (Errno, i32))
    ensures
        D::init_post(*old(drv), port, baud, sda, scl, *final(drv), outcome_of(r.0, r.1)),
        r.0 != Errno::Success ==> r.1 == -1,
{
    let res = drv.init(port, baud, sda, scl);
    let s = status_from_result(&res);
    let h = match res {
        Ok(h) => h,
        Err(_) => -1,
    };
    proof {
        lemma_outcome_of_status(res, h);
    }
    (s, h)
}

/// Closes an I2C handle for the guest.
pub fn i2c_deinit<D: I2c>(drv: &mut D, handle: i32) -> (r: Errno)
    ensures
        D::deinit_post(*old(drv), handle, *final(drv), outcome_of(r, ())),
{
    let res = drv.deinit(handle);
    proof {
        lemma_outcome_of_status(res, ());
    }
    status_from_result(&res)
}

/// Writes the guest bytes of `data` to the device at `addr`.
///
/// A span outside guest memory is refused before the driver is called.
pub fn i2c_write<D: I2c>(drv: &mut D, mem: &Vec<u8>, handle: i32, addr: u16, data: GuestBytes) -> (r: Result<Errno, MemoryFault>)
    ensures
        r is Err <==> !data.fits(mem@.len() as int),
        r matches Err(f) ==> f == MemoryFault::OutOfBounds && *final(drv) == *old(drv),
        r matches Ok(s) ==> D::write_post(*old(drv), handle, addr, span_of(mem@, data), *final(drv), outcome_of(s, ())),
{
    match read_span(mem, data) {
        Err(f) => Err(f),
        Ok(bytes) => {
            let res = drv.write(handle, addr, bytes.as_slice());
            proof {
                lemma_outcome_of_status(res, ());
            }
            Ok(status_from_result(&res))
        }
    }
}

/// Reads from the device at `addr` into the guest span `buff`.
///
/// The driver is handed a copy of the span; what it leaves there reaches
/// guest memory only when it succeeds. A span outside guest memory is refused
/// before the driver is called.
pub fn i2c_read<D: I2c>(drv: &mut D, mem: &mut Vec<u8>, handle: i32, addr: u16, buff: GuestBytes) -> (r: Result<Errno, MemoryFault>)
    ensures
        r is Err <==> !buff.fits(old(mem)@.len() as int),
        r matches Err(f) ==> f == MemoryFault::OutOfBounds && *final(drv) == *old(drv) && final(mem)@ == old(mem)@,
        r matches Ok(s) ==> exists|after: Seq<u8>|
            #![trigger D::read_post(*old(drv), handle, addr, span_of(old(mem)@, buff), *final(drv), after, outcome_of(s, ()))]
            after.len() == buff.len
            && D::read_post(*old(drv), handle, addr, span_of(old(mem)@, buff), *final(drv), after, outcome_of(s, ()))
            && final(mem)@ == (if s == Errno::Success { splice(old(mem)@, buff.ptr as int, after) } else { old(mem)@ }),
{
    match read_span(mem, buff) {
        Err(f) => Err(f),
        Ok(mut bytes) => {
            let ghost before = bytes@;
            let res = drv.read(handle, addr, bytes.as_mut_slice());
            proof {
                lemma_outcome_of_status(res, ());
            }
            let s = status_from_result(&res);
            if s.is_ok() {
                write_span(mem, buff, &bytes);
            }
            assert(D::read_post(*old(drv), handle, addr, span_of(old(mem)@, buff), *final(drv), bytes@, outcome_of(s, ())));
            Ok(s)
        }
    }
}

/// Writes the guest bytes of `data` to the device at `addr` and reads its
/// answer into the guest span `buff`, in one transaction.
///
/// Spans outside guest memory, and a `buff` that overlaps `data`, are refused
/// before the driver is called. What the driver leaves in its copy of `buff`
/// reaches guest memory only when it succeeds.
pub fn i2c_write_read<D: I2c>(
    drv: &mut D,
    mem: &mut Vec<u8>,
    handle: i32,
    addr: u16,
    data: GuestBytes,
    buff: GuestBytes,
) -> (r: Result<Errno, MemoryFault>)
    ensures
        r == Err::<Errno, MemoryFault>(MemoryFault::OutOfBounds)
            <==> !data.fits(old(mem)@.len() as int) || !buff.fits(old(mem)@.len() as int),
        r == Err::<Errno, MemoryFault>(MemoryFault::Overlap)
            <==> data.fits(old(mem)@.len() as int) && buff.fits(old(mem)@.len() as int) && data.overlaps(buff),
        r is Err ==> *final(drv) == *old(drv) && final(mem)@ == old(mem)@,
        r matches Ok(s) ==> exists|after: Seq<u8>|
            #![trigger D::write_read_post(*old(drv), handle, addr, span_of(old(mem)@, data), span_of(old(mem)@, buff), *final(drv), after, outcome_of(s, ()))]
            after.len() == buff.len
            && D::write_read_post(*old(drv), handle, addr, span_of(old(mem)@, data), span_of(old(mem)@, buff), *final(drv), after, outcome_of(s, ()))
            && final(mem)@ == (if s == Errno::Success { splice(old(mem)@, buff.ptr as int, after) } else { old(mem)@ }),
{
    let out = match read_span(mem, data) {
        Err(f) => {
            return Err(f);
        },
        Ok(v) => v,
    };
    let mut bytes = match read_span(mem, buff) {
        Err(f) => {
            return Err(f);
        },
        Ok(v) => v,
    };
    if let Err(f) = check_disjoint(data, buff) {
        return Err(f);
    }
    let res = drv.write_read(handle, addr, out.as_slice(), bytes.as_mut_slice());
    proof {
        lemma_outcome_of_status(res, ());
    }
    let s = status_from_result(&res);
    if s.is_ok() {
        write_span(mem, buff, &bytes);
    }
    assert(D::write_read_post(*old(drv), handle, addr, span_of(old(mem)@, data), span_of(old(mem)@, buff), *final(drv), bytes@, outcome_of(s, ())));
    Ok(s)
}

} // verus!
