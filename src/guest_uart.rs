//! Guest calls into a UART driver.

use vstd::prelude::*;

use crate::error::{status_from_result, Errno};
use crate::guest::{lemma_outcome_of_status, outcome_of, read_span, span_of, splice, write_span, GuestBytes, MemoryFault};
use crate::uart::Uart;

verus! {

/// Opens a UART port for the guest: its status, and the handle on success
/// (`-1` otherwise).
pub fn uart_init<D: Uart>(drv: &mut D, port: u32, baud: u32, tx: i32, rx: i32) -> (r: (Errno, i32))
    ensures
        D::init_post(*old(drv), port, baud, tx, rx, *final(drv), outcome_of(r.0, r.1)),
        r.0 != Errno::Success ==> r.1 == -1,
{
    let res = drv.init(port, baud, tx, rx);
    let s = status_from_result(&res);
    let h = match res {
        Ok(h) => h,
        Err(_) => -1,
    };
    proof {
        lemma_outcome_of_status(res, h);
    }
    (s, h)
}

/// Closes a UART handle for the guest.
pub fn uart_deinit<D: Uart>(drv: &mut D, handle: i32) -> (r: Errno)
    ensures
        D::deinit_post(*old(drv), handle, *final(drv), outcome_of(r, ())),
{
    let res = drv.deinit(handle);
    proof {
        lemma_outcome_of_status(res, ());
    }
    status_from_result(&res)
}

/// Sends the guest bytes of `data`. The guest's signed flags reach the driver
/// with the same bits, as an unsigned word.
///
/// A span outside guest memory is refused before the driver is called.
pub fn uart_write<D: Uart>(drv: &mut D, mem: &Vec<u8>, handle: i32, flags: i32, data: GuestBytes) -> (r: Result<Errno, MemoryFault>)
    ensures
        r is Err <==> !data.fits(mem@.len() as int),
        r matches Err(f) ==> f == MemoryFault::OutOfBounds && *final(drv) == *old(drv),
        r matches Ok(s) ==> D::write_post(*old(drv), handle, flags as u32, span_of(mem@, data), *final(drv), outcome_of(s, ())),
{
    match read_span(mem, data) {
        Err(f) => Err(f),
        Ok(bytes) => {
            let res = drv.write(handle, flags as u32, bytes.as_slice());
            proof {
                lemma_outcome_of_status(res, ());
            }
            Ok(status_from_result(&res))
        }
    }
}

/// Receives into the guest span `buff`. The guest's signed flags reach the
/// driver with the same bits, as an unsigned word.
///
/// The driver is handed a copy of the span; what it leaves there reaches
/// guest memory only when it succeeds. A span outside guest memory is refused
/// before the driver is called.
pub fn uart_read<D: Uart>(drv: &mut D, mem: &mut Vec<u8>, handle: i32, flags: i32, buff: GuestBytes) -> (r: Result<Errno, MemoryFault>)
    ensures
        r is Err <==> !buff.fits(old(mem)@.len() as int),
        r matches Err(f) ==> f == MemoryFault::OutOfBounds && *final(drv) == *old(drv) && final(mem)@ == old(mem)@,
        r matches Ok(s) ==> exists|after: Seq<u8>|
            #![trigger D::read_post(*old(drv), handle, flags as u32, span_of(old(mem)@, buff), *final(drv), after, outcome_of(s, ()))]
            after.len() == buff.len
            && D::read_post(*old(drv), handle, flags as u32, span_of(old(mem)@, buff), *final(drv), after, outcome_of(s, ()))
            && final(mem)@ == (if s == Errno::Success { splice(old(mem)@, buff.ptr as int, after) } else { old(mem)@ }),
{
    match read_span(mem, buff) {
        Err(f) => Err(f),
        Ok(mut bytes) => {
            let res = drv.read(handle, flags as u32, bytes.as_mut_slice());
            proof {
                lemma_outcome_of_status(res, ());
            }
            let s = status_from_result(&res);
            if s.is_ok() {
                write_span(mem, buff, &bytes);
            }
            assert(D::read_post(*old(drv), handle, flags as u32, span_of(old(mem)@, buff), *final(drv), bytes@, outcome_of(s, ())));
            Ok(s)
        }
    }
}

} // verus!
