//! Foreign entry points into a registered UART driver.
//!
//! Each returns `0` on success and `-1` on any failure, a token that names
//! no driver included; what went wrong is not reported.

use vstd::prelude::*;

use crate::error::Error;
use crate::uart::Uart;
use crate::registry::{c_status, c_status_of, c_value_of, Registry};

verus! {

/// Opens port `dev` at `baud` on pins `tx`, `rx` through the driver of `ctx`:
/// the status and, on success, the handle (`-1` otherwise).
pub fn c_uart_init<D: Uart>(reg: &mut Registry<D>, ctx: usize, dev: u32, baud: u32, tx: i32, rx: i32) -> (r: (i32, i32))
    ensures
        !old(reg).holds(ctx) ==> r == (-1i32, -1i32) && final(reg).view() == old(reg).view(),
        old(reg).holds(ctx) ==> final(reg).holds(ctx)
            && final(reg).view() == old(reg).with_driver(ctx, final(reg).driver(ctx))
            && exists|res: Result<i32, Error>|
                #![trigger D::init_post(old(reg).driver(ctx), dev, baud, tx, rx, final(reg).driver(ctx), res)]
                D::init_post(old(reg).driver(ctx), dev, baud, tx, rx, final(reg).driver(ctx), res)
                && r == (c_status_of(res), c_value_of(res, -1i32)),
{
    match reg.get_mut(ctx) {
        None => (-1, -1i32),
        Some(d) => {
            let res = d.init(dev, baud, tx, rx);
            assert(D::init_post(old(reg).driver(ctx), dev, baud, tx, rx, final(reg).driver(ctx), res));
            (c_status(&res), match res {
                Ok(v) => v,
                Err(_) => -1i32,
            })
        },
    }
}

/// Closes `handle` through the driver of `ctx`.
pub fn c_uart_deinit<D: Uart>(reg: &mut Registry<D>, ctx: usize, handle: i32) -> (r: i32)
    ensures
        !old(reg).holds(ctx) ==> r == -1 && final(reg).view() == old(reg).view(),
        old(reg).holds(ctx) ==> final(reg).holds(ctx)
            && final(reg).view() == old(reg).with_driver(ctx, final(reg).driver(ctx))
            && exists|res: Result<(), Error>|
                #![trigger D::deinit_post(old(reg).driver(ctx), handle, final(reg).driver(ctx), res)]
                D::deinit_post(old(reg).driver(ctx), handle, final(reg).driver(ctx), res)
                && r == c_status_of(res),
{
    match reg.get_mut(ctx) {
        None => -1,
        Some(d) => {
            let res = d.deinit(handle);
            assert(D::deinit_post(old(reg).driver(ctx), handle, final(reg).driver(ctx), res));
            c_status(&res)
        },
    }
}

/// Sends `data` through the driver of `ctx`.
pub fn c_uart_write<D: Uart>(reg: &mut Registry<D>, ctx: usize, handle: i32, flags: u32, data: &[u8]) -> (r: i32)
    ensures
        !old(reg).holds(ctx) ==> r == -1 && final(reg).view() == old(reg).view(),
        old(reg).holds(ctx) ==> final(reg).holds(ctx)
            && final(reg).view() == old(reg).with_driver(ctx, final(reg).driver(ctx))
            && exists|res: Result<(), Error>|
                #![trigger D::write_post(old(reg).driver(ctx), handle, flags, data@, final(reg).driver(ctx), res)]
                D::write_post(old(reg).driver(ctx), handle, flags, data@, final(reg).driver(ctx), res)
                && r == c_status_of(res),
{
    match reg.get_mut(ctx) {
        None => -1,
        Some(d) => {
            let res = d.write(handle, flags, data);
            assert(D::write_post(old(reg).driver(ctx), handle, flags, data@, final(reg).driver(ctx), res));
            c_status(&res)
        },
    }
}

/// Receives into `buff` through the driver of `ctx`.
pub fn c_uart_read<D: Uart>(reg: &mut Registry<D>, ctx: usize, handle: i32, flags: u32, buff: &mut [u8]) -> (r: i32)
    ensures
        final(buff)@.len() == old(buff)@.len(),
        !old(reg).holds(ctx) ==> r == -1 && final(reg).view() == old(reg).view() && final(buff)@ == old(buff)@,
        old(reg).holds(ctx) ==> final(reg).holds(ctx)
            && final(reg).view() == old(reg).with_driver(ctx, final(reg).driver(ctx))
            && exists|res: Result<(), Error>|
                #![trigger D::read_post(old(reg).driver(ctx), handle, flags, old(buff)@, final(reg).driver(ctx), final(buff)@, res)]
                D::read_post(old(reg).driver(ctx), handle, flags, old(buff)@, final(reg).driver(ctx), final(buff)@, res)
                && r == c_status_of(res),
{
    match reg.get_mut(ctx) {
        None => -1,
        Some(d) => {
            let res = d.read(handle, flags, buff);
            assert(D::read_post(old(reg).driver(ctx), handle, flags, old(buff)@, final(reg).driver(ctx), buff@, res));
            c_status(&res)
        },
    }
}

} // verus!
