//! Foreign entry points into a registered SPI driver.
//!
//! Each returns `0` on success and `-1` on any failure, a token that names
//! no driver included; what went wrong is not reported.

use vstd::prelude::*;

use crate::error::Error;
use crate::spi::Spi;
use crate::registry::{c_status, c_status_of, c_value_of, Registry};

verus! {

/// Opens bus `dev` at `baud` on the given pins through the driver of `ctx`: the
/// status and, on success, the handle (`-1` otherwise).
pub fn c_spi_init<D: Spi>(reg: &mut Registry<D>, ctx: usize, dev: u32, baud: u32, mosi: i32, miso: i32, sck: i32, cs: i32) -> (r: (i32, i32))
    ensures
        !old(reg).holds(ctx) ==> r == (-1i32, -1i32) && final(reg).view() == old(reg).view(),
        old(reg).holds(ctx) ==> final(reg).holds(ctx)
            && final(reg).view() == old(reg).with_driver(ctx, final(reg).driver(ctx))
            && exists|res: Result<i32, Error>|
                #![trigger D::init_post(old(reg).driver(ctx), dev, baud, mosi, miso, sck, cs, final(reg).driver(ctx), res)]
                D::init_post(old(reg).driver(ctx), dev, baud, mosi, miso, sck, cs, final(reg).driver(ctx), res)
                && r == (c_status_of(res), c_value_of(res, -1i32)),
{
    match reg.get_mut(ctx) {
        None => (-1, -1i32),
        Some(d) => {
            let res = d.init(dev, baud, mosi, miso, sck, cs);
            assert(D::init_post(old(reg).driver(ctx), dev, baud, mosi, miso, sck, cs, final(reg).driver(ctx), res));
            (c_status(&res), match res {
                Ok(v) => v,
                Err(_) => -1i32,
            })
        },
    }
}

/// Closes `handle` through the driver of `ctx`.
pub fn c_spi_deinit<D: Spi>(reg: &mut Registry<D>, ctx: usize, handle: i32) -> (r: i32)
    ensures
        !old(reg).holds(ctx) ==> r == -1 && final(reg).view() == old(reg).view(),
        old(reg).holds(ctx) ==> final(reg).holds(ctx)
            && final(reg).view() == old(reg).with_driver(ctx, final(reg).driver(ctx))
            && exists|res: Result<(), Error>|
                #![trigger D::deinit_post(old(reg).driver(ctx), handle, final(reg).driver(ctx), res)]
                D::deinit_post(old(reg).driver(ctx), handle, final(reg).driver(ctx), res)
                && r == c_status_of(res),
{
    match reg.get_mut(ctx) {
        None => -1,
        Some(d) => {
            let res = d.deinit(handle);
            assert(D::deinit_post(old(reg).driver(ctx), handle, final(reg).driver(ctx), res));
            c_status(&res)
        },
    }
}

/// Reads from the bus into `data` through the driver of `ctx`.
pub fn c_spi_read<D: Spi>(reg: &mut Registry<D>, ctx: usize, handle: i32, data: &mut [u8]) -> (r: i32)
    ensures
        final(data)@.len() == old(data)@.len(),
        !old(reg).holds(ctx) ==> r == -1 && final(reg).view() == old(reg).view() && final(data)@ == old(data)@,
        old(reg).holds(ctx) ==> final(reg).holds(ctx)
            && final(reg).view() == old(reg).with_driver(ctx, final(reg).driver(ctx))
            && exists|res: Result<(), Error>|
                #![trigger D::read_post(old(reg).driver(ctx), handle, old(data)@, final(reg).driver(ctx), final(data)@, res)]
                D::read_post(old(reg).driver(ctx), handle, old(data)@, final(reg).driver(ctx), final(data)@, res)
                && r == c_status_of(res),
{
    match reg.get_mut(ctx) {
        None => -1,
        Some(d) => {
            let res = d.read(handle, data);
            assert(D::read_post(old(reg).driver(ctx), handle, old(data)@, final(reg).driver(ctx), data@, res));
            c_status(&res)
        },
    }
}

/// Writes `data` to the bus through the driver of `ctx`.
pub fn c_spi_write<D: Spi>(reg: &mut Registry<D>, ctx: usize, handle: i32, data: &[u8]) -> (r: i32)
    ensures
        !old(reg).holds(ctx) ==> r == -1 && final(reg).view() == old(reg).view(),
        old(reg).holds(ctx) ==> final(reg).holds(ctx)
            && final(reg).view() == old(reg).with_driver(ctx, final(reg).driver(ctx))
            && exists|res: Result<(), Error>|
                #![trigger D::write_post(old(reg).driver(ctx), handle, data@, final(reg).driver(ctx), res)]
                D::write_post(old(reg).driver(ctx), handle, data@, final(reg).driver(ctx), res)
                && r == c_status_of(res),
{
    match reg.get_mut(ctx) {
        None => -1,
        Some(d) => {
            let res = d.write(handle, data);
            assert(D::write_post(old(reg).driver(ctx), handle, data@, final(reg).driver(ctx), res));
            c_status(&res)
        },
    }
}

/// Clocks `write` out while reading into `read`, through the driver of `ctx`.
pub fn c_spi_transfer<D: Spi>(reg: &mut Registry<D>, ctx: usize, handle: i32, read: &mut [u8], write: &[u8]) -> (r: i32)
    ensures
        final(read)@.len() == old(read)@.len(),
        !old(reg).holds(ctx) ==> r == -1 && final(reg).view() == old(reg).view() && final(read)@ == old(read)@,
        old(reg).holds(ctx) ==> final(reg).holds(ctx)
            && final(reg).view() == old(reg).with_driver(ctx, final(reg).driver(ctx))
            && exists|res: Result<(), Error>|
                #![trigger D::transfer_post(old(reg).driver(ctx), handle, old(read)@, write@, final(reg).driver(ctx), final(read)@, res)]
                D::transfer_post(old(reg).driver(ctx), handle, old(read)@, write@, final(reg).driver(ctx), final(read)@, res)
                && r == c_status_of(res),
{
    match reg.get_mut(ctx) {
        None => -1,
        Some(d) => {
            let res = d.transfer(handle, read, write);
            assert(D::transfer_post(old(reg).driver(ctx), handle, old(read)@, write@, final(reg).driver(ctx), read@, res));
            c_status(&res)
        },
    }
}

/// Clocks `data` out and replaces it with what came in, through the driver of
/// `ctx`.
pub fn c_spi_transfer_inplace<D: Spi>(reg: &mut Registry<D>, ctx: usize, handle: i32, data: &mut [u8]) -> (r: i32)
    ensures
        final(data)@.len() == old(data)@.len(),
        !old(reg).holds(ctx) ==> r == -1 && final(reg).view() == old(reg).view() && final(data)@ == old(data)@,
        old(reg).holds(ctx) ==> final(reg).holds(ctx)
            && final(reg).view() == old(reg).with_driver(ctx, final(reg).driver(ctx))
            && exists|res: Result<(), Error>|
                #![trigger D::transfer_inplace_post(old(reg).driver(ctx), handle, old(data)@, final(reg).driver(ctx), final(data)@, res)]
                D::transfer_inplace_post(old(reg).driver(ctx), handle, old(data)@, final(reg).driver(ctx), final(data)@, res)
                && r == c_status_of(res),
{
    match reg.get_mut(ctx) {
        None => -1,
        Some(d) => {
            let res = d.transfer_inplace(handle, data);
            assert(D::transfer_inplace_post(old(reg).driver(ctx), handle, old(data)@, final(reg).driver(ctx), data@, res));
            c_status(&res)
        },
    }
}

} // verus!
