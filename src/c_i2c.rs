//! Foreign entry points into a registered I2C driver.
//!
//! Each returns `0` on success and `-1` on any failure, a token that names
//! no driver included; what went wrong is not reported.

use vstd::prelude::*;

use crate::error::Error;
use crate::i2c::I2c;
use crate::registry::{c_status, c_status_of, c_value_of, Registry};

verus! {

/// Opens bus `dev` at `baud` on pins `sda`, `sck` through the driver of `ctx`:
/// the status and, on success, the handle (`-1` otherwise).
pub fn c_i2c_init<D: I2c>(reg: &mut Registry<D>, ctx: usize, dev: u32, baud: u32, sda: i32, sck: i32) -> (r: (i32, i32))
    ensures
        !old(reg).holds(ctx) ==> r == (-1i32, -1i32) && final(reg).view() == old(reg).view(),
        old(reg).holds(ctx) ==> final(reg).holds(ctx)
            && final(reg).view() == old(reg).with_driver(ctx, final(reg).driver(ctx))
            && exists|res: Result<i32, Error>|
                #![trigger D::init_post(old(reg).driver(ctx), dev, baud, sda, sck, final(reg).driver(ctx), res)]
                D::init_post(old(reg).driver(ctx), dev, baud, sda, sck, final(reg).driver(ctx), res)
                && r == (c_status_of(res), c_value_of(res, -1i32)),
{
    match reg.get_mut(ctx) {
        None => (-1, -1i32),
        Some(d) => {
            let res = d.init(dev, baud, sda, sck);
            assert(D::init_post(old(reg).driver(ctx), dev, baud, sda, sck, final(reg).driver(ctx), res));
            (c_status(&res), match res {
                Ok(v) => v,
                Err(_) => -1i32,
            })
        },
    }
}

/// Closes `handle` through the driver of `ctx`.
pub fn c_i2c_deinit<D: I2c>(reg: &mut Registry<D>, ctx: usize, handle: i32) -> (r: i32)
    ensures
        !old(reg).holds(ctx) ==> r == -1 && final(reg).view() == old(reg).view(),
        old(reg).holds(ctx) ==> final(reg).holds(ctx)
            && final(reg).view() == old(reg).with_driver(ctx, final(reg).driver(ctx))
            && exists|res: Result<(), Error>|
                #![trigger D::deinit_post(old(reg).driver(ctx), handle, final(reg).driver(ctx), res)]
                D::deinit_post(old(reg).driver(ctx), handle, final(reg).driver(ctx), res)
                && r == c_status_of(res),
{
    match reg.get_mut(ctx) {
        None => -1,
        Some(d) => {
            let res = d.deinit(handle);
            assert(D::deinit_post(old(reg).driver(ctx), handle, final(reg).driver(ctx), res));
            c_status(&res)
        },
    }
}

/// Writes `data` to the device at `addr` through the driver of `ctx`.
pub fn c_i2c_write<D: I2c>(reg: &mut Registry<D>, ctx: usize, handle: i32, addr: u16, data: &[u8]) -> (r: i32)
    ensures
        !old(reg).holds(ctx) ==> r == -1 && final(reg).view() == old(reg).view(),
        old(reg).holds(ctx) ==> final(reg).holds(ctx)
            && final(reg).view() == old(reg).with_driver(ctx, final(reg).driver(ctx))
            && exists|res: Result<(), Error>|
                #![trigger D::write_post(old(reg).driver(ctx), handle, addr, data@, final(reg).driver(ctx), res)]
                D::write_post(old(reg).driver(ctx), handle, addr, data@, final(reg).driver(ctx), res)
                && r == c_status_of(res),
{
    match reg.get_mut(ctx) {
        None => -1,
        Some(d) => {
            let res = d.write(handle, addr, data);
            assert(D::write_post(old(reg).driver(ctx), handle, addr, data@, final(reg).driver(ctx), res));
            c_status(&res)
        },
    }
}

/// Reads from the device at `addr` into `buff` through the driver of `ctx`.
pub fn c_i2c_read<D: I2c>(reg: &mut Registry<D>, ctx: usize, handle: i32, addr: u16, buff: &mut [u8]) -> (r: i32)
    ensures
        final(buff)@.len() == old(buff)@.len(),
        !old(reg).holds(ctx) ==> r == -1 && final(reg).view() == old(reg).view() && final(buff)@ == old(buff)@,
        old(reg).holds(ctx) ==> final(reg).holds(ctx)
            && final(reg).view() == old(reg).with_driver(ctx, final(reg).driver(ctx))
            && exists|res: Result<(), Error>|
                #![trigger D::read_post(old(reg).driver(ctx), handle, addr, old(buff)@, final(reg).driver(ctx), final(buff)@, res)]
                D::read_post(old(reg).driver(ctx), handle, addr, old(buff)@, final(reg).driver(ctx), final(buff)@, res)
                && r == c_status_of(res),
{
    match reg.get_mut(ctx) {
        None => -1,
        Some(d) => {
            let res = d.read(handle, addr, buff);
            assert(D::read_post(old(reg).driver(ctx), handle, addr, old(buff)@, final(reg).driver(ctx), buff@, res));
            c_status(&res)
        },
    }
}

/// Writes `data` to the device at `addr` and reads its answer into `buff`, in
/// one transaction, through the driver of `ctx`.
pub fn c_i2c_write_read<D: I2c>(reg: &mut Registry<D>, ctx: usize, handle: i32, addr: u16, data: &[u8], buff: &mut [u8]) -> (r: i32)
    ensures
        final(buff)@.len() == old(buff)@.len(),
        !old(reg).holds(ctx) ==> r == -1 && final(reg).view() == old(reg).view() && final(buff)@ == old(buff)@,
        old(reg).holds(ctx) ==> final(reg).holds(ctx)
            && final(reg).view() == old(reg).with_driver(ctx, final(reg).driver(ctx))
            && exists|res: Result<(), Error>|
                #![trigger D::write_read_post(old(reg).driver(ctx), handle, addr, data@, old(buff)@, final(reg).driver(ctx), final(buff)@, res)]
                D::write_read_post(old(reg).driver(ctx), handle, addr, data@, old(buff)@, final(reg).driver(ctx), final(buff)@, res)
                && r == c_status_of(res),
{
    match reg.get_mut(ctx) {
        None => -1,
        Some(d) => {
            let res = d.write_read(handle, addr, data, buff);
            assert(D::write_read_post(old(reg).driver(ctx), handle, addr, data@, old(buff)@, final(reg).driver(ctx), buff@, res));
            c_status(&res)
        },
    }
}

} // verus!
