//! Foreign entry points into a registered GPIO driver.
//!
//! Each returns `0` on success and `-1` on any failure, a token that names
//! no driver included; what went wrong is not reported.

use vstd::prelude::*;

use embedded_hal::digital::PinState;

use crate::error::Error;
use crate::gpio::Gpio;
use crate::registry::{c_status, c_status_of, c_value_of, Registry};

verus! {

/// Opens `pin` of `port`, as an output when `output` holds, through the driver
/// of `ctx`: the status and, on success, the handle (`-1` otherwise).
pub fn c_gpio_init<D: Gpio>(reg: &mut Registry<D>, ctx: usize, port: i32, pin: i32, output: bool) -> (r: (i32, i32))
    ensures
        !old(reg).holds(ctx) ==> r == (-1i32, -1i32) && final(reg).view() == old(reg).view(),
        old(reg).holds(ctx) ==> final(reg).holds(ctx)
            && final(reg).view() == old(reg).with_driver(ctx, final(reg).driver(ctx))
            && exists|res: Result<i32, Error>|
                #![trigger D::init_post(old(reg).driver(ctx), port, pin, output, final(reg).driver(ctx), res)]
                D::init_post(old(reg).driver(ctx), port, pin, output, final(reg).driver(ctx), res)
                && r == (c_status_of(res), c_value_of(res, -1i32)),
{
    match reg.get_mut(ctx) {
        None => (-1, -1i32),
        Some(d) => {
            let res = d.init(port, pin, output);
            assert(D::init_post(old(reg).driver(ctx), port, pin, output, final(reg).driver(ctx), res));
            (c_status(&res), match res {
                Ok(v) => v,
                Err(_) => -1i32,
            })
        },
    }
}

/// Closes `handle` through the driver of `ctx`.
pub fn c_gpio_deinit<D: Gpio>(reg: &mut Registry<D>, ctx: usize, handle: i32) -> (r: i32)
    ensures
        !old(reg).holds(ctx) ==> r == -1 && final(reg).view() == old(reg).view(),
        old(reg).holds(ctx) ==> final(reg).holds(ctx)
            && final(reg).view() == old(reg).with_driver(ctx, final(reg).driver(ctx))
            && exists|res: Result<(), Error>|
                #![trigger D::deinit_post(old(reg).driver(ctx), handle, final(reg).driver(ctx), res)]
                D::deinit_post(old(reg).driver(ctx), handle, final(reg).driver(ctx), res)
                && r == c_status_of(res),
{
    match reg.get_mut(ctx) {
        None => -1,
        Some(d) => {
            let res = d.deinit(handle);
            assert(D::deinit_post(old(reg).driver(ctx), handle, final(reg).driver(ctx), res));
            c_status(&res)
        },
    }
}

/// Drives the pin of `handle` to `state` through the driver of `ctx`.
pub fn c_gpio_set<D: Gpio>(reg: &mut Registry<D>, ctx: usize, handle: i32, state: PinState) -> (r: i32)
    ensures
        !old(reg).holds(ctx) ==> r == -1 && final(reg).view() == old(reg).view(),
        old(reg).holds(ctx) ==> final(reg).holds(ctx)
            && final(reg).view() == old(reg).with_driver(ctx, final(reg).driver(ctx))
            && exists|res: Result<(), Error>|
                #![trigger D::set_post(old(reg).driver(ctx), handle, state, final(reg).driver(ctx), res)]
                D::set_post(old(reg).driver(ctx), handle, state, final(reg).driver(ctx), res)
                && r == c_status_of(res),
{
    match reg.get_mut(ctx) {
        None => -1,
        Some(d) => {
            let res = d.set(handle, state);
            assert(D::set_post(old(reg).driver(ctx), handle, state, final(reg).driver(ctx), res));
            c_status(&res)
        },
    }
}

/// Samples the pin of `handle` through the driver of `ctx`: the status and, on
/// success, the state (`Low` otherwise).
pub fn c_gpio_get<D: Gpio>(reg: &mut Registry<D>, ctx: usize, handle: i32) -> (r: (i32, PinState))
    ensures
        !old(reg).holds(ctx) ==> r == (-1i32, PinState::Low) && final(reg).view() == old(reg).view(),
        old(reg).holds(ctx) ==> final(reg).holds(ctx)
            && final(reg).view() == old(reg).with_driver(ctx, final(reg).driver(ctx))
            && exists|res: Result<PinState, Error>|
                #![trigger D::get_post(old(reg).driver(ctx), handle, final(reg).driver(ctx), res)]
                D::get_post(old(reg).driver(ctx), handle, final(reg).driver(ctx), res)
                && r == (c_status_of(res), c_value_of(res, PinState::Low)),
{
    match reg.get_mut(ctx) {
        None => (-1, PinState::Low),
        Some(d) => {
            let res = d.get(handle);
            assert(D::get_post(old(reg).driver(ctx), handle, final(reg).driver(ctx), res));
            (c_status(&res), match res {
                Ok(v) => v,
                Err(_) => PinState::Low,
            })
        },
    }
}

} // verus!
