//! Guest calls into a GPIO driver.

use vstd::prelude::*;

use embedded_hal::digital::PinState;

use crate::error::{status_from_result, Errno};
use crate::gpio::Gpio;
use crate::guest::{lemma_outcome_of_status, outcome_of};

verus! {

/// Direction the guest asks for when it opens a pin.
#[derive(Clone, Copy, PartialEq, Eq, Structural, Debug)]
pub enum Mode {
    Input,
    Output,
}

/// Level of a pin as the guest sees it.
#[derive(Clone, Copy, PartialEq, Eq, Structural, Debug)]
pub enum Value {
    Low,
    High,
}

/// The pin state that a guest level stands for.
pub open spec fn state_of(v: Value) -> PinState {
    match v {
        Value::Low => PinState::Low,
        Value::High => PinState::High,
    }
}

/// The guest level that a pin state stands for.
pub open spec fn value_of(p: PinState) -> Value {
    match p {
        PinState::Low => Value::Low,
        PinState::High => Value::High,
    }
}

/// Converts a guest level to a pin state.
pub fn pin_state(v: Value) -> (r: PinState)
    ensures
        r == state_of(v),
{
    match v {
        Value::Low => PinState::Low,
        Value::High => PinState::High,
    }
}

/// Converts a pin state to a guest level.
pub fn pin_value(p: PinState) -> (r: Value)
    ensures
        r == value_of(p),
{
    match p {
        PinState::Low => Value::Low,
        PinState::High => Value::High,
    }
}

/// Opens a pin for the guest, as an output exactly when `mode` is `Output`:
/// its status, and the handle on success (`-1` otherwise).
pub fn gpio_init<D: Gpio>(drv: &mut D, port: i32, pin: i32, mode: Mode) -> (r: (Errno, i32))
    ensures
        D::init_post(*old(drv), port, pin, mode == Mode::Output, *final(drv), outcome_of(r.0, r.1)),
        r.0 != Errno::Success ==> r.1 == -1,
{
    let res = drv.init(port, pin, mode == Mode::Output);
    let s = status_from_result(&res);
    let h = match res {
        Ok(h) => h,
        Err(_) => -1,
    };
    proof {
        lemma_outcome_of_status(res, h);
    }
    (s, h)
}

/// Closes a pin handle for the guest.
pub fn gpio_deinit<D: Gpio>(drv: &mut D, handle: i32) -> (r: Errno)
    ensures
        D::deinit_post(*old(drv), handle, *final(drv), outcome_of(r, ())),
{
    let res = drv.deinit(handle);
    proof {
        lemma_outcome_of_status(res, ());
    }
    status_from_result(&res)
}

/// Drives the pin of `handle` to the guest's level.
pub fn gpio_set<D: Gpio>(drv: &mut D, handle: i32, value: Value) -> (r: Errno)
    ensures
        D::set_post(*old(drv), handle, state_of(value), *final(drv), outcome_of(r, ())),
{
    let res = drv.set(handle, pin_state(value));
    proof {
        lemma_outcome_of_status(res, ());
    }
    status_from_result(&res)
}

/// Samples the pin of `handle`: the status, and the level on success (`Low`
/// otherwise).
pub fn gpio_get<D: Gpio>(drv: &mut D, handle: i32) -> (r: (Errno, Value))
    ensures
        D::get_post(*old(drv), handle, *final(drv), outcome_of(r.0, state_of(r.1))),
        r.0 != Errno::Success ==> r.1 == Value::Low,
{
    let res = drv.get(handle);
    let s = status_from_result(&res);
    let v = match res {
        Ok(p) => pin_value(p),
        Err(_) => Value::Low,
    };
    proof {
        lemma_outcome_of_status(res, state_of(v));
    }
    (s, v)
}

} // verus!
