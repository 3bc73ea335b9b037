//! GPIO capability: the operations a GPIO driver offers.

use vstd::prelude::*;

use embedded_hal::digital::PinState;

use crate::error::Error;

verus! {

/// The pin state of embedded-hal, a plain enum of `Low` and `High`.
#[verifier::external_type_specification]
pub struct ExPinState(PinState);

/// A GPIO driver.
///
/// Each operation is described by a relation between the driver before the
/// call, its arguments, the driver after the call and the outcome. A driver
/// that does not state a relation promises nothing of that operation.
pub trait Gpio: Sized {
    /// Outcome of `init`: a handle for `pin` of `port`, as an output or an input.
    open spec fn init_post(pre: Self, port: i32, pin: i32, output: bool, post: Self, r: Result<i32, Error>) -> bool {
        true
    }

    /// Outcome of `deinit` on `handle`.
    open spec fn deinit_post(pre: Self, handle: i32, post: Self, r: Result<(), Error>) -> bool {
        true
    }

    /// Outcome of driving the pin of `handle` to `state`.
    open spec fn set_post(pre: Self, handle: i32, state: PinState, post: Self, r: Result<(), Error>) -> bool {
        true
    }

    /// Outcome of sampling the pin of `handle`.
    open spec fn get_post(pre: Self, handle: i32, post: Self, r: Result<PinState, Error>) -> bool {
        true
    }

    /// Initialise a GPIO by port and pin, returning a handle.
    fn init(&mut self, port: i32, pin: i32, output: bool) -> (r: Result<i32, Error>)
        ensures
            Self::init_post(*old(self), port, pin, output, *final(self), r),
    ;

    /// Deinitialise a GPIO by handle.
    fn deinit(&mut self, handle: i32) -> (r: Result<(), Error>)
        ensures
            Self::deinit_post(*old(self), handle, *final(self), r),
    ;

    /// Set a GPIO state by handle.
    fn set(&mut self, handle: i32, state: PinState) -> (r: Result<(), Error>)
        ensures
            Self::set_post(*old(self), handle, state, *final(self), r),
    ;

    /// Fetch a GPIO state by handle.
    fn get(&mut self, handle: i32) -> (r: Result<PinState, Error>)
        ensures
            Self::get_post(*old(self), handle, *final(self), r),
    ;
}

/// A mutable reference to a driver is a driver with the same behaviour.
impl<T: Gpio> Gpio for &mut T {
    open spec fn init_post(pre: Self, port: i32, pin: i32, output: bool, post: Self, r: Result<i32, Error>) -> bool {
        T::init_post(*pre, port, pin, output, *post, r)
    }

    open spec fn deinit_post(pre: Self, handle: i32, post: Self, r: Result<(), Error>) -> bool {
        T::deinit_post(*pre, handle, *post, r)
    }

    open spec fn set_post(pre: Self, handle: i32, state: PinState, post: Self, r: Result<(), Error>) -> bool {
        T::set_post(*pre, handle, state, *post, r)
    }

    open spec fn get_post(pre: Self, handle: i32, post: Self, r: Result<PinState, Error>) -> bool {
        T::get_post(*pre, handle, *post, r)
    }

    fn init(&mut self, port: i32, pin: i32, output: bool) -> (r: Result<i32, Error>) {
        (**self).init(port, pin, output)
    }

    fn deinit(&mut self, handle: i32) -> (r: Result<(), Error>) {
        (**self).deinit(handle)
    }

    fn set(&mut self, handle: i32, state: PinState) -> (r: Result<(), Error>) {
        (**self).set(handle, state)
    }

    fn get(&mut self, handle: i32) -> (r: Result<PinState, Error>) {
        (**self).get(handle)
    }
}

/// A boxed driver is a driver with the same behaviour.
impl<T: Gpio> Gpio for Box<T> {
    open spec fn init_post(pre: Self, port: i32, pin: i32, output: bool, post: Self, r: Result<i32, Error>) -> bool {
        T::init_post(*pre, port, pin, output, *post, r)
    }

    open spec fn deinit_post(pre: Self, handle: i32, post: Self, r: Result<(), Error>) -> bool {
        T::deinit_post(*pre, handle, *post, r)
    }

    open spec fn set_post(pre: Self, handle: i32, state: PinState, post: Self, r: Result<(), Error>) -> bool {
        T::set_post(*pre, handle, state, *post, r)
    }

    open spec fn get_post(pre: Self, handle: i32, post: Self, r: Result<PinState, Error>) -> bool {
        T::get_post(*pre, handle, *post, r)
    }

    fn init(&mut self, port: i32, pin: i32, output: bool) -> (r: Result<i32, Error>) {
        (**self).init(port, pin, output)
    }

    fn deinit(&mut self, handle: i32) -> (r: Result<(), Error>) {
        (**self).deinit(handle)
    }

    fn set(&mut self, handle: i32, state: PinState) -> (r: Result<(), Error>) {
        (**self).set(handle, state)
    }

    fn get(&mut self, handle: i32) -> (r: Result<PinState, Error>) {
        (**self).get(handle)
    }
}

/// GPIO driver for a platform without GPIO: every operation is unsupported.
pub struct NullGpio;

impl Gpio for NullGpio {
    open spec fn init_post(pre: Self, port: i32, pin: i32, output: bool, post: Self, r: Result<i32, Error>) -> bool {
        r == Err::<i32, Error>(Error::Unsupported)
    }

    open spec fn deinit_post(pre: Self, handle: i32, post: Self, r: Result<(), Error>) -> bool {
        r == Err::<(), Error>(Error::Unsupported)
    }

    open spec fn set_post(pre: Self, handle: i32, state: PinState, post: Self, r: Result<(), Error>) -> bool {
        r == Err::<(), Error>(Error::Unsupported)
    }

    open spec fn get_post(pre: Self, handle: i32, post: Self, r: Result<PinState, Error>) -> bool {
        r == Err::<PinState, Error>(Error::Unsupported)
    }

    fn init(&mut self, _port: i32, _pin: i32, _output: bool) -> (r: Result<i32, Error>) {
        Err(Error::Unsupported)
    }

    fn deinit(&mut self, _handle: i32) -> (r: Result<(), Error>) {
        Err(Error::Unsupported)
    }

    fn set(&mut self, _handle: i32, _state: PinState) -> (r: Result<(), Error>) {
        Err(Error::Unsupported)
    }

    fn get(&mut self, _handle: i32) -> (r: Result<PinState, Error>) {
        Err(Error::Unsupported)
    }
}

/// Whatever the arguments, every operation of the Null driver fails with
/// `Unsupported`.
pub proof fn lemma_null_gpio_unsupported()
    ensures
        forall|pre: NullGpio, port: i32, pin: i32, output: bool, post: NullGpio, r: Result<i32, Error>|
            #[trigger] NullGpio::init_post(pre, port, pin, output, post, r)
                ==> r == Err::<i32, Error>(Error::Unsupported),
        forall|pre: NullGpio, handle: i32, post: NullGpio, r: Result<(), Error>|
            #[trigger] NullGpio::deinit_post(pre, handle, post, r)
                ==> r == Err::<(), Error>(Error::Unsupported),
        forall|pre: NullGpio, handle: i32, state: PinState, post: NullGpio, r: Result<(), Error>|
            #[trigger] NullGpio::set_post(pre, handle, state, post, r)
                ==> r == Err::<(), Error>(Error::Unsupported),
        forall|pre: NullGpio, handle: i32, post: NullGpio, r: Result<PinState, Error>|
            #[trigger] NullGpio::get_post(pre, handle, post, r)
                ==> r == Err::<PinState, Error>(Error::Unsupported),
{
}

/// Calling through a mutable reference is the same as calling the driver
/// itself: the same outcomes, with the same effect on the driver.
pub proof fn lemma_gpio_delegation<T: Gpio>()
    ensures
        forall|pre: &mut T, port: i32, pin: i32, output: bool, post: &mut T, r: Result<i32, Error>|
            #[trigger] <&mut T as Gpio>::init_post(pre, port, pin, output, post, r)
                == T::init_post(*pre, port, pin, output, *post, r),
        forall|pre: &mut T, handle: i32, post: &mut T, r: Result<(), Error>|
            #[trigger] <&mut T as Gpio>::deinit_post(pre, handle, post, r)
                == T::deinit_post(*pre, handle, *post, r),
        forall|pre: &mut T, handle: i32, state: PinState, post: &mut T, r: Result<(), Error>|
            #[trigger] <&mut T as Gpio>::set_post(pre, handle, state, post, r)
                == T::set_post(*pre, handle, state, *post, r),
        forall|pre: &mut T, handle: i32, post: &mut T, r: Result<PinState, Error>|
            #[trigger] <&mut T as Gpio>::get_post(pre, handle, post, r)
                == T::get_post(*pre, handle, *post, r),
{
}

/// Calling through a box is the same as calling the driver itself: the same
/// outcomes, with the same effect on the driver.
pub proof fn lemma_gpio_box_delegation<T: Gpio>()
    ensures
        forall|pre: Box<T>, port: i32, pin: i32, output: bool, post: Box<T>, r: Result<i32, Error>|
            #[trigger] <Box<T> as Gpio>::init_post(pre, port, pin, output, post, r)
                == T::init_post(*pre, port, pin, output, *post, r),
        forall|pre: Box<T>, handle: i32, post: Box<T>, r: Result<(), Error>|
            #[trigger] <Box<T> as Gpio>::deinit_post(pre, handle, post, r)
                == T::deinit_post(*pre, handle, *post, r),
        forall|pre: Box<T>, handle: i32, state: PinState, post: Box<T>, r: Result<(), Error>|
            #[trigger] <Box<T> as Gpio>::set_post(pre, handle, state, post, r)
                == T::set_post(*pre, handle, state, *post, r),
        forall|pre: Box<T>, handle: i32, post: Box<T>, r: Result<PinState, Error>|
            #[trigger] <Box<T> as Gpio>::get_post(pre, handle, post, r)
                == T::get_post(*pre, handle, *post, r),
{
}

} // verus!
