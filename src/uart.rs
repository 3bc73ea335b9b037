//! UART capability: the operations a UART driver offers.

use vstd::prelude::*;

use crate::error::Error;

verus! {

/// A UART driver.
///
/// Each operation is described by a relation between the driver before the
/// call, its arguments, the driver after the call and the outcome. A driver
/// that does not state a relation promises nothing of that operation.
pub trait Uart: Sized {
    /// Outcome of `init`: a handle for port `dev` at `baud` on pins `tx`, `rx`.
    open spec fn init_post(pre: Self, dev: u32, baud: u32, tx: i32, rx: i32, post: Self, r: Result<i32, Error>) -> bool {
        true
    }

    /// Outcome of `deinit` on `handle`.
    open spec fn deinit_post(pre: Self, handle: i32, post: Self, r: Result<(), Error>) -> bool {
        true
    }

    /// Outcome of sending `data`.
    open spec fn write_post(pre: Self, handle: i32, flags: u32, data: Seq<u8>, post: Self, r: Result<(), Error>) -> bool {
        true
    }

    /// Outcome of receiving into a buffer that held `before` and then holds `after`.
    open spec fn read_post(
        pre: Self,
        handle: i32,
        flags: u32,
        before: Seq<u8>,
        post: Self,
        after: Seq<u8>,
        r: Result<(), Error>,
    ) -> bool {
        true
    }

    fn init(&mut self, dev: u32, baud: u32, tx: i32, rx: i32) -> (r: Result<i32, Error>)
        ensures
            Self::init_post(*old(self), dev, baud, tx, rx, *final(self), r),
    ;

    fn deinit(&mut self, handle: i32) -> (r: Result<(), Error>)
        ensures
            Self::deinit_post(*old(self), handle, *final(self), r),
    ;

    fn write(&mut self, handle: i32, flags: u32, data: &[u8]) -> (r: Result<(), Error>)
        ensures
            Self::write_post(*old(self), handle, flags, data@, *final(self), r),
    ;

    fn read(&mut self, handle: i32, flags: u32, buff: &mut [u8]) -> (r: Result<(), Error>)
        ensures
            final(buff)@.len() == old(buff)@.len(),
            Self::read_post(*old(self), handle, flags, old(buff)@, *final(self), final(buff)@, r),
    ;
}

/// A mutable reference to a driver is a driver with the same behaviour.
impl<T: Uart> Uart for &mut T {
    open spec fn init_post(pre: Self, dev: u32, baud: u32, tx: i32, rx: i32, post: Self, r: Result<i32, Error>) -> bool {
        T::init_post(*pre, dev, baud, tx, rx, *post, r)
    }

    open spec fn deinit_post(pre: Self, handle: i32, post: Self, r: Result<(), Error>) -> bool {
        T::deinit_post(*pre, handle, *post, r)
    }

    open spec fn write_post(pre: Self, handle: i32, flags: u32, data: Seq<u8>, post: Self, r: Result<(), Error>) -> bool {
        T::write_post(*pre, handle, flags, data, *post, r)
    }

    open spec fn read_post(
        pre: Self,
        handle: i32,
        flags: u32,
        before: Seq<u8>,
        post: Self,
        after: Seq<u8>,
        r: Result<(), Error>,
    ) -> bool {
        T::read_post(*pre, handle, flags, before, *post, after, r)
    }

    fn init(&mut self, dev: u32, baud: u32, tx: i32, rx: i32) -> (r: Result<i32, Error>) {
        (**self).init(dev, baud, tx, rx)
    }

    fn deinit(&mut self, handle: i32) -> (r: Result<(), Error>) {
        (**self).deinit(handle)
    }

    fn write(&mut self, handle: i32, flags: u32, data: &[u8]) -> (r: Result<(), Error>) {
        (**self).write(handle, flags, data)
    }

    fn read(&mut self, handle: i32, flags: u32, buff: &mut [u8]) -> (r: Result<(), Error>) {
        (**self).read(handle, flags, buff)
    }
}

/// UART driver for a platform without a UART: every operation is unsupported.
pub struct NullUart;

impl Uart for NullUart {
    open spec fn init_post(pre: Self, dev: u32, baud: u32, tx: i32, rx: i32, post: Self, r: Result<i32, Error>) -> bool {
        r == Err::<i32, Error>(Error::Unsupported)
    }

    open spec fn deinit_post(pre: Self, handle: i32, post: Self, r: Result<(), Error>) -> bool {
        r == Err::<(), Error>(Error::Unsupported)
    }

    open spec fn write_post(pre: Self, handle: i32, flags: u32, data: Seq<u8>, post: Self, r: Result<(), Error>) -> bool {
        r == Err::<(), Error>(Error::Unsupported)
    }

    open spec fn read_post(
        pre: Self,
        handle: i32,
        flags: u32,
        before: Seq<u8>,
        post: Self,
        after: Seq<u8>,
        r: Result<(), Error>,
    ) -> bool {
        r == Err::<(), Error>(Error::Unsupported) && after == before
    }

    fn init(&mut self, _dev: u32, _baud: u32, _tx: i32, _rx: i32) -> (r: Result<i32, Error>) {
        Err(Error::Unsupported)
    }

    fn deinit(&mut self, _handle: i32) -> (r: Result<(), Error>) {
        Err(Error::Unsupported)
    }

    fn write(&mut self, _handle: i32, _flags: u32, _data: &[u8]) -> (r: Result<(), Error>) {
        Err(Error::Unsupported)
    }

    fn read(&mut self, _handle: i32, _flags: u32, _buff: &mut [u8]) -> (r: Result<(), Error>) {
        Err(Error::Unsupported)
    }
}

/// Whatever the arguments, every operation of the Null driver fails with
/// `Unsupported`, and a buffer handed to it keeps its contents.
pub proof fn lemma_null_uart_unsupported()
    ensures
        forall|pre: NullUart, dev: u32, baud: u32, tx: i32, rx: i32, post: NullUart, r: Result<i32, Error>|
            #[trigger] NullUart::init_post(pre, dev, baud, tx, rx, post, r)
                ==> r == Err::<i32, Error>(Error::Unsupported),
        forall|pre: NullUart, handle: i32, post: NullUart, r: Result<(), Error>|
            #[trigger] NullUart::deinit_post(pre, handle, post, r)
                ==> r == Err::<(), Error>(Error::Unsupported),
        forall|pre: NullUart, handle: i32, flags: u32, data: Seq<u8>, post: NullUart, r: Result<(), Error>|
            #[trigger] NullUart::write_post(pre, handle, flags, data, post, r)
                ==> r == Err::<(), Error>(Error::Unsupported),
        forall|pre: NullUart, handle: i32, flags: u32, before: Seq<u8>, post: NullUart, after: Seq<u8>, r: Result<(), Error>|
            #[trigger] NullUart::read_post(pre, handle, flags, before, post, after, r)
                ==> r == Err::<(), Error>(Error::Unsupported) && after == before,
{
}

/// Calling through a mutable reference is the same as calling the driver
/// itself: the same outcomes, with the same effect on the driver.
pub proof fn lemma_uart_delegation<T: Uart>()
    ensures
        forall|pre: &mut T, dev: u32, baud: u32, tx: i32, rx: i32, post: &mut T, r: Result<i32, Error>|
            #[trigger] <&mut T as Uart>::init_post(pre, dev, baud, tx, rx, post, r)
                == T::init_post(*pre, dev, baud, tx, rx, *post, r),
        forall|pre: &mut T, handle: i32, post: &mut T, r: Result<(), Error>|
            #[trigger] <&mut T as Uart>::deinit_post(pre, handle, post, r)
                == T::deinit_post(*pre, handle, *post, r),
        forall|pre: &mut T, handle: i32, flags: u32, data: Seq<u8>, post: &mut T, r: Result<(), Error>|
            #[trigger] <&mut T as Uart>::write_post(pre, handle, flags, data, post, r)
                == T::write_post(*pre, handle, flags, data, *post, r),
        forall|pre: &mut T, handle: i32, flags: u32, before: Seq<u8>, post: &mut T, after: Seq<u8>, r: Result<(), Error>|
            #[trigger] <&mut T as Uart>::read_post(pre, handle, flags, before, post, after, r)
                == T::read_post(*pre, handle, flags, before, *post, after, r),
{
}

} // verus!
