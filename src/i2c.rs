//! I2C capability: the operations an I2C driver offers.

use vstd::prelude::*;

use crate::error::Error;

verus! {

/// An I2C driver.
///
/// Each operation is described by a relation between the driver before the
/// call, its arguments, the driver after the call and the outcome. Callers
/// reason through these relations; a driver that does not state one promises
/// nothing of that operation.
pub trait I2c: Sized {
    /// Outcome of `init`: a handle for the bus `dev` at `baud` on pins `sda`, `sck`.
    open spec fn init_post(pre: Self, dev: u32, baud: u32, sda: i32, sck: i32, post: Self, r: Result<i32, Error>) -> bool {
        true
    }

    /// Outcome of `deinit` on `handle`.
    open spec fn deinit_post(pre: Self, handle: i32, post: Self, r: Result<(), Error>) -> bool {
        true
    }

    /// Outcome of writing `data` to the device at `addr`.
    open spec fn write_post(pre: Self, handle: i32, addr: u16, data: Seq<u8>, post: Self, r: Result<(), Error>) -> bool {
        true
    }

    /// Outcome of reading into a buffer that held `before` and then holds `after`.
    open spec fn read_post(
        pre: Self,
        handle: i32,
        addr: u16,
        before: Seq<u8>,
        post: Self,
        after: Seq<u8>,
        r: Result<(), Error>,
    ) -> bool {
        true
    }

    /// Outcome of writing `data` and then reading into the buffer, in one transaction.
    open spec fn write_read_post(
        pre: Self,
        handle: i32,
        addr: u16,
        data: Seq<u8>,
        before: Seq<u8>,
        post: Self,
        after: Seq<u8>,
        r: Result<(), Error>,
    ) -> bool {
        true
    }

    fn init(&mut self, dev: u32, baud: u32, sda: i32, sck: i32) -> (r: Result<i32, Error>)
        ensures
            Self::init_post(*old(self), dev, baud, sda, sck, *final(self), r),
    ;

    fn deinit(&mut self, handle: i32) -> (r: Result<(), Error>)
        ensures
            Self::deinit_post(*old(self), handle, *final(self), r),
    ;

    fn write(&mut self, handle: i32, addr: u16, data: &[u8]) -> (r: Result<(), Error>)
        ensures
            Self::write_post(*old(self), handle, addr, data@, *final(self), r),
    ;

    fn read(&mut self, handle: i32, addr: u16, buff: &mut [u8]) -> (r: Result<(), Error>)
        ensures
            final(buff)@.len() == old(buff)@.len(),
            Self::read_post(*old(self), handle, addr, old(buff)@, *final(self), final(buff)@, r),
    ;

    fn write_read(&mut self, handle: i32, addr: u16, data: &[u8], buff: &mut [u8]) -> (r: Result<(), Error>)
        ensures
            final(buff)@.len() == old(buff)@.len(),
            Self::write_read_post(*old(self), handle, addr, data@, old(buff)@, *final(self), final(buff)@, r),
    ;
}

/// A mutable reference to a driver is a driver with the same behaviour.
impl<T: I2c> I2c for &mut T {
    open spec fn init_post(pre: Self, dev: u32, baud: u32, sda: i32, sck: i32, post: Self, r: Result<i32, Error>) -> bool {
        T::init_post(*pre, dev, baud, sda, sck, *post, r)
    }

    open spec fn deinit_post(pre: Self, handle: i32, post: Self, r: Result<(), Error>) -> bool {
        T::deinit_post(*pre, handle, *post, r)
    }

    open spec fn write_post(pre: Self, handle: i32, addr: u16, data: Seq<u8>, post: Self, r: Result<(), Error>) -> bool {
        T::write_post(*pre, handle, addr, data, *post, r)
    }

    open spec fn read_post(
        pre: Self,
        handle: i32,
        addr: u16,
        before: Seq<u8>,
        post: Self,
        after: Seq<u8>,
        r: Result<(), Error>,
    ) -> bool {
        T::read_post(*pre, handle, addr, before, *post, after, r)
    }

    open spec fn write_read_post(
        pre: Self,
        handle: i32,
        addr: u16,
        data: Seq<u8>,
        before: Seq<u8>,
        post: Self,
        after: Seq<u8>,
        r: Result<(), Error>,
    ) -> bool {
        T::write_read_post(*pre, handle, addr, data, before, *post, after, r)
    }

    fn init(&mut self, dev: u32, baud: u32, sda: i32, sck: i32) -> (r: Result<i32, Error>) {
        (**self).init(dev, baud, sda, sck)
    }

    fn deinit(&mut self, handle: i32) -> (r: Result<(), Error>) {
        (**self).deinit(handle)
    }

    fn write(&mut self, handle: i32, addr: u16, data: &[u8]) -> (r: Result<(), Error>) {
        (**self).write(handle, addr, data)
    }

    fn read(&mut self, handle: i32, addr: u16, buff: &mut [u8]) -> (r: Result<(), Error>) {
        (**self).read(handle, addr, buff)
    }

    fn write_read(&mut self, handle: i32, addr: u16, data: &[u8], buff: &mut [u8]) -> (r: Result<(), Error>) {
        (**self).write_read(handle, addr, data, buff)
    }
}

/// I2C driver for a platform without I2C: every operation is unsupported.
pub struct NullI2c;

impl I2c for NullI2c {
    open spec fn init_post(pre: Self, dev: u32, baud: u32, sda: i32, sck: i32, post: Self, r: Result<i32, Error>) -> bool {
        r == Err::<i32, Error>(Error::Unsupported)
    }

    open spec fn deinit_post(pre: Self, handle: i32, post: Self, r: Result<(), Error>) -> bool {
        r == Err::<(), Error>(Error::Unsupported)
    }

    open spec fn write_post(pre: Self, handle: i32, addr: u16, data: Seq<u8>, post: Self, r: Result<(), Error>) -> bool {
        r == Err::<(), Error>(Error::Unsupported)
    }

    open spec fn read_post(
        pre: Self,
        handle: i32,
        addr: u16,
        before: Seq<u8>,
        post: Self,
        after: Seq<u8>,
        r: Result<(), Error>,
    ) -> bool {
        r == Err::<(), Error>(Error::Unsupported) && after == before
    }

    open spec fn write_read_post(
        pre: Self,
        handle: i32,
        addr: u16,
        data: Seq<u8>,
        before: Seq<u8>,
        post: Self,
        after: Seq<u8>,
        r: Result<(), Error>,
    ) -> bool {
        r == Err::<(), Error>(Error::Unsupported) && after == before
    }

    fn init(&mut self, _dev: u32, _baud: u32, _sda: i32, _sck: i32) -> (r: Result<i32, Error>) {
        Err(Error::Unsupported)
    }

    fn deinit(&mut self, _handle: i32) -> (r: Result<(), Error>) {
        Err(Error::Unsupported)
    }

    fn write(&mut self, _handle: i32, _addr: u16, _data: &[u8]) -> (r: Result<(), Error>) {
        Err(Error::Unsupported)
    }

    fn read(&mut self, _handle: i32, _addr: u16, _buff: &mut [u8]) -> (r: Result<(), Error>) {
        Err(Error::Unsupported)
    }

    fn write_read(&mut self, _handle: i32, _addr: u16, _data: &[u8], _buff: &mut [u8]) -> (r: Result<(), Error>) {
        Err(Error::Unsupported)
    }
}

/// Whatever the arguments, every operation of the Null driver fails with
/// `Unsupported`, and a buffer handed to it keeps its contents.
pub proof fn lemma_null_i2c_unsupported()
    ensures
        forall|pre: NullI2c, dev: u32, baud: u32, sda: i32, sck: i32, post: NullI2c, r: Result<i32, Error>|
            #[trigger] NullI2c::init_post(pre, dev, baud, sda, sck, post, r) ==> r == Err::<i32, Error>(Error::Unsupported),
        forall|pre: NullI2c, handle: i32, post: NullI2c, r: Result<(), Error>|
            #[trigger] NullI2c::deinit_post(pre, handle, post, r) ==> r == Err::<(), Error>(Error::Unsupported),
        forall|pre: NullI2c, handle: i32, addr: u16, data: Seq<u8>, post: NullI2c, r: Result<(), Error>|
            #[trigger] NullI2c::write_post(pre, handle, addr, data, post, r) ==> r == Err::<(), Error>(Error::Unsupported),
        forall|pre: NullI2c, handle: i32, addr: u16, before: Seq<u8>, post: NullI2c, after: Seq<u8>, r: Result<(), Error>|
            #[trigger] NullI2c::read_post(pre, handle, addr, before, post, after, r)
                ==> r == Err::<(), Error>(Error::Unsupported) && after == before,
        forall|pre: NullI2c, handle: i32, addr: u16, data: Seq<u8>, before: Seq<u8>, post: NullI2c, after: Seq<u8>, r: Result<(), Error>|
            #[trigger] NullI2c::write_read_post(pre, handle, addr, data, before, post, after, r)
                ==> r == Err::<(), Error>(Error::Unsupported) && after == before,
{
}

/// Calling through a mutable reference is the same as calling the driver
/// itself: the same outcomes, with the same effect on the driver.
pub proof fn lemma_i2c_delegation<T: I2c>()
    ensures
        forall|pre: &mut T, dev: u32, baud: u32, sda: i32, sck: i32, post: &mut T, r: Result<i32, Error>|
            #[trigger] <&mut T as I2c>::init_post(pre, dev, baud, sda, sck, post, r)
                == T::init_post(*pre, dev, baud, sda, sck, *post, r),
        forall|pre: &mut T, handle: i32, post: &mut T, r: Result<(), Error>|
            #[trigger] <&mut T as I2c>::deinit_post(pre, handle, post, r) == T::deinit_post(*pre, handle, *post, r),
        forall|pre: &mut T, handle: i32, addr: u16, data: Seq<u8>, post: &mut T, r: Result<(), Error>|
            #[trigger] <&mut T as I2c>::write_post(pre, handle, addr, data, post, r)
                == T::write_post(*pre, handle, addr, data, *post, r),
        forall|pre: &mut T, handle: i32, addr: u16, before: Seq<u8>, post: &mut T, after: Seq<u8>, r: Result<(), Error>|
            #[trigger] <&mut T as I2c>::read_post(pre, handle, addr, before, post, after, r)
                == T::read_post(*pre, handle, addr, before, *post, after, r),
        forall|pre: &mut T, handle: i32, addr: u16, data: Seq<u8>, before: Seq<u8>, post: &mut T, after: Seq<u8>, r: Result<(), Error>|
            #[trigger] <&mut T as I2c>::write_read_post(pre, handle, addr, data, before, post, after, r)
                == T::write_read_post(*pre, handle, addr, data, before, *post, after, r),
{
}

} // verus!
