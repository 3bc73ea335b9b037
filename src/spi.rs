//! SPI capability: the operations an SPI driver offers.

use vstd::prelude::*;

use crate::error::Error;

verus! {

/// An SPI driver.
///
/// Each operation is described by a relation between the driver before the
/// call, its arguments, the driver after the call and the outcome. A buffer
/// that the driver fills held `before` at the call and holds `after` once it
/// returns. A driver that does not state a relation promises nothing of that
/// operation.
pub trait Spi: Sized {
    /// Outcome of `init`: a handle for bus `dev` at `baud` on the given pins.
    open spec fn init_post(
        pre: Self,
        dev: u32,
        baud: u32,
        mosi: i32,
        miso: i32,
        sck: i32,
        cs: i32,
        post: Self,
        r: Result<i32, Error>,
    ) -> bool {
        true
    }

    /// Outcome of `deinit` on `handle`.
    open spec fn deinit_post(pre: Self, handle: i32, post: Self, r: Result<(), Error>) -> bool {
        true
    }

    /// Outcome of reading into a buffer.
    open spec fn read_post(pre: Self, handle: i32, before: Seq<u8>, post: Self, after: Seq<u8>, r: Result<(), Error>) -> bool {
        true
    }

    /// Outcome of writing `data`.
    open spec fn write_post(pre: Self, handle: i32, data: Seq<u8>, post: Self, r: Result<(), Error>) -> bool {
        true
    }

    /// Outcome of clocking `data` out while reading into a buffer.
    open spec fn transfer_post(
        pre: Self,
        handle: i32,
        before: Seq<u8>,
        data: Seq<u8>,
        post: Self,
        after: Seq<u8>,
        r: Result<(), Error>,
    ) -> bool {
        true
    }

    /// Outcome of clocking a buffer out and replacing it with what came in.
    open spec fn transfer_inplace_post(
        pre: Self,
        handle: i32,
        before: Seq<u8>,
        post: Self,
        after: Seq<u8>,
        r: Result<(), Error>,
    ) -> bool {
        true
    }

    fn init(&mut self, dev: u32, baud: u32, mosi: i32, miso: i32, sck: i32, cs: i32) -> (r: Result<i32, Error>)
        ensures
            Self::init_post(*old(self), dev, baud, mosi, miso, sck, cs, *final(self), r),
    ;

    fn deinit(&mut self, handle: i32) -> (r: Result<(), Error>)
        ensures
            Self::deinit_post(*old(self), handle, *final(self), r),
    ;

    fn read(&mut self, handle: i32, data: &mut [u8]) -> (r: Result<(), Error>)
        ensures
            final(data)@.len() == old(data)@.len(),
            Self::read_post(*old(self), handle, old(data)@, *final(self), final(data)@, r),
    ;

    fn write(&mut self, handle: i32, data: &[u8]) -> (r: Result<(), Error>)
        ensures
            Self::write_post(*old(self), handle, data@, *final(self), r),
    ;

    fn transfer(&mut self, handle: i32, read: &mut [u8], write: &[u8]) -> (r: Result<(), Error>)
        ensures
            final(read)@.len() == old(read)@.len(),
            Self::transfer_post(*old(self), handle, old(read)@, write@, *final(self), final(read)@, r),
    ;

    fn transfer_inplace(&mut self, handle: i32, data: &mut [u8]) -> (r: Result<(), Error>)
        ensures
            final(data)@.len() == old(data)@.len(),
            Self::transfer_inplace_post(*old(self), handle, old(data)@, *final(self), final(data)@, r),
    ;
}

/// A mutable reference to a driver is a driver with the same behaviour.
impl<T: Spi> Spi for &mut T {
    open spec fn init_post(
        pre: Self,
        dev: u32,
        baud: u32,
        mosi: i32,
        miso: i32,
        sck: i32,
        cs: i32,
        post: Self,
        r: Result<i32, Error>,
    ) -> bool {
        T::init_post(*pre, dev, baud, mosi, miso, sck, cs, *post, r)
    }

    open spec fn deinit_post(pre: Self, handle: i32, post: Self, r: Result<(), Error>) -> bool {
        T::deinit_post(*pre, handle, *post, r)
    }

    open spec fn read_post(pre: Self, handle: i32, before: Seq<u8>, post: Self, after: Seq<u8>, r: Result<(), Error>) -> bool {
        T::read_post(*pre, handle, before, *post, after, r)
    }

    open spec fn write_post(pre: Self, handle: i32, data: Seq<u8>, post: Self, r: Result<(), Error>) -> bool {
        T::write_post(*pre, handle, data, *post, r)
    }

    open spec fn transfer_post(
        pre: Self,
        handle: i32,
        before: Seq<u8>,
        data: Seq<u8>,
        post: Self,
        after: Seq<u8>,
        r: Result<(), Error>,
    ) -> bool {
        T::transfer_post(*pre, handle, before, data, *post, after, r)
    }

    open spec fn transfer_inplace_post(
        pre: Self,
        handle: i32,
        before: Seq<u8>,
        post: Self,
        after: Seq<u8>,
        r: Result<(), Error>,
    ) -> bool {
        T::transfer_inplace_post(*pre, handle, before, *post, after, r)
    }

    fn init(&mut self, dev: u32, baud: u32, mosi: i32, miso: i32, sck: i32, cs: i32) -> (r: Result<i32, Error>) {
        (**self).init(dev, baud, mosi, miso, sck, cs)
    }

    fn deinit(&mut self, handle: i32) -> (r: Result<(), Error>) {
        (**self).deinit(handle)
    }

    fn read(&mut self, handle: i32, data: &mut [u8]) -> (r: Result<(), Error>) {
        (**self).read(handle, data)
    }

    fn write(&mut self, handle: i32, data: &[u8]) -> (r: Result<(), Error>) {
        (**self).write(handle, data)
    }

    fn transfer(&mut self, handle: i32, read: &mut [u8], write: &[u8]) -> (r: Result<(), Error>) {
        (**self).transfer(handle, read, write)
    }

    fn transfer_inplace(&mut self, handle: i32, data: &mut [u8]) -> (r: Result<(), Error>) {
        (**self).transfer_inplace(handle, data)
    }
}

/// SPI driver for a platform without SPI: every operation is unsupported.
pub struct NullSpi;

impl Spi for NullSpi {
    open spec fn init_post(
        pre: Self,
        dev: u32,
        baud: u32,
        mosi: i32,
        miso: i32,
        sck: i32,
        cs: i32,
        post: Self,
        r: Result<i32, Error>,
    ) -> bool {
        r == Err::<i32, Error>(Error::Unsupported)
    }

    open spec fn deinit_post(pre: Self, handle: i32, post: Self, r: Result<(), Error>) -> bool {
        r == Err::<(), Error>(Error::Unsupported)
    }

    open spec fn read_post(pre: Self, handle: i32, before: Seq<u8>, post: Self, after: Seq<u8>, r: Result<(), Error>) -> bool {
        r == Err::<(), Error>(Error::Unsupported) && after == before
    }

    open spec fn write_post(pre: Self, handle: i32, data: Seq<u8>, post: Self, r: Result<(), Error>) -> bool {
        r == Err::<(), Error>(Error::Unsupported)
    }

    open spec fn transfer_post(
        pre: Self,
        handle: i32,
        before: Seq<u8>,
        data: Seq<u8>,
        post: Self,
        after: Seq<u8>,
        r: Result<(), Error>,
    ) -> bool {
        r == Err::<(), Error>(Error::Unsupported) && after == before
    }

    open spec fn transfer_inplace_post(
        pre: Self,
        handle: i32,
        before: Seq<u8>,
        post: Self,
        after: Seq<u8>,
        r: Result<(), Error>,
    ) -> bool {
        r == Err::<(), Error>(Error::Unsupported) && after == before
    }

    fn init(&mut self, _dev: u32, _baud: u32, _mosi: i32, _miso: i32, _sck: i32, _cs: i32) -> (r: Result<i32, Error>) {
        Err(Error::Unsupported)
    }

    fn deinit(&mut self, _handle: i32) -> (r: Result<(), Error>) {
        Err(Error::Unsupported)
    }

    fn read(&mut self, _handle: i32, _data: &mut [u8]) -> (r: Result<(), Error>) {
        Err(Error::Unsupported)
    }

    fn write(&mut self, _handle: i32, _data: &[u8]) -> (r: Result<(), Error>) {
        Err(Error::Unsupported)
    }

    fn transfer(&mut self, _handle: i32, _read: &mut [u8], _write: &[u8]) -> (r: Result<(), Error>) {
        Err(Error::Unsupported)
    }

    fn transfer_inplace(&mut self, _handle: i32, _data: &mut [u8]) -> (r: Result<(), Error>) {
        Err(Error::Unsupported)
    }
}

/// Whatever the arguments, every operation of the Null driver fails with
/// `Unsupported`, and a buffer handed to it keeps its contents.
pub proof fn lemma_null_spi_unsupported()
    ensures
        forall|pre: NullSpi, dev: u32, baud: u32, mosi: i32, miso: i32, sck: i32, cs: i32, post: NullSpi, r: Result<i32, Error>|
            #[trigger] NullSpi::init_post(pre, dev, baud, mosi, miso, sck, cs, post, r)
                ==> r == Err::<i32, Error>(Error::Unsupported),
        forall|pre: NullSpi, handle: i32, post: NullSpi, r: Result<(), Error>|
            #[trigger] NullSpi::deinit_post(pre, handle, post, r)
                ==> r == Err::<(), Error>(Error::Unsupported),
        forall|pre: NullSpi, handle: i32, before: Seq<u8>, post: NullSpi, after: Seq<u8>, r: Result<(), Error>|
            #[trigger] NullSpi::read_post(pre, handle, before, post, after, r)
                ==> r == Err::<(), Error>(Error::Unsupported) && after == before,
        forall|pre: NullSpi, handle: i32, data: Seq<u8>, post: NullSpi, r: Result<(), Error>|
            #[trigger] NullSpi::write_post(pre, handle, data, post, r)
                ==> r == Err::<(), Error>(Error::Unsupported),
        forall|pre: NullSpi, handle: i32, before: Seq<u8>, data: Seq<u8>, post: NullSpi, after: Seq<u8>, r: Result<(), Error>|
            #[trigger] NullSpi::transfer_post(pre, handle, before, data, post, after, r)
                ==> r == Err::<(), Error>(Error::Unsupported) && after == before,
        forall|pre: NullSpi, handle: i32, before: Seq<u8>, post: NullSpi, after: Seq<u8>, r: Result<(), Error>|
            #[trigger] NullSpi::transfer_inplace_post(pre, handle, before, post, after, r)
                ==> r == Err::<(), Error>(Error::Unsupported) && after == before,
{
}

/// Calling through a mutable reference is the same as calling the driver
/// itself: the same outcomes, with the same effect on the driver.
pub proof fn lemma_spi_delegation<T: Spi>()
    ensures
        forall|pre: &mut T, dev: u32, baud: u32, mosi: i32, miso: i32, sck: i32, cs: i32, post: &mut T, r: Result<i32, Error>|
            #[trigger] <&mut T as Spi>::init_post(pre, dev, baud, mosi, miso, sck, cs, post, r)
                == T::init_post(*pre, dev, baud, mosi, miso, sck, cs, *post, r),
        forall|pre: &mut T, handle: i32, post: &mut T, r: Result<(), Error>|
            #[trigger] <&mut T as Spi>::deinit_post(pre, handle, post, r)
                == T::deinit_post(*pre, handle, *post, r),
        forall|pre: &mut T, handle: i32, before: Seq<u8>, post: &mut T, after: Seq<u8>, r: Result<(), Error>|
            #[trigger] <&mut T as Spi>::read_post(pre, handle, before, post, after, r)
                == T::read_post(*pre, handle, before, *post, after, r),
        forall|pre: &mut T, handle: i32, data: Seq<u8>, post: &mut T, r: Result<(), Error>|
            #[trigger] <&mut T as Spi>::write_post(pre, handle, data, post, r)
                == T::write_post(*pre, handle, data, *post, r),
        forall|pre: &mut T, handle: i32, before: Seq<u8>, data: Seq<u8>, post: &mut T, after: Seq<u8>, r: Result<(), Error>|
            #[trigger] <&mut T as Spi>::transfer_post(pre, handle, before, data, post, after, r)
                == T::transfer_post(*pre, handle, before, data, *post, after, r),
        forall|pre: &mut T, handle: i32, before: Seq<u8>, post: &mut T, after: Seq<u8>, r: Result<(), Error>|
            #[trigger] <&mut T as Spi>::transfer_inplace_post(pre, handle, before, post, after, r)
                == T::transfer_inplace_post(*pre, handle, before, *post, after, r),
{
}

} // verus!
