//! Engine: one optional driver per capability.

use vstd::prelude::*;

use crate::gpio::{Gpio, NullGpio};
use crate::i2c::{I2c, NullI2c};
use crate::spi::{NullSpi, Spi};
use crate::uart::{NullUart, Uart};

verus! {

/// The drivers a platform offers to its guests, at most one per capability.
///
/// A capability that was never wired up has no driver: its accessor gives
/// `None`, and its type defaults to the capability's Null driver.
pub struct Engine<G: Gpio = NullGpio, I: I2c = NullI2c, S: Spi = NullSpi, U: Uart = NullUart> {
    gpio: Option<G>,
    i2c: Option<I>,
    spi: Option<S>,
    uart: Option<U>,
}

impl<G: Gpio, I: I2c, S: Spi, U: Uart> Engine<G, I, S, U> {
    /// The GPIO driver, if any.
    pub closed spec fn gpio_of(self) -> Option<G> {
        self.gpio
    }

    /// The I2C driver, if any.
    pub closed spec fn i2c_of(self) -> Option<I> {
        self.i2c
    }

    /// The SPI driver, if any.
    pub closed spec fn spi_of(self) -> Option<S> {
        self.spi
    }

    /// The UART driver, if any.
    pub closed spec fn uart_of(self) -> Option<U> {
        self.uart
    }

    /// An engine with no driver at all.
    pub fn new() -> (r: Self)
        ensures
            r.gpio_of() is None,
            r.i2c_of() is None,
            r.spi_of() is None,
            r.uart_of() is None,
    {
        Engine { gpio: None, i2c: None, spi: None, uart: None }
    }

    /// The same engine with `drv` as its GPIO driver.
    pub fn with_gpio(self, drv: G) -> (r: Self)
        ensures
            r.gpio_of() == Some(drv),
            r.i2c_of() == self.i2c_of(),
            r.spi_of() == self.spi_of(),
            r.uart_of() == self.uart_of(),
    {
        Engine { gpio: Some(drv), ..self }
    }

    /// The same engine with `drv` as its I2C driver.
    pub fn with_i2c(self, drv: I) -> (r: Self)
        ensures
            r.gpio_of() == self.gpio_of(),
            r.i2c_of() == Some(drv),
            r.spi_of() == self.spi_of(),
            r.uart_of() == self.uart_of(),
    {
        Engine { i2c: Some(drv), ..self }
    }

    /// The same engine with `drv` as its SPI driver.
    pub fn with_spi(self, drv: S) -> (r: Self)
        ensures
            r.gpio_of() == self.gpio_of(),
            r.i2c_of() == self.i2c_of(),
            r.spi_of() == Some(drv),
            r.uart_of() == self.uart_of(),
    {
        Engine { spi: Some(drv), ..self }
    }

    /// The same engine with `drv` as its UART driver.
    pub fn with_uart(self, drv: U) -> (r: Self)
        ensures
            r.gpio_of() == self.gpio_of(),
            r.i2c_of() == self.i2c_of(),
            r.spi_of() == self.spi_of(),
            r.uart_of() == Some(drv),
    {
        Engine { uart: Some(drv), ..self }
    }

    /// Fetch the GPIO driver if available.
    pub fn gpio(&mut self) -> (r: Option<&mut G>)
        ensures
            (match old(self).gpio_of() {
                None => r is None && *final(self) == *old(self),
                Some(d) => r is Some && *r.unwrap() == d
                    && final(self).gpio_of() == Some(*final(r.unwrap()))
                    && final(self).i2c_of() == old(self).i2c_of()
                    && final(self).spi_of() == old(self).spi_of()
                    && final(self).uart_of() == old(self).uart_of(),
            }),
    {
        self.gpio.as_mut()
    }

    /// Fetch the I2C driver if available.
    pub fn i2c(&mut self) -> (r: Option<&mut I>)
        ensures
            (match old(self).i2c_of() {
                None => r is None && *final(self) == *old(self),
                Some(d) => r is Some && *r.unwrap() == d
                    && final(self).i2c_of() == Some(*final(r.unwrap()))
                    && final(self).gpio_of() == old(self).gpio_of()
                    && final(self).spi_of() == old(self).spi_of()
                    && final(self).uart_of() == old(self).uart_of(),
            }),
    {
        self.i2c.as_mut()
    }

    /// Fetch the SPI driver if available.
    pub fn spi(&mut self) -> (r: Option<&mut S>)
        ensures
            (match old(self).spi_of() {
                None => r is None && *final(self) == *old(self),
                Some(d) => r is Some && *r.unwrap() == d
                    && final(self).spi_of() == Some(*final(r.unwrap()))
                    && final(self).gpio_of() == old(self).gpio_of()
                    && final(self).i2c_of() == old(self).i2c_of()
                    && final(self).uart_of() == old(self).uart_of(),
            }),
    {
        self.spi.as_mut()
    }

    /// Fetch the UART driver if available.
    pub fn uart(&mut self) -> (r: Option<&mut U>)
        ensures
            (match old(self).uart_of() {
                None => r is None && *final(self) == *old(self),
                Some(d) => r is Some && *r.unwrap() == d
                    && final(self).uart_of() == Some(*final(r.unwrap()))
                    && final(self).gpio_of() == old(self).gpio_of()
                    && final(self).i2c_of() == old(self).i2c_of()
                    && final(self).spi_of() == old(self).spi_of(),
            }),
    {
        self.uart.as_mut()
    }
}

} // verus!
