//! Contract between a sandboxed guest and the host's peripheral drivers.
//!
//! Capability traits for GPIO, I2C, SPI and UART drivers, the guest-memory
//! marshalling that feeds them, a handle registry for foreign callers, an
//! engine that gathers one driver per capability, and the integrity manifest
//! that binds a guest binary to its digests.

mod engine;
pub use engine::Engine;

mod error;
pub use error::{
    errno_from_error, error_from_errno, errno_of, error_of, lemma_code_round_trip,
    lemma_errno_bijection, status_from_result, status_of, Errno, Error,
};

mod c_gpio;
pub use c_gpio::{c_gpio_deinit, c_gpio_get, c_gpio_init, c_gpio_set};

mod c_i2c;
pub use c_i2c::{c_i2c_deinit, c_i2c_init, c_i2c_read, c_i2c_write, c_i2c_write_read};

mod c_spi;
pub use c_spi::{
    c_spi_deinit, c_spi_init, c_spi_read, c_spi_transfer, c_spi_transfer_inplace, c_spi_write,
};

mod c_uart;
pub use c_uart::{c_uart_deinit, c_uart_init, c_uart_read, c_uart_write};

mod display;
pub use display::{Display, DisplayInfo, PixelFormat};

mod gpio;
pub use gpio::{
    lemma_gpio_box_delegation, lemma_gpio_delegation, lemma_null_gpio_unsupported, Gpio, NullGpio,
};

mod guest;
pub use guest::{
    check_disjoint, check_span, lemma_outcome_of_status, lemma_span_bounds, outcome_of, read_span,
    span_of, splice, write_span, GuestBytes, MemoryFault,
};

mod guest_gpio;
pub use guest_gpio::{
    gpio_deinit, gpio_get, gpio_init, gpio_set, pin_state, pin_value, state_of, value_of, Mode,
    Value,
};

mod guest_i2c;
pub use guest_i2c::{i2c_deinit, i2c_init, i2c_read, i2c_write, i2c_write_read};

mod guest_spi;
pub use guest_spi::{
    spi_deinit, spi_init, spi_read, spi_transfer, spi_transfer_inplace, spi_write,
};

mod guest_uart;
pub use guest_uart::{uart_deinit, uart_init, uart_read, uart_write};

mod i2c;
pub use i2c::{lemma_i2c_delegation, lemma_null_i2c_unsupported, I2c, NullI2c};

mod manifest;
pub use manifest::{
    encoding, le_u16, le_u32, sha512_of, Manifest, ManifestBuilder, MANIFEST_LEN, MANIFEST_VERSION,
};

mod registry;
pub use registry::{c_status, c_status_of, c_value_of, Registry};

mod spi;
pub use spi::{lemma_null_spi_unsupported, lemma_spi_delegation, NullSpi, Spi};

mod uart;
pub use uart::{lemma_null_uart_unsupported, lemma_uart_delegation, NullUart, Uart};
